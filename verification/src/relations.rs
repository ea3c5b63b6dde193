//! The three relations that the parent table induces on the bones: children,
//! descendants, and the bones whose global transform a change to one bone
//! affects.

use vstd::prelude::*;

use crate::bone::{lemma_descends_step, lemma_ordinal_round_trip, lemma_parent_precedes, Bone};
use crate::mask::BoneMask;

verus! {

impl Bone {
    /// The bones that hang directly from `self`.
    pub open spec fn spec_children(self) -> Set<Bone> {
        Set::new(|c: Bone| c.spec_parent() == Some(self))
    }

    /// The bones that lie below `self` in the tree, `self` not among them.
    pub open spec fn spec_descendants(self) -> Set<Bone> {
        Set::new(|c: Bone| c.descends_from(self))
    }

    /// The bones whose global transform depends on the local transform of
    /// `self`: `self` and everything below it.
    pub open spec fn spec_affected(self) -> Set<Bone> {
        self.spec_descendants().insert(self)
    }

    /// The set that holds this bone alone.
    pub fn mask(&self) -> (r: BoneMask)
        ensures
            r@ == Set::<Bone>::empty().insert(*self),
    {
        BoneMask::single(*self)
    }

    pub fn children(&self) -> (r: BoneMask)
        ensures
            r@ == self.spec_children(),
    {
        let mut out = BoneMask::empty();
        let mut i: u8 = 0;
        while i < 55
            invariant
                i <= 55,
                forall|c: Bone|
                    #[trigger] out@.contains(c) <==> (c.spec_ordinal() < i && c.spec_parent()
                        == Some(*self)),
            decreases 55 - i,
        {
            match Bone::from_ordinal(i) {
                Some(c) => {
                    match c.parent() {
                        Some(p) => {
                            if p == *self {
                                out.insert(c);
                            }
                        },
                        None => {},
                    }
                    proof {
                        assert forall|d: Bone|
                            out@.contains(d) <==> (d.spec_ordinal() < i + 1 && d.spec_parent()
                                == Some(*self)) by {
                            lemma_ordinal_round_trip(d);
                            lemma_ordinal_round_trip(c);
                        }
                    }
                },
                None => {},
            }
            i += 1;
        }
        proof {
            assert forall|c: Bone| out@.contains(c) == self.spec_children().contains(c) by {
                lemma_ordinal_round_trip(c);
            }
            assert(out@ =~= self.spec_children());
        }
        out
    }

    pub fn descendants(&self) -> (r: BoneMask)
        ensures
            r@ == self.spec_descendants(),
    {
        let mut out = BoneMask::empty();
        let mut i: u8 = 0;
        while i < 55
            invariant
                i <= 55,
                forall|c: Bone|
                    #[trigger] out@.contains(c) <==> (c.spec_ordinal() < i && c.descends_from(
                        *self,
                    )),
            decreases 55 - i,
        {
            match Bone::from_ordinal(i) {
                Some(c) => {
                    let ghost before = out@;
                    proof {
                        lemma_descends_step(c, *self);
                        lemma_ordinal_round_trip(c);
                        assert(!before.contains(c));
                    }
                    match c.parent() {
                        Some(p) => {
                            proof {
                                assert(before.contains(p) <==> p.descends_from(*self));
                            }
                            if p == *self || out.contains(p) {
                                out.insert(c);
                            }
                        },
                        None => {},
                    }
                    proof {
                        assert forall|d: Bone|
                            out@.contains(d) <==> (d.spec_ordinal() < i + 1 && d.descends_from(
                                *self,
                            )) by {
                            lemma_ordinal_round_trip(d);
                        }
                    }
                },
                None => {},
            }
            i += 1;
        }
        proof {
            assert forall|c: Bone| out@.contains(c) == self.spec_descendants().contains(c) by {
                lemma_ordinal_round_trip(c);
            }
            assert(out@ =~= self.spec_descendants());
        }
        out
    }

    pub fn affected(&self) -> (r: BoneMask)
        ensures
            r@ == self.spec_affected(),
            r@ == self.spec_descendants().union(Set::<Bone>::empty().insert(*self)),
    {
        let mut out = self.descendants();
        out.insert(*self);
        proof {
            assert(out@ =~= self.spec_descendants().union(Set::<Bone>::empty().insert(*self)));
        }
        out
    }
}

/// Whether `path` climbs the tree from `from` to just below `to`: it starts
/// at `from`, each of its bones is followed by its parent, and the parent of
/// its last bone is `to`. The empty path climbs from a bone to itself.
pub open spec fn climbs(path: Seq<Bone>, from: Bone, to: Bone) -> bool {
    if path.len() == 0 {
        from == to
    } else {
        &&& path[0] == from
        &&& forall|i: int| 0 <= i < path.len() - 1 ==> (#[trigger] path[i]).spec_parent() == Some(path[i + 1])
        &&& path[path.len() - 1].spec_parent() == Some(to)
        &&& forall|i: int| 0 <= i < path.len() ==> #[trigger] path[i] != to
    }
}

impl Bone {
    /// The bones on the way from `self` up to `ancestor`, `self` first and
    /// `ancestor` left out; `None` where `ancestor` is neither `self` nor
    /// above it.
    pub fn path_up_to(&self, ancestor: Bone) -> (r: Option<Vec<Bone>>)
        ensures
            r.is_some() <==> (*self == ancestor || self.descends_from(ancestor)),
            r.is_some() ==> climbs(r.unwrap()@, *self, ancestor),
    {
        let mut path: Vec<Bone> = Vec::new();
        let mut at = *self;
        while at != ancestor
            invariant
                (*self == ancestor || self.descends_from(ancestor)) <==> (at == ancestor
                    || at.descends_from(ancestor)),
                path@.len() == 0 ==> at == *self,
                path@.len() > 0 ==> path@[0] == *self && path@[path@.len() - 1].spec_parent()
                    == Some(at),
                forall|i: int| 0 <= i < path@.len() - 1 ==> (#[trigger] path@[i]).spec_parent() == Some(path@[i + 1]),
                forall|i: int| 0 <= i < path@.len() ==> #[trigger] path@[i] != ancestor,
            decreases at.spec_ordinal(),
        {
            proof {
                lemma_descends_step(at, ancestor);
            }
            match at.parent() {
                Some(p) => {
                    path.push(at);
                    at = p;
                },
                None => {
                    return None;
                },
            }
        }
        Some(path)
    }
}

/// `parent` and `children` are inverse to each other: a bone is a child of
/// exactly the bone that is its parent.
pub proof fn lemma_children_parent_inverse(b: Bone, c: Bone)
    ensures
        b.spec_children().contains(c) <==> c.spec_parent() == Some(b),
{
}

/// The affected bones of `b` are its descendants together with `b` itself,
/// and `b` is not its own descendant.
pub proof fn lemma_affected_is_descendants_and_self(b: Bone)
    ensures
        b.spec_affected() == b.spec_descendants().union(Set::<Bone>::empty().insert(b)),
        !b.spec_descendants().contains(b),
{
    lemma_descends_step(b, b);
    assert(b.spec_affected() =~= b.spec_descendants().union(Set::<Bone>::empty().insert(b)));
}

/// The descendants of `b` hold the children of `b` and, with every bone, that
/// bone's children.
pub proof fn lemma_descendants_closed(b: Bone, m: Bone, c: Bone)
    requires
        m.spec_children().contains(c),
    ensures
        m == b ==> b.spec_descendants().contains(c),
        b.spec_descendants().contains(m) ==> b.spec_descendants().contains(c),
{
    lemma_descends_step(c, b);
}

/// The descendants of `b` are the least such set: every set that holds the
/// children of `b` and, with every bone, that bone's children holds all
/// descendants of `b`. Together with `lemma_descendants_closed` this makes
/// `descendants` the transitive closure of `children`.
pub proof fn lemma_descendants_least(b: Bone, closed: Set<Bone>, c: Bone)
    requires
        forall|x: Bone| b.spec_children().contains(x) ==> closed.contains(x),
        forall|m: Bone, x: Bone|
            closed.contains(m) && m.spec_children().contains(x) ==> closed.contains(x),
        b.spec_descendants().contains(c),
    ensures
        closed.contains(c),
    decreases c.spec_ordinal(),
{
    lemma_descends_step(c, b);
    lemma_parent_precedes(c);
    let p = c.spec_parent().unwrap();
    assert(p.spec_children().contains(c));
    if p != b {
        lemma_descendants_least(b, closed, p);
    }
}

/// Descent is transitive.
pub proof fn lemma_descends_transitive(b: Bone, m: Bone, c: Bone)
    requires
        m.descends_from(b),
        c.descends_from(m),
    ensures
        c.descends_from(b),
    decreases c.spec_ordinal(),
{
    lemma_descends_step(c, m);
    lemma_descends_step(c, b);
    lemma_parent_precedes(c);
    let p = c.spec_parent().unwrap();
    if p != m {
        lemma_descends_transitive(b, m, p);
    }
}

} // verus!
