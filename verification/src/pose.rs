//! The pose store: the root transform, one local transform per bone, and a
//! cache of global transforms that is filled on demand and emptied, bone by
//! bone, when a local transform below changes.

use vstd::prelude::*;

use crate::bone::{lemma_descends_step, lemma_ordinal_round_trip, lemma_parent_precedes, Bone};
use crate::mask::BoneMask;
use crate::transform::{
    compose, compose_transforms, identity_transform, quat_from_ints, quat_inverse, quat_invert,
    quat_mul, quat_mul_vec3a, quat_product, quat_rotate, vec3a_add, vec3a_from_ints, vec3a_sum,
};

verus! {

/// What the pose holds for one bone: the transform relative to the parent
/// bone, and the cached transform relative to the world.
#[derive(Clone, Copy, Debug)]
pub struct PoseBone {
    pub local_pos: glam::Vec3A,
    pub local_rot: glam::Quat,
    pub global_pos: glam::Vec3A,
    pub global_rot: glam::Quat,
}

impl PoseBone {
    /// A bone at rest: both transforms move nothing.
    pub fn new() -> (r: PoseBone)
        ensures
            (r.local_pos, r.local_rot) == identity_transform(),
            (r.global_pos, r.global_rot) == identity_transform(),
    {
        PoseBone {
            local_pos: vec3a_from_ints(0, 0, 0),
            local_rot: quat_from_ints(0, 0, 0, 1),
            global_pos: vec3a_from_ints(0, 0, 0),
            global_rot: quat_from_ints(0, 0, 0, 1),
        }
    }
}

/// The skeleton's state.
#[derive(Clone, Debug)]
pub struct Pose {
    root_pos: glam::Vec3A,
    root_rot: glam::Quat,
    bones: Vec<PoseBone>,
    globalized: BoneMask,
    /// For each bone, by number, the bones below it.
    below: Vec<BoneMask>,
    /// For each bone, by number, the bone itself and the bones below it.
    affected: Vec<BoneMask>,
}

impl Pose {
    /// The pose is well formed: there is one entry per bone, and a bone's
    /// global transform is cached only while its parent's is.
    pub closed spec fn wf(self) -> bool {
        &&& self.bones@.len() == 55
        &&& self.ancestors_cached()
        &&& self.below@.len() == 55
        &&& self.affected@.len() == 55
        &&& forall|b: Bone|
            (#[trigger] self.below@[b.spec_ordinal() as int])@ == b.spec_descendants()
        &&& forall|b: Bone|
            (#[trigger] self.affected@[b.spec_ordinal() as int])@ == b.spec_affected()
    }

    /// The root transform.
    pub closed spec fn spec_root(self) -> (glam::Vec3A, glam::Quat) {
        (self.root_pos, self.root_rot)
    }

    /// The transform of `bone` relative to its parent.
    pub closed spec fn spec_local(self, bone: Bone) -> (glam::Vec3A, glam::Quat) {
        let entry = self.bones@[bone.spec_ordinal() as int];
        (entry.local_pos, entry.local_rot)
    }

    /// What the cache holds for `bone`, valid or not.
    pub closed spec fn spec_cached(self, bone: Bone) -> (glam::Vec3A, glam::Quat) {
        let entry = self.bones@[bone.spec_ordinal() as int];
        (entry.global_pos, entry.global_rot)
    }

    /// The bones whose cache entry is valid.
    pub closed spec fn spec_globalized(self) -> Set<Bone> {
        self.globalized@
    }

    /// Whether the parent of every bone with a valid cache entry has one too.
    pub open spec fn ancestors_cached(self) -> bool {
        forall|c: Bone|
            #[trigger] self.spec_globalized().contains(c) && c.spec_parent().is_some()
                ==> self.spec_globalized().contains(c.spec_parent().unwrap())
    }

    /// The global transform of `bone` as the root and the local transforms
    /// alone give it: the parent's global transform composed with the local
    /// one, the root standing in for the parent of the hips.
    pub open spec fn spec_global(self, bone: Bone) -> (glam::Vec3A, glam::Quat)
        decreases bone.spec_ordinal(),
    {
        match bone.spec_parent() {
            Some(p) => if p.spec_ordinal() < bone.spec_ordinal() {
                compose(self.spec_global(p), self.spec_local(bone))
            } else {
                compose(self.spec_root(), self.spec_local(bone))
            },
            None => compose(self.spec_root(), self.spec_local(bone)),
        }
    }

    /// The global transform that a read of `bone` yields in this state: the
    /// cache entry where it is valid, else the composition of what a read of
    /// the parent yields with the local transform.
    pub open spec fn spec_read(self, bone: Bone) -> (glam::Vec3A, glam::Quat)
        decreases bone.spec_ordinal(), 1nat,
    {
        if self.spec_globalized().contains(bone) {
            self.spec_cached(bone)
        } else {
            compose(self.spec_read_parent(bone), self.spec_local(bone))
        }
    }

    /// What a read of the parent of `bone` yields; the root transform where
    /// `bone` has no parent.
    pub open spec fn spec_read_parent(self, bone: Bone) -> (glam::Vec3A, glam::Quat)
        decreases bone.spec_ordinal(), 0nat,
    {
        match bone.spec_parent() {
            Some(p) => if p.spec_ordinal() < bone.spec_ordinal() {
                self.spec_read(p)
            } else {
                self.spec_root()
            },
            None => self.spec_root(),
        }
    }

    /// Whether every valid cache entry holds exactly what the root and the
    /// local transforms compose to.
    pub open spec fn coherent(self) -> bool {
        forall|c: Bone|
            #[trigger] self.spec_globalized().contains(c) ==> self.spec_cached(c)
                == self.spec_global(c)
    }

    /// A pose at rest: every transform moves nothing, and every cache entry
    /// is valid.
    pub fn new() -> (r: Pose)
        ensures
            r.wf(),
            r.spec_root() == identity_transform(),
            forall|b: Bone| r.spec_local(b) == identity_transform(),
            forall|b: Bone| r.spec_cached(b) == identity_transform(),
            r.spec_globalized() == Set::<Bone>::full(),
    {
        let mut bones: Vec<PoseBone> = Vec::new();
        let mut i: u8 = 0;
        while i < 55
            invariant
                i <= 55,
                bones@.len() == i,
                forall|k: int|
                    0 <= k < i ==> ((#[trigger] bones@[k]).local_pos, bones@[k].local_rot)
                        == identity_transform() && (bones@[k].global_pos, bones@[k].global_rot)
                        == identity_transform(),
            decreases 55 - i,
        {
            bones.push(PoseBone::new());
            i += 1;
        }
        let mut below: Vec<BoneMask> = Vec::new();
        let mut affected: Vec<BoneMask> = Vec::new();
        let mut k: u8 = 0;
        while k < 55
            invariant
                k <= 55,
                below@.len() == k,
                affected@.len() == k,
                forall|b: Bone|
                    b.spec_ordinal() < k ==> (#[trigger] below@[b.spec_ordinal() as int])@
                        == b.spec_descendants(),
                forall|b: Bone|
                    b.spec_ordinal() < k ==> (#[trigger] affected@[b.spec_ordinal() as int])@
                        == b.spec_affected(),
            decreases 55 - k,
        {
            match Bone::from_ordinal(k) {
                Some(bone) => {
                    below.push(bone.descendants());
                    affected.push(bone.affected());
                    proof {
                        assert forall|b: Bone| b.spec_ordinal() < k + 1 implies (
                        #[trigger] below@[b.spec_ordinal() as int])@
                            == b.spec_descendants() && (affected@[b.spec_ordinal() as int])@
                            == b.spec_affected() by {
                            lemma_ordinal_round_trip(b);
                            lemma_ordinal_round_trip(bone);
                        }
                    }
                },
                None => {},
            }
            k += 1;
        }
        let r = Pose {
            root_pos: vec3a_from_ints(0, 0, 0),
            root_rot: quat_from_ints(0, 0, 0, 1),
            bones,
            globalized: BoneMask::all(),
            below,
            affected,
        };
        proof {
            assert forall|b: Bone|
                r.spec_local(b) == identity_transform() && r.spec_cached(b)
                    == identity_transform() by {
                lemma_ordinal_round_trip(b);
            }
            assert forall|b: Bone|
                (#[trigger] r.below@[b.spec_ordinal() as int])@ == b.spec_descendants() by {
                lemma_ordinal_round_trip(b);
            }
            assert forall|b: Bone|
                (#[trigger] r.affected@[b.spec_ordinal() as int])@ == b.spec_affected() by {
                lemma_ordinal_round_trip(b);
            }
        }
        r
    }

    pub fn local_transform(&self, bone: Bone) -> (r: (glam::Vec3A, glam::Quat))
        requires
            self.wf(),
        ensures
            r == self.spec_local(bone),
    {
        let entry = &self.bones[bone.ordinal() as usize];
        (entry.local_pos, entry.local_rot)
    }

    pub fn root_transform(&self) -> (r: (glam::Vec3A, glam::Quat))
        ensures
            r == self.spec_root(),
    {
        (self.root_pos, self.root_rot)
    }

    /// Whether the cache entry of `bone` is valid.
    pub fn is_globalized(&self, bone: Bone) -> (r: bool)
        ensures
            r == self.spec_globalized().contains(bone),
    {
        self.globalized.contains(bone)
    }

    /// The bones whose cache entry is valid.
    pub fn globalized(&self) -> (r: BoneMask)
        requires
            self.wf(),
        ensures
            r@ == self.spec_globalized(),
            self.ancestors_cached(),
    {
        self.globalized
    }

    /// Reads the global transform of `bone`: from the cache where the entry
    /// is valid, else by composing the parent's global transform with the
    /// local one, which fills the cache for `bone` and for each of its
    /// ancestors that had no valid entry. No later read is changed by it.
    pub fn global_transform(&mut self, bone: Bone) -> (r: (glam::Vec3A, glam::Quat))
        requires
            old(self).wf(),
        ensures
            final(self).wf(),
            r == old(self).spec_read(bone),
            final(self).spec_root() == old(self).spec_root(),
            forall|c: Bone| final(self).spec_local(c) == old(self).spec_local(c),
            forall|c: Bone| final(self).spec_read(c) == old(self).spec_read(c),
            final(self).spec_globalized().contains(bone),
            forall|c: Bone|
                old(self).spec_globalized().contains(c)
                    ==> #[trigger] final(self).spec_globalized().contains(c)
                    && final(self).spec_cached(c) == old(self).spec_cached(c),
            forall|c: Bone|
                #[trigger] final(self).spec_globalized().contains(c)
                    <==> old(self).spec_globalized().contains(c) || c == bone
                    || bone.descends_from(c),
            final(self).ancestors_cached(),
            old(self).coherent() ==> final(self).coherent() && r == old(self).spec_global(bone),
        decreases bone.spec_ordinal(),
    {
        proof {
            lemma_parent_precedes(bone);
        }
        let index = bone.ordinal() as usize;
        if self.globalized.contains(bone) {
            let entry = &self.bones[index];
            proof {
                if self.coherent() {
                    lemma_read_of_coherent(*self, bone);
                }
                assert forall|c: Bone| bone.descends_from(c) implies self.spec_globalized().contains(
                    c,
                ) by {
                    lemma_ancestors_are_cached(*self, bone, c);
                }
            }
            return (entry.global_pos, entry.global_rot);
        }
        let parent = match bone.parent() {
            Some(p) => self.global_transform(p),
            None => (self.root_pos, self.root_rot),
        };
        let ghost mid = *self;
        proof {
            lemma_descends_step(bone, bone);
            assert(!mid.spec_globalized().contains(bone)) by {
                if bone.spec_parent().is_some() {
                    lemma_descends_step(bone.spec_parent().unwrap(), bone);
                }
            }
            assert(parent == mid.spec_read_parent(bone));
        }
        let entry = self.bones[index];
        let global = compose_transforms(parent, (entry.local_pos, entry.local_rot));
        self.bones.set(
            index,
            PoseBone {
                local_pos: entry.local_pos,
                local_rot: entry.local_rot,
                global_pos: global.0,
                global_rot: global.1,
            },
        );
        self.globalized.insert(bone);
        proof {
            let now = *self;
            assert forall|c: Bone| now.spec_local(c) == mid.spec_local(c) by {
                lemma_ordinal_round_trip(c);
                lemma_ordinal_round_trip(bone);
            }
            assert forall|c: Bone| c != bone implies now.spec_cached(c) == mid.spec_cached(c) by {
                lemma_ordinal_round_trip(c);
                lemma_ordinal_round_trip(bone);
            }
            assert(now.spec_cached(bone) == mid.spec_read(bone));
            assert forall|c: Bone| old(self).spec_globalized().contains(c) implies #[trigger]
                now.spec_globalized().contains(c) && now.spec_cached(c) == old(self).spec_cached(
                c,
            ) by {
                assert(mid.spec_globalized().contains(c));
            }
            assert forall|c: Bone| now.spec_read(c) == old(self).spec_read(c) by {
                lemma_read_stable(mid, now, c);
            }
            assert forall|c: Bone|
                #[trigger] now.spec_globalized().contains(c)
                    <==> old(self).spec_globalized().contains(c) || c == bone
                    || bone.descends_from(c) by {
                if c != bone && !old(self).spec_globalized().contains(c) {
                    if now.spec_globalized().contains(c) {
                        let p = bone.spec_parent().unwrap();
                        assert(mid.spec_globalized().contains(c));
                        assert(c == p || p.descends_from(c));
                    }
                    if bone.descends_from(c) {
                        let p = bone.spec_parent().unwrap();
                        assert(c == p || p.descends_from(c));
                        assert(mid.spec_globalized().contains(c));
                    }
                } else if c != bone {
                    assert(mid.spec_globalized().contains(c));
                }
            }
            if old(self).coherent() {
                assert forall|c: Bone| now.spec_global(c) == old(self).spec_global(c) by {
                    lemma_global_of_locals(*old(self), now, c);
                }
                assert forall|c: Bone| #[trigger]
                    now.spec_globalized().contains(c) implies now.spec_cached(c) == now.spec_global(
                    c,
                ) by {
                    lemma_read_of_coherent(*old(self), c);
                    assert(now.spec_read(c) == now.spec_cached(c));
                }
                lemma_read_of_coherent(*old(self), bone);
            }
        }
        global
    }

    /// Turns `bone` so that its global rotation is `new_rot`: the cache entry
    /// of `bone` gets that rotation and becomes valid, the local rotation
    /// becomes the parent's global rotation undone, then `new_rot`, and the
    /// cache entries below `bone` become invalid.
    pub fn set_global_rot(&mut self, bone: Bone, new_rot: glam::Quat)
        requires
            old(self).wf(),
        ensures
            final(self).wf(),
            final(self).spec_root() == old(self).spec_root(),
            forall|c: Bone| c != bone ==> final(self).spec_local(c) == old(self).spec_local(c),
            final(self).spec_local(bone) == (
                old(self).spec_local(bone).0,
                quat_product(quat_inverse(old(self).spec_read_parent(bone).1), new_rot),
            ),
            final(self).spec_globalized().contains(bone),
            final(self).spec_cached(bone) == (
                vec3a_sum(
                    old(self).spec_read_parent(bone).0,
                    quat_rotate(old(self).spec_read_parent(bone).1, old(self).spec_local(bone).0),
                ),
                new_rot,
            ),
            final(self).spec_read(bone).1 == new_rot,
            forall|c: Bone|
                bone.spec_descendants().contains(c) ==> !final(self).spec_globalized().contains(c),
            forall|c: Bone|
                #[trigger] final(self).spec_globalized().contains(c) <==> !c.descends_from(bone) && (
                old(self).spec_globalized().contains(c) || c == bone || bone.descends_from(c)),
            forall|c: Bone|
                !bone.spec_affected().contains(c) ==> final(self).spec_read(c) == old(self).spec_read(c),
            final(self).ancestors_cached(),
    {
        proof {
            lemma_parent_precedes(bone);
            lemma_descends_step(bone, bone);
        }
        let parent = match bone.parent() {
            Some(p) => self.global_transform(p),
            None => (self.root_pos, self.root_rot),
        };
        let ghost mid = *self;
        proof {
            assert(parent == old(self).spec_read_parent(bone));
        }
        let index = bone.ordinal() as usize;
        let entry = self.bones[index];
        self.bones.set(
            index,
            PoseBone {
                local_pos: entry.local_pos,
                local_rot: quat_mul(quat_invert(parent.1), new_rot),
                global_pos: vec3a_add(parent.0, quat_mul_vec3a(parent.1, entry.local_pos)),
                global_rot: new_rot,
            },
        );
        let below = self.below[index];
        let mut valid = self.globalized;
        valid.insert(bone);
        valid.remove_all(&below);
        proof {
            assert forall|c: Bone| #[trigger]
                valid@.contains(c) && c.spec_parent().is_some() implies valid@.contains(
                c.spec_parent().unwrap(),
            ) by {
                lemma_descends_step(c, bone);
                if c != bone {
                    assert(mid.spec_globalized().contains(c));
                }
            }
        }
        self.globalized = valid;
        proof {
            let now = *self;
            assert forall|c: Bone| c != bone implies now.spec_local(c) == mid.spec_local(c)
                && now.spec_cached(c) == mid.spec_cached(c) by {
                lemma_ordinal_round_trip(c);
                lemma_ordinal_round_trip(bone);
            }
            assert forall|c: Bone| !bone.spec_affected().contains(c) implies now.spec_read(c)
                == old(self).spec_read(c) by {
                lemma_read_unaffected(mid, now, bone, c);
            }
        }
    }

    /// Replaces the local rotation of `bone`; the cache entries of `bone` and
    /// of every bone below it become invalid.
    pub fn set_local_rot(&mut self, bone: Bone, new_rot: glam::Quat)
        requires
            old(self).wf(),
        ensures
            final(self).wf(),
            final(self).spec_root() == old(self).spec_root(),
            final(self).spec_local(bone) == (old(self).spec_local(bone).0, new_rot),
            forall|c: Bone| c != bone ==> final(self).spec_local(c) == old(self).spec_local(c),
            forall|c: Bone| final(self).spec_cached(c) == old(self).spec_cached(c),
            final(self).spec_globalized() == old(self).spec_globalized().difference(
                bone.spec_affected(),
            ),
            final(self).spec_globalized().intersect(bone.spec_affected()) == Set::<Bone>::empty(),
            forall|c: Bone|
                !bone.spec_affected().contains(c) ==> final(self).spec_read(c) == old(self).spec_read(c),
            final(self).ancestors_cached(),
            old(self).coherent() ==> final(self).coherent(),
    {
        let pos = self.local_transform(bone).0;
        self.set_local_transform(bone, pos, new_rot);
    }

    /// Replaces the local transform of `bone`; the cache entries of `bone`
    /// and of every bone below it become invalid.
    pub fn set_local_transform(&mut self, bone: Bone, new_pos: glam::Vec3A, new_rot: glam::Quat)
        requires
            old(self).wf(),
        ensures
            final(self).wf(),
            final(self).spec_root() == old(self).spec_root(),
            final(self).spec_local(bone) == (new_pos, new_rot),
            forall|c: Bone| c != bone ==> final(self).spec_local(c) == old(self).spec_local(c),
            forall|c: Bone| final(self).spec_cached(c) == old(self).spec_cached(c),
            final(self).spec_globalized() == old(self).spec_globalized().difference(
                bone.spec_affected(),
            ),
            final(self).spec_globalized().intersect(bone.spec_affected()) == Set::<Bone>::empty(),
            forall|c: Bone|
                !bone.spec_affected().contains(c) ==> final(self).spec_read(c) == old(self).spec_read(c),
            final(self).ancestors_cached(),
            old(self).coherent() ==> final(self).coherent(),
    {
        let index = bone.ordinal() as usize;
        let entry = self.bones[index];
        let touched = self.affected[index];
        let mut valid = self.globalized;
        valid.remove_all(&touched);
        proof {
            assert forall|c: Bone| #[trigger]
                valid@.contains(c) && c.spec_parent().is_some() implies valid@.contains(
                c.spec_parent().unwrap(),
            ) by {
                lemma_descends_step(c, bone);
                assert(old(self).spec_globalized().contains(c));
            }
        }
        self.globalized = valid;
        self.bones.set(
            index,
            PoseBone {
                local_pos: new_pos,
                local_rot: new_rot,
                global_pos: entry.global_pos,
                global_rot: entry.global_rot,
            },
        );
        proof {
            let now = *self;
            assert forall|c: Bone| now.spec_cached(c) == old(self).spec_cached(c) && (c != bone
                ==> now.spec_local(c) == old(self).spec_local(c)) by {
                lemma_ordinal_round_trip(c);
                lemma_ordinal_round_trip(bone);
            }
            assert(now.spec_globalized().intersect(bone.spec_affected()) =~= Set::<Bone>::empty());
            assert forall|c: Bone| !bone.spec_affected().contains(c) implies now.spec_read(c)
                == old(self).spec_read(c) by {
                lemma_read_unaffected(*old(self), now, bone, c);
            }
            if old(self).coherent() {
                assert forall|c: Bone| #[trigger]
                    now.spec_globalized().contains(c) implies now.spec_cached(c) == now.spec_global(
                    c,
                ) by {
                    assert(old(self).spec_globalized().contains(c));
                    lemma_global_unaffected(*old(self), now, bone, c);
                }
            }
        }
    }

    /// Replaces the root transform; every cache entry becomes invalid.
    pub fn set_root_transform(&mut self, new_pos: glam::Vec3A, new_rot: glam::Quat)
        requires
            old(self).wf(),
        ensures
            final(self).wf(),
            final(self).spec_root() == (new_pos, new_rot),
            forall|c: Bone| final(self).spec_local(c) == old(self).spec_local(c),
            final(self).spec_globalized() == Set::<Bone>::empty(),
            final(self).ancestors_cached(),
            final(self).coherent(),
    {
        let none = BoneMask::empty();
        self.root_pos = new_pos;
        self.root_rot = new_rot;
        self.globalized = none;
    }
}

/// Where a bone's cache entry is valid, so is that of every bone above it.
pub proof fn lemma_ancestors_are_cached(pose: Pose, bone: Bone, above: Bone)
    requires
        pose.ancestors_cached(),
        pose.spec_globalized().contains(bone),
        bone.descends_from(above),
    ensures
        pose.spec_globalized().contains(above),
    decreases bone.spec_ordinal(),
{
    lemma_parent_precedes(bone);
    lemma_descends_step(bone, above);
    let p = bone.spec_parent().unwrap();
    if p != above {
        lemma_ancestors_are_cached(pose, p, above);
    }
}

/// In a coherent pose a read of any bone yields the composition of its
/// parent's global transform with its local transform, whichever cache
/// entries are valid.
pub proof fn lemma_read_of_coherent(pose: Pose, bone: Bone)
    requires
        pose.coherent(),
    ensures
        pose.spec_read(bone) == pose.spec_global(bone),
        pose.spec_global(bone) == compose(
            match bone.spec_parent() {
                Some(p) => pose.spec_global(p),
                None => pose.spec_root(),
            },
            pose.spec_local(bone),
        ),
    decreases bone.spec_ordinal(),
{
    lemma_parent_precedes(bone);
    if bone.spec_parent().is_some() {
        lemma_read_of_coherent(pose, bone.spec_parent().unwrap());
    }
}

/// The composed global transform of a bone depends on the root and on the
/// local transforms alone.
pub proof fn lemma_global_of_locals(a: Pose, b: Pose, bone: Bone)
    requires
        a.spec_root() == b.spec_root(),
        forall|c: Bone| a.spec_local(c) == b.spec_local(c),
    ensures
        a.spec_global(bone) == b.spec_global(bone),
    decreases bone.spec_ordinal(),
{
    lemma_parent_precedes(bone);
    if bone.spec_parent().is_some() {
        lemma_global_of_locals(a, b, bone.spec_parent().unwrap());
    }
}

/// A change to the local transform of `changed` leaves the composed global
/// transform of every bone outside `affected(changed)` as it was.
pub proof fn lemma_global_unaffected(a: Pose, b: Pose, changed: Bone, bone: Bone)
    requires
        a.spec_root() == b.spec_root(),
        forall|c: Bone| c != changed ==> a.spec_local(c) == b.spec_local(c),
        !changed.spec_affected().contains(bone),
    ensures
        a.spec_global(bone) == b.spec_global(bone),
    decreases bone.spec_ordinal(),
{
    lemma_parent_precedes(bone);
    lemma_descends_step(bone, changed);
    if bone.spec_parent().is_some() {
        lemma_global_unaffected(a, b, changed, bone.spec_parent().unwrap());
    }
}

/// Filling cache entries with what a read would have yielded changes no read.
proof fn lemma_read_stable(a: Pose, b: Pose, bone: Bone)
    requires
        a.spec_root() == b.spec_root(),
        forall|c: Bone| a.spec_local(c) == b.spec_local(c),
        forall|c: Bone| a.spec_globalized().contains(c) ==> b.spec_globalized().contains(c),
        forall|c: Bone| #[trigger]
            b.spec_globalized().contains(c) ==> b.spec_cached(c) == a.spec_read(c),
    ensures
        b.spec_read(bone) == a.spec_read(bone),
    decreases bone.spec_ordinal(),
{
    lemma_parent_precedes(bone);
    if bone.spec_parent().is_some() {
        lemma_read_stable(a, b, bone.spec_parent().unwrap());
    }
}

/// A write at `changed` that touches only `changed` and the validity of the
/// entries in `affected(changed)` changes no read outside `affected(changed)`.
proof fn lemma_read_unaffected(a: Pose, b: Pose, changed: Bone, bone: Bone)
    requires
        a.spec_root() == b.spec_root(),
        forall|c: Bone| c != changed ==> a.spec_local(c) == b.spec_local(c),
        forall|c: Bone| c != changed ==> a.spec_cached(c) == b.spec_cached(c),
        forall|c: Bone|
            !changed.spec_affected().contains(c) ==> (a.spec_globalized().contains(c)
                <==> b.spec_globalized().contains(c)),
        !changed.spec_affected().contains(bone),
    ensures
        a.spec_read(bone) == b.spec_read(bone),
    decreases bone.spec_ordinal(),
{
    lemma_parent_precedes(bone);
    lemma_descends_step(bone, changed);
    if bone.spec_parent().is_some() {
        lemma_read_unaffected(a, b, changed, bone.spec_parent().unwrap());
    }
}

} // verus!
