//! A set of bones, packed into one 64-bit word with one bit per bone.

use vstd::prelude::*;

use crate::bone::{lemma_from_ordinal_total, lemma_ordinal_round_trip, Bone};

verus! {

/// The word in which the bit of every bone is set and no other.
pub const ALL_BITS: u64 = 0x007f_ffff_ffff_ffff;

/// Whether bit `i` of `bits` is set.
pub open spec fn bit_at(bits: u64, i: u64) -> bool {
    (bits >> i) & 1 == 1
}

proof fn lemma_bit_zero(j: u64)
    requires
        j < 64,
    ensures
        !bit_at(0, j),
{
    assert((0u64 >> j) & 1 != 1) by (bit_vector)
        requires
            j < 64,
    ;
}

proof fn lemma_bit_all(j: u64)
    requires
        j < 64,
    ensures
        bit_at(ALL_BITS, j) == (j < 55),
{
    assert(((0x007f_ffff_ffff_ffffu64 >> j) & 1 == 1) == (j < 55)) by (bit_vector)
        requires
            j < 64,
    ;
}

proof fn lemma_bit_single(i: u64, j: u64)
    requires
        i < 55,
        j < 64,
    ensures
        bit_at(1u64 << i, j) == (j == i),
        (1u64 << i) <= ALL_BITS,
{
    assert((((1u64 << i) >> j) & 1 == 1) == (j == i)) by (bit_vector)
        requires
            i < 55,
            j < 64,
    ;
    assert((1u64 << i) <= 0x007f_ffff_ffff_ffffu64) by (bit_vector)
        requires
            i < 55,
    ;
}

proof fn lemma_bit_or(a: u64, b: u64, j: u64)
    requires
        j < 64,
    ensures
        bit_at(a | b, j) == (bit_at(a, j) || bit_at(b, j)),
{
    assert((((a | b) >> j) & 1 == 1) == (((a >> j) & 1 == 1) || ((b >> j) & 1 == 1)))
        by (bit_vector)
        requires
            j < 64,
    ;
}

proof fn lemma_bit_and(a: u64, b: u64, j: u64)
    requires
        j < 64,
    ensures
        bit_at(a & b, j) == (bit_at(a, j) && bit_at(b, j)),
{
    assert((((a & b) >> j) & 1 == 1) == (((a >> j) & 1 == 1) && ((b >> j) & 1 == 1)))
        by (bit_vector)
        requires
            j < 64,
    ;
}

proof fn lemma_bit_and_not(a: u64, b: u64, j: u64)
    requires
        j < 64,
    ensures
        bit_at(a & !b, j) == (bit_at(a, j) && !bit_at(b, j)),
{
    assert((((a & !b) >> j) & 1 == 1) == (((a >> j) & 1 == 1) && !((b >> j) & 1 == 1)))
        by (bit_vector)
        requires
            j < 64,
    ;
}

proof fn lemma_bits_stay_low(a: u64, b: u64)
    requires
        a <= ALL_BITS,
        b <= ALL_BITS,
    ensures
        (a | b) <= ALL_BITS,
        (a & b) <= ALL_BITS,
        (a & !b) <= ALL_BITS,
{
    assert((a | b) <= 0x007f_ffff_ffff_ffffu64) by (bit_vector)
        requires
            a <= 0x007f_ffff_ffff_ffffu64,
            b <= 0x007f_ffff_ffff_ffffu64,
    ;
    assert((a & b) <= 0x007f_ffff_ffff_ffffu64) by (bit_vector)
        requires
            a <= 0x007f_ffff_ffff_ffffu64,
    ;
    assert((a & !b) <= 0x007f_ffff_ffff_ffffu64) by (bit_vector)
        requires
            a <= 0x007f_ffff_ffff_ffffu64,
    ;
}

/// A set of bones.
#[derive(Clone, Copy, Debug, PartialEq, Eq, Structural, Hash)]
pub struct BoneMask {
    bits: u64,
}

impl View for BoneMask {
    type V = Set<Bone>;

    /// The bones whose bit is set.
    closed spec fn view(&self) -> Set<Bone> {
        Set::new(|b: Bone| bit_at(self.bits, b.spec_ordinal() as u64))
    }
}

impl BoneMask {
    /// Only the bits of bones are ever set.
    #[verifier::type_invariant]
    spec fn only_bone_bits(self) -> bool {
        self.bits <= ALL_BITS
    }

    /// The packed word: bit `i` is set exactly when the bone numbered `i` is
    /// in the set.
    pub closed spec fn spec_bits(self) -> u64 {
        self.bits
    }

    /// The empty set.
    pub fn empty() -> (r: BoneMask)
        ensures
            r@ == Set::<Bone>::empty(),
    {
        let r = BoneMask { bits: 0 };
        proof {
            assert forall|b: Bone| !r@.contains(b) by {
                lemma_ordinal_round_trip(b);
                lemma_bit_zero(b.spec_ordinal() as u64);
            }
            assert(r@ =~= Set::<Bone>::empty());
        }
        r
    }

    /// The set of every bone.
    pub fn all() -> (r: BoneMask)
        ensures
            r@ == Set::<Bone>::full(),
    {
        let r = BoneMask { bits: ALL_BITS };
        proof {
            assert forall|b: Bone| r@.contains(b) by {
                lemma_ordinal_round_trip(b);
                lemma_bit_all(b.spec_ordinal() as u64);
            }
            assert(r@ =~= Set::<Bone>::full());
        }
        r
    }

    /// The set that holds `bone` and nothing else.
    pub fn single(bone: Bone) -> (r: BoneMask)
        ensures
            r@ == Set::<Bone>::empty().insert(bone),
    {
        let i = bone.ordinal() as u64;
        proof {
            lemma_bit_single(i, 0);
        }
        let r = BoneMask { bits: 1u64 << i };
        proof {
            assert forall|b: Bone| r@.contains(b) == (b == bone) by {
                lemma_ordinal_round_trip(b);
                lemma_ordinal_round_trip(bone);
                lemma_bit_single(i, b.spec_ordinal() as u64);
            }
            assert(r@ =~= Set::<Bone>::empty().insert(bone));
        }
        r
    }

    /// The packed word of this set.
    pub fn bits(&self) -> (r: u64)
        ensures
            r == self.spec_bits(),
            r <= ALL_BITS,
            forall|b: Bone| self@.contains(b) == bit_at(r, #[trigger] b.spec_ordinal() as u64),
    {
        proof {
            use_type_invariant(self);
        }
        self.bits
    }

    pub fn contains(&self, bone: Bone) -> (r: bool)
        ensures
            r == self@.contains(bone),
    {
        let i = bone.ordinal() as u64;
        (self.bits >> i) & 1 == 1
    }

    /// Adds `bone`; says whether it was missing before.
    pub fn insert(&mut self, bone: Bone) -> (r: bool)
        ensures
            final(self)@ == old(self)@.insert(bone),
            r == !old(self)@.contains(bone),
    {
        let was_there = self.contains(bone);
        let i = bone.ordinal() as u64;
        proof {
            use_type_invariant(&*self);
            lemma_bit_single(i, 0);
            lemma_bits_stay_low(self.bits, 1u64 << i);
        }
        let ghost before = self.bits;
        self.bits = self.bits | (1u64 << i);
        proof {
            assert forall|b: Bone| self@.contains(b) == old(self)@.insert(bone).contains(b) by {
                lemma_ordinal_round_trip(b);
                lemma_ordinal_round_trip(bone);
                lemma_bit_single(i, b.spec_ordinal() as u64);
                lemma_bit_or(before, 1u64 << i, b.spec_ordinal() as u64);
            }
            assert(self@ =~= old(self)@.insert(bone));
        }
        !was_there
    }

    /// Takes `bone` out; says whether it was there before.
    pub fn remove(&mut self, bone: Bone) -> (r: bool)
        ensures
            final(self)@ == old(self)@.remove(bone),
            r == old(self)@.contains(bone),
    {
        let was_there = self.contains(bone);
        let i = bone.ordinal() as u64;
        proof {
            use_type_invariant(&*self);
            lemma_bit_single(i, 0);
            lemma_bits_stay_low(self.bits, 1u64 << i);
        }
        let ghost before = self.bits;
        self.bits = self.bits & !(1u64 << i);
        proof {
            assert forall|b: Bone| self@.contains(b) == old(self)@.remove(bone).contains(b) by {
                lemma_ordinal_round_trip(b);
                lemma_ordinal_round_trip(bone);
                lemma_bit_single(i, b.spec_ordinal() as u64);
                lemma_bit_and_not(before, 1u64 << i, b.spec_ordinal() as u64);
            }
            assert(self@ =~= old(self)@.remove(bone));
        }
        was_there
    }

    /// Takes every bone out.
    pub fn clear(&mut self)
        ensures
            final(self)@ == Set::<Bone>::empty(),
    {
        *self = BoneMask::empty();
    }

    /// The bones that are in `self`, in `other`, or in both.
    pub fn union(&self, other: &BoneMask) -> (r: BoneMask)
        ensures
            r@ == self@.union(other@),
    {
        proof {
            use_type_invariant(self);
            use_type_invariant(other);
            lemma_bits_stay_low(self.bits, other.bits);
        }
        let r = BoneMask { bits: self.bits | other.bits };
        proof {
            assert forall|b: Bone| r@.contains(b) == self@.union(other@).contains(b) by {
                lemma_ordinal_round_trip(b);
                lemma_bit_or(self.bits, other.bits, b.spec_ordinal() as u64);
            }
            assert(r@ =~= self@.union(other@));
        }
        r
    }

    /// The bones that are in both `self` and `other`.
    pub fn intersection(&self, other: &BoneMask) -> (r: BoneMask)
        ensures
            r@ == self@.intersect(other@),
    {
        proof {
            use_type_invariant(self);
            use_type_invariant(other);
            lemma_bits_stay_low(self.bits, other.bits);
        }
        let r = BoneMask { bits: self.bits & other.bits };
        proof {
            assert forall|b: Bone| r@.contains(b) == self@.intersect(other@).contains(b) by {
                lemma_ordinal_round_trip(b);
                lemma_bit_and(self.bits, other.bits, b.spec_ordinal() as u64);
            }
            assert(r@ =~= self@.intersect(other@));
        }
        r
    }

    /// The bones that are in `self` and not in `other`.
    pub fn difference(&self, other: &BoneMask) -> (r: BoneMask)
        ensures
            r@ == self@.difference(other@),
    {
        proof {
            use_type_invariant(self);
            use_type_invariant(other);
            lemma_bits_stay_low(self.bits, other.bits);
        }
        let r = BoneMask { bits: self.bits & !other.bits };
        proof {
            assert forall|b: Bone| r@.contains(b) == self@.difference(other@).contains(b) by {
                lemma_ordinal_round_trip(b);
                lemma_bit_and_not(self.bits, other.bits, b.spec_ordinal() as u64);
            }
            assert(r@ =~= self@.difference(other@));
        }
        r
    }

    /// Takes every bone of `other` out of `self`.
    pub fn remove_all(&mut self, other: &BoneMask)
        ensures
            final(self)@ == old(self)@.difference(other@),
    {
        let rest = self.difference(other);
        *self = rest;
    }

    /// Adds every bone of `other` to `self`.
    pub fn insert_all(&mut self, other: &BoneMask)
        ensures
            final(self)@ == old(self)@.union(other@),
    {
        let both = self.union(other);
        *self = both;
    }

    /// The bones of the set in ascending canonical order.
    pub fn to_vec(&self) -> (r: Vec<Bone>)
        ensures
            forall|k: int| 0 <= k < r@.len() ==> self@.contains(#[trigger] r@[k]),
            forall|b: Bone| self@.contains(b) ==> r@.contains(b),
            forall|j: int, k: int|
                0 <= j < k < r@.len() ==> (#[trigger] r@[j]).spec_ordinal() < (
                #[trigger] r@[k]).spec_ordinal(),
            r@.len() == self@.len(),
            self@.finite(),
    {
        let mut out: Vec<Bone> = Vec::new();
        let ghost mut seen: Set<Bone> = Set::empty();
        let mut i: u8 = 0;
        while i < 55
            invariant
                i <= 55,
                forall|k: int| 0 <= k < out@.len() ==> self@.contains(#[trigger] out@[k]),
                forall|k: int| 0 <= k < out@.len() ==> (#[trigger] out@[k]).spec_ordinal() < i,
                forall|b: Bone| self@.contains(b) && b.spec_ordinal() < i ==> out@.contains(b),
                forall|j: int, k: int|
                    0 <= j < k < out@.len() ==> (#[trigger] out@[j]).spec_ordinal() < (
                    #[trigger] out@[k]).spec_ordinal(),
                seen.finite(),
                seen.len() == out@.len(),
                forall|b: Bone| seen.contains(b) <==> (self@.contains(b) && b.spec_ordinal() < i),
            decreases 55 - i,
        {
            match Bone::from_ordinal(i) {
                Some(bone) => {
                    let ghost prev = out@;
                    if self.contains(bone) {
                        out.push(bone);
                        proof {
                            assert(!seen.contains(bone));
                            seen = seen.insert(bone);
                            assert(out@[prev.len() as int] == bone);
                            assert forall|b: Bone|
                                self@.contains(b) && b.spec_ordinal() < i + 1 implies out@.contains(
                                b,
                            ) by {
                                lemma_ordinal_round_trip(b);
                                if b.spec_ordinal() < i {
                                    assert(prev.contains(b));
                                    let k = choose|k: int| 0 <= k < prev.len() && prev[k] == b;
                                    assert(out@[k] == b);
                                } else {
                                    assert(b == bone);
                                }
                            }
                        }
                    } else {
                        proof {
                            assert forall|b: Bone|
                                self@.contains(b) && b.spec_ordinal() < i + 1 implies out@.contains(
                                b,
                            ) by {
                                lemma_ordinal_round_trip(b);
                            }
                        }
                    }
                    proof {
                        assert forall|b: Bone| seen.contains(b) <==> (self@.contains(b)
                            && b.spec_ordinal() < i + 1) by {
                            lemma_ordinal_round_trip(b);
                        }
                    }
                },
                None => {},
            }
            i += 1;
        }
        proof {
            assert forall|b: Bone| seen.contains(b) == self@.contains(b) by {
                lemma_ordinal_round_trip(b);
            }
            assert(seen =~= self@);
        }
        out
    }

    /// The bones of the set in descending canonical order.
    pub fn to_vec_descending(&self) -> (r: Vec<Bone>)
        ensures
            forall|k: int| 0 <= k < r@.len() ==> self@.contains(#[trigger] r@[k]),
            forall|b: Bone| self@.contains(b) ==> r@.contains(b),
            forall|j: int, k: int|
                0 <= j < k < r@.len() ==> (#[trigger] r@[j]).spec_ordinal() > (
                #[trigger] r@[k]).spec_ordinal(),
            r@.len() == self@.len(),
    {
        let up = self.to_vec();
        let n = up.len();
        let mut out: Vec<Bone> = Vec::new();
        let mut i: usize = 0;
        while i < n
            invariant
                n == up@.len(),
                i <= n,
                out@.len() == i,
                forall|k: int| 0 <= k < i ==> #[trigger] out@[k] == up@[n - 1 - k],
            decreases n - i,
        {
            out.push(up[n - 1 - i]);
            i += 1;
        }
        proof {
            assert forall|b: Bone| self@.contains(b) implies out@.contains(b) by {
                assert(up@.contains(b));
                let k = choose|k: int| 0 <= k < up@.len() && up@[k] == b;
                assert(out@[n - 1 - k] == b);
            }
        }
        out
    }

    /// How many bones the set holds.
    pub fn len(&self) -> (r: usize)
        ensures
            self@.finite(),
            r == self@.len(),
            r <= 55,
    {
        let v = self.to_vec();
        proof {
            lemma_increasing_is_short(v@);
        }
        v.len()
    }

    /// Whether the set holds no bone.
    pub fn is_empty(&self) -> (r: bool)
        ensures
            r == (self@ == Set::<Bone>::empty()),
    {
        proof {
            use_type_invariant(self);
            if self.bits == 0 {
                assert forall|b: Bone| !self@.contains(b) by {
                    lemma_ordinal_round_trip(b);
                    lemma_bit_zero(b.spec_ordinal() as u64);
                }
                assert(self@ =~= Set::<Bone>::empty());
            } else {
                lemma_some_bit(self.bits);
                let i = choose|i: u64| i < 55 && bit_at(self.bits, i);
                lemma_from_ordinal_total(i as int);
                let b = Bone::spec_from_ordinal(i as int).unwrap();
                assert(self@.contains(b));
            }
        }
        self.bits == 0
    }
}

/// A word with bone bits only that is not zero has one of them set.
proof fn lemma_some_bit(bits: u64)
    requires
        bits != 0,
        bits <= ALL_BITS,
    ensures
        exists|i: u64| i < 55 && bit_at(bits, i),
{
    if forall|i: u64| i < 55 ==> !bit_at(bits, i) {
        lemma_no_bit_is_zero(bits, 55);
        assert(bits == 0) by (bit_vector)
            requires
                bits <= 0x007f_ffff_ffff_ffffu64,
                bits & (((1u64 << 55u64) - 1) as u64) == 0,
        ;
    }
}

/// A word whose lowest `n` bits are all clear has nothing below bit `n`.
proof fn lemma_no_bit_is_zero(bits: u64, n: u64)
    requires
        n <= 55,
        forall|i: u64| i < n ==> !bit_at(bits, i),
    ensures
        bits & (((1u64 << n) - 1) as u64) == 0,
    decreases n,
{
    if n == 0 {
        assert(bits & (((1u64 << 0u64) - 1) as u64) == 0) by (bit_vector);
    } else {
        let m = (n - 1) as u64;
        lemma_no_bit_is_zero(bits, m);
        assert(!bit_at(bits, m));
        assert(bits & (((1u64 << n) - 1) as u64) == 0) by (bit_vector)
            requires
                n == m + 1,
                n <= 55,
                bits & (((1u64 << m) - 1) as u64) == 0,
                (bits >> m) & 1 != 1,
        ;
    }
}

/// Bones listed in strictly ascending order are at most fifty-five.
proof fn lemma_increasing_is_short(s: Seq<Bone>)
    requires
        forall|j: int, k: int|
            0 <= j < k < s.len() ==> (#[trigger] s[j]).spec_ordinal() < (#[trigger] s[k]).spec_ordinal(),
    ensures
        s.len() <= 55,
{
    if s.len() > 0 {
        lemma_increasing_lower_bound(s, s.len() - 1);
        lemma_ordinal_round_trip(s[s.len() - 1]);
    }
}

proof fn lemma_increasing_lower_bound(s: Seq<Bone>, k: int)
    requires
        0 <= k < s.len(),
        forall|j: int, k: int|
            0 <= j < k < s.len() ==> (#[trigger] s[j]).spec_ordinal() < (#[trigger] s[k]).spec_ordinal(),
    ensures
        s[k].spec_ordinal() >= k,
    decreases k,
{
    if k > 0 {
        lemma_increasing_lower_bound(s, k - 1);
        assert(s[k - 1].spec_ordinal() < s[k].spec_ordinal());
    }
}

} // verus!
