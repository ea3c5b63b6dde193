//! The humanoid bone taxonomy: the fifty-five bones in their canonical order,
//! the parent table that makes them a tree, and the two arm chains.

use vstd::prelude::*;

use crate::transform::{vec3a_from_ints, vec3a_of_ints};

verus! {

/// A bone of the humanoid skeleton. The declaration order is the canonical
/// order in which bones are numbered and emitted.
#[derive(Clone, Copy, Debug, PartialEq, Eq, Structural, PartialOrd, Ord, Hash)]
pub enum Bone {
    Hips,
    LeftUpperLeg,
    RightUpperLeg,
    LeftLowerLeg,
    RightLowerLeg,
    LeftFoot,
    RightFoot,
    Spine,
    Chest,
    UpperChest,
    Neck,
    Head,
    LeftShoulder,
    RightShoulder,
    LeftUpperArm,
    RightUpperArm,
    LeftLowerArm,
    RightLowerArm,
    LeftHand,
    RightHand,
    LeftToes,
    RightToes,
    LeftEye,
    RightEye,
    Jaw,
    LeftThumbProximal,
    LeftThumbIntermediate,
    LeftThumbDistal,
    LeftIndexProximal,
    LeftIndexIntermediate,
    LeftIndexDistal,
    LeftMiddleProximal,
    LeftMiddleIntermediate,
    LeftMiddleDistal,
    LeftRingProximal,
    LeftRingIntermediate,
    LeftRingDistal,
    LeftLittleProximal,
    LeftLittleIntermediate,
    LeftLittleDistal,
    RightThumbProximal,
    RightThumbIntermediate,
    RightThumbDistal,
    RightIndexProximal,
    RightIndexIntermediate,
    RightIndexDistal,
    RightMiddleProximal,
    RightMiddleIntermediate,
    RightMiddleDistal,
    RightRingProximal,
    RightRingIntermediate,
    RightRingDistal,
    RightLittleProximal,
    RightLittleIntermediate,
    RightLittleDistal,
}

/// The error of looking up a bone by a name that no bone carries.
#[derive(Clone, Copy, Debug, PartialEq, Eq, Structural, PartialOrd, Ord, Hash)]
pub struct FromStrErr;

impl FromStrErr {
    /// The text shown for this error.
    pub fn message(&self) -> (r: &'static str)
        ensures
            r@ == "Bone name not recognized."@,
    {
        "Bone name not recognized."
    }
}

/// Compares two string slices with `str`'s own `==`, which holds exactly when
/// both slices carry the same characters.
#[verifier::external_body]
pub(crate) fn str_eq(a: &str, b: &str) -> (r: bool)
    ensures
        r == (a@ == b@),
{
    a == b
}

impl Bone {
    /// The number of bones.
    pub const NUM: usize = 55;

    /// The position of this bone in the canonical order.
    pub open spec fn spec_ordinal(self) -> u8 {
        match self {
            Bone::Hips => 0,
            Bone::LeftUpperLeg => 1,
            Bone::RightUpperLeg => 2,
            Bone::LeftLowerLeg => 3,
            Bone::RightLowerLeg => 4,
            Bone::LeftFoot => 5,
            Bone::RightFoot => 6,
            Bone::Spine => 7,
            Bone::Chest => 8,
            Bone::UpperChest => 9,
            Bone::Neck => 10,
            Bone::Head => 11,
            Bone::LeftShoulder => 12,
            Bone::RightShoulder => 13,
            Bone::LeftUpperArm => 14,
            Bone::RightUpperArm => 15,
            Bone::LeftLowerArm => 16,
            Bone::RightLowerArm => 17,
            Bone::LeftHand => 18,
            Bone::RightHand => 19,
            Bone::LeftToes => 20,
            Bone::RightToes => 21,
            Bone::LeftEye => 22,
            Bone::RightEye => 23,
            Bone::Jaw => 24,
            Bone::LeftThumbProximal => 25,
            Bone::LeftThumbIntermediate => 26,
            Bone::LeftThumbDistal => 27,
            Bone::LeftIndexProximal => 28,
            Bone::LeftIndexIntermediate => 29,
            Bone::LeftIndexDistal => 30,
            Bone::LeftMiddleProximal => 31,
            Bone::LeftMiddleIntermediate => 32,
            Bone::LeftMiddleDistal => 33,
            Bone::LeftRingProximal => 34,
            Bone::LeftRingIntermediate => 35,
            Bone::LeftRingDistal => 36,
            Bone::LeftLittleProximal => 37,
            Bone::LeftLittleIntermediate => 38,
            Bone::LeftLittleDistal => 39,
            Bone::RightThumbProximal => 40,
            Bone::RightThumbIntermediate => 41,
            Bone::RightThumbDistal => 42,
            Bone::RightIndexProximal => 43,
            Bone::RightIndexIntermediate => 44,
            Bone::RightIndexDistal => 45,
            Bone::RightMiddleProximal => 46,
            Bone::RightMiddleIntermediate => 47,
            Bone::RightMiddleDistal => 48,
            Bone::RightRingProximal => 49,
            Bone::RightRingIntermediate => 50,
            Bone::RightRingDistal => 51,
            Bone::RightLittleProximal => 52,
            Bone::RightLittleIntermediate => 53,
            Bone::RightLittleDistal => 54,
        }
    }

    /// The bone at a position of the canonical order, if the position is one.
    pub open spec fn spec_from_ordinal(i: int) -> Option<Bone> {
        if i == 0 {
            Some(Bone::Hips)
        } else if i == 1 {
            Some(Bone::LeftUpperLeg)
        } else if i == 2 {
            Some(Bone::RightUpperLeg)
        } else if i == 3 {
            Some(Bone::LeftLowerLeg)
        } else if i == 4 {
            Some(Bone::RightLowerLeg)
        } else if i == 5 {
            Some(Bone::LeftFoot)
        } else if i == 6 {
            Some(Bone::RightFoot)
        } else if i == 7 {
            Some(Bone::Spine)
        } else if i == 8 {
            Some(Bone::Chest)
        } else if i == 9 {
            Some(Bone::UpperChest)
        } else if i == 10 {
            Some(Bone::Neck)
        } else if i == 11 {
            Some(Bone::Head)
        } else if i == 12 {
            Some(Bone::LeftShoulder)
        } else if i == 13 {
            Some(Bone::RightShoulder)
        } else if i == 14 {
            Some(Bone::LeftUpperArm)
        } else if i == 15 {
            Some(Bone::RightUpperArm)
        } else if i == 16 {
            Some(Bone::LeftLowerArm)
        } else if i == 17 {
            Some(Bone::RightLowerArm)
        } else if i == 18 {
            Some(Bone::LeftHand)
        } else if i == 19 {
            Some(Bone::RightHand)
        } else if i == 20 {
            Some(Bone::LeftToes)
        } else if i == 21 {
            Some(Bone::RightToes)
        } else if i == 22 {
            Some(Bone::LeftEye)
        } else if i == 23 {
            Some(Bone::RightEye)
        } else if i == 24 {
            Some(Bone::Jaw)
        } else if i == 25 {
            Some(Bone::LeftThumbProximal)
        } else if i == 26 {
            Some(Bone::LeftThumbIntermediate)
        } else if i == 27 {
            Some(Bone::LeftThumbDistal)
        } else if i == 28 {
            Some(Bone::LeftIndexProximal)
        } else if i == 29 {
            Some(Bone::LeftIndexIntermediate)
        } else if i == 30 {
            Some(Bone::LeftIndexDistal)
        } else if i == 31 {
            Some(Bone::LeftMiddleProximal)
        } else if i == 32 {
            Some(Bone::LeftMiddleIntermediate)
        } else if i == 33 {
            Some(Bone::LeftMiddleDistal)
        } else if i == 34 {
            Some(Bone::LeftRingProximal)
        } else if i == 35 {
            Some(Bone::LeftRingIntermediate)
        } else if i == 36 {
            Some(Bone::LeftRingDistal)
        } else if i == 37 {
            Some(Bone::LeftLittleProximal)
        } else if i == 38 {
            Some(Bone::LeftLittleIntermediate)
        } else if i == 39 {
            Some(Bone::LeftLittleDistal)
        } else if i == 40 {
            Some(Bone::RightThumbProximal)
        } else if i == 41 {
            Some(Bone::RightThumbIntermediate)
        } else if i == 42 {
            Some(Bone::RightThumbDistal)
        } else if i == 43 {
            Some(Bone::RightIndexProximal)
        } else if i == 44 {
            Some(Bone::RightIndexIntermediate)
        } else if i == 45 {
            Some(Bone::RightIndexDistal)
        } else if i == 46 {
            Some(Bone::RightMiddleProximal)
        } else if i == 47 {
            Some(Bone::RightMiddleIntermediate)
        } else if i == 48 {
            Some(Bone::RightMiddleDistal)
        } else if i == 49 {
            Some(Bone::RightRingProximal)
        } else if i == 50 {
            Some(Bone::RightRingIntermediate)
        } else if i == 51 {
            Some(Bone::RightRingDistal)
        } else if i == 52 {
            Some(Bone::RightLittleProximal)
        } else if i == 53 {
            Some(Bone::RightLittleIntermediate)
        } else if i == 54 {
            Some(Bone::RightLittleDistal)
        } else {
            None
        }
    }

    /// The bone this bone hangs from; the hips hang from nothing.
    pub open spec fn spec_parent(self) -> Option<Bone> {
        match self {
            Bone::Hips => None,
            Bone::LeftUpperLeg => Some(Bone::Hips),
            Bone::RightUpperLeg => Some(Bone::Hips),
            Bone::LeftLowerLeg => Some(Bone::LeftUpperLeg),
            Bone::RightLowerLeg => Some(Bone::RightUpperLeg),
            Bone::LeftFoot => Some(Bone::LeftLowerLeg),
            Bone::RightFoot => Some(Bone::RightLowerLeg),
            Bone::Spine => Some(Bone::Hips),
            Bone::Chest => Some(Bone::Spine),
            Bone::UpperChest => Some(Bone::Chest),
            Bone::Neck => Some(Bone::UpperChest),
            Bone::Head => Some(Bone::Neck),
            Bone::LeftShoulder => Some(Bone::UpperChest),
            Bone::RightShoulder => Some(Bone::UpperChest),
            Bone::LeftUpperArm => Some(Bone::LeftShoulder),
            Bone::RightUpperArm => Some(Bone::RightShoulder),
            Bone::LeftLowerArm => Some(Bone::LeftUpperArm),
            Bone::RightLowerArm => Some(Bone::RightUpperArm),
            Bone::LeftHand => Some(Bone::LeftLowerArm),
            Bone::RightHand => Some(Bone::RightLowerArm),
            Bone::LeftToes => Some(Bone::LeftFoot),
            Bone::RightToes => Some(Bone::RightFoot),
            Bone::LeftEye => Some(Bone::Head),
            Bone::RightEye => Some(Bone::Head),
            Bone::Jaw => Some(Bone::Head),
            Bone::LeftThumbProximal => Some(Bone::LeftHand),
            Bone::LeftThumbIntermediate => Some(Bone::LeftThumbProximal),
            Bone::LeftThumbDistal => Some(Bone::LeftThumbIntermediate),
            Bone::LeftIndexProximal => Some(Bone::LeftHand),
            Bone::LeftIndexIntermediate => Some(Bone::LeftIndexProximal),
            Bone::LeftIndexDistal => Some(Bone::LeftIndexIntermediate),
            Bone::LeftMiddleProximal => Some(Bone::LeftHand),
            Bone::LeftMiddleIntermediate => Some(Bone::LeftMiddleProximal),
            Bone::LeftMiddleDistal => Some(Bone::LeftMiddleIntermediate),
            Bone::LeftRingProximal => Some(Bone::LeftHand),
            Bone::LeftRingIntermediate => Some(Bone::LeftRingProximal),
            Bone::LeftRingDistal => Some(Bone::LeftRingIntermediate),
            Bone::LeftLittleProximal => Some(Bone::LeftHand),
            Bone::LeftLittleIntermediate => Some(Bone::LeftLittleProximal),
            Bone::LeftLittleDistal => Some(Bone::LeftLittleIntermediate),
            Bone::RightThumbProximal => Some(Bone::RightHand),
            Bone::RightThumbIntermediate => Some(Bone::RightThumbProximal),
            Bone::RightThumbDistal => Some(Bone::RightThumbIntermediate),
            Bone::RightIndexProximal => Some(Bone::RightHand),
            Bone::RightIndexIntermediate => Some(Bone::RightIndexProximal),
            Bone::RightIndexDistal => Some(Bone::RightIndexIntermediate),
            Bone::RightMiddleProximal => Some(Bone::RightHand),
            Bone::RightMiddleIntermediate => Some(Bone::RightMiddleProximal),
            Bone::RightMiddleDistal => Some(Bone::RightMiddleIntermediate),
            Bone::RightRingProximal => Some(Bone::RightHand),
            Bone::RightRingIntermediate => Some(Bone::RightRingProximal),
            Bone::RightRingDistal => Some(Bone::RightRingIntermediate),
            Bone::RightLittleProximal => Some(Bone::RightHand),
            Bone::RightLittleIntermediate => Some(Bone::RightLittleProximal),
            Bone::RightLittleDistal => Some(Bone::RightLittleIntermediate),
        }
    }

    /// The same bone on the other side of the body; a central bone is its own
    /// mirror image.
    pub open spec fn spec_mirror(self) -> Bone {
        match self {
            Bone::Hips => Bone::Hips,
            Bone::LeftUpperLeg => Bone::RightUpperLeg,
            Bone::RightUpperLeg => Bone::LeftUpperLeg,
            Bone::LeftLowerLeg => Bone::RightLowerLeg,
            Bone::RightLowerLeg => Bone::LeftLowerLeg,
            Bone::LeftFoot => Bone::RightFoot,
            Bone::RightFoot => Bone::LeftFoot,
            Bone::Spine => Bone::Spine,
            Bone::Chest => Bone::Chest,
            Bone::UpperChest => Bone::UpperChest,
            Bone::Neck => Bone::Neck,
            Bone::Head => Bone::Head,
            Bone::LeftShoulder => Bone::RightShoulder,
            Bone::RightShoulder => Bone::LeftShoulder,
            Bone::LeftUpperArm => Bone::RightUpperArm,
            Bone::RightUpperArm => Bone::LeftUpperArm,
            Bone::LeftLowerArm => Bone::RightLowerArm,
            Bone::RightLowerArm => Bone::LeftLowerArm,
            Bone::LeftHand => Bone::RightHand,
            Bone::RightHand => Bone::LeftHand,
            Bone::LeftToes => Bone::RightToes,
            Bone::RightToes => Bone::LeftToes,
            Bone::LeftEye => Bone::RightEye,
            Bone::RightEye => Bone::LeftEye,
            Bone::Jaw => Bone::Jaw,
            Bone::LeftThumbProximal => Bone::RightThumbProximal,
            Bone::LeftThumbIntermediate => Bone::RightThumbIntermediate,
            Bone::LeftThumbDistal => Bone::RightThumbDistal,
            Bone::LeftIndexProximal => Bone::RightIndexProximal,
            Bone::LeftIndexIntermediate => Bone::RightIndexIntermediate,
            Bone::LeftIndexDistal => Bone::RightIndexDistal,
            Bone::LeftMiddleProximal => Bone::RightMiddleProximal,
            Bone::LeftMiddleIntermediate => Bone::RightMiddleIntermediate,
            Bone::LeftMiddleDistal => Bone::RightMiddleDistal,
            Bone::LeftRingProximal => Bone::RightRingProximal,
            Bone::LeftRingIntermediate => Bone::RightRingIntermediate,
            Bone::LeftRingDistal => Bone::RightRingDistal,
            Bone::LeftLittleProximal => Bone::RightLittleProximal,
            Bone::LeftLittleIntermediate => Bone::RightLittleIntermediate,
            Bone::LeftLittleDistal => Bone::RightLittleDistal,
            Bone::RightThumbProximal => Bone::LeftThumbProximal,
            Bone::RightThumbIntermediate => Bone::LeftThumbIntermediate,
            Bone::RightThumbDistal => Bone::LeftThumbDistal,
            Bone::RightIndexProximal => Bone::LeftIndexProximal,
            Bone::RightIndexIntermediate => Bone::LeftIndexIntermediate,
            Bone::RightIndexDistal => Bone::LeftIndexDistal,
            Bone::RightMiddleProximal => Bone::LeftMiddleProximal,
            Bone::RightMiddleIntermediate => Bone::LeftMiddleIntermediate,
            Bone::RightMiddleDistal => Bone::LeftMiddleDistal,
            Bone::RightRingProximal => Bone::LeftRingProximal,
            Bone::RightRingIntermediate => Bone::LeftRingIntermediate,
            Bone::RightRingDistal => Bone::LeftRingDistal,
            Bone::RightLittleProximal => Bone::LeftLittleProximal,
            Bone::RightLittleIntermediate => Bone::LeftLittleIntermediate,
            Bone::RightLittleDistal => Bone::LeftLittleDistal,
        }
    }

    /// The name under which this bone travels on the wire.
    pub open spec fn spec_name(self) -> Seq<char> {
        match self {
            Bone::Hips => "Hips"@,
            Bone::LeftUpperLeg => "LeftUpperLeg"@,
            Bone::RightUpperLeg => "RightUpperLeg"@,
            Bone::LeftLowerLeg => "LeftLowerLeg"@,
            Bone::RightLowerLeg => "RightLowerLeg"@,
            Bone::LeftFoot => "LeftFoot"@,
            Bone::RightFoot => "RightFoot"@,
            Bone::Spine => "Spine"@,
            Bone::Chest => "Chest"@,
            Bone::UpperChest => "UpperChest"@,
            Bone::Neck => "Neck"@,
            Bone::Head => "Head"@,
            Bone::LeftShoulder => "LeftShoulder"@,
            Bone::RightShoulder => "RightShoulder"@,
            Bone::LeftUpperArm => "LeftUpperArm"@,
            Bone::RightUpperArm => "RightUpperArm"@,
            Bone::LeftLowerArm => "LeftLowerArm"@,
            Bone::RightLowerArm => "RightLowerArm"@,
            Bone::LeftHand => "LeftHand"@,
            Bone::RightHand => "RightHand"@,
            Bone::LeftToes => "LeftToes"@,
            Bone::RightToes => "RightToes"@,
            Bone::LeftEye => "LeftEye"@,
            Bone::RightEye => "RightEye"@,
            Bone::Jaw => "Jaw"@,
            Bone::LeftThumbProximal => "LeftThumbProximal"@,
            Bone::LeftThumbIntermediate => "LeftThumbIntermediate"@,
            Bone::LeftThumbDistal => "LeftThumbDistal"@,
            Bone::LeftIndexProximal => "LeftIndexProximal"@,
            Bone::LeftIndexIntermediate => "LeftIndexIntermediate"@,
            Bone::LeftIndexDistal => "LeftIndexDistal"@,
            Bone::LeftMiddleProximal => "LeftMiddleProximal"@,
            Bone::LeftMiddleIntermediate => "LeftMiddleIntermediate"@,
            Bone::LeftMiddleDistal => "LeftMiddleDistal"@,
            Bone::LeftRingProximal => "LeftRingProximal"@,
            Bone::LeftRingIntermediate => "LeftRingIntermediate"@,
            Bone::LeftRingDistal => "LeftRingDistal"@,
            Bone::LeftLittleProximal => "LeftLittleProximal"@,
            Bone::LeftLittleIntermediate => "LeftLittleIntermediate"@,
            Bone::LeftLittleDistal => "LeftLittleDistal"@,
            Bone::RightThumbProximal => "RightThumbProximal"@,
            Bone::RightThumbIntermediate => "RightThumbIntermediate"@,
            Bone::RightThumbDistal => "RightThumbDistal"@,
            Bone::RightIndexProximal => "RightIndexProximal"@,
            Bone::RightIndexIntermediate => "RightIndexIntermediate"@,
            Bone::RightIndexDistal => "RightIndexDistal"@,
            Bone::RightMiddleProximal => "RightMiddleProximal"@,
            Bone::RightMiddleIntermediate => "RightMiddleIntermediate"@,
            Bone::RightMiddleDistal => "RightMiddleDistal"@,
            Bone::RightRingProximal => "RightRingProximal"@,
            Bone::RightRingIntermediate => "RightRingIntermediate"@,
            Bone::RightRingDistal => "RightRingDistal"@,
            Bone::RightLittleProximal => "RightLittleProximal"@,
            Bone::RightLittleIntermediate => "RightLittleIntermediate"@,
            Bone::RightLittleDistal => "RightLittleDistal"@,
        }
    }

    /// Whether `self` lies strictly below `ancestor` in the skeleton tree.
    pub open spec fn descends_from(self, ancestor: Bone) -> bool
        decreases self.spec_ordinal(),
    {
        match self.spec_parent() {
            None => false,
            Some(p) => if p.spec_ordinal() < self.spec_ordinal() {
                p == ancestor || p.descends_from(ancestor)
            } else {
                false
            },
        }
    }

    pub fn ordinal(self) -> (r: u8)
        ensures
            r == self.spec_ordinal(),
            r < 55,
    {
        match self {
            Bone::Hips => 0,
            Bone::LeftUpperLeg => 1,
            Bone::RightUpperLeg => 2,
            Bone::LeftLowerLeg => 3,
            Bone::RightLowerLeg => 4,
            Bone::LeftFoot => 5,
            Bone::RightFoot => 6,
            Bone::Spine => 7,
            Bone::Chest => 8,
            Bone::UpperChest => 9,
            Bone::Neck => 10,
            Bone::Head => 11,
            Bone::LeftShoulder => 12,
            Bone::RightShoulder => 13,
            Bone::LeftUpperArm => 14,
            Bone::RightUpperArm => 15,
            Bone::LeftLowerArm => 16,
            Bone::RightLowerArm => 17,
            Bone::LeftHand => 18,
            Bone::RightHand => 19,
            Bone::LeftToes => 20,
            Bone::RightToes => 21,
            Bone::LeftEye => 22,
            Bone::RightEye => 23,
            Bone::Jaw => 24,
            Bone::LeftThumbProximal => 25,
            Bone::LeftThumbIntermediate => 26,
            Bone::LeftThumbDistal => 27,
            Bone::LeftIndexProximal => 28,
            Bone::LeftIndexIntermediate => 29,
            Bone::LeftIndexDistal => 30,
            Bone::LeftMiddleProximal => 31,
            Bone::LeftMiddleIntermediate => 32,
            Bone::LeftMiddleDistal => 33,
            Bone::LeftRingProximal => 34,
            Bone::LeftRingIntermediate => 35,
            Bone::LeftRingDistal => 36,
            Bone::LeftLittleProximal => 37,
            Bone::LeftLittleIntermediate => 38,
            Bone::LeftLittleDistal => 39,
            Bone::RightThumbProximal => 40,
            Bone::RightThumbIntermediate => 41,
            Bone::RightThumbDistal => 42,
            Bone::RightIndexProximal => 43,
            Bone::RightIndexIntermediate => 44,
            Bone::RightIndexDistal => 45,
            Bone::RightMiddleProximal => 46,
            Bone::RightMiddleIntermediate => 47,
            Bone::RightMiddleDistal => 48,
            Bone::RightRingProximal => 49,
            Bone::RightRingIntermediate => 50,
            Bone::RightRingDistal => 51,
            Bone::RightLittleProximal => 52,
            Bone::RightLittleIntermediate => 53,
            Bone::RightLittleDistal => 54,
        }
    }

    pub fn from_ordinal(i: u8) -> (r: Option<Bone>)
        ensures
            r == Self::spec_from_ordinal(i as int),
            r.is_some() <==> i < 55,
            r.is_some() ==> r.unwrap().spec_ordinal() == i,
    {
        match i {
            0 => Some(Bone::Hips),
            1 => Some(Bone::LeftUpperLeg),
            2 => Some(Bone::RightUpperLeg),
            3 => Some(Bone::LeftLowerLeg),
            4 => Some(Bone::RightLowerLeg),
            5 => Some(Bone::LeftFoot),
            6 => Some(Bone::RightFoot),
            7 => Some(Bone::Spine),
            8 => Some(Bone::Chest),
            9 => Some(Bone::UpperChest),
            10 => Some(Bone::Neck),
            11 => Some(Bone::Head),
            12 => Some(Bone::LeftShoulder),
            13 => Some(Bone::RightShoulder),
            14 => Some(Bone::LeftUpperArm),
            15 => Some(Bone::RightUpperArm),
            16 => Some(Bone::LeftLowerArm),
            17 => Some(Bone::RightLowerArm),
            18 => Some(Bone::LeftHand),
            19 => Some(Bone::RightHand),
            20 => Some(Bone::LeftToes),
            21 => Some(Bone::RightToes),
            22 => Some(Bone::LeftEye),
            23 => Some(Bone::RightEye),
            24 => Some(Bone::Jaw),
            25 => Some(Bone::LeftThumbProximal),
            26 => Some(Bone::LeftThumbIntermediate),
            27 => Some(Bone::LeftThumbDistal),
            28 => Some(Bone::LeftIndexProximal),
            29 => Some(Bone::LeftIndexIntermediate),
            30 => Some(Bone::LeftIndexDistal),
            31 => Some(Bone::LeftMiddleProximal),
            32 => Some(Bone::LeftMiddleIntermediate),
            33 => Some(Bone::LeftMiddleDistal),
            34 => Some(Bone::LeftRingProximal),
            35 => Some(Bone::LeftRingIntermediate),
            36 => Some(Bone::LeftRingDistal),
            37 => Some(Bone::LeftLittleProximal),
            38 => Some(Bone::LeftLittleIntermediate),
            39 => Some(Bone::LeftLittleDistal),
            40 => Some(Bone::RightThumbProximal),
            41 => Some(Bone::RightThumbIntermediate),
            42 => Some(Bone::RightThumbDistal),
            43 => Some(Bone::RightIndexProximal),
            44 => Some(Bone::RightIndexIntermediate),
            45 => Some(Bone::RightIndexDistal),
            46 => Some(Bone::RightMiddleProximal),
            47 => Some(Bone::RightMiddleIntermediate),
            48 => Some(Bone::RightMiddleDistal),
            49 => Some(Bone::RightRingProximal),
            50 => Some(Bone::RightRingIntermediate),
            51 => Some(Bone::RightRingDistal),
            52 => Some(Bone::RightLittleProximal),
            53 => Some(Bone::RightLittleIntermediate),
            54 => Some(Bone::RightLittleDistal),
            _ => None,
        }
    }

    pub fn parent(&self) -> (r: Option<Bone>)
        ensures
            r == self.spec_parent(),
            r.is_some() ==> r.unwrap().spec_ordinal() < self.spec_ordinal(),
    {
        match *self {
            Bone::Hips => None,
            Bone::LeftUpperLeg => Some(Bone::Hips),
            Bone::RightUpperLeg => Some(Bone::Hips),
            Bone::LeftLowerLeg => Some(Bone::LeftUpperLeg),
            Bone::RightLowerLeg => Some(Bone::RightUpperLeg),
            Bone::LeftFoot => Some(Bone::LeftLowerLeg),
            Bone::RightFoot => Some(Bone::RightLowerLeg),
            Bone::Spine => Some(Bone::Hips),
            Bone::Chest => Some(Bone::Spine),
            Bone::UpperChest => Some(Bone::Chest),
            Bone::Neck => Some(Bone::UpperChest),
            Bone::Head => Some(Bone::Neck),
            Bone::LeftShoulder => Some(Bone::UpperChest),
            Bone::RightShoulder => Some(Bone::UpperChest),
            Bone::LeftUpperArm => Some(Bone::LeftShoulder),
            Bone::RightUpperArm => Some(Bone::RightShoulder),
            Bone::LeftLowerArm => Some(Bone::LeftUpperArm),
            Bone::RightLowerArm => Some(Bone::RightUpperArm),
            Bone::LeftHand => Some(Bone::LeftLowerArm),
            Bone::RightHand => Some(Bone::RightLowerArm),
            Bone::LeftToes => Some(Bone::LeftFoot),
            Bone::RightToes => Some(Bone::RightFoot),
            Bone::LeftEye => Some(Bone::Head),
            Bone::RightEye => Some(Bone::Head),
            Bone::Jaw => Some(Bone::Head),
            Bone::LeftThumbProximal => Some(Bone::LeftHand),
            Bone::LeftThumbIntermediate => Some(Bone::LeftThumbProximal),
            Bone::LeftThumbDistal => Some(Bone::LeftThumbIntermediate),
            Bone::LeftIndexProximal => Some(Bone::LeftHand),
            Bone::LeftIndexIntermediate => Some(Bone::LeftIndexProximal),
            Bone::LeftIndexDistal => Some(Bone::LeftIndexIntermediate),
            Bone::LeftMiddleProximal => Some(Bone::LeftHand),
            Bone::LeftMiddleIntermediate => Some(Bone::LeftMiddleProximal),
            Bone::LeftMiddleDistal => Some(Bone::LeftMiddleIntermediate),
            Bone::LeftRingProximal => Some(Bone::LeftHand),
            Bone::LeftRingIntermediate => Some(Bone::LeftRingProximal),
            Bone::LeftRingDistal => Some(Bone::LeftRingIntermediate),
            Bone::LeftLittleProximal => Some(Bone::LeftHand),
            Bone::LeftLittleIntermediate => Some(Bone::LeftLittleProximal),
            Bone::LeftLittleDistal => Some(Bone::LeftLittleIntermediate),
            Bone::RightThumbProximal => Some(Bone::RightHand),
            Bone::RightThumbIntermediate => Some(Bone::RightThumbProximal),
            Bone::RightThumbDistal => Some(Bone::RightThumbIntermediate),
            Bone::RightIndexProximal => Some(Bone::RightHand),
            Bone::RightIndexIntermediate => Some(Bone::RightIndexProximal),
            Bone::RightIndexDistal => Some(Bone::RightIndexIntermediate),
            Bone::RightMiddleProximal => Some(Bone::RightHand),
            Bone::RightMiddleIntermediate => Some(Bone::RightMiddleProximal),
            Bone::RightMiddleDistal => Some(Bone::RightMiddleIntermediate),
            Bone::RightRingProximal => Some(Bone::RightHand),
            Bone::RightRingIntermediate => Some(Bone::RightRingProximal),
            Bone::RightRingDistal => Some(Bone::RightRingIntermediate),
            Bone::RightLittleProximal => Some(Bone::RightHand),
            Bone::RightLittleIntermediate => Some(Bone::RightLittleProximal),
            Bone::RightLittleDistal => Some(Bone::RightLittleIntermediate),
        }
    }

    pub fn mirror(&self) -> (r: Bone)
        ensures
            r == self.spec_mirror(),
    {
        match *self {
            Bone::Hips => Bone::Hips,
            Bone::LeftUpperLeg => Bone::RightUpperLeg,
            Bone::RightUpperLeg => Bone::LeftUpperLeg,
            Bone::LeftLowerLeg => Bone::RightLowerLeg,
            Bone::RightLowerLeg => Bone::LeftLowerLeg,
            Bone::LeftFoot => Bone::RightFoot,
            Bone::RightFoot => Bone::LeftFoot,
            Bone::Spine => Bone::Spine,
            Bone::Chest => Bone::Chest,
            Bone::UpperChest => Bone::UpperChest,
            Bone::Neck => Bone::Neck,
            Bone::Head => Bone::Head,
            Bone::LeftShoulder => Bone::RightShoulder,
            Bone::RightShoulder => Bone::LeftShoulder,
            Bone::LeftUpperArm => Bone::RightUpperArm,
            Bone::RightUpperArm => Bone::LeftUpperArm,
            Bone::LeftLowerArm => Bone::RightLowerArm,
            Bone::RightLowerArm => Bone::LeftLowerArm,
            Bone::LeftHand => Bone::RightHand,
            Bone::RightHand => Bone::LeftHand,
            Bone::LeftToes => Bone::RightToes,
            Bone::RightToes => Bone::LeftToes,
            Bone::LeftEye => Bone::RightEye,
            Bone::RightEye => Bone::LeftEye,
            Bone::Jaw => Bone::Jaw,
            Bone::LeftThumbProximal => Bone::RightThumbProximal,
            Bone::LeftThumbIntermediate => Bone::RightThumbIntermediate,
            Bone::LeftThumbDistal => Bone::RightThumbDistal,
            Bone::LeftIndexProximal => Bone::RightIndexProximal,
            Bone::LeftIndexIntermediate => Bone::RightIndexIntermediate,
            Bone::LeftIndexDistal => Bone::RightIndexDistal,
            Bone::LeftMiddleProximal => Bone::RightMiddleProximal,
            Bone::LeftMiddleIntermediate => Bone::RightMiddleIntermediate,
            Bone::LeftMiddleDistal => Bone::RightMiddleDistal,
            Bone::LeftRingProximal => Bone::RightRingProximal,
            Bone::LeftRingIntermediate => Bone::RightRingIntermediate,
            Bone::LeftRingDistal => Bone::RightRingDistal,
            Bone::LeftLittleProximal => Bone::RightLittleProximal,
            Bone::LeftLittleIntermediate => Bone::RightLittleIntermediate,
            Bone::LeftLittleDistal => Bone::RightLittleDistal,
            Bone::RightThumbProximal => Bone::LeftThumbProximal,
            Bone::RightThumbIntermediate => Bone::LeftThumbIntermediate,
            Bone::RightThumbDistal => Bone::LeftThumbDistal,
            Bone::RightIndexProximal => Bone::LeftIndexProximal,
            Bone::RightIndexIntermediate => Bone::LeftIndexIntermediate,
            Bone::RightIndexDistal => Bone::LeftIndexDistal,
            Bone::RightMiddleProximal => Bone::LeftMiddleProximal,
            Bone::RightMiddleIntermediate => Bone::LeftMiddleIntermediate,
            Bone::RightMiddleDistal => Bone::LeftMiddleDistal,
            Bone::RightRingProximal => Bone::LeftRingProximal,
            Bone::RightRingIntermediate => Bone::LeftRingIntermediate,
            Bone::RightRingDistal => Bone::LeftRingDistal,
            Bone::RightLittleProximal => Bone::LeftLittleProximal,
            Bone::RightLittleIntermediate => Bone::LeftLittleIntermediate,
            Bone::RightLittleDistal => Bone::LeftLittleDistal,
        }
    }

    pub fn name(&self) -> (r: &'static str)
        ensures
            r@ == self.spec_name(),
    {
        match *self {
            Bone::Hips => "Hips",
            Bone::LeftUpperLeg => "LeftUpperLeg",
            Bone::RightUpperLeg => "RightUpperLeg",
            Bone::LeftLowerLeg => "LeftLowerLeg",
            Bone::RightLowerLeg => "RightLowerLeg",
            Bone::LeftFoot => "LeftFoot",
            Bone::RightFoot => "RightFoot",
            Bone::Spine => "Spine",
            Bone::Chest => "Chest",
            Bone::UpperChest => "UpperChest",
            Bone::Neck => "Neck",
            Bone::Head => "Head",
            Bone::LeftShoulder => "LeftShoulder",
            Bone::RightShoulder => "RightShoulder",
            Bone::LeftUpperArm => "LeftUpperArm",
            Bone::RightUpperArm => "RightUpperArm",
            Bone::LeftLowerArm => "LeftLowerArm",
            Bone::RightLowerArm => "RightLowerArm",
            Bone::LeftHand => "LeftHand",
            Bone::RightHand => "RightHand",
            Bone::LeftToes => "LeftToes",
            Bone::RightToes => "RightToes",
            Bone::LeftEye => "LeftEye",
            Bone::RightEye => "RightEye",
            Bone::Jaw => "Jaw",
            Bone::LeftThumbProximal => "LeftThumbProximal",
            Bone::LeftThumbIntermediate => "LeftThumbIntermediate",
            Bone::LeftThumbDistal => "LeftThumbDistal",
            Bone::LeftIndexProximal => "LeftIndexProximal",
            Bone::LeftIndexIntermediate => "LeftIndexIntermediate",
            Bone::LeftIndexDistal => "LeftIndexDistal",
            Bone::LeftMiddleProximal => "LeftMiddleProximal",
            Bone::LeftMiddleIntermediate => "LeftMiddleIntermediate",
            Bone::LeftMiddleDistal => "LeftMiddleDistal",
            Bone::LeftRingProximal => "LeftRingProximal",
            Bone::LeftRingIntermediate => "LeftRingIntermediate",
            Bone::LeftRingDistal => "LeftRingDistal",
            Bone::LeftLittleProximal => "LeftLittleProximal",
            Bone::LeftLittleIntermediate => "LeftLittleIntermediate",
            Bone::LeftLittleDistal => "LeftLittleDistal",
            Bone::RightThumbProximal => "RightThumbProximal",
            Bone::RightThumbIntermediate => "RightThumbIntermediate",
            Bone::RightThumbDistal => "RightThumbDistal",
            Bone::RightIndexProximal => "RightIndexProximal",
            Bone::RightIndexIntermediate => "RightIndexIntermediate",
            Bone::RightIndexDistal => "RightIndexDistal",
            Bone::RightMiddleProximal => "RightMiddleProximal",
            Bone::RightMiddleIntermediate => "RightMiddleIntermediate",
            Bone::RightMiddleDistal => "RightMiddleDistal",
            Bone::RightRingProximal => "RightRingProximal",
            Bone::RightRingIntermediate => "RightRingIntermediate",
            Bone::RightRingDistal => "RightRingDistal",
            Bone::RightLittleProximal => "RightLittleProximal",
            Bone::RightLittleIntermediate => "RightLittleIntermediate",
            Bone::RightLittleDistal => "RightLittleDistal",
        }
    }

    /// Every bone, in the canonical order.
    pub fn iter() -> (r: Vec<Bone>)
        ensures
            r@.len() == 55,
            forall|i: int| 0 <= i < 55 ==> Self::spec_from_ordinal(i) == Some(#[trigger] r@[i]),
    {
        let mut all: Vec<Bone> = Vec::new();
        let mut i: u8 = 0;
        while i < 55
            invariant
                i <= 55,
                all@.len() == i,
                forall|k: int| 0 <= k < i ==> Self::spec_from_ordinal(k) == Some(#[trigger] all@[k]),
            decreases 55 - i,
        {
            match Bone::from_ordinal(i) {
                Some(b) => {
                    all.push(b);
                },
                None => {},
            }
            i += 1;
        }
        all
    }

    /// Looks a bone up by its wire name: the bone that carries the name, or
    /// `None` where no bone does.
    pub fn from_name(s: &str) -> (r: Option<Bone>)
        ensures
            match r {
                Some(b) => b.spec_name() == s@,
                None => forall|b: Bone| b.spec_name() != s@,
            },
    {
        let mut i: u8 = 0;
        while i < 55
            invariant
                i <= 55,
                forall|b: Bone| b.spec_ordinal() < i ==> b.spec_name() != s@,
            decreases 55 - i,
        {
            match Bone::from_ordinal(i) {
                Some(b) => {
                    if str_eq(b.name(), s) {
                        return Some(b);
                    }
                    proof {
                        lemma_ordinal_round_trip(b);
                        assert forall|c: Bone| c.spec_ordinal() < i + 1 implies c.spec_name() != s@ by {
                            lemma_ordinal_round_trip(c);
                        }
                    }
                },
                None => {},
            }
            i += 1;
        }
        None
    }

    /// Looks a bone up by its wire name, with an error where no bone carries
    /// the name.
    pub fn from_str(s: &str) -> (r: Result<Bone, FromStrErr>)
        ensures
            match r {
                Ok(b) => b.spec_name() == s@,
                Err(_) => forall|b: Bone| b.spec_name() != s@,
            },
    {
        match Bone::from_name(s) {
            Some(b) => Ok(b),
            None => Err(FromStrErr),
        }
    }
}

/// The canonical numbering is a bijection between the bones and the numbers
/// below fifty-five.
pub proof fn lemma_ordinal_round_trip(b: Bone)
    ensures
        b.spec_ordinal() < 55,
        Bone::spec_from_ordinal(b.spec_ordinal() as int) == Some(b),
{
}

/// A number below fifty-five names exactly one bone, and that bone carries
/// the number.
pub proof fn lemma_from_ordinal_total(i: int)
    ensures
        0 <= i < 55 <==> Bone::spec_from_ordinal(i).is_some(),
        Bone::spec_from_ordinal(i).is_some() ==> Bone::spec_from_ordinal(i).unwrap().spec_ordinal() == i,
{
}

/// A bone's parent always comes earlier in the canonical order.
pub proof fn lemma_parent_precedes(b: Bone)
    ensures
        b.spec_parent().is_some() ==> b.spec_parent().unwrap().spec_ordinal() < b.spec_ordinal(),
        b.spec_parent().is_none() <==> b == Bone::Hips,
{
}

/// Mirroring twice gives the bone back.
pub proof fn lemma_mirror_involution(b: Bone)
    ensures
        b.spec_mirror().spec_mirror() == b,
{
}

/// Mirroring respects the tree: the mirror image's parent is the parent's
/// mirror image.
pub proof fn lemma_mirror_parent(b: Bone)
    ensures
        b.spec_mirror().spec_parent() == match b.spec_parent() {
            Some(p) => Some(p.spec_mirror()),
            None => None,
        },
{
}

/// The length of a name and its characters at four chosen places, with a
/// blank where the name is too short: enough to tell any two bone names apart.
pub open spec fn name_key(s: Seq<char>) -> (nat, char, char, char, char) {
    (
        s.len(),
        if s.len() > 2 { s[2] } else { ' ' },
        if s.len() > 4 { s[4] } else { ' ' },
        if s.len() > 5 { s[5] } else { ' ' },
        if s.len() > 10 { s[10] } else { ' ' },
    )
}

spec fn bone_key(b: Bone) -> (nat, char, char, char, char) {
    match b {
        Bone::Hips => (4, 'p', ' ', ' ', ' '),
        Bone::LeftUpperLeg => (12, 'f', 'U', 'p', 'e'),
        Bone::RightUpperLeg => (13, 'g', 't', 'U', 'L'),
        Bone::LeftLowerLeg => (12, 'f', 'L', 'o', 'e'),
        Bone::RightLowerLeg => (13, 'g', 't', 'L', 'L'),
        Bone::LeftFoot => (8, 'f', 'F', 'o', ' '),
        Bone::RightFoot => (9, 'g', 't', 'F', ' '),
        Bone::Spine => (5, 'i', 'e', ' ', ' '),
        Bone::Chest => (5, 'e', 't', ' ', ' '),
        Bone::UpperChest => (10, 'p', 'r', 'C', ' '),
        Bone::Neck => (4, 'c', ' ', ' ', ' '),
        Bone::Head => (4, 'a', ' ', ' ', ' '),
        Bone::LeftShoulder => (12, 'f', 'S', 'h', 'e'),
        Bone::RightShoulder => (13, 'g', 't', 'S', 'd'),
        Bone::LeftUpperArm => (12, 'f', 'U', 'p', 'r'),
        Bone::RightUpperArm => (13, 'g', 't', 'U', 'A'),
        Bone::LeftLowerArm => (12, 'f', 'L', 'o', 'r'),
        Bone::RightLowerArm => (13, 'g', 't', 'L', 'A'),
        Bone::LeftHand => (8, 'f', 'H', 'a', ' '),
        Bone::RightHand => (9, 'g', 't', 'H', ' '),
        Bone::LeftToes => (8, 'f', 'T', 'o', ' '),
        Bone::RightToes => (9, 'g', 't', 'T', ' '),
        Bone::LeftEye => (7, 'f', 'E', 'y', ' '),
        Bone::RightEye => (8, 'g', 't', 'E', ' '),
        Bone::Jaw => (3, 'w', ' ', ' ', ' '),
        Bone::LeftThumbProximal => (17, 'f', 'T', 'h', 'r'),
        Bone::LeftThumbIntermediate => (21, 'f', 'T', 'h', 'n'),
        Bone::LeftThumbDistal => (15, 'f', 'T', 'h', 'i'),
        Bone::LeftIndexProximal => (17, 'f', 'I', 'n', 'r'),
        Bone::LeftIndexIntermediate => (21, 'f', 'I', 'n', 'n'),
        Bone::LeftIndexDistal => (15, 'f', 'I', 'n', 'i'),
        Bone::LeftMiddleProximal => (18, 'f', 'M', 'i', 'P'),
        Bone::LeftMiddleIntermediate => (22, 'f', 'M', 'i', 'I'),
        Bone::LeftMiddleDistal => (16, 'f', 'M', 'i', 'D'),
        Bone::LeftRingProximal => (16, 'f', 'R', 'i', 'o'),
        Bone::LeftRingIntermediate => (20, 'f', 'R', 'i', 't'),
        Bone::LeftRingDistal => (14, 'f', 'R', 'i', 's'),
        Bone::LeftLittleProximal => (18, 'f', 'L', 'i', 'P'),
        Bone::LeftLittleIntermediate => (22, 'f', 'L', 'i', 'I'),
        Bone::LeftLittleDistal => (16, 'f', 'L', 'i', 'D'),
        Bone::RightThumbProximal => (18, 'g', 't', 'T', 'P'),
        Bone::RightThumbIntermediate => (22, 'g', 't', 'T', 'I'),
        Bone::RightThumbDistal => (16, 'g', 't', 'T', 'D'),
        Bone::RightIndexProximal => (18, 'g', 't', 'I', 'P'),
        Bone::RightIndexIntermediate => (22, 'g', 't', 'I', 'I'),
        Bone::RightIndexDistal => (16, 'g', 't', 'I', 'D'),
        Bone::RightMiddleProximal => (19, 'g', 't', 'M', 'e'),
        Bone::RightMiddleIntermediate => (23, 'g', 't', 'M', 'e'),
        Bone::RightMiddleDistal => (17, 'g', 't', 'M', 'e'),
        Bone::RightRingProximal => (17, 'g', 't', 'R', 'r'),
        Bone::RightRingIntermediate => (21, 'g', 't', 'R', 'n'),
        Bone::RightRingDistal => (15, 'g', 't', 'R', 'i'),
        Bone::RightLittleProximal => (19, 'g', 't', 'L', 'e'),
        Bone::RightLittleIntermediate => (23, 'g', 't', 'L', 'e'),
        Bone::RightLittleDistal => (17, 'g', 't', 'L', 'e'),
    }
}

proof fn lemma_name_key(b: Bone)
    ensures
        name_key(b.spec_name()) == bone_key(b),
{
    match b {
        Bone::Hips => {
            reveal_strlit("Hips");
            assert(name_key("Hips"@) == bone_key(b));
        },
        Bone::LeftUpperLeg => {
            reveal_strlit("LeftUpperLeg");
            assert(name_key("LeftUpperLeg"@) == bone_key(b));
        },
        Bone::RightUpperLeg => {
            reveal_strlit("RightUpperLeg");
            assert(name_key("RightUpperLeg"@) == bone_key(b));
        },
        Bone::LeftLowerLeg => {
            reveal_strlit("LeftLowerLeg");
            assert(name_key("LeftLowerLeg"@) == bone_key(b));
        },
        Bone::RightLowerLeg => {
            reveal_strlit("RightLowerLeg");
            assert(name_key("RightLowerLeg"@) == bone_key(b));
        },
        Bone::LeftFoot => {
            reveal_strlit("LeftFoot");
            assert(name_key("LeftFoot"@) == bone_key(b));
        },
        Bone::RightFoot => {
            reveal_strlit("RightFoot");
            assert(name_key("RightFoot"@) == bone_key(b));
        },
        Bone::Spine => {
            reveal_strlit("Spine");
            assert(name_key("Spine"@) == bone_key(b));
        },
        Bone::Chest => {
            reveal_strlit("Chest");
            assert(name_key("Chest"@) == bone_key(b));
        },
        Bone::UpperChest => {
            reveal_strlit("UpperChest");
            assert(name_key("UpperChest"@) == bone_key(b));
        },
        Bone::Neck => {
            reveal_strlit("Neck");
            assert(name_key("Neck"@) == bone_key(b));
        },
        Bone::Head => {
            reveal_strlit("Head");
            assert(name_key("Head"@) == bone_key(b));
        },
        Bone::LeftShoulder => {
            reveal_strlit("LeftShoulder");
            assert(name_key("LeftShoulder"@) == bone_key(b));
        },
        Bone::RightShoulder => {
            reveal_strlit("RightShoulder");
            assert(name_key("RightShoulder"@) == bone_key(b));
        },
        Bone::LeftUpperArm => {
            reveal_strlit("LeftUpperArm");
            assert(name_key("LeftUpperArm"@) == bone_key(b));
        },
        Bone::RightUpperArm => {
            reveal_strlit("RightUpperArm");
            assert(name_key("RightUpperArm"@) == bone_key(b));
        },
        Bone::LeftLowerArm => {
            reveal_strlit("LeftLowerArm");
            assert(name_key("LeftLowerArm"@) == bone_key(b));
        },
        Bone::RightLowerArm => {
            reveal_strlit("RightLowerArm");
            assert(name_key("RightLowerArm"@) == bone_key(b));
        },
        Bone::LeftHand => {
            reveal_strlit("LeftHand");
            assert(name_key("LeftHand"@) == bone_key(b));
        },
        Bone::RightHand => {
            reveal_strlit("RightHand");
            assert(name_key("RightHand"@) == bone_key(b));
        },
        Bone::LeftToes => {
            reveal_strlit("LeftToes");
            assert(name_key("LeftToes"@) == bone_key(b));
        },
        Bone::RightToes => {
            reveal_strlit("RightToes");
            assert(name_key("RightToes"@) == bone_key(b));
        },
        Bone::LeftEye => {
            reveal_strlit("LeftEye");
            assert(name_key("LeftEye"@) == bone_key(b));
        },
        Bone::RightEye => {
            reveal_strlit("RightEye");
            assert(name_key("RightEye"@) == bone_key(b));
        },
        Bone::Jaw => {
            reveal_strlit("Jaw");
            assert(name_key("Jaw"@) == bone_key(b));
        },
        Bone::LeftThumbProximal => {
            reveal_strlit("LeftThumbProximal");
            assert(name_key("LeftThumbProximal"@) == bone_key(b));
        },
        Bone::LeftThumbIntermediate => {
            reveal_strlit("LeftThumbIntermediate");
            assert(name_key("LeftThumbIntermediate"@) == bone_key(b));
        },
        Bone::LeftThumbDistal => {
            reveal_strlit("LeftThumbDistal");
            assert(name_key("LeftThumbDistal"@) == bone_key(b));
        },
        Bone::LeftIndexProximal => {
            reveal_strlit("LeftIndexProximal");
            assert(name_key("LeftIndexProximal"@) == bone_key(b));
        },
        Bone::LeftIndexIntermediate => {
            reveal_strlit("LeftIndexIntermediate");
            assert(name_key("LeftIndexIntermediate"@) == bone_key(b));
        },
        Bone::LeftIndexDistal => {
            reveal_strlit("LeftIndexDistal");
            assert(name_key("LeftIndexDistal"@) == bone_key(b));
        },
        Bone::LeftMiddleProximal => {
            reveal_strlit("LeftMiddleProximal");
            assert(name_key("LeftMiddleProximal"@) == bone_key(b));
        },
        Bone::LeftMiddleIntermediate => {
            reveal_strlit("LeftMiddleIntermediate");
            assert(name_key("LeftMiddleIntermediate"@) == bone_key(b));
        },
        Bone::LeftMiddleDistal => {
            reveal_strlit("LeftMiddleDistal");
            assert(name_key("LeftMiddleDistal"@) == bone_key(b));
        },
        Bone::LeftRingProximal => {
            reveal_strlit("LeftRingProximal");
            assert(name_key("LeftRingProximal"@) == bone_key(b));
        },
        Bone::LeftRingIntermediate => {
            reveal_strlit("LeftRingIntermediate");
            assert(name_key("LeftRingIntermediate"@) == bone_key(b));
        },
        Bone::LeftRingDistal => {
            reveal_strlit("LeftRingDistal");
            assert(name_key("LeftRingDistal"@) == bone_key(b));
        },
        Bone::LeftLittleProximal => {
            reveal_strlit("LeftLittleProximal");
            assert(name_key("LeftLittleProximal"@) == bone_key(b));
        },
        Bone::LeftLittleIntermediate => {
            reveal_strlit("LeftLittleIntermediate");
            assert(name_key("LeftLittleIntermediate"@) == bone_key(b));
        },
        Bone::LeftLittleDistal => {
            reveal_strlit("LeftLittleDistal");
            assert(name_key("LeftLittleDistal"@) == bone_key(b));
        },
        Bone::RightThumbProximal => {
            reveal_strlit("RightThumbProximal");
            assert(name_key("RightThumbProximal"@) == bone_key(b));
        },
        Bone::RightThumbIntermediate => {
            reveal_strlit("RightThumbIntermediate");
            assert(name_key("RightThumbIntermediate"@) == bone_key(b));
        },
        Bone::RightThumbDistal => {
            reveal_strlit("RightThumbDistal");
            assert(name_key("RightThumbDistal"@) == bone_key(b));
        },
        Bone::RightIndexProximal => {
            reveal_strlit("RightIndexProximal");
            assert(name_key("RightIndexProximal"@) == bone_key(b));
        },
        Bone::RightIndexIntermediate => {
            reveal_strlit("RightIndexIntermediate");
            assert(name_key("RightIndexIntermediate"@) == bone_key(b));
        },
        Bone::RightIndexDistal => {
            reveal_strlit("RightIndexDistal");
            assert(name_key("RightIndexDistal"@) == bone_key(b));
        },
        Bone::RightMiddleProximal => {
            reveal_strlit("RightMiddleProximal");
            assert(name_key("RightMiddleProximal"@) == bone_key(b));
        },
        Bone::RightMiddleIntermediate => {
            reveal_strlit("RightMiddleIntermediate");
            assert(name_key("RightMiddleIntermediate"@) == bone_key(b));
        },
        Bone::RightMiddleDistal => {
            reveal_strlit("RightMiddleDistal");
            assert(name_key("RightMiddleDistal"@) == bone_key(b));
        },
        Bone::RightRingProximal => {
            reveal_strlit("RightRingProximal");
            assert(name_key("RightRingProximal"@) == bone_key(b));
        },
        Bone::RightRingIntermediate => {
            reveal_strlit("RightRingIntermediate");
            assert(name_key("RightRingIntermediate"@) == bone_key(b));
        },
        Bone::RightRingDistal => {
            reveal_strlit("RightRingDistal");
            assert(name_key("RightRingDistal"@) == bone_key(b));
        },
        Bone::RightLittleProximal => {
            reveal_strlit("RightLittleProximal");
            assert(name_key("RightLittleProximal"@) == bone_key(b));
        },
        Bone::RightLittleIntermediate => {
            reveal_strlit("RightLittleIntermediate");
            assert(name_key("RightLittleIntermediate"@) == bone_key(b));
        },
        Bone::RightLittleDistal => {
            reveal_strlit("RightLittleDistal");
            assert(name_key("RightLittleDistal"@) == bone_key(b));
        },
    }
}

/// No two bones share a wire name, so a name found by `from_name` names one
/// bone only and `from_name(b.name())` is `b`.
pub proof fn lemma_names_distinct(a: Bone, b: Bone)
    requires
        a.spec_name() == b.spec_name(),
    ensures
        a == b,
{
    lemma_name_key(a);
    lemma_name_key(b);
}

/// The part of `descends_from` that one step up the tree decides.
pub proof fn lemma_descends_step(c: Bone, b: Bone)
    ensures
        c.descends_from(b) <==> (c.spec_parent().is_some() && (c.spec_parent().unwrap() == b
            || c.spec_parent().unwrap().descends_from(b))),
        c.descends_from(b) ==> b.spec_ordinal() < c.spec_ordinal(),
    decreases c.spec_ordinal(),
{
    lemma_parent_precedes(c);
    if c.spec_parent().is_some() {
        lemma_descends_step(c.spec_parent().unwrap(), b);
    }
}

/// One of the two arms, named after the bone at its end.
#[derive(Clone, Copy, Debug, PartialEq, Eq, Structural, PartialOrd, Ord, Hash)]
pub enum Limb {
    LeftHand,
    RightHand,
}

impl Limb {
    /// The number of limbs.
    pub const NUM: usize = 2;

    /// The four bones of the arm, from the shoulder out to the hand.
    pub open spec fn spec_bones(self) -> Seq<Bone> {
        match self {
            Limb::LeftHand => seq![
                Bone::LeftShoulder,
                Bone::LeftUpperArm,
                Bone::LeftLowerArm,
                Bone::LeftHand,
            ],
            Limb::RightHand => seq![
                Bone::RightShoulder,
                Bone::RightUpperArm,
                Bone::RightLowerArm,
                Bone::RightHand,
            ],
        }
    }

    /// The fifteen finger bones of the hand at the end of the arm: index,
    /// middle, ring and little finger, then the thumb, each from the hand
    /// outwards.
    pub open spec fn spec_finger_bones(self) -> Seq<Bone> {
        match self {
            Limb::LeftHand => seq![
                Bone::LeftIndexProximal,
                Bone::LeftIndexIntermediate,
                Bone::LeftIndexDistal,
                Bone::LeftMiddleProximal,
                Bone::LeftMiddleIntermediate,
                Bone::LeftMiddleDistal,
                Bone::LeftRingProximal,
                Bone::LeftRingIntermediate,
                Bone::LeftRingDistal,
                Bone::LeftLittleProximal,
                Bone::LeftLittleIntermediate,
                Bone::LeftLittleDistal,
                Bone::LeftThumbProximal,
                Bone::LeftThumbIntermediate,
                Bone::LeftThumbDistal,
            ],
            Limb::RightHand => seq![
                Bone::RightIndexProximal,
                Bone::RightIndexIntermediate,
                Bone::RightIndexDistal,
                Bone::RightMiddleProximal,
                Bone::RightMiddleIntermediate,
                Bone::RightMiddleDistal,
                Bone::RightRingProximal,
                Bone::RightRingIntermediate,
                Bone::RightRingDistal,
                Bone::RightLittleProximal,
                Bone::RightLittleIntermediate,
                Bone::RightLittleDistal,
                Bone::RightThumbProximal,
                Bone::RightThumbIntermediate,
                Bone::RightThumbDistal,
            ],
        }
    }

    pub open spec fn spec_end_bone(self) -> Bone {
        match self {
            Limb::LeftHand => Bone::LeftHand,
            Limb::RightHand => Bone::RightHand,
        }
    }

    pub open spec fn spec_ordinal(self) -> u8 {
        match self {
            Limb::LeftHand => 0,
            Limb::RightHand => 1,
        }
    }

    pub fn ordinal(self) -> (r: u8)
        ensures
            r == self.spec_ordinal(),
            r < 2,
    {
        match self {
            Limb::LeftHand => 0,
            Limb::RightHand => 1,
        }
    }

    pub fn bones(&self) -> (r: [Bone; 4])
        ensures
            r@ == self.spec_bones(),
    {
        let chain = match *self {
            Limb::LeftHand => [
                Bone::LeftShoulder,
                Bone::LeftUpperArm,
                Bone::LeftLowerArm,
                Bone::LeftHand,
            ],
            Limb::RightHand => [
                Bone::RightShoulder,
                Bone::RightUpperArm,
                Bone::RightLowerArm,
                Bone::RightHand,
            ],
        };
        assert(chain@ =~= self.spec_bones());
        chain
    }

    pub fn finger_bones(&self) -> (r: [Bone; 15])
        ensures
            r@ == self.spec_finger_bones(),
    {
        let fingers = match *self {
            Limb::LeftHand => [
                Bone::LeftIndexProximal,
                Bone::LeftIndexIntermediate,
                Bone::LeftIndexDistal,
                Bone::LeftMiddleProximal,
                Bone::LeftMiddleIntermediate,
                Bone::LeftMiddleDistal,
                Bone::LeftRingProximal,
                Bone::LeftRingIntermediate,
                Bone::LeftRingDistal,
                Bone::LeftLittleProximal,
                Bone::LeftLittleIntermediate,
                Bone::LeftLittleDistal,
                Bone::LeftThumbProximal,
                Bone::LeftThumbIntermediate,
                Bone::LeftThumbDistal,
            ],
            Limb::RightHand => [
                Bone::RightIndexProximal,
                Bone::RightIndexIntermediate,
                Bone::RightIndexDistal,
                Bone::RightMiddleProximal,
                Bone::RightMiddleIntermediate,
                Bone::RightMiddleDistal,
                Bone::RightRingProximal,
                Bone::RightRingIntermediate,
                Bone::RightRingDistal,
                Bone::RightLittleProximal,
                Bone::RightLittleIntermediate,
                Bone::RightLittleDistal,
                Bone::RightThumbProximal,
                Bone::RightThumbIntermediate,
                Bone::RightThumbDistal,
            ],
        };
        assert(fingers@ =~= self.spec_finger_bones());
        fingers
    }

    /// The axis about which the elbow of this arm prefers to bend, in the
    /// avatar's own frame: up for the left arm, down for the right.
    pub fn elbow_axis(&self) -> (r: glam::Vec3A)
        ensures
            r == match *self {
                Limb::LeftHand => vec3a_of_ints(0, 1, 0),
                Limb::RightHand => vec3a_of_ints(0, -1i32, 0),
            },
    {
        match *self {
            Limb::LeftHand => vec3a_from_ints(0, 1, 0),
            Limb::RightHand => vec3a_from_ints(0, -1, 0),
        }
    }

    pub fn end_bone(&self) -> (r: Bone)
        ensures
            r == self.spec_end_bone(),
            r == self.spec_bones()[3],
    {
        match *self {
            Limb::LeftHand => Bone::LeftHand,
            Limb::RightHand => Bone::RightHand,
        }
    }

    /// Both limbs, left first.
    pub fn iter() -> (r: [Limb; 2])
        ensures
            r@ =~= seq![Limb::LeftHand, Limb::RightHand],
    {
        [Limb::LeftHand, Limb::RightHand]
    }
}

/// An arm is a chain in the skeleton tree: each of its bones hangs from the
/// one before it, the last one is the limb's end bone, and the other arm is
/// its mirror image.
pub proof fn lemma_limb_chain(limb: Limb, i: int)
    requires
        0 <= i < 4,
    ensures
        limb.spec_bones().len() == 4,
        limb.spec_bones()[3] == limb.spec_end_bone(),
        i > 0 ==> limb.spec_bones()[i].spec_parent() == Some(limb.spec_bones()[i - 1]),
        limb.spec_bones()[i].spec_mirror() == (match limb {
            Limb::LeftHand => Limb::RightHand,
            Limb::RightHand => Limb::LeftHand,
        }).spec_bones()[i],
{
}

/// Whether `b` is numbered as a finger bone of `limb`: the finger bones of
/// the left hand are the bones 25 to 39, those of the right hand the bones
/// 40 to 54.
spec fn numbered_as_finger(limb: Limb, b: Bone) -> bool {
    match limb {
        Limb::LeftHand => 25 <= b.spec_ordinal() < 40,
        Limb::RightHand => 40 <= b.spec_ordinal() < 55,
    }
}

proof fn lemma_below_hand_is_finger(limb: Limb, b: Bone)
    requires
        b.descends_from(limb.spec_end_bone()),
    ensures
        numbered_as_finger(limb, b),
    decreases b.spec_ordinal(),
{
    let hand = limb.spec_end_bone();
    lemma_descends_step(b, hand);
    lemma_parent_precedes(b);
    let p = b.spec_parent().unwrap();
    if p != hand {
        lemma_below_hand_is_finger(limb, p);
    }
}

proof fn lemma_finger_is_below_hand(limb: Limb, b: Bone)
    requires
        numbered_as_finger(limb, b),
    ensures
        b.descends_from(limb.spec_end_bone()),
{
    let hand = limb.spec_end_bone();
    lemma_descends_step(b, hand);
    let p = b.spec_parent().unwrap();
    if p != hand {
        lemma_descends_step(p, hand);
        let q = p.spec_parent().unwrap();
        if q != hand {
            lemma_descends_step(q, hand);
        }
    }
}

/// The finger bones of a limb are the bones below its end bone, each listed
/// once: three to a finger, each hanging from the one before it, the first
/// from the hand.
pub proof fn lemma_finger_bones(limb: Limb, b: Bone)
    ensures
        limb.spec_finger_bones().len() == 15,
        limb.spec_finger_bones().contains(b) <==> b.descends_from(limb.spec_end_bone()),
        forall|i: int, j: int|
            0 <= i < j < 15 ==> limb.spec_finger_bones()[i] != limb.spec_finger_bones()[j],
        forall|i: int|
            0 <= i < 15 ==> (#[trigger] limb.spec_finger_bones()[i]).spec_parent() == Some(
                if i % 3 == 0 {
                    limb.spec_end_bone()
                } else {
                    limb.spec_finger_bones()[i - 1]
                },
            ),
{
    let fingers = limb.spec_finger_bones();
    if fingers.contains(b) {
        let k = choose|k: int| 0 <= k < fingers.len() && fingers[k] == b;
        assert(numbered_as_finger(limb, fingers[k]));
        lemma_finger_is_below_hand(limb, b);
    }
    if b.descends_from(limb.spec_end_bone()) {
        lemma_below_hand_is_finger(limb, b);
        let side = if limb == Limb::LeftHand {
            0int
        } else {
            1int
        };
        // The thumb is numbered first and listed last.
        let offset = b.spec_ordinal() - 25 - 15 * side;
        let at = if offset < 3 {
            offset + 12
        } else {
            offset - 3
        };
        assert(0 <= at < 15 && fingers[at] == b);
    }
}

} // verus!
