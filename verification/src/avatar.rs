//! Writing the rotations that devices ask for into the pose.

use vstd::prelude::*;

use crate::bone::Bone;
use crate::pose::Pose;
use crate::transform::{quat_inverse, quat_product};

verus! {

/// A rotation that a device asks of a bone: in the frame of the avatar, or
/// in the frame of the bone's parent.
#[derive(Clone, Copy, Debug)]
pub enum ForwardPose {
    Global(glam::Quat),
    Local(glam::Quat),
}

/// The state of the blender between two packets. It holds nothing: every
/// packet is blended from the pose it brought.
#[derive(Clone, Copy, Debug)]
pub struct AvatarState;

impl AvatarState {
    pub fn new() -> (r: AvatarState) {
        AvatarState
    }

    /// Gives `bone` the rotation that `target` asks for. A local rotation
    /// replaces the bone's local rotation. A global rotation becomes the
    /// cached global rotation of the bone, and its local rotation becomes
    /// the parent's global rotation undone, then the target. Either way the
    /// cache entries below the bone become invalid, and no bone beside
    /// `bone` has its local transform changed.
    pub fn write_forward(&self, pose: &mut Pose, bone: Bone, target: ForwardPose)
        requires
            old(pose).wf(),
        ensures
            final(pose).wf(),
            final(pose).spec_root() == old(pose).spec_root(),
            forall|c: Bone| c != bone ==> final(pose).spec_local(c) == old(pose).spec_local(c),
            final(pose).spec_local(bone).0 == old(pose).spec_local(bone).0,
            forall|c: Bone|
                bone.spec_descendants().contains(c) ==> !final(pose).spec_globalized().contains(c),
            match target {
                ForwardPose::Local(rot) => final(pose).spec_local(bone).1 == rot
                    && !final(pose).spec_globalized().contains(bone)
                    && (old(pose).coherent() ==> final(pose).coherent()),
                ForwardPose::Global(rot) => final(pose).spec_local(bone).1 == quat_product(
                    quat_inverse(old(pose).spec_read_parent(bone).1),
                    rot,
                ) && final(pose).spec_globalized().contains(bone) && final(pose).spec_read(bone).1
                    == rot,
            },
    {
        match target {
            ForwardPose::Global(rot) => pose.set_global_rot(bone, rot),
            ForwardPose::Local(rot) => pose.set_local_rot(bone, rot),
        }
    }
}

} // verus!
