//! Where a steering wheel stands and how it is turned: the frame that hand
//! targets are placed in.

use vstd::prelude::*;

use crate::transform::{
    quat_mul, quat_mul_vec3a, quat_product, quat_rotate, vec3a_add, vec3a_sum,
};

verus! {

/// The frame of a steering wheel: its centre, its rotation at rest, its
/// rotation as it is turned now, and the name under which it is published
/// as a tracker, if it is.
#[derive(Clone, Debug)]
pub struct Wheel {
    pub pos: glam::Vec3A,
    pub rot: glam::Quat,
    pub base_rot: glam::Quat,
    pub tracker: Option<String>,
}

impl Wheel {
    /// A wheel at rest.
    pub fn new(pos: glam::Vec3A, base_rot: glam::Quat, tracker: Option<String>) -> (r: Wheel)
        ensures
            r.pos == pos,
            r.rot == base_rot,
            r.base_rot == base_rot,
            r.tracker == tracker,
    {
        Wheel { pos, rot: base_rot, base_rot, tracker }
    }

    /// Turns the wheel: its rotation becomes the rotation at rest with
    /// `turn` applied first. Centre, rotation at rest and tracker name stay.
    pub fn set_turn(&mut self, turn: glam::Quat)
        ensures
            final(self).rot == quat_product(old(self).base_rot, turn),
            final(self).pos == old(self).pos,
            final(self).base_rot == old(self).base_rot,
            final(self).tracker == old(self).tracker,
    {
        self.rot = quat_mul(self.base_rot, turn);
    }

    /// What the wheel publishes as a tracker: its name, its centre and its
    /// current rotation, where a tracker name is configured.
    pub fn trackers(&self) -> (r: Option<(String, glam::Vec3A, glam::Quat)>)
        ensures
            match r {
                Some(t) => self.tracker.is_some() && t.0@ == self.tracker.unwrap()@ && t.1
                    == self.pos && t.2 == self.rot,
                None => self.tracker.is_none(),
            },
    {
        match &self.tracker {
            Some(name) => Some((name.clone(), self.pos, self.rot)),
            None => None,
        }
    }

    /// The place of a hand on the turned wheel.
    pub open spec fn spec_place(self, local_pos: glam::Vec3A, local_rot: glam::Quat) -> (
        glam::Vec3A,
        glam::Quat,
    ) {
        (
            vec3a_sum(self.pos, quat_rotate(self.rot, local_pos)),
            quat_product(self.rot, local_rot),
        )
    }

    /// The place of a hand on the wheel at rest.
    pub open spec fn spec_place_at_rest(self, local_pos: glam::Vec3A, local_rot: glam::Quat) -> (
        glam::Vec3A,
        glam::Quat,
    ) {
        (
            vec3a_sum(self.pos, quat_rotate(self.base_rot, local_pos)),
            quat_product(self.base_rot, local_rot),
        )
    }

    /// Places a hand that is given in the wheel's own frame: the position
    /// turned by the wheel's current rotation and moved to its centre, the
    /// rotation with the wheel's current rotation applied after it.
    pub fn place(&self, local_pos: glam::Vec3A, local_rot: glam::Quat) -> (r: (
        glam::Vec3A,
        glam::Quat,
    ))
        ensures
            r == self.spec_place(local_pos, local_rot),
    {
        (vec3a_add(self.pos, quat_mul_vec3a(self.rot, local_pos)), quat_mul(self.rot, local_rot))
    }

    /// Places a hand that is given in the frame of the wheel at rest.
    pub fn place_at_rest(&self, local_pos: glam::Vec3A, local_rot: glam::Quat) -> (r: (
        glam::Vec3A,
        glam::Quat,
    ))
        ensures
            r == self.spec_place_at_rest(local_pos, local_rot),
    {
        (
            vec3a_add(self.pos, quat_mul_vec3a(self.base_rot, local_pos)),
            quat_mul(self.base_rot, local_rot),
        )
    }
}

} // verus!
