//! Controller axes as a configuration names them.

use vstd::prelude::*;

use crate::bone::str_eq;

verus! {

/// An axis of a controller, numbered from one.
#[derive(Clone, Copy, Debug, PartialEq, Eq, Structural, PartialOrd, Ord, Hash)]
pub struct Axis(u8);

impl Axis {
    #[verifier::type_invariant]
    spec fn numbered_from_one(self) -> bool {
        self.0 >= 1
    }

    /// The number of the axis, from 1 to 255.
    pub closed spec fn spec_number(self) -> u8 {
        self.0
    }

    pub fn number(&self) -> (r: u8)
        ensures
            r == self.spec_number(),
            r >= 1,
    {
        proof {
            use_type_invariant(self);
        }
        self.0
    }

    /// The axis that a device reports under the index `index`, which counts
    /// from zero; there is none for index 255.
    pub fn try_from(index: u8) -> (r: Result<Axis, ()>)
        ensures
            r.is_ok() <==> index < 255,
            r.is_ok() ==> r.unwrap().spec_number() == index + 1,
    {
        if index < 255 {
            Ok(Axis(index + 1))
        } else {
            Err(())
        }
    }
}

/// The position of an axis as a device reports it, from -32768 to 32767,
/// counted from the low end instead: from 0 to 65535.
pub fn axis_steps(raw: i16) -> (r: u16)
    ensures
        r == raw + 32768,
{
    if raw < 0 {
        (raw + 32767 + 1) as u16
    } else {
        (raw as u16) + 32768
    }
}

/// The number of a button, counted from one, that a device reports under
/// the index `index`, which counts from zero.
pub fn button_number(index: u8) -> (r: u32)
    ensures
        r == index + 1,
{
    (index as u32) + 1
}

/// Reads an axis out of a configuration value.
pub struct AxisVisitor;

impl AxisVisitor {
    /// The axis with the number `v`, where `v` is from 1 to 255.
    pub fn visit_int(&self, v: i128) -> (r: Option<Axis>)
        ensures
            r.is_some() <==> 1 <= v <= 255,
            r.is_some() ==> r.unwrap().spec_number() == v,
    {
        if 1 <= v && v <= 255 {
            Some(Axis(v as u8))
        } else {
            None
        }
    }

    /// The axis with the number `v`, where `v` is from 1 to 255.
    pub fn visit_i64(&self, v: i64) -> (r: Option<Axis>)
        ensures
            r.is_some() <==> 1 <= v <= 255,
            r.is_some() ==> r.unwrap().spec_number() == v,
    {
        if 1 <= v && v <= 255 {
            Some(Axis(v as u8))
        } else {
            None
        }
    }

    /// The axis with the number `v`, where `v` is from 1 to 255.
    pub fn visit_u64(&self, v: u64) -> (r: Option<Axis>)
        ensures
            r.is_some() <==> 1 <= v <= 255,
            r.is_some() ==> r.unwrap().spec_number() == v,
    {
        if 1 <= v && v <= 255 {
            Some(Axis(v as u8))
        } else {
            None
        }
    }

    /// The number that an axis name of older configurations stands for.
    pub open spec fn spec_named(name: Seq<char>) -> Option<u8> {
        if name == "x"@ {
            Some(1u8)
        } else if name == "y"@ {
            Some(2u8)
        } else if name == "z"@ {
            Some(3u8)
        } else if name == "rx"@ {
            Some(4u8)
        } else if name == "ry"@ {
            Some(5u8)
        } else if name == "rz"@ {
            Some(6u8)
        } else if name == "slider"@ {
            Some(7u8)
        } else if name == "dial"@ {
            Some(8u8)
        } else {
            None
        }
    }

    /// The axis that a name of older configurations stands for: `x`, `y`,
    /// `z`, `rx`, `ry`, `rz`, `slider` and `dial` are the axes 1 to 8.
    pub fn visit_str(&self, v: &str) -> (r: Option<Axis>)
        ensures
            r.is_some() <==> Self::spec_named(v@).is_some(),
            r.is_some() ==> Some(r.unwrap().spec_number()) == Self::spec_named(v@),
    {
        if str_eq(v, "x") {
            Some(Axis(1))
        } else if str_eq(v, "y") {
            Some(Axis(2))
        } else if str_eq(v, "z") {
            Some(Axis(3))
        } else if str_eq(v, "rx") {
            Some(Axis(4))
        } else if str_eq(v, "ry") {
            Some(Axis(5))
        } else if str_eq(v, "rz") {
            Some(Axis(6))
        } else if str_eq(v, "slider") {
            Some(Axis(7))
        } else if str_eq(v, "dial") {
            Some(Axis(8))
        } else {
            None
        }
    }
}

} // verus!
