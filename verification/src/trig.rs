//! Sine and cosine as the simulation receives them.
//!
//! The library computes no trigonometry itself. Wherever it needs the sine and
//! cosine of an angle it asks its caller, through a function from an angle (in
//! millionths of a radian) to a [`Trig`], and works with whatever comes back.

use vstd::prelude::*;
use crate::fixed::UNIT;

verus! {

/// The sine and the cosine of one angle, in fixed point, each within `[-1, 1]`.
#[derive(Clone, Copy, Debug)]
pub struct Trig {
    sin: i64,
    cos: i64,
}

impl Trig {
    /// Both values lie within `[-1, 1]`.
    #[verifier::type_invariant]
    pub open spec fn wf(self) -> bool {
        &&& -UNIT <= self.sine() <= UNIT
        &&& -UNIT <= self.cosine() <= UNIT
    }

    /// The sine, as a number of millionths.
    pub closed spec fn sine(self) -> int {
        self.sin as int
    }

    /// The cosine, as a number of millionths.
    pub closed spec fn cosine(self) -> int {
        self.cos as int
    }

    /// Pairs a sine with a cosine, if both lie within `[-1, 1]`.
    pub fn new(sin: i64, cos: i64) -> (made: Option<Trig>)
        ensures
            made is Some <==> -UNIT <= sin <= UNIT && -UNIT <= cos <= UNIT,
            made matches Some(t) ==> t.sine() == sin && t.cosine() == cos,
    {
        if -UNIT <= sin && sin <= UNIT && -UNIT <= cos && cos <= UNIT {
            Some(Trig { sin, cos })
        } else {
            None
        }
    }

    /// The sine, as a number of millionths.
    pub fn sin(&self) -> (value: i64)
        ensures
            value == self.sine(),
            -UNIT <= value <= UNIT,
    {
        proof {
            use_type_invariant(self);
        }
        self.sin
    }

    /// The cosine, as a number of millionths.
    pub fn cos(&self) -> (value: i64)
        ensures
            value == self.cosine(),
            -UNIT <= value <= UNIT,
    {
        proof {
            use_type_invariant(self);
        }
        self.cos
    }
}

/// `trig` gives one answer to each angle: whatever it may return for an angle, it
/// returns nothing else for that angle.
pub open spec fn single_valued<F: Fn(i64) -> Trig>(trig: F) -> bool {
    forall|angle: i64, first: Trig, second: Trig|
        #![trigger trig.ensures((angle,), first), trig.ensures((angle,), second)]
        trig.ensures((angle,), first) && trig.ensures((angle,), second) ==> first == second
}

} // verus!
