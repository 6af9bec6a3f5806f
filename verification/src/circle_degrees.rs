//! Angles on the colour wheel.
use std::ops::{Add, AddAssign, Sub, SubAssign};
use vstd::prelude::*;
use vstd::std_specs::convert::FromSpecImpl;
use vstd::std_specs::ops::{AddSpecImpl, SubSpecImpl};

verus! {

/// A position on a circle in whole degrees, from 0 to 359.
#[derive(Clone, Copy, Debug)]
pub struct CircleDegrees(i16);

impl View for CircleDegrees {
    type V = int;

    /// The angle in degrees.
    closed spec fn view(&self) -> int {
        self.0 as int
    }
}

impl CircleDegrees {
    /// Every angle lies in `[0, 360)`.
    #[verifier::type_invariant]
    pub open spec fn wf(self) -> bool {
        0 <= self@ < 360
    }

    /// Two angles of the same number of degrees are the same angle.
    pub proof fn lemma_same_degrees(self, other: Self)
        requires
            self@ == other@,
        ensures
            self == other,
    {
    }

    /// The angle of exactly `with` degrees, if that lies on the circle.
    pub fn new_exact(with: i16) -> (out: Option<Self>)
        ensures
            out is Some <==> 0 <= with <= 359,
            out matches Some(angle) ==> angle@ == with,
    {
        if 0 <= with && with <= 359 {
            Some(Self(with))
        } else {
            None
        }
    }

    /// The angle reached after turning by `with` degrees from zero. The
    /// remainder is floored, so a negative turn lands in `[0, 360)` too.
    pub fn new_wrapped(with: i16) -> (out: Self)
        ensures
            out@ == with as int % 360,
    {
        let rest: i16 = with % 360;
        if rest < 0 {
            Self(rest + 360)
        } else {
            Self(rest)
        }
    }

    /// The angle in degrees.
    pub fn value(&self) -> (out: i16)
        ensures
            out == self@,
            0 <= out <= 359,
    {
        proof {
            use_type_invariant(self);
        }
        self.0
    }
}

impl AddSpecImpl for CircleDegrees {
    open spec fn obeys_add_spec() -> bool {
        true
    }

    open spec fn add_req(self, rhs: Self) -> bool {
        true
    }

    closed spec fn add_spec(self, rhs: Self) -> Self {
        CircleDegrees(((self.0 + rhs.0) % 360) as i16)
    }
}

impl Add for CircleDegrees {
    type Output = Self;

    /// Turns `self` forward by `rhs`, wrapping past 359.
    fn add(self, rhs: Self) -> (out: Self)
        ensures
            out@ == (self@ + rhs@) % 360,
    {
        proof {
            use_type_invariant(self);
            use_type_invariant(rhs);
        }
        Self::new_wrapped(self.0 + rhs.0)
    }
}

impl SubSpecImpl for CircleDegrees {
    open spec fn obeys_sub_spec() -> bool {
        true
    }

    open spec fn sub_req(self, rhs: Self) -> bool {
        true
    }

    closed spec fn sub_spec(self, rhs: Self) -> Self {
        CircleDegrees(((self.0 - rhs.0) % 360) as i16)
    }
}

impl Sub for CircleDegrees {
    type Output = Self;

    /// Turns `self` back by `rhs`, wrapping below 0.
    fn sub(self, rhs: Self) -> (out: Self)
        ensures
            out@ == (self@ - rhs@) % 360,
    {
        proof {
            use_type_invariant(self);
            use_type_invariant(rhs);
        }
        Self::new_wrapped(self.0 - rhs.0)
    }
}

impl AddAssign for CircleDegrees {
    /// Turns `self` forward by `rhs` in place.
    fn add_assign(&mut self, rhs: Self)
        ensures
            final(self)@ == (old(self)@ + rhs@) % 360,
    {
        *self = *self + rhs;
    }
}

impl SubAssign for CircleDegrees {
    /// Turns `self` back by `rhs` in place.
    fn sub_assign(&mut self, rhs: Self)
        ensures
            final(self)@ == (old(self)@ - rhs@) % 360,
    {
        *self = *self - rhs;
    }
}

impl FromSpecImpl<CircleDegrees> for i16 {
    open spec fn obeys_from_spec() -> bool {
        true
    }

    open spec fn from_spec(value: CircleDegrees) -> i16 {
        value@ as i16
    }
}

impl From<CircleDegrees> for i16 {
    /// The angle in degrees.
    fn from(value: CircleDegrees) -> (out: i16)
        ensures
            out == value@,
    {
        value.value()
    }
}

} // verus!
