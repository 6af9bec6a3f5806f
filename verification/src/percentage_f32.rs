//! Proportions between zero and one.
use std::ops::{Add, Sub};
use vstd::prelude::*;
use vstd::std_specs::convert::{FromSpecImpl, TryFromSpecImpl};
use vstd::std_specs::ops::{AddSpecImpl, SubSpecImpl};

verus! {

/// The count that stands for the proportion one: two to the power 24.
pub const UNIT: u32 = 16_777_216;

/// A proportion between zero and one, held as a whole count of steps of
/// `1 / UNIT`. That step is the spacing of single-precision numbers just
/// below one, so every value is exactly a single-precision number.
#[derive(Clone, Copy, Debug)]
pub struct PercentageF32(u32);

impl View for PercentageF32 {
    type V = int;

    /// The proportion as a count of steps: the proportion times `UNIT`.
    closed spec fn view(&self) -> int {
        self.0 as int
    }
}

impl PercentageF32 {
    /// Every proportion lies between zero and one.
    #[verifier::type_invariant]
    pub open spec fn wf(self) -> bool {
        0 <= self@ <= UNIT
    }

    /// Two proportions of the same number of steps are the same proportion.
    pub proof fn lemma_same_steps(self, other: Self)
        requires
            self@ == other@,
        ensures
            self == other,
    {
    }

    /// The proportion of `with` steps, if that is at most one.
    pub fn try_new(with: u32) -> (out: Option<Self>)
        ensures
            out is Some <==> with <= UNIT,
            out matches Some(part) ==> part@ == with,
    {
        if with <= UNIT {
            Some(Self(with))
        } else {
            None
        }
    }

    /// The proportion of `with` steps, for a count known to be at most one.
    pub fn new_or_panic(with: u32) -> (out: Self)
        requires
            with <= UNIT,
        ensures
            out@ == with,
    {
        Self(with)
    }

    /// The proportion as a count of steps.
    pub fn value(&self) -> (out: u32)
        ensures
            out == self@,
            out <= UNIT,
    {
        proof {
            use_type_invariant(self);
        }
        self.0
    }
}

impl AddSpecImpl for PercentageF32 {
    open spec fn obeys_add_spec() -> bool {
        true
    }

    open spec fn add_req(self, rhs: Self) -> bool {
        true
    }

    closed spec fn add_spec(self, rhs: Self) -> Option<Self> {
        if self.0 + rhs.0 <= UNIT {
            Some(PercentageF32((self.0 + rhs.0) as u32))
        } else {
            None
        }
    }
}

impl Add for PercentageF32 {
    type Output = Option<Self>;

    /// The sum of two proportions, unless it is more than one.
    fn add(self, rhs: Self) -> (out: Option<Self>)
        ensures
            out is Some <==> self@ + rhs@ <= UNIT,
            out matches Some(sum) ==> sum@ == self@ + rhs@,
    {
        proof {
            use_type_invariant(self);
            use_type_invariant(rhs);
        }
        Self::try_new(self.0 + rhs.0)
    }
}

impl SubSpecImpl for PercentageF32 {
    open spec fn obeys_sub_spec() -> bool {
        true
    }

    open spec fn sub_req(self, rhs: Self) -> bool {
        true
    }

    closed spec fn sub_spec(self, rhs: Self) -> Option<Self> {
        if self.0 >= rhs.0 {
            Some(PercentageF32((self.0 - rhs.0) as u32))
        } else {
            None
        }
    }
}

impl Sub for PercentageF32 {
    type Output = Option<Self>;

    /// The difference of two proportions, unless it is less than zero.
    fn sub(self, rhs: Self) -> (out: Option<Self>)
        ensures
            out is Some <==> self@ >= rhs@,
            out matches Some(rest) ==> rest@ == self@ - rhs@,
    {
        proof {
            use_type_invariant(self);
            use_type_invariant(rhs);
        }
        if self.0 >= rhs.0 {
            Self::try_new(self.0 - rhs.0)
        } else {
            None
        }
    }
}

impl TryFromSpecImpl<u32> for PercentageF32 {
    open spec fn obeys_try_from_spec() -> bool {
        true
    }

    closed spec fn try_from_spec(value: u32) -> Result<Self, u32> {
        if value <= UNIT {
            Ok(PercentageF32(value))
        } else {
            Err(value)
        }
    }
}

impl TryFrom<u32> for PercentageF32 {
    type Error = u32;

    /// The proportion of `value` steps, or `value` itself where that is
    /// more than one.
    fn try_from(value: u32) -> (out: Result<Self, u32>)
        ensures
            out is Ok <==> value <= UNIT,
            out matches Ok(part) ==> part@ == value,
            out matches Err(rejected) ==> rejected == value,
    {
        match Self::try_new(value) {
            Some(part) => Ok(part),
            None => Err(value),
        }
    }
}

impl FromSpecImpl<PercentageF32> for u32 {
    open spec fn obeys_from_spec() -> bool {
        true
    }

    open spec fn from_spec(value: PercentageF32) -> u32 {
        value@ as u32
    }
}

impl From<PercentageF32> for u32 {
    /// The proportion as a count of steps.
    fn from(value: PercentageF32) -> (out: u32)
        ensures
            out == value@,
    {
        value.value()
    }
}

} // verus!
