//! Exact rational numbers: the model of every real quantity in the crate,
//! and the executable type for times and durations.

use vstd::prelude::*;

verus! {

/// A rational number `num / den` as a mathematical value.
pub struct Ratio {
    pub num: int,
    pub den: int,
}

impl Ratio {
    /// The denominator is positive, so the quotient is defined.
    pub open spec fn wf(self) -> bool {
        self.den > 0
    }

    /// The rational lies in the closed interval from -1 to 1.
    pub open spec fn in_unit_range(self) -> bool {
        self.wf() && -self.den <= self.num <= self.den
    }

    /// The largest integer that is not above the rational.
    pub open spec fn floor(self) -> int {
        self.num / self.den
    }

    /// The rational with its fractional part dropped: rounding toward zero.
    pub open spec fn truncate(self) -> int {
        if self.num >= 0 {
            self.num / self.den
        } else {
            -((-self.num) / self.den)
        }
    }

    /// The rational multiplied by an integer.
    pub open spec fn scale(self, by: int) -> Ratio {
        Ratio { num: self.num * by, den: self.den }
    }
}

/// A non-negative span of time in seconds, held exactly as `num / den`.
///
/// It serves both as a point in time (sample `k` of a stream at rate `sr`
/// sounds at `k / sr`) and as a duration.
#[derive(Clone, Copy, Debug)]
pub struct Seconds {
    num: u64,
    den: u32,
}

impl View for Seconds {
    type V = Ratio;

    closed spec fn view(&self) -> Ratio {
        Ratio { num: self.num as int, den: self.den as int }
    }
}

impl Seconds {
    /// The denominator is not zero.
    pub open spec fn wf(&self) -> bool {
        self@.wf()
    }

    /// `num / den` seconds, or nothing where `den` is zero.
    pub fn new(num: u64, den: u32) -> (r: Option<Seconds>)
        ensures
            den == 0 <==> r is None,
            r matches Some(s) ==> s.wf() && s@ == (Ratio { num: num as int, den: den as int }),
    {
        if den == 0 {
            None
        } else {
            Some(Seconds { num, den })
        }
    }

    /// A whole number of seconds.
    pub fn whole(seconds: u64) -> (s: Seconds)
        ensures
            s.wf(),
            s@ == (Ratio { num: seconds as int, den: 1 }),
    {
        Seconds { num: seconds, den: 1 }
    }

    /// A whole number of milliseconds.
    pub fn from_millis(millis: u64) -> (s: Seconds)
        ensures
            s.wf(),
            s@ == (Ratio { num: millis as int, den: 1000 }),
    {
        Seconds { num: millis, den: 1000 }
    }

    /// The time at which sample `index` of a stream at `sample_rate` sounds.
    pub fn of_sample(index: u64, sample_rate: u32) -> (s: Seconds)
        requires
            sample_rate > 0,
        ensures
            s.wf(),
            s@ == (Ratio { num: index as int, den: sample_rate as int }),
    {
        Seconds { num: index, den: sample_rate }
    }

    pub fn numerator(&self) -> (n: u64)
        ensures
            n == self@.num,
    {
        self.num
    }

    pub fn denominator(&self) -> (d: u32)
        ensures
            d == self@.den,
    {
        self.den
    }
}

} // verus!
