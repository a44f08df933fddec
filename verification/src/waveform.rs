//! The four waveforms and the normalised sample of each at an exact time.
//!
//! A tone of `f` cycles per second has run through `f * t` cycles at time
//! `t`. Only the fractional part of that product matters, and for a rational
//! `t = n / d` and a whole `f` it is the rational `((f * n) mod d) / d`. The
//! square, triangle and sawtooth waves are rational functions of it and are
//! computed here without rounding. The sine is not: its values are read from
//! a table of one period that the caller supplies.

use vstd::prelude::*;
use crate::rational::{Ratio, Seconds};

verus! {

/// The largest magnitude of a 16-bit sample: normalised 1.0 after scaling.
pub const FULL_SCALE: i16 = 32767;

/// The shape of one period of the tone.
#[derive(Clone, Copy, Debug, PartialEq, Eq, Structural)]
pub enum Waveform {
    Sine,
    Square,
    Triangle,
    Sawtooth,
}

/// How far into its current cycle a tone of `rate` cycles per second is at
/// time `t`: the numerator, over the denominator of `t`, of the fractional
/// part of `rate * t`.
pub open spec fn cycle_position(rate: nat, t: Ratio) -> int {
    (rate * t.num) % t.den
}

/// A line that rises from -1 at the start of a period to 1 at its end:
/// `2 * (position / period) - 1`.
pub open spec fn ramp(position: int, period: int) -> Ratio {
    Ratio { num: 2 * position - period, den: period }
}

/// The sign of the sine over one period: 1 on the first half, both ends
/// included (the sine is zero there), and -1 on the second.
pub open spec fn sign_of_sine(position: int, period: int) -> Ratio {
    Ratio { num: if 2 * position <= period { 1int } else { -1int }, den: 1 }
}

/// The normalised sample of `waveform` at `frequency` hertz and time `t`.
///
/// * sine: the entry of `sine` at the cycle position, in units of
///   1 / 32767; `sine` holds one period, one entry per unit of the
///   denominator of `t`
/// * square: 1 where the sine is not negative, else -1
/// * triangle: `2 * frac(2 * frequency * t) - 1`
/// * sawtooth: `2 * frac(frequency * t) - 1`
pub open spec fn unit_sample(t: Ratio, frequency: nat, waveform: Waveform, sine: Seq<i16>) -> Ratio {
    match waveform {
        Waveform::Sine => Ratio {
            num: sine[cycle_position(frequency, t)] as int,
            den: FULL_SCALE as int,
        },
        Waveform::Square => sign_of_sine(cycle_position(frequency, t), t.den),
        Waveform::Triangle => ramp(cycle_position(2 * frequency, t), t.den),
        Waveform::Sawtooth => ramp(cycle_position(frequency, t), t.den),
    }
}

/// One period of a sine wave, already scaled to 16 bits: entry `j` of a table
/// of `n` entries stands for `sin(2 * pi * j / n)` in units of 1 / 32767.
///
/// The table is the caller's to compute. What is checked here is that no
/// entry is -32768, the one 16-bit value outside the normalised range.
#[derive(Debug)]
pub struct SineTable {
    entries: Vec<i16>,
}

impl View for SineTable {
    type V = Seq<i16>;

    closed spec fn view(&self) -> Seq<i16> {
        self.entries@
    }
}

/// Every entry lies between -32767 and 32767.
pub open spec fn within_full_scale(entries: Seq<i16>) -> bool {
    forall|j: int| 0 <= j < entries.len() ==> -FULL_SCALE <= #[trigger] entries[j] <= FULL_SCALE
}

impl SineTable {
    pub open spec fn wf(&self) -> bool {
        within_full_scale(self@)
    }

    /// Takes `entries` as a table if every entry is within full scale.
    pub fn new(entries: Vec<i16>) -> (r: Option<SineTable>)
        ensures
            r is Some <==> within_full_scale(entries@),
            r matches Some(table) ==> table.wf() && table@ == entries@,
    {
        let mut j: usize = 0;
        while j < entries.len()
            invariant
                j <= entries.len(),
                within_full_scale(entries@.take(j as int)),
            decreases entries.len() - j,
        {
            if entries[j] < -FULL_SCALE {
                return None;
            }
            assert forall|i: int| 0 <= i < j + 1 implies -FULL_SCALE
                <= #[trigger] entries@.take(j + 1)[i] <= FULL_SCALE by {
                if i < j {
                    assert(entries@.take(j + 1)[i] == entries@.take(j as int)[i]);
                }
            }
            j += 1;
        }
        assert(entries@.take(j as int) == entries@);
        Some(SineTable { entries })
    }

    /// The number of entries: the resolution of the period.
    pub fn len(&self) -> (n: usize)
        ensures
            n == self@.len(),
    {
        self.entries.len()
    }

    /// The entry at `position`.
    pub fn get(&self, position: usize) -> (v: i16)
        requires
            position < self@.len(),
        ensures
            v == self@[position as int],
    {
        self.entries[position]
    }
}

/// A normalised sample: an exact rational between -1 and 1.
#[derive(Clone, Copy, Debug)]
pub struct Level {
    num: i64,
    den: u32,
}

impl View for Level {
    type V = Ratio;

    closed spec fn view(&self) -> Ratio {
        Ratio { num: self.num as int, den: self.den as int }
    }
}

impl Level {
    /// The level has a denominator and lies between -1 and 1.
    pub open spec fn wf(&self) -> bool {
        self@.in_unit_range()
    }

    /// `num / den`, or nothing where `den` is zero or the quotient lies
    /// outside the range from -1 to 1.
    pub fn new(num: i64, den: u32) -> (r: Option<Level>)
        ensures
            r is Some <==> (Ratio { num: num as int, den: den as int }).in_unit_range(),
            r matches Some(level) ==> level.wf() && level@ == (Ratio {
                num: num as int,
                den: den as int,
            }),
    {
        let bound: i64 = den as i64;
        if den > 0 && -bound <= num && num <= bound {
            Some(Level { num, den })
        } else {
            None
        }
    }

    pub fn numerator(&self) -> (n: i64)
        ensures
            n == self@.num,
    {
        self.num
    }

    pub fn denominator(&self) -> (d: u32)
        ensures
            d == self@.den,
    {
        self.den
    }
}

/// Computes the cycle position of a tone of `rate` cycles per second at `t`.
fn position_in_cycle(rate: u64, t: Seconds) -> (p: u32)
    requires
        t.wf(),
    ensures
        p == cycle_position(rate as nat, t@),
        p < t@.den,
{
    let n: u64 = t.numerator();
    let d: u32 = t.denominator();
    assert(rate * n <= u64::MAX * u64::MAX) by (nonlinear_arith)
        requires
            rate <= u64::MAX,
            n <= u64::MAX,
    ;
    let cycles: u128 = (rate as u128) * (n as u128);
    (cycles % (d as u128)) as u32
}

/// The level of a rising ramp at `position` of `period`.
fn ramp_level(position: u32, period: u32) -> (level: Level)
    requires
        position < period,
    ensures
        level.wf(),
        level@ == ramp(position as int, period as int),
{
    Level { num: 2 * (position as i64) - (period as i64), den: period }
}

/// The normalised sample of `waveform` at `frequency` hertz and time `t`.
///
/// For the sine, `sine` holds one period with one entry per unit of the
/// denominator of `t`; the other waveforms do not read it.
pub fn generate_sample(t: Seconds, frequency: u32, waveform: &Waveform, sine: &SineTable) -> (level:
    Level)
    requires
        t.wf(),
        sine.wf(),
        *waveform == Waveform::Sine ==> sine@.len() == t@.den,
    ensures
        level.wf(),
        level@ == unit_sample(t@, frequency as nat, *waveform, sine@),
{
    match waveform {
        Waveform::Sine => {
            let position: u32 = position_in_cycle(frequency as u64, t);
            let entry: i16 = sine.get(position as usize);
            Level { num: entry as i64, den: FULL_SCALE as u32 }
        },
        Waveform::Square => {
            let position: u32 = position_in_cycle(frequency as u64, t);
            if 2 * (position as u64) <= t.denominator() as u64 {
                Level { num: 1, den: 1 }
            } else {
                Level { num: -1, den: 1 }
            }
        },
        Waveform::Triangle => {
            let position: u32 = position_in_cycle(2 * (frequency as u64), t);
            ramp_level(position, t.denominator())
        },
        Waveform::Sawtooth => {
            let position: u32 = position_in_cycle(frequency as u64, t);
            ramp_level(position, t.denominator())
        },
    }
}

} // verus!
