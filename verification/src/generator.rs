//! The bulk generator: a fixed-duration buffer of 16-bit mono PCM samples.

use vstd::prelude::*;
use vstd::arithmetic::div_mod::lemma_mod_multiples_vanish;
use crate::rational::{Ratio, Seconds};
use crate::waveform::{
    cycle_position, generate_sample, unit_sample, within_full_scale, Level, SineTable, Waveform,
    FULL_SCALE,
};

verus! {

/// The 16-bit sample for a normalised level: the level times 32767, rounded
/// toward zero.
pub open spec fn quantized(level: Ratio) -> int {
    level.scale(FULL_SCALE as int).truncate()
}

/// The number of samples in a buffer of `duration` at `sample_rate`:
/// `floor(sample_rate * duration)`.
pub open spec fn sample_count(sample_rate: nat, duration: Ratio) -> int {
    duration.scale(sample_rate as int).floor()
}

/// Sample `k` of a tone: the quantised level at time `k / sample_rate`.
pub open spec fn sample_at(
    k: int,
    frequency: nat,
    waveform: Waveform,
    sample_rate: nat,
    sine: Seq<i16>,
) -> int {
    quantized(unit_sample(Ratio { num: k, den: sample_rate as int }, frequency, waveform, sine))
}

/// `samples` is the buffer of the tone: it has
/// `floor(sample_rate * duration)` samples, and sample `k` is the level at
/// time `k / sample_rate`, scaled to 16 bits and rounded toward zero.
pub open spec fn is_tone_buffer(
    samples: Seq<i16>,
    frequency: nat,
    waveform: Waveform,
    sample_rate: nat,
    duration: Ratio,
    sine: Seq<i16>,
) -> bool {
    &&& samples.len() == sample_count(sample_rate, duration)
    &&& forall|k: int|
        0 <= k < samples.len() ==> #[trigger] samples[k] == sample_at(
            k,
            frequency,
            waveform,
            sample_rate,
            sine,
        )
}

/// Scaling a level between -1 and 1 to 16 bits stays between -32767 and
/// 32767.
pub proof fn lemma_quantized_within_full_scale(level: Ratio)
    requires
        level.in_unit_range(),
    ensures
        -FULL_SCALE <= quantized(level) <= FULL_SCALE,
{
    let d = level.den;
    if level.num >= 0 {
        let n = level.num;
        assert(0 <= (n * 32767) / d <= 32767) by (nonlinear_arith)
            requires
                0 <= n <= d,
                d > 0,
        ;
    } else {
        let n = -level.num;
        assert(-(level.num * 32767) == n * 32767) by (nonlinear_arith)
            requires
                n == -level.num,
        ;
        assert(0 <= (n * 32767) / d <= 32767) by (nonlinear_arith)
            requires
                0 <= n <= d,
                d > 0,
        ;
    }
}

/// Scales a normalised level to a 16-bit sample, rounding toward zero.
pub fn quantize(level: Level) -> (sample: i16)
    requires
        level.wf(),
    ensures
        sample == quantized(level@),
        -FULL_SCALE <= sample <= FULL_SCALE,
{
    proof {
        lemma_quantized_within_full_scale(level@);
    }
    let n: i64 = level.numerator();
    let d: i64 = level.denominator() as i64;
    let scaled: i64 = n * (FULL_SCALE as i64);
    (scaled / d) as i16
}

/// Computes `floor(sample_rate * duration)` in full width.
fn exact_sample_count(sample_rate: u32, duration: Seconds) -> (count: u128)
    requires
        duration.wf(),
    ensures
        count == sample_count(sample_rate as nat, duration@),
{
    let seconds: u64 = duration.numerator();
    let parts: u32 = duration.denominator();
    assert(seconds * sample_rate <= u64::MAX * u32::MAX) by (nonlinear_arith)
        requires
            seconds <= u64::MAX,
            sample_rate <= u32::MAX,
    ;
    ((seconds as u128) * (sample_rate as u128)) / (parts as u128)
}

/// The number of samples in a buffer of `duration` at `sample_rate`, or
/// nothing where that number does not fit a length.
pub fn buffer_length(sample_rate: u32, duration: Seconds) -> (n: Option<usize>)
    requires
        duration.wf(),
    ensures
        n is Some <==> sample_count(sample_rate as nat, duration@) <= usize::MAX,
        n matches Some(count) ==> count == sample_count(sample_rate as nat, duration@),
{
    let count: u128 = exact_sample_count(sample_rate, duration);
    if count <= usize::MAX as u128 {
        Some(count as usize)
    } else {
        None
    }
}

/// Generates `floor(sample_rate * duration)` samples of `waveform` at
/// `frequency` hertz: sample `k` is the level at time `k / sample_rate`,
/// scaled to 16 bits and rounded toward zero.
///
/// The buffer is a function of the arguments alone: the same arguments give
/// the same samples, whenever and wherever they are generated. For the sine,
/// `sine` holds one period in `sample_rate` entries.
pub fn generate_samples(
    frequency: u32,
    waveform: &Waveform,
    sample_rate: u32,
    duration: Seconds,
    sine: &SineTable,
) -> (samples: Vec<i16>)
    requires
        sample_rate > 0,
        duration.wf(),
        sine.wf(),
        *waveform == Waveform::Sine ==> sine@.len() == sample_rate,
        sample_count(sample_rate as nat, duration@) <= usize::MAX,
    ensures
        is_tone_buffer(
            samples@,
            frequency as nat,
            *waveform,
            sample_rate as nat,
            duration@,
            sine@,
        ),
        samples@.len() == sample_count(sample_rate as nat, duration@),
        within_full_scale(samples@),
{
    let count: usize = exact_sample_count(sample_rate, duration) as usize;
    let mut samples: Vec<i16> = Vec::with_capacity(count);
    let mut k: usize = 0;
    while k < count
        invariant
            k <= count,
            sample_rate > 0,
            sine.wf(),
            *waveform == Waveform::Sine ==> sine@.len() == sample_rate,
            samples@.len() == k,
            forall|i: int|
                0 <= i < k ==> #[trigger] samples@[i] == sample_at(
                    i,
                    frequency as nat,
                    *waveform,
                    sample_rate as nat,
                    sine@,
                ),
            forall|i: int| 0 <= i < k ==> -FULL_SCALE <= #[trigger] samples@[i] <= FULL_SCALE,
        decreases count - k,
    {
        let t: Seconds = Seconds::of_sample(k as u64, sample_rate);
        let level: Level = generate_sample(t, frequency, waveform, sine);
        samples.push(quantize(level));
        k += 1;
    }
    samples
}

/// The buffer of a tone is determined by the arguments: two buffers
/// generated from the same frequency, waveform, sample rate, duration and
/// sine table are the same, sample for sample.
pub proof fn lemma_buffer_is_determined(
    first: Seq<i16>,
    second: Seq<i16>,
    frequency: nat,
    waveform: Waveform,
    sample_rate: nat,
    duration: Ratio,
    sine: Seq<i16>,
)
    requires
        is_tone_buffer(first, frequency, waveform, sample_rate, duration, sine),
        is_tone_buffer(second, frequency, waveform, sample_rate, duration, sine),
    ensures
        first == second,
{
    assert(first =~= second);
}

/// A square wave takes no value but the two extremes: every sample is 32767
/// or -32767.
pub proof fn lemma_square_is_full_scale(k: int, frequency: nat, sample_rate: nat, sine: Seq<i16>)
    ensures
        sample_at(k, frequency, Waveform::Square, sample_rate, sine) == FULL_SCALE || sample_at(
            k,
            frequency,
            Waveform::Square,
            sample_rate,
            sine,
        ) == -FULL_SCALE,
{
}

/// A tone of a whole number of hertz repeats every second: the sample one
/// second on, `sample_rate` samples later, is the same sample.
pub proof fn lemma_repeats_each_second(
    k: int,
    frequency: nat,
    waveform: Waveform,
    sample_rate: nat,
    sine: Seq<i16>,
)
    requires
        sample_rate > 0,
    ensures
        sample_at(k + sample_rate, frequency, waveform, sample_rate, sine) == sample_at(
            k,
            frequency,
            waveform,
            sample_rate,
            sine,
        ),
{
    let now = Ratio { num: k, den: sample_rate as int };
    let later = Ratio { num: k + sample_rate, den: sample_rate as int };
    lemma_cycle_position_repeats(frequency, k, sample_rate);
    lemma_cycle_position_repeats(2 * frequency, k, sample_rate);
    assert(cycle_position(frequency, later) == cycle_position(frequency, now));
    assert(cycle_position(2 * frequency, later) == cycle_position(2 * frequency, now));
}

/// After a whole second a tone of a whole number of hertz is where it was in
/// its cycle.
proof fn lemma_cycle_position_repeats(rate: nat, k: int, sample_rate: nat)
    requires
        sample_rate > 0,
    ensures
        (rate * (k + sample_rate)) % (sample_rate as int) == (rate * k) % (sample_rate as int),
{
    assert(rate * (k + sample_rate) == sample_rate * rate + rate * k) by (nonlinear_arith);
    lemma_mod_multiples_vanish(rate as int, rate * k, sample_rate as int);
}

/// A buffer of a whole number of seconds holds that many times `sample_rate`
/// samples.
pub proof fn lemma_whole_seconds_count(sample_rate: nat, seconds: nat)
    ensures
        sample_count(sample_rate, Ratio { num: seconds as int, den: 1 }) == seconds * sample_rate,
{
}

} // verus!
