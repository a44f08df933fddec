//! The tone parameters, fixed at startup, and the frequencies that the
//! keyboard row selects.

use vstd::prelude::*;
use crate::generator::{buffer_length, generate_samples, is_tone_buffer, sample_count};
use crate::rational::{Ratio, Seconds};
use crate::waveform::{within_full_scale, SineTable, Waveform};

verus! {

/// The frequency of index 0, in hertz.
pub const BASE_FREQUENCY: u32 = 300;

/// The step from one frequency index to the next, in hertz.
pub const FREQUENCY_INCREMENT: u32 = 200;

/// The sample rate of the audio output, in hertz.
pub const DEFAULT_SAMPLE_RATE: u32 = 44100;

/// The frequency that an index selects: `300 + 200 * index` hertz.
pub open spec fn frequency_at(index: nat) -> nat {
    BASE_FREQUENCY as nat + FREQUENCY_INCREMENT as nat * index
}

/// The frequency that an index selects.
pub fn frequency_of(index: u8) -> (frequency: u32)
    ensures
        frequency == frequency_at(index as nat),
{
    BASE_FREQUENCY + FREQUENCY_INCREMENT * (index as u32)
}

/// Why a set of tone parameters is refused.
#[derive(Clone, Copy, Debug, PartialEq, Eq, Structural)]
pub enum ToneError {
    /// The sample rate is zero.
    ZeroSampleRate,
    /// The buffer duration is zero.
    ZeroDuration,
    /// The buffer would hold more samples than a buffer can.
    BufferTooLong,
    /// The waveform is the sine and the table does not hold one entry per
    /// sample of a second.
    SineResolution,
}

/// The first rule that the parameters break, if they break one.
pub open spec fn tone_fault(
    sample_rate: u32,
    duration: Ratio,
    waveform: Waveform,
    sine: Seq<i16>,
) -> Option<ToneError> {
    if sample_rate == 0 {
        Some(ToneError::ZeroSampleRate)
    } else if duration.num == 0 {
        Some(ToneError::ZeroDuration)
    } else if sample_count(sample_rate as nat, duration) > usize::MAX {
        Some(ToneError::BufferTooLong)
    } else if waveform == Waveform::Sine && sine.len() != sample_rate {
        Some(ToneError::SineResolution)
    } else {
        None
    }
}

/// What every buffer of a session is generated from. The parameters are set
/// once and never change.
#[derive(Debug)]
pub struct ToneParameters {
    sample_rate: u32,
    duration: Seconds,
    waveform: Waveform,
    sine: SineTable,
}

impl ToneParameters {
    pub closed spec fn sample_rate(&self) -> u32 {
        self.sample_rate
    }

    pub closed spec fn duration(&self) -> Ratio {
        self.duration@
    }

    pub closed spec fn waveform(&self) -> Waveform {
        self.waveform
    }

    pub closed spec fn sine(&self) -> Seq<i16> {
        self.sine@
    }

    /// The parameters break no rule: a positive sample rate and duration, a
    /// buffer that fits, a sine table within full scale and, for the sine,
    /// of one entry per sample of a second.
    pub open spec fn wf(&self) -> bool {
        &&& self.duration().wf()
        &&& within_full_scale(self.sine())
        &&& tone_fault(self.sample_rate(), self.duration(), self.waveform(), self.sine()) is None
    }

    /// Takes the parameters if they break no rule, and says which one
    /// otherwise.
    pub fn new(sample_rate: u32, duration: Seconds, waveform: Waveform, sine: SineTable) -> (r:
        Result<ToneParameters, ToneError>)
        requires
            duration.wf(),
            sine.wf(),
        ensures
            match r {
                Ok(tone) => {
                    &&& tone_fault(sample_rate, duration@, waveform, sine@) is None
                    &&& tone.wf()
                    &&& tone.sample_rate() == sample_rate
                    &&& tone.duration() == duration@
                    &&& tone.waveform() == waveform
                    &&& tone.sine() == sine@
                },
                Err(e) => tone_fault(sample_rate, duration@, waveform, sine@) == Some(e),
            },
    {
        if sample_rate == 0 {
            return Err(ToneError::ZeroSampleRate);
        }
        if duration.numerator() == 0 {
            return Err(ToneError::ZeroDuration);
        }
        if buffer_length(sample_rate, duration).is_none() {
            return Err(ToneError::BufferTooLong);
        }
        match waveform {
            Waveform::Sine => {
                if sine.len() != sample_rate as usize {
                    return Err(ToneError::SineResolution);
                }
            },
            _ => {},
        }
        Ok(ToneParameters { sample_rate, duration, waveform, sine })
    }

    pub fn get_sample_rate(&self) -> (sample_rate: u32)
        ensures
            sample_rate == self.sample_rate(),
    {
        self.sample_rate
    }

    pub fn get_duration(&self) -> (duration: Seconds)
        ensures
            duration@ == self.duration(),
    {
        self.duration
    }

    pub fn get_waveform(&self) -> (waveform: Waveform)
        ensures
            waveform == self.waveform(),
    {
        self.waveform
    }

    /// Generates the buffer of the tone at `frequency` hertz.
    pub fn buffer(&self, frequency: u32) -> (samples: Vec<i16>)
        requires
            self.wf(),
        ensures
            self.is_buffer(samples@, frequency as nat),
            within_full_scale(samples@),
    {
        generate_samples(frequency, &self.waveform, self.sample_rate, self.duration, &self.sine)
    }

    /// `samples` is the buffer of these parameters at `frequency` hertz.
    pub open spec fn is_buffer(&self, samples: Seq<i16>, frequency: nat) -> bool {
        is_tone_buffer(
            samples,
            frequency,
            self.waveform(),
            self.sample_rate() as nat,
            self.duration(),
            self.sine(),
        )
    }
}

} // verus!
