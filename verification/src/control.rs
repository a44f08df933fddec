//! The control loop: what the main task does with each poll of the event
//! channel.
//!
//! The loop itself, with its channel and its sleep, runs outside this crate.
//! Each turn it polls the channel once and hands what it got to `step`,
//! which decides and, where a tone was selected, generates the new buffer
//! and the sink commands that put it in place.

use vstd::prelude::*;
use crate::keys::{ControlEvent, QUIT_CODE};
use crate::sink::{play_loop_commands, replace_commands, SinkCommand, SinkDriver, SinkState};
use crate::tone::{frequency_at, frequency_of, ToneParameters, BASE_FREQUENCY};
use crate::waveform::within_full_scale;

verus! {

/// How long the loop sleeps when the channel is empty, in milliseconds.
pub const POLL_INTERVAL_MS: u64 = 100;

/// What one turn of the loop comes to.
pub enum Decision {
    /// Play the tone of this frequency in place of the current one.
    Retune { frequency: nat },
    /// Nothing arrived: sleep, then poll again.
    Sleep { millis: nat },
    /// Leave the loop.
    Exit,
}

/// The decision of one turn. A loop that has been told to quit only exits.
/// Otherwise: with no event it sleeps one poll interval; the quit event
/// makes it exit; a frequency index retunes to `300 + 200 * index` hertz.
pub open spec fn decide(running: bool, polled: Option<u8>) -> Decision {
    if !running {
        Decision::Exit
    } else {
        match polled {
            None => Decision::Sleep { millis: POLL_INTERVAL_MS as nat },
            Some(code) => if code == QUIT_CODE {
                Decision::Exit
            } else {
                Decision::Retune { frequency: frequency_at(code as nat) }
            },
        }
    }
}

/// The code of the event that a poll delivered, if it delivered one.
pub open spec fn polled_code(polled: Option<ControlEvent>) -> Option<u8> {
    match polled {
        Some(event) => Some(event@),
        None => None,
    }
}

/// A new tone for the sink: its frequency, its buffer, and the commands that
/// put the buffer on the sink, in order.
#[derive(Debug)]
pub struct Retune {
    pub frequency: u32,
    pub samples: Vec<i16>,
    pub commands: Vec<SinkCommand>,
}

/// What the caller of `step` does next.
#[derive(Debug)]
pub enum LoopAction {
    /// Perform the commands on the sink with the new buffer, and report the
    /// frequency.
    Retune(Retune),
    /// Sleep for this many milliseconds, then poll again.
    Sleep { millis: u64 },
    /// Leave the loop.
    Exit,
}

impl LoopAction {
    /// The decision that the action carries out.
    pub open spec fn decision(self) -> Decision {
        match self {
            LoopAction::Retune(retune) => Decision::Retune { frequency: retune.frequency as nat },
            LoopAction::Sleep { millis } => Decision::Sleep { millis: millis as nat },
            LoopAction::Exit => Decision::Exit,
        }
    }
}

/// The state of the main task: the tone parameters, the frequency that is
/// playing, the sink driver, and whether the loop still runs.
#[derive(Debug)]
pub struct ControlLoop {
    tone: ToneParameters,
    frequency: u32,
    sink: SinkDriver,
    running: bool,
}

impl ControlLoop {
    pub closed spec fn tone(&self) -> ToneParameters {
        self.tone
    }

    pub closed spec fn frequency(&self) -> u32 {
        self.frequency
    }

    pub closed spec fn sink(&self) -> SinkDriver {
        self.sink
    }

    pub closed spec fn running(&self) -> bool {
        self.running
    }

    /// The parameters are valid and a buffer is playing.
    pub open spec fn wf(&self) -> bool {
        self.tone().wf() && self.sink().state() == SinkState::Playing
    }

    /// Starts a session: the loop runs, and the first buffer, at the base
    /// frequency, is to be started on the sink.
    pub fn start(tone: ToneParameters) -> (r: (ControlLoop, Retune))
        requires
            tone.wf(),
        ensures
            r.0.wf(),
            r.0.tone() == tone,
            r.0.running(),
            r.0.frequency() == BASE_FREQUENCY,
            r.1.frequency == BASE_FREQUENCY,
            tone.is_buffer(r.1.samples@, BASE_FREQUENCY as nat),
            within_full_scale(r.1.samples@),
            r.1.commands@ == play_loop_commands(),
    {
        let samples: Vec<i16> = tone.buffer(BASE_FREQUENCY);
        let mut sink: SinkDriver = SinkDriver::new();
        let commands: Vec<SinkCommand> = sink.play_loop();
        let control = ControlLoop { tone, frequency: BASE_FREQUENCY, sink, running: true };
        (control, Retune { frequency: BASE_FREQUENCY, samples, commands })
    }

    /// Takes one turn of the loop with what the poll of the channel gave.
    ///
    /// The action is the one that `decide` names. Retuning generates the
    /// buffer of the new frequency and replaces the one on the sink; the new
    /// frequency becomes the current one. The quit event stops the loop for
    /// good: from then on every turn exits, and nothing changes any more.
    pub fn step(&mut self, polled: Option<ControlEvent>) -> (action: LoopAction)
        requires
            old(self).wf(),
            polled matches Some(event) ==> event.wf(),
        ensures
            final(self).wf(),
            final(self).tone() == old(self).tone(),
            action.decision() == decide(old(self).running(), polled_code(polled)),
            match action {
                LoopAction::Retune(retune) => {
                    &&& final(self).running()
                    &&& final(self).frequency() == retune.frequency
                    &&& old(self).tone().is_buffer(retune.samples@, retune.frequency as nat)
                    &&& within_full_scale(retune.samples@)
                    &&& retune.commands@ == replace_commands()
                },
                LoopAction::Sleep { .. } => *final(self) == *old(self),
                LoopAction::Exit => {
                    &&& !final(self).running()
                    &&& final(self).frequency() == old(self).frequency()
                    &&& final(self).sink() == old(self).sink()
                },
            },
    {
        if !self.running {
            return LoopAction::Exit;
        }
        match polled {
            None => LoopAction::Sleep { millis: POLL_INTERVAL_MS },
            Some(event) => {
                if event.is_quit() {
                    self.running = false;
                    LoopAction::Exit
                } else {
                    let frequency: u32 = frequency_of(event.code());
                    let samples: Vec<i16> = self.tone.buffer(frequency);
                    let commands: Vec<SinkCommand> = self.sink.replace();
                    self.frequency = frequency;
                    LoopAction::Retune(Retune { frequency, samples, commands })
                }
            },
        }
    }

    pub fn is_running(&self) -> (b: bool)
        ensures
            b == self.running(),
    {
        self.running
    }

    /// The frequency that is playing, in hertz.
    pub fn current_frequency(&self) -> (frequency: u32)
        ensures
            frequency == self.frequency(),
    {
        self.frequency
    }
}

/// Once the loop has been told to quit, whatever arrives afterwards only
/// makes it exit: no tone is selected and nothing is played.
pub proof fn lemma_quit_is_final(polled: Option<u8>)
    ensures
        decide(false, polled) == Decision::Exit,
{
}

/// The quit event ends a running loop at the turn that polls it.
pub proof fn lemma_quit_exits_at_once(running: bool)
    ensures
        decide(running, Some(QUIT_CODE)) == Decision::Exit,
{
}

} // verus!
