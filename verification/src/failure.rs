//! What can go wrong in a session, and what follows from it.

use vstd::prelude::*;

verus! {

/// The exit status of a session that ended with the quit key.
pub const EXIT_OK: u8 = 0;

/// The exit status of a session that could not start.
pub const EXIT_FAILED: u8 = 1;

/// The failures of a session.
#[derive(Clone, Copy, Debug, PartialEq, Eq, Structural)]
pub enum Failure {
    /// There is no default audio output, or no sink could be made on it.
    DeviceUnavailable,
    /// The terminal could not be put into raw mode.
    TerminalSetupFailed,
    /// A read from the terminal failed in the middle of the session.
    IoRead,
    /// The control loop is gone and an event could not be sent to it.
    ChannelClosed,
}

/// What a failure leads to.
#[derive(Clone, Copy, Debug, PartialEq, Eq, Structural)]
pub enum Reaction {
    /// The program reports the failure and exits with a status that is not
    /// zero.
    Abort,
    /// The input task ends without a word; the tone that plays goes on.
    EndInput,
}

/// The reaction to each failure: the two that prevent a session from
/// starting are fatal, the two that strike the input task only end that
/// task.
pub open spec fn reaction_to(failure: Failure) -> Reaction {
    match failure {
        Failure::DeviceUnavailable => Reaction::Abort,
        Failure::TerminalSetupFailed => Reaction::Abort,
        Failure::IoRead => Reaction::EndInput,
        Failure::ChannelClosed => Reaction::EndInput,
    }
}

/// The exit status of a session: zero unless it ended on a fatal failure.
pub open spec fn status_of(outcome: Option<Failure>) -> u8 {
    match outcome {
        Some(failure) => if reaction_to(failure) == Reaction::Abort {
            EXIT_FAILED
        } else {
            EXIT_OK
        },
        None => EXIT_OK,
    }
}

/// Decides what follows from a failure.
pub fn react(failure: Failure) -> (reaction: Reaction)
    ensures
        reaction == reaction_to(failure),
{
    match failure {
        Failure::DeviceUnavailable | Failure::TerminalSetupFailed => Reaction::Abort,
        Failure::IoRead | Failure::ChannelClosed => Reaction::EndInput,
    }
}

/// The exit status of a session that ended with `outcome`: nothing for the
/// quit key, or the failure that ended it.
pub fn exit_status(outcome: Option<Failure>) -> (status: u8)
    ensures
        status == status_of(outcome),
{
    match outcome {
        Some(failure) => match react(failure) {
            Reaction::Abort => EXIT_FAILED,
            Reaction::EndInput => EXIT_OK,
        },
        None => EXIT_OK,
    }
}

} // verus!
