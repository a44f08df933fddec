//! The audio sink driver: which calls are made on the sink, and in what
//! order, so that it loops one buffer and never more than one.
//!
//! The sink itself is an audio device and lives outside this crate. The
//! driver decides; its caller performs each command on the device, in the
//! order given, with the buffer that the driver was asked to play.

use vstd::prelude::*;

verus! {

/// One call on the sink.
#[derive(Clone, Copy, Debug, PartialEq, Eq, Structural)]
pub enum SinkCommand {
    /// Stop what is playing and empty the queue.
    Stop,
    /// Put the buffer on the queue as an endless loop.
    Append,
    /// Resume playback if it is paused.
    Play,
}

/// What the commands do to a sink, as far as the driver depends on it: the
/// number of looping buffers on its queue, and whether it is paused.
pub struct SinkModel {
    pub queued: nat,
    pub paused: bool,
}

impl SinkModel {
    /// A sink as it is opened: nothing queued, not paused.
    pub open spec fn opened() -> SinkModel {
        SinkModel { queued: 0, paused: false }
    }

    /// The sink after one command.
    pub open spec fn apply(self, command: SinkCommand) -> SinkModel {
        match command {
            SinkCommand::Stop => SinkModel { queued: 0, paused: self.paused },
            SinkCommand::Append => SinkModel { queued: self.queued + 1, paused: self.paused },
            SinkCommand::Play => SinkModel { queued: self.queued, paused: false },
        }
    }

    /// The sink after a sequence of commands, first to last.
    pub open spec fn run(self, commands: Seq<SinkCommand>) -> SinkModel
        decreases commands.len(),
    {
        if commands.len() == 0 {
            self
        } else {
            self.apply(commands.first()).run(commands.drop_first())
        }
    }

    /// The sink is sounding exactly one buffer.
    pub open spec fn sounds_one(self) -> bool {
        self.queued == 1 && !self.paused
    }
}

/// The states of the driver: nothing has been played yet, or one buffer is
/// looping.
#[derive(Clone, Copy, Debug, PartialEq, Eq, Structural)]
pub enum SinkState {
    Empty,
    Playing,
}

/// The commands that start the first buffer.
pub open spec fn play_loop_commands() -> Seq<SinkCommand> {
    seq![SinkCommand::Append, SinkCommand::Play]
}

/// The commands that put a new buffer in the place of the one playing.
pub open spec fn replace_commands() -> Seq<SinkCommand> {
    seq![SinkCommand::Stop, SinkCommand::Append, SinkCommand::Play]
}

/// The driver of one sink.
#[derive(Clone, Copy, Debug)]
pub struct SinkDriver {
    state: SinkState,
}

impl SinkDriver {
    pub closed spec fn state(&self) -> SinkState {
        self.state
    }

    /// The driver's state describes this sink: an empty driver has an empty
    /// queue, a playing one has one buffer sounding.
    pub open spec fn agrees(&self, sink: SinkModel) -> bool {
        match self.state() {
            SinkState::Empty => sink.queued == 0,
            SinkState::Playing => sink.sounds_one(),
        }
    }

    /// The driver of a sink that has just been opened.
    pub fn new() -> (driver: SinkDriver)
        ensures
            driver.state() == SinkState::Empty,
            driver.agrees(SinkModel::opened()),
    {
        SinkDriver { state: SinkState::Empty }
    }

    pub fn is_playing(&self) -> (b: bool)
        ensures
            b == (self.state() == SinkState::Playing),
    {
        match self.state {
            SinkState::Playing => true,
            SinkState::Empty => false,
        }
    }

    /// Starts the first buffer on an empty sink: append it as a loop, then
    /// make sure the sink plays.
    pub fn play_loop(&mut self) -> (commands: Vec<SinkCommand>)
        requires
            old(self).state() == SinkState::Empty,
        ensures
            commands@ == play_loop_commands(),
            final(self).state() == SinkState::Playing,
            forall|sink: SinkModel|
                old(self).agrees(sink) ==> final(self).agrees(#[trigger] sink.run(commands@)),
    {
        self.state = SinkState::Playing;
        let mut commands: Vec<SinkCommand> = Vec::new();
        commands.push(SinkCommand::Append);
        commands.push(SinkCommand::Play);
        proof {
            assert(commands@ =~= play_loop_commands());
            assert forall|sink: SinkModel| sink.queued == 0 implies (#[trigger] sink.run(
                commands@,
            )).sounds_one() by {
                lemma_play_loop_sounds_one(sink);
            }
        }
        commands
    }

    /// Puts a new buffer in the place of whatever plays: stop, append the
    /// new buffer as a loop, resume.
    pub fn replace(&mut self) -> (commands: Vec<SinkCommand>)
        ensures
            commands@ == replace_commands(),
            final(self).state() == SinkState::Playing,
            forall|sink: SinkModel| (#[trigger] sink.run(commands@)).sounds_one(),
    {
        self.state = SinkState::Playing;
        let mut commands: Vec<SinkCommand> = Vec::new();
        commands.push(SinkCommand::Stop);
        commands.push(SinkCommand::Append);
        commands.push(SinkCommand::Play);
        proof {
            assert(commands@ =~= replace_commands());
            assert forall|sink: SinkModel| (#[trigger] sink.run(commands@)).sounds_one() by {
                lemma_replace_sounds_one(sink);
            }
        }
        commands
    }
}

/// A sink that the driver describes holds at most one buffer.
pub proof fn lemma_at_most_one_buffer(driver: SinkDriver, sink: SinkModel)
    requires
        driver.agrees(sink),
    ensures
        sink.queued <= 1,
{
}

/// On a sink with an empty queue, the commands of `play_loop` leave exactly
/// one buffer sounding.
pub proof fn lemma_play_loop_sounds_one(sink: SinkModel)
    requires
        sink.queued == 0,
    ensures
        sink.run(play_loop_commands()).sounds_one(),
{
    let commands = play_loop_commands();
    let rest = commands.drop_first();
    assert(rest =~= seq![SinkCommand::Play]);
    assert(rest.drop_first() =~= Seq::<SinkCommand>::empty());
    reveal_with_fuel(SinkModel::run, 3);
}

/// Whatever the sink held, the commands of `replace` leave exactly one
/// buffer sounding: at most one buffer is ever active.
pub proof fn lemma_replace_sounds_one(sink: SinkModel)
    ensures
        sink.run(replace_commands()).sounds_one(),
{
    let commands = replace_commands();
    let rest = commands.drop_first();
    assert(rest =~= seq![SinkCommand::Append, SinkCommand::Play]);
    assert(rest.drop_first() =~= seq![SinkCommand::Play]);
    assert(rest.drop_first().drop_first() =~= Seq::<SinkCommand>::empty());
    reveal_with_fuel(SinkModel::run, 4);
}

} // verus!
