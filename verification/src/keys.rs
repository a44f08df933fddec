//! The keyboard row: which key selects which tone, and what the input task
//! does with each key it reads.

use vstd::prelude::*;

verus! {

/// The code of the event that ends the session.
pub const QUIT_CODE: u8 = 9;

/// What the terminal delivered for one keystroke: a plain character, or
/// anything else (an arrow, a function key, a modified key).
#[derive(Clone, Copy, Debug, PartialEq, Eq, Structural)]
pub enum Key {
    Char(char),
    Other,
}

/// The code that a character stands for: the home row `a s d f g h j k l`
/// selects frequency indices 0 to 8 from left to right, `0` quits, and no
/// other character means anything.
pub open spec fn char_code(c: char) -> Option<u8> {
    if c == 'a' {
        Some(0u8)
    } else if c == 's' {
        Some(1u8)
    } else if c == 'd' {
        Some(2u8)
    } else if c == 'f' {
        Some(3u8)
    } else if c == 'g' {
        Some(4u8)
    } else if c == 'h' {
        Some(5u8)
    } else if c == 'j' {
        Some(6u8)
    } else if c == 'k' {
        Some(7u8)
    } else if c == 'l' {
        Some(8u8)
    } else if c == '0' {
        Some(QUIT_CODE)
    } else {
        None
    }
}

/// The code that a key stands for, if it stands for any.
pub open spec fn key_code(key: Key) -> Option<u8> {
    match key {
        Key::Char(c) => char_code(c),
        Key::Other => None,
    }
}

/// A message from the input task to the control loop: a frequency index from
/// 0 to 8, or the request to quit, carried as a code from 0 to 9.
#[derive(Clone, Copy, Debug, PartialEq, Eq, Structural)]
pub struct ControlEvent {
    code: u8,
}

impl View for ControlEvent {
    type V = u8;

    closed spec fn view(&self) -> u8 {
        self.code
    }
}

impl ControlEvent {
    /// The code is one of 0 to 9.
    pub open spec fn wf(&self) -> bool {
        self@ <= QUIT_CODE
    }

    /// The event asks to quit.
    pub open spec fn quits(&self) -> bool {
        self@ == QUIT_CODE
    }

    /// The event with this code, or nothing where the code is above 9.
    pub fn from_code(code: u8) -> (r: Option<ControlEvent>)
        ensures
            r is Some <==> code <= QUIT_CODE,
            r matches Some(event) ==> event.wf() && event@ == code,
    {
        if code <= QUIT_CODE {
            Some(ControlEvent { code })
        } else {
            None
        }
    }

    /// The event that ends the session.
    pub fn quit() -> (event: ControlEvent)
        ensures
            event.wf(),
            event.quits(),
    {
        ControlEvent { code: QUIT_CODE }
    }

    pub fn code(&self) -> (code: u8)
        ensures
            code == self@,
    {
        self.code
    }

    pub fn is_quit(&self) -> (b: bool)
        ensures
            b == self.quits(),
    {
        self.code == QUIT_CODE
    }
}

/// Maps a key to the event it stands for. Keys outside the map give nothing:
/// they are ignored.
pub fn event_for_key(key: Key) -> (r: Option<ControlEvent>)
    ensures
        r is Some <==> key_code(key) is Some,
        r matches Some(event) ==> event.wf() && Some(event@) == key_code(key),
{
    match key {
        Key::Char(c) => {
            let code: u8 = if c == 'a' {
                0
            } else if c == 's' {
                1
            } else if c == 'd' {
                2
            } else if c == 'f' {
                3
            } else if c == 'g' {
                4
            } else if c == 'h' {
                5
            } else if c == 'j' {
                6
            } else if c == 'k' {
                7
            } else if c == 'l' {
                8
            } else if c == '0' {
                QUIT_CODE
            } else {
                return None;
            };
            Some(ControlEvent { code })
        },
        Key::Other => None,
    }
}

/// What one read of the terminal gave the input task.
#[derive(Clone, Copy, Debug, PartialEq, Eq, Structural)]
pub enum Input {
    /// A keystroke.
    Key(Key),
    /// The input has ended.
    End,
    /// The read failed.
    Failed,
}

/// What the input task does after one read.
#[derive(Clone, Copy, Debug, PartialEq, Eq, Structural)]
pub enum InputAction {
    /// Nothing: read the next key.
    Ignore,
    /// Send the event, then read the next key.
    Send(ControlEvent),
    /// Send the event and end the task.
    SendAndStop(ControlEvent),
    /// End the task.
    Stop,
}

impl InputAction {
    /// An event that the action carries has a code from 0 to 9.
    pub open spec fn wf(self) -> bool {
        match self {
            InputAction::Send(event) => event.wf(),
            InputAction::SendAndStop(event) => event.wf(),
            _ => true,
        }
    }

    /// The code of the event that the action sends, if it sends one.
    pub open spec fn sent(self) -> Option<u8> {
        match self {
            InputAction::Send(event) => Some(event@),
            InputAction::SendAndStop(event) => Some(event@),
            _ => None,
        }
    }

    /// The task ends with this action.
    pub open spec fn stops(self) -> bool {
        self is SendAndStop || self is Stop
    }
}

/// The code that one read stands for: that of its key, if it gave a key of
/// the map.
pub open spec fn input_code(input: Input) -> Option<u8> {
    match input {
        Input::Key(key) => key_code(key),
        _ => None,
    }
}

/// Decides what the input task does with what it read: a key of the map is
/// sent on as its event, and the quit key ends the task after it is sent;
/// any other key is ignored; the end of the input and a failed read end the
/// task with nothing sent.
pub fn input_step(input: Input) -> (action: InputAction)
    ensures
        action.wf(),
        action.sent() == input_code(input),
        action.stops() <==> (input_code(input) == Some(QUIT_CODE) || !(input is Key)),
{
    match input {
        Input::Key(key) => match event_for_key(key) {
            None => InputAction::Ignore,
            Some(event) => if event.is_quit() {
                InputAction::SendAndStop(event)
            } else {
                InputAction::Send(event)
            },
        },
        Input::End => InputAction::Stop,
        Input::Failed => InputAction::Stop,
    }
}

} // verus!
