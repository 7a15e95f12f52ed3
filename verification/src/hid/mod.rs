//! Keyboard and mouse.
use vstd::prelude::*;
use vstd::std_specs::convert::FromSpecImpl;

pub mod keyboard;
pub mod mouse;

verus! {

/// What a key is doing.
#[derive(Debug, Clone, Copy, PartialEq, Eq, PartialOrd, Ord, Structural)]
pub enum KeyState {
    Up,
    Repeat,
    Down,
}

impl KeyState {
    /// The number that stands for the value in a register.
    pub open spec fn spec_code(self) -> u8 {
        match self {
            KeyState::Up => 0,
            KeyState::Repeat => 1,
            KeyState::Down => 2,
        }
    }

    /// The value that a number stands for; a number that stands for none is
    /// `Up`.
    pub open spec fn decode(value: u8) -> Self {
        if value == 1 {
            KeyState::Repeat
        } else if value == 2 {
            KeyState::Down
        } else {
            KeyState::Up
        }
    }

    pub fn code(&self) -> (code: u8)
        ensures
            code == self.spec_code(),
    {
        match self {
            KeyState::Up => 0,
            KeyState::Repeat => 1,
            KeyState::Down => 2,
        }
    }
}

impl From<u8> for KeyState {
    fn from(value: u8) -> (decoded: Self) {
        if value == 1 {
            KeyState::Repeat
        } else if value == 2 {
            KeyState::Down
        } else {
            KeyState::Up
        }
    }
}

impl FromSpecImpl<u8> for KeyState {
    open spec fn obeys_from_spec() -> bool {
        true
    }

    open spec fn from_spec(value: u8) -> Self {
        KeyState::decode(value)
    }
}


/// What is written to a device's events register to switch its events on or
/// off.
pub fn events_value(state: bool) -> (value: u8)
    ensures
        value == if state {
            1u8
        } else {
            0u8
        },
{
    if state {
        1
    } else {
        0
    }
}

/// Whether a value of a device's events register says that events are on.
pub fn events_enabled(value: u8) -> (enabled: bool)
    ensures
        enabled == (value != 0),
{
    value != 0
}

} // verus!
