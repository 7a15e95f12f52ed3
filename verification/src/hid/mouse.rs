//! The mouse.
use crate::pci::PciDevice;
use vstd::prelude::*;
use vstd::std_specs::convert::FromSpecImpl;

verus! {

/// The device number under which the bus lists the mouse.
pub const DEVICE_ID: u16 = 0x68;

/// The register that tells and sets whether the mouse raises events.
pub const EVENTS_REGISTER: usize = 0x0;

/// The register that holds the kind of the last event.
pub const LAST_EVENT_TYPE_REGISTER: usize = 0x1;

/// The register that holds the key that changed last.
pub const LAST_CHANGED_KEY_REGISTER: usize = 0x2;

/// The register that holds the position of the pointer.
pub const POSITION_REGISTER: usize = 0x3;

/// Where the registers of the keys start.
pub const KEYS_OFFSET: usize = 0x100;

/// The mouse on the bus.
#[derive(Debug, Clone, Copy)]
pub struct Mouse {
    pub device: PciDevice,
}

impl From<PciDevice> for Mouse {
    fn from(device: PciDevice) -> (found: Self) {
        Self { device }
    }
}

impl FromSpecImpl<PciDevice> for Mouse {
    open spec fn obeys_from_spec() -> bool {
        true
    }

    open spec fn from_spec(device: PciDevice) -> Self {
        Self { device }
    }
}

/// What the mouse reported last.
#[derive(Debug, Clone, Copy, PartialEq, Eq, PartialOrd, Ord, Structural)]
pub enum MouseEventType {
    NoEvent,
    Key,
    Move,
}

impl MouseEventType {
    /// The number that stands for the value in a register.
    pub open spec fn spec_code(self) -> u8 {
        match self {
            MouseEventType::NoEvent => 0,
            MouseEventType::Key => 1,
            MouseEventType::Move => 2,
        }
    }

    /// The value that a number stands for; a number that stands for none is
    /// `NoEvent`.
    pub open spec fn decode(value: u8) -> Self {
        if value == 1 {
            MouseEventType::Key
        } else if value == 2 {
            MouseEventType::Move
        } else {
            MouseEventType::NoEvent
        }
    }

    pub fn code(&self) -> (code: u8)
        ensures
            code == self.spec_code(),
    {
        match self {
            MouseEventType::NoEvent => 0,
            MouseEventType::Key => 1,
            MouseEventType::Move => 2,
        }
    }
}

impl From<u8> for MouseEventType {
    fn from(value: u8) -> (decoded: Self) {
        if value == 1 {
            MouseEventType::Key
        } else if value == 2 {
            MouseEventType::Move
        } else {
            MouseEventType::NoEvent
        }
    }
}

impl FromSpecImpl<u8> for MouseEventType {
    open spec fn obeys_from_spec() -> bool {
        true
    }

    open spec fn from_spec(value: u8) -> Self {
        MouseEventType::decode(value)
    }
}


/// The keys of the mouse.
#[derive(Debug, Clone, Copy, PartialEq, Eq, PartialOrd, Ord, Structural)]
pub enum MouseKey {
    Left,
    Right,
    Middle,
    Unknown,
}

impl MouseKey {
    /// The number that stands for the value in a register.
    pub open spec fn spec_code(self) -> u8 {
        match self {
            MouseKey::Left => 0,
            MouseKey::Right => 1,
            MouseKey::Middle => 2,
            MouseKey::Unknown => 0xFF,
        }
    }

    /// The value that a number stands for; a number that stands for none is
    /// `Unknown`.
    pub open spec fn decode(value: u8) -> Self {
        if value == 0 {
            MouseKey::Left
        } else if value == 1 {
            MouseKey::Right
        } else if value == 2 {
            MouseKey::Middle
        } else {
            MouseKey::Unknown
        }
    }

    pub fn code(&self) -> (code: u8)
        ensures
            code == self.spec_code(),
    {
        match self {
            MouseKey::Left => 0,
            MouseKey::Right => 1,
            MouseKey::Middle => 2,
            MouseKey::Unknown => 0xFF,
        }
    }
}

impl From<u8> for MouseKey {
    fn from(value: u8) -> (decoded: Self) {
        if value == 0 {
            MouseKey::Left
        } else if value == 1 {
            MouseKey::Right
        } else if value == 2 {
            MouseKey::Middle
        } else {
            MouseKey::Unknown
        }
    }
}

impl FromSpecImpl<u8> for MouseKey {
    open spec fn obeys_from_spec() -> bool {
        true
    }

    open spec fn from_spec(value: u8) -> Self {
        MouseKey::decode(value)
    }
}


impl MouseKey {
    /// The offset of the register that holds the state of the key.
    pub fn offset(&self) -> (offset: usize)
        ensures
            offset == KEYS_OFFSET + self.spec_code(),
    {
        self.code() as usize + KEYS_OFFSET
    }
}

impl Mouse {
    /// The position that the position register's value stands for: across in
    /// the lower half, down in the upper half.
    pub fn decode_position(position: u64) -> (point: (u32, u32))
        ensures
            point.0 == position % 0x1_0000_0000,
            point.1 == position / 0x1_0000_0000,
    {
        let x = (position & 0xFFFF_FFFF) as u32;
        let y = (position >> 32) as u32;
        assert(position & 0xFFFF_FFFF == position % 0x1_0000_0000 && position >> 32 == position
            / 0x1_0000_0000 && position >> 32 <= 0xFFFF_FFFF) by (bit_vector);
        (x, y)
    }
}

} // verus!
