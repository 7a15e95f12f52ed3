//! The keyboard.
use crate::pci::PciDevice;
use vstd::prelude::*;
use vstd::std_specs::convert::FromSpecImpl;

verus! {

/// The device number under which the bus lists the keyboard.
pub const DEVICE_ID: u16 = 0x69;

/// The register that tells and sets whether the keyboard raises events.
pub const EVENTS_REGISTER: usize = 0x0;

/// The register that holds the key that changed last.
pub const LAST_CHANGED_KEY_REGISTER: usize = 0x1;

/// The keyboard on the bus.
#[derive(Debug, Clone, Copy)]
pub struct Keyboard {
    pub device: PciDevice,
}

impl From<PciDevice> for Keyboard {
    fn from(device: PciDevice) -> (found: Self) {
        Self { device }
    }
}

impl FromSpecImpl<PciDevice> for Keyboard {
    open spec fn obeys_from_spec() -> bool {
        true
    }

    open spec fn from_spec(device: PciDevice) -> Self {
        Self { device }
    }
}

} // verus!
