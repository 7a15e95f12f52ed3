//! The screen.
use crate::pci::PciDevice;
use vstd::prelude::*;
use vstd::std_specs::convert::FromSpecImpl;

verus! {

/// The device number under which the bus lists the screen.
pub const DEVICE_ID: u16 = 0x67;

/// The screen on the bus.
#[derive(Debug, Clone, Copy)]
pub struct Screen {
    pub device: PciDevice,
}

impl From<PciDevice> for Screen {
    fn from(device: PciDevice) -> (found: Self) {
        Self { device }
    }
}

impl FromSpecImpl<PciDevice> for Screen {
    open spec fn obeys_from_spec() -> bool {
        true
    }

    open spec fn from_spec(device: PciDevice) -> Self {
        Self { device }
    }
}

} // verus!
