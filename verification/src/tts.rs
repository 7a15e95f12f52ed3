//! The speech device.
use crate::pci::PciDevice;
use vstd::prelude::*;
use vstd::std_specs::convert::FromSpecImpl;

verus! {

/// The device number under which the bus lists the speech device.
pub const DEVICE_ID: u16 = 0x64;

/// The speech device on the bus.
#[derive(Debug, Clone, Copy)]
pub struct Tts {
    pub device: PciDevice,
}

impl From<PciDevice> for Tts {
    fn from(device: PciDevice) -> (found: Self) {
        Self { device }
    }
}

impl FromSpecImpl<PciDevice> for Tts {
    open spec fn obeys_from_spec() -> bool {
        true
    }

    open spec fn from_spec(device: PciDevice) -> Self {
        Self { device }
    }
}

} // verus!
