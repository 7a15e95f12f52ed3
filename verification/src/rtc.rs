//! The real-time clock.
use crate::mmio::Mmio;
use vstd::prelude::*;

verus! {

/// Where the machine maps the device.
pub const MMIO_ADDRESS: usize = 0x1000;

/// Read: the time in milliseconds.
pub const TIME_REGISTER: usize = 0x0;

/// Write: the time of the next interrupt in milliseconds; 0 clears it.
pub const SCHEDULE_INTERRUPT_REGISTER: usize = 0x0;

/// The real-time clock.
#[derive(Debug, Clone, Copy)]
pub struct Rtc {
    pub mmio: Mmio,
}

impl Default for Rtc {
    /// The device at the address where the machine maps it.
    fn default() -> (device: Self)
        ensures
            device.mmio.base() == MMIO_ADDRESS,
    {
        Self { mmio: Mmio::new(MMIO_ADDRESS) }
    }
}

} // verus!
