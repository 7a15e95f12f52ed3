//! Power management.
use crate::mmio::Mmio;
use vstd::prelude::*;

verus! {

/// Where the machine maps the device.
pub const MMIO_ADDRESS: usize = 0x2000;

/// Read: whether the machine has a battery.
pub const HAS_BATTERY_REGISTER: usize = 0x0;

/// Read: the battery's capacity.
pub const BATTERY_CAPACITY_REGISTER: usize = 0x1;

/// Read: the battery's charge.
pub const BATTERY_CHARGE_REGISTER: usize = 0x2;

/// Write: switches the machine off.
pub const SHUTDOWN_REGISTER: usize = 0x0;

/// Write: restarts the machine.
pub const REBOOT_REGISTER: usize = 0x1;

/// The power management device.
#[derive(Debug, Clone, Copy)]
pub struct Apm {
    pub mmio: Mmio,
}

impl Default for Apm {
    /// The device at the address where the machine maps it.
    fn default() -> (device: Self)
        ensures
            device.mmio.base() == MMIO_ADDRESS,
    {
        Self { mmio: Mmio::new(MMIO_ADDRESS) }
    }
}

} // verus!
