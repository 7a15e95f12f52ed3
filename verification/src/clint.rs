//! The core-local interruptor: the timer and the software interrupt.
use crate::mmio::Mmio;
use vstd::prelude::*;

verus! {

/// Where the machine maps the device.
pub const MMIO_ADDRESS: usize = 0x3000;

/// Read: the timer.
pub const GET_TIMER_REGISTER: usize = 0x0;

/// Read: the time at which the timer interrupts.
pub const GET_TIME_CMP_REGISTER: usize = 0x1;

/// Write: the time at which the timer interrupts.
pub const SET_TIME_CMP_REGISTER: usize = 0x0;

/// Write: raises or clears the software interrupt.
pub const MSOFTWARE_INTERRUPT: usize = 0x1;

/// The core-local interruptor.
#[derive(Debug, Clone, Copy)]
pub struct Clint {
    pub mmio: Mmio,
}

impl Default for Clint {
    /// The device at the address where the machine maps it.
    fn default() -> (device: Self)
        ensures
            device.mmio.base() == MMIO_ADDRESS,
    {
        Self { mmio: Mmio::new(MMIO_ADDRESS) }
    }
}

impl Clint {
    /// What is written to raise or clear the software interrupt.
    pub fn interrupt_value(state: bool) -> (value: u8)
        ensures
            value == if state {
                1u8
            } else {
                0u8
            },
    {
        if state {
            1
        } else {
            0
        }
    }
}

} // verus!
