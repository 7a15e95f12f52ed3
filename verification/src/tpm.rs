//! The source of random bytes.
use crate::mmio::Mmio;
use vstd::prelude::*;

verus! {

/// Where the machine maps the device.
pub const MMIO_ADDRESS: usize = 0x1001_0000;

/// Read: a random byte.
pub const RANDOM_BYTE: usize = 0x1;

/// The source of random bytes.
#[derive(Debug, Clone, Copy)]
pub struct Tpm {
    pub mmio: Mmio,
}

impl Default for Tpm {
    /// The device at the address where the machine maps it.
    fn default() -> (device: Self)
        ensures
            device.mmio.base() == MMIO_ADDRESS,
    {
        Self { mmio: Mmio::new(MMIO_ADDRESS) }
    }
}

} // verus!
