//! The flash memory.
use crate::mmio::Mmio;
use vstd::prelude::*;

verus! {

/// Where the machine maps the device.
pub const MMIO_ADDRESS: usize = 0x1FF8_0000;

/// The flash memory: its window starts with its size, the memory follows.
#[derive(Debug, Clone, Copy)]
pub struct Flash {
    mmio: Mmio,
    size: u32,
}

impl Flash {
    /// The window of the device.
    pub closed spec fn window(&self) -> Mmio {
        self.mmio
    }

    /// The size that the device reported.
    pub closed spec fn spec_size(&self) -> u32 {
        self.size
    }

    /// The flash memory behind the given window, with the size that was read
    /// from the start of the window.
    pub fn new(mmio: Mmio, size: u32) -> (flash: Self)
        ensures
            flash.window() == mmio,
            flash.spec_size() == size,
    {
        Self { mmio, size }
    }

    pub fn size(&self) -> (size: u32)
        ensures
            size == self.spec_size(),
    {
        self.size
    }

    /// The window of the memory itself: it starts behind the four bytes of
    /// the size.
    pub fn mmio(&self) -> (memory: Mmio)
        requires
            self.window().base() + 4 <= usize::MAX,
        ensures
            memory.base() == self.window().base() + 4,
    {
        Mmio::new(self.mmio.address() + 4)
    }
}

} // verus!
