use vstd::prelude::*;

verus! {

/// The base address of a memory-mapped register window.
#[derive(Clone, Copy, Debug)]
pub struct Mmio {
    pub address: usize,
}

impl Mmio {
    /// The address this window starts at.
    pub open spec fn base(&self) -> usize {
        self.address
    }

    pub fn new(address: usize) -> (mmio: Self)
        ensures
            mmio.base() == address,
    {
        Self { address }
    }

    pub fn address(&self) -> (address: usize)
        ensures
            address == self.base(),
    {
        self.address
    }
}

} // verus!
