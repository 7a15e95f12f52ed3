//! The device bus: where devices are found and what identifies them.
use crate::mmio::Mmio;
use vstd::prelude::*;

verus! {

/// The register window of the bus itself.
pub const MMIO_ADDRESS: usize = 0x0FF8_0000;

/// Within a slot's window, the register that holds the packed identity.
pub const INFO_REGISTER: usize = 0x0;

/// Within a slot's window, the register that holds the device's own window.
pub const ADDRESS_REGISTER: usize = 0x1;

/// The first of the registers that hold a device's identifier, byte by byte.
pub const UUID_REGISTER_OFFSET: usize = 0x2;

/// The length of a device's unique identifier.
pub const UUID_LENGTH: usize = 16;

/// The vendor or device number that an empty slot reports.
pub const NO_DEVICE: u16 = 0xFFFF;

/// A device found on the bus.
#[derive(Clone, Copy, Debug)]
pub struct PciDevice {
    pub device_id: u16,
    pub vendor_id: u16,
    pub irq_pin: u8,
    pub uuid: [u8; 16],
    pub mmio: Mmio,
}

/// The bus, known by its register window.
#[derive(Debug, Clone, Copy)]
pub struct PciBus {
    pub mmio: Mmio,
}

impl PciBus {
    pub fn new(address: usize) -> (bus: Self)
        ensures
            bus.mmio.base() == address,
    {
        Self { mmio: Mmio::new(address) }
    }
}

impl Default for PciBus {
    fn default() -> (bus: Self)
        ensures
            bus.mmio.base() == MMIO_ADDRESS,
    {
        Self { mmio: Mmio::new(MMIO_ADDRESS) }
    }
}

impl PciBus {
    /// The device that a slot's registers describe: the vendor in the lowest
    /// sixteen bits of the identity, then the device number, then the
    /// interrupt pin. A slot that reports `NO_DEVICE` as its vendor or as its
    /// device number is empty.
    pub open spec fn device_of(info_bits: u64, device_address: usize, uuid: [u8; 16]) -> Option<
        PciDevice,
    > {
        let vendor_id = (info_bits % 0x1_0000) as u16;
        let device_id = (info_bits / 0x1_0000 % 0x1_0000) as u16;
        if vendor_id == NO_DEVICE || device_id == NO_DEVICE {
            None
        } else {
            Some(
                PciDevice {
                    device_id,
                    vendor_id,
                    irq_pin: (info_bits / 0x1_0000_0000 % 0x100) as u8,
                    uuid,
                    mmio: Mmio { address: device_address },
                },
            )
        }
    }

    /// The offset of the identity register of a slot.
    pub fn info_register(idx: u8) -> (offset: usize)
        ensures
            offset == idx * 0x100 + INFO_REGISTER,
    {
        idx as usize * 0x100 + INFO_REGISTER
    }

    /// The offset of the register that holds the window of a slot's device.
    pub fn address_register(idx: u8) -> (offset: usize)
        ensures
            offset == idx * 0x100 + ADDRESS_REGISTER,
    {
        idx as usize * 0x100 + ADDRESS_REGISTER
    }

    pub fn decode_device(info_bits: u64, device_address: usize, uuid: [u8; 16]) -> (device: Option<
        PciDevice,
    >)
        ensures
            device == Self::device_of(info_bits, device_address, uuid),
    {
        assert(info_bits & 0xFFFF == info_bits % 0x1_0000 && (info_bits >> 16) & 0xFFFF == info_bits
            / 0x1_0000 % 0x1_0000 && (info_bits >> 32) & 0xFF == info_bits / 0x1_0000_0000
            % 0x100) by (bit_vector);
        let vendor_id = (info_bits & 0xFFFF) as u16;
        let device_id = ((info_bits >> 16) & 0xFFFF) as u16;
        let irq_pin = ((info_bits >> 32) & 0xFF) as u8;

        if vendor_id == 0xFFFF || device_id == 0xFFFF {
            return None;
        }
        let mmio = Mmio::new(device_address);

        Some(PciDevice { vendor_id, device_id, irq_pin, uuid, mmio })
    }

    /// Starts a walk over the slots of the bus.
    pub fn iter(&self) -> (iter: PciDeviceIterator<'_>)
        ensures
            iter.position() == 0,
            *iter.bus() == *self,
    {
        PciDeviceIterator { next_id: 0, bus: self }
    }

    /// The first of the devices that has the given device number.
    pub fn find_by_id(&self, devices: &[PciDevice], id: u16) -> (found: Option<PciDevice>)
        ensures
            match found {
                Some(device) => exists|i: int|
                    {
                        &&& 0 <= i < devices@.len()
                        &&& devices@[i] == device
                        &&& device.device_id == id
                        &&& forall|j: int| 0 <= j < i ==> devices@[j].device_id != id
                    },
                None => forall|j: int| 0 <= j < devices@.len() ==> devices@[j].device_id != id,
            },
    {
        let mut i: usize = 0;
        while i < devices.len()
            invariant
                i <= devices@.len(),
                forall|j: int| 0 <= j < i ==> devices@[j].device_id != id,
            decreases devices@.len() - i,
        {
            if devices[i].device_id == id {
                return Some(devices[i]);
            }
            i = i + 1;
        }
        None
    }
}

/// A walk over the slots of the bus, from the first one on. The walk ends at
/// the first empty slot.
pub struct PciDeviceIterator<'b> {
    next_id: u16,
    bus: &'b PciBus,
}

impl<'b> PciDeviceIterator<'b> {
    /// The number of slots probed so far.
    pub closed spec fn position(&self) -> u16 {
        self.next_id
    }

    /// The bus that is walked.
    pub closed spec fn bus(&self) -> &PciBus {
        self.bus
    }

    /// The slot to probe next, or `None` where every slot was probed.
    pub fn slot(&self) -> (slot: Option<u8>)
        ensures
            slot == if self.position() < 256 {
                Some(self.position() as u8)
            } else {
                None::<u8>
            },
    {
        if self.next_id < 256 {
            Some(self.next_id as u8)
        } else {
            None
        }
    }

    /// Takes what the probe of the slot found, moves on to the next slot and
    /// hands the device out.
    pub fn advance(&mut self, probed: Option<PciDevice>) -> (item: Option<PciDevice>)
        ensures
            item == probed,
            final(self).bus() == old(self).bus(),
            final(self).position() == if old(self).position() < 256 {
                (old(self).position() + 1) as u16
            } else {
                old(self).position()
            },
    {
        if self.next_id < 256 {
            self.next_id = self.next_id + 1;
        }
        probed
    }
}

} // verus!
