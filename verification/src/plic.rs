//! The interrupt controller.
use crate::mmio::Mmio;
use vstd::prelude::*;

verus! {

/// Where the machine maps the device.
pub const MMIO_ADDRESS: usize = 0x5000;

/// The register of the threshold.
pub const THRESHOLD_REGISTER: usize = 0;

/// Read: the interrupt that waits, or 0.
pub const PENDING_IRQ_REGISTER: usize = 1;

/// Write: a setting of an interrupt.
pub const IRQ_INFO_REGISTER: usize = 1;

/// Where the registers of the interrupts start.
pub const IRQS_OFFSET: usize = 0x10;

/// An interrupt as the controller describes it.
#[derive(Debug, Clone)]
pub struct Irq {
    pub priority: u8,
    pub is_enabled: bool,
    pub is_pending: bool,
}

/// Which setting of an interrupt a write changes.
#[derive(Debug, Clone, Copy, PartialEq, Eq, PartialOrd, Ord, Structural)]
pub enum IrqValueType {
    Priority,
    IsEnabled,
    Claim,
}

impl IrqValueType {
    /// The number that stands for the setting.
    pub open spec fn spec_code(self) -> u8 {
        match self {
            IrqValueType::Priority => 0,
            IrqValueType::IsEnabled => 1,
            IrqValueType::Claim => 2,
        }
    }

    pub fn code(&self) -> (code: u8)
        ensures
            code == self.spec_code(),
    {
        match self {
            IrqValueType::Priority => 0,
            IrqValueType::IsEnabled => 1,
            IrqValueType::Claim => 2,
        }
    }
}

/// The interrupt controller.
#[derive(Debug, Clone, Copy)]
pub struct Plic {
    pub mmio: Mmio,
}

impl Plic {
    /// The interrupt that sixteen bits of an interrupt's register stand for:
    /// the priority in the lowest eight bits, then whether it is enabled,
    /// then whether it waits. All zero is no interrupt.
    pub open spec fn irq_of(irq_bits: u16) -> Option<Irq> {
        if irq_bits == 0 {
            None
        } else {
            Some(
                Irq {
                    priority: (irq_bits % 256) as u8,
                    is_enabled: irq_bits / 256 % 2 == 1,
                    is_pending: irq_bits / 512 % 2 == 1,
                },
            )
        }
    }

    /// The word that changes a setting of an interrupt: the interrupt in the
    /// lowest eight bits, then the setting, then its new value.
    pub open spec fn value_word(irq_idx: u8, value_type: IrqValueType, value: u8) -> u32 {
        (value * 0x1_0000 + value_type.spec_code() * 0x100 + irq_idx) as u32
    }

    pub fn new(address: usize) -> (plic: Self)
        ensures
            plic.mmio.base() == address,
    {
        Self { mmio: Mmio::new(address) }
    }

    /// The interrupt that waits, from what the register holds.
    pub fn decode_pending(irq: u8) -> (pending: Option<u8>)
        ensures
            pending == if irq == 0 {
                None::<u8>
            } else {
                Some(irq)
            },
    {
        if irq == 0 {
            None
        } else {
            Some(irq)
        }
    }

    /// The offset of the register that describes an interrupt.
    pub fn irq_register(irq_idx: u8) -> (offset: usize)
        ensures
            offset == IRQS_OFFSET + irq_idx,
    {
        irq_idx as usize + IRQS_OFFSET
    }

    pub fn decode_irq(irq_bits: u16) -> (irq: Option<Irq>)
        ensures
            irq == Self::irq_of(irq_bits),
    {
        if irq_bits == 0 {
            return None;
        }
        assert(irq_bits & 0xFF == irq_bits % 256 && (irq_bits >> 8) & 1 == irq_bits / 256 % 2 && (
        irq_bits >> 9) & 1 == irq_bits / 512 % 2) by (bit_vector);
        let priority = (irq_bits & 0xFF) as u8;
        let is_enabled = ((irq_bits >> 8) & 1) != 0;
        let is_pending = ((irq_bits >> 9) & 1) != 0;

        Some(Irq { priority, is_enabled, is_pending })
    }

    pub fn encode_value(irq_idx: u8, value_type: IrqValueType, value: u8) -> (word: u32)
        ensures
            word == Self::value_word(irq_idx, value_type, value),
    {
        let irq_idx = irq_idx as u32;
        let kind = value_type.code() as u32;
        let value = value as u32;
        assert((value << 16) | (kind << 8) | irq_idx == value * 0x1_0000 + kind * 0x100 + irq_idx)
            by (bit_vector)
            requires
                value < 256,
                kind < 256,
                irq_idx < 256,
        ;
        (value << 16) | (kind << 8) | irq_idx
    }

    /// The word that sets the priority of an interrupt.
    pub fn priority_word(irq_idx: u8, priority: u8) -> (word: u32)
        ensures
            word == Self::value_word(irq_idx, IrqValueType::Priority, priority),
    {
        Self::encode_value(irq_idx, IrqValueType::Priority, priority)
    }

    /// The word that enables or disables an interrupt.
    pub fn enabled_word(irq_idx: u8, enabled: bool) -> (word: u32)
        ensures
            word == Self::value_word(
                irq_idx,
                IrqValueType::IsEnabled,
                if enabled {
                    1
                } else {
                    0
                },
            ),
    {
        Self::encode_value(
            irq_idx,
            IrqValueType::IsEnabled,
            if enabled {
                1
            } else {
                0
            },
        )
    }

    /// The word that claims an interrupt.
    pub fn claim_word(irq_idx: u8) -> (word: u32)
        ensures
            word == Self::value_word(irq_idx, IrqValueType::Claim, 1),
    {
        Self::encode_value(irq_idx, IrqValueType::Claim, 1)
    }
}

impl Default for Plic {
    /// The controller at the address where the machine maps it.
    fn default() -> (plic: Self)
        ensures
            plic.mmio.base() == MMIO_ADDRESS,
    {
        Self { mmio: Mmio::new(MMIO_ADDRESS) }
    }
}

} // verus!
