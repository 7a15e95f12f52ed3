//! The health analyzer.
use crate::pci::PciDevice;
use vstd::prelude::*;
use vstd::std_specs::convert::FromSpecImpl;

verus! {

/// The device number under which the bus lists the health analyzer.
pub const DEVICE_ID: u16 = 0x6A;

/// The register that tells whether a disease was found.
pub const DISEASE_REGISTER: usize = 0x0;

/// Where the registers of the kinds of damage start.
pub const DAMAGE_OFFSET: usize = 0x10;

/// The health analyzer on the bus.
#[derive(Debug, Clone, Copy)]
pub struct HealthAnalyzer {
    pub device: PciDevice,
}

impl From<PciDevice> for HealthAnalyzer {
    fn from(device: PciDevice) -> (found: Self) {
        Self { device }
    }
}

impl FromSpecImpl<PciDevice> for HealthAnalyzer {
    open spec fn obeys_from_spec() -> bool {
        true
    }

    open spec fn from_spec(device: PciDevice) -> Self {
        Self { device }
    }
}

/// The kinds of damage that the analyzer measures.
#[derive(Debug, Clone, Copy, PartialEq, Eq, PartialOrd, Ord, Structural)]
pub enum DamageType {
    Asphyxiation,
    Bloodloss,
    Blunt,
    Cellular,
    Caustic,
    Cold,
    Heat,
    Piercing,
    Poison,
    Radiation,
    Shock,
    Slash,
}

impl DamageType {
    /// The number that stands for the value in a register.
    pub open spec fn spec_code(self) -> u8 {
        match self {
            DamageType::Asphyxiation => 0,
            DamageType::Bloodloss => 1,
            DamageType::Blunt => 2,
            DamageType::Cellular => 3,
            DamageType::Caustic => 4,
            DamageType::Cold => 5,
            DamageType::Heat => 6,
            DamageType::Piercing => 7,
            DamageType::Poison => 8,
            DamageType::Radiation => 9,
            DamageType::Shock => 10,
            DamageType::Slash => 11,
        }
    }

    /// The value that a number stands for; a number that stands for none is
    /// `Asphyxiation`.
    pub open spec fn decode(value: u8) -> Self {
        if value == 1 {
            DamageType::Bloodloss
        } else if value == 2 {
            DamageType::Blunt
        } else if value == 3 {
            DamageType::Cellular
        } else if value == 4 {
            DamageType::Caustic
        } else if value == 5 {
            DamageType::Cold
        } else if value == 6 {
            DamageType::Heat
        } else if value == 7 {
            DamageType::Piercing
        } else if value == 8 {
            DamageType::Poison
        } else if value == 9 {
            DamageType::Radiation
        } else if value == 10 {
            DamageType::Shock
        } else if value == 11 {
            DamageType::Slash
        } else {
            DamageType::Asphyxiation
        }
    }

    pub fn code(&self) -> (code: u8)
        ensures
            code == self.spec_code(),
    {
        match self {
            DamageType::Asphyxiation => 0,
            DamageType::Bloodloss => 1,
            DamageType::Blunt => 2,
            DamageType::Cellular => 3,
            DamageType::Caustic => 4,
            DamageType::Cold => 5,
            DamageType::Heat => 6,
            DamageType::Piercing => 7,
            DamageType::Poison => 8,
            DamageType::Radiation => 9,
            DamageType::Shock => 10,
            DamageType::Slash => 11,
        }
    }
}

impl From<u8> for DamageType {
    fn from(value: u8) -> (decoded: Self) {
        if value == 1 {
            DamageType::Bloodloss
        } else if value == 2 {
            DamageType::Blunt
        } else if value == 3 {
            DamageType::Cellular
        } else if value == 4 {
            DamageType::Caustic
        } else if value == 5 {
            DamageType::Cold
        } else if value == 6 {
            DamageType::Heat
        } else if value == 7 {
            DamageType::Piercing
        } else if value == 8 {
            DamageType::Poison
        } else if value == 9 {
            DamageType::Radiation
        } else if value == 10 {
            DamageType::Shock
        } else if value == 11 {
            DamageType::Slash
        } else {
            DamageType::Asphyxiation
        }
    }
}

impl FromSpecImpl<u8> for DamageType {
    open spec fn obeys_from_spec() -> bool {
        true
    }

    open spec fn from_spec(value: u8) -> Self {
        DamageType::decode(value)
    }
}


impl DamageType {
    /// The kind of damage with the given number, if there is one.
    pub open spec fn nth(index: u8) -> Option<DamageType> {
        if index <= 11 {
            Some(DamageType::decode(index))
        } else {
            None
        }
    }

    /// The offset of the register that holds the damage of this kind.
    pub fn offset(&self) -> (offset: usize)
        ensures
            offset == DAMAGE_OFFSET + self.spec_code(),
    {
        self.code() as usize + DAMAGE_OFFSET
    }
}

/// Hands out the kinds of damage in the order of their numbers.
#[derive(Debug, Clone, Copy)]
pub struct DamageTypeIterator {
    next: u8,
}

impl DamageTypeIterator {
    /// The number of the kind that comes next.
    pub closed spec fn position(&self) -> u8 {
        self.next
    }

    /// The next kind of damage, or `None` behind the last.
    pub fn next(&mut self) -> (item: Option<DamageType>)
        ensures
            item == DamageType::nth(old(self).position()),
            final(self).position() == if old(self).position() <= 11 {
                (old(self).position() + 1) as u8
            } else {
                old(self).position()
            },
    {
        if self.next > 11 {
            return None;
        }
        let item = DamageType::from(self.next);
        self.next = self.next + 1;
        Some(item)
    }
}

impl Default for DamageTypeIterator {
    /// A walk that starts at the first kind.
    fn default() -> (iter: Self)
        ensures
            iter.position() == 0,
    {
        Self { next: 0 }
    }
}

} // verus!
