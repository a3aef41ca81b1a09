use vstd::prelude::*;

verus! {

/// Configuration layers a UBX-CFG-VALSET message is applied to (bit 0 RAM, bit 1 battery-backed RAM, bit 2 flash).
#[derive(Clone, Copy, Debug, PartialEq, Eq, Structural)]
pub enum CfgStorage {
    Ram,
    Bbr,
    Flash,
    RamBbr,
    RamFlash,
    RamBbrFlash,
    BbrFlash,
}

impl CfgStorage {
    /// The layer mask written into the message.
    pub open spec fn spec_bits(self) -> u8 {
        match self {
            CfgStorage::Ram => 0b001,
            CfgStorage::Bbr => 0b010,
            CfgStorage::Flash => 0b100,
            CfgStorage::RamBbr => 0b011,
            CfgStorage::RamFlash => 0b101,
            CfgStorage::RamBbrFlash => 0b111,
            CfgStorage::BbrFlash => 0b110,
        }
    }

    /// The layer mask written into the message.
    #[verifier::when_used_as_spec(spec_bits)]
    pub fn bits(self) -> (b: u8)
        ensures
            b == self.spec_bits(),
    {
        match self {
            CfgStorage::Ram => 0b001,
            CfgStorage::Bbr => 0b010,
            CfgStorage::Flash => 0b100,
            CfgStorage::RamBbr => 0b011,
            CfgStorage::RamFlash => 0b101,
            CfgStorage::RamBbrFlash => 0b111,
            CfgStorage::BbrFlash => 0b110,
        }
    }

    /// The register code of every setting, as the datasheet gives it.
    pub proof fn lemma_field_codes()
        ensures
            CfgStorage::Ram.spec_bits() == 0b001,
            CfgStorage::Bbr.spec_bits() == 0b010,
            CfgStorage::Flash.spec_bits() == 0b100,
            CfgStorage::RamBbr.spec_bits() == 0b011,
            CfgStorage::RamFlash.spec_bits() == 0b101,
            CfgStorage::RamBbrFlash.spec_bits() == 0b111,
            CfgStorage::BbrFlash.spec_bits() == 0b110,
    {
    }

    /// Distinct settings write distinct codes.
    pub proof fn lemma_field_codes_distinct(a: Self, b: Self)
        ensures
            a.spec_bits() == b.spec_bits() ==> a == b,
    {
    }
}

/// Dynamic platform model of the navigation engine (CFG-NAVSPG-DYNMODEL).
#[derive(Clone, Copy, Debug, PartialEq, Eq, Structural)]
pub enum DynamicModel {
    Portable,
    Stationary,
    Pedestrian,
    Automotive,
    Sea,
    Air1g,
    Air2g,
    Air4g,
}

impl DynamicModel {
    /// The value written to the configuration key.
    pub open spec fn spec_bits(self) -> u8 {
        match self {
            DynamicModel::Portable => 0,
            DynamicModel::Stationary => 2,
            DynamicModel::Pedestrian => 3,
            DynamicModel::Automotive => 4,
            DynamicModel::Sea => 5,
            DynamicModel::Air1g => 6,
            DynamicModel::Air2g => 7,
            DynamicModel::Air4g => 8,
        }
    }

    /// The value written to the configuration key.
    #[verifier::when_used_as_spec(spec_bits)]
    pub fn bits(self) -> (b: u8)
        ensures
            b == self.spec_bits(),
    {
        match self {
            DynamicModel::Portable => 0,
            DynamicModel::Stationary => 2,
            DynamicModel::Pedestrian => 3,
            DynamicModel::Automotive => 4,
            DynamicModel::Sea => 5,
            DynamicModel::Air1g => 6,
            DynamicModel::Air2g => 7,
            DynamicModel::Air4g => 8,
        }
    }

    /// The register code of every setting, as the datasheet gives it.
    pub proof fn lemma_field_codes()
        ensures
            DynamicModel::Portable.spec_bits() == 0,
            DynamicModel::Stationary.spec_bits() == 2,
            DynamicModel::Pedestrian.spec_bits() == 3,
            DynamicModel::Automotive.spec_bits() == 4,
            DynamicModel::Sea.spec_bits() == 5,
            DynamicModel::Air1g.spec_bits() == 6,
            DynamicModel::Air2g.spec_bits() == 7,
            DynamicModel::Air4g.spec_bits() == 8,
    {
    }

    /// Distinct settings write distinct codes.
    pub proof fn lemma_field_codes_distinct(a: Self, b: Self)
        ensures
            a.spec_bits() == b.spec_bits() ==> a == b,
    {
    }
}

} // verus!
