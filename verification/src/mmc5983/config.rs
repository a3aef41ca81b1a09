use vstd::prelude::*;

verus! {

/// Continuous-mode measurement frequency in Hz (Internal control 2, bits 2:0).
#[derive(Clone, Copy, Debug, PartialEq, Eq, Structural)]
pub enum MagOdr {
    OdrOff,
    Odr1,
    Odr10,
    Odr20,
    Odr50,
    Odr100,
    Odr200,
    Odr1000,
}

impl MagOdr {
    /// The field value written to the register.
    pub open spec fn spec_bits(self) -> u8 {
        match self {
            MagOdr::OdrOff => 0b000,
            MagOdr::Odr1 => 0b001,
            MagOdr::Odr10 => 0b010,
            MagOdr::Odr20 => 0b011,
            MagOdr::Odr50 => 0b100,
            MagOdr::Odr100 => 0b101,
            MagOdr::Odr200 => 0b110,
            MagOdr::Odr1000 => 0b111,
        }
    }

    /// The field value written to the register.
    #[verifier::when_used_as_spec(spec_bits)]
    pub fn bits(self) -> (b: u8)
        ensures
            b == self.spec_bits(),
    {
        match self {
            MagOdr::OdrOff => 0b000,
            MagOdr::Odr1 => 0b001,
            MagOdr::Odr10 => 0b010,
            MagOdr::Odr20 => 0b011,
            MagOdr::Odr50 => 0b100,
            MagOdr::Odr100 => 0b101,
            MagOdr::Odr200 => 0b110,
            MagOdr::Odr1000 => 0b111,
        }
    }

    /// The register code of every setting, as the datasheet gives it.
    pub proof fn lemma_field_codes()
        ensures
            MagOdr::OdrOff.spec_bits() == 0b000,
            MagOdr::Odr1.spec_bits() == 0b001,
            MagOdr::Odr10.spec_bits() == 0b010,
            MagOdr::Odr20.spec_bits() == 0b011,
            MagOdr::Odr50.spec_bits() == 0b100,
            MagOdr::Odr100.spec_bits() == 0b101,
            MagOdr::Odr200.spec_bits() == 0b110,
            MagOdr::Odr1000.spec_bits() == 0b111,
    {
    }

    /// Distinct settings write distinct codes.
    pub proof fn lemma_field_codes_distinct(a: Self, b: Self)
        ensures
            a.spec_bits() == b.spec_bits() ==> a == b,
    {
    }
}

/// Measurement bandwidth in Hz (Internal control 1, bits 1:0).
#[derive(Clone, Copy, Debug, PartialEq, Eq, Structural)]
pub enum MagBw {
    Bw100,
    Bw200,
    Bw400,
    Bw800,
}

impl MagBw {
    /// The field value written to the register.
    pub open spec fn spec_bits(self) -> u8 {
        match self {
            MagBw::Bw100 => 0b00,
            MagBw::Bw200 => 0b01,
            MagBw::Bw400 => 0b10,
            MagBw::Bw800 => 0b11,
        }
    }

    /// The field value written to the register.
    #[verifier::when_used_as_spec(spec_bits)]
    pub fn bits(self) -> (b: u8)
        ensures
            b == self.spec_bits(),
    {
        match self {
            MagBw::Bw100 => 0b00,
            MagBw::Bw200 => 0b01,
            MagBw::Bw400 => 0b10,
            MagBw::Bw800 => 0b11,
        }
    }

    /// The register code of every setting, as the datasheet gives it.
    pub proof fn lemma_field_codes()
        ensures
            MagBw::Bw100.spec_bits() == 0b00,
            MagBw::Bw200.spec_bits() == 0b01,
            MagBw::Bw400.spec_bits() == 0b10,
            MagBw::Bw800.spec_bits() == 0b11,
    {
    }

    /// Distinct settings write distinct codes.
    pub proof fn lemma_field_codes_distinct(a: Self, b: Self)
        ensures
            a.spec_bits() == b.spec_bits() ==> a == b,
    {
    }
}

/// Measurements between periodic set operations (Internal control 2, bits 6:4).
#[derive(Clone, Copy, Debug, PartialEq, Eq, Structural)]
pub enum MagAutoSetReset {
    Sr1,
    Sr25,
    Sr75,
    Sr100,
    Sr250,
    Sr500,
    Sr1000,
    Sr2000,
}

impl MagAutoSetReset {
    /// The field value written to the register.
    pub open spec fn spec_bits(self) -> u8 {
        match self {
            MagAutoSetReset::Sr1 => 0b000,
            MagAutoSetReset::Sr25 => 0b001,
            MagAutoSetReset::Sr75 => 0b010,
            MagAutoSetReset::Sr100 => 0b011,
            MagAutoSetReset::Sr250 => 0b100,
            MagAutoSetReset::Sr500 => 0b101,
            MagAutoSetReset::Sr1000 => 0b110,
            MagAutoSetReset::Sr2000 => 0b111,
        }
    }

    /// The field value written to the register.
    #[verifier::when_used_as_spec(spec_bits)]
    pub fn bits(self) -> (b: u8)
        ensures
            b == self.spec_bits(),
    {
        match self {
            MagAutoSetReset::Sr1 => 0b000,
            MagAutoSetReset::Sr25 => 0b001,
            MagAutoSetReset::Sr75 => 0b010,
            MagAutoSetReset::Sr100 => 0b011,
            MagAutoSetReset::Sr250 => 0b100,
            MagAutoSetReset::Sr500 => 0b101,
            MagAutoSetReset::Sr1000 => 0b110,
            MagAutoSetReset::Sr2000 => 0b111,
        }
    }

    /// The register code of every setting, as the datasheet gives it.
    pub proof fn lemma_field_codes()
        ensures
            MagAutoSetReset::Sr1.spec_bits() == 0b000,
            MagAutoSetReset::Sr25.spec_bits() == 0b001,
            MagAutoSetReset::Sr75.spec_bits() == 0b010,
            MagAutoSetReset::Sr100.spec_bits() == 0b011,
            MagAutoSetReset::Sr250.spec_bits() == 0b100,
            MagAutoSetReset::Sr500.spec_bits() == 0b101,
            MagAutoSetReset::Sr1000.spec_bits() == 0b110,
            MagAutoSetReset::Sr2000.spec_bits() == 0b111,
    {
    }

    /// Distinct settings write distinct codes.
    pub proof fn lemma_field_codes_distinct(a: Self, b: Self)
        ensures
            a.spec_bits() == b.spec_bits() ==> a == b,
    {
    }
}

} // verus!
