use vstd::prelude::*;

verus! {

/// Which readings the barometer compensates (DSP_CONFIG, bits 1:0).
#[derive(Clone, Copy, Debug, PartialEq, Eq, Structural)]
pub enum CompensationConfig {
    /// No compensation.
    Disabled,
    Temp,
    Press,
    Both,
}

impl CompensationConfig {
    /// The field value written to the register.
    pub open spec fn spec_bits(self) -> u8 {
        match self {
            CompensationConfig::Disabled => 0b00,
            CompensationConfig::Temp => 0b01,
            CompensationConfig::Press => 0b10,
            CompensationConfig::Both => 0b11,
        }
    }

    /// The field value written to the register.
    #[verifier::when_used_as_spec(spec_bits)]
    pub fn bits(self) -> (b: u8)
        ensures
            b == self.spec_bits(),
    {
        match self {
            CompensationConfig::Disabled => 0b00,
            CompensationConfig::Temp => 0b01,
            CompensationConfig::Press => 0b10,
            CompensationConfig::Both => 0b11,
        }
    }

    /// The register code of every setting, as the datasheet gives it.
    pub proof fn lemma_field_codes()
        ensures
            CompensationConfig::Disabled.spec_bits() == 0b00,
            CompensationConfig::Temp.spec_bits() == 0b01,
            CompensationConfig::Press.spec_bits() == 0b10,
            CompensationConfig::Both.spec_bits() == 0b11,
    {
    }

    /// Distinct settings write distinct codes.
    pub proof fn lemma_field_codes_distinct(a: Self, b: Self)
        ensures
            a.spec_bits() == b.spec_bits() ==> a == b,
    {
    }
}

/// IIR filter coefficient for temperature (DSP_IIR, bits 2:0).
#[derive(Clone, Copy, Debug, PartialEq, Eq, Structural)]
pub enum TempIirConfig {
    Bypass,
    Coeff1,
    Coeff3,
    Coeff7,
    Coeff15,
    Coeff31,
    Coeff63,
    Coeff127,
}

impl TempIirConfig {
    /// The field value written to the register.
    pub open spec fn spec_bits(self) -> u8 {
        match self {
            TempIirConfig::Bypass => 0b000,
            TempIirConfig::Coeff1 => 0b001,
            TempIirConfig::Coeff3 => 0b010,
            TempIirConfig::Coeff7 => 0b011,
            TempIirConfig::Coeff15 => 0b100,
            TempIirConfig::Coeff31 => 0b101,
            TempIirConfig::Coeff63 => 0b110,
            TempIirConfig::Coeff127 => 0b111,
        }
    }

    /// The field value written to the register.
    #[verifier::when_used_as_spec(spec_bits)]
    pub fn bits(self) -> (b: u8)
        ensures
            b == self.spec_bits(),
    {
        match self {
            TempIirConfig::Bypass => 0b000,
            TempIirConfig::Coeff1 => 0b001,
            TempIirConfig::Coeff3 => 0b010,
            TempIirConfig::Coeff7 => 0b011,
            TempIirConfig::Coeff15 => 0b100,
            TempIirConfig::Coeff31 => 0b101,
            TempIirConfig::Coeff63 => 0b110,
            TempIirConfig::Coeff127 => 0b111,
        }
    }

    /// The register code of every setting, as the datasheet gives it.
    pub proof fn lemma_field_codes()
        ensures
            TempIirConfig::Bypass.spec_bits() == 0b000,
            TempIirConfig::Coeff1.spec_bits() == 0b001,
            TempIirConfig::Coeff3.spec_bits() == 0b010,
            TempIirConfig::Coeff7.spec_bits() == 0b011,
            TempIirConfig::Coeff15.spec_bits() == 0b100,
            TempIirConfig::Coeff31.spec_bits() == 0b101,
            TempIirConfig::Coeff63.spec_bits() == 0b110,
            TempIirConfig::Coeff127.spec_bits() == 0b111,
    {
    }

    /// Distinct settings write distinct codes.
    pub proof fn lemma_field_codes_distinct(a: Self, b: Self)
        ensures
            a.spec_bits() == b.spec_bits() ==> a == b,
    {
    }
}

/// IIR filter coefficient for pressure (DSP_IIR, bits 5:3).
#[derive(Clone, Copy, Debug, PartialEq, Eq, Structural)]
pub enum PressIirConfig {
    Bypass,
    Coeff1,
    Coeff3,
    Coeff7,
    Coeff15,
    Coeff31,
    Coeff63,
    Coeff127,
}

impl PressIirConfig {
    /// The field value written to the register.
    pub open spec fn spec_bits(self) -> u8 {
        match self {
            PressIirConfig::Bypass => 0b000,
            PressIirConfig::Coeff1 => 0b001,
            PressIirConfig::Coeff3 => 0b010,
            PressIirConfig::Coeff7 => 0b011,
            PressIirConfig::Coeff15 => 0b100,
            PressIirConfig::Coeff31 => 0b101,
            PressIirConfig::Coeff63 => 0b110,
            PressIirConfig::Coeff127 => 0b111,
        }
    }

    /// The field value written to the register.
    #[verifier::when_used_as_spec(spec_bits)]
    pub fn bits(self) -> (b: u8)
        ensures
            b == self.spec_bits(),
    {
        match self {
            PressIirConfig::Bypass => 0b000,
            PressIirConfig::Coeff1 => 0b001,
            PressIirConfig::Coeff3 => 0b010,
            PressIirConfig::Coeff7 => 0b011,
            PressIirConfig::Coeff15 => 0b100,
            PressIirConfig::Coeff31 => 0b101,
            PressIirConfig::Coeff63 => 0b110,
            PressIirConfig::Coeff127 => 0b111,
        }
    }

    /// The register code of every setting, as the datasheet gives it.
    pub proof fn lemma_field_codes()
        ensures
            PressIirConfig::Bypass.spec_bits() == 0b000,
            PressIirConfig::Coeff1.spec_bits() == 0b001,
            PressIirConfig::Coeff3.spec_bits() == 0b010,
            PressIirConfig::Coeff7.spec_bits() == 0b011,
            PressIirConfig::Coeff15.spec_bits() == 0b100,
            PressIirConfig::Coeff31.spec_bits() == 0b101,
            PressIirConfig::Coeff63.spec_bits() == 0b110,
            PressIirConfig::Coeff127.spec_bits() == 0b111,
    {
    }

    /// Distinct settings write distinct codes.
    pub proof fn lemma_field_codes_distinct(a: Self, b: Self)
        ensures
            a.spec_bits() == b.spec_bits() ==> a == b,
    {
    }
}

/// Pressure oversampling rate (OSR_CONFIG, bits 5:3).
#[derive(Clone, Copy, Debug, PartialEq, Eq, Structural)]
pub enum PressOsrConfig {
    Osr1,
    Osr2,
    Osr4,
    Osr8,
    Osr16,
    Osr32,
    Osr64,
    Osr128,
}

impl PressOsrConfig {
    /// The field value written to the register.
    pub open spec fn spec_bits(self) -> u8 {
        match self {
            PressOsrConfig::Osr1 => 0b000,
            PressOsrConfig::Osr2 => 0b001,
            PressOsrConfig::Osr4 => 0b010,
            PressOsrConfig::Osr8 => 0b011,
            PressOsrConfig::Osr16 => 0b100,
            PressOsrConfig::Osr32 => 0b101,
            PressOsrConfig::Osr64 => 0b110,
            PressOsrConfig::Osr128 => 0b111,
        }
    }

    /// The field value written to the register.
    #[verifier::when_used_as_spec(spec_bits)]
    pub fn bits(self) -> (b: u8)
        ensures
            b == self.spec_bits(),
    {
        match self {
            PressOsrConfig::Osr1 => 0b000,
            PressOsrConfig::Osr2 => 0b001,
            PressOsrConfig::Osr4 => 0b010,
            PressOsrConfig::Osr8 => 0b011,
            PressOsrConfig::Osr16 => 0b100,
            PressOsrConfig::Osr32 => 0b101,
            PressOsrConfig::Osr64 => 0b110,
            PressOsrConfig::Osr128 => 0b111,
        }
    }

    /// The setting named by the 3-bit field value `b` (its low 3 bits).
    pub open spec fn spec_from_bits(b: u8) -> Self {
        let f = b % 8;
        if f == 0 {
            PressOsrConfig::Osr1
        } else if f == 1 {
            PressOsrConfig::Osr2
        } else if f == 2 {
            PressOsrConfig::Osr4
        } else if f == 3 {
            PressOsrConfig::Osr8
        } else if f == 4 {
            PressOsrConfig::Osr16
        } else if f == 5 {
            PressOsrConfig::Osr32
        } else if f == 6 {
            PressOsrConfig::Osr64
        } else {
            PressOsrConfig::Osr128
        }
    }

    /// The setting named by the 3-bit field value `b`; every value names one.
    pub fn from_bits(b: u8) -> (r: Self)
        requires
            b < 8,
        ensures
            r == Self::spec_from_bits(b),
            r.spec_bits() == b,
    {
        if b == 0 {
            PressOsrConfig::Osr1
        } else if b == 1 {
            PressOsrConfig::Osr2
        } else if b == 2 {
            PressOsrConfig::Osr4
        } else if b == 3 {
            PressOsrConfig::Osr8
        } else if b == 4 {
            PressOsrConfig::Osr16
        } else if b == 5 {
            PressOsrConfig::Osr32
        } else if b == 6 {
            PressOsrConfig::Osr64
        } else {
            PressOsrConfig::Osr128
        }
    }

    /// Decoding the field value of a setting gives the setting back.
    pub proof fn lemma_decode_encode(x: Self)
        ensures
            Self::spec_from_bits(x.spec_bits()) == x,
    {
    }

    /// Encoding the setting that a field value names gives the low 3 bits of that value back.
    pub proof fn lemma_encode_decode(b: u8)
        ensures
            Self::spec_from_bits(b).spec_bits() == b % 8,
    {
    }

    /// The register code of every setting, as the datasheet gives it.
    pub proof fn lemma_field_codes()
        ensures
            PressOsrConfig::Osr1.spec_bits() == 0b000,
            PressOsrConfig::Osr2.spec_bits() == 0b001,
            PressOsrConfig::Osr4.spec_bits() == 0b010,
            PressOsrConfig::Osr8.spec_bits() == 0b011,
            PressOsrConfig::Osr16.spec_bits() == 0b100,
            PressOsrConfig::Osr32.spec_bits() == 0b101,
            PressOsrConfig::Osr64.spec_bits() == 0b110,
            PressOsrConfig::Osr128.spec_bits() == 0b111,
    {
    }

    /// Distinct settings write distinct codes.
    pub proof fn lemma_field_codes_distinct(a: Self, b: Self)
        ensures
            a.spec_bits() == b.spec_bits() ==> a == b,
    {
    }
}

/// Temperature oversampling rate (OSR_CONFIG, bits 2:0).
#[derive(Clone, Copy, Debug, PartialEq, Eq, Structural)]
pub enum TempOsrConfig {
    Osr1,
    Osr2,
    Osr4,
    Osr8,
    Osr16,
    Osr32,
    Osr64,
    Osr128,
}

impl TempOsrConfig {
    /// The field value written to the register.
    pub open spec fn spec_bits(self) -> u8 {
        match self {
            TempOsrConfig::Osr1 => 0b000,
            TempOsrConfig::Osr2 => 0b001,
            TempOsrConfig::Osr4 => 0b010,
            TempOsrConfig::Osr8 => 0b011,
            TempOsrConfig::Osr16 => 0b100,
            TempOsrConfig::Osr32 => 0b101,
            TempOsrConfig::Osr64 => 0b110,
            TempOsrConfig::Osr128 => 0b111,
        }
    }

    /// The field value written to the register.
    #[verifier::when_used_as_spec(spec_bits)]
    pub fn bits(self) -> (b: u8)
        ensures
            b == self.spec_bits(),
    {
        match self {
            TempOsrConfig::Osr1 => 0b000,
            TempOsrConfig::Osr2 => 0b001,
            TempOsrConfig::Osr4 => 0b010,
            TempOsrConfig::Osr8 => 0b011,
            TempOsrConfig::Osr16 => 0b100,
            TempOsrConfig::Osr32 => 0b101,
            TempOsrConfig::Osr64 => 0b110,
            TempOsrConfig::Osr128 => 0b111,
        }
    }

    /// The setting named by the 3-bit field value `b` (its low 3 bits).
    pub open spec fn spec_from_bits(b: u8) -> Self {
        let f = b % 8;
        if f == 0 {
            TempOsrConfig::Osr1
        } else if f == 1 {
            TempOsrConfig::Osr2
        } else if f == 2 {
            TempOsrConfig::Osr4
        } else if f == 3 {
            TempOsrConfig::Osr8
        } else if f == 4 {
            TempOsrConfig::Osr16
        } else if f == 5 {
            TempOsrConfig::Osr32
        } else if f == 6 {
            TempOsrConfig::Osr64
        } else {
            TempOsrConfig::Osr128
        }
    }

    /// The setting named by the 3-bit field value `b`; every value names one.
    pub fn from_bits(b: u8) -> (r: Self)
        requires
            b < 8,
        ensures
            r == Self::spec_from_bits(b),
            r.spec_bits() == b,
    {
        if b == 0 {
            TempOsrConfig::Osr1
        } else if b == 1 {
            TempOsrConfig::Osr2
        } else if b == 2 {
            TempOsrConfig::Osr4
        } else if b == 3 {
            TempOsrConfig::Osr8
        } else if b == 4 {
            TempOsrConfig::Osr16
        } else if b == 5 {
            TempOsrConfig::Osr32
        } else if b == 6 {
            TempOsrConfig::Osr64
        } else {
            TempOsrConfig::Osr128
        }
    }

    /// Decoding the field value of a setting gives the setting back.
    pub proof fn lemma_decode_encode(x: Self)
        ensures
            Self::spec_from_bits(x.spec_bits()) == x,
    {
    }

    /// Encoding the setting that a field value names gives the low 3 bits of that value back.
    pub proof fn lemma_encode_decode(b: u8)
        ensures
            Self::spec_from_bits(b).spec_bits() == b % 8,
    {
    }

    /// The register code of every setting, as the datasheet gives it.
    pub proof fn lemma_field_codes()
        ensures
            TempOsrConfig::Osr1.spec_bits() == 0b000,
            TempOsrConfig::Osr2.spec_bits() == 0b001,
            TempOsrConfig::Osr4.spec_bits() == 0b010,
            TempOsrConfig::Osr8.spec_bits() == 0b011,
            TempOsrConfig::Osr16.spec_bits() == 0b100,
            TempOsrConfig::Osr32.spec_bits() == 0b101,
            TempOsrConfig::Osr64.spec_bits() == 0b110,
            TempOsrConfig::Osr128.spec_bits() == 0b111,
    {
    }

    /// Distinct settings write distinct codes.
    pub proof fn lemma_field_codes_distinct(a: Self, b: Self)
        ensures
            a.spec_bits() == b.spec_bits() ==> a == b,
    {
    }
}

/// Output data rate in Hz (ODR_CONFIG, bits 6:2).
#[derive(Clone, Copy, Debug, PartialEq, Eq, Structural)]
pub enum OdrConfig {
    Odr240,
    Odr218_5,
    Odr199_1,
    Odr179_2,
    Odr160,
    Odr149_3,
    Odr140,
    Odr129_9,
    Odr120,
    Odr110_2,
    Odr100_3,
    Odr89_6,
    Odr80,
    Odr70,
    Odr60,
    Odr50_1,
    Odr45,
    Odr40,
    Odr35,
    Odr30,
    Odr25,
    Odr20,
    Odr15,
    Odr10,
    Odr5,
    Odr4,
    Odr3,
    Odr2,
    Odr1,
    Odr0_5,
    Odr0_25,
    Odr0_125,
}

impl OdrConfig {
    /// The field value written to the register.
    pub open spec fn spec_bits(self) -> u8 {
        match self {
            OdrConfig::Odr240 => 0x00,
            OdrConfig::Odr218_5 => 0x01,
            OdrConfig::Odr199_1 => 0x02,
            OdrConfig::Odr179_2 => 0x03,
            OdrConfig::Odr160 => 0x04,
            OdrConfig::Odr149_3 => 0x05,
            OdrConfig::Odr140 => 0x06,
            OdrConfig::Odr129_9 => 0x07,
            OdrConfig::Odr120 => 0x08,
            OdrConfig::Odr110_2 => 0x09,
            OdrConfig::Odr100_3 => 0x0A,
            OdrConfig::Odr89_6 => 0x0B,
            OdrConfig::Odr80 => 0x0C,
            OdrConfig::Odr70 => 0x0D,
            OdrConfig::Odr60 => 0x0E,
            OdrConfig::Odr50_1 => 0x0F,
            OdrConfig::Odr45 => 0x10,
            OdrConfig::Odr40 => 0x11,
            OdrConfig::Odr35 => 0x12,
            OdrConfig::Odr30 => 0x13,
            OdrConfig::Odr25 => 0x14,
            OdrConfig::Odr20 => 0x15,
            OdrConfig::Odr15 => 0x16,
            OdrConfig::Odr10 => 0x17,
            OdrConfig::Odr5 => 0x18,
            OdrConfig::Odr4 => 0x19,
            OdrConfig::Odr3 => 0x1A,
            OdrConfig::Odr2 => 0x1B,
            OdrConfig::Odr1 => 0x1C,
            OdrConfig::Odr0_5 => 0x1D,
            OdrConfig::Odr0_25 => 0x1E,
            OdrConfig::Odr0_125 => 0x1F,
        }
    }

    /// The field value written to the register.
    #[verifier::when_used_as_spec(spec_bits)]
    pub fn bits(self) -> (b: u8)
        ensures
            b == self.spec_bits(),
    {
        match self {
            OdrConfig::Odr240 => 0x00,
            OdrConfig::Odr218_5 => 0x01,
            OdrConfig::Odr199_1 => 0x02,
            OdrConfig::Odr179_2 => 0x03,
            OdrConfig::Odr160 => 0x04,
            OdrConfig::Odr149_3 => 0x05,
            OdrConfig::Odr140 => 0x06,
            OdrConfig::Odr129_9 => 0x07,
            OdrConfig::Odr120 => 0x08,
            OdrConfig::Odr110_2 => 0x09,
            OdrConfig::Odr100_3 => 0x0A,
            OdrConfig::Odr89_6 => 0x0B,
            OdrConfig::Odr80 => 0x0C,
            OdrConfig::Odr70 => 0x0D,
            OdrConfig::Odr60 => 0x0E,
            OdrConfig::Odr50_1 => 0x0F,
            OdrConfig::Odr45 => 0x10,
            OdrConfig::Odr40 => 0x11,
            OdrConfig::Odr35 => 0x12,
            OdrConfig::Odr30 => 0x13,
            OdrConfig::Odr25 => 0x14,
            OdrConfig::Odr20 => 0x15,
            OdrConfig::Odr15 => 0x16,
            OdrConfig::Odr10 => 0x17,
            OdrConfig::Odr5 => 0x18,
            OdrConfig::Odr4 => 0x19,
            OdrConfig::Odr3 => 0x1A,
            OdrConfig::Odr2 => 0x1B,
            OdrConfig::Odr1 => 0x1C,
            OdrConfig::Odr0_5 => 0x1D,
            OdrConfig::Odr0_25 => 0x1E,
            OdrConfig::Odr0_125 => 0x1F,
        }
    }

    /// The register code of every setting, as the datasheet gives it.
    pub proof fn lemma_field_codes()
        ensures
            OdrConfig::Odr240.spec_bits() == 0x00,
            OdrConfig::Odr218_5.spec_bits() == 0x01,
            OdrConfig::Odr199_1.spec_bits() == 0x02,
            OdrConfig::Odr179_2.spec_bits() == 0x03,
            OdrConfig::Odr160.spec_bits() == 0x04,
            OdrConfig::Odr149_3.spec_bits() == 0x05,
            OdrConfig::Odr140.spec_bits() == 0x06,
            OdrConfig::Odr129_9.spec_bits() == 0x07,
            OdrConfig::Odr120.spec_bits() == 0x08,
            OdrConfig::Odr110_2.spec_bits() == 0x09,
            OdrConfig::Odr100_3.spec_bits() == 0x0A,
            OdrConfig::Odr89_6.spec_bits() == 0x0B,
            OdrConfig::Odr80.spec_bits() == 0x0C,
            OdrConfig::Odr70.spec_bits() == 0x0D,
            OdrConfig::Odr60.spec_bits() == 0x0E,
            OdrConfig::Odr50_1.spec_bits() == 0x0F,
            OdrConfig::Odr45.spec_bits() == 0x10,
            OdrConfig::Odr40.spec_bits() == 0x11,
            OdrConfig::Odr35.spec_bits() == 0x12,
            OdrConfig::Odr30.spec_bits() == 0x13,
            OdrConfig::Odr25.spec_bits() == 0x14,
            OdrConfig::Odr20.spec_bits() == 0x15,
            OdrConfig::Odr15.spec_bits() == 0x16,
            OdrConfig::Odr10.spec_bits() == 0x17,
            OdrConfig::Odr5.spec_bits() == 0x18,
            OdrConfig::Odr4.spec_bits() == 0x19,
            OdrConfig::Odr3.spec_bits() == 0x1A,
            OdrConfig::Odr2.spec_bits() == 0x1B,
            OdrConfig::Odr1.spec_bits() == 0x1C,
            OdrConfig::Odr0_5.spec_bits() == 0x1D,
            OdrConfig::Odr0_25.spec_bits() == 0x1E,
            OdrConfig::Odr0_125.spec_bits() == 0x1F,
    {
    }

    /// Distinct settings write distinct codes.
    pub proof fn lemma_field_codes_distinct(a: Self, b: Self)
        ensures
            a.spec_bits() == b.spec_bits() ==> a == b,
    {
    }
}

/// Power mode (ODR_CONFIG, bits 1:0).
#[derive(Clone, Copy, Debug, PartialEq, Eq, Structural)]
pub enum PowerConfig {
    Standby,
    Normal,
    Forced,
    Continuous,
}

impl PowerConfig {
    /// The field value written to the register.
    pub open spec fn spec_bits(self) -> u8 {
        match self {
            PowerConfig::Standby => 0b00,
            PowerConfig::Normal => 0b01,
            PowerConfig::Forced => 0b10,
            PowerConfig::Continuous => 0b11,
        }
    }

    /// The field value written to the register.
    #[verifier::when_used_as_spec(spec_bits)]
    pub fn bits(self) -> (b: u8)
        ensures
            b == self.spec_bits(),
    {
        match self {
            PowerConfig::Standby => 0b00,
            PowerConfig::Normal => 0b01,
            PowerConfig::Forced => 0b10,
            PowerConfig::Continuous => 0b11,
        }
    }

    /// The register code of every setting, as the datasheet gives it.
    pub proof fn lemma_field_codes()
        ensures
            PowerConfig::Standby.spec_bits() == 0b00,
            PowerConfig::Normal.spec_bits() == 0b01,
            PowerConfig::Forced.spec_bits() == 0b10,
            PowerConfig::Continuous.spec_bits() == 0b11,
    {
    }

    /// Distinct settings write distinct codes.
    pub proof fn lemma_field_codes_distinct(a: Self, b: Self)
        ensures
            a.spec_bits() == b.spec_bits() ==> a == b,
    {
    }
}

} // verus!
