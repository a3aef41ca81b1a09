use vstd::prelude::*;

verus! {

/// Gyroscope output data rate in Hz (GYRO_CONFIG0, bits 3:0).
#[derive(Clone, Copy, Debug, PartialEq, Eq, Structural)]
pub enum GyroOdr {
    Odr6400,
    Odr3200,
    Odr1600,
    Odr800,
    Odr400,
    Odr200,
    Odr100,
    Odr50,
    Odr25,
    Odr12_5,
    Odr6_25,
    Odr3_125,
    Odr1_5625,
}

impl GyroOdr {
    /// The field value written to the register.
    pub open spec fn spec_bits(self) -> u8 {
        match self {
            GyroOdr::Odr6400 => 0b0011,
            GyroOdr::Odr3200 => 0b0100,
            GyroOdr::Odr1600 => 0b0101,
            GyroOdr::Odr800 => 0b0110,
            GyroOdr::Odr400 => 0b0111,
            GyroOdr::Odr200 => 0b1000,
            GyroOdr::Odr100 => 0b1001,
            GyroOdr::Odr50 => 0b1010,
            GyroOdr::Odr25 => 0b1011,
            GyroOdr::Odr12_5 => 0b1100,
            GyroOdr::Odr6_25 => 0b1101,
            GyroOdr::Odr3_125 => 0b1110,
            GyroOdr::Odr1_5625 => 0b1111,
        }
    }

    /// The field value written to the register.
    #[verifier::when_used_as_spec(spec_bits)]
    pub fn bits(self) -> (b: u8)
        ensures
            b == self.spec_bits(),
    {
        match self {
            GyroOdr::Odr6400 => 0b0011,
            GyroOdr::Odr3200 => 0b0100,
            GyroOdr::Odr1600 => 0b0101,
            GyroOdr::Odr800 => 0b0110,
            GyroOdr::Odr400 => 0b0111,
            GyroOdr::Odr200 => 0b1000,
            GyroOdr::Odr100 => 0b1001,
            GyroOdr::Odr50 => 0b1010,
            GyroOdr::Odr25 => 0b1011,
            GyroOdr::Odr12_5 => 0b1100,
            GyroOdr::Odr6_25 => 0b1101,
            GyroOdr::Odr3_125 => 0b1110,
            GyroOdr::Odr1_5625 => 0b1111,
        }
    }

    /// The register code of every setting, as the datasheet gives it.
    pub proof fn lemma_field_codes()
        ensures
            GyroOdr::Odr6400.spec_bits() == 0b0011,
            GyroOdr::Odr3200.spec_bits() == 0b0100,
            GyroOdr::Odr1600.spec_bits() == 0b0101,
            GyroOdr::Odr800.spec_bits() == 0b0110,
            GyroOdr::Odr400.spec_bits() == 0b0111,
            GyroOdr::Odr200.spec_bits() == 0b1000,
            GyroOdr::Odr100.spec_bits() == 0b1001,
            GyroOdr::Odr50.spec_bits() == 0b1010,
            GyroOdr::Odr25.spec_bits() == 0b1011,
            GyroOdr::Odr12_5.spec_bits() == 0b1100,
            GyroOdr::Odr6_25.spec_bits() == 0b1101,
            GyroOdr::Odr3_125.spec_bits() == 0b1110,
            GyroOdr::Odr1_5625.spec_bits() == 0b1111,
    {
    }

    /// Distinct settings write distinct codes.
    pub proof fn lemma_field_codes_distinct(a: Self, b: Self)
        ensures
            a.spec_bits() == b.spec_bits() ==> a == b,
    {
    }
}

/// Accelerometer output data rate in Hz (ACCEL_CONFIG0, bits 3:0).
#[derive(Clone, Copy, Debug, PartialEq, Eq, Structural)]
pub enum AccelOdr {
    Odr6400,
    Odr3200,
    Odr1600,
    Odr800,
    Odr400,
    Odr200,
    Odr100,
    Odr50,
    Odr25,
    Odr12_5,
    Odr6_25,
    Odr3_125,
    Odr1_5625,
}

impl AccelOdr {
    /// The field value written to the register.
    pub open spec fn spec_bits(self) -> u8 {
        match self {
            AccelOdr::Odr6400 => 0b0011,
            AccelOdr::Odr3200 => 0b0100,
            AccelOdr::Odr1600 => 0b0101,
            AccelOdr::Odr800 => 0b0110,
            AccelOdr::Odr400 => 0b0111,
            AccelOdr::Odr200 => 0b1000,
            AccelOdr::Odr100 => 0b1001,
            AccelOdr::Odr50 => 0b1010,
            AccelOdr::Odr25 => 0b1011,
            AccelOdr::Odr12_5 => 0b1100,
            AccelOdr::Odr6_25 => 0b1101,
            AccelOdr::Odr3_125 => 0b1110,
            AccelOdr::Odr1_5625 => 0b1111,
        }
    }

    /// The field value written to the register.
    #[verifier::when_used_as_spec(spec_bits)]
    pub fn bits(self) -> (b: u8)
        ensures
            b == self.spec_bits(),
    {
        match self {
            AccelOdr::Odr6400 => 0b0011,
            AccelOdr::Odr3200 => 0b0100,
            AccelOdr::Odr1600 => 0b0101,
            AccelOdr::Odr800 => 0b0110,
            AccelOdr::Odr400 => 0b0111,
            AccelOdr::Odr200 => 0b1000,
            AccelOdr::Odr100 => 0b1001,
            AccelOdr::Odr50 => 0b1010,
            AccelOdr::Odr25 => 0b1011,
            AccelOdr::Odr12_5 => 0b1100,
            AccelOdr::Odr6_25 => 0b1101,
            AccelOdr::Odr3_125 => 0b1110,
            AccelOdr::Odr1_5625 => 0b1111,
        }
    }

    /// The register code of every setting, as the datasheet gives it.
    pub proof fn lemma_field_codes()
        ensures
            AccelOdr::Odr6400.spec_bits() == 0b0011,
            AccelOdr::Odr3200.spec_bits() == 0b0100,
            AccelOdr::Odr1600.spec_bits() == 0b0101,
            AccelOdr::Odr800.spec_bits() == 0b0110,
            AccelOdr::Odr400.spec_bits() == 0b0111,
            AccelOdr::Odr200.spec_bits() == 0b1000,
            AccelOdr::Odr100.spec_bits() == 0b1001,
            AccelOdr::Odr50.spec_bits() == 0b1010,
            AccelOdr::Odr25.spec_bits() == 0b1011,
            AccelOdr::Odr12_5.spec_bits() == 0b1100,
            AccelOdr::Odr6_25.spec_bits() == 0b1101,
            AccelOdr::Odr3_125.spec_bits() == 0b1110,
            AccelOdr::Odr1_5625.spec_bits() == 0b1111,
    {
    }

    /// Distinct settings write distinct codes.
    pub proof fn lemma_field_codes_distinct(a: Self, b: Self)
        ensures
            a.spec_bits() == b.spec_bits() ==> a == b,
    {
    }
}

/// Gyroscope full-scale range in degrees per second (GYRO_CONFIG0, bits 7:4).
#[derive(Clone, Copy, Debug, PartialEq, Eq, Structural)]
pub enum GyroRange {
    /// 8.192 LSB/dps
    Range4000,
    /// 16.384 LSB/dps
    Range2000,
    /// 32.768 LSB/dps
    Range1000,
    /// 65.536 LSB/dps
    Range500,
    /// 131.072 LSB/dps
    Range250,
    /// 262.144 LSB/dps
    Range125,
    /// 524.288 LSB/dps
    Range62_5,
    /// 1048.576 LSB/dps
    Range31_25,
    /// 2097.152 LSB/dps
    Range15_625,
}

impl GyroRange {
    /// The field value written to the register.
    pub open spec fn spec_bits(self) -> u8 {
        match self {
            GyroRange::Range4000 => 0b0000,
            GyroRange::Range2000 => 0b0001,
            GyroRange::Range1000 => 0b0010,
            GyroRange::Range500 => 0b0011,
            GyroRange::Range250 => 0b0100,
            GyroRange::Range125 => 0b0101,
            GyroRange::Range62_5 => 0b0110,
            GyroRange::Range31_25 => 0b0111,
            GyroRange::Range15_625 => 0b1000,
        }
    }

    /// The field value written to the register.
    #[verifier::when_used_as_spec(spec_bits)]
    pub fn bits(self) -> (b: u8)
        ensures
            b == self.spec_bits(),
    {
        match self {
            GyroRange::Range4000 => 0b0000,
            GyroRange::Range2000 => 0b0001,
            GyroRange::Range1000 => 0b0010,
            GyroRange::Range500 => 0b0011,
            GyroRange::Range250 => 0b0100,
            GyroRange::Range125 => 0b0101,
            GyroRange::Range62_5 => 0b0110,
            GyroRange::Range31_25 => 0b0111,
            GyroRange::Range15_625 => 0b1000,
        }
    }

    /// The register code of every setting, as the datasheet gives it.
    pub proof fn lemma_field_codes()
        ensures
            GyroRange::Range4000.spec_bits() == 0b0000,
            GyroRange::Range2000.spec_bits() == 0b0001,
            GyroRange::Range1000.spec_bits() == 0b0010,
            GyroRange::Range500.spec_bits() == 0b0011,
            GyroRange::Range250.spec_bits() == 0b0100,
            GyroRange::Range125.spec_bits() == 0b0101,
            GyroRange::Range62_5.spec_bits() == 0b0110,
            GyroRange::Range31_25.spec_bits() == 0b0111,
            GyroRange::Range15_625.spec_bits() == 0b1000,
    {
    }

    /// Distinct settings write distinct codes.
    pub proof fn lemma_field_codes_distinct(a: Self, b: Self)
        ensures
            a.spec_bits() == b.spec_bits() ==> a == b,
    {
    }
}

/// Accelerometer full-scale range in g (ACCEL_CONFIG0, bits 6:4).
#[derive(Clone, Copy, Debug, PartialEq, Eq, Structural)]
pub enum AccelRange {
    /// 1024 LSB/g
    Range32,
    /// 2048 LSB/g
    Range16,
    /// 4096 LSB/g
    Range8,
    /// 8192 LSB/g
    Range4,
    /// 16384 LSB/g
    Range2,
}

impl AccelRange {
    /// The field value written to the register.
    pub open spec fn spec_bits(self) -> u8 {
        match self {
            AccelRange::Range32 => 0b000,
            AccelRange::Range16 => 0b001,
            AccelRange::Range8 => 0b010,
            AccelRange::Range4 => 0b011,
            AccelRange::Range2 => 0b100,
        }
    }

    /// The field value written to the register.
    #[verifier::when_used_as_spec(spec_bits)]
    pub fn bits(self) -> (b: u8)
        ensures
            b == self.spec_bits(),
    {
        match self {
            AccelRange::Range32 => 0b000,
            AccelRange::Range16 => 0b001,
            AccelRange::Range8 => 0b010,
            AccelRange::Range4 => 0b011,
            AccelRange::Range2 => 0b100,
        }
    }

    /// The register code of every setting, as the datasheet gives it.
    pub proof fn lemma_field_codes()
        ensures
            AccelRange::Range32.spec_bits() == 0b000,
            AccelRange::Range16.spec_bits() == 0b001,
            AccelRange::Range8.spec_bits() == 0b010,
            AccelRange::Range4.spec_bits() == 0b011,
            AccelRange::Range2.spec_bits() == 0b100,
    {
    }

    /// Distinct settings write distinct codes.
    pub proof fn lemma_field_codes_distinct(a: Self, b: Self)
        ensures
            a.spec_bits() == b.spec_bits() ==> a == b,
    {
    }
}

/// Gyroscope power mode (PWR_MGMT0, bits 3:2).
#[derive(Clone, Copy, Debug, PartialEq, Eq, Structural)]
pub enum GyroMode {
    Off,
    Standby,
    LowPower,
    LowNoise,
}

impl GyroMode {
    /// The field value written to the register.
    pub open spec fn spec_bits(self) -> u8 {
        match self {
            GyroMode::Off => 0b00,
            GyroMode::Standby => 0b01,
            GyroMode::LowPower => 0b10,
            GyroMode::LowNoise => 0b11,
        }
    }

    /// The field value written to the register.
    #[verifier::when_used_as_spec(spec_bits)]
    pub fn bits(self) -> (b: u8)
        ensures
            b == self.spec_bits(),
    {
        match self {
            GyroMode::Off => 0b00,
            GyroMode::Standby => 0b01,
            GyroMode::LowPower => 0b10,
            GyroMode::LowNoise => 0b11,
        }
    }

    /// The register code of every setting, as the datasheet gives it.
    pub proof fn lemma_field_codes()
        ensures
            GyroMode::Off.spec_bits() == 0b00,
            GyroMode::Standby.spec_bits() == 0b01,
            GyroMode::LowPower.spec_bits() == 0b10,
            GyroMode::LowNoise.spec_bits() == 0b11,
    {
    }

    /// Distinct settings write distinct codes.
    pub proof fn lemma_field_codes_distinct(a: Self, b: Self)
        ensures
            a.spec_bits() == b.spec_bits() ==> a == b,
    {
    }
}

/// Accelerometer power mode (PWR_MGMT0, bits 1:0).
#[derive(Clone, Copy, Debug, PartialEq, Eq, Structural)]
pub enum AccelMode {
    Off,
    Standby,
    LowPower,
    LowNoise,
}

impl AccelMode {
    /// The field value written to the register.
    pub open spec fn spec_bits(self) -> u8 {
        match self {
            AccelMode::Off => 0b00,
            AccelMode::Standby => 0b01,
            AccelMode::LowPower => 0b10,
            AccelMode::LowNoise => 0b11,
        }
    }

    /// The field value written to the register.
    #[verifier::when_used_as_spec(spec_bits)]
    pub fn bits(self) -> (b: u8)
        ensures
            b == self.spec_bits(),
    {
        match self {
            AccelMode::Off => 0b00,
            AccelMode::Standby => 0b01,
            AccelMode::LowPower => 0b10,
            AccelMode::LowNoise => 0b11,
        }
    }

    /// The register code of every setting, as the datasheet gives it.
    pub proof fn lemma_field_codes()
        ensures
            AccelMode::Off.spec_bits() == 0b00,
            AccelMode::Standby.spec_bits() == 0b01,
            AccelMode::LowPower.spec_bits() == 0b10,
            AccelMode::LowNoise.spec_bits() == 0b11,
    {
    }

    /// Distinct settings write distinct codes.
    pub proof fn lemma_field_codes_distinct(a: Self, b: Self)
        ensures
            a.spec_bits() == b.spec_bits() ==> a == b,
    {
    }
}

/// Clock source request (RTC_CONFIG).
#[derive(Clone, Copy, Debug, PartialEq, Eq, Structural)]
pub enum OscSource {
    Auto,
    Mems,
    Ext,
}

impl OscSource {
    /// The value written to the register.
    pub open spec fn spec_bits(self) -> u8 {
        match self {
            OscSource::Auto => 0b0000,
            OscSource::Mems => 0b0010,
            OscSource::Ext => 0b1000,
        }
    }

    /// The value written to the register.
    #[verifier::when_used_as_spec(spec_bits)]
    pub fn bits(self) -> (b: u8)
        ensures
            b == self.spec_bits(),
    {
        match self {
            OscSource::Auto => 0b0000,
            OscSource::Mems => 0b0010,
            OscSource::Ext => 0b1000,
        }
    }

    /// The register code of every setting, as the datasheet gives it.
    pub proof fn lemma_field_codes()
        ensures
            OscSource::Auto.spec_bits() == 0b0000,
            OscSource::Mems.spec_bits() == 0b0010,
            OscSource::Ext.spec_bits() == 0b1000,
    {
    }

    /// Distinct settings write distinct codes.
    pub proof fn lemma_field_codes_distinct(a: Self, b: Self)
        ensures
            a.spec_bits() == b.spec_bits() ==> a == b,
    {
    }
}

/// Slew rate of the SPI output pin (DRIVE_CONFIG1, bits 3:1).
#[derive(Clone, Copy, Debug, PartialEq, Eq, Structural)]
pub enum SpiSlew {
    /// 12 ns min, 38 ns typ, 106 ns max
    Minimum,
    /// 4 ns min, 14 ns typ, 45 ns max
    VerySlow,
    /// 3 ns min, 10 ns typ, 37 ns max
    Slow,
    /// 2 ns min, 7 ns typ, 25 ns max
    Medium,
    /// 1 ns min, 5 ns typ, 17 ns max
    Fast,
    /// 1 ns min, 4 ns typ, 14 ns max
    VeryFast,
    /// 0.1 ns min, 0.5 ns typ, 6 ns max
    Maximum,
}

impl SpiSlew {
    /// The field value written to the register.
    pub open spec fn spec_bits(self) -> u8 {
        match self {
            SpiSlew::Minimum => 0b000,
            SpiSlew::VerySlow => 0b001,
            SpiSlew::Slow => 0b010,
            SpiSlew::Medium => 0b011,
            SpiSlew::Fast => 0b100,
            SpiSlew::VeryFast => 0b101,
            SpiSlew::Maximum => 0b110,
        }
    }

    /// The field value written to the register.
    #[verifier::when_used_as_spec(spec_bits)]
    pub fn bits(self) -> (b: u8)
        ensures
            b == self.spec_bits(),
    {
        match self {
            SpiSlew::Minimum => 0b000,
            SpiSlew::VerySlow => 0b001,
            SpiSlew::Slow => 0b010,
            SpiSlew::Medium => 0b011,
            SpiSlew::Fast => 0b100,
            SpiSlew::VeryFast => 0b101,
            SpiSlew::Maximum => 0b110,
        }
    }

    /// The register code of every setting, as the datasheet gives it.
    pub proof fn lemma_field_codes()
        ensures
            SpiSlew::Minimum.spec_bits() == 0b000,
            SpiSlew::VerySlow.spec_bits() == 0b001,
            SpiSlew::Slow.spec_bits() == 0b010,
            SpiSlew::Medium.spec_bits() == 0b011,
            SpiSlew::Fast.spec_bits() == 0b100,
            SpiSlew::VeryFast.spec_bits() == 0b101,
            SpiSlew::Maximum.spec_bits() == 0b110,
    {
    }

    /// Distinct settings write distinct codes.
    pub proof fn lemma_field_codes_distinct(a: Self, b: Self)
        ensures
            a.spec_bits() == b.spec_bits() ==> a == b,
    {
    }
}

/// Slew rate of the other output pins (DRIVE_CONFIG2).
#[derive(Clone, Copy, Debug, PartialEq, Eq, Structural)]
pub enum Slew {
    /// 12 ns min, 38 ns typ, 106 ns max
    Minimum,
    /// 4 ns min, 14 ns typ, 45 ns max
    VerySlow,
    /// 3 ns min, 10 ns typ, 37 ns max
    Slow,
    /// 2 ns min, 7 ns typ, 25 ns max
    Medium,
    /// 1 ns min, 5 ns typ, 17 ns max
    Fast,
    /// 1 ns min, 4 ns typ, 14 ns max
    VeryFast,
    /// 0.1 ns min, 0.5 ns typ, 6 ns max
    Maximum,
}

impl Slew {
    /// The field value written to the register.
    pub open spec fn spec_bits(self) -> u8 {
        match self {
            Slew::Minimum => 0b000,
            Slew::VerySlow => 0b001,
            Slew::Slow => 0b010,
            Slew::Medium => 0b011,
            Slew::Fast => 0b100,
            Slew::VeryFast => 0b101,
            Slew::Maximum => 0b110,
        }
    }

    /// The field value written to the register.
    #[verifier::when_used_as_spec(spec_bits)]
    pub fn bits(self) -> (b: u8)
        ensures
            b == self.spec_bits(),
    {
        match self {
            Slew::Minimum => 0b000,
            Slew::VerySlow => 0b001,
            Slew::Slow => 0b010,
            Slew::Medium => 0b011,
            Slew::Fast => 0b100,
            Slew::VeryFast => 0b101,
            Slew::Maximum => 0b110,
        }
    }

    /// The register code of every setting, as the datasheet gives it.
    pub proof fn lemma_field_codes()
        ensures
            Slew::Minimum.spec_bits() == 0b000,
            Slew::VerySlow.spec_bits() == 0b001,
            Slew::Slow.spec_bits() == 0b010,
            Slew::Medium.spec_bits() == 0b011,
            Slew::Fast.spec_bits() == 0b100,
            Slew::VeryFast.spec_bits() == 0b101,
            Slew::Maximum.spec_bits() == 0b110,
    {
    }

    /// Distinct settings write distinct codes.
    pub proof fn lemma_field_codes_distinct(a: Self, b: Self)
        ensures
            a.spec_bits() == b.spec_bits() ==> a == b,
    {
    }
}

} // verus!
