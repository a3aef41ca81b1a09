pub mod config;

use crate::bytes::{read_command, spec_u16_le, u16_from_le};
use crate::mmc5983::config::{MagAutoSetReset, MagBw, MagOdr};
use vstd::prelude::*;

verus! {

/// First output register (Xout0); the other outputs and the status follow it.
pub const REG_XOUT0: u8 = 0x00;

/// Internal control 0 register.
pub const REG_CONTROL0: u8 = 0x09;

/// Internal control 1 register.
pub const REG_CONTROL1: u8 = 0x0a;

/// Driver state of the MMC5983 magnetometer on SPI: whether automatic
/// set/reset was last switched on.
///
/// Each method gives the bytes of one transaction, or decodes the bytes a
/// transaction read back; the bus stays with the caller.
pub struct Mmc5983 {
    auto_sr: bool,
}

/// The three 18-bit field readings as the driver assembles them, in counts;
/// `(x - 131072) / 16384` is in gauss.
#[derive(Clone, Copy, Debug, PartialEq, Eq, Structural)]
pub struct RawMagReport {
    pub x: u32,
    pub y: u32,
    pub z: u32,
}

/// The 18-bit field readings in counts and the raw temperature byte;
/// `temp * 0.8 - 75` is in degrees C.
#[derive(Clone, Copy, Debug, PartialEq, Eq, Structural)]
pub struct RawMagReportTemperature {
    pub x: u32,
    pub y: u32,
    pub z: u32,
    pub temp: u8,
}

/// The three 16-bit field readings in counts; `(x - 32768) / 4096` is in gauss.
#[derive(Clone, Copy, Debug, PartialEq, Eq, Structural)]
pub struct RawMagReport16 {
    pub x: u16,
    pub y: u16,
    pub z: u16,
}

/// An 18-bit reading from its three parts: `hi` holds bits 17:10, `mid`
/// bits 9:2 and `lo` (below 4) bits 1:0. The result is below 2^18.
pub open spec fn spec_mag18(hi: u8, mid: u8, lo: u8) -> int {
    1024 * hi + 4 * mid + lo
}

/// The three 18-bit readings from the bytes of a report read: X from bytes
/// 1 (bits 17:10), 2 (bits 9:2) and bits 7:6 of byte 7 (bits 1:0); Y from
/// bytes 3, 4 and bits 5:4 of byte 7; Z from bytes 5, 6 and bits 3:2 of byte 7.
pub open spec fn spec_mag_xyz(read_buf: Seq<u8>) -> (int, int, int) {
    let extra = read_buf[7];
    (
        spec_mag18(read_buf[1], read_buf[2], (extra / 64) % 4),
        spec_mag18(read_buf[3], read_buf[4], (extra / 16) % 4),
        spec_mag18(read_buf[5], read_buf[6], (extra / 4) % 4),
    )
}

/// Full scale of an 18-bit reading: every reading is below it, and its half
/// (2^17) is the zero-field reading.
pub const MAG18_FULL_SCALE: u32 = 262144;

/// Bit 5 of internal control 0: automatic set/reset enable.
pub open spec fn auto_sr_bit(auto: bool) -> int {
    if auto { 0b0010_0000 } else { 0 }
}

/// Assembles one 18-bit reading: `hi << 10 | mid << 2 | lo`.
fn mag18(hi: u8, mid: u8, lo: u8) -> (r: u32)
    requires
        lo < 4,
    ensures
        r == spec_mag18(hi, mid, lo),
        r < MAG18_FULL_SCALE,
{
    let h = hi as u32;
    let m = mid as u32;
    let l = lo as u32;
    let r: u32 = (h << 10) | (m << 2) | l;
    assert(r == 1024 * h + 4 * m + l) by (bit_vector)
        requires
            h < 256,
            m < 256,
            l < 4,
            r == (h << 10u32) | (m << 2u32) | l,
    ;
    r
}

/// The X, Y, Z readings from the first eight bytes of a report read.
fn mag_xyz(b1: u8, b2: u8, b3: u8, b4: u8, b5: u8, b6: u8, b7: u8) -> (r: (u32, u32, u32))
    ensures
        (r.0 as int, r.1 as int, r.2 as int) == spec_mag_xyz(seq![0u8, b1, b2, b3, b4, b5, b6, b7]),
        r.0 < MAG18_FULL_SCALE,
        r.1 < MAG18_FULL_SCALE,
        r.2 < MAG18_FULL_SCALE,
{
    let xl: u8 = b7 >> 6;
    let yl: u8 = (b7 >> 4) & 0b11;
    let zl: u8 = (b7 >> 2) & 0b11;
    assert(xl == (b7 / 64) % 4 && yl == (b7 / 16) % 4 && zl == (b7 / 4) % 4) by (bit_vector)
        requires
            xl == b7 >> 6u8,
            yl == (b7 >> 4u8) & 3u8,
            zl == (b7 >> 2u8) & 3u8,
    ;
    (mag18(b1, b2, xl), mag18(b3, b4, yl), mag18(b5, b6, zl))
}

/// `base | ((auto as u8) << 5)`, for a `base` with bit 5 clear.
fn control0_with_auto_sr(base: u8, auto: bool) -> (v: u8)
    requires
        base < 32,
    ensures
        v == base + auto_sr_bit(auto),
{
    let a: u8 = if auto { 1 } else { 0 };
    let v: u8 = base | (a << 5);
    assert(v == base + (if a == 1 { 32u8 } else { 0u8 })) by (bit_vector)
        requires
            base < 32,
            a == 0 || a == 1,
            v == base | (a << 5u8),
    ;
    v
}

impl View for Mmc5983 {
    /// Whether automatic set/reset was last switched on.
    type V = bool;

    closed spec fn view(&self) -> bool {
        self.auto_sr
    }
}

impl Mmc5983 {
    pub fn new() -> (r: Self)
        ensures
            r@ == false,
    {
        Mmc5983 { auto_sr: false }
    }

    /// The byte to send to start a read of the output registers.
    pub fn report_request(&self) -> (frame: [u8; 1])
        ensures
            frame@ == seq![0x80u8],
    {
        [read_command(REG_XOUT0)]
    }

    /// Decodes the 18-bit readings from the eight bytes of a report read.
    pub fn get_report(&self, read_buf: &[u8; 8]) -> (r: RawMagReport)
        ensures
            (r.x as int, r.y as int, r.z as int) == spec_mag_xyz(read_buf@),
            r.x < MAG18_FULL_SCALE,
            r.y < MAG18_FULL_SCALE,
            r.z < MAG18_FULL_SCALE,
    {
        let (x, y, z) = mag_xyz(
            read_buf[1],
            read_buf[2],
            read_buf[3],
            read_buf[4],
            read_buf[5],
            read_buf[6],
            read_buf[7],
        );
        RawMagReport { x, y, z }
    }

    /// Decodes the 18-bit readings and the temperature byte (byte 8) from the
    /// nine bytes of a report read.
    pub fn get_report_temperature(&self, read_buf: &[u8; 9]) -> (r: RawMagReportTemperature)
        ensures
            (r.x as int, r.y as int, r.z as int) == spec_mag_xyz(read_buf@),
            r.x < MAG18_FULL_SCALE,
            r.y < MAG18_FULL_SCALE,
            r.z < MAG18_FULL_SCALE,
            r.temp == read_buf[8],
    {
        let (x, y, z) = mag_xyz(
            read_buf[1],
            read_buf[2],
            read_buf[3],
            read_buf[4],
            read_buf[5],
            read_buf[6],
            read_buf[7],
        );
        RawMagReportTemperature { x, y, z, temp: read_buf[8] }
    }

    /// Decodes the 16-bit readings from the seven bytes of a report read,
    /// each a little-endian pair from byte 1 on.
    pub fn get_report_16(&self, read_buf: &[u8; 7]) -> (r: RawMagReport16)
        ensures
            r.x == spec_u16_le(read_buf[1], read_buf[2]),
            r.y == spec_u16_le(read_buf[3], read_buf[4]),
            r.z == spec_u16_le(read_buf[5], read_buf[6]),
    {
        RawMagReport16 {
            x: u16_from_le(read_buf[1], read_buf[2]),
            y: u16_from_le(read_buf[3], read_buf[4]),
            z: u16_from_le(read_buf[5], read_buf[6]),
        }
    }

    /// The write that enables the interrupt on measurement done.
    pub fn init(&self) -> (frame: [u8; 2])
        ensures
            frame@ == seq![REG_CONTROL0, 0b0000_0100u8],
    {
        [REG_CONTROL0, 0b0000_0100]
    }

    /// The write that starts continuous measurement at `odr` with periodic
    /// set every `sr` measurements.
    pub fn set_odr_sr(&self, odr: MagOdr, sr: MagAutoSetReset) -> (frame: [u8; 2])
        ensures
            frame@ == seq![REG_CONTROL0, (0b1000_1000 + 16 * sr.spec_bits() + odr.spec_bits()) as u8],
    {
        let s = sr.bits();
        let o = odr.bits();
        let v: u8 = 0b1000_1000 | s << 4 | o;
        assert(v == 0x88 + 16 * s + o) by (bit_vector)
            requires
                s < 8,
                o < 8,
                v == 0x88u8 | (s << 4u8) | o,
        ;
        [REG_CONTROL0, v]
    }

    /// The write that selects the measurement bandwidth.
    pub fn set_bw(&self, bw: MagBw) -> (frame: [u8; 2])
        ensures
            frame@ == seq![REG_CONTROL1, bw.spec_bits()],
    {
        [REG_CONTROL1, bw.bits()]
    }

    /// The write that resets the chip.
    pub fn soft_reset(&self) -> (frame: [u8; 2])
        ensures
            frame@ == seq![REG_CONTROL1, 0b1000_0000u8],
    {
        [REG_CONTROL1, 0b1000_0000]
    }

    /// Records whether automatic set/reset is on and gives the write that switches it.
    pub fn auto_sr(&mut self, auto: bool) -> (frame: [u8; 2])
        ensures
            final(self)@ == auto,
            frame@ == seq![REG_CONTROL0, auto_sr_bit(auto) as u8],
    {
        self.auto_sr = auto;
        [REG_CONTROL0, control0_with_auto_sr(0, auto)]
    }

    /// The write that performs a set operation, keeping automatic set/reset as recorded.
    pub fn set(&self) -> (frame: [u8; 2])
        ensures
            frame@ == seq![REG_CONTROL0, (0b0000_1000 + auto_sr_bit(self@)) as u8],
    {
        [REG_CONTROL0, control0_with_auto_sr(0b0000_1000, self.auto_sr)]
    }

    /// The write that performs a reset operation, keeping automatic set/reset as recorded.
    pub fn reset(&self) -> (frame: [u8; 2])
        ensures
            frame@ == seq![REG_CONTROL0, (0b0001_0000 + auto_sr_bit(self@)) as u8],
    {
        [REG_CONTROL0, control0_with_auto_sr(0b0001_0000, self.auto_sr)]
    }
}

/// The set and reset writes carry the automatic set/reset bit (bit 5) as
/// `auto_sr` last wrote it, next to their own command bit (bit 3 for set,
/// bit 4 for reset); the `auto_sr` write itself carries neither command bit.
pub proof fn lemma_set_reset_keep_auto_sr(auto: bool)
    ensures
        ((0b0000_1000 + auto_sr_bit(auto)) as u8) & 0x20 == auto_sr_bit(auto) as u8,
        ((0b0000_1000 + auto_sr_bit(auto)) as u8) & 0x18 == 0x08,
        ((0b0001_0000 + auto_sr_bit(auto)) as u8) & 0x20 == auto_sr_bit(auto) as u8,
        ((0b0001_0000 + auto_sr_bit(auto)) as u8) & 0x18 == 0x10,
        (auto_sr_bit(auto) as u8) & 0x18 == 0,
{
    if auto {
        assert(0x28u8 & 0x20 == 0x20u8 && 0x28u8 & 0x18 == 0x08u8) by (bit_vector);
        assert(0x30u8 & 0x20 == 0x20u8 && 0x30u8 & 0x18 == 0x10u8) by (bit_vector);
        assert(0x20u8 & 0x18 == 0u8) by (bit_vector);
    } else {
        assert(0x08u8 & 0x20 == 0u8 && 0x08u8 & 0x18 == 0x08u8) by (bit_vector);
        assert(0x10u8 & 0x20 == 0u8 && 0x10u8 & 0x18 == 0x10u8) by (bit_vector);
        assert(0u8 & 0x18 == 0u8) by (bit_vector);
    }
}

/// Internal control 0 as `set_odr_sr` writes it holds the rate code in bits
/// 2:0 and the set/reset interval code in bits 6:4, with bits 7 and 3 set.
pub proof fn lemma_odr_sr_fields(odr: MagOdr, sr: MagAutoSetReset)
    ensures
        ((0b1000_1000 + 16 * sr.spec_bits() + odr.spec_bits()) as u8) % 8 == odr.spec_bits(),
        (((0b1000_1000 + 16 * sr.spec_bits() + odr.spec_bits()) as u8) / 16) % 8 == sr.spec_bits(),
        ((0b1000_1000 + 16 * sr.spec_bits() + odr.spec_bits()) as u8) / 128 == 1,
        (((0b1000_1000 + 16 * sr.spec_bits() + odr.spec_bits()) as u8) / 8) % 2 == 1,
{
}

/// Each 18-bit reading splits back into the bytes it came from: bits 17:10
/// are its first byte, bits 9:2 its second, and bits 1:0 its two bits of
/// byte 7 (7:6 for X, 5:4 for Y, 3:2 for Z).
pub proof fn lemma_mag_xyz_bits(read_buf: Seq<u8>)
    requires
        read_buf.len() >= 8,
    ensures
        spec_mag_xyz(read_buf).0 / 1024 == read_buf[1],
        (spec_mag_xyz(read_buf).0 / 4) % 256 == read_buf[2],
        spec_mag_xyz(read_buf).0 % 4 == (read_buf[7] / 64) % 4,
        spec_mag_xyz(read_buf).1 / 1024 == read_buf[3],
        (spec_mag_xyz(read_buf).1 / 4) % 256 == read_buf[4],
        spec_mag_xyz(read_buf).1 % 4 == (read_buf[7] / 16) % 4,
        spec_mag_xyz(read_buf).2 / 1024 == read_buf[5],
        (spec_mag_xyz(read_buf).2 / 4) % 256 == read_buf[6],
        spec_mag_xyz(read_buf).2 % 4 == (read_buf[7] / 4) % 4,
{
}

} // verus!
