use sensor_drivers::bytes::{i16_from_le, read_command, u16_from_le, u32_from_le};

#[test]
fn little_endian_decoding_matches_std() {
    let samples = [0x00u8, 0x01, 0x7F, 0x80, 0x81, 0xFE, 0xFF, 0x12];
    for &a in &samples {
        for &b in &samples {
            assert_eq!(u16_from_le(a, b), u16::from_le_bytes([a, b]));
            assert_eq!(i16_from_le(a, b), i16::from_le_bytes([a, b]));
            for &c in &samples {
                assert_eq!(u32_from_le(a, b, c, a), u32::from_le_bytes([a, b, c, a]));
            }
        }
    }
}

#[test]
fn little_endian_extremes() {
    assert_eq!(i16_from_le(0x00, 0x80), -32768);
    assert_eq!(i16_from_le(0xFF, 0x7F), 32767);
    assert_eq!(i16_from_le(0xFF, 0xFF), -1);
    assert_eq!(u32_from_le(0xFF, 0xFF, 0xFF, 0xFF), u32::MAX);
}

#[test]
fn read_command_sets_bit_7() {
    assert_eq!(read_command(0x00), 0x80);
    assert_eq!(read_command(0x72), 0xF2);
    assert_eq!(read_command(0x7F), 0xFF);
    assert_eq!(read_command(0x81), 0x81);
    assert_eq!(read_command(0xFF), 0xFF);
}
