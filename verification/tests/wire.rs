use romi_core::wire::{i16_le, i8_from_byte, push_i16_le, push_u16_le, push_u32_le, u16_le};

#[test]
fn little_endian_reads() {
    assert_eq!(u16_le(0x34, 0x12), 0x1234);
    assert_eq!(u16_le(0xFF, 0xFF), 0xFFFF);
    assert_eq!(i16_le(0xFF, 0x7F), 32767);
    assert_eq!(i16_le(0x00, 0x80), -32768);
    assert_eq!(i16_le(0xFF, 0xFF), -1);
    assert_eq!(i8_from_byte(0x7F), 127);
    assert_eq!(i8_from_byte(0x80), -128);
    assert_eq!(i8_from_byte(0xFF), -1);
}

#[test]
fn little_endian_reads_agree_with_std() {
    for hi in 0..=255u8 {
        for lo in [0u8, 1, 0x7F, 0x80, 0xFF].iter() {
            assert_eq!(u16_le(*lo, hi), u16::from_le_bytes([*lo, hi]));
            assert_eq!(i16_le(*lo, hi), i16::from_le_bytes([*lo, hi]));
        }
        assert_eq!(i8_from_byte(hi), hi as i8);
    }
}

#[test]
fn little_endian_writes() {
    let mut out: Vec<u8> = vec![0x99];
    push_u16_le(&mut out, 0x1234);
    push_i16_le(&mut out, -2);
    push_u32_le(&mut out, 0x0102_0304);
    assert_eq!(out, vec![0x99, 0x34, 0x12, 0xFE, 0xFF, 0x04, 0x03, 0x02, 0x01]);
}

#[test]
fn little_endian_writes_agree_with_std() {
    let values: [i16; 7] = [-32768, -257, -1, 0, 1, 256, 32767];
    for v in values.iter() {
        let mut out: Vec<u8> = Vec::new();
        push_i16_le(&mut out, *v);
        assert_eq!(out, v.to_le_bytes().to_vec());
        assert_eq!(i16_le(out[0], out[1]), *v);
    }
    let words: [u32; 4] = [0, 1, 0x8000_0000, 0xFFFF_FFFF];
    for w in words.iter() {
        let mut out: Vec<u8> = Vec::new();
        push_u32_le(&mut out, *w);
        assert_eq!(out, w.to_le_bytes().to_vec());
    }
}
