//! Blob fields: full-length writes reproduce the input modulo the per-element
//! mask, other bytes stay untouched, and any other length is a reported
//! contract violation.

use ili9341::color::ColorSet;
use ili9341::digital_gamma_control1::DigitalGammaControl1;
use ili9341::digital_gamma_control2::DigitalGammaControl2;
use ili9341::error::CodecError;

#[test]
fn color_lut_roundtrips_modulo_the_6_bit_mask() {
    let reds: Vec<u8> = (0u8..32).map(|i| i.wrapping_mul(9)).collect();
    let block = ColorSet::default().write(|w| w.r(&reds)).unwrap();
    let expected: Vec<u8> = reds.iter().map(|b| b & 0x3F).collect();
    assert_eq!(block.read().r(), expected);
    // Green and blue subranges are untouched.
    assert_eq!(block.read().g(), vec![0u8; 64]);
    assert_eq!(block.read().b(), vec![0u8; 32]);
}

#[test]
fn color_lut_subranges_do_not_overlap() {
    let greens = [0x3Fu8; 64];
    let block = ColorSet::default().write(|w| w.g(&greens)).unwrap();
    for i in 0..128 {
        let expected = if (32..96).contains(&i) { 0x3F } else { 0x00 };
        assert_eq!(block.data[i], expected, "byte {}", i);
    }
}

#[test]
fn color_lut_wrong_lengths_are_reported() {
    let short = [0u8; 31];
    let long = [0u8; 33];
    let e = ColorSet::default().write(|w| w.r(&short)).unwrap_err();
    assert_eq!(e, CodecError::LengthMismatch { expected: 32, actual: 31 });
    let e = ColorSet::default().write(|w| w.b(&long)).unwrap_err();
    assert_eq!(e, CodecError::LengthMismatch { expected: 32, actual: 33 });
    let short_g = [0u8; 63];
    let e = ColorSet::default().write(|w| w.g(&short_g)).unwrap_err();
    assert_eq!(e, CodecError::LengthMismatch { expected: 64, actual: 63 });
}

#[test]
fn digital_gamma_red_nibbles_land_high() {
    let input: Vec<u8> = (0u8..16).collect();
    let block = DigitalGammaControl1::default().write(|w| w.rca(&input)).unwrap();
    for i in 0..16 {
        assert_eq!(block.data[i], (i as u8 & 0x0F) << 4);
    }
    assert_eq!(block.read().rca(), input);
}

#[test]
fn digital_gamma_blue_nibbles_land_low() {
    let input = [0xFFu8; 16];
    let block = DigitalGammaControl1::default().write(|w| w.bca(&input)).unwrap();
    assert_eq!(block.data, [0x0F; 16]);
    assert_eq!(block.read().bca(), vec![0x0F; 16]);
}

#[test]
fn digital_gamma_micro_table_takes_64_entries() {
    let input: Vec<u8> = (0u8..64).map(|i| i & 0x0F).collect();
    let block = DigitalGammaControl2::default().write(|w| w.rfa(&input)).unwrap();
    assert_eq!(block.read().rfa(), input);
    let wrong = [0u8; 16];
    let e = DigitalGammaControl2::default().write(|w| w.bfa(&wrong)).unwrap_err();
    assert_eq!(e, CodecError::LengthMismatch { expected: 64, actual: 16 });
}
