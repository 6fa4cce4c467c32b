//! Biased fields: the wire code and the semantic value differ by a fixed
//! offset, encode and decode agree over the documented range, and codes under
//! the documented floor decode to an error.

use ili9341::blanking_porch_control::BlankingPorchControl;
use ili9341::error::CodecError;
use ili9341::frame_control_in_idle_mode::FrameControlInIdleMode;
use ili9341::frame_control_in_normal_mode::DivisionRatio;
use ili9341::frame_control_in_normal_mode::FrameControlInNormalMode;
use ili9341::vcom_control2::VcomControl2;

#[test]
fn porch_counts_roundtrip_over_their_documented_ranges() {
    for v in [2u8, 3, 64, 127] {
        let block = BlankingPorchControl::default().write(|w| w.vfp(v).vbp(v));
        assert_eq!(block.read().vfp(), Ok(v));
        assert_eq!(block.read().vbp(), Ok(v));
    }
    for v in [2u8, 3, 17, 31] {
        let block = BlankingPorchControl::default().write(|w| w.hfp(v).hbp(v));
        assert_eq!(block.read().hfp(), Ok(v));
        assert_eq!(block.read().hbp(), Ok(v));
    }
}

#[test]
fn porch_codes_under_the_floor_decode_to_errors() {
    let block = BlankingPorchControl { data: [0x01, 0x00, 0x0A, 0x14] };
    assert_eq!(block.read().vfp(), Err(CodecError::UnrecognizedCode { code: 0x01 }));
    assert_eq!(block.read().vbp(), Err(CodecError::UnrecognizedCode { code: 0x00 }));
    assert_eq!(block.read().hfp(), Ok(0x0A));
}

#[test]
fn clocks_per_line_roundtrip_with_floor_16() {
    for v in [16u8, 17, 27, 31] {
        let block = FrameControlInNormalMode::default().write(|w| w.clock_per_line(v));
        assert_eq!(block.read().clock_per_line(), Ok(v));
    }
    let reset = FrameControlInIdleMode::default();
    assert_eq!(reset.data, [0x00, 0x1B]);
    assert_eq!(reset.read().clock_per_line(), Ok(0x1B));
    let under = FrameControlInNormalMode { data: [0x00, 0x0F] };
    assert_eq!(under.read().clock_per_line(), Err(CodecError::UnrecognizedCode { code: 0x0F }));
}

#[test]
fn division_ratio_roundtrips() {
    for v in [
        DivisionRatio::Fosc,
        DivisionRatio::FoscDiv2,
        DivisionRatio::FoscDiv4,
        DivisionRatio::FoscDiv8,
    ] {
        let block = FrameControlInNormalMode::default().write(|w| w.division_ratio(v));
        assert_eq!(block.read().division_ratio(), Ok(v));
    }
}

#[test]
fn vcom_offset_bias_and_reserved_code() {
    // The offset is stored biased: code = offset + 64.
    let block = VcomControl2::default().write(|w| w.vcomh(-63));
    assert_eq!(block.data[0] & 0x7F, 0x01);
    assert_eq!(block.read().vcomh(), Ok(-63));
    let block = VcomControl2::default().write(|w| w.vcomh(63));
    assert_eq!(block.data[0] & 0x7F, 0x7F);
    assert_eq!(block.read().vcomh(), Ok(63));
    // The accepted edge value 64 encodes to the reserved zero code, which
    // does not round-trip: it decodes to an error.
    let block = VcomControl2::default().write(|w| w.vcomh(64));
    assert_eq!(block.data[0] & 0x7F, 0x00);
    assert_eq!(block.read().vcomh(), Err(CodecError::UnrecognizedCode { code: 0x00 }));
    // The source bit above the offset survives offset writes.
    let block = VcomControl2 { data: [0x00] }.write(|w| w.vcomh(0));
    assert_eq!(block.data, [0x40]);
}
