//! Enumeration fields: every documented variant round-trips, and codes
//! outside the documented mapping decode to an error instead of a variant.

use ili9341::backlight_control7::BacklightControl7;
use ili9341::backlight_control7::FpWmOut;
use ili9341::error::CodecError;
use ili9341::nv_memory_write::NvMemory;
use ili9341::nv_memory_write::ProgrammedNvMemorySelection;
use ili9341::pixel_format::McuInterfaceFormat;
use ili9341::pixel_format::PixelFormatSet;
use ili9341::pixel_format::RgbInterfaceFormat;
use ili9341::power_control1::Gvdd;
use ili9341::power_control1::PowerControl1;
use ili9341::read_display_status::DisplayStatus;
use ili9341::read_display_status::InterfaceColorPixelFormat;
use ili9341::write_content_adaptive_brightness_control::AdaptiveBrightnessControlMode;
use ili9341::write_content_adaptive_brightness_control::ContentAdaptiveBrightnessControl;

#[test]
fn pixel_format_variants_roundtrip() {
    for v in [RgbInterfaceFormat::N16Bits, RgbInterfaceFormat::N18Bits] {
        let block = PixelFormatSet::default().write(|w| w.rgb_interface_format(v));
        assert_eq!(block.read().rgb_interface_format(), Ok(v));
    }
    for v in [McuInterfaceFormat::N16Bits, McuInterfaceFormat::N18Bits] {
        let block = PixelFormatSet::default().write(|w| w.mcu_interface_format(v));
        assert_eq!(block.read().mcu_interface_format(), Ok(v));
    }
}

#[test]
fn pixel_format_undocumented_code_is_an_error() {
    // Low three bits 0x07 are not a documented MCU interface format.
    let block = PixelFormatSet { data: [0x07] };
    assert_eq!(
        block.read().mcu_interface_format(),
        Err(CodecError::UnrecognizedCode { code: 0x07 })
    );
}

#[test]
fn display_status_sparse_code_is_an_error_not_a_variant() {
    // Bits 4..7 of byte 1 hold the interface pixel format; 0 is undocumented.
    let block = DisplayStatus { data: [0x00, 0x00, 0x00, 0x00] };
    assert_eq!(
        block.read().interface_color_pixel_format(),
        Err(CodecError::UnrecognizedCode { code: 0x00 })
    );
    let ok = DisplayStatus { data: [0x00, 0x50, 0x00, 0x00] };
    assert_eq!(
        ok.read().interface_color_pixel_format(),
        Ok(InterfaceColorPixelFormat::N16BitPerPixel)
    );
}

#[test]
fn cabc_mode_all_variants_roundtrip() {
    for v in [
        AdaptiveBrightnessControlMode::Off,
        AdaptiveBrightnessControlMode::UserInterfaceImage,
        AdaptiveBrightnessControlMode::StillPicture,
        AdaptiveBrightnessControlMode::MovingImage,
    ] {
        let block = ContentAdaptiveBrightnessControl::default()
            .write(|w| w.adaptive_brightness_control_mode(v));
        assert_eq!(block.read().adaptive_brightness_control_mode(), Ok(v));
    }
}

#[test]
fn nv_memory_selection_sparse_gap_is_an_error() {
    let block = NvMemory::default()
        .write(|w| w.programmed_nv_memory_selection(ProgrammedNvMemorySelection::Vmf60Programming));
    assert_eq!(block.data[0] & 0x07, 0x04);
    assert_eq!(
        block.read().programmed_nv_memory_selection(),
        Ok(ProgrammedNvMemorySelection::Vmf60Programming)
    );
    // Code 3 sits in the gap of the documented mapping.
    let gap = NvMemory { data: [0x03, 0x00] };
    assert_eq!(
        gap.read().programmed_nv_memory_selection(),
        Err(CodecError::UnrecognizedCode { code: 0x03 })
    );
}

#[test]
fn pwm_frequency_extreme_codes_roundtrip() {
    let low = BacklightControl7::default().write(|w| w.fp_wm_out(FpWmOut::Pwm62745Hz));
    assert_eq!(low.data, [0x00]);
    assert_eq!(low.read().fp_wm_out(), Ok(FpWmOut::Pwm62745Hz));
    let high = BacklightControl7::default().write(|w| w.fp_wm_out(FpWmOut::Pwm245Hz));
    assert_eq!(high.data, [0xFF]);
    assert_eq!(high.read().fp_wm_out(), Ok(FpWmOut::Pwm245Hz));
    let default = BacklightControl7::default();
    assert_eq!(default.read().fp_wm_out(), Ok(FpWmOut::Pwm3922Hz));
}

#[test]
fn gvdd_codes_below_the_documented_floor_are_errors() {
    let block = PowerControl1::default();
    assert_eq!(block.read().gvdd(), Ok(Gvdd::N4o50V));
    let reserved = PowerControl1 { data: [0x00] };
    assert_eq!(reserved.read().gvdd(), Err(CodecError::UnrecognizedCode { code: 0x00 }));
}
