//! Field-level round-trip and isolation behavior on parameter blocks.

use ili9341::interface_control::InterfaceControl;
use ili9341::memory_access_control::MemoryAccessControl;
use ili9341::positive_gamma_correction::PositiveGammaCorrection;
use ili9341::read_display_self_diagnostic_result::DisplaySelfDiagnosticResult;
use ili9341::read_display_status::DisplayStatus;
use ili9341::read_display_status::GammaCurveSelection;
use ili9341::write_ctrl_display::CtrlDisplay;

#[test]
fn madctl_flags_roundtrip_and_leave_other_bits_alone() {
    let block = MemoryAccessControl { data: [0xFF] };
    let written = block.write(|w| w.row_column_exchange(false));
    // Only bit 5 cleared; everything else survives the write.
    assert_eq!(written.data, [0xFF & !0x20]);
    let r = written.read();
    assert!(r.row_address_order());
    assert!(r.column_address_order());
    assert!(!r.row_column_exchange());
    assert!(r.vertical_refresh_order());
    assert!(r.rgb_bgr_order());
    assert!(r.horizontal_refresh_order());

    let set_back = written.write(|w| w.row_column_exchange(true));
    assert_eq!(set_back.data, [0xFF]);
}

#[test]
fn ctrl_display_bits_land_on_documented_positions() {
    let block = CtrlDisplay::default()
        .write(|w| w.brightness_control_block(true).display_dimming(true).backlight_control(true));
    assert_eq!(block.data, [0x20 | 0x08 | 0x04]);
    let r = block.read();
    assert!(r.brightness_control_block());
    assert!(r.display_dimming());
    assert!(r.backlight_control());
}

#[test]
fn setters_commute_on_disjoint_fields() {
    let a = CtrlDisplay::default().write(|w| w.brightness_control_block(true).backlight_control(true));
    let b = CtrlDisplay::default().write(|w| w.backlight_control(true).brightness_control_block(true));
    assert_eq!(a.data, b.data);
}

#[test]
fn positive_gamma_fields_mask_to_their_widths() {
    let block = PositiveGammaCorrection::default().write(|w| w.vp63(0xFF).vp27(0xAB).vp36(0xCD));
    // vp63 is 4 bits of byte 0; vp27 the high nibble and vp36 the low nibble
    // of byte 7.
    assert_eq!(block.data[0], 0x0F);
    assert_eq!(block.data[7], 0xBD);
    let r = block.read();
    assert_eq!(r.vp63(), 0x0F);
    assert_eq!(r.vp27(), 0x0B);
    assert_eq!(r.vp36(), 0x0D);
}

#[test]
fn positive_gamma_default_matches_reset_pattern() {
    let block = PositiveGammaCorrection::default();
    assert_eq!(
        block.data,
        [0x08, 0x00, 0x00, 0x05, 0x00, 0x09, 0x00, 0x00, 0x00, 0x0B, 0x00, 0x00, 0x00, 0x00, 0x00]
    );
}

#[test]
fn self_diagnostic_bits_stay_in_place() {
    let block = DisplaySelfDiagnosticResult { data: [0b1100_0000] };
    assert_eq!(block.read().d(), 0b1100_0000);
    let rewritten = DisplaySelfDiagnosticResult::default().write(|w| w.d(0b1011_1111));
    assert_eq!(rewritten.data, [0b1000_0000]);
}

#[test]
fn display_status_gamma_curve_spans_two_bytes() {
    let block = DisplayStatus::default().write(|w| w.gamma_curve_selection(GammaCurveSelection::Gc0));
    // Code 0: clears the low bit of byte 2 and the top two bits of byte 3,
    // leaving the rest of the default pattern.
    assert_eq!(block.data, [0x00, 0x61, 0x00, 0x00]);
    assert_eq!(block.read().gamma_curve_selection(), Ok(GammaCurveSelection::Gc0));
}

#[test]
fn interface_control_touches_only_the_written_byte() {
    let block = InterfaceControl::default();
    assert_eq!(block.data, [0x01, 0x00, 0x00]);
    let written = block.write(|w| w.my_eor(true).mx_eor(true));
    assert_eq!(written.data, [0x01 | 0x80 | 0x40, 0x00, 0x00]);
    assert!(written.read().my_eor());
    assert!(written.read().mx_eor());
    assert!(!written.read().mv_eor());
    assert!(written.read().memory_write_control());
}
