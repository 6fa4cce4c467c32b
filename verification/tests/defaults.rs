//! Reset defaults decode to their documented values, and extended write
//! commands send their documented opcodes.

use std::cell::RefCell;
use std::rc::Rc;

use ili9341::Controller;
use ili9341::ExtendedCommandSet;
use ili9341::Interface;
use ili9341::backlight_control5::BacklightControl5;
use ili9341::backlight_control5::TransitionTime;
use ili9341::display_function_control::DisplayFunctionControl;
use ili9341::display_function_control::GateOutputsInNonDisplayArea;
use ili9341::display_function_control::LcdDriverLine;
use ili9341::display_function_control::LiquidCrystalType;
use ili9341::display_function_control::ScanCycle;
use ili9341::entry_mode::EntryModeSet;
use ili9341::entry_mode::G1G320GateOutput;
use ili9341::entry_mode::LowVoltageDetection;
use ili9341::read_display_madctl::DisplayMadctl;
use ili9341::read_display_madctl::RowAddressOrder;
use ili9341::rgb_interface_signal_control::DisplayDataPath;
use ili9341::rgb_interface_signal_control::RgbInterfaceSignalControl;
use ili9341::write_display_brightness::DisplayBrightness;

struct SinkBus {
    writes: Rc<RefCell<Vec<(u8, Vec<u8>)>>>,
}

impl Interface for SinkBus {
    type Error = ();

    fn command(&mut self, _command: u8) -> Result<(), ()> {
        Ok(())
    }

    fn send_parameters(&mut self, command: u8, data: &[u8]) -> Result<(), ()> {
        self.writes.borrow_mut().push((command, data.to_vec()));
        Ok(())
    }

    fn read_parameters(&mut self, _command: u8, _data: &mut Vec<u8>) -> Result<(), ()> {
        Ok(())
    }
}

impl ExtendedCommandSet for SinkBus {}

#[test]
fn display_function_control_default_decodes_documented_values() {
    let block = DisplayFunctionControl::default();
    assert_eq!(block.data, [0x0A, 0x82, 0x27, 0x00]);
    let r = block.read();
    assert_eq!(r.gate_outputs_in_non_display_area(), Ok(GateOutputsInNonDisplayArea::IntervalScan));
    assert_eq!(r.liquid_crystal_type(), Ok(LiquidCrystalType::NormallyWhite));
    assert!(!r.sm());
    assert_eq!(r.scan_cycle(), Ok(ScanCycle::N5Frames));
    assert_eq!(r.lcd_driver_line(), Ok(LcdDriverLine::N320Lines));
    assert_eq!(r.pcdiv(), 0x00);
}

#[test]
fn entry_mode_default_decodes_documented_values() {
    let block = EntryModeSet::default();
    assert_eq!(block.data, [0x06]);
    let r = block.read();
    assert!(!r.deep_standby_mode());
    assert_eq!(r.g1_g320_gate_output(), Ok(G1G320GateOutput::NormalDisplay));
    assert_eq!(r.low_voltage_detection(), Ok(LowVoltageDetection::Enable));
}

#[test]
fn backlight_control5_default_decodes_documented_values() {
    let block = BacklightControl5::default();
    assert_eq!(block.data, [0x44]);
    let r = block.read();
    assert_eq!(r.brightness_change_threshold(), 0x04);
    assert_eq!(r.transition_time(), Ok(TransitionTime::N8Frames));
}

#[test]
fn rgb_interface_signal_control_default_decodes_documented_values() {
    let block = RgbInterfaceSignalControl::default();
    assert_eq!(block.data, [0x41]);
    let r = block.read();
    assert_eq!(r.display_data_path(), Ok(DisplayDataPath::DirectToShiftRegisterDefault));
    assert_eq!(r.rgb_interface_selection(), 0x02);
    assert!(!r.vsync_polarity());
    assert!(!r.hsync_polarity());
    assert!(!r.dotclk_polarity());
    assert!(r.de_polarity());
}

#[test]
fn madctl_default_is_all_clear() {
    let block = DisplayMadctl::default();
    assert_eq!(block.data, [0x00]);
    assert_eq!(
        block.read().row_address_order(),
        Ok(RowAddressOrder::TopToBottomWhenMadctlB7Eq0)
    );
}

#[test]
fn brightness_write_is_a_whole_byte() {
    let block = DisplayBrightness::default().write(|w| w.dbv(0xA5));
    assert_eq!(block.data, [0xA5]);
    assert_eq!(block.read().dbv(), 0xA5);
}

#[test]
fn extended_write_commands_send_their_opcodes() {
    let writes = Rc::new(RefCell::new(Vec::new()));
    let mut c = Controller::new(SinkBus { writes: writes.clone() });
    c.display_function_control(|w| w).unwrap();
    c.entry_mode_set(|w| w.deep_standby_mode(false)).unwrap();
    c.power_control1(|w| w).unwrap();
    c.nv_memory_protection_key(|w| w.nv_memory_programming_protection_key(0x55AA66)).unwrap();
    c.positive_gamma_correction(|w| w.vp63(0x0F)).unwrap();
    assert_eq!(
        writes.borrow().as_slice(),
        &[
            (0xB6, vec![0x0A, 0x82, 0x27, 0x00]),
            (0xB7, vec![0x06]),
            (0xC0, vec![0x21]),
            (0xD1, vec![0x55, 0xAA, 0x66]),
            (0xE0, vec![0x0F, 0x00, 0x00, 0x05, 0x00, 0x09, 0x00, 0x00, 0x00, 0x0B, 0x00, 0x00, 0x00, 0x00, 0x00]),
        ]
    );
}
