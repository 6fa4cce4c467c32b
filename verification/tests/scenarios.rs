//! End-to-end scenarios: a recording mock transport under the controller.

use std::cell::RefCell;
use std::rc::Rc;

use ili9341::Controller;
use ili9341::ExtendedCommandSet;
use ili9341::Interface;
use ili9341::column_address::ColumnAddressSet;
use ili9341::error::CodecError;
use ili9341::error::CommandError;
use ili9341::gamma::CurveSelected;
use ili9341::read_display_power_mode::Booster;
use ili9341::read_display_power_mode::DisplayIs;
use ili9341::read_display_power_mode::Sleep;
use ili9341::vcom_control2::VcomControl2;

#[derive(Debug, PartialEq, Eq, Clone)]
enum Event {
    Command(u8),
    Write(u8, Vec<u8>),
    Read(u8, usize),
}

#[derive(Clone)]
struct MockBus {
    log: Rc<RefCell<Vec<Event>>>,
    next_read: Rc<RefCell<Vec<u8>>>,
    fail: bool,
}

impl MockBus {
    fn new() -> (MockBus, Rc<RefCell<Vec<Event>>>) {
        let log = Rc::new(RefCell::new(Vec::new()));
        let bus = MockBus { log: log.clone(), next_read: Rc::new(RefCell::new(Vec::new())), fail: false };
        (bus, log)
    }

    fn with_read(self, data: &[u8]) -> MockBus {
        *self.next_read.borrow_mut() = data.to_vec();
        self
    }
}

impl Interface for MockBus {
    type Error = &'static str;

    fn command(&mut self, command: u8) -> Result<(), &'static str> {
        if self.fail {
            return Err("bus failure");
        }
        self.log.borrow_mut().push(Event::Command(command));
        Ok(())
    }

    fn send_parameters(&mut self, command: u8, data: &[u8]) -> Result<(), &'static str> {
        if self.fail {
            return Err("bus failure");
        }
        self.log.borrow_mut().push(Event::Write(command, data.to_vec()));
        Ok(())
    }

    fn read_parameters(&mut self, command: u8, data: &mut Vec<u8>) -> Result<(), &'static str> {
        if self.fail {
            return Err("bus failure");
        }
        self.log.borrow_mut().push(Event::Read(command, data.len()));
        let src = self.next_read.borrow();
        assert_eq!(src.len(), data.len(), "mock read size mismatch");
        data.clear();
        data.extend_from_slice(&src);
        Ok(())
    }
}

impl ExtendedCommandSet for MockBus {}

#[test]
fn column_address_default_decodes_reset_window() {
    let block = ColumnAddressSet::default();
    assert_eq!(block.read().sc(), 0x0000);
    assert_eq!(block.read().ec(), 0x00EF);
}

#[test]
fn column_address_set_sends_written_window() {
    let (bus, log) = MockBus::new();
    let mut c = Controller::new(bus);
    c.column_address_set(|w| w.sc(0x0010).ec(0x00EF)).unwrap();
    assert_eq!(
        log.borrow().as_slice(),
        &[Event::Write(0x2A, vec![0x00, 0x10, 0x00, 0xEF])]
    );
    let decoded = ColumnAddressSet { data: [0x00, 0x10, 0x00, 0xEF] };
    assert_eq!(decoded.read().sc(), 16);
}

#[test]
fn gamma_set_curve1_sends_opcode_0x26_payload_0x01() {
    let (bus, log) = MockBus::new();
    let mut c = Controller::new(bus);
    c.gamma_set(|w| w.curve_selected(CurveSelected::GammaCurve1G2o2)).unwrap();
    assert_eq!(log.borrow().as_slice(), &[Event::Write(0x26, vec![0x01])]);
}

#[test]
fn vcom_control2_bias_arithmetic_is_consistent() {
    // The reset byte 0xC0 carries source bit 1 and offset code 0x40, which
    // stands for offset 0.
    let block = VcomControl2::default();
    assert_eq!(block.data, [0xC0]);
    assert_eq!(block.read().vcomh(), Ok(0));
    // Writing offset 0 reproduces the same wire byte: 0xC0 & !0x7F | ((0 - (-63) + 1) & 0x7F).
    let written = VcomControl2::default().write(|w| w.vcomh(0));
    assert_eq!(written.data, [0xC0]);
    // Encode and decode agree across the documented range.
    for v in -63i8..=63 {
        let b = VcomControl2::default().write(|w| w.vcomh(v));
        assert_eq!(b.read().vcomh(), Ok(v));
    }
}

#[test]
fn read_display_power_mode_decodes_0x9c() {
    let (bus, log) = MockBus::new();
    let bus = bus.with_read(&[0x9C]);
    let mut c = Controller::new(bus);
    let block = c.read_display_power_mode().unwrap();
    assert_eq!(log.borrow().as_slice(), &[Event::Read(0x0A, 1)]);
    let r = block.read();
    assert_eq!(r.booster(), Ok(Booster::BoosterOnAndWorkingOk));
    assert_eq!(r.sleep(), Ok(Sleep::SleepOutMode));
    assert_eq!(r.display_is(), Ok(DisplayIs::DisplayIsOn));
}

#[test]
fn bare_commands_send_their_opcodes() {
    let (bus, log) = MockBus::new();
    let mut c = Controller::new(bus);
    c.no_operation().unwrap();
    c.software_reset().unwrap();
    c.enter_sleep_mode().unwrap();
    c.sleep_out().unwrap();
    c.partial_mode_on().unwrap();
    c.normal_display_mode_on().unwrap();
    c.display_inversion_off().unwrap();
    c.display_inversion_on().unwrap();
    c.display_off().unwrap();
    c.display_on().unwrap();
    c.tearing_effect_line_off().unwrap();
    c.idle_mode_off().unwrap();
    c.idle_mode_on().unwrap();
    let expected: Vec<Event> = [0x00, 0x01, 0x10, 0x11, 0x12, 0x13, 0x20, 0x21, 0x28, 0x29, 0x34, 0x38, 0x39]
        .iter()
        .map(|&op| Event::Command(op))
        .collect();
    assert_eq!(log.borrow().as_slice(), expected.as_slice());
}

#[test]
fn memory_write_passes_pixel_bytes_through() {
    let (bus, log) = MockBus::new();
    let mut c = Controller::new(bus);
    c.memory_write(&[0xDE, 0xAD, 0xBE]).unwrap();
    c.write_memory_continue(&[0xEF]).unwrap();
    assert_eq!(
        log.borrow().as_slice(),
        &[Event::Write(0x2C, vec![0xDE, 0xAD, 0xBE]), Event::Write(0x3C, vec![0xEF])]
    );
}

#[test]
fn memory_read_fills_the_callers_buffer() {
    let (bus, log) = MockBus::new();
    let bus = bus.with_read(&[0x11, 0x22]);
    let mut c = Controller::new(bus);
    let mut buf = vec![0u8; 2];
    c.memory_read(&mut buf).unwrap();
    assert_eq!(buf, vec![0x11, 0x22]);
    assert_eq!(log.borrow().as_slice(), &[Event::Read(0x2E, 2)]);
}

#[test]
fn color_set_wrong_length_reports_violation_and_sends_nothing() {
    let (bus, log) = MockBus::new();
    let mut c = Controller::new(bus);
    let short = [0u8; 31];
    let r = c.color_set(|w| w.r(&short));
    assert_eq!(
        r,
        Err(CommandError::Codec(CodecError::LengthMismatch { expected: 32, actual: 31 }))
    );
    assert!(log.borrow().is_empty());
}

#[test]
fn transport_failure_propagates_unchanged() {
    let (mut bus, log) = MockBus::new();
    bus.fail = true;
    let mut c = Controller::new(bus);
    assert_eq!(c.software_reset(), Err("bus failure"));
    assert_eq!(c.gamma_set(|w| w), Err("bus failure"));
    assert!(log.borrow().is_empty());
}

#[test]
fn write_commands_with_identity_builder_send_reset_defaults() {
    let (bus, log) = MockBus::new();
    let mut c = Controller::new(bus);
    c.pixel_format_set(|w| w).unwrap();
    c.memory_access_control(|w| w).unwrap();
    c.vcom_control1(|w| w).unwrap();
    c.blanking_porch_control(|w| w).unwrap();
    assert_eq!(
        log.borrow().as_slice(),
        &[
            Event::Write(0x3A, vec![0x66]),
            Event::Write(0x36, vec![0x00]),
            Event::Write(0xC5, vec![0x31, 0x3C]),
            Event::Write(0xB5, vec![0x02, 0x02, 0x0A, 0x14]),
        ]
    );
}
