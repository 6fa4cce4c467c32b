//! Read commands: received byte patterns decode into typed views, and the
//! controller asks the transport for exactly the block's size.

use std::cell::RefCell;
use std::rc::Rc;

use ili9341::Controller;
use ili9341::ExtendedCommandSet;
use ili9341::Interface;
use ili9341::entry_mode::EntryModeSet;
use ili9341::entry_mode::G1G320GateOutput;
use ili9341::error::CodecError;
use ili9341::nv_memory_status_read::Id1WriteCount;
use ili9341::read_display_status::Sleep;
use ili9341::tearing_effect_line_on::TearingEffectLineOn;

struct RecordingBus {
    reads: Rc<RefCell<Vec<(u8, usize)>>>,
    next_read: Vec<u8>,
}

impl Interface for RecordingBus {
    type Error = u32;

    fn command(&mut self, _command: u8) -> Result<(), u32> {
        Ok(())
    }

    fn send_parameters(&mut self, _command: u8, _data: &[u8]) -> Result<(), u32> {
        Ok(())
    }

    fn read_parameters(&mut self, command: u8, data: &mut Vec<u8>) -> Result<(), u32> {
        self.reads.borrow_mut().push((command, data.len()));
        if self.next_read.len() != data.len() {
            return Err(7);
        }
        data.clear();
        data.extend_from_slice(&self.next_read);
        Ok(())
    }
}

impl ExtendedCommandSet for RecordingBus {}

fn bus_with(next_read: &[u8]) -> (RecordingBus, Rc<RefCell<Vec<(u8, usize)>>>) {
    let reads = Rc::new(RefCell::new(Vec::new()));
    (RecordingBus { reads: reads.clone(), next_read: next_read.to_vec() }, reads)
}

#[test]
fn display_status_is_requested_as_four_bytes() {
    let (bus, reads) = bus_with(&[0x00, 0x02, 0x00, 0x00]);
    let mut c = Controller::new(bus);
    let block = c.read_display_status().unwrap();
    assert_eq!(reads.borrow().as_slice(), &[(0x09, 4)]);
    assert_eq!(block.read().sleep(), Ok(Sleep::SleepOutMode));
}

#[test]
fn identification_information_returns_three_ids() {
    let (bus, reads) = bus_with(&[0x12, 0x34, 0x56]);
    let mut c = Controller::new(bus);
    let block = c.read_display_identification_information().unwrap();
    assert_eq!(reads.borrow().as_slice(), &[(0x04, 3)]);
    let r = block.read();
    assert_eq!(r.lcd_modules_manufacturer_id(), 0x12);
    assert_eq!(r.lcd_module_driver_version_id(), 0x34);
    assert_eq!(r.lcd_module_driver_id(), 0x56);
}

#[test]
fn module_ids_come_from_their_own_opcodes() {
    let (bus, reads) = bus_with(&[0x42]);
    let mut c = Controller::new(bus);
    assert_eq!(c.read_id1().unwrap().read().id1(), 0x42);
    assert_eq!(c.read_id2().unwrap().read().id2(), 0x42);
    assert_eq!(c.read_id3().unwrap().read().id3(), 0x42);
    assert_eq!(reads.borrow().as_slice(), &[(0xDA, 1), (0xDB, 1), (0xDC, 1)]);
}

#[test]
fn id2_read_masks_to_seven_bits() {
    let (bus, _) = bus_with(&[0xFF]);
    let mut c = Controller::new(bus);
    assert_eq!(c.read_id2().unwrap().read().id2(), 0x7F);
}

#[test]
fn nv_memory_status_decodes_write_counts() {
    let (bus, reads) = bus_with(&[0x11, 0x00]);
    let mut c = Controller::new(bus);
    let block = c.nv_memory_status_read().unwrap();
    assert_eq!(reads.borrow().as_slice(), &[(0xD2, 2)]);
    assert_eq!(block.read().id1_write_count(), Ok(Id1WriteCount::Programmed1Time));
    // Count code 2 sits in the gap of the documented mapping (0, 1, 3, 7).
    let gap = ili9341::nv_memory_status_read::NvMemoryStatus { data: [0x02, 0x00] };
    assert_eq!(gap.read().id1_write_count(), Err(CodecError::UnrecognizedCode { code: 0x02 }));
}

#[test]
fn scanline_read_requests_two_bytes() {
    let (bus, reads) = bus_with(&[0x01, 0x9B]);
    let mut c = Controller::new(bus);
    let block = c.get_scanline().unwrap();
    assert_eq!(reads.borrow().as_slice(), &[(0x45, 2)]);
    assert_eq!(block.read().gts(), 0x019B);
}

#[test]
fn a_failed_read_returns_the_transport_error() {
    let (bus, _) = bus_with(&[0x00, 0x00, 0x00]);
    let mut c = Controller::new(bus);
    // The mock fails when the requested size does not match its prepared data.
    assert_eq!(c.read_display_power_mode().unwrap_err(), 7);
}

#[test]
fn entry_mode_gate_output_code_zero_is_undocumented() {
    let block = EntryModeSet { data: [0x00] };
    assert_eq!(
        block.read().g1_g320_gate_output(),
        Err(CodecError::UnrecognizedCode { code: 0x00 })
    );
    let written = EntryModeSet::default().write(|w| w.g1_g320_gate_output(G1G320GateOutput::Vgh));
    assert_eq!(written.read().g1_g320_gate_output(), Ok(G1G320GateOutput::Vgh));
}

#[test]
fn tearing_effect_mode_flag_roundtrips() {
    let block = TearingEffectLineOn::default().write(|w| w.m(true));
    assert_eq!(block.data, [0x01]);
    assert!(block.read().m());
    let off = block.write(|w| w.m(false));
    assert_eq!(off.data, [0x00]);
}
