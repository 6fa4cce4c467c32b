//! Typed command and register access for an ILI9341-class display controller.
//!
//! The crate has three layers. The [`Interface`] trait is the minimal
//! transport capability a physical bus must offer; it carries a ghost log of
//! the operations that reached the wire, so that every controller method can
//! state exactly which opcode and parameter bytes it sends. The
//! [`Controller`] owns one transport and exposes one method per chip command.
//! The codec modules — one per command parameter block — hold the verified
//! bit-packing and unpacking logic: each block is a fixed-length byte buffer
//! with a read view that extracts typed field values and a write view whose
//! setters merge new field values while provably leaving all other bits
//! unchanged.

pub mod bits;
pub mod error;

pub mod read_display_identification_information;
pub mod read_display_status;
pub mod read_display_power_mode;
pub mod read_display_madctl;
pub mod read_display_pixel_format;
pub mod read_display_image_format;
pub mod read_display_signal_mode;
pub mod read_display_self_diagnostic_result;
pub mod gamma;
pub mod column_address;
pub mod page_address;
pub mod color;
pub mod partial_area;
pub mod vertical_scrolling;
pub mod tearing_effect_line_on;
pub mod memory_access_control;
pub mod vertical_scrolling_start_address;
pub mod pixel_format;
pub mod tear_scanline;
pub mod get_scanline;
pub mod write_display_brightness;
pub mod read_display_brightness;
pub mod write_ctrl_display;
pub mod read_ctrl_display;
pub mod write_content_adaptive_brightness_control;
pub mod read_content_adaptive_brightness_control;
pub mod write_cabc_minimum_brightness;
pub mod read_cabc_minimum_brightness;
pub mod read_id1;
pub mod read_id2;
pub mod read_id3;
pub mod rgb_interface_signal_control;
pub mod frame_control_in_normal_mode;
pub mod frame_control_in_idle_mode;
pub mod frame_control_in_partial_mode;
pub mod display_inversion_control;
pub mod blanking_porch_control;
pub mod display_function_control;
pub mod entry_mode;
pub mod backlight_control1;
pub mod backlight_control2;
pub mod backlight_control3;
pub mod backlight_control4;
pub mod backlight_control5;
pub mod backlight_control7;
pub mod backlight_control8;
pub mod power_control1;
pub mod power_control2;
pub mod vcom_control1;
pub mod vcom_control2;
pub mod nv_memory_write;
pub mod nv_memory_protection_key;
pub mod nv_memory_status_read;
pub mod read_id4;
pub mod positive_gamma_correction;
pub mod negative_gamma_correction;
pub mod digital_gamma_control1;
pub mod digital_gamma_control2;
pub mod interface_control;

mod controller;

pub use controller::Controller;

use vstd::prelude::*;

verus! {

/// One operation that reached the wire, as the ghost transport log records
/// it: a bare command opcode, a command with parameter bytes sent to the
/// chip, or a command followed by parameter bytes received from the chip.
pub enum WireOp {
    Command { opcode: u8 },
    Write { opcode: u8, params: Seq<u8> },
    Read { opcode: u8, params: Seq<u8> },
}

/// The transport capability the controller requires from the physical bus
/// (SPI or parallel MPU). Implementations live outside this crate.
///
/// `wire_log` is the ghost history of operations that completed on the wire;
/// each method promises that, on success, exactly its own operation was
/// appended. On failure nothing is promised: the bus may have clocked out
/// part of a command before failing, and no rollback is possible.
pub trait Interface: Sized {
    /// The transport's own error type, propagated unchanged through every
    /// controller method.
    type Error;

    /// The history of operations that have completed on the wire. An
    /// implementation outside this crate inherits the default, which stands
    /// for a fresh history; a verified implementation may give its own.
    open spec fn wire_log(&self) -> Seq<WireOp> {
        Seq::empty()
    }

    /// Send a bare command opcode with no parameter bytes.
    fn command(&mut self, command: u8) -> (r: Result<(), Self::Error>)
        ensures
            r is Ok ==> final(self).wire_log() == old(self).wire_log().push(
                WireOp::Command { opcode: command },
            ),
    ;

    /// Send a command opcode followed by its parameter bytes.
    fn send_parameters(&mut self, command: u8, data: &[u8]) -> (r: Result<(), Self::Error>)
        ensures
            r is Ok ==> final(self).wire_log() == old(self).wire_log().push(
                WireOp::Write { opcode: command, params: data@ },
            ),
    ;

    /// Send a command opcode, then receive exactly `data.len()` parameter
    /// bytes into `data`. The implementation must insert the chip's required
    /// dummy read cycle between the command and the data phase.
    fn read_parameters(&mut self, command: u8, data: &mut Vec<u8>) -> (r: Result<
        (),
        Self::Error,
    >)
        ensures
            r is Ok ==> final(data)@.len() == old(data)@.len() && final(self).wire_log() == old(
                self,
            ).wire_log().push(WireOp::Read { opcode: command, params: final(data)@ }),
    ;
}

/// Marker for transports wired to chip revisions that carry the extended
/// register set (frame timing, power and VCOM control, gamma tables,
/// NV-memory programming, interface control). The extended controller
/// methods are only available through a transport that declares this, so
/// issuing an extended command to a chip without the extended set is ruled
/// out at compile time.
pub trait ExtendedCommandSet: Interface {

}

} // verus!
