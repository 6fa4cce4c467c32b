//! The controller: one method per chip command, each routed through the
//! transport with its documented opcode and an exactly specified parameter
//! block.

use vstd::prelude::*;

use crate::ExtendedCommandSet;
use crate::Interface;
use crate::WireOp;
use crate::error::CodecError;
use crate::error::CommandError;
use crate::backlight_control1;
use crate::backlight_control2;
use crate::backlight_control3;
use crate::backlight_control4;
use crate::backlight_control5;
use crate::backlight_control7;
use crate::backlight_control8;
use crate::blanking_porch_control;
use crate::color;
use crate::column_address;
use crate::digital_gamma_control1;
use crate::digital_gamma_control2;
use crate::display_function_control;
use crate::display_inversion_control;
use crate::entry_mode;
use crate::frame_control_in_idle_mode;
use crate::frame_control_in_normal_mode;
use crate::frame_control_in_partial_mode;
use crate::gamma;
use crate::get_scanline;
use crate::interface_control;
use crate::memory_access_control;
use crate::negative_gamma_correction;
use crate::nv_memory_protection_key;
use crate::nv_memory_status_read;
use crate::nv_memory_write;
use crate::page_address;
use crate::partial_area;
use crate::pixel_format;
use crate::positive_gamma_correction;
use crate::power_control1;
use crate::power_control2;
use crate::read_cabc_minimum_brightness;
use crate::read_content_adaptive_brightness_control;
use crate::read_ctrl_display;
use crate::read_display_brightness;
use crate::read_display_identification_information;
use crate::read_display_image_format;
use crate::read_display_madctl;
use crate::read_display_pixel_format;
use crate::read_display_power_mode;
use crate::read_display_self_diagnostic_result;
use crate::read_display_signal_mode;
use crate::read_display_status;
use crate::read_id1;
use crate::read_id2;
use crate::read_id3;
use crate::read_id4;
use crate::rgb_interface_signal_control;
use crate::tear_scanline;
use crate::tearing_effect_line_on;
use crate::vcom_control1;
use crate::vcom_control2;
use crate::vertical_scrolling;
use crate::vertical_scrolling_start_address;
use crate::write_cabc_minimum_brightness;
use crate::write_content_adaptive_brightness_control;
use crate::write_ctrl_display;
use crate::write_display_brightness;
use crate::backlight_control1::BacklightControl1Write;
use crate::backlight_control2::BacklightControl2Write;
use crate::backlight_control3::BacklightControl3Write;
use crate::backlight_control4::BacklightControl4Write;
use crate::backlight_control5::BacklightControl5Write;
use crate::backlight_control7::BacklightControl7Write;
use crate::backlight_control8::BacklightControl8Write;
use crate::blanking_porch_control::BlankingPorchControlWrite;
use crate::color::ColorSetWrite;
use crate::column_address::ColumnAddressSetWrite;
use crate::digital_gamma_control1::DigitalGammaControl1Write;
use crate::digital_gamma_control2::DigitalGammaControl2Write;
use crate::display_function_control::DisplayFunctionControlWrite;
use crate::display_inversion_control::DisplayInversionControlWrite;
use crate::entry_mode::EntryModeSetWrite;
use crate::frame_control_in_idle_mode::FrameControlInIdleModeWrite;
use crate::frame_control_in_normal_mode::FrameControlInNormalModeWrite;
use crate::frame_control_in_partial_mode::FrameControlInPartialModeWrite;
use crate::gamma::GammaSetWrite;
use crate::interface_control::InterfaceControlWrite;
use crate::memory_access_control::MemoryAccessControlWrite;
use crate::negative_gamma_correction::NegativeGammaCorrectionWrite;
use crate::nv_memory_protection_key::NvMemoryProtectionKeyWrite;
use crate::nv_memory_write::NvMemoryWrite;
use crate::page_address::PageAddressSetWrite;
use crate::partial_area::PartialAreaWrite;
use crate::pixel_format::PixelFormatSetWrite;
use crate::positive_gamma_correction::PositiveGammaCorrectionWrite;
use crate::power_control1::PowerControl1Write;
use crate::power_control2::PowerControl2Write;
use crate::rgb_interface_signal_control::RgbInterfaceSignalControlWrite;
use crate::tear_scanline::SetTearScanlineWrite;
use crate::tearing_effect_line_on::TearingEffectLineOnWrite;
use crate::vcom_control1::VcomControl1Write;
use crate::vcom_control2::VcomControl2Write;
use crate::vertical_scrolling::VerticalScrollingDefinitionWrite;
use crate::vertical_scrolling_start_address::VerticalScrollingStartAddressWrite;
use crate::write_cabc_minimum_brightness::CabcMinimumBrightnessWrite;
use crate::write_content_adaptive_brightness_control::ContentAdaptiveBrightnessControlWrite;
use crate::write_ctrl_display::CtrlDisplayWrite;
use crate::write_display_brightness::DisplayBrightnessWrite;

verus! {

/// Fill a receive buffer of `n` bytes.
fn byte_buffer(n: usize) -> (r: Vec<u8>)
    ensures
        r@.len() == n,
{
    let mut v: Vec<u8> = Vec::new();
    while v.len() < n
        invariant
            v@.len() <= n,
        decreases n - v@.len(),
    {
        v.push(0u8);
    }
    v
}

/// Copy a received buffer into a parameter block's fixed-size array.
fn bytes_into_array<const N: usize>(v: &Vec<u8>) -> (r: [u8; N])
    requires
        v@.len() == N,
    ensures
        r@ == v@,
{
    let mut r = [0u8; N];
    let mut i: usize = 0;
    while i < N
        invariant
            i <= N,
            v@.len() == N,
            r@.len() == N,
            forall|j: int| 0 <= j < i ==> r@[j] == v@[j],
        decreases N - i,
    {
        r[i] = v[i];
        i += 1;
    }
    proof {
        assert(r@ =~= v@);
    }
    r
}

/// Implements the chip's command set over an exclusively owned transport.
#[derive(Copy, Clone)]
pub struct Controller<Iface> where Iface: Interface {
    /// The transport the controller owns for its whole lifetime.
    iface: Iface,
}

impl<Iface: Interface> Controller<Iface> where Iface: Interface {
    /// The ghost history of operations the owned transport completed.
    pub closed spec fn wire_log(&self) -> Seq<WireOp> {
        self.iface.wire_log()
    }

    /// Take exclusive ownership of a transport.
    pub fn new(iface: Iface) -> (r: Controller<Iface>)
        ensures
            r.wire_log() == iface.wire_log(),
    {
        Controller { iface }
    }

    #[inline(always)]
    fn command(&mut self, command: u8) -> (r: Result<(), Iface::Error>)
        ensures
            r is Ok ==> final(self).wire_log() == old(self).wire_log().push(
                WireOp::Command { opcode: command },
            ),
    {
        self.iface.command(command)
    }

    #[inline(always)]
    fn send_parameters(&mut self, command: u8, data: &[u8]) -> (r: Result<(), Iface::Error>)
        ensures
            r is Ok ==> final(self).wire_log() == old(self).wire_log().push(
                WireOp::Write { opcode: command, params: data@ },
            ),
    {
        self.iface.send_parameters(command, data)
    }

    #[inline(always)]
    fn read_parameters(&mut self, command: u8, data: &mut Vec<u8>) -> (r: Result<
        (),
        Iface::Error,
    >)
        ensures
            r is Ok ==> final(data)@.len() == old(data)@.len() && final(self).wire_log() == old(
                self,
            ).wire_log().push(WireOp::Read { opcode: command, params: final(data)@ }),
    {
        self.iface.read_parameters(command, data)
    }

    /// No-operation command (opcode 0x00).
    pub fn no_operation(&mut self) -> (r: Result<(), Iface::Error>)
        ensures
            r is Ok ==> final(self).wire_log() == old(self).wire_log().push(
                WireOp::Command { opcode: 0x00 },
            ),
    {
        self.command(0x00)
    }

    /// Software reset: resets commands and parameters to their reset defaults (opcode 0x01).
    pub fn software_reset(&mut self) -> (r: Result<(), Iface::Error>)
        ensures
            r is Ok ==> final(self).wire_log() == old(self).wire_log().push(
                WireOp::Command { opcode: 0x01 },
            ),
    {
        self.command(0x01)
    }

    /// Read display identification information (opcode 0x04): receive the block's 3 bytes and
    /// return them as a typed `DisplayIdentificationInformation` block.
    pub fn read_display_identification_information(&mut self) -> (r: Result<read_display_identification_information::DisplayIdentificationInformation, Iface::Error>)
        ensures
            r matches Ok(b) ==> final(self).wire_log() == old(self).wire_log().push(
                WireOp::Read { opcode: 0x04, params: b.data@ },
            ),
    {
        let mut buf = byte_buffer(3);
        match self.read_parameters(0x04, &mut buf) {
            Ok(()) => Ok(read_display_identification_information::DisplayIdentificationInformation { data: bytes_into_array::<3>(&buf) }),
            Err(e) => Err(e),
        }
    }

    /// Read display status (opcode 0x09): receive the block's 4 bytes and
    /// return them as a typed `DisplayStatus` block.
    pub fn read_display_status(&mut self) -> (r: Result<read_display_status::DisplayStatus, Iface::Error>)
        ensures
            r matches Ok(b) ==> final(self).wire_log() == old(self).wire_log().push(
                WireOp::Read { opcode: 0x09, params: b.data@ },
            ),
    {
        let mut buf = byte_buffer(4);
        match self.read_parameters(0x09, &mut buf) {
            Ok(()) => Ok(read_display_status::DisplayStatus { data: bytes_into_array::<4>(&buf) }),
            Err(e) => Err(e),
        }
    }

    /// Read display power mode (opcode 0x0A): receive the block's 1 byte and
    /// return them as a typed `DisplayPowerMode` block.
    pub fn read_display_power_mode(&mut self) -> (r: Result<read_display_power_mode::DisplayPowerMode, Iface::Error>)
        ensures
            r matches Ok(b) ==> final(self).wire_log() == old(self).wire_log().push(
                WireOp::Read { opcode: 0x0A, params: b.data@ },
            ),
    {
        let mut buf = byte_buffer(1);
        match self.read_parameters(0x0A, &mut buf) {
            Ok(()) => Ok(read_display_power_mode::DisplayPowerMode { data: bytes_into_array::<1>(&buf) }),
            Err(e) => Err(e),
        }
    }

    /// Read display madctl (opcode 0x0B): receive the block's 1 byte and
    /// return them as a typed `DisplayMadctl` block.
    pub fn read_display_madctl(&mut self) -> (r: Result<read_display_madctl::DisplayMadctl, Iface::Error>)
        ensures
            r matches Ok(b) ==> final(self).wire_log() == old(self).wire_log().push(
                WireOp::Read { opcode: 0x0B, params: b.data@ },
            ),
    {
        let mut buf = byte_buffer(1);
        match self.read_parameters(0x0B, &mut buf) {
            Ok(()) => Ok(read_display_madctl::DisplayMadctl { data: bytes_into_array::<1>(&buf) }),
            Err(e) => Err(e),
        }
    }

    /// Read display pixel format (opcode 0x0C): receive the block's 1 byte and
    /// return them as a typed `DisplayPixelFormat` block.
    pub fn read_display_pixel_format(&mut self) -> (r: Result<read_display_pixel_format::DisplayPixelFormat, Iface::Error>)
        ensures
            r matches Ok(b) ==> final(self).wire_log() == old(self).wire_log().push(
                WireOp::Read { opcode: 0x0C, params: b.data@ },
            ),
    {
        let mut buf = byte_buffer(1);
        match self.read_parameters(0x0C, &mut buf) {
            Ok(()) => Ok(read_display_pixel_format::DisplayPixelFormat { data: bytes_into_array::<1>(&buf) }),
            Err(e) => Err(e),
        }
    }

    /// Read display image format (opcode 0x0D): receive the block's 1 byte and
    /// return them as a typed `DisplayImageFormat` block.
    pub fn read_display_image_format(&mut self) -> (r: Result<read_display_image_format::DisplayImageFormat, Iface::Error>)
        ensures
            r matches Ok(b) ==> final(self).wire_log() == old(self).wire_log().push(
                WireOp::Read { opcode: 0x0D, params: b.data@ },
            ),
    {
        let mut buf = byte_buffer(1);
        match self.read_parameters(0x0D, &mut buf) {
            Ok(()) => Ok(read_display_image_format::DisplayImageFormat { data: bytes_into_array::<1>(&buf) }),
            Err(e) => Err(e),
        }
    }

    /// Read display signal mode (opcode 0x0E): receive the block's 1 byte and
    /// return them as a typed `DisplaySignalMode` block.
    pub fn read_display_signal_mode(&mut self) -> (r: Result<read_display_signal_mode::DisplaySignalMode, Iface::Error>)
        ensures
            r matches Ok(b) ==> final(self).wire_log() == old(self).wire_log().push(
                WireOp::Read { opcode: 0x0E, params: b.data@ },
            ),
    {
        let mut buf = byte_buffer(1);
        match self.read_parameters(0x0E, &mut buf) {
            Ok(()) => Ok(read_display_signal_mode::DisplaySignalMode { data: bytes_into_array::<1>(&buf) }),
            Err(e) => Err(e),
        }
    }

    /// Read display self diagnostic result (opcode 0x0F): receive the block's 1 byte and
    /// return them as a typed `DisplaySelfDiagnosticResult` block.
    pub fn read_display_self_diagnostic_result(&mut self) -> (r: Result<read_display_self_diagnostic_result::DisplaySelfDiagnosticResult, Iface::Error>)
        ensures
            r matches Ok(b) ==> final(self).wire_log() == old(self).wire_log().push(
                WireOp::Read { opcode: 0x0F, params: b.data@ },
            ),
    {
        let mut buf = byte_buffer(1);
        match self.read_parameters(0x0F, &mut buf) {
            Ok(()) => Ok(read_display_self_diagnostic_result::DisplaySelfDiagnosticResult { data: bytes_into_array::<1>(&buf) }),
            Err(e) => Err(e),
        }
    }

    /// Enter the minimum power consumption mode (opcode 0x10).
    pub fn enter_sleep_mode(&mut self) -> (r: Result<(), Iface::Error>)
        ensures
            r is Ok ==> final(self).wire_log() == old(self).wire_log().push(
                WireOp::Command { opcode: 0x10 },
            ),
    {
        self.command(0x10)
    }

    /// Turn off sleep mode (opcode 0x11).
    pub fn sleep_out(&mut self) -> (r: Result<(), Iface::Error>)
        ensures
            r is Ok ==> final(self).wire_log() == old(self).wire_log().push(
                WireOp::Command { opcode: 0x11 },
            ),
    {
        self.command(0x11)
    }

    /// Turn on partial mode (opcode 0x12).
    pub fn partial_mode_on(&mut self) -> (r: Result<(), Iface::Error>)
        ensures
            r is Ok ==> final(self).wire_log() == old(self).wire_log().push(
                WireOp::Command { opcode: 0x12 },
            ),
    {
        self.command(0x12)
    }

    /// Return the display to normal mode (opcode 0x13).
    pub fn normal_display_mode_on(&mut self) -> (r: Result<(), Iface::Error>)
        ensures
            r is Ok ==> final(self).wire_log() == old(self).wire_log().push(
                WireOp::Command { opcode: 0x13 },
            ),
    {
        self.command(0x13)
    }

    /// Recover from display inversion mode (opcode 0x20).
    pub fn display_inversion_off(&mut self) -> (r: Result<(), Iface::Error>)
        ensures
            r is Ok ==> final(self).wire_log() == old(self).wire_log().push(
                WireOp::Command { opcode: 0x20 },
            ),
    {
        self.command(0x20)
    }

    /// Enter display inversion mode (opcode 0x21).
    pub fn display_inversion_on(&mut self) -> (r: Result<(), Iface::Error>)
        ensures
            r is Ok ==> final(self).wire_log() == old(self).wire_log().push(
                WireOp::Command { opcode: 0x21 },
            ),
    {
        self.command(0x21)
    }

    /// Gamma set (opcode 0x26): build the `GammaSet` parameter block from
    /// its default value through the caller's builder and send it.
    pub fn gamma_set<F: FnOnce(GammaSetWrite) -> GammaSetWrite>(&mut self, f: F) -> (r: Result<
        (),
        Iface::Error,
    >)
        requires
            forall|w0: GammaSetWrite|
                w0.d.data@ == gamma::GammaSet::spec_default() ==> #[trigger] call_requires(f, (w0,)),
        ensures
            r is Ok ==> exists|w0: GammaSetWrite, w1: GammaSetWrite|
                {
                    &&& w0.d.data@ == gamma::GammaSet::spec_default()
                    &&& call_ensures(f, (w0,), w1)
                    &&& final(self).wire_log() == old(self).wire_log().push(
                        WireOp::Write { opcode: 0x26, params: w1.d.data@ },
                    )
                },
    {
        let block0 = gamma::GammaSet::default();
        proof {
            assert(call_requires(f, ((GammaSetWrite { d: block0 }),)));
        }
        let block = block0.write(f);
        let r = self.send_parameters(0x26, block.data.as_slice());
        proof {
            if r is Ok {
                assert((GammaSetWrite { d: block0 }).d.data@ == gamma::GammaSet::spec_default()
                    && call_ensures(f, ((GammaSetWrite { d: block0 }),), (GammaSetWrite { d: block }))
                    && self.wire_log() == old(self).wire_log().push(
                    WireOp::Write { opcode: 0x26, params: (GammaSetWrite { d: block }).d.data@ },
                ));
            }
        }
        r
    }

    /// Enter display-off mode (opcode 0x28).
    pub fn display_off(&mut self) -> (r: Result<(), Iface::Error>)
        ensures
            r is Ok ==> final(self).wire_log() == old(self).wire_log().push(
                WireOp::Command { opcode: 0x28 },
            ),
    {
        self.command(0x28)
    }

    /// Recover from display-off mode (opcode 0x29).
    pub fn display_on(&mut self) -> (r: Result<(), Iface::Error>)
        ensures
            r is Ok ==> final(self).wire_log() == old(self).wire_log().push(
                WireOp::Command { opcode: 0x29 },
            ),
    {
        self.command(0x29)
    }

    /// Column address set (opcode 0x2A): build the `ColumnAddressSet` parameter block from
    /// its default value through the caller's builder and send it.
    pub fn column_address_set<F: FnOnce(ColumnAddressSetWrite) -> ColumnAddressSetWrite>(&mut self, f: F) -> (r: Result<
        (),
        Iface::Error,
    >)
        requires
            forall|w0: ColumnAddressSetWrite|
                w0.d.data@ == column_address::ColumnAddressSet::spec_default() ==> #[trigger] call_requires(f, (w0,)),
        ensures
            r is Ok ==> exists|w0: ColumnAddressSetWrite, w1: ColumnAddressSetWrite|
                {
                    &&& w0.d.data@ == column_address::ColumnAddressSet::spec_default()
                    &&& call_ensures(f, (w0,), w1)
                    &&& final(self).wire_log() == old(self).wire_log().push(
                        WireOp::Write { opcode: 0x2A, params: w1.d.data@ },
                    )
                },
    {
        let block0 = column_address::ColumnAddressSet::default();
        proof {
            assert(call_requires(f, ((ColumnAddressSetWrite { d: block0 }),)));
        }
        let block = block0.write(f);
        let r = self.send_parameters(0x2A, block.data.as_slice());
        proof {
            if r is Ok {
                assert((ColumnAddressSetWrite { d: block0 }).d.data@ == column_address::ColumnAddressSet::spec_default()
                    && call_ensures(f, ((ColumnAddressSetWrite { d: block0 }),), (ColumnAddressSetWrite { d: block }))
                    && self.wire_log() == old(self).wire_log().push(
                    WireOp::Write { opcode: 0x2A, params: (ColumnAddressSetWrite { d: block }).d.data@ },
                ));
            }
        }
        r
    }

    /// Page address set (opcode 0x2B): build the `PageAddressSet` parameter block from
    /// its default value through the caller's builder and send it.
    pub fn page_address_set<F: FnOnce(PageAddressSetWrite) -> PageAddressSetWrite>(&mut self, f: F) -> (r: Result<
        (),
        Iface::Error,
    >)
        requires
            forall|w0: PageAddressSetWrite|
                w0.d.data@ == page_address::PageAddressSet::spec_default() ==> #[trigger] call_requires(f, (w0,)),
        ensures
            r is Ok ==> exists|w0: PageAddressSetWrite, w1: PageAddressSetWrite|
                {
                    &&& w0.d.data@ == page_address::PageAddressSet::spec_default()
                    &&& call_ensures(f, (w0,), w1)
                    &&& final(self).wire_log() == old(self).wire_log().push(
                        WireOp::Write { opcode: 0x2B, params: w1.d.data@ },
                    )
                },
    {
        let block0 = page_address::PageAddressSet::default();
        proof {
            assert(call_requires(f, ((PageAddressSetWrite { d: block0 }),)));
        }
        let block = block0.write(f);
        let r = self.send_parameters(0x2B, block.data.as_slice());
        proof {
            if r is Ok {
                assert((PageAddressSetWrite { d: block0 }).d.data@ == page_address::PageAddressSet::spec_default()
                    && call_ensures(f, ((PageAddressSetWrite { d: block0 }),), (PageAddressSetWrite { d: block }))
                    && self.wire_log() == old(self).wire_log().push(
                    WireOp::Write { opcode: 0x2B, params: (PageAddressSetWrite { d: block }).d.data@ },
                ));
            }
        }
        r
    }

    /// Memory write (opcode 0x2C): send raw frame-memory bytes; the codec
    /// layer does not apply to pixel data.
    pub fn memory_write(&mut self, d: &[u8]) -> (r: Result<(), Iface::Error>)
        ensures
            r is Ok ==> final(self).wire_log() == old(self).wire_log().push(
                WireOp::Write { opcode: 0x2C, params: d@ },
            ),
    {
        self.send_parameters(0x2C, d)
    }

    /// Color set (opcode 0x2D): build the `ColorSet` parameter block from
    /// its default value through the caller's builder and send it. A builder
    /// that reports a codec contract violation stops the command before
    /// anything reaches the wire.
    pub fn color_set<F: FnOnce(ColorSetWrite) -> Result<ColorSetWrite, CodecError>>(&mut self, f: F) -> (r: Result<
        (),
        CommandError<Iface::Error>,
    >)
        requires
            forall|w0: ColorSetWrite|
                w0.d.data@ == color::ColorSet::spec_default() ==> #[trigger] call_requires(f, (w0,)),
        ensures
            r is Ok ==> exists|w0: ColorSetWrite, w1: ColorSetWrite|
                {
                    &&& w0.d.data@ == color::ColorSet::spec_default()
                    &&& call_ensures(f, (w0,), Ok(w1))
                    &&& final(self).wire_log() == old(self).wire_log().push(
                        WireOp::Write { opcode: 0x2D, params: w1.d.data@ },
                    )
                },
            r matches Err(CommandError::Codec(e)) ==> final(self).wire_log() == old(
                self,
            ).wire_log() && exists|w0: ColorSetWrite|
                w0.d.data@ == color::ColorSet::spec_default() && #[trigger] call_ensures(f, (w0,), Err(e)),
    {
        let block0 = color::ColorSet::default();
        proof {
            assert(call_requires(f, ((ColorSetWrite { d: block0 }),)));
        }
        match block0.write(f) {
            Ok(block) => {
                let r = self.send_parameters(0x2D, block.data.as_slice());
                proof {
                    if r is Ok {
                        assert((ColorSetWrite { d: block0 }).d.data@ == color::ColorSet::spec_default()
                            && call_ensures(
                            f,
                            ((ColorSetWrite { d: block0 }),),
                            Ok((ColorSetWrite { d: block })),
                        )
                            && self.wire_log() == old(self).wire_log().push(
                            WireOp::Write { opcode: 0x2D, params: (ColorSetWrite { d: block }).d.data@ },
                        ));
                    }
                }
                match r {
                    Ok(()) => Ok(()),
                    Err(e) => Err(CommandError::Transport(e)),
                }
            },
            Err(e) => {
                proof {
                    assert((ColorSetWrite { d: block0 }).d.data@ == color::ColorSet::spec_default());
                }
                Err(CommandError::Codec(e))
            },
        }
    }

    /// Memory read (opcode 0x2E): receive raw frame-memory bytes into the
    /// caller's buffer, as many as the buffer holds; the codec layer does not
    /// apply to pixel data.
    pub fn memory_read(&mut self, d: &mut Vec<u8>) -> (r: Result<(), Iface::Error>)
        ensures
            r is Ok ==> final(d)@.len() == old(d)@.len() && final(self).wire_log() == old(
                self,
            ).wire_log().push(WireOp::Read { opcode: 0x2E, params: final(d)@ }),
    {
        self.read_parameters(0x2E, d)
    }

    /// Partial area (opcode 0x30): build the `PartialArea` parameter block from
    /// its default value through the caller's builder and send it.
    pub fn partial_area<F: FnOnce(PartialAreaWrite) -> PartialAreaWrite>(&mut self, f: F) -> (r: Result<
        (),
        Iface::Error,
    >)
        requires
            forall|w0: PartialAreaWrite|
                w0.d.data@ == partial_area::PartialArea::spec_default() ==> #[trigger] call_requires(f, (w0,)),
        ensures
            r is Ok ==> exists|w0: PartialAreaWrite, w1: PartialAreaWrite|
                {
                    &&& w0.d.data@ == partial_area::PartialArea::spec_default()
                    &&& call_ensures(f, (w0,), w1)
                    &&& final(self).wire_log() == old(self).wire_log().push(
                        WireOp::Write { opcode: 0x30, params: w1.d.data@ },
                    )
                },
    {
        let block0 = partial_area::PartialArea::default();
        proof {
            assert(call_requires(f, ((PartialAreaWrite { d: block0 }),)));
        }
        let block = block0.write(f);
        let r = self.send_parameters(0x30, block.data.as_slice());
        proof {
            if r is Ok {
                assert((PartialAreaWrite { d: block0 }).d.data@ == partial_area::PartialArea::spec_default()
                    && call_ensures(f, ((PartialAreaWrite { d: block0 }),), (PartialAreaWrite { d: block }))
                    && self.wire_log() == old(self).wire_log().push(
                    WireOp::Write { opcode: 0x30, params: (PartialAreaWrite { d: block }).d.data@ },
                ));
            }
        }
        r
    }

    /// Vertical scrolling definition (opcode 0x33): build the `VerticalScrollingDefinition` parameter block from
    /// its default value through the caller's builder and send it.
    pub fn vertical_scrolling_definition<F: FnOnce(VerticalScrollingDefinitionWrite) -> VerticalScrollingDefinitionWrite>(&mut self, f: F) -> (r: Result<
        (),
        Iface::Error,
    >)
        requires
            forall|w0: VerticalScrollingDefinitionWrite|
                w0.d.data@ == vertical_scrolling::VerticalScrollingDefinition::spec_default() ==> #[trigger] call_requires(f, (w0,)),
        ensures
            r is Ok ==> exists|w0: VerticalScrollingDefinitionWrite, w1: VerticalScrollingDefinitionWrite|
                {
                    &&& w0.d.data@ == vertical_scrolling::VerticalScrollingDefinition::spec_default()
                    &&& call_ensures(f, (w0,), w1)
                    &&& final(self).wire_log() == old(self).wire_log().push(
                        WireOp::Write { opcode: 0x33, params: w1.d.data@ },
                    )
                },
    {
        let block0 = vertical_scrolling::VerticalScrollingDefinition::default();
        proof {
            assert(call_requires(f, ((VerticalScrollingDefinitionWrite { d: block0 }),)));
        }
        let block = block0.write(f);
        let r = self.send_parameters(0x33, block.data.as_slice());
        proof {
            if r is Ok {
                assert((VerticalScrollingDefinitionWrite { d: block0 }).d.data@ == vertical_scrolling::VerticalScrollingDefinition::spec_default()
                    && call_ensures(f, ((VerticalScrollingDefinitionWrite { d: block0 }),), (VerticalScrollingDefinitionWrite { d: block }))
                    && self.wire_log() == old(self).wire_log().push(
                    WireOp::Write { opcode: 0x33, params: (VerticalScrollingDefinitionWrite { d: block }).d.data@ },
                ));
            }
        }
        r
    }

    /// Turn off the tearing-effect output signal (opcode 0x34).
    pub fn tearing_effect_line_off(&mut self) -> (r: Result<(), Iface::Error>)
        ensures
            r is Ok ==> final(self).wire_log() == old(self).wire_log().push(
                WireOp::Command { opcode: 0x34 },
            ),
    {
        self.command(0x34)
    }

    /// Tearing effect line on (opcode 0x35): build the `TearingEffectLineOn` parameter block from
    /// its default value through the caller's builder and send it.
    pub fn tearing_effect_line_on<F: FnOnce(TearingEffectLineOnWrite) -> TearingEffectLineOnWrite>(&mut self, f: F) -> (r: Result<
        (),
        Iface::Error,
    >)
        requires
            forall|w0: TearingEffectLineOnWrite|
                w0.d.data@ == tearing_effect_line_on::TearingEffectLineOn::spec_default() ==> #[trigger] call_requires(f, (w0,)),
        ensures
            r is Ok ==> exists|w0: TearingEffectLineOnWrite, w1: TearingEffectLineOnWrite|
                {
                    &&& w0.d.data@ == tearing_effect_line_on::TearingEffectLineOn::spec_default()
                    &&& call_ensures(f, (w0,), w1)
                    &&& final(self).wire_log() == old(self).wire_log().push(
                        WireOp::Write { opcode: 0x35, params: w1.d.data@ },
                    )
                },
    {
        let block0 = tearing_effect_line_on::TearingEffectLineOn::default();
        proof {
            assert(call_requires(f, ((TearingEffectLineOnWrite { d: block0 }),)));
        }
        let block = block0.write(f);
        let r = self.send_parameters(0x35, block.data.as_slice());
        proof {
            if r is Ok {
                assert((TearingEffectLineOnWrite { d: block0 }).d.data@ == tearing_effect_line_on::TearingEffectLineOn::spec_default()
                    && call_ensures(f, ((TearingEffectLineOnWrite { d: block0 }),), (TearingEffectLineOnWrite { d: block }))
                    && self.wire_log() == old(self).wire_log().push(
                    WireOp::Write { opcode: 0x35, params: (TearingEffectLineOnWrite { d: block }).d.data@ },
                ));
            }
        }
        r
    }

    /// Memory access control (opcode 0x36): build the `MemoryAccessControl` parameter block from
    /// its default value through the caller's builder and send it.
    pub fn memory_access_control<F: FnOnce(MemoryAccessControlWrite) -> MemoryAccessControlWrite>(&mut self, f: F) -> (r: Result<
        (),
        Iface::Error,
    >)
        requires
            forall|w0: MemoryAccessControlWrite|
                w0.d.data@ == memory_access_control::MemoryAccessControl::spec_default() ==> #[trigger] call_requires(f, (w0,)),
        ensures
            r is Ok ==> exists|w0: MemoryAccessControlWrite, w1: MemoryAccessControlWrite|
                {
                    &&& w0.d.data@ == memory_access_control::MemoryAccessControl::spec_default()
                    &&& call_ensures(f, (w0,), w1)
                    &&& final(self).wire_log() == old(self).wire_log().push(
                        WireOp::Write { opcode: 0x36, params: w1.d.data@ },
                    )
                },
    {
        let block0 = memory_access_control::MemoryAccessControl::default();
        proof {
            assert(call_requires(f, ((MemoryAccessControlWrite { d: block0 }),)));
        }
        let block = block0.write(f);
        let r = self.send_parameters(0x36, block.data.as_slice());
        proof {
            if r is Ok {
                assert((MemoryAccessControlWrite { d: block0 }).d.data@ == memory_access_control::MemoryAccessControl::spec_default()
                    && call_ensures(f, ((MemoryAccessControlWrite { d: block0 }),), (MemoryAccessControlWrite { d: block }))
                    && self.wire_log() == old(self).wire_log().push(
                    WireOp::Write { opcode: 0x36, params: (MemoryAccessControlWrite { d: block }).d.data@ },
                ));
            }
        }
        r
    }

    /// Vertical scrolling start address (opcode 0x37): build the `VerticalScrollingStartAddress` parameter block from
    /// its default value through the caller's builder and send it.
    pub fn vertical_scrolling_start_address<F: FnOnce(VerticalScrollingStartAddressWrite) -> VerticalScrollingStartAddressWrite>(&mut self, f: F) -> (r: Result<
        (),
        Iface::Error,
    >)
        requires
            forall|w0: VerticalScrollingStartAddressWrite|
                w0.d.data@ == vertical_scrolling_start_address::VerticalScrollingStartAddress::spec_default() ==> #[trigger] call_requires(f, (w0,)),
        ensures
            r is Ok ==> exists|w0: VerticalScrollingStartAddressWrite, w1: VerticalScrollingStartAddressWrite|
                {
                    &&& w0.d.data@ == vertical_scrolling_start_address::VerticalScrollingStartAddress::spec_default()
                    &&& call_ensures(f, (w0,), w1)
                    &&& final(self).wire_log() == old(self).wire_log().push(
                        WireOp::Write { opcode: 0x37, params: w1.d.data@ },
                    )
                },
    {
        let block0 = vertical_scrolling_start_address::VerticalScrollingStartAddress::default();
        proof {
            assert(call_requires(f, ((VerticalScrollingStartAddressWrite { d: block0 }),)));
        }
        let block = block0.write(f);
        let r = self.send_parameters(0x37, block.data.as_slice());
        proof {
            if r is Ok {
                assert((VerticalScrollingStartAddressWrite { d: block0 }).d.data@ == vertical_scrolling_start_address::VerticalScrollingStartAddress::spec_default()
                    && call_ensures(f, ((VerticalScrollingStartAddressWrite { d: block0 }),), (VerticalScrollingStartAddressWrite { d: block }))
                    && self.wire_log() == old(self).wire_log().push(
                    WireOp::Write { opcode: 0x37, params: (VerticalScrollingStartAddressWrite { d: block }).d.data@ },
                ));
            }
        }
        r
    }

    /// Recover from idle mode (opcode 0x38).
    pub fn idle_mode_off(&mut self) -> (r: Result<(), Iface::Error>)
        ensures
            r is Ok ==> final(self).wire_log() == old(self).wire_log().push(
                WireOp::Command { opcode: 0x38 },
            ),
    {
        self.command(0x38)
    }

    /// Enter idle mode (opcode 0x39).
    pub fn idle_mode_on(&mut self) -> (r: Result<(), Iface::Error>)
        ensures
            r is Ok ==> final(self).wire_log() == old(self).wire_log().push(
                WireOp::Command { opcode: 0x39 },
            ),
    {
        self.command(0x39)
    }

    /// Pixel format set (opcode 0x3A): build the `PixelFormatSet` parameter block from
    /// its default value through the caller's builder and send it.
    pub fn pixel_format_set<F: FnOnce(PixelFormatSetWrite) -> PixelFormatSetWrite>(&mut self, f: F) -> (r: Result<
        (),
        Iface::Error,
    >)
        requires
            forall|w0: PixelFormatSetWrite|
                w0.d.data@ == pixel_format::PixelFormatSet::spec_default() ==> #[trigger] call_requires(f, (w0,)),
        ensures
            r is Ok ==> exists|w0: PixelFormatSetWrite, w1: PixelFormatSetWrite|
                {
                    &&& w0.d.data@ == pixel_format::PixelFormatSet::spec_default()
                    &&& call_ensures(f, (w0,), w1)
                    &&& final(self).wire_log() == old(self).wire_log().push(
                        WireOp::Write { opcode: 0x3A, params: w1.d.data@ },
                    )
                },
    {
        let block0 = pixel_format::PixelFormatSet::default();
        proof {
            assert(call_requires(f, ((PixelFormatSetWrite { d: block0 }),)));
        }
        let block = block0.write(f);
        let r = self.send_parameters(0x3A, block.data.as_slice());
        proof {
            if r is Ok {
                assert((PixelFormatSetWrite { d: block0 }).d.data@ == pixel_format::PixelFormatSet::spec_default()
                    && call_ensures(f, ((PixelFormatSetWrite { d: block0 }),), (PixelFormatSetWrite { d: block }))
                    && self.wire_log() == old(self).wire_log().push(
                    WireOp::Write { opcode: 0x3A, params: (PixelFormatSetWrite { d: block }).d.data@ },
                ));
            }
        }
        r
    }

    /// Write memory continue (opcode 0x3C): send raw frame-memory bytes; the codec
    /// layer does not apply to pixel data.
    pub fn write_memory_continue(&mut self, d: &[u8]) -> (r: Result<(), Iface::Error>)
        ensures
            r is Ok ==> final(self).wire_log() == old(self).wire_log().push(
                WireOp::Write { opcode: 0x3C, params: d@ },
            ),
    {
        self.send_parameters(0x3C, d)
    }

    /// Read memory continue (opcode 0x3E): receive raw frame-memory bytes into the
    /// caller's buffer, as many as the buffer holds; the codec layer does not
    /// apply to pixel data.
    pub fn read_memory_continue(&mut self, d: &mut Vec<u8>) -> (r: Result<(), Iface::Error>)
        ensures
            r is Ok ==> final(d)@.len() == old(d)@.len() && final(self).wire_log() == old(
                self,
            ).wire_log().push(WireOp::Read { opcode: 0x3E, params: final(d)@ }),
    {
        self.read_parameters(0x3E, d)
    }

    /// Set tear scanline (opcode 0x44): build the `SetTearScanline` parameter block from
    /// its default value through the caller's builder and send it.
    pub fn set_tear_scanline<F: FnOnce(SetTearScanlineWrite) -> SetTearScanlineWrite>(&mut self, f: F) -> (r: Result<
        (),
        Iface::Error,
    >)
        requires
            forall|w0: SetTearScanlineWrite|
                w0.d.data@ == tear_scanline::SetTearScanline::spec_default() ==> #[trigger] call_requires(f, (w0,)),
        ensures
            r is Ok ==> exists|w0: SetTearScanlineWrite, w1: SetTearScanlineWrite|
                {
                    &&& w0.d.data@ == tear_scanline::SetTearScanline::spec_default()
                    &&& call_ensures(f, (w0,), w1)
                    &&& final(self).wire_log() == old(self).wire_log().push(
                        WireOp::Write { opcode: 0x44, params: w1.d.data@ },
                    )
                },
    {
        let block0 = tear_scanline::SetTearScanline::default();
        proof {
            assert(call_requires(f, ((SetTearScanlineWrite { d: block0 }),)));
        }
        let block = block0.write(f);
        let r = self.send_parameters(0x44, block.data.as_slice());
        proof {
            if r is Ok {
                assert((SetTearScanlineWrite { d: block0 }).d.data@ == tear_scanline::SetTearScanline::spec_default()
                    && call_ensures(f, ((SetTearScanlineWrite { d: block0 }),), (SetTearScanlineWrite { d: block }))
                    && self.wire_log() == old(self).wire_log().push(
                    WireOp::Write { opcode: 0x44, params: (SetTearScanlineWrite { d: block }).d.data@ },
                ));
            }
        }
        r
    }

    /// Get scanline (opcode 0x45): receive the block's 2 bytes and
    /// return them as a typed `GetScanline` block.
    pub fn get_scanline(&mut self) -> (r: Result<get_scanline::GetScanline, Iface::Error>)
        ensures
            r matches Ok(b) ==> final(self).wire_log() == old(self).wire_log().push(
                WireOp::Read { opcode: 0x45, params: b.data@ },
            ),
    {
        let mut buf = byte_buffer(2);
        match self.read_parameters(0x45, &mut buf) {
            Ok(()) => Ok(get_scanline::GetScanline { data: bytes_into_array::<2>(&buf) }),
            Err(e) => Err(e),
        }
    }

    /// Write display brightness (opcode 0x51): build the `DisplayBrightness` parameter block from
    /// its default value through the caller's builder and send it.
    pub fn write_display_brightness<F: FnOnce(DisplayBrightnessWrite) -> DisplayBrightnessWrite>(&mut self, f: F) -> (r: Result<
        (),
        Iface::Error,
    >)
        requires
            forall|w0: DisplayBrightnessWrite|
                w0.d.data@ == write_display_brightness::DisplayBrightness::spec_default() ==> #[trigger] call_requires(f, (w0,)),
        ensures
            r is Ok ==> exists|w0: DisplayBrightnessWrite, w1: DisplayBrightnessWrite|
                {
                    &&& w0.d.data@ == write_display_brightness::DisplayBrightness::spec_default()
                    &&& call_ensures(f, (w0,), w1)
                    &&& final(self).wire_log() == old(self).wire_log().push(
                        WireOp::Write { opcode: 0x51, params: w1.d.data@ },
                    )
                },
    {
        let block0 = write_display_brightness::DisplayBrightness::default();
        proof {
            assert(call_requires(f, ((DisplayBrightnessWrite { d: block0 }),)));
        }
        let block = block0.write(f);
        let r = self.send_parameters(0x51, block.data.as_slice());
        proof {
            if r is Ok {
                assert((DisplayBrightnessWrite { d: block0 }).d.data@ == write_display_brightness::DisplayBrightness::spec_default()
                    && call_ensures(f, ((DisplayBrightnessWrite { d: block0 }),), (DisplayBrightnessWrite { d: block }))
                    && self.wire_log() == old(self).wire_log().push(
                    WireOp::Write { opcode: 0x51, params: (DisplayBrightnessWrite { d: block }).d.data@ },
                ));
            }
        }
        r
    }

    /// Read display brightness (opcode 0x52): receive the block's 1 byte and
    /// return them as a typed `DisplayBrightness` block.
    pub fn read_display_brightness(&mut self) -> (r: Result<read_display_brightness::DisplayBrightness, Iface::Error>)
        ensures
            r matches Ok(b) ==> final(self).wire_log() == old(self).wire_log().push(
                WireOp::Read { opcode: 0x52, params: b.data@ },
            ),
    {
        let mut buf = byte_buffer(1);
        match self.read_parameters(0x52, &mut buf) {
            Ok(()) => Ok(read_display_brightness::DisplayBrightness { data: bytes_into_array::<1>(&buf) }),
            Err(e) => Err(e),
        }
    }

    /// Write ctrl display (opcode 0x53): build the `CtrlDisplay` parameter block from
    /// its default value through the caller's builder and send it.
    pub fn write_ctrl_display<F: FnOnce(CtrlDisplayWrite) -> CtrlDisplayWrite>(&mut self, f: F) -> (r: Result<
        (),
        Iface::Error,
    >)
        requires
            forall|w0: CtrlDisplayWrite|
                w0.d.data@ == write_ctrl_display::CtrlDisplay::spec_default() ==> #[trigger] call_requires(f, (w0,)),
        ensures
            r is Ok ==> exists|w0: CtrlDisplayWrite, w1: CtrlDisplayWrite|
                {
                    &&& w0.d.data@ == write_ctrl_display::CtrlDisplay::spec_default()
                    &&& call_ensures(f, (w0,), w1)
                    &&& final(self).wire_log() == old(self).wire_log().push(
                        WireOp::Write { opcode: 0x53, params: w1.d.data@ },
                    )
                },
    {
        let block0 = write_ctrl_display::CtrlDisplay::default();
        proof {
            assert(call_requires(f, ((CtrlDisplayWrite { d: block0 }),)));
        }
        let block = block0.write(f);
        let r = self.send_parameters(0x53, block.data.as_slice());
        proof {
            if r is Ok {
                assert((CtrlDisplayWrite { d: block0 }).d.data@ == write_ctrl_display::CtrlDisplay::spec_default()
                    && call_ensures(f, ((CtrlDisplayWrite { d: block0 }),), (CtrlDisplayWrite { d: block }))
                    && self.wire_log() == old(self).wire_log().push(
                    WireOp::Write { opcode: 0x53, params: (CtrlDisplayWrite { d: block }).d.data@ },
                ));
            }
        }
        r
    }

    /// Read ctrl display (opcode 0x54): receive the block's 1 byte and
    /// return them as a typed `CtrlDisplay` block.
    pub fn read_ctrl_display(&mut self) -> (r: Result<read_ctrl_display::CtrlDisplay, Iface::Error>)
        ensures
            r matches Ok(b) ==> final(self).wire_log() == old(self).wire_log().push(
                WireOp::Read { opcode: 0x54, params: b.data@ },
            ),
    {
        let mut buf = byte_buffer(1);
        match self.read_parameters(0x54, &mut buf) {
            Ok(()) => Ok(read_ctrl_display::CtrlDisplay { data: bytes_into_array::<1>(&buf) }),
            Err(e) => Err(e),
        }
    }

    /// Write content adaptive brightness control (opcode 0x55): build the `ContentAdaptiveBrightnessControl` parameter block from
    /// its default value through the caller's builder and send it.
    pub fn write_content_adaptive_brightness_control<F: FnOnce(ContentAdaptiveBrightnessControlWrite) -> ContentAdaptiveBrightnessControlWrite>(&mut self, f: F) -> (r: Result<
        (),
        Iface::Error,
    >)
        requires
            forall|w0: ContentAdaptiveBrightnessControlWrite|
                w0.d.data@ == write_content_adaptive_brightness_control::ContentAdaptiveBrightnessControl::spec_default() ==> #[trigger] call_requires(f, (w0,)),
        ensures
            r is Ok ==> exists|w0: ContentAdaptiveBrightnessControlWrite, w1: ContentAdaptiveBrightnessControlWrite|
                {
                    &&& w0.d.data@ == write_content_adaptive_brightness_control::ContentAdaptiveBrightnessControl::spec_default()
                    &&& call_ensures(f, (w0,), w1)
                    &&& final(self).wire_log() == old(self).wire_log().push(
                        WireOp::Write { opcode: 0x55, params: w1.d.data@ },
                    )
                },
    {
        let block0 = write_content_adaptive_brightness_control::ContentAdaptiveBrightnessControl::default();
        proof {
            assert(call_requires(f, ((ContentAdaptiveBrightnessControlWrite { d: block0 }),)));
        }
        let block = block0.write(f);
        let r = self.send_parameters(0x55, block.data.as_slice());
        proof {
            if r is Ok {
                assert((ContentAdaptiveBrightnessControlWrite { d: block0 }).d.data@ == write_content_adaptive_brightness_control::ContentAdaptiveBrightnessControl::spec_default()
                    && call_ensures(f, ((ContentAdaptiveBrightnessControlWrite { d: block0 }),), (ContentAdaptiveBrightnessControlWrite { d: block }))
                    && self.wire_log() == old(self).wire_log().push(
                    WireOp::Write { opcode: 0x55, params: (ContentAdaptiveBrightnessControlWrite { d: block }).d.data@ },
                ));
            }
        }
        r
    }

    /// Read content adaptive brightness control (opcode 0x56): receive the block's 1 byte and
    /// return them as a typed `ContentAdaptiveBrightnessControl` block.
    pub fn read_content_adaptive_brightness_control(&mut self) -> (r: Result<read_content_adaptive_brightness_control::ContentAdaptiveBrightnessControl, Iface::Error>)
        ensures
            r matches Ok(b) ==> final(self).wire_log() == old(self).wire_log().push(
                WireOp::Read { opcode: 0x56, params: b.data@ },
            ),
    {
        let mut buf = byte_buffer(1);
        match self.read_parameters(0x56, &mut buf) {
            Ok(()) => Ok(read_content_adaptive_brightness_control::ContentAdaptiveBrightnessControl { data: bytes_into_array::<1>(&buf) }),
            Err(e) => Err(e),
        }
    }

    /// Write cabc minimum brightness (opcode 0x5E): build the `CabcMinimumBrightness` parameter block from
    /// its default value through the caller's builder and send it.
    pub fn write_cabc_minimum_brightness<F: FnOnce(CabcMinimumBrightnessWrite) -> CabcMinimumBrightnessWrite>(&mut self, f: F) -> (r: Result<
        (),
        Iface::Error,
    >)
        requires
            forall|w0: CabcMinimumBrightnessWrite|
                w0.d.data@ == write_cabc_minimum_brightness::CabcMinimumBrightness::spec_default() ==> #[trigger] call_requires(f, (w0,)),
        ensures
            r is Ok ==> exists|w0: CabcMinimumBrightnessWrite, w1: CabcMinimumBrightnessWrite|
                {
                    &&& w0.d.data@ == write_cabc_minimum_brightness::CabcMinimumBrightness::spec_default()
                    &&& call_ensures(f, (w0,), w1)
                    &&& final(self).wire_log() == old(self).wire_log().push(
                        WireOp::Write { opcode: 0x5E, params: w1.d.data@ },
                    )
                },
    {
        let block0 = write_cabc_minimum_brightness::CabcMinimumBrightness::default();
        proof {
            assert(call_requires(f, ((CabcMinimumBrightnessWrite { d: block0 }),)));
        }
        let block = block0.write(f);
        let r = self.send_parameters(0x5E, block.data.as_slice());
        proof {
            if r is Ok {
                assert((CabcMinimumBrightnessWrite { d: block0 }).d.data@ == write_cabc_minimum_brightness::CabcMinimumBrightness::spec_default()
                    && call_ensures(f, ((CabcMinimumBrightnessWrite { d: block0 }),), (CabcMinimumBrightnessWrite { d: block }))
                    && self.wire_log() == old(self).wire_log().push(
                    WireOp::Write { opcode: 0x5E, params: (CabcMinimumBrightnessWrite { d: block }).d.data@ },
                ));
            }
        }
        r
    }

    /// Read cabc minimum brightness (opcode 0x5F): receive the block's 1 byte and
    /// return them as a typed `CabcMinimumBrightness` block.
    pub fn read_cabc_minimum_brightness(&mut self) -> (r: Result<read_cabc_minimum_brightness::CabcMinimumBrightness, Iface::Error>)
        ensures
            r matches Ok(b) ==> final(self).wire_log() == old(self).wire_log().push(
                WireOp::Read { opcode: 0x5F, params: b.data@ },
            ),
    {
        let mut buf = byte_buffer(1);
        match self.read_parameters(0x5F, &mut buf) {
            Ok(()) => Ok(read_cabc_minimum_brightness::CabcMinimumBrightness { data: bytes_into_array::<1>(&buf) }),
            Err(e) => Err(e),
        }
    }

    /// Read id1 (opcode 0xDA): receive the block's 1 byte and
    /// return them as a typed `Id1` block.
    pub fn read_id1(&mut self) -> (r: Result<read_id1::Id1, Iface::Error>)
        ensures
            r matches Ok(b) ==> final(self).wire_log() == old(self).wire_log().push(
                WireOp::Read { opcode: 0xDA, params: b.data@ },
            ),
    {
        let mut buf = byte_buffer(1);
        match self.read_parameters(0xDA, &mut buf) {
            Ok(()) => Ok(read_id1::Id1 { data: bytes_into_array::<1>(&buf) }),
            Err(e) => Err(e),
        }
    }

    /// Read id2 (opcode 0xDB): receive the block's 1 byte and
    /// return them as a typed `Id2` block.
    pub fn read_id2(&mut self) -> (r: Result<read_id2::Id2, Iface::Error>)
        ensures
            r matches Ok(b) ==> final(self).wire_log() == old(self).wire_log().push(
                WireOp::Read { opcode: 0xDB, params: b.data@ },
            ),
    {
        let mut buf = byte_buffer(1);
        match self.read_parameters(0xDB, &mut buf) {
            Ok(()) => Ok(read_id2::Id2 { data: bytes_into_array::<1>(&buf) }),
            Err(e) => Err(e),
        }
    }

    /// Read id3 (opcode 0xDC): receive the block's 1 byte and
    /// return them as a typed `Id3` block.
    pub fn read_id3(&mut self) -> (r: Result<read_id3::Id3, Iface::Error>)
        ensures
            r matches Ok(b) ==> final(self).wire_log() == old(self).wire_log().push(
                WireOp::Read { opcode: 0xDC, params: b.data@ },
            ),
    {
        let mut buf = byte_buffer(1);
        match self.read_parameters(0xDC, &mut buf) {
            Ok(()) => Ok(read_id3::Id3 { data: bytes_into_array::<1>(&buf) }),
            Err(e) => Err(e),
        }
    }
}

/// The commands of the extended register set, available only through a
/// transport wired to a chip revision that carries it.
impl<Iface: Interface + ExtendedCommandSet> Controller<Iface> {

    /// Rgb interface signal control (opcode 0xB0): build the `RgbInterfaceSignalControl` parameter block from
    /// its default value through the caller's builder and send it.
    pub fn rgb_interface_signal_control<F: FnOnce(RgbInterfaceSignalControlWrite) -> RgbInterfaceSignalControlWrite>(&mut self, f: F) -> (r: Result<
        (),
        Iface::Error,
    >)
        requires
            forall|w0: RgbInterfaceSignalControlWrite|
                w0.d.data@ == rgb_interface_signal_control::RgbInterfaceSignalControl::spec_default() ==> #[trigger] call_requires(f, (w0,)),
        ensures
            r is Ok ==> exists|w0: RgbInterfaceSignalControlWrite, w1: RgbInterfaceSignalControlWrite|
                {
                    &&& w0.d.data@ == rgb_interface_signal_control::RgbInterfaceSignalControl::spec_default()
                    &&& call_ensures(f, (w0,), w1)
                    &&& final(self).wire_log() == old(self).wire_log().push(
                        WireOp::Write { opcode: 0xB0, params: w1.d.data@ },
                    )
                },
    {
        let block0 = rgb_interface_signal_control::RgbInterfaceSignalControl::default();
        proof {
            assert(call_requires(f, ((RgbInterfaceSignalControlWrite { d: block0 }),)));
        }
        let block = block0.write(f);
        let r = self.send_parameters(0xB0, block.data.as_slice());
        proof {
            if r is Ok {
                assert((RgbInterfaceSignalControlWrite { d: block0 }).d.data@ == rgb_interface_signal_control::RgbInterfaceSignalControl::spec_default()
                    && call_ensures(f, ((RgbInterfaceSignalControlWrite { d: block0 }),), (RgbInterfaceSignalControlWrite { d: block }))
                    && self.wire_log() == old(self).wire_log().push(
                    WireOp::Write { opcode: 0xB0, params: (RgbInterfaceSignalControlWrite { d: block }).d.data@ },
                ));
            }
        }
        r
    }

    /// Frame control in normal mode (opcode 0xB1): build the `FrameControlInNormalMode` parameter block from
    /// its default value through the caller's builder and send it.
    pub fn frame_control_in_normal_mode<F: FnOnce(FrameControlInNormalModeWrite) -> FrameControlInNormalModeWrite>(&mut self, f: F) -> (r: Result<
        (),
        Iface::Error,
    >)
        requires
            forall|w0: FrameControlInNormalModeWrite|
                w0.d.data@ == frame_control_in_normal_mode::FrameControlInNormalMode::spec_default() ==> #[trigger] call_requires(f, (w0,)),
        ensures
            r is Ok ==> exists|w0: FrameControlInNormalModeWrite, w1: FrameControlInNormalModeWrite|
                {
                    &&& w0.d.data@ == frame_control_in_normal_mode::FrameControlInNormalMode::spec_default()
                    &&& call_ensures(f, (w0,), w1)
                    &&& final(self).wire_log() == old(self).wire_log().push(
                        WireOp::Write { opcode: 0xB1, params: w1.d.data@ },
                    )
                },
    {
        let block0 = frame_control_in_normal_mode::FrameControlInNormalMode::default();
        proof {
            assert(call_requires(f, ((FrameControlInNormalModeWrite { d: block0 }),)));
        }
        let block = block0.write(f);
        let r = self.send_parameters(0xB1, block.data.as_slice());
        proof {
            if r is Ok {
                assert((FrameControlInNormalModeWrite { d: block0 }).d.data@ == frame_control_in_normal_mode::FrameControlInNormalMode::spec_default()
                    && call_ensures(f, ((FrameControlInNormalModeWrite { d: block0 }),), (FrameControlInNormalModeWrite { d: block }))
                    && self.wire_log() == old(self).wire_log().push(
                    WireOp::Write { opcode: 0xB1, params: (FrameControlInNormalModeWrite { d: block }).d.data@ },
                ));
            }
        }
        r
    }

    /// Frame control in idle mode (opcode 0xB2): build the `FrameControlInIdleMode` parameter block from
    /// its default value through the caller's builder and send it.
    pub fn frame_control_in_idle_mode<F: FnOnce(FrameControlInIdleModeWrite) -> FrameControlInIdleModeWrite>(&mut self, f: F) -> (r: Result<
        (),
        Iface::Error,
    >)
        requires
            forall|w0: FrameControlInIdleModeWrite|
                w0.d.data@ == frame_control_in_idle_mode::FrameControlInIdleMode::spec_default() ==> #[trigger] call_requires(f, (w0,)),
        ensures
            r is Ok ==> exists|w0: FrameControlInIdleModeWrite, w1: FrameControlInIdleModeWrite|
                {
                    &&& w0.d.data@ == frame_control_in_idle_mode::FrameControlInIdleMode::spec_default()
                    &&& call_ensures(f, (w0,), w1)
                    &&& final(self).wire_log() == old(self).wire_log().push(
                        WireOp::Write { opcode: 0xB2, params: w1.d.data@ },
                    )
                },
    {
        let block0 = frame_control_in_idle_mode::FrameControlInIdleMode::default();
        proof {
            assert(call_requires(f, ((FrameControlInIdleModeWrite { d: block0 }),)));
        }
        let block = block0.write(f);
        let r = self.send_parameters(0xB2, block.data.as_slice());
        proof {
            if r is Ok {
                assert((FrameControlInIdleModeWrite { d: block0 }).d.data@ == frame_control_in_idle_mode::FrameControlInIdleMode::spec_default()
                    && call_ensures(f, ((FrameControlInIdleModeWrite { d: block0 }),), (FrameControlInIdleModeWrite { d: block }))
                    && self.wire_log() == old(self).wire_log().push(
                    WireOp::Write { opcode: 0xB2, params: (FrameControlInIdleModeWrite { d: block }).d.data@ },
                ));
            }
        }
        r
    }

    /// Frame control in partial mode (opcode 0xB3): build the `FrameControlInPartialMode` parameter block from
    /// its default value through the caller's builder and send it.
    pub fn frame_control_in_partial_mode<F: FnOnce(FrameControlInPartialModeWrite) -> FrameControlInPartialModeWrite>(&mut self, f: F) -> (r: Result<
        (),
        Iface::Error,
    >)
        requires
            forall|w0: FrameControlInPartialModeWrite|
                w0.d.data@ == frame_control_in_partial_mode::FrameControlInPartialMode::spec_default() ==> #[trigger] call_requires(f, (w0,)),
        ensures
            r is Ok ==> exists|w0: FrameControlInPartialModeWrite, w1: FrameControlInPartialModeWrite|
                {
                    &&& w0.d.data@ == frame_control_in_partial_mode::FrameControlInPartialMode::spec_default()
                    &&& call_ensures(f, (w0,), w1)
                    &&& final(self).wire_log() == old(self).wire_log().push(
                        WireOp::Write { opcode: 0xB3, params: w1.d.data@ },
                    )
                },
    {
        let block0 = frame_control_in_partial_mode::FrameControlInPartialMode::default();
        proof {
            assert(call_requires(f, ((FrameControlInPartialModeWrite { d: block0 }),)));
        }
        let block = block0.write(f);
        let r = self.send_parameters(0xB3, block.data.as_slice());
        proof {
            if r is Ok {
                assert((FrameControlInPartialModeWrite { d: block0 }).d.data@ == frame_control_in_partial_mode::FrameControlInPartialMode::spec_default()
                    && call_ensures(f, ((FrameControlInPartialModeWrite { d: block0 }),), (FrameControlInPartialModeWrite { d: block }))
                    && self.wire_log() == old(self).wire_log().push(
                    WireOp::Write { opcode: 0xB3, params: (FrameControlInPartialModeWrite { d: block }).d.data@ },
                ));
            }
        }
        r
    }

    /// Display inversion control (opcode 0xB4): build the `DisplayInversionControl` parameter block from
    /// its default value through the caller's builder and send it.
    pub fn display_inversion_control<F: FnOnce(DisplayInversionControlWrite) -> DisplayInversionControlWrite>(&mut self, f: F) -> (r: Result<
        (),
        Iface::Error,
    >)
        requires
            forall|w0: DisplayInversionControlWrite|
                w0.d.data@ == display_inversion_control::DisplayInversionControl::spec_default() ==> #[trigger] call_requires(f, (w0,)),
        ensures
            r is Ok ==> exists|w0: DisplayInversionControlWrite, w1: DisplayInversionControlWrite|
                {
                    &&& w0.d.data@ == display_inversion_control::DisplayInversionControl::spec_default()
                    &&& call_ensures(f, (w0,), w1)
                    &&& final(self).wire_log() == old(self).wire_log().push(
                        WireOp::Write { opcode: 0xB4, params: w1.d.data@ },
                    )
                },
    {
        let block0 = display_inversion_control::DisplayInversionControl::default();
        proof {
            assert(call_requires(f, ((DisplayInversionControlWrite { d: block0 }),)));
        }
        let block = block0.write(f);
        let r = self.send_parameters(0xB4, block.data.as_slice());
        proof {
            if r is Ok {
                assert((DisplayInversionControlWrite { d: block0 }).d.data@ == display_inversion_control::DisplayInversionControl::spec_default()
                    && call_ensures(f, ((DisplayInversionControlWrite { d: block0 }),), (DisplayInversionControlWrite { d: block }))
                    && self.wire_log() == old(self).wire_log().push(
                    WireOp::Write { opcode: 0xB4, params: (DisplayInversionControlWrite { d: block }).d.data@ },
                ));
            }
        }
        r
    }

    /// Blanking porch control (opcode 0xB5): build the `BlankingPorchControl` parameter block from
    /// its default value through the caller's builder and send it.
    pub fn blanking_porch_control<F: FnOnce(BlankingPorchControlWrite) -> BlankingPorchControlWrite>(&mut self, f: F) -> (r: Result<
        (),
        Iface::Error,
    >)
        requires
            forall|w0: BlankingPorchControlWrite|
                w0.d.data@ == blanking_porch_control::BlankingPorchControl::spec_default() ==> #[trigger] call_requires(f, (w0,)),
        ensures
            r is Ok ==> exists|w0: BlankingPorchControlWrite, w1: BlankingPorchControlWrite|
                {
                    &&& w0.d.data@ == blanking_porch_control::BlankingPorchControl::spec_default()
                    &&& call_ensures(f, (w0,), w1)
                    &&& final(self).wire_log() == old(self).wire_log().push(
                        WireOp::Write { opcode: 0xB5, params: w1.d.data@ },
                    )
                },
    {
        let block0 = blanking_porch_control::BlankingPorchControl::default();
        proof {
            assert(call_requires(f, ((BlankingPorchControlWrite { d: block0 }),)));
        }
        let block = block0.write(f);
        let r = self.send_parameters(0xB5, block.data.as_slice());
        proof {
            if r is Ok {
                assert((BlankingPorchControlWrite { d: block0 }).d.data@ == blanking_porch_control::BlankingPorchControl::spec_default()
                    && call_ensures(f, ((BlankingPorchControlWrite { d: block0 }),), (BlankingPorchControlWrite { d: block }))
                    && self.wire_log() == old(self).wire_log().push(
                    WireOp::Write { opcode: 0xB5, params: (BlankingPorchControlWrite { d: block }).d.data@ },
                ));
            }
        }
        r
    }

    /// Display function control (opcode 0xB6): build the `DisplayFunctionControl` parameter block from
    /// its default value through the caller's builder and send it.
    pub fn display_function_control<F: FnOnce(DisplayFunctionControlWrite) -> DisplayFunctionControlWrite>(&mut self, f: F) -> (r: Result<
        (),
        Iface::Error,
    >)
        requires
            forall|w0: DisplayFunctionControlWrite|
                w0.d.data@ == display_function_control::DisplayFunctionControl::spec_default() ==> #[trigger] call_requires(f, (w0,)),
        ensures
            r is Ok ==> exists|w0: DisplayFunctionControlWrite, w1: DisplayFunctionControlWrite|
                {
                    &&& w0.d.data@ == display_function_control::DisplayFunctionControl::spec_default()
                    &&& call_ensures(f, (w0,), w1)
                    &&& final(self).wire_log() == old(self).wire_log().push(
                        WireOp::Write { opcode: 0xB6, params: w1.d.data@ },
                    )
                },
    {
        let block0 = display_function_control::DisplayFunctionControl::default();
        proof {
            assert(call_requires(f, ((DisplayFunctionControlWrite { d: block0 }),)));
        }
        let block = block0.write(f);
        let r = self.send_parameters(0xB6, block.data.as_slice());
        proof {
            if r is Ok {
                assert((DisplayFunctionControlWrite { d: block0 }).d.data@ == display_function_control::DisplayFunctionControl::spec_default()
                    && call_ensures(f, ((DisplayFunctionControlWrite { d: block0 }),), (DisplayFunctionControlWrite { d: block }))
                    && self.wire_log() == old(self).wire_log().push(
                    WireOp::Write { opcode: 0xB6, params: (DisplayFunctionControlWrite { d: block }).d.data@ },
                ));
            }
        }
        r
    }

    /// Entry mode set (opcode 0xB7): build the `EntryModeSet` parameter block from
    /// its default value through the caller's builder and send it.
    pub fn entry_mode_set<F: FnOnce(EntryModeSetWrite) -> EntryModeSetWrite>(&mut self, f: F) -> (r: Result<
        (),
        Iface::Error,
    >)
        requires
            forall|w0: EntryModeSetWrite|
                w0.d.data@ == entry_mode::EntryModeSet::spec_default() ==> #[trigger] call_requires(f, (w0,)),
        ensures
            r is Ok ==> exists|w0: EntryModeSetWrite, w1: EntryModeSetWrite|
                {
                    &&& w0.d.data@ == entry_mode::EntryModeSet::spec_default()
                    &&& call_ensures(f, (w0,), w1)
                    &&& final(self).wire_log() == old(self).wire_log().push(
                        WireOp::Write { opcode: 0xB7, params: w1.d.data@ },
                    )
                },
    {
        let block0 = entry_mode::EntryModeSet::default();
        proof {
            assert(call_requires(f, ((EntryModeSetWrite { d: block0 }),)));
        }
        let block = block0.write(f);
        let r = self.send_parameters(0xB7, block.data.as_slice());
        proof {
            if r is Ok {
                assert((EntryModeSetWrite { d: block0 }).d.data@ == entry_mode::EntryModeSet::spec_default()
                    && call_ensures(f, ((EntryModeSetWrite { d: block0 }),), (EntryModeSetWrite { d: block }))
                    && self.wire_log() == old(self).wire_log().push(
                    WireOp::Write { opcode: 0xB7, params: (EntryModeSetWrite { d: block }).d.data@ },
                ));
            }
        }
        r
    }

    /// Backlight control1 (opcode 0xB8): build the `BacklightControl1` parameter block from
    /// its default value through the caller's builder and send it.
    pub fn backlight_control1<F: FnOnce(BacklightControl1Write) -> BacklightControl1Write>(&mut self, f: F) -> (r: Result<
        (),
        Iface::Error,
    >)
        requires
            forall|w0: BacklightControl1Write|
                w0.d.data@ == backlight_control1::BacklightControl1::spec_default() ==> #[trigger] call_requires(f, (w0,)),
        ensures
            r is Ok ==> exists|w0: BacklightControl1Write, w1: BacklightControl1Write|
                {
                    &&& w0.d.data@ == backlight_control1::BacklightControl1::spec_default()
                    &&& call_ensures(f, (w0,), w1)
                    &&& final(self).wire_log() == old(self).wire_log().push(
                        WireOp::Write { opcode: 0xB8, params: w1.d.data@ },
                    )
                },
    {
        let block0 = backlight_control1::BacklightControl1::default();
        proof {
            assert(call_requires(f, ((BacklightControl1Write { d: block0 }),)));
        }
        let block = block0.write(f);
        let r = self.send_parameters(0xB8, block.data.as_slice());
        proof {
            if r is Ok {
                assert((BacklightControl1Write { d: block0 }).d.data@ == backlight_control1::BacklightControl1::spec_default()
                    && call_ensures(f, ((BacklightControl1Write { d: block0 }),), (BacklightControl1Write { d: block }))
                    && self.wire_log() == old(self).wire_log().push(
                    WireOp::Write { opcode: 0xB8, params: (BacklightControl1Write { d: block }).d.data@ },
                ));
            }
        }
        r
    }

    /// Backlight control2 (opcode 0xB9): build the `BacklightControl2` parameter block from
    /// its default value through the caller's builder and send it.
    pub fn backlight_control2<F: FnOnce(BacklightControl2Write) -> BacklightControl2Write>(&mut self, f: F) -> (r: Result<
        (),
        Iface::Error,
    >)
        requires
            forall|w0: BacklightControl2Write|
                w0.d.data@ == backlight_control2::BacklightControl2::spec_default() ==> #[trigger] call_requires(f, (w0,)),
        ensures
            r is Ok ==> exists|w0: BacklightControl2Write, w1: BacklightControl2Write|
                {
                    &&& w0.d.data@ == backlight_control2::BacklightControl2::spec_default()
                    &&& call_ensures(f, (w0,), w1)
                    &&& final(self).wire_log() == old(self).wire_log().push(
                        WireOp::Write { opcode: 0xB9, params: w1.d.data@ },
                    )
                },
    {
        let block0 = backlight_control2::BacklightControl2::default();
        proof {
            assert(call_requires(f, ((BacklightControl2Write { d: block0 }),)));
        }
        let block = block0.write(f);
        let r = self.send_parameters(0xB9, block.data.as_slice());
        proof {
            if r is Ok {
                assert((BacklightControl2Write { d: block0 }).d.data@ == backlight_control2::BacklightControl2::spec_default()
                    && call_ensures(f, ((BacklightControl2Write { d: block0 }),), (BacklightControl2Write { d: block }))
                    && self.wire_log() == old(self).wire_log().push(
                    WireOp::Write { opcode: 0xB9, params: (BacklightControl2Write { d: block }).d.data@ },
                ));
            }
        }
        r
    }

    /// Backlight control3 (opcode 0xBA): build the `BacklightControl3` parameter block from
    /// its default value through the caller's builder and send it.
    pub fn backlight_control3<F: FnOnce(BacklightControl3Write) -> BacklightControl3Write>(&mut self, f: F) -> (r: Result<
        (),
        Iface::Error,
    >)
        requires
            forall|w0: BacklightControl3Write|
                w0.d.data@ == backlight_control3::BacklightControl3::spec_default() ==> #[trigger] call_requires(f, (w0,)),
        ensures
            r is Ok ==> exists|w0: BacklightControl3Write, w1: BacklightControl3Write|
                {
                    &&& w0.d.data@ == backlight_control3::BacklightControl3::spec_default()
                    &&& call_ensures(f, (w0,), w1)
                    &&& final(self).wire_log() == old(self).wire_log().push(
                        WireOp::Write { opcode: 0xBA, params: w1.d.data@ },
                    )
                },
    {
        let block0 = backlight_control3::BacklightControl3::default();
        proof {
            assert(call_requires(f, ((BacklightControl3Write { d: block0 }),)));
        }
        let block = block0.write(f);
        let r = self.send_parameters(0xBA, block.data.as_slice());
        proof {
            if r is Ok {
                assert((BacklightControl3Write { d: block0 }).d.data@ == backlight_control3::BacklightControl3::spec_default()
                    && call_ensures(f, ((BacklightControl3Write { d: block0 }),), (BacklightControl3Write { d: block }))
                    && self.wire_log() == old(self).wire_log().push(
                    WireOp::Write { opcode: 0xBA, params: (BacklightControl3Write { d: block }).d.data@ },
                ));
            }
        }
        r
    }

    /// Backlight control4 (opcode 0xBB): build the `BacklightControl4` parameter block from
    /// its default value through the caller's builder and send it.
    pub fn backlight_control4<F: FnOnce(BacklightControl4Write) -> BacklightControl4Write>(&mut self, f: F) -> (r: Result<
        (),
        Iface::Error,
    >)
        requires
            forall|w0: BacklightControl4Write|
                w0.d.data@ == backlight_control4::BacklightControl4::spec_default() ==> #[trigger] call_requires(f, (w0,)),
        ensures
            r is Ok ==> exists|w0: BacklightControl4Write, w1: BacklightControl4Write|
                {
                    &&& w0.d.data@ == backlight_control4::BacklightControl4::spec_default()
                    &&& call_ensures(f, (w0,), w1)
                    &&& final(self).wire_log() == old(self).wire_log().push(
                        WireOp::Write { opcode: 0xBB, params: w1.d.data@ },
                    )
                },
    {
        let block0 = backlight_control4::BacklightControl4::default();
        proof {
            assert(call_requires(f, ((BacklightControl4Write { d: block0 }),)));
        }
        let block = block0.write(f);
        let r = self.send_parameters(0xBB, block.data.as_slice());
        proof {
            if r is Ok {
                assert((BacklightControl4Write { d: block0 }).d.data@ == backlight_control4::BacklightControl4::spec_default()
                    && call_ensures(f, ((BacklightControl4Write { d: block0 }),), (BacklightControl4Write { d: block }))
                    && self.wire_log() == old(self).wire_log().push(
                    WireOp::Write { opcode: 0xBB, params: (BacklightControl4Write { d: block }).d.data@ },
                ));
            }
        }
        r
    }

    /// Backlight control5 (opcode 0xBC): build the `BacklightControl5` parameter block from
    /// its default value through the caller's builder and send it.
    pub fn backlight_control5<F: FnOnce(BacklightControl5Write) -> BacklightControl5Write>(&mut self, f: F) -> (r: Result<
        (),
        Iface::Error,
    >)
        requires
            forall|w0: BacklightControl5Write|
                w0.d.data@ == backlight_control5::BacklightControl5::spec_default() ==> #[trigger] call_requires(f, (w0,)),
        ensures
            r is Ok ==> exists|w0: BacklightControl5Write, w1: BacklightControl5Write|
                {
                    &&& w0.d.data@ == backlight_control5::BacklightControl5::spec_default()
                    &&& call_ensures(f, (w0,), w1)
                    &&& final(self).wire_log() == old(self).wire_log().push(
                        WireOp::Write { opcode: 0xBC, params: w1.d.data@ },
                    )
                },
    {
        let block0 = backlight_control5::BacklightControl5::default();
        proof {
            assert(call_requires(f, ((BacklightControl5Write { d: block0 }),)));
        }
        let block = block0.write(f);
        let r = self.send_parameters(0xBC, block.data.as_slice());
        proof {
            if r is Ok {
                assert((BacklightControl5Write { d: block0 }).d.data@ == backlight_control5::BacklightControl5::spec_default()
                    && call_ensures(f, ((BacklightControl5Write { d: block0 }),), (BacklightControl5Write { d: block }))
                    && self.wire_log() == old(self).wire_log().push(
                    WireOp::Write { opcode: 0xBC, params: (BacklightControl5Write { d: block }).d.data@ },
                ));
            }
        }
        r
    }

    /// Backlight control7 (opcode 0xBE): build the `BacklightControl7` parameter block from
    /// its default value through the caller's builder and send it.
    pub fn backlight_control7<F: FnOnce(BacklightControl7Write) -> BacklightControl7Write>(&mut self, f: F) -> (r: Result<
        (),
        Iface::Error,
    >)
        requires
            forall|w0: BacklightControl7Write|
                w0.d.data@ == backlight_control7::BacklightControl7::spec_default() ==> #[trigger] call_requires(f, (w0,)),
        ensures
            r is Ok ==> exists|w0: BacklightControl7Write, w1: BacklightControl7Write|
                {
                    &&& w0.d.data@ == backlight_control7::BacklightControl7::spec_default()
                    &&& call_ensures(f, (w0,), w1)
                    &&& final(self).wire_log() == old(self).wire_log().push(
                        WireOp::Write { opcode: 0xBE, params: w1.d.data@ },
                    )
                },
    {
        let block0 = backlight_control7::BacklightControl7::default();
        proof {
            assert(call_requires(f, ((BacklightControl7Write { d: block0 }),)));
        }
        let block = block0.write(f);
        let r = self.send_parameters(0xBE, block.data.as_slice());
        proof {
            if r is Ok {
                assert((BacklightControl7Write { d: block0 }).d.data@ == backlight_control7::BacklightControl7::spec_default()
                    && call_ensures(f, ((BacklightControl7Write { d: block0 }),), (BacklightControl7Write { d: block }))
                    && self.wire_log() == old(self).wire_log().push(
                    WireOp::Write { opcode: 0xBE, params: (BacklightControl7Write { d: block }).d.data@ },
                ));
            }
        }
        r
    }

    /// Backlight control8 (opcode 0xBF): build the `BacklightControl8` parameter block from
    /// its default value through the caller's builder and send it.
    pub fn backlight_control8<F: FnOnce(BacklightControl8Write) -> BacklightControl8Write>(&mut self, f: F) -> (r: Result<
        (),
        Iface::Error,
    >)
        requires
            forall|w0: BacklightControl8Write|
                w0.d.data@ == backlight_control8::BacklightControl8::spec_default() ==> #[trigger] call_requires(f, (w0,)),
        ensures
            r is Ok ==> exists|w0: BacklightControl8Write, w1: BacklightControl8Write|
                {
                    &&& w0.d.data@ == backlight_control8::BacklightControl8::spec_default()
                    &&& call_ensures(f, (w0,), w1)
                    &&& final(self).wire_log() == old(self).wire_log().push(
                        WireOp::Write { opcode: 0xBF, params: w1.d.data@ },
                    )
                },
    {
        let block0 = backlight_control8::BacklightControl8::default();
        proof {
            assert(call_requires(f, ((BacklightControl8Write { d: block0 }),)));
        }
        let block = block0.write(f);
        let r = self.send_parameters(0xBF, block.data.as_slice());
        proof {
            if r is Ok {
                assert((BacklightControl8Write { d: block0 }).d.data@ == backlight_control8::BacklightControl8::spec_default()
                    && call_ensures(f, ((BacklightControl8Write { d: block0 }),), (BacklightControl8Write { d: block }))
                    && self.wire_log() == old(self).wire_log().push(
                    WireOp::Write { opcode: 0xBF, params: (BacklightControl8Write { d: block }).d.data@ },
                ));
            }
        }
        r
    }

    /// Power control1 (opcode 0xC0): build the `PowerControl1` parameter block from
    /// its default value through the caller's builder and send it.
    pub fn power_control1<F: FnOnce(PowerControl1Write) -> PowerControl1Write>(&mut self, f: F) -> (r: Result<
        (),
        Iface::Error,
    >)
        requires
            forall|w0: PowerControl1Write|
                w0.d.data@ == power_control1::PowerControl1::spec_default() ==> #[trigger] call_requires(f, (w0,)),
        ensures
            r is Ok ==> exists|w0: PowerControl1Write, w1: PowerControl1Write|
                {
                    &&& w0.d.data@ == power_control1::PowerControl1::spec_default()
                    &&& call_ensures(f, (w0,), w1)
                    &&& final(self).wire_log() == old(self).wire_log().push(
                        WireOp::Write { opcode: 0xC0, params: w1.d.data@ },
                    )
                },
    {
        let block0 = power_control1::PowerControl1::default();
        proof {
            assert(call_requires(f, ((PowerControl1Write { d: block0 }),)));
        }
        let block = block0.write(f);
        let r = self.send_parameters(0xC0, block.data.as_slice());
        proof {
            if r is Ok {
                assert((PowerControl1Write { d: block0 }).d.data@ == power_control1::PowerControl1::spec_default()
                    && call_ensures(f, ((PowerControl1Write { d: block0 }),), (PowerControl1Write { d: block }))
                    && self.wire_log() == old(self).wire_log().push(
                    WireOp::Write { opcode: 0xC0, params: (PowerControl1Write { d: block }).d.data@ },
                ));
            }
        }
        r
    }

    /// Power control2 (opcode 0xC1): build the `PowerControl2` parameter block from
    /// its default value through the caller's builder and send it.
    pub fn power_control2<F: FnOnce(PowerControl2Write) -> PowerControl2Write>(&mut self, f: F) -> (r: Result<
        (),
        Iface::Error,
    >)
        requires
            forall|w0: PowerControl2Write|
                w0.d.data@ == power_control2::PowerControl2::spec_default() ==> #[trigger] call_requires(f, (w0,)),
        ensures
            r is Ok ==> exists|w0: PowerControl2Write, w1: PowerControl2Write|
                {
                    &&& w0.d.data@ == power_control2::PowerControl2::spec_default()
                    &&& call_ensures(f, (w0,), w1)
                    &&& final(self).wire_log() == old(self).wire_log().push(
                        WireOp::Write { opcode: 0xC1, params: w1.d.data@ },
                    )
                },
    {
        let block0 = power_control2::PowerControl2::default();
        proof {
            assert(call_requires(f, ((PowerControl2Write { d: block0 }),)));
        }
        let block = block0.write(f);
        let r = self.send_parameters(0xC1, block.data.as_slice());
        proof {
            if r is Ok {
                assert((PowerControl2Write { d: block0 }).d.data@ == power_control2::PowerControl2::spec_default()
                    && call_ensures(f, ((PowerControl2Write { d: block0 }),), (PowerControl2Write { d: block }))
                    && self.wire_log() == old(self).wire_log().push(
                    WireOp::Write { opcode: 0xC1, params: (PowerControl2Write { d: block }).d.data@ },
                ));
            }
        }
        r
    }

    /// Vcom control1 (opcode 0xC5): build the `VcomControl1` parameter block from
    /// its default value through the caller's builder and send it.
    pub fn vcom_control1<F: FnOnce(VcomControl1Write) -> VcomControl1Write>(&mut self, f: F) -> (r: Result<
        (),
        Iface::Error,
    >)
        requires
            forall|w0: VcomControl1Write|
                w0.d.data@ == vcom_control1::VcomControl1::spec_default() ==> #[trigger] call_requires(f, (w0,)),
        ensures
            r is Ok ==> exists|w0: VcomControl1Write, w1: VcomControl1Write|
                {
                    &&& w0.d.data@ == vcom_control1::VcomControl1::spec_default()
                    &&& call_ensures(f, (w0,), w1)
                    &&& final(self).wire_log() == old(self).wire_log().push(
                        WireOp::Write { opcode: 0xC5, params: w1.d.data@ },
                    )
                },
    {
        let block0 = vcom_control1::VcomControl1::default();
        proof {
            assert(call_requires(f, ((VcomControl1Write { d: block0 }),)));
        }
        let block = block0.write(f);
        let r = self.send_parameters(0xC5, block.data.as_slice());
        proof {
            if r is Ok {
                assert((VcomControl1Write { d: block0 }).d.data@ == vcom_control1::VcomControl1::spec_default()
                    && call_ensures(f, ((VcomControl1Write { d: block0 }),), (VcomControl1Write { d: block }))
                    && self.wire_log() == old(self).wire_log().push(
                    WireOp::Write { opcode: 0xC5, params: (VcomControl1Write { d: block }).d.data@ },
                ));
            }
        }
        r
    }

    /// Vcom control2 (opcode 0xC7): build the `VcomControl2` parameter block from
    /// its default value through the caller's builder and send it.
    pub fn vcom_control2<F: FnOnce(VcomControl2Write) -> VcomControl2Write>(&mut self, f: F) -> (r: Result<
        (),
        Iface::Error,
    >)
        requires
            forall|w0: VcomControl2Write|
                w0.d.data@ == vcom_control2::VcomControl2::spec_default() ==> #[trigger] call_requires(f, (w0,)),
        ensures
            r is Ok ==> exists|w0: VcomControl2Write, w1: VcomControl2Write|
                {
                    &&& w0.d.data@ == vcom_control2::VcomControl2::spec_default()
                    &&& call_ensures(f, (w0,), w1)
                    &&& final(self).wire_log() == old(self).wire_log().push(
                        WireOp::Write { opcode: 0xC7, params: w1.d.data@ },
                    )
                },
    {
        let block0 = vcom_control2::VcomControl2::default();
        proof {
            assert(call_requires(f, ((VcomControl2Write { d: block0 }),)));
        }
        let block = block0.write(f);
        let r = self.send_parameters(0xC7, block.data.as_slice());
        proof {
            if r is Ok {
                assert((VcomControl2Write { d: block0 }).d.data@ == vcom_control2::VcomControl2::spec_default()
                    && call_ensures(f, ((VcomControl2Write { d: block0 }),), (VcomControl2Write { d: block }))
                    && self.wire_log() == old(self).wire_log().push(
                    WireOp::Write { opcode: 0xC7, params: (VcomControl2Write { d: block }).d.data@ },
                ));
            }
        }
        r
    }

    /// Nv memory write (opcode 0xD0): build the `NvMemory` parameter block from
    /// its default value through the caller's builder and send it.
    pub fn nv_memory_write<F: FnOnce(NvMemoryWrite) -> NvMemoryWrite>(&mut self, f: F) -> (r: Result<
        (),
        Iface::Error,
    >)
        requires
            forall|w0: NvMemoryWrite|
                w0.d.data@ == nv_memory_write::NvMemory::spec_default() ==> #[trigger] call_requires(f, (w0,)),
        ensures
            r is Ok ==> exists|w0: NvMemoryWrite, w1: NvMemoryWrite|
                {
                    &&& w0.d.data@ == nv_memory_write::NvMemory::spec_default()
                    &&& call_ensures(f, (w0,), w1)
                    &&& final(self).wire_log() == old(self).wire_log().push(
                        WireOp::Write { opcode: 0xD0, params: w1.d.data@ },
                    )
                },
    {
        let block0 = nv_memory_write::NvMemory::default();
        proof {
            assert(call_requires(f, ((NvMemoryWrite { d: block0 }),)));
        }
        let block = block0.write(f);
        let r = self.send_parameters(0xD0, block.data.as_slice());
        proof {
            if r is Ok {
                assert((NvMemoryWrite { d: block0 }).d.data@ == nv_memory_write::NvMemory::spec_default()
                    && call_ensures(f, ((NvMemoryWrite { d: block0 }),), (NvMemoryWrite { d: block }))
                    && self.wire_log() == old(self).wire_log().push(
                    WireOp::Write { opcode: 0xD0, params: (NvMemoryWrite { d: block }).d.data@ },
                ));
            }
        }
        r
    }

    /// Nv memory protection key (opcode 0xD1): build the `NvMemoryProtectionKey` parameter block from
    /// its default value through the caller's builder and send it.
    pub fn nv_memory_protection_key<F: FnOnce(NvMemoryProtectionKeyWrite) -> NvMemoryProtectionKeyWrite>(&mut self, f: F) -> (r: Result<
        (),
        Iface::Error,
    >)
        requires
            forall|w0: NvMemoryProtectionKeyWrite|
                w0.d.data@ == nv_memory_protection_key::NvMemoryProtectionKey::spec_default() ==> #[trigger] call_requires(f, (w0,)),
        ensures
            r is Ok ==> exists|w0: NvMemoryProtectionKeyWrite, w1: NvMemoryProtectionKeyWrite|
                {
                    &&& w0.d.data@ == nv_memory_protection_key::NvMemoryProtectionKey::spec_default()
                    &&& call_ensures(f, (w0,), w1)
                    &&& final(self).wire_log() == old(self).wire_log().push(
                        WireOp::Write { opcode: 0xD1, params: w1.d.data@ },
                    )
                },
    {
        let block0 = nv_memory_protection_key::NvMemoryProtectionKey::default();
        proof {
            assert(call_requires(f, ((NvMemoryProtectionKeyWrite { d: block0 }),)));
        }
        let block = block0.write(f);
        let r = self.send_parameters(0xD1, block.data.as_slice());
        proof {
            if r is Ok {
                assert((NvMemoryProtectionKeyWrite { d: block0 }).d.data@ == nv_memory_protection_key::NvMemoryProtectionKey::spec_default()
                    && call_ensures(f, ((NvMemoryProtectionKeyWrite { d: block0 }),), (NvMemoryProtectionKeyWrite { d: block }))
                    && self.wire_log() == old(self).wire_log().push(
                    WireOp::Write { opcode: 0xD1, params: (NvMemoryProtectionKeyWrite { d: block }).d.data@ },
                ));
            }
        }
        r
    }

    /// Nv memory status read (opcode 0xD2): receive the block's 2 bytes and
    /// return them as a typed `NvMemoryStatus` block.
    pub fn nv_memory_status_read(&mut self) -> (r: Result<nv_memory_status_read::NvMemoryStatus, Iface::Error>)
        ensures
            r matches Ok(b) ==> final(self).wire_log() == old(self).wire_log().push(
                WireOp::Read { opcode: 0xD2, params: b.data@ },
            ),
    {
        let mut buf = byte_buffer(2);
        match self.read_parameters(0xD2, &mut buf) {
            Ok(()) => Ok(nv_memory_status_read::NvMemoryStatus { data: bytes_into_array::<2>(&buf) }),
            Err(e) => Err(e),
        }
    }

    /// Read id4 (opcode 0xD3): receive the block's 3 bytes and
    /// return them as a typed `Id4` block.
    pub fn read_id4(&mut self) -> (r: Result<read_id4::Id4, Iface::Error>)
        ensures
            r matches Ok(b) ==> final(self).wire_log() == old(self).wire_log().push(
                WireOp::Read { opcode: 0xD3, params: b.data@ },
            ),
    {
        let mut buf = byte_buffer(3);
        match self.read_parameters(0xD3, &mut buf) {
            Ok(()) => Ok(read_id4::Id4 { data: bytes_into_array::<3>(&buf) }),
            Err(e) => Err(e),
        }
    }

    /// Positive gamma correction (opcode 0xE0): build the `PositiveGammaCorrection` parameter block from
    /// its default value through the caller's builder and send it.
    pub fn positive_gamma_correction<F: FnOnce(PositiveGammaCorrectionWrite) -> PositiveGammaCorrectionWrite>(&mut self, f: F) -> (r: Result<
        (),
        Iface::Error,
    >)
        requires
            forall|w0: PositiveGammaCorrectionWrite|
                w0.d.data@ == positive_gamma_correction::PositiveGammaCorrection::spec_default() ==> #[trigger] call_requires(f, (w0,)),
        ensures
            r is Ok ==> exists|w0: PositiveGammaCorrectionWrite, w1: PositiveGammaCorrectionWrite|
                {
                    &&& w0.d.data@ == positive_gamma_correction::PositiveGammaCorrection::spec_default()
                    &&& call_ensures(f, (w0,), w1)
                    &&& final(self).wire_log() == old(self).wire_log().push(
                        WireOp::Write { opcode: 0xE0, params: w1.d.data@ },
                    )
                },
    {
        let block0 = positive_gamma_correction::PositiveGammaCorrection::default();
        proof {
            assert(call_requires(f, ((PositiveGammaCorrectionWrite { d: block0 }),)));
        }
        let block = block0.write(f);
        let r = self.send_parameters(0xE0, block.data.as_slice());
        proof {
            if r is Ok {
                assert((PositiveGammaCorrectionWrite { d: block0 }).d.data@ == positive_gamma_correction::PositiveGammaCorrection::spec_default()
                    && call_ensures(f, ((PositiveGammaCorrectionWrite { d: block0 }),), (PositiveGammaCorrectionWrite { d: block }))
                    && self.wire_log() == old(self).wire_log().push(
                    WireOp::Write { opcode: 0xE0, params: (PositiveGammaCorrectionWrite { d: block }).d.data@ },
                ));
            }
        }
        r
    }

    /// Negative gamma correction (opcode 0xE1): build the `NegativeGammaCorrection` parameter block from
    /// its default value through the caller's builder and send it.
    pub fn negative_gamma_correction<F: FnOnce(NegativeGammaCorrectionWrite) -> NegativeGammaCorrectionWrite>(&mut self, f: F) -> (r: Result<
        (),
        Iface::Error,
    >)
        requires
            forall|w0: NegativeGammaCorrectionWrite|
                w0.d.data@ == negative_gamma_correction::NegativeGammaCorrection::spec_default() ==> #[trigger] call_requires(f, (w0,)),
        ensures
            r is Ok ==> exists|w0: NegativeGammaCorrectionWrite, w1: NegativeGammaCorrectionWrite|
                {
                    &&& w0.d.data@ == negative_gamma_correction::NegativeGammaCorrection::spec_default()
                    &&& call_ensures(f, (w0,), w1)
                    &&& final(self).wire_log() == old(self).wire_log().push(
                        WireOp::Write { opcode: 0xE1, params: w1.d.data@ },
                    )
                },
    {
        let block0 = negative_gamma_correction::NegativeGammaCorrection::default();
        proof {
            assert(call_requires(f, ((NegativeGammaCorrectionWrite { d: block0 }),)));
        }
        let block = block0.write(f);
        let r = self.send_parameters(0xE1, block.data.as_slice());
        proof {
            if r is Ok {
                assert((NegativeGammaCorrectionWrite { d: block0 }).d.data@ == negative_gamma_correction::NegativeGammaCorrection::spec_default()
                    && call_ensures(f, ((NegativeGammaCorrectionWrite { d: block0 }),), (NegativeGammaCorrectionWrite { d: block }))
                    && self.wire_log() == old(self).wire_log().push(
                    WireOp::Write { opcode: 0xE1, params: (NegativeGammaCorrectionWrite { d: block }).d.data@ },
                ));
            }
        }
        r
    }

    /// Digital gamma control1 (opcode 0xE2): build the `DigitalGammaControl1` parameter block from
    /// its default value through the caller's builder and send it. A builder
    /// that reports a codec contract violation stops the command before
    /// anything reaches the wire.
    pub fn digital_gamma_control1<F: FnOnce(DigitalGammaControl1Write) -> Result<DigitalGammaControl1Write, CodecError>>(&mut self, f: F) -> (r: Result<
        (),
        CommandError<Iface::Error>,
    >)
        requires
            forall|w0: DigitalGammaControl1Write|
                w0.d.data@ == digital_gamma_control1::DigitalGammaControl1::spec_default() ==> #[trigger] call_requires(f, (w0,)),
        ensures
            r is Ok ==> exists|w0: DigitalGammaControl1Write, w1: DigitalGammaControl1Write|
                {
                    &&& w0.d.data@ == digital_gamma_control1::DigitalGammaControl1::spec_default()
                    &&& call_ensures(f, (w0,), Ok(w1))
                    &&& final(self).wire_log() == old(self).wire_log().push(
                        WireOp::Write { opcode: 0xE2, params: w1.d.data@ },
                    )
                },
            r matches Err(CommandError::Codec(e)) ==> final(self).wire_log() == old(
                self,
            ).wire_log() && exists|w0: DigitalGammaControl1Write|
                w0.d.data@ == digital_gamma_control1::DigitalGammaControl1::spec_default() && #[trigger] call_ensures(f, (w0,), Err(e)),
    {
        let block0 = digital_gamma_control1::DigitalGammaControl1::default();
        proof {
            assert(call_requires(f, ((DigitalGammaControl1Write { d: block0 }),)));
        }
        match block0.write(f) {
            Ok(block) => {
                let r = self.send_parameters(0xE2, block.data.as_slice());
                proof {
                    if r is Ok {
                        assert((DigitalGammaControl1Write { d: block0 }).d.data@ == digital_gamma_control1::DigitalGammaControl1::spec_default()
                            && call_ensures(
                            f,
                            ((DigitalGammaControl1Write { d: block0 }),),
                            Ok((DigitalGammaControl1Write { d: block })),
                        )
                            && self.wire_log() == old(self).wire_log().push(
                            WireOp::Write { opcode: 0xE2, params: (DigitalGammaControl1Write { d: block }).d.data@ },
                        ));
                    }
                }
                match r {
                    Ok(()) => Ok(()),
                    Err(e) => Err(CommandError::Transport(e)),
                }
            },
            Err(e) => {
                proof {
                    assert((DigitalGammaControl1Write { d: block0 }).d.data@ == digital_gamma_control1::DigitalGammaControl1::spec_default());
                }
                Err(CommandError::Codec(e))
            },
        }
    }

    /// Digital gamma control2 (opcode 0xE3): build the `DigitalGammaControl2` parameter block from
    /// its default value through the caller's builder and send it. A builder
    /// that reports a codec contract violation stops the command before
    /// anything reaches the wire.
    pub fn digital_gamma_control2<F: FnOnce(DigitalGammaControl2Write) -> Result<DigitalGammaControl2Write, CodecError>>(&mut self, f: F) -> (r: Result<
        (),
        CommandError<Iface::Error>,
    >)
        requires
            forall|w0: DigitalGammaControl2Write|
                w0.d.data@ == digital_gamma_control2::DigitalGammaControl2::spec_default() ==> #[trigger] call_requires(f, (w0,)),
        ensures
            r is Ok ==> exists|w0: DigitalGammaControl2Write, w1: DigitalGammaControl2Write|
                {
                    &&& w0.d.data@ == digital_gamma_control2::DigitalGammaControl2::spec_default()
                    &&& call_ensures(f, (w0,), Ok(w1))
                    &&& final(self).wire_log() == old(self).wire_log().push(
                        WireOp::Write { opcode: 0xE3, params: w1.d.data@ },
                    )
                },
            r matches Err(CommandError::Codec(e)) ==> final(self).wire_log() == old(
                self,
            ).wire_log() && exists|w0: DigitalGammaControl2Write|
                w0.d.data@ == digital_gamma_control2::DigitalGammaControl2::spec_default() && #[trigger] call_ensures(f, (w0,), Err(e)),
    {
        let block0 = digital_gamma_control2::DigitalGammaControl2::default();
        proof {
            assert(call_requires(f, ((DigitalGammaControl2Write { d: block0 }),)));
        }
        match block0.write(f) {
            Ok(block) => {
                let r = self.send_parameters(0xE3, block.data.as_slice());
                proof {
                    if r is Ok {
                        assert((DigitalGammaControl2Write { d: block0 }).d.data@ == digital_gamma_control2::DigitalGammaControl2::spec_default()
                            && call_ensures(
                            f,
                            ((DigitalGammaControl2Write { d: block0 }),),
                            Ok((DigitalGammaControl2Write { d: block })),
                        )
                            && self.wire_log() == old(self).wire_log().push(
                            WireOp::Write { opcode: 0xE3, params: (DigitalGammaControl2Write { d: block }).d.data@ },
                        ));
                    }
                }
                match r {
                    Ok(()) => Ok(()),
                    Err(e) => Err(CommandError::Transport(e)),
                }
            },
            Err(e) => {
                proof {
                    assert((DigitalGammaControl2Write { d: block0 }).d.data@ == digital_gamma_control2::DigitalGammaControl2::spec_default());
                }
                Err(CommandError::Codec(e))
            },
        }
    }

    /// Interface control (opcode 0xF6): build the `InterfaceControl` parameter block from
    /// its default value through the caller's builder and send it.
    pub fn interface_control<F: FnOnce(InterfaceControlWrite) -> InterfaceControlWrite>(&mut self, f: F) -> (r: Result<
        (),
        Iface::Error,
    >)
        requires
            forall|w0: InterfaceControlWrite|
                w0.d.data@ == interface_control::InterfaceControl::spec_default() ==> #[trigger] call_requires(f, (w0,)),
        ensures
            r is Ok ==> exists|w0: InterfaceControlWrite, w1: InterfaceControlWrite|
                {
                    &&& w0.d.data@ == interface_control::InterfaceControl::spec_default()
                    &&& call_ensures(f, (w0,), w1)
                    &&& final(self).wire_log() == old(self).wire_log().push(
                        WireOp::Write { opcode: 0xF6, params: w1.d.data@ },
                    )
                },
    {
        let block0 = interface_control::InterfaceControl::default();
        proof {
            assert(call_requires(f, ((InterfaceControlWrite { d: block0 }),)));
        }
        let block = block0.write(f);
        let r = self.send_parameters(0xF6, block.data.as_slice());
        proof {
            if r is Ok {
                assert((InterfaceControlWrite { d: block0 }).d.data@ == interface_control::InterfaceControl::spec_default()
                    && call_ensures(f, ((InterfaceControlWrite { d: block0 }),), (InterfaceControlWrite { d: block }))
                    && self.wire_log() == old(self).wire_log().push(
                    WireOp::Write { opcode: 0xF6, params: (InterfaceControlWrite { d: block }).d.data@ },
                ));
            }
        }
        r
    }
}

} // verus!
