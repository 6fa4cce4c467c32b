//! Parameter block of the `interface-control` command: memory access crossovers,
//! data transfer method, endianness and the display operation mode.

use vstd::prelude::*;

use crate::bits::extract_field;
use crate::bits::field_get;
use crate::bits::field_set;
use crate::bits::insert_field;
use crate::error::CodecError;

verus! {

/// The documented codes of the `Expand16BbpRgbtO18BbpRgb` field.
#[derive(Copy, Clone, Debug, PartialEq, Eq, Structural)]
pub enum Expand16BbpRgbtO18BbpRgb {
    MsbIsInputtedToLsbR50EqR40R4G50EqG50B50EqB40B4,
    N0IsInputtedToLsbR50EqR400G50EqG50B50EqB400ExceptionR40B40Eq5H1FR50B50Eq6H3F,
    N1IsInputtedToLsbR50EqR401G50EqG50B50EqB401ExceptionR40B40Eq5H00R50B50Eq6H00,
    CompareR40G51B40CaseCase1REqGEqBR50EqR40G0G50EqG50B50EqB40G0Case2REqBgR50EqR40R4G50EqG50B50EqB40B0Case3REqGbR50EqR40G0G50EqG50B50EqB40B0Case4BEqGrR50EqR40R4G50EqG50B50EqB40G0,
}

impl Expand16BbpRgbtO18BbpRgb {
    /// The wire code of this variant.
    pub open spec fn spec_code(self) -> u8 {
        match self {
            Expand16BbpRgbtO18BbpRgb::MsbIsInputtedToLsbR50EqR40R4G50EqG50B50EqB40B4 => 0x00,
            Expand16BbpRgbtO18BbpRgb::N0IsInputtedToLsbR50EqR400G50EqG50B50EqB400ExceptionR40B40Eq5H1FR50B50Eq6H3F => 0x01,
            Expand16BbpRgbtO18BbpRgb::N1IsInputtedToLsbR50EqR401G50EqG50B50EqB401ExceptionR40B40Eq5H00R50B50Eq6H00 => 0x02,
            Expand16BbpRgbtO18BbpRgb::CompareR40G51B40CaseCase1REqGEqBR50EqR40G0G50EqG50B50EqB40G0Case2REqBgR50EqR40R4G50EqG50B50EqB40B0Case3REqGbR50EqR40G0G50EqG50B50EqB40B0Case4BEqGrR50EqR40R4G50EqG50B50EqB40G0 => 0x03,
        }
    }

    /// The variant for a wire code, or a decode error for a code outside
    /// the documented mapping.
    pub open spec fn spec_decode(code: u8) -> Result<Expand16BbpRgbtO18BbpRgb, CodecError> {
        if code == 0x00 {
            Ok(Expand16BbpRgbtO18BbpRgb::MsbIsInputtedToLsbR50EqR40R4G50EqG50B50EqB40B4)
        } else if code == 0x01 {
            Ok(Expand16BbpRgbtO18BbpRgb::N0IsInputtedToLsbR50EqR400G50EqG50B50EqB400ExceptionR40B40Eq5H1FR50B50Eq6H3F)
        } else if code == 0x02 {
            Ok(Expand16BbpRgbtO18BbpRgb::N1IsInputtedToLsbR50EqR401G50EqG50B50EqB401ExceptionR40B40Eq5H00R50B50Eq6H00)
        } else if code == 0x03 {
            Ok(Expand16BbpRgbtO18BbpRgb::CompareR40G51B40CaseCase1REqGEqBR50EqR40G0G50EqG50B50EqB40G0Case2REqBgR50EqR40R4G50EqG50B50EqB40B0Case3REqGbR50EqR40G0G50EqG50B50EqB40B0Case4BEqGrR50EqR40R4G50EqG50B50EqB40G0)
        } else {
            Err(CodecError::UnrecognizedCode { code })
        }
    }

    /// The wire code of this variant.
    pub fn code(self) -> (r: u8)
        ensures
            r == self.spec_code(),
    {
        match self {
            Expand16BbpRgbtO18BbpRgb::MsbIsInputtedToLsbR50EqR40R4G50EqG50B50EqB40B4 => 0x00,
            Expand16BbpRgbtO18BbpRgb::N0IsInputtedToLsbR50EqR400G50EqG50B50EqB400ExceptionR40B40Eq5H1FR50B50Eq6H3F => 0x01,
            Expand16BbpRgbtO18BbpRgb::N1IsInputtedToLsbR50EqR401G50EqG50B50EqB401ExceptionR40B40Eq5H00R50B50Eq6H00 => 0x02,
            Expand16BbpRgbtO18BbpRgb::CompareR40G51B40CaseCase1REqGEqBR50EqR40G0G50EqG50B50EqB40G0Case2REqBgR50EqR40R4G50EqG50B50EqB40B0Case3REqGbR50EqR40G0G50EqG50B50EqB40B0Case4BEqGrR50EqR40R4G50EqG50B50EqB40G0 => 0x03,
        }
    }

    /// Decode a wire code; a code outside the documented mapping is a
    /// recoverable error, never coerced to a variant.
    pub fn from_code(code: u8) -> (r: Result<Expand16BbpRgbtO18BbpRgb, CodecError>)
        ensures
            r == Self::spec_decode(code),
    {
        match code {
            0x00 => Ok(Expand16BbpRgbtO18BbpRgb::MsbIsInputtedToLsbR50EqR40R4G50EqG50B50EqB40B4),
            0x01 => Ok(Expand16BbpRgbtO18BbpRgb::N0IsInputtedToLsbR50EqR400G50EqG50B50EqB400ExceptionR40B40Eq5H1FR50B50Eq6H3F),
            0x02 => Ok(Expand16BbpRgbtO18BbpRgb::N1IsInputtedToLsbR50EqR401G50EqG50B50EqB401ExceptionR40B40Eq5H00R50B50Eq6H00),
            0x03 => Ok(Expand16BbpRgbtO18BbpRgb::CompareR40G51B40CaseCase1REqGEqBR50EqR40G0G50EqG50B50EqB40G0Case2REqBgR50EqR40R4G50EqG50B50EqB40B0Case3REqGbR50EqR40G0G50EqG50B50EqB40B0Case4BEqGrR50EqR40R4G50EqG50B50EqB40G0),
            _ => Err(CodecError::UnrecognizedCode { code }),
        }
    }

    /// Decoding a variant's own code yields that variant back.
    pub proof fn lemma_code_roundtrip(self)
        ensures
            Self::spec_decode(self.spec_code()) == Ok::<Expand16BbpRgbtO18BbpRgb, CodecError>(self),
    {
    }
}

/// The documented codes of the `DataTransferMode` field.
#[derive(Copy, Clone, Debug, PartialEq, Eq, Structural)]
pub enum DataTransferMode {
    NormalMsbFirstDefault,
    LittleEndianLsbFirst,
}

impl DataTransferMode {
    /// The wire code of this variant.
    pub open spec fn spec_code(self) -> u8 {
        match self {
            DataTransferMode::NormalMsbFirstDefault => 0x00,
            DataTransferMode::LittleEndianLsbFirst => 0x01,
        }
    }

    /// The variant for a wire code, or a decode error for a code outside
    /// the documented mapping.
    pub open spec fn spec_decode(code: u8) -> Result<DataTransferMode, CodecError> {
        if code == 0x00 {
            Ok(DataTransferMode::NormalMsbFirstDefault)
        } else if code == 0x01 {
            Ok(DataTransferMode::LittleEndianLsbFirst)
        } else {
            Err(CodecError::UnrecognizedCode { code })
        }
    }

    /// The wire code of this variant.
    pub fn code(self) -> (r: u8)
        ensures
            r == self.spec_code(),
    {
        match self {
            DataTransferMode::NormalMsbFirstDefault => 0x00,
            DataTransferMode::LittleEndianLsbFirst => 0x01,
        }
    }

    /// Decode a wire code; a code outside the documented mapping is a
    /// recoverable error, never coerced to a variant.
    pub fn from_code(code: u8) -> (r: Result<DataTransferMode, CodecError>)
        ensures
            r == Self::spec_decode(code),
    {
        match code {
            0x00 => Ok(DataTransferMode::NormalMsbFirstDefault),
            0x01 => Ok(DataTransferMode::LittleEndianLsbFirst),
            _ => Err(CodecError::UnrecognizedCode { code }),
        }
    }

    /// Decoding a variant's own code yields that variant back.
    pub proof fn lemma_code_roundtrip(self)
        ensures
            Self::spec_decode(self.spec_code()) == Ok::<DataTransferMode, CodecError>(self),
    {
    }
}

/// The documented codes of the `DisplayOperationMode` field.
#[derive(Copy, Clone, Debug, PartialEq, Eq, Structural)]
pub enum DisplayOperationMode {
    InternalClockOperation,
    RgbInterfaceMode,
    VsyncInterfaceMode,
    SettingDisabled,
}

impl DisplayOperationMode {
    /// The wire code of this variant.
    pub open spec fn spec_code(self) -> u8 {
        match self {
            DisplayOperationMode::InternalClockOperation => 0x00,
            DisplayOperationMode::RgbInterfaceMode => 0x01,
            DisplayOperationMode::VsyncInterfaceMode => 0x02,
            DisplayOperationMode::SettingDisabled => 0x03,
        }
    }

    /// The variant for a wire code, or a decode error for a code outside
    /// the documented mapping.
    pub open spec fn spec_decode(code: u8) -> Result<DisplayOperationMode, CodecError> {
        if code == 0x00 {
            Ok(DisplayOperationMode::InternalClockOperation)
        } else if code == 0x01 {
            Ok(DisplayOperationMode::RgbInterfaceMode)
        } else if code == 0x02 {
            Ok(DisplayOperationMode::VsyncInterfaceMode)
        } else if code == 0x03 {
            Ok(DisplayOperationMode::SettingDisabled)
        } else {
            Err(CodecError::UnrecognizedCode { code })
        }
    }

    /// The wire code of this variant.
    pub fn code(self) -> (r: u8)
        ensures
            r == self.spec_code(),
    {
        match self {
            DisplayOperationMode::InternalClockOperation => 0x00,
            DisplayOperationMode::RgbInterfaceMode => 0x01,
            DisplayOperationMode::VsyncInterfaceMode => 0x02,
            DisplayOperationMode::SettingDisabled => 0x03,
        }
    }

    /// Decode a wire code; a code outside the documented mapping is a
    /// recoverable error, never coerced to a variant.
    pub fn from_code(code: u8) -> (r: Result<DisplayOperationMode, CodecError>)
        ensures
            r == Self::spec_decode(code),
    {
        match code {
            0x00 => Ok(DisplayOperationMode::InternalClockOperation),
            0x01 => Ok(DisplayOperationMode::RgbInterfaceMode),
            0x02 => Ok(DisplayOperationMode::VsyncInterfaceMode),
            0x03 => Ok(DisplayOperationMode::SettingDisabled),
            _ => Err(CodecError::UnrecognizedCode { code }),
        }
    }

    /// Decoding a variant's own code yields that variant back.
    pub proof fn lemma_code_roundtrip(self)
        ensures
            Self::spec_decode(self.spec_code()) == Ok::<DisplayOperationMode, CodecError>(self),
    {
    }
}

/// The documented codes of the `InterfaceForRamAccess` field.
#[derive(Copy, Clone, Debug, PartialEq, Eq, Structural)]
pub enum InterfaceForRamAccess {
    SystemInterfaceOrVsyncInterface,
    RgbInterface,
}

impl InterfaceForRamAccess {
    /// The wire code of this variant.
    pub open spec fn spec_code(self) -> u8 {
        match self {
            InterfaceForRamAccess::SystemInterfaceOrVsyncInterface => 0x00,
            InterfaceForRamAccess::RgbInterface => 0x01,
        }
    }

    /// The variant for a wire code, or a decode error for a code outside
    /// the documented mapping.
    pub open spec fn spec_decode(code: u8) -> Result<InterfaceForRamAccess, CodecError> {
        if code == 0x00 {
            Ok(InterfaceForRamAccess::SystemInterfaceOrVsyncInterface)
        } else if code == 0x01 {
            Ok(InterfaceForRamAccess::RgbInterface)
        } else {
            Err(CodecError::UnrecognizedCode { code })
        }
    }

    /// The wire code of this variant.
    pub fn code(self) -> (r: u8)
        ensures
            r == self.spec_code(),
    {
        match self {
            InterfaceForRamAccess::SystemInterfaceOrVsyncInterface => 0x00,
            InterfaceForRamAccess::RgbInterface => 0x01,
        }
    }

    /// Decode a wire code; a code outside the documented mapping is a
    /// recoverable error, never coerced to a variant.
    pub fn from_code(code: u8) -> (r: Result<InterfaceForRamAccess, CodecError>)
        ensures
            r == Self::spec_decode(code),
    {
        match code {
            0x00 => Ok(InterfaceForRamAccess::SystemInterfaceOrVsyncInterface),
            0x01 => Ok(InterfaceForRamAccess::RgbInterface),
            _ => Err(CodecError::UnrecognizedCode { code }),
        }
    }

    /// Decoding a variant's own code yields that variant back.
    pub proof fn lemma_code_roundtrip(self)
        ensures
            Self::spec_decode(self.spec_code()) == Ok::<InterfaceForRamAccess, CodecError>(self),
    {
    }
}

/// The documented codes of the `RgbInterfaceMode` field.
#[derive(Copy, Clone, Debug, PartialEq, Eq, Structural)]
pub enum RgbInterfaceMode {
    N16Or18BitRgbInterface1TransferPerPixel,
    N6BitRgbInterface3TransferPerPixel,
}

impl RgbInterfaceMode {
    /// The wire code of this variant.
    pub open spec fn spec_code(self) -> u8 {
        match self {
            RgbInterfaceMode::N16Or18BitRgbInterface1TransferPerPixel => 0x00,
            RgbInterfaceMode::N6BitRgbInterface3TransferPerPixel => 0x01,
        }
    }

    /// The variant for a wire code, or a decode error for a code outside
    /// the documented mapping.
    pub open spec fn spec_decode(code: u8) -> Result<RgbInterfaceMode, CodecError> {
        if code == 0x00 {
            Ok(RgbInterfaceMode::N16Or18BitRgbInterface1TransferPerPixel)
        } else if code == 0x01 {
            Ok(RgbInterfaceMode::N6BitRgbInterface3TransferPerPixel)
        } else {
            Err(CodecError::UnrecognizedCode { code })
        }
    }

    /// The wire code of this variant.
    pub fn code(self) -> (r: u8)
        ensures
            r == self.spec_code(),
    {
        match self {
            RgbInterfaceMode::N16Or18BitRgbInterface1TransferPerPixel => 0x00,
            RgbInterfaceMode::N6BitRgbInterface3TransferPerPixel => 0x01,
        }
    }

    /// Decode a wire code; a code outside the documented mapping is a
    /// recoverable error, never coerced to a variant.
    pub fn from_code(code: u8) -> (r: Result<RgbInterfaceMode, CodecError>)
        ensures
            r == Self::spec_decode(code),
    {
        match code {
            0x00 => Ok(RgbInterfaceMode::N16Or18BitRgbInterface1TransferPerPixel),
            0x01 => Ok(RgbInterfaceMode::N6BitRgbInterface3TransferPerPixel),
            _ => Err(CodecError::UnrecognizedCode { code }),
        }
    }

    /// Decoding a variant's own code yields that variant back.
    pub proof fn lemma_code_roundtrip(self)
        ensures
            Self::spec_decode(self.spec_code()) == Ok::<RgbInterfaceMode, CodecError>(self),
    {
    }
}

/// The 3-byte parameter block of the `interface-control` command.
#[derive(Copy, Clone, Debug)]
pub struct InterfaceControl {
    pub data: [u8; 3],
}

impl InterfaceControl {
    /// The chip's post-reset value of this block.
    pub open spec fn spec_default() -> Seq<u8> {
        seq![0x01u8, 0x00u8, 0x00u8]
    }

    /// Borrow-free read view over a snapshot of the block.
    pub fn read(&self) -> (r: InterfaceControlRead)
        ensures
            r.d.data@ == self.data@,
    {
        InterfaceControlRead { d: *self }
    }

    /// Apply a builder transformation to this block and return the result.
    pub fn write<F: FnOnce(InterfaceControlWrite) -> InterfaceControlWrite>(self, f: F) -> (r: Self)
        requires
            call_requires(f, ((InterfaceControlWrite { d: self }),)),
        ensures
            call_ensures(f, ((InterfaceControlWrite { d: self }),), (InterfaceControlWrite { d: r })),
    {
        let w = f(InterfaceControlWrite { d: self });
        proof {
            assert((InterfaceControlWrite { d: w.d }) == w);
        }
        w.d
    }
}

impl Default for InterfaceControl {
    /// The block with the chip's documented post-reset byte pattern.
    fn default() -> (r: Self)
        ensures
            r.data@ == InterfaceControl::spec_default(),
    {
        let r = InterfaceControl { data: [0x01, 0x00, 0x00] };
        proof {
            assert(r.data@ =~= InterfaceControl::spec_default());
        }
        r
    }
}

/// Read view of [`InterfaceControl`].
#[derive(Copy, Clone)]
pub struct InterfaceControlRead {
    pub d: InterfaceControl,
}

impl InterfaceControlRead {
    /// `my_eor`: 1 bit at offset 7 of byte 0.
    pub fn my_eor(&self) -> (r: bool)
        ensures
            r == (field_get(self.d.data@[0], 7, 1) != 0),
    {
        extract_field(self.d.data[0], 7, 1) != 0
    }

    /// `mx_eor`: 1 bit at offset 6 of byte 0.
    pub fn mx_eor(&self) -> (r: bool)
        ensures
            r == (field_get(self.d.data@[0], 6, 1) != 0),
    {
        extract_field(self.d.data[0], 6, 1) != 0
    }

    /// `mv_eor`: 1 bit at offset 5 of byte 0.
    pub fn mv_eor(&self) -> (r: bool)
        ensures
            r == (field_get(self.d.data@[0], 5, 1) != 0),
    {
        extract_field(self.d.data[0], 5, 1) != 0
    }

    /// `bgr_eor`: 1 bit at offset 3 of byte 0.
    pub fn bgr_eor(&self) -> (r: bool)
        ensures
            r == (field_get(self.d.data@[0], 3, 1) != 0),
    {
        extract_field(self.d.data[0], 3, 1) != 0
    }

    /// `memory_write_control`: 1 bit at offset 0 of byte 0.
    pub fn memory_write_control(&self) -> (r: bool)
        ensures
            r == (field_get(self.d.data@[0], 0, 1) != 0),
    {
        extract_field(self.d.data[0], 0, 1) != 0
    }

    /// `expand16_bbp_rgbt_o18_bbp_rgb`: 2 bits at offset 4 of byte 1.
    pub fn expand16_bbp_rgbt_o18_bbp_rgb(&self) -> (r: Result<Expand16BbpRgbtO18BbpRgb, CodecError>)
        ensures
            r == Expand16BbpRgbtO18BbpRgb::spec_decode(field_get(self.d.data@[1], 4, 2)),
    {
        Expand16BbpRgbtO18BbpRgb::from_code(extract_field(self.d.data[1], 4, 2))
    }

    /// `select_the_method_of_display_data_transferring`: 2 bits at offset 0 of byte 1.
    pub fn select_the_method_of_display_data_transferring(&self) -> (r: u8)
        ensures
            r == field_get(self.d.data@[1], 0, 2),
    {
        extract_field(self.d.data[1], 0, 2)
    }

    /// `data_transfer_mode`: 1 bit at offset 5 of byte 2.
    pub fn data_transfer_mode(&self) -> (r: Result<DataTransferMode, CodecError>)
        ensures
            r == DataTransferMode::spec_decode(field_get(self.d.data@[2], 5, 1)),
    {
        DataTransferMode::from_code(extract_field(self.d.data[2], 5, 1))
    }

    /// `display_operation_mode`: 2 bits at offset 2 of byte 2.
    pub fn display_operation_mode(&self) -> (r: Result<DisplayOperationMode, CodecError>)
        ensures
            r == DisplayOperationMode::spec_decode(field_get(self.d.data@[2], 2, 2)),
    {
        DisplayOperationMode::from_code(extract_field(self.d.data[2], 2, 2))
    }

    /// `interface_for_ram_access`: 1 bit at offset 1 of byte 2.
    pub fn interface_for_ram_access(&self) -> (r: Result<InterfaceForRamAccess, CodecError>)
        ensures
            r == InterfaceForRamAccess::spec_decode(field_get(self.d.data@[2], 1, 1)),
    {
        InterfaceForRamAccess::from_code(extract_field(self.d.data[2], 1, 1))
    }

    /// `rgb_interface_mode`: 1 bit at offset 0 of byte 2.
    pub fn rgb_interface_mode(&self) -> (r: Result<RgbInterfaceMode, CodecError>)
        ensures
            r == RgbInterfaceMode::spec_decode(field_get(self.d.data@[2], 0, 1)),
    {
        RgbInterfaceMode::from_code(extract_field(self.d.data[2], 0, 1))
    }
}

/// Write view of [`InterfaceControl`].
#[derive(Copy, Clone)]
pub struct InterfaceControlWrite {
    pub d: InterfaceControl,
}

impl InterfaceControlWrite {
    /// `my_eor`: written into 1 bit at offset 7 of byte 0; all other bits are kept.
    pub fn my_eor(self, w: bool) -> (r: Self)
        ensures
            r.d.data@ == self.d.data@.update(
                0,
                field_set(self.d.data@[0], 7, 1, (if w { 1u8 } else { 0u8 })),
            ),
    {
        let mut d = self.d;
        d.data[0] = insert_field(d.data[0], 7, 1, if w { 1 } else { 0 });
        InterfaceControlWrite { d }
    }

    /// `mx_eor`: written into 1 bit at offset 6 of byte 0; all other bits are kept.
    pub fn mx_eor(self, w: bool) -> (r: Self)
        ensures
            r.d.data@ == self.d.data@.update(
                0,
                field_set(self.d.data@[0], 6, 1, (if w { 1u8 } else { 0u8 })),
            ),
    {
        let mut d = self.d;
        d.data[0] = insert_field(d.data[0], 6, 1, if w { 1 } else { 0 });
        InterfaceControlWrite { d }
    }

    /// `mv_eor`: written into 1 bit at offset 5 of byte 0; all other bits are kept.
    pub fn mv_eor(self, w: bool) -> (r: Self)
        ensures
            r.d.data@ == self.d.data@.update(
                0,
                field_set(self.d.data@[0], 5, 1, (if w { 1u8 } else { 0u8 })),
            ),
    {
        let mut d = self.d;
        d.data[0] = insert_field(d.data[0], 5, 1, if w { 1 } else { 0 });
        InterfaceControlWrite { d }
    }

    /// `bgr_eor`: written into 1 bit at offset 3 of byte 0; all other bits are kept.
    pub fn bgr_eor(self, w: bool) -> (r: Self)
        ensures
            r.d.data@ == self.d.data@.update(
                0,
                field_set(self.d.data@[0], 3, 1, (if w { 1u8 } else { 0u8 })),
            ),
    {
        let mut d = self.d;
        d.data[0] = insert_field(d.data[0], 3, 1, if w { 1 } else { 0 });
        InterfaceControlWrite { d }
    }

    /// `memory_write_control`: written into 1 bit at offset 0 of byte 0; all other bits are kept.
    pub fn memory_write_control(self, w: bool) -> (r: Self)
        ensures
            r.d.data@ == self.d.data@.update(
                0,
                field_set(self.d.data@[0], 0, 1, (if w { 1u8 } else { 0u8 })),
            ),
    {
        let mut d = self.d;
        d.data[0] = insert_field(d.data[0], 0, 1, if w { 1 } else { 0 });
        InterfaceControlWrite { d }
    }

    /// `expand16_bbp_rgbt_o18_bbp_rgb`: written into 2 bits at offset 4 of byte 1; all other bits are kept.
    pub fn expand16_bbp_rgbt_o18_bbp_rgb(self, w: Expand16BbpRgbtO18BbpRgb) -> (r: Self)
        ensures
            r.d.data@ == self.d.data@.update(
                1,
                field_set(self.d.data@[1], 4, 2, w.spec_code()),
            ),
    {
        let c = w.code();
        let mut d = self.d;
        d.data[1] = insert_field(d.data[1], 4, 2, c);
        InterfaceControlWrite { d }
    }

    /// `select_the_method_of_display_data_transferring`: written into 2 bits at offset 0 of byte 1; all other bits are kept.
    pub fn select_the_method_of_display_data_transferring(self, w: u8) -> (r: Self)
        ensures
            r.d.data@ == self.d.data@.update(
                1,
                field_set(self.d.data@[1], 0, 2, w),
            ),
    {
        let mut d = self.d;
        d.data[1] = insert_field(d.data[1], 0, 2, w);
        InterfaceControlWrite { d }
    }

    /// `data_transfer_mode`: written into 1 bit at offset 5 of byte 2; all other bits are kept.
    pub fn data_transfer_mode(self, w: DataTransferMode) -> (r: Self)
        ensures
            r.d.data@ == self.d.data@.update(
                2,
                field_set(self.d.data@[2], 5, 1, w.spec_code()),
            ),
    {
        let c = w.code();
        let mut d = self.d;
        d.data[2] = insert_field(d.data[2], 5, 1, c);
        InterfaceControlWrite { d }
    }

    /// `display_operation_mode`: written into 2 bits at offset 2 of byte 2; all other bits are kept.
    pub fn display_operation_mode(self, w: DisplayOperationMode) -> (r: Self)
        ensures
            r.d.data@ == self.d.data@.update(
                2,
                field_set(self.d.data@[2], 2, 2, w.spec_code()),
            ),
    {
        let c = w.code();
        let mut d = self.d;
        d.data[2] = insert_field(d.data[2], 2, 2, c);
        InterfaceControlWrite { d }
    }

    /// `interface_for_ram_access`: written into 1 bit at offset 1 of byte 2; all other bits are kept.
    pub fn interface_for_ram_access(self, w: InterfaceForRamAccess) -> (r: Self)
        ensures
            r.d.data@ == self.d.data@.update(
                2,
                field_set(self.d.data@[2], 1, 1, w.spec_code()),
            ),
    {
        let c = w.code();
        let mut d = self.d;
        d.data[2] = insert_field(d.data[2], 1, 1, c);
        InterfaceControlWrite { d }
    }

    /// `rgb_interface_mode`: written into 1 bit at offset 0 of byte 2; all other bits are kept.
    pub fn rgb_interface_mode(self, w: RgbInterfaceMode) -> (r: Self)
        ensures
            r.d.data@ == self.d.data@.update(
                2,
                field_set(self.d.data@[2], 0, 1, w.spec_code()),
            ),
    {
        let c = w.code();
        let mut d = self.d;
        d.data[2] = insert_field(d.data[2], 0, 1, c);
        InterfaceControlWrite { d }
    }
}

} // verus!
