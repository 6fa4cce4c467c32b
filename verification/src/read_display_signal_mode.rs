//! Parameter block of the `read-display-signal-mode` command: the tearing-effect and RGB-interface
//! signal states.

use vstd::prelude::*;

use crate::bits::extract_field;
use crate::bits::field_get;
use crate::bits::field_set;
use crate::bits::insert_field;
use crate::error::CodecError;

verus! {

/// The documented codes of the `TearingEffectLine` field.
#[derive(Copy, Clone, Debug, PartialEq, Eq, Structural)]
pub enum TearingEffectLine {
    TearingEffectLineOff,
    TearingEffectLineOn,
}

impl TearingEffectLine {
    /// The wire code of this variant.
    pub open spec fn spec_code(self) -> u8 {
        match self {
            TearingEffectLine::TearingEffectLineOff => 0x00,
            TearingEffectLine::TearingEffectLineOn => 0x01,
        }
    }

    /// The variant for a wire code, or a decode error for a code outside
    /// the documented mapping.
    pub open spec fn spec_decode(code: u8) -> Result<TearingEffectLine, CodecError> {
        if code == 0x00 {
            Ok(TearingEffectLine::TearingEffectLineOff)
        } else if code == 0x01 {
            Ok(TearingEffectLine::TearingEffectLineOn)
        } else {
            Err(CodecError::UnrecognizedCode { code })
        }
    }

    /// The wire code of this variant.
    pub fn code(self) -> (r: u8)
        ensures
            r == self.spec_code(),
    {
        match self {
            TearingEffectLine::TearingEffectLineOff => 0x00,
            TearingEffectLine::TearingEffectLineOn => 0x01,
        }
    }

    /// Decode a wire code; a code outside the documented mapping is a
    /// recoverable error, never coerced to a variant.
    pub fn from_code(code: u8) -> (r: Result<TearingEffectLine, CodecError>)
        ensures
            r == Self::spec_decode(code),
    {
        match code {
            0x00 => Ok(TearingEffectLine::TearingEffectLineOff),
            0x01 => Ok(TearingEffectLine::TearingEffectLineOn),
            _ => Err(CodecError::UnrecognizedCode { code }),
        }
    }

    /// Decoding a variant's own code yields that variant back.
    pub proof fn lemma_code_roundtrip(self)
        ensures
            Self::spec_decode(self.spec_code()) == Ok::<TearingEffectLine, CodecError>(self),
    {
    }
}

/// The documented codes of the `TearingEffectLineMode` field.
#[derive(Copy, Clone, Debug, PartialEq, Eq, Structural)]
pub enum TearingEffectLineMode {
    TearingEffectLineMode1,
    TearingEffectLineMode2,
}

impl TearingEffectLineMode {
    /// The wire code of this variant.
    pub open spec fn spec_code(self) -> u8 {
        match self {
            TearingEffectLineMode::TearingEffectLineMode1 => 0x00,
            TearingEffectLineMode::TearingEffectLineMode2 => 0x01,
        }
    }

    /// The variant for a wire code, or a decode error for a code outside
    /// the documented mapping.
    pub open spec fn spec_decode(code: u8) -> Result<TearingEffectLineMode, CodecError> {
        if code == 0x00 {
            Ok(TearingEffectLineMode::TearingEffectLineMode1)
        } else if code == 0x01 {
            Ok(TearingEffectLineMode::TearingEffectLineMode2)
        } else {
            Err(CodecError::UnrecognizedCode { code })
        }
    }

    /// The wire code of this variant.
    pub fn code(self) -> (r: u8)
        ensures
            r == self.spec_code(),
    {
        match self {
            TearingEffectLineMode::TearingEffectLineMode1 => 0x00,
            TearingEffectLineMode::TearingEffectLineMode2 => 0x01,
        }
    }

    /// Decode a wire code; a code outside the documented mapping is a
    /// recoverable error, never coerced to a variant.
    pub fn from_code(code: u8) -> (r: Result<TearingEffectLineMode, CodecError>)
        ensures
            r == Self::spec_decode(code),
    {
        match code {
            0x00 => Ok(TearingEffectLineMode::TearingEffectLineMode1),
            0x01 => Ok(TearingEffectLineMode::TearingEffectLineMode2),
            _ => Err(CodecError::UnrecognizedCode { code }),
        }
    }

    /// Decoding a variant's own code yields that variant back.
    pub proof fn lemma_code_roundtrip(self)
        ensures
            Self::spec_decode(self.spec_code()) == Ok::<TearingEffectLineMode, CodecError>(self),
    {
    }
}

/// The documented codes of the `HorizontalSync` field.
#[derive(Copy, Clone, Debug, PartialEq, Eq, Structural)]
pub enum HorizontalSync {
    HorizontalSyncRgbInterfaceOff,
    HorizontalSyncRgbInterfaceOn,
}

impl HorizontalSync {
    /// The wire code of this variant.
    pub open spec fn spec_code(self) -> u8 {
        match self {
            HorizontalSync::HorizontalSyncRgbInterfaceOff => 0x00,
            HorizontalSync::HorizontalSyncRgbInterfaceOn => 0x01,
        }
    }

    /// The variant for a wire code, or a decode error for a code outside
    /// the documented mapping.
    pub open spec fn spec_decode(code: u8) -> Result<HorizontalSync, CodecError> {
        if code == 0x00 {
            Ok(HorizontalSync::HorizontalSyncRgbInterfaceOff)
        } else if code == 0x01 {
            Ok(HorizontalSync::HorizontalSyncRgbInterfaceOn)
        } else {
            Err(CodecError::UnrecognizedCode { code })
        }
    }

    /// The wire code of this variant.
    pub fn code(self) -> (r: u8)
        ensures
            r == self.spec_code(),
    {
        match self {
            HorizontalSync::HorizontalSyncRgbInterfaceOff => 0x00,
            HorizontalSync::HorizontalSyncRgbInterfaceOn => 0x01,
        }
    }

    /// Decode a wire code; a code outside the documented mapping is a
    /// recoverable error, never coerced to a variant.
    pub fn from_code(code: u8) -> (r: Result<HorizontalSync, CodecError>)
        ensures
            r == Self::spec_decode(code),
    {
        match code {
            0x00 => Ok(HorizontalSync::HorizontalSyncRgbInterfaceOff),
            0x01 => Ok(HorizontalSync::HorizontalSyncRgbInterfaceOn),
            _ => Err(CodecError::UnrecognizedCode { code }),
        }
    }

    /// Decoding a variant's own code yields that variant back.
    pub proof fn lemma_code_roundtrip(self)
        ensures
            Self::spec_decode(self.spec_code()) == Ok::<HorizontalSync, CodecError>(self),
    {
    }
}

/// The documented codes of the `VerticalSync` field.
#[derive(Copy, Clone, Debug, PartialEq, Eq, Structural)]
pub enum VerticalSync {
    VerticalSyncRgbInterfaceOff,
    VerticalSyncRgbInterfaceOn,
}

impl VerticalSync {
    /// The wire code of this variant.
    pub open spec fn spec_code(self) -> u8 {
        match self {
            VerticalSync::VerticalSyncRgbInterfaceOff => 0x00,
            VerticalSync::VerticalSyncRgbInterfaceOn => 0x01,
        }
    }

    /// The variant for a wire code, or a decode error for a code outside
    /// the documented mapping.
    pub open spec fn spec_decode(code: u8) -> Result<VerticalSync, CodecError> {
        if code == 0x00 {
            Ok(VerticalSync::VerticalSyncRgbInterfaceOff)
        } else if code == 0x01 {
            Ok(VerticalSync::VerticalSyncRgbInterfaceOn)
        } else {
            Err(CodecError::UnrecognizedCode { code })
        }
    }

    /// The wire code of this variant.
    pub fn code(self) -> (r: u8)
        ensures
            r == self.spec_code(),
    {
        match self {
            VerticalSync::VerticalSyncRgbInterfaceOff => 0x00,
            VerticalSync::VerticalSyncRgbInterfaceOn => 0x01,
        }
    }

    /// Decode a wire code; a code outside the documented mapping is a
    /// recoverable error, never coerced to a variant.
    pub fn from_code(code: u8) -> (r: Result<VerticalSync, CodecError>)
        ensures
            r == Self::spec_decode(code),
    {
        match code {
            0x00 => Ok(VerticalSync::VerticalSyncRgbInterfaceOff),
            0x01 => Ok(VerticalSync::VerticalSyncRgbInterfaceOn),
            _ => Err(CodecError::UnrecognizedCode { code }),
        }
    }

    /// Decoding a variant's own code yields that variant back.
    pub proof fn lemma_code_roundtrip(self)
        ensures
            Self::spec_decode(self.spec_code()) == Ok::<VerticalSync, CodecError>(self),
    {
    }
}

/// The documented codes of the `PixelClock` field.
#[derive(Copy, Clone, Debug, PartialEq, Eq, Structural)]
pub enum PixelClock {
    PixelClockDotclkRgbInterfaceOff,
    PixelClockDotclkRgbInterfaceOn,
}

impl PixelClock {
    /// The wire code of this variant.
    pub open spec fn spec_code(self) -> u8 {
        match self {
            PixelClock::PixelClockDotclkRgbInterfaceOff => 0x00,
            PixelClock::PixelClockDotclkRgbInterfaceOn => 0x01,
        }
    }

    /// The variant for a wire code, or a decode error for a code outside
    /// the documented mapping.
    pub open spec fn spec_decode(code: u8) -> Result<PixelClock, CodecError> {
        if code == 0x00 {
            Ok(PixelClock::PixelClockDotclkRgbInterfaceOff)
        } else if code == 0x01 {
            Ok(PixelClock::PixelClockDotclkRgbInterfaceOn)
        } else {
            Err(CodecError::UnrecognizedCode { code })
        }
    }

    /// The wire code of this variant.
    pub fn code(self) -> (r: u8)
        ensures
            r == self.spec_code(),
    {
        match self {
            PixelClock::PixelClockDotclkRgbInterfaceOff => 0x00,
            PixelClock::PixelClockDotclkRgbInterfaceOn => 0x01,
        }
    }

    /// Decode a wire code; a code outside the documented mapping is a
    /// recoverable error, never coerced to a variant.
    pub fn from_code(code: u8) -> (r: Result<PixelClock, CodecError>)
        ensures
            r == Self::spec_decode(code),
    {
        match code {
            0x00 => Ok(PixelClock::PixelClockDotclkRgbInterfaceOff),
            0x01 => Ok(PixelClock::PixelClockDotclkRgbInterfaceOn),
            _ => Err(CodecError::UnrecognizedCode { code }),
        }
    }

    /// Decoding a variant's own code yields that variant back.
    pub proof fn lemma_code_roundtrip(self)
        ensures
            Self::spec_decode(self.spec_code()) == Ok::<PixelClock, CodecError>(self),
    {
    }
}

/// The documented codes of the `DataEnable` field.
#[derive(Copy, Clone, Debug, PartialEq, Eq, Structural)]
pub enum DataEnable {
    DataEnableDeRgbInterfaceOff,
    DataEnableDeRgbInterfaceOn,
}

impl DataEnable {
    /// The wire code of this variant.
    pub open spec fn spec_code(self) -> u8 {
        match self {
            DataEnable::DataEnableDeRgbInterfaceOff => 0x00,
            DataEnable::DataEnableDeRgbInterfaceOn => 0x01,
        }
    }

    /// The variant for a wire code, or a decode error for a code outside
    /// the documented mapping.
    pub open spec fn spec_decode(code: u8) -> Result<DataEnable, CodecError> {
        if code == 0x00 {
            Ok(DataEnable::DataEnableDeRgbInterfaceOff)
        } else if code == 0x01 {
            Ok(DataEnable::DataEnableDeRgbInterfaceOn)
        } else {
            Err(CodecError::UnrecognizedCode { code })
        }
    }

    /// The wire code of this variant.
    pub fn code(self) -> (r: u8)
        ensures
            r == self.spec_code(),
    {
        match self {
            DataEnable::DataEnableDeRgbInterfaceOff => 0x00,
            DataEnable::DataEnableDeRgbInterfaceOn => 0x01,
        }
    }

    /// Decode a wire code; a code outside the documented mapping is a
    /// recoverable error, never coerced to a variant.
    pub fn from_code(code: u8) -> (r: Result<DataEnable, CodecError>)
        ensures
            r == Self::spec_decode(code),
    {
        match code {
            0x00 => Ok(DataEnable::DataEnableDeRgbInterfaceOff),
            0x01 => Ok(DataEnable::DataEnableDeRgbInterfaceOn),
            _ => Err(CodecError::UnrecognizedCode { code }),
        }
    }

    /// Decoding a variant's own code yields that variant back.
    pub proof fn lemma_code_roundtrip(self)
        ensures
            Self::spec_decode(self.spec_code()) == Ok::<DataEnable, CodecError>(self),
    {
    }
}

/// The single-byte parameter block of the `read-display-signal-mode` command.
#[derive(Copy, Clone, Debug)]
pub struct DisplaySignalMode {
    pub data: [u8; 1],
}

impl DisplaySignalMode {
    /// The chip's post-reset value of this block.
    pub open spec fn spec_default() -> Seq<u8> {
        seq![0x00u8]
    }

    /// Borrow-free read view over a snapshot of the block.
    pub fn read(&self) -> (r: DisplaySignalModeRead)
        ensures
            r.d.data@ == self.data@,
    {
        DisplaySignalModeRead { d: *self }
    }

    /// Apply a builder transformation to this block and return the result.
    pub fn write<F: FnOnce(DisplaySignalModeWrite) -> DisplaySignalModeWrite>(self, f: F) -> (r: Self)
        requires
            call_requires(f, ((DisplaySignalModeWrite { d: self }),)),
        ensures
            call_ensures(f, ((DisplaySignalModeWrite { d: self }),), (DisplaySignalModeWrite { d: r })),
    {
        let w = f(DisplaySignalModeWrite { d: self });
        proof {
            assert((DisplaySignalModeWrite { d: w.d }) == w);
        }
        w.d
    }
}

impl Default for DisplaySignalMode {
    /// The block with the chip's documented post-reset byte pattern.
    fn default() -> (r: Self)
        ensures
            r.data@ == DisplaySignalMode::spec_default(),
    {
        let r = DisplaySignalMode { data: [0x00] };
        proof {
            assert(r.data@ =~= DisplaySignalMode::spec_default());
        }
        r
    }
}

/// Read view of [`DisplaySignalMode`].
#[derive(Copy, Clone)]
pub struct DisplaySignalModeRead {
    pub d: DisplaySignalMode,
}

impl DisplaySignalModeRead {
    /// `tearing_effect_line`: 1 bit at offset 7 of byte 0.
    pub fn tearing_effect_line(&self) -> (r: Result<TearingEffectLine, CodecError>)
        ensures
            r == TearingEffectLine::spec_decode(field_get(self.d.data@[0], 7, 1)),
    {
        TearingEffectLine::from_code(extract_field(self.d.data[0], 7, 1))
    }

    /// `tearing_effect_line_mode`: 1 bit at offset 6 of byte 0.
    pub fn tearing_effect_line_mode(&self) -> (r: Result<TearingEffectLineMode, CodecError>)
        ensures
            r == TearingEffectLineMode::spec_decode(field_get(self.d.data@[0], 6, 1)),
    {
        TearingEffectLineMode::from_code(extract_field(self.d.data[0], 6, 1))
    }

    /// `horizontal_sync`: 1 bit at offset 5 of byte 0.
    pub fn horizontal_sync(&self) -> (r: Result<HorizontalSync, CodecError>)
        ensures
            r == HorizontalSync::spec_decode(field_get(self.d.data@[0], 5, 1)),
    {
        HorizontalSync::from_code(extract_field(self.d.data[0], 5, 1))
    }

    /// `vertical_sync`: 1 bit at offset 4 of byte 0.
    pub fn vertical_sync(&self) -> (r: Result<VerticalSync, CodecError>)
        ensures
            r == VerticalSync::spec_decode(field_get(self.d.data@[0], 4, 1)),
    {
        VerticalSync::from_code(extract_field(self.d.data[0], 4, 1))
    }

    /// `pixel_clock`: 1 bit at offset 3 of byte 0.
    pub fn pixel_clock(&self) -> (r: Result<PixelClock, CodecError>)
        ensures
            r == PixelClock::spec_decode(field_get(self.d.data@[0], 3, 1)),
    {
        PixelClock::from_code(extract_field(self.d.data[0], 3, 1))
    }

    /// `data_enable`: 1 bit at offset 2 of byte 0.
    pub fn data_enable(&self) -> (r: Result<DataEnable, CodecError>)
        ensures
            r == DataEnable::spec_decode(field_get(self.d.data@[0], 2, 1)),
    {
        DataEnable::from_code(extract_field(self.d.data[0], 2, 1))
    }
}

/// Write view of [`DisplaySignalMode`].
#[derive(Copy, Clone)]
pub struct DisplaySignalModeWrite {
    pub d: DisplaySignalMode,
}

impl DisplaySignalModeWrite {
    /// `tearing_effect_line`: written into 1 bit at offset 7 of byte 0; all other bits are kept.
    pub fn tearing_effect_line(self, w: TearingEffectLine) -> (r: Self)
        ensures
            r.d.data@ == self.d.data@.update(
                0,
                field_set(self.d.data@[0], 7, 1, w.spec_code()),
            ),
    {
        let c = w.code();
        let mut d = self.d;
        d.data[0] = insert_field(d.data[0], 7, 1, c);
        DisplaySignalModeWrite { d }
    }

    /// `tearing_effect_line_mode`: written into 1 bit at offset 6 of byte 0; all other bits are kept.
    pub fn tearing_effect_line_mode(self, w: TearingEffectLineMode) -> (r: Self)
        ensures
            r.d.data@ == self.d.data@.update(
                0,
                field_set(self.d.data@[0], 6, 1, w.spec_code()),
            ),
    {
        let c = w.code();
        let mut d = self.d;
        d.data[0] = insert_field(d.data[0], 6, 1, c);
        DisplaySignalModeWrite { d }
    }

    /// `horizontal_sync`: written into 1 bit at offset 5 of byte 0; all other bits are kept.
    pub fn horizontal_sync(self, w: HorizontalSync) -> (r: Self)
        ensures
            r.d.data@ == self.d.data@.update(
                0,
                field_set(self.d.data@[0], 5, 1, w.spec_code()),
            ),
    {
        let c = w.code();
        let mut d = self.d;
        d.data[0] = insert_field(d.data[0], 5, 1, c);
        DisplaySignalModeWrite { d }
    }

    /// `vertical_sync`: written into 1 bit at offset 4 of byte 0; all other bits are kept.
    pub fn vertical_sync(self, w: VerticalSync) -> (r: Self)
        ensures
            r.d.data@ == self.d.data@.update(
                0,
                field_set(self.d.data@[0], 4, 1, w.spec_code()),
            ),
    {
        let c = w.code();
        let mut d = self.d;
        d.data[0] = insert_field(d.data[0], 4, 1, c);
        DisplaySignalModeWrite { d }
    }

    /// `pixel_clock`: written into 1 bit at offset 3 of byte 0; all other bits are kept.
    pub fn pixel_clock(self, w: PixelClock) -> (r: Self)
        ensures
            r.d.data@ == self.d.data@.update(
                0,
                field_set(self.d.data@[0], 3, 1, w.spec_code()),
            ),
    {
        let c = w.code();
        let mut d = self.d;
        d.data[0] = insert_field(d.data[0], 3, 1, c);
        DisplaySignalModeWrite { d }
    }

    /// `data_enable`: written into 1 bit at offset 2 of byte 0; all other bits are kept.
    pub fn data_enable(self, w: DataEnable) -> (r: Self)
        ensures
            r.d.data@ == self.d.data@.update(
                0,
                field_set(self.d.data@[0], 2, 1, w.spec_code()),
            ),
    {
        let c = w.code();
        let mut d = self.d;
        d.data[0] = insert_field(d.data[0], 2, 1, c);
        DisplaySignalModeWrite { d }
    }
}

} // verus!
