//! Parameter block of the `display-inversion-control` command: the display inversion
//! setting per display mode.

use vstd::prelude::*;

use crate::bits::extract_field;
use crate::bits::field_get;
use crate::bits::field_set;
use crate::bits::insert_field;
use crate::error::CodecError;

verus! {

/// The documented codes of the `InversionSettingInFullColorsNormalMode` field.
#[derive(Copy, Clone, Debug, PartialEq, Eq, Structural)]
pub enum InversionSettingInFullColorsNormalMode {
    LineInversion,
    FrameInversion,
}

impl InversionSettingInFullColorsNormalMode {
    /// The wire code of this variant.
    pub open spec fn spec_code(self) -> u8 {
        match self {
            InversionSettingInFullColorsNormalMode::LineInversion => 0x00,
            InversionSettingInFullColorsNormalMode::FrameInversion => 0x01,
        }
    }

    /// The variant for a wire code, or a decode error for a code outside
    /// the documented mapping.
    pub open spec fn spec_decode(code: u8) -> Result<InversionSettingInFullColorsNormalMode, CodecError> {
        if code == 0x00 {
            Ok(InversionSettingInFullColorsNormalMode::LineInversion)
        } else if code == 0x01 {
            Ok(InversionSettingInFullColorsNormalMode::FrameInversion)
        } else {
            Err(CodecError::UnrecognizedCode { code })
        }
    }

    /// The wire code of this variant.
    pub fn code(self) -> (r: u8)
        ensures
            r == self.spec_code(),
    {
        match self {
            InversionSettingInFullColorsNormalMode::LineInversion => 0x00,
            InversionSettingInFullColorsNormalMode::FrameInversion => 0x01,
        }
    }

    /// Decode a wire code; a code outside the documented mapping is a
    /// recoverable error, never coerced to a variant.
    pub fn from_code(code: u8) -> (r: Result<InversionSettingInFullColorsNormalMode, CodecError>)
        ensures
            r == Self::spec_decode(code),
    {
        match code {
            0x00 => Ok(InversionSettingInFullColorsNormalMode::LineInversion),
            0x01 => Ok(InversionSettingInFullColorsNormalMode::FrameInversion),
            _ => Err(CodecError::UnrecognizedCode { code }),
        }
    }

    /// Decoding a variant's own code yields that variant back.
    pub proof fn lemma_code_roundtrip(self)
        ensures
            Self::spec_decode(self.spec_code()) == Ok::<InversionSettingInFullColorsNormalMode, CodecError>(self),
    {
    }
}

/// The documented codes of the `InversionSettingInIdleMode` field.
#[derive(Copy, Clone, Debug, PartialEq, Eq, Structural)]
pub enum InversionSettingInIdleMode {
    LineInversion,
    FrameInversion,
}

impl InversionSettingInIdleMode {
    /// The wire code of this variant.
    pub open spec fn spec_code(self) -> u8 {
        match self {
            InversionSettingInIdleMode::LineInversion => 0x00,
            InversionSettingInIdleMode::FrameInversion => 0x01,
        }
    }

    /// The variant for a wire code, or a decode error for a code outside
    /// the documented mapping.
    pub open spec fn spec_decode(code: u8) -> Result<InversionSettingInIdleMode, CodecError> {
        if code == 0x00 {
            Ok(InversionSettingInIdleMode::LineInversion)
        } else if code == 0x01 {
            Ok(InversionSettingInIdleMode::FrameInversion)
        } else {
            Err(CodecError::UnrecognizedCode { code })
        }
    }

    /// The wire code of this variant.
    pub fn code(self) -> (r: u8)
        ensures
            r == self.spec_code(),
    {
        match self {
            InversionSettingInIdleMode::LineInversion => 0x00,
            InversionSettingInIdleMode::FrameInversion => 0x01,
        }
    }

    /// Decode a wire code; a code outside the documented mapping is a
    /// recoverable error, never coerced to a variant.
    pub fn from_code(code: u8) -> (r: Result<InversionSettingInIdleMode, CodecError>)
        ensures
            r == Self::spec_decode(code),
    {
        match code {
            0x00 => Ok(InversionSettingInIdleMode::LineInversion),
            0x01 => Ok(InversionSettingInIdleMode::FrameInversion),
            _ => Err(CodecError::UnrecognizedCode { code }),
        }
    }

    /// Decoding a variant's own code yields that variant back.
    pub proof fn lemma_code_roundtrip(self)
        ensures
            Self::spec_decode(self.spec_code()) == Ok::<InversionSettingInIdleMode, CodecError>(self),
    {
    }
}

/// The documented codes of the `InversionSettingInFullColorsPartialMode` field.
#[derive(Copy, Clone, Debug, PartialEq, Eq, Structural)]
pub enum InversionSettingInFullColorsPartialMode {
    LineInversion,
    FrameInversion,
}

impl InversionSettingInFullColorsPartialMode {
    /// The wire code of this variant.
    pub open spec fn spec_code(self) -> u8 {
        match self {
            InversionSettingInFullColorsPartialMode::LineInversion => 0x00,
            InversionSettingInFullColorsPartialMode::FrameInversion => 0x01,
        }
    }

    /// The variant for a wire code, or a decode error for a code outside
    /// the documented mapping.
    pub open spec fn spec_decode(code: u8) -> Result<InversionSettingInFullColorsPartialMode, CodecError> {
        if code == 0x00 {
            Ok(InversionSettingInFullColorsPartialMode::LineInversion)
        } else if code == 0x01 {
            Ok(InversionSettingInFullColorsPartialMode::FrameInversion)
        } else {
            Err(CodecError::UnrecognizedCode { code })
        }
    }

    /// The wire code of this variant.
    pub fn code(self) -> (r: u8)
        ensures
            r == self.spec_code(),
    {
        match self {
            InversionSettingInFullColorsPartialMode::LineInversion => 0x00,
            InversionSettingInFullColorsPartialMode::FrameInversion => 0x01,
        }
    }

    /// Decode a wire code; a code outside the documented mapping is a
    /// recoverable error, never coerced to a variant.
    pub fn from_code(code: u8) -> (r: Result<InversionSettingInFullColorsPartialMode, CodecError>)
        ensures
            r == Self::spec_decode(code),
    {
        match code {
            0x00 => Ok(InversionSettingInFullColorsPartialMode::LineInversion),
            0x01 => Ok(InversionSettingInFullColorsPartialMode::FrameInversion),
            _ => Err(CodecError::UnrecognizedCode { code }),
        }
    }

    /// Decoding a variant's own code yields that variant back.
    pub proof fn lemma_code_roundtrip(self)
        ensures
            Self::spec_decode(self.spec_code()) == Ok::<InversionSettingInFullColorsPartialMode, CodecError>(self),
    {
    }
}

/// The single-byte parameter block of the `display-inversion-control` command.
#[derive(Copy, Clone, Debug)]
pub struct DisplayInversionControl {
    pub data: [u8; 1],
}

impl DisplayInversionControl {
    /// The chip's post-reset value of this block.
    pub open spec fn spec_default() -> Seq<u8> {
        seq![0x02u8]
    }

    /// Borrow-free read view over a snapshot of the block.
    pub fn read(&self) -> (r: DisplayInversionControlRead)
        ensures
            r.d.data@ == self.data@,
    {
        DisplayInversionControlRead { d: *self }
    }

    /// Apply a builder transformation to this block and return the result.
    pub fn write<F: FnOnce(DisplayInversionControlWrite) -> DisplayInversionControlWrite>(self, f: F) -> (r: Self)
        requires
            call_requires(f, ((DisplayInversionControlWrite { d: self }),)),
        ensures
            call_ensures(f, ((DisplayInversionControlWrite { d: self }),), (DisplayInversionControlWrite { d: r })),
    {
        let w = f(DisplayInversionControlWrite { d: self });
        proof {
            assert((DisplayInversionControlWrite { d: w.d }) == w);
        }
        w.d
    }
}

impl Default for DisplayInversionControl {
    /// The block with the chip's documented post-reset byte pattern.
    fn default() -> (r: Self)
        ensures
            r.data@ == DisplayInversionControl::spec_default(),
    {
        let r = DisplayInversionControl { data: [0x02] };
        proof {
            assert(r.data@ =~= DisplayInversionControl::spec_default());
        }
        r
    }
}

/// Read view of [`DisplayInversionControl`].
#[derive(Copy, Clone)]
pub struct DisplayInversionControlRead {
    pub d: DisplayInversionControl,
}

impl DisplayInversionControlRead {
    /// `inversion_setting_in_full_colors_normal_mode`: 1 bit at offset 2 of byte 0.
    pub fn inversion_setting_in_full_colors_normal_mode(&self) -> (r: Result<InversionSettingInFullColorsNormalMode, CodecError>)
        ensures
            r == InversionSettingInFullColorsNormalMode::spec_decode(field_get(self.d.data@[0], 2, 1)),
    {
        InversionSettingInFullColorsNormalMode::from_code(extract_field(self.d.data[0], 2, 1))
    }

    /// `inversion_setting_in_idle_mode`: 1 bit at offset 1 of byte 0.
    pub fn inversion_setting_in_idle_mode(&self) -> (r: Result<InversionSettingInIdleMode, CodecError>)
        ensures
            r == InversionSettingInIdleMode::spec_decode(field_get(self.d.data@[0], 1, 1)),
    {
        InversionSettingInIdleMode::from_code(extract_field(self.d.data[0], 1, 1))
    }

    /// `inversion_setting_in_full_colors_partial_mode`: 1 bit at offset 0 of byte 0.
    pub fn inversion_setting_in_full_colors_partial_mode(&self) -> (r: Result<InversionSettingInFullColorsPartialMode, CodecError>)
        ensures
            r == InversionSettingInFullColorsPartialMode::spec_decode(field_get(self.d.data@[0], 0, 1)),
    {
        InversionSettingInFullColorsPartialMode::from_code(extract_field(self.d.data[0], 0, 1))
    }
}

/// Write view of [`DisplayInversionControl`].
#[derive(Copy, Clone)]
pub struct DisplayInversionControlWrite {
    pub d: DisplayInversionControl,
}

impl DisplayInversionControlWrite {
    /// `inversion_setting_in_full_colors_normal_mode`: written into 1 bit at offset 2 of byte 0; all other bits are kept.
    pub fn inversion_setting_in_full_colors_normal_mode(self, w: InversionSettingInFullColorsNormalMode) -> (r: Self)
        ensures
            r.d.data@ == self.d.data@.update(
                0,
                field_set(self.d.data@[0], 2, 1, w.spec_code()),
            ),
    {
        let c = w.code();
        let mut d = self.d;
        d.data[0] = insert_field(d.data[0], 2, 1, c);
        DisplayInversionControlWrite { d }
    }

    /// `inversion_setting_in_idle_mode`: written into 1 bit at offset 1 of byte 0; all other bits are kept.
    pub fn inversion_setting_in_idle_mode(self, w: InversionSettingInIdleMode) -> (r: Self)
        ensures
            r.d.data@ == self.d.data@.update(
                0,
                field_set(self.d.data@[0], 1, 1, w.spec_code()),
            ),
    {
        let c = w.code();
        let mut d = self.d;
        d.data[0] = insert_field(d.data[0], 1, 1, c);
        DisplayInversionControlWrite { d }
    }

    /// `inversion_setting_in_full_colors_partial_mode`: written into 1 bit at offset 0 of byte 0; all other bits are kept.
    pub fn inversion_setting_in_full_colors_partial_mode(self, w: InversionSettingInFullColorsPartialMode) -> (r: Self)
        ensures
            r.d.data@ == self.d.data@.update(
                0,
                field_set(self.d.data@[0], 0, 1, w.spec_code()),
            ),
    {
        let c = w.code();
        let mut d = self.d;
        d.data[0] = insert_field(d.data[0], 0, 1, c);
        DisplayInversionControlWrite { d }
    }
}

} // verus!
