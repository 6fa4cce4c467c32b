//! Parameter block of the `backlight-control4` command: the minimum grayscale
//! thresholds of still-picture and moving-image modes.

use vstd::prelude::*;

use crate::bits::extract_field;
use crate::bits::field_get;
use crate::bits::field_set;
use crate::bits::insert_field;
use crate::error::CodecError;

verus! {

/// The documented codes of the `PixelThresholdInMovingImageMode` field.
#[derive(Copy, Clone, Debug, PartialEq, Eq, Structural)]
pub enum PixelThresholdInMovingImageMode {
    N224,
    N220,
    N216,
    N212,
    N208,
    N204,
    N200,
    N196,
    N192,
    N188,
    N184,
    N180,
    N176,
    N172,
    N168,
    N164,
}

impl PixelThresholdInMovingImageMode {
    /// The wire code of this variant.
    pub open spec fn spec_code(self) -> u8 {
        match self {
            PixelThresholdInMovingImageMode::N224 => 0x00,
            PixelThresholdInMovingImageMode::N220 => 0x01,
            PixelThresholdInMovingImageMode::N216 => 0x02,
            PixelThresholdInMovingImageMode::N212 => 0x03,
            PixelThresholdInMovingImageMode::N208 => 0x04,
            PixelThresholdInMovingImageMode::N204 => 0x05,
            PixelThresholdInMovingImageMode::N200 => 0x06,
            PixelThresholdInMovingImageMode::N196 => 0x07,
            PixelThresholdInMovingImageMode::N192 => 0x08,
            PixelThresholdInMovingImageMode::N188 => 0x09,
            PixelThresholdInMovingImageMode::N184 => 0x0A,
            PixelThresholdInMovingImageMode::N180 => 0x0B,
            PixelThresholdInMovingImageMode::N176 => 0x0C,
            PixelThresholdInMovingImageMode::N172 => 0x0D,
            PixelThresholdInMovingImageMode::N168 => 0x0E,
            PixelThresholdInMovingImageMode::N164 => 0x0F,
        }
    }

    /// The variant for a wire code, or a decode error for a code outside
    /// the documented mapping.
    pub open spec fn spec_decode(code: u8) -> Result<PixelThresholdInMovingImageMode, CodecError> {
        if code == 0x00 {
            Ok(PixelThresholdInMovingImageMode::N224)
        } else if code == 0x01 {
            Ok(PixelThresholdInMovingImageMode::N220)
        } else if code == 0x02 {
            Ok(PixelThresholdInMovingImageMode::N216)
        } else if code == 0x03 {
            Ok(PixelThresholdInMovingImageMode::N212)
        } else if code == 0x04 {
            Ok(PixelThresholdInMovingImageMode::N208)
        } else if code == 0x05 {
            Ok(PixelThresholdInMovingImageMode::N204)
        } else if code == 0x06 {
            Ok(PixelThresholdInMovingImageMode::N200)
        } else if code == 0x07 {
            Ok(PixelThresholdInMovingImageMode::N196)
        } else if code == 0x08 {
            Ok(PixelThresholdInMovingImageMode::N192)
        } else if code == 0x09 {
            Ok(PixelThresholdInMovingImageMode::N188)
        } else if code == 0x0A {
            Ok(PixelThresholdInMovingImageMode::N184)
        } else if code == 0x0B {
            Ok(PixelThresholdInMovingImageMode::N180)
        } else if code == 0x0C {
            Ok(PixelThresholdInMovingImageMode::N176)
        } else if code == 0x0D {
            Ok(PixelThresholdInMovingImageMode::N172)
        } else if code == 0x0E {
            Ok(PixelThresholdInMovingImageMode::N168)
        } else if code == 0x0F {
            Ok(PixelThresholdInMovingImageMode::N164)
        } else {
            Err(CodecError::UnrecognizedCode { code })
        }
    }

    /// The wire code of this variant.
    pub fn code(self) -> (r: u8)
        ensures
            r == self.spec_code(),
    {
        match self {
            PixelThresholdInMovingImageMode::N224 => 0x00,
            PixelThresholdInMovingImageMode::N220 => 0x01,
            PixelThresholdInMovingImageMode::N216 => 0x02,
            PixelThresholdInMovingImageMode::N212 => 0x03,
            PixelThresholdInMovingImageMode::N208 => 0x04,
            PixelThresholdInMovingImageMode::N204 => 0x05,
            PixelThresholdInMovingImageMode::N200 => 0x06,
            PixelThresholdInMovingImageMode::N196 => 0x07,
            PixelThresholdInMovingImageMode::N192 => 0x08,
            PixelThresholdInMovingImageMode::N188 => 0x09,
            PixelThresholdInMovingImageMode::N184 => 0x0A,
            PixelThresholdInMovingImageMode::N180 => 0x0B,
            PixelThresholdInMovingImageMode::N176 => 0x0C,
            PixelThresholdInMovingImageMode::N172 => 0x0D,
            PixelThresholdInMovingImageMode::N168 => 0x0E,
            PixelThresholdInMovingImageMode::N164 => 0x0F,
        }
    }

    /// Decode a wire code; a code outside the documented mapping is a
    /// recoverable error, never coerced to a variant.
    pub fn from_code(code: u8) -> (r: Result<PixelThresholdInMovingImageMode, CodecError>)
        ensures
            r == Self::spec_decode(code),
    {
        match code {
            0x00 => Ok(PixelThresholdInMovingImageMode::N224),
            0x01 => Ok(PixelThresholdInMovingImageMode::N220),
            0x02 => Ok(PixelThresholdInMovingImageMode::N216),
            0x03 => Ok(PixelThresholdInMovingImageMode::N212),
            0x04 => Ok(PixelThresholdInMovingImageMode::N208),
            0x05 => Ok(PixelThresholdInMovingImageMode::N204),
            0x06 => Ok(PixelThresholdInMovingImageMode::N200),
            0x07 => Ok(PixelThresholdInMovingImageMode::N196),
            0x08 => Ok(PixelThresholdInMovingImageMode::N192),
            0x09 => Ok(PixelThresholdInMovingImageMode::N188),
            0x0A => Ok(PixelThresholdInMovingImageMode::N184),
            0x0B => Ok(PixelThresholdInMovingImageMode::N180),
            0x0C => Ok(PixelThresholdInMovingImageMode::N176),
            0x0D => Ok(PixelThresholdInMovingImageMode::N172),
            0x0E => Ok(PixelThresholdInMovingImageMode::N168),
            0x0F => Ok(PixelThresholdInMovingImageMode::N164),
            _ => Err(CodecError::UnrecognizedCode { code }),
        }
    }

    /// Decoding a variant's own code yields that variant back.
    pub proof fn lemma_code_roundtrip(self)
        ensures
            Self::spec_decode(self.spec_code()) == Ok::<PixelThresholdInMovingImageMode, CodecError>(self),
    {
    }
}

/// The documented codes of the `PixelThresholdInStillPictureMode` field.
#[derive(Copy, Clone, Debug, PartialEq, Eq, Structural)]
pub enum PixelThresholdInStillPictureMode {
    N224,
    N220,
    N216,
    N212,
    N208,
    N204,
    N200,
    N196,
    N192,
    N188,
    N184,
    N180,
    N176,
    N172,
    N168,
    N164,
}

impl PixelThresholdInStillPictureMode {
    /// The wire code of this variant.
    pub open spec fn spec_code(self) -> u8 {
        match self {
            PixelThresholdInStillPictureMode::N224 => 0x00,
            PixelThresholdInStillPictureMode::N220 => 0x01,
            PixelThresholdInStillPictureMode::N216 => 0x02,
            PixelThresholdInStillPictureMode::N212 => 0x03,
            PixelThresholdInStillPictureMode::N208 => 0x04,
            PixelThresholdInStillPictureMode::N204 => 0x05,
            PixelThresholdInStillPictureMode::N200 => 0x06,
            PixelThresholdInStillPictureMode::N196 => 0x07,
            PixelThresholdInStillPictureMode::N192 => 0x08,
            PixelThresholdInStillPictureMode::N188 => 0x09,
            PixelThresholdInStillPictureMode::N184 => 0x0A,
            PixelThresholdInStillPictureMode::N180 => 0x0B,
            PixelThresholdInStillPictureMode::N176 => 0x0C,
            PixelThresholdInStillPictureMode::N172 => 0x0D,
            PixelThresholdInStillPictureMode::N168 => 0x0E,
            PixelThresholdInStillPictureMode::N164 => 0x0F,
        }
    }

    /// The variant for a wire code, or a decode error for a code outside
    /// the documented mapping.
    pub open spec fn spec_decode(code: u8) -> Result<PixelThresholdInStillPictureMode, CodecError> {
        if code == 0x00 {
            Ok(PixelThresholdInStillPictureMode::N224)
        } else if code == 0x01 {
            Ok(PixelThresholdInStillPictureMode::N220)
        } else if code == 0x02 {
            Ok(PixelThresholdInStillPictureMode::N216)
        } else if code == 0x03 {
            Ok(PixelThresholdInStillPictureMode::N212)
        } else if code == 0x04 {
            Ok(PixelThresholdInStillPictureMode::N208)
        } else if code == 0x05 {
            Ok(PixelThresholdInStillPictureMode::N204)
        } else if code == 0x06 {
            Ok(PixelThresholdInStillPictureMode::N200)
        } else if code == 0x07 {
            Ok(PixelThresholdInStillPictureMode::N196)
        } else if code == 0x08 {
            Ok(PixelThresholdInStillPictureMode::N192)
        } else if code == 0x09 {
            Ok(PixelThresholdInStillPictureMode::N188)
        } else if code == 0x0A {
            Ok(PixelThresholdInStillPictureMode::N184)
        } else if code == 0x0B {
            Ok(PixelThresholdInStillPictureMode::N180)
        } else if code == 0x0C {
            Ok(PixelThresholdInStillPictureMode::N176)
        } else if code == 0x0D {
            Ok(PixelThresholdInStillPictureMode::N172)
        } else if code == 0x0E {
            Ok(PixelThresholdInStillPictureMode::N168)
        } else if code == 0x0F {
            Ok(PixelThresholdInStillPictureMode::N164)
        } else {
            Err(CodecError::UnrecognizedCode { code })
        }
    }

    /// The wire code of this variant.
    pub fn code(self) -> (r: u8)
        ensures
            r == self.spec_code(),
    {
        match self {
            PixelThresholdInStillPictureMode::N224 => 0x00,
            PixelThresholdInStillPictureMode::N220 => 0x01,
            PixelThresholdInStillPictureMode::N216 => 0x02,
            PixelThresholdInStillPictureMode::N212 => 0x03,
            PixelThresholdInStillPictureMode::N208 => 0x04,
            PixelThresholdInStillPictureMode::N204 => 0x05,
            PixelThresholdInStillPictureMode::N200 => 0x06,
            PixelThresholdInStillPictureMode::N196 => 0x07,
            PixelThresholdInStillPictureMode::N192 => 0x08,
            PixelThresholdInStillPictureMode::N188 => 0x09,
            PixelThresholdInStillPictureMode::N184 => 0x0A,
            PixelThresholdInStillPictureMode::N180 => 0x0B,
            PixelThresholdInStillPictureMode::N176 => 0x0C,
            PixelThresholdInStillPictureMode::N172 => 0x0D,
            PixelThresholdInStillPictureMode::N168 => 0x0E,
            PixelThresholdInStillPictureMode::N164 => 0x0F,
        }
    }

    /// Decode a wire code; a code outside the documented mapping is a
    /// recoverable error, never coerced to a variant.
    pub fn from_code(code: u8) -> (r: Result<PixelThresholdInStillPictureMode, CodecError>)
        ensures
            r == Self::spec_decode(code),
    {
        match code {
            0x00 => Ok(PixelThresholdInStillPictureMode::N224),
            0x01 => Ok(PixelThresholdInStillPictureMode::N220),
            0x02 => Ok(PixelThresholdInStillPictureMode::N216),
            0x03 => Ok(PixelThresholdInStillPictureMode::N212),
            0x04 => Ok(PixelThresholdInStillPictureMode::N208),
            0x05 => Ok(PixelThresholdInStillPictureMode::N204),
            0x06 => Ok(PixelThresholdInStillPictureMode::N200),
            0x07 => Ok(PixelThresholdInStillPictureMode::N196),
            0x08 => Ok(PixelThresholdInStillPictureMode::N192),
            0x09 => Ok(PixelThresholdInStillPictureMode::N188),
            0x0A => Ok(PixelThresholdInStillPictureMode::N184),
            0x0B => Ok(PixelThresholdInStillPictureMode::N180),
            0x0C => Ok(PixelThresholdInStillPictureMode::N176),
            0x0D => Ok(PixelThresholdInStillPictureMode::N172),
            0x0E => Ok(PixelThresholdInStillPictureMode::N168),
            0x0F => Ok(PixelThresholdInStillPictureMode::N164),
            _ => Err(CodecError::UnrecognizedCode { code }),
        }
    }

    /// Decoding a variant's own code yields that variant back.
    pub proof fn lemma_code_roundtrip(self)
        ensures
            Self::spec_decode(self.spec_code()) == Ok::<PixelThresholdInStillPictureMode, CodecError>(self),
    {
    }
}

/// The single-byte parameter block of the `backlight-control4` command.
#[derive(Copy, Clone, Debug)]
pub struct BacklightControl4 {
    pub data: [u8; 1],
}

impl BacklightControl4 {
    /// The chip's post-reset value of this block.
    pub open spec fn spec_default() -> Seq<u8> {
        seq![0x65u8]
    }

    /// Borrow-free read view over a snapshot of the block.
    pub fn read(&self) -> (r: BacklightControl4Read)
        ensures
            r.d.data@ == self.data@,
    {
        BacklightControl4Read { d: *self }
    }

    /// Apply a builder transformation to this block and return the result.
    pub fn write<F: FnOnce(BacklightControl4Write) -> BacklightControl4Write>(self, f: F) -> (r: Self)
        requires
            call_requires(f, ((BacklightControl4Write { d: self }),)),
        ensures
            call_ensures(f, ((BacklightControl4Write { d: self }),), (BacklightControl4Write { d: r })),
    {
        let w = f(BacklightControl4Write { d: self });
        proof {
            assert((BacklightControl4Write { d: w.d }) == w);
        }
        w.d
    }
}

impl Default for BacklightControl4 {
    /// The block with the chip's documented post-reset byte pattern.
    fn default() -> (r: Self)
        ensures
            r.data@ == BacklightControl4::spec_default(),
    {
        let r = BacklightControl4 { data: [0x65] };
        proof {
            assert(r.data@ =~= BacklightControl4::spec_default());
        }
        r
    }
}

/// Read view of [`BacklightControl4`].
#[derive(Copy, Clone)]
pub struct BacklightControl4Read {
    pub d: BacklightControl4,
}

impl BacklightControl4Read {
    /// `pixel_threshold_in_moving_image_mode`: 4 bits at offset 4 of byte 0.
    pub fn pixel_threshold_in_moving_image_mode(&self) -> (r: Result<PixelThresholdInMovingImageMode, CodecError>)
        ensures
            r == PixelThresholdInMovingImageMode::spec_decode(field_get(self.d.data@[0], 4, 4)),
    {
        PixelThresholdInMovingImageMode::from_code(extract_field(self.d.data[0], 4, 4))
    }

    /// `pixel_threshold_in_still_picture_mode`: 4 bits at offset 0 of byte 0.
    pub fn pixel_threshold_in_still_picture_mode(&self) -> (r: Result<PixelThresholdInStillPictureMode, CodecError>)
        ensures
            r == PixelThresholdInStillPictureMode::spec_decode(field_get(self.d.data@[0], 0, 4)),
    {
        PixelThresholdInStillPictureMode::from_code(extract_field(self.d.data[0], 0, 4))
    }
}

/// Write view of [`BacklightControl4`].
#[derive(Copy, Clone)]
pub struct BacklightControl4Write {
    pub d: BacklightControl4,
}

impl BacklightControl4Write {
    /// `pixel_threshold_in_moving_image_mode`: written into 4 bits at offset 4 of byte 0; all other bits are kept.
    pub fn pixel_threshold_in_moving_image_mode(self, w: PixelThresholdInMovingImageMode) -> (r: Self)
        ensures
            r.d.data@ == self.d.data@.update(
                0,
                field_set(self.d.data@[0], 4, 4, w.spec_code()),
            ),
    {
        let c = w.code();
        let mut d = self.d;
        d.data[0] = insert_field(d.data[0], 4, 4, c);
        BacklightControl4Write { d }
    }

    /// `pixel_threshold_in_still_picture_mode`: written into 4 bits at offset 0 of byte 0; all other bits are kept.
    pub fn pixel_threshold_in_still_picture_mode(self, w: PixelThresholdInStillPictureMode) -> (r: Self)
        ensures
            r.d.data@ == self.d.data@.update(
                0,
                field_set(self.d.data@[0], 0, 4, w.spec_code()),
            ),
    {
        let c = w.code();
        let mut d = self.d;
        d.data[0] = insert_field(d.data[0], 0, 4, c);
        BacklightControl4Write { d }
    }
}

} // verus!
