//! Parameter block of the `backlight-control2` command: the grayscale histogram
//! thresholds of still-picture and moving-image modes.

use vstd::prelude::*;

use crate::bits::extract_field;
use crate::bits::field_get;
use crate::bits::field_set;
use crate::bits::insert_field;
use crate::error::CodecError;

verus! {

/// The documented codes of the `HistogramThresholdInMovingImageMode` field.
#[derive(Copy, Clone, Debug, PartialEq, Eq, Structural)]
pub enum HistogramThresholdInMovingImageMode {
    N99,
    N98,
    N96,
    N94,
    N92,
    N90,
    N88,
    N86,
    N84,
    N82,
    N80,
    N78,
    N76,
    N74,
    N72,
    N70,
}

impl HistogramThresholdInMovingImageMode {
    /// The wire code of this variant.
    pub open spec fn spec_code(self) -> u8 {
        match self {
            HistogramThresholdInMovingImageMode::N99 => 0x00,
            HistogramThresholdInMovingImageMode::N98 => 0x01,
            HistogramThresholdInMovingImageMode::N96 => 0x02,
            HistogramThresholdInMovingImageMode::N94 => 0x03,
            HistogramThresholdInMovingImageMode::N92 => 0x04,
            HistogramThresholdInMovingImageMode::N90 => 0x05,
            HistogramThresholdInMovingImageMode::N88 => 0x06,
            HistogramThresholdInMovingImageMode::N86 => 0x07,
            HistogramThresholdInMovingImageMode::N84 => 0x08,
            HistogramThresholdInMovingImageMode::N82 => 0x09,
            HistogramThresholdInMovingImageMode::N80 => 0x0A,
            HistogramThresholdInMovingImageMode::N78 => 0x0B,
            HistogramThresholdInMovingImageMode::N76 => 0x0C,
            HistogramThresholdInMovingImageMode::N74 => 0x0D,
            HistogramThresholdInMovingImageMode::N72 => 0x0E,
            HistogramThresholdInMovingImageMode::N70 => 0x0F,
        }
    }

    /// The variant for a wire code, or a decode error for a code outside
    /// the documented mapping.
    pub open spec fn spec_decode(code: u8) -> Result<HistogramThresholdInMovingImageMode, CodecError> {
        if code == 0x00 {
            Ok(HistogramThresholdInMovingImageMode::N99)
        } else if code == 0x01 {
            Ok(HistogramThresholdInMovingImageMode::N98)
        } else if code == 0x02 {
            Ok(HistogramThresholdInMovingImageMode::N96)
        } else if code == 0x03 {
            Ok(HistogramThresholdInMovingImageMode::N94)
        } else if code == 0x04 {
            Ok(HistogramThresholdInMovingImageMode::N92)
        } else if code == 0x05 {
            Ok(HistogramThresholdInMovingImageMode::N90)
        } else if code == 0x06 {
            Ok(HistogramThresholdInMovingImageMode::N88)
        } else if code == 0x07 {
            Ok(HistogramThresholdInMovingImageMode::N86)
        } else if code == 0x08 {
            Ok(HistogramThresholdInMovingImageMode::N84)
        } else if code == 0x09 {
            Ok(HistogramThresholdInMovingImageMode::N82)
        } else if code == 0x0A {
            Ok(HistogramThresholdInMovingImageMode::N80)
        } else if code == 0x0B {
            Ok(HistogramThresholdInMovingImageMode::N78)
        } else if code == 0x0C {
            Ok(HistogramThresholdInMovingImageMode::N76)
        } else if code == 0x0D {
            Ok(HistogramThresholdInMovingImageMode::N74)
        } else if code == 0x0E {
            Ok(HistogramThresholdInMovingImageMode::N72)
        } else if code == 0x0F {
            Ok(HistogramThresholdInMovingImageMode::N70)
        } else {
            Err(CodecError::UnrecognizedCode { code })
        }
    }

    /// The wire code of this variant.
    pub fn code(self) -> (r: u8)
        ensures
            r == self.spec_code(),
    {
        match self {
            HistogramThresholdInMovingImageMode::N99 => 0x00,
            HistogramThresholdInMovingImageMode::N98 => 0x01,
            HistogramThresholdInMovingImageMode::N96 => 0x02,
            HistogramThresholdInMovingImageMode::N94 => 0x03,
            HistogramThresholdInMovingImageMode::N92 => 0x04,
            HistogramThresholdInMovingImageMode::N90 => 0x05,
            HistogramThresholdInMovingImageMode::N88 => 0x06,
            HistogramThresholdInMovingImageMode::N86 => 0x07,
            HistogramThresholdInMovingImageMode::N84 => 0x08,
            HistogramThresholdInMovingImageMode::N82 => 0x09,
            HistogramThresholdInMovingImageMode::N80 => 0x0A,
            HistogramThresholdInMovingImageMode::N78 => 0x0B,
            HistogramThresholdInMovingImageMode::N76 => 0x0C,
            HistogramThresholdInMovingImageMode::N74 => 0x0D,
            HistogramThresholdInMovingImageMode::N72 => 0x0E,
            HistogramThresholdInMovingImageMode::N70 => 0x0F,
        }
    }

    /// Decode a wire code; a code outside the documented mapping is a
    /// recoverable error, never coerced to a variant.
    pub fn from_code(code: u8) -> (r: Result<HistogramThresholdInMovingImageMode, CodecError>)
        ensures
            r == Self::spec_decode(code),
    {
        match code {
            0x00 => Ok(HistogramThresholdInMovingImageMode::N99),
            0x01 => Ok(HistogramThresholdInMovingImageMode::N98),
            0x02 => Ok(HistogramThresholdInMovingImageMode::N96),
            0x03 => Ok(HistogramThresholdInMovingImageMode::N94),
            0x04 => Ok(HistogramThresholdInMovingImageMode::N92),
            0x05 => Ok(HistogramThresholdInMovingImageMode::N90),
            0x06 => Ok(HistogramThresholdInMovingImageMode::N88),
            0x07 => Ok(HistogramThresholdInMovingImageMode::N86),
            0x08 => Ok(HistogramThresholdInMovingImageMode::N84),
            0x09 => Ok(HistogramThresholdInMovingImageMode::N82),
            0x0A => Ok(HistogramThresholdInMovingImageMode::N80),
            0x0B => Ok(HistogramThresholdInMovingImageMode::N78),
            0x0C => Ok(HistogramThresholdInMovingImageMode::N76),
            0x0D => Ok(HistogramThresholdInMovingImageMode::N74),
            0x0E => Ok(HistogramThresholdInMovingImageMode::N72),
            0x0F => Ok(HistogramThresholdInMovingImageMode::N70),
            _ => Err(CodecError::UnrecognizedCode { code }),
        }
    }

    /// Decoding a variant's own code yields that variant back.
    pub proof fn lemma_code_roundtrip(self)
        ensures
            Self::spec_decode(self.spec_code()) == Ok::<HistogramThresholdInMovingImageMode, CodecError>(self),
    {
    }
}

/// The documented codes of the `HistogramThresholdInStillPictureMode` field.
#[derive(Copy, Clone, Debug, PartialEq, Eq, Structural)]
pub enum HistogramThresholdInStillPictureMode {
    N99,
    N98,
    N96,
    N94,
    N92,
    N90,
    N88,
    N86,
    N84,
    N82,
    N80,
    N78,
    N76,
    N74,
    N72,
    N70,
}

impl HistogramThresholdInStillPictureMode {
    /// The wire code of this variant.
    pub open spec fn spec_code(self) -> u8 {
        match self {
            HistogramThresholdInStillPictureMode::N99 => 0x00,
            HistogramThresholdInStillPictureMode::N98 => 0x01,
            HistogramThresholdInStillPictureMode::N96 => 0x02,
            HistogramThresholdInStillPictureMode::N94 => 0x03,
            HistogramThresholdInStillPictureMode::N92 => 0x04,
            HistogramThresholdInStillPictureMode::N90 => 0x05,
            HistogramThresholdInStillPictureMode::N88 => 0x06,
            HistogramThresholdInStillPictureMode::N86 => 0x07,
            HistogramThresholdInStillPictureMode::N84 => 0x08,
            HistogramThresholdInStillPictureMode::N82 => 0x09,
            HistogramThresholdInStillPictureMode::N80 => 0x0A,
            HistogramThresholdInStillPictureMode::N78 => 0x0B,
            HistogramThresholdInStillPictureMode::N76 => 0x0C,
            HistogramThresholdInStillPictureMode::N74 => 0x0D,
            HistogramThresholdInStillPictureMode::N72 => 0x0E,
            HistogramThresholdInStillPictureMode::N70 => 0x0F,
        }
    }

    /// The variant for a wire code, or a decode error for a code outside
    /// the documented mapping.
    pub open spec fn spec_decode(code: u8) -> Result<HistogramThresholdInStillPictureMode, CodecError> {
        if code == 0x00 {
            Ok(HistogramThresholdInStillPictureMode::N99)
        } else if code == 0x01 {
            Ok(HistogramThresholdInStillPictureMode::N98)
        } else if code == 0x02 {
            Ok(HistogramThresholdInStillPictureMode::N96)
        } else if code == 0x03 {
            Ok(HistogramThresholdInStillPictureMode::N94)
        } else if code == 0x04 {
            Ok(HistogramThresholdInStillPictureMode::N92)
        } else if code == 0x05 {
            Ok(HistogramThresholdInStillPictureMode::N90)
        } else if code == 0x06 {
            Ok(HistogramThresholdInStillPictureMode::N88)
        } else if code == 0x07 {
            Ok(HistogramThresholdInStillPictureMode::N86)
        } else if code == 0x08 {
            Ok(HistogramThresholdInStillPictureMode::N84)
        } else if code == 0x09 {
            Ok(HistogramThresholdInStillPictureMode::N82)
        } else if code == 0x0A {
            Ok(HistogramThresholdInStillPictureMode::N80)
        } else if code == 0x0B {
            Ok(HistogramThresholdInStillPictureMode::N78)
        } else if code == 0x0C {
            Ok(HistogramThresholdInStillPictureMode::N76)
        } else if code == 0x0D {
            Ok(HistogramThresholdInStillPictureMode::N74)
        } else if code == 0x0E {
            Ok(HistogramThresholdInStillPictureMode::N72)
        } else if code == 0x0F {
            Ok(HistogramThresholdInStillPictureMode::N70)
        } else {
            Err(CodecError::UnrecognizedCode { code })
        }
    }

    /// The wire code of this variant.
    pub fn code(self) -> (r: u8)
        ensures
            r == self.spec_code(),
    {
        match self {
            HistogramThresholdInStillPictureMode::N99 => 0x00,
            HistogramThresholdInStillPictureMode::N98 => 0x01,
            HistogramThresholdInStillPictureMode::N96 => 0x02,
            HistogramThresholdInStillPictureMode::N94 => 0x03,
            HistogramThresholdInStillPictureMode::N92 => 0x04,
            HistogramThresholdInStillPictureMode::N90 => 0x05,
            HistogramThresholdInStillPictureMode::N88 => 0x06,
            HistogramThresholdInStillPictureMode::N86 => 0x07,
            HistogramThresholdInStillPictureMode::N84 => 0x08,
            HistogramThresholdInStillPictureMode::N82 => 0x09,
            HistogramThresholdInStillPictureMode::N80 => 0x0A,
            HistogramThresholdInStillPictureMode::N78 => 0x0B,
            HistogramThresholdInStillPictureMode::N76 => 0x0C,
            HistogramThresholdInStillPictureMode::N74 => 0x0D,
            HistogramThresholdInStillPictureMode::N72 => 0x0E,
            HistogramThresholdInStillPictureMode::N70 => 0x0F,
        }
    }

    /// Decode a wire code; a code outside the documented mapping is a
    /// recoverable error, never coerced to a variant.
    pub fn from_code(code: u8) -> (r: Result<HistogramThresholdInStillPictureMode, CodecError>)
        ensures
            r == Self::spec_decode(code),
    {
        match code {
            0x00 => Ok(HistogramThresholdInStillPictureMode::N99),
            0x01 => Ok(HistogramThresholdInStillPictureMode::N98),
            0x02 => Ok(HistogramThresholdInStillPictureMode::N96),
            0x03 => Ok(HistogramThresholdInStillPictureMode::N94),
            0x04 => Ok(HistogramThresholdInStillPictureMode::N92),
            0x05 => Ok(HistogramThresholdInStillPictureMode::N90),
            0x06 => Ok(HistogramThresholdInStillPictureMode::N88),
            0x07 => Ok(HistogramThresholdInStillPictureMode::N86),
            0x08 => Ok(HistogramThresholdInStillPictureMode::N84),
            0x09 => Ok(HistogramThresholdInStillPictureMode::N82),
            0x0A => Ok(HistogramThresholdInStillPictureMode::N80),
            0x0B => Ok(HistogramThresholdInStillPictureMode::N78),
            0x0C => Ok(HistogramThresholdInStillPictureMode::N76),
            0x0D => Ok(HistogramThresholdInStillPictureMode::N74),
            0x0E => Ok(HistogramThresholdInStillPictureMode::N72),
            0x0F => Ok(HistogramThresholdInStillPictureMode::N70),
            _ => Err(CodecError::UnrecognizedCode { code }),
        }
    }

    /// Decoding a variant's own code yields that variant back.
    pub proof fn lemma_code_roundtrip(self)
        ensures
            Self::spec_decode(self.spec_code()) == Ok::<HistogramThresholdInStillPictureMode, CodecError>(self),
    {
    }
}

/// The single-byte parameter block of the `backlight-control2` command.
#[derive(Copy, Clone, Debug)]
pub struct BacklightControl2 {
    pub data: [u8; 1],
}

impl BacklightControl2 {
    /// The chip's post-reset value of this block.
    pub open spec fn spec_default() -> Seq<u8> {
        seq![0xCCu8]
    }

    /// Borrow-free read view over a snapshot of the block.
    pub fn read(&self) -> (r: BacklightControl2Read)
        ensures
            r.d.data@ == self.data@,
    {
        BacklightControl2Read { d: *self }
    }

    /// Apply a builder transformation to this block and return the result.
    pub fn write<F: FnOnce(BacklightControl2Write) -> BacklightControl2Write>(self, f: F) -> (r: Self)
        requires
            call_requires(f, ((BacklightControl2Write { d: self }),)),
        ensures
            call_ensures(f, ((BacklightControl2Write { d: self }),), (BacklightControl2Write { d: r })),
    {
        let w = f(BacklightControl2Write { d: self });
        proof {
            assert((BacklightControl2Write { d: w.d }) == w);
        }
        w.d
    }
}

impl Default for BacklightControl2 {
    /// The block with the chip's documented post-reset byte pattern.
    fn default() -> (r: Self)
        ensures
            r.data@ == BacklightControl2::spec_default(),
    {
        let r = BacklightControl2 { data: [0xCC] };
        proof {
            assert(r.data@ =~= BacklightControl2::spec_default());
        }
        r
    }
}

/// Read view of [`BacklightControl2`].
#[derive(Copy, Clone)]
pub struct BacklightControl2Read {
    pub d: BacklightControl2,
}

impl BacklightControl2Read {
    /// `histogram_threshold_in_moving_image_mode`: 4 bits at offset 4 of byte 0.
    pub fn histogram_threshold_in_moving_image_mode(&self) -> (r: Result<HistogramThresholdInMovingImageMode, CodecError>)
        ensures
            r == HistogramThresholdInMovingImageMode::spec_decode(field_get(self.d.data@[0], 4, 4)),
    {
        HistogramThresholdInMovingImageMode::from_code(extract_field(self.d.data[0], 4, 4))
    }

    /// `histogram_threshold_in_still_picture_mode`: 4 bits at offset 0 of byte 0.
    pub fn histogram_threshold_in_still_picture_mode(&self) -> (r: Result<HistogramThresholdInStillPictureMode, CodecError>)
        ensures
            r == HistogramThresholdInStillPictureMode::spec_decode(field_get(self.d.data@[0], 0, 4)),
    {
        HistogramThresholdInStillPictureMode::from_code(extract_field(self.d.data[0], 0, 4))
    }
}

/// Write view of [`BacklightControl2`].
#[derive(Copy, Clone)]
pub struct BacklightControl2Write {
    pub d: BacklightControl2,
}

impl BacklightControl2Write {
    /// `histogram_threshold_in_moving_image_mode`: written into 4 bits at offset 4 of byte 0; all other bits are kept.
    pub fn histogram_threshold_in_moving_image_mode(self, w: HistogramThresholdInMovingImageMode) -> (r: Self)
        ensures
            r.d.data@ == self.d.data@.update(
                0,
                field_set(self.d.data@[0], 4, 4, w.spec_code()),
            ),
    {
        let c = w.code();
        let mut d = self.d;
        d.data[0] = insert_field(d.data[0], 4, 4, c);
        BacklightControl2Write { d }
    }

    /// `histogram_threshold_in_still_picture_mode`: written into 4 bits at offset 0 of byte 0; all other bits are kept.
    pub fn histogram_threshold_in_still_picture_mode(self, w: HistogramThresholdInStillPictureMode) -> (r: Self)
        ensures
            r.d.data@ == self.d.data@.update(
                0,
                field_set(self.d.data@[0], 0, 4, w.spec_code()),
            ),
    {
        let c = w.code();
        let mut d = self.d;
        d.data[0] = insert_field(d.data[0], 0, 4, c);
        BacklightControl2Write { d }
    }
}

} // verus!
