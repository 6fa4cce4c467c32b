//! Parameter block of the `backlight-control3` command: the minimum grayscale
//! threshold of user-interface mode.

use vstd::prelude::*;

use crate::bits::extract_field;
use crate::bits::field_get;
use crate::bits::field_set;
use crate::bits::insert_field;
use crate::error::CodecError;

verus! {

/// The documented codes of the `PixelThresholdInUserInterfaceMode` field.
#[derive(Copy, Clone, Debug, PartialEq, Eq, Structural)]
pub enum PixelThresholdInUserInterfaceMode {
    N252,
    N248,
    N244,
    N240,
    N236,
    N232,
    N228,
    N224,
    N220,
    N216,
    N212,
    N208,
    N204,
    N200,
    N196,
    N192,
}

impl PixelThresholdInUserInterfaceMode {
    /// The wire code of this variant.
    pub open spec fn spec_code(self) -> u8 {
        match self {
            PixelThresholdInUserInterfaceMode::N252 => 0x00,
            PixelThresholdInUserInterfaceMode::N248 => 0x01,
            PixelThresholdInUserInterfaceMode::N244 => 0x02,
            PixelThresholdInUserInterfaceMode::N240 => 0x03,
            PixelThresholdInUserInterfaceMode::N236 => 0x04,
            PixelThresholdInUserInterfaceMode::N232 => 0x05,
            PixelThresholdInUserInterfaceMode::N228 => 0x06,
            PixelThresholdInUserInterfaceMode::N224 => 0x07,
            PixelThresholdInUserInterfaceMode::N220 => 0x08,
            PixelThresholdInUserInterfaceMode::N216 => 0x09,
            PixelThresholdInUserInterfaceMode::N212 => 0x0A,
            PixelThresholdInUserInterfaceMode::N208 => 0x0B,
            PixelThresholdInUserInterfaceMode::N204 => 0x0C,
            PixelThresholdInUserInterfaceMode::N200 => 0x0D,
            PixelThresholdInUserInterfaceMode::N196 => 0x0E,
            PixelThresholdInUserInterfaceMode::N192 => 0x0F,
        }
    }

    /// The variant for a wire code, or a decode error for a code outside
    /// the documented mapping.
    pub open spec fn spec_decode(code: u8) -> Result<PixelThresholdInUserInterfaceMode, CodecError> {
        if code == 0x00 {
            Ok(PixelThresholdInUserInterfaceMode::N252)
        } else if code == 0x01 {
            Ok(PixelThresholdInUserInterfaceMode::N248)
        } else if code == 0x02 {
            Ok(PixelThresholdInUserInterfaceMode::N244)
        } else if code == 0x03 {
            Ok(PixelThresholdInUserInterfaceMode::N240)
        } else if code == 0x04 {
            Ok(PixelThresholdInUserInterfaceMode::N236)
        } else if code == 0x05 {
            Ok(PixelThresholdInUserInterfaceMode::N232)
        } else if code == 0x06 {
            Ok(PixelThresholdInUserInterfaceMode::N228)
        } else if code == 0x07 {
            Ok(PixelThresholdInUserInterfaceMode::N224)
        } else if code == 0x08 {
            Ok(PixelThresholdInUserInterfaceMode::N220)
        } else if code == 0x09 {
            Ok(PixelThresholdInUserInterfaceMode::N216)
        } else if code == 0x0A {
            Ok(PixelThresholdInUserInterfaceMode::N212)
        } else if code == 0x0B {
            Ok(PixelThresholdInUserInterfaceMode::N208)
        } else if code == 0x0C {
            Ok(PixelThresholdInUserInterfaceMode::N204)
        } else if code == 0x0D {
            Ok(PixelThresholdInUserInterfaceMode::N200)
        } else if code == 0x0E {
            Ok(PixelThresholdInUserInterfaceMode::N196)
        } else if code == 0x0F {
            Ok(PixelThresholdInUserInterfaceMode::N192)
        } else {
            Err(CodecError::UnrecognizedCode { code })
        }
    }

    /// The wire code of this variant.
    pub fn code(self) -> (r: u8)
        ensures
            r == self.spec_code(),
    {
        match self {
            PixelThresholdInUserInterfaceMode::N252 => 0x00,
            PixelThresholdInUserInterfaceMode::N248 => 0x01,
            PixelThresholdInUserInterfaceMode::N244 => 0x02,
            PixelThresholdInUserInterfaceMode::N240 => 0x03,
            PixelThresholdInUserInterfaceMode::N236 => 0x04,
            PixelThresholdInUserInterfaceMode::N232 => 0x05,
            PixelThresholdInUserInterfaceMode::N228 => 0x06,
            PixelThresholdInUserInterfaceMode::N224 => 0x07,
            PixelThresholdInUserInterfaceMode::N220 => 0x08,
            PixelThresholdInUserInterfaceMode::N216 => 0x09,
            PixelThresholdInUserInterfaceMode::N212 => 0x0A,
            PixelThresholdInUserInterfaceMode::N208 => 0x0B,
            PixelThresholdInUserInterfaceMode::N204 => 0x0C,
            PixelThresholdInUserInterfaceMode::N200 => 0x0D,
            PixelThresholdInUserInterfaceMode::N196 => 0x0E,
            PixelThresholdInUserInterfaceMode::N192 => 0x0F,
        }
    }

    /// Decode a wire code; a code outside the documented mapping is a
    /// recoverable error, never coerced to a variant.
    pub fn from_code(code: u8) -> (r: Result<PixelThresholdInUserInterfaceMode, CodecError>)
        ensures
            r == Self::spec_decode(code),
    {
        match code {
            0x00 => Ok(PixelThresholdInUserInterfaceMode::N252),
            0x01 => Ok(PixelThresholdInUserInterfaceMode::N248),
            0x02 => Ok(PixelThresholdInUserInterfaceMode::N244),
            0x03 => Ok(PixelThresholdInUserInterfaceMode::N240),
            0x04 => Ok(PixelThresholdInUserInterfaceMode::N236),
            0x05 => Ok(PixelThresholdInUserInterfaceMode::N232),
            0x06 => Ok(PixelThresholdInUserInterfaceMode::N228),
            0x07 => Ok(PixelThresholdInUserInterfaceMode::N224),
            0x08 => Ok(PixelThresholdInUserInterfaceMode::N220),
            0x09 => Ok(PixelThresholdInUserInterfaceMode::N216),
            0x0A => Ok(PixelThresholdInUserInterfaceMode::N212),
            0x0B => Ok(PixelThresholdInUserInterfaceMode::N208),
            0x0C => Ok(PixelThresholdInUserInterfaceMode::N204),
            0x0D => Ok(PixelThresholdInUserInterfaceMode::N200),
            0x0E => Ok(PixelThresholdInUserInterfaceMode::N196),
            0x0F => Ok(PixelThresholdInUserInterfaceMode::N192),
            _ => Err(CodecError::UnrecognizedCode { code }),
        }
    }

    /// Decoding a variant's own code yields that variant back.
    pub proof fn lemma_code_roundtrip(self)
        ensures
            Self::spec_decode(self.spec_code()) == Ok::<PixelThresholdInUserInterfaceMode, CodecError>(self),
    {
    }
}

/// The single-byte parameter block of the `backlight-control3` command.
#[derive(Copy, Clone, Debug)]
pub struct BacklightControl3 {
    pub data: [u8; 1],
}

impl BacklightControl3 {
    /// The chip's post-reset value of this block.
    pub open spec fn spec_default() -> Seq<u8> {
        seq![0x04u8]
    }

    /// Borrow-free read view over a snapshot of the block.
    pub fn read(&self) -> (r: BacklightControl3Read)
        ensures
            r.d.data@ == self.data@,
    {
        BacklightControl3Read { d: *self }
    }

    /// Apply a builder transformation to this block and return the result.
    pub fn write<F: FnOnce(BacklightControl3Write) -> BacklightControl3Write>(self, f: F) -> (r: Self)
        requires
            call_requires(f, ((BacklightControl3Write { d: self }),)),
        ensures
            call_ensures(f, ((BacklightControl3Write { d: self }),), (BacklightControl3Write { d: r })),
    {
        let w = f(BacklightControl3Write { d: self });
        proof {
            assert((BacklightControl3Write { d: w.d }) == w);
        }
        w.d
    }
}

impl Default for BacklightControl3 {
    /// The block with the chip's documented post-reset byte pattern.
    fn default() -> (r: Self)
        ensures
            r.data@ == BacklightControl3::spec_default(),
    {
        let r = BacklightControl3 { data: [0x04] };
        proof {
            assert(r.data@ =~= BacklightControl3::spec_default());
        }
        r
    }
}

/// Read view of [`BacklightControl3`].
#[derive(Copy, Clone)]
pub struct BacklightControl3Read {
    pub d: BacklightControl3,
}

impl BacklightControl3Read {
    /// `pixel_threshold_in_user_interface_mode`: 4 bits at offset 0 of byte 0.
    pub fn pixel_threshold_in_user_interface_mode(&self) -> (r: Result<PixelThresholdInUserInterfaceMode, CodecError>)
        ensures
            r == PixelThresholdInUserInterfaceMode::spec_decode(field_get(self.d.data@[0], 0, 4)),
    {
        PixelThresholdInUserInterfaceMode::from_code(extract_field(self.d.data[0], 0, 4))
    }
}

/// Write view of [`BacklightControl3`].
#[derive(Copy, Clone)]
pub struct BacklightControl3Write {
    pub d: BacklightControl3,
}

impl BacklightControl3Write {
    /// `pixel_threshold_in_user_interface_mode`: written into 4 bits at offset 0 of byte 0; all other bits are kept.
    pub fn pixel_threshold_in_user_interface_mode(self, w: PixelThresholdInUserInterfaceMode) -> (r: Self)
        ensures
            r.d.data@ == self.d.data@.update(
                0,
                field_set(self.d.data@[0], 0, 4, w.spec_code()),
            ),
    {
        let c = w.code();
        let mut d = self.d;
        d.data[0] = insert_field(d.data[0], 0, 4, c);
        BacklightControl3Write { d }
    }
}

} // verus!
