//! Parameter block of the `read-content-adaptive-brightness-control` command: the
//! content-adaptive brightness control mode in use.

use vstd::prelude::*;

use crate::bits::extract_field;
use crate::bits::field_get;
use crate::bits::field_set;
use crate::bits::insert_field;
use crate::error::CodecError;

verus! {

/// The documented codes of the `AdaptiveBrightnessControlMode` field.
#[derive(Copy, Clone, Debug, PartialEq, Eq, Structural)]
pub enum AdaptiveBrightnessControlMode {
    Off,
    UserInterfaceImage,
    StillPicture,
    MovingImage,
}

impl AdaptiveBrightnessControlMode {
    /// The wire code of this variant.
    pub open spec fn spec_code(self) -> u8 {
        match self {
            AdaptiveBrightnessControlMode::Off => 0x00,
            AdaptiveBrightnessControlMode::UserInterfaceImage => 0x01,
            AdaptiveBrightnessControlMode::StillPicture => 0x02,
            AdaptiveBrightnessControlMode::MovingImage => 0x03,
        }
    }

    /// The variant for a wire code, or a decode error for a code outside
    /// the documented mapping.
    pub open spec fn spec_decode(code: u8) -> Result<AdaptiveBrightnessControlMode, CodecError> {
        if code == 0x00 {
            Ok(AdaptiveBrightnessControlMode::Off)
        } else if code == 0x01 {
            Ok(AdaptiveBrightnessControlMode::UserInterfaceImage)
        } else if code == 0x02 {
            Ok(AdaptiveBrightnessControlMode::StillPicture)
        } else if code == 0x03 {
            Ok(AdaptiveBrightnessControlMode::MovingImage)
        } else {
            Err(CodecError::UnrecognizedCode { code })
        }
    }

    /// The wire code of this variant.
    pub fn code(self) -> (r: u8)
        ensures
            r == self.spec_code(),
    {
        match self {
            AdaptiveBrightnessControlMode::Off => 0x00,
            AdaptiveBrightnessControlMode::UserInterfaceImage => 0x01,
            AdaptiveBrightnessControlMode::StillPicture => 0x02,
            AdaptiveBrightnessControlMode::MovingImage => 0x03,
        }
    }

    /// Decode a wire code; a code outside the documented mapping is a
    /// recoverable error, never coerced to a variant.
    pub fn from_code(code: u8) -> (r: Result<AdaptiveBrightnessControlMode, CodecError>)
        ensures
            r == Self::spec_decode(code),
    {
        match code {
            0x00 => Ok(AdaptiveBrightnessControlMode::Off),
            0x01 => Ok(AdaptiveBrightnessControlMode::UserInterfaceImage),
            0x02 => Ok(AdaptiveBrightnessControlMode::StillPicture),
            0x03 => Ok(AdaptiveBrightnessControlMode::MovingImage),
            _ => Err(CodecError::UnrecognizedCode { code }),
        }
    }

    /// Decoding a variant's own code yields that variant back.
    pub proof fn lemma_code_roundtrip(self)
        ensures
            Self::spec_decode(self.spec_code()) == Ok::<AdaptiveBrightnessControlMode, CodecError>(self),
    {
    }
}

/// The single-byte parameter block of the `read-content-adaptive-brightness-control` command.
#[derive(Copy, Clone, Debug)]
pub struct ContentAdaptiveBrightnessControl {
    pub data: [u8; 1],
}

impl ContentAdaptiveBrightnessControl {
    /// The chip's post-reset value of this block.
    pub open spec fn spec_default() -> Seq<u8> {
        seq![0x00u8]
    }

    /// Borrow-free read view over a snapshot of the block.
    pub fn read(&self) -> (r: ContentAdaptiveBrightnessControlRead)
        ensures
            r.d.data@ == self.data@,
    {
        ContentAdaptiveBrightnessControlRead { d: *self }
    }

    /// Apply a builder transformation to this block and return the result.
    pub fn write<F: FnOnce(ContentAdaptiveBrightnessControlWrite) -> ContentAdaptiveBrightnessControlWrite>(self, f: F) -> (r: Self)
        requires
            call_requires(f, ((ContentAdaptiveBrightnessControlWrite { d: self }),)),
        ensures
            call_ensures(f, ((ContentAdaptiveBrightnessControlWrite { d: self }),), (ContentAdaptiveBrightnessControlWrite { d: r })),
    {
        let w = f(ContentAdaptiveBrightnessControlWrite { d: self });
        proof {
            assert((ContentAdaptiveBrightnessControlWrite { d: w.d }) == w);
        }
        w.d
    }
}

impl Default for ContentAdaptiveBrightnessControl {
    /// The block with the chip's documented post-reset byte pattern.
    fn default() -> (r: Self)
        ensures
            r.data@ == ContentAdaptiveBrightnessControl::spec_default(),
    {
        let r = ContentAdaptiveBrightnessControl { data: [0x00] };
        proof {
            assert(r.data@ =~= ContentAdaptiveBrightnessControl::spec_default());
        }
        r
    }
}

/// Read view of [`ContentAdaptiveBrightnessControl`].
#[derive(Copy, Clone)]
pub struct ContentAdaptiveBrightnessControlRead {
    pub d: ContentAdaptiveBrightnessControl,
}

impl ContentAdaptiveBrightnessControlRead {
    /// `adaptive_brightness_control_mode`: 2 bits at offset 0 of byte 0.
    pub fn adaptive_brightness_control_mode(&self) -> (r: Result<AdaptiveBrightnessControlMode, CodecError>)
        ensures
            r == AdaptiveBrightnessControlMode::spec_decode(field_get(self.d.data@[0], 0, 2)),
    {
        AdaptiveBrightnessControlMode::from_code(extract_field(self.d.data[0], 0, 2))
    }
}

/// Write view of [`ContentAdaptiveBrightnessControl`].
#[derive(Copy, Clone)]
pub struct ContentAdaptiveBrightnessControlWrite {
    pub d: ContentAdaptiveBrightnessControl,
}

impl ContentAdaptiveBrightnessControlWrite {
    /// `adaptive_brightness_control_mode`: written into 2 bits at offset 0 of byte 0; all other bits are kept.
    pub fn adaptive_brightness_control_mode(self, w: AdaptiveBrightnessControlMode) -> (r: Self)
        ensures
            r.d.data@ == self.d.data@.update(
                0,
                field_set(self.d.data@[0], 0, 2, w.spec_code()),
            ),
    {
        let c = w.code();
        let mut d = self.d;
        d.data[0] = insert_field(d.data[0], 0, 2, c);
        ContentAdaptiveBrightnessControlWrite { d }
    }
}

} // verus!
