//! Parameter block of the `backlight-control5` command: the brightness transition
//! time and the brightness change threshold.

use vstd::prelude::*;

use crate::bits::extract_field;
use crate::bits::field_get;
use crate::bits::field_set;
use crate::bits::insert_field;
use crate::error::CodecError;

verus! {

/// The documented codes of the `TransitionTime` field.
#[derive(Copy, Clone, Debug, PartialEq, Eq, Structural)]
pub enum TransitionTime {
    N1Frame,
    N2Frames,
    N4Frames,
    N8Frames,
    N16Frames,
    N32Frames,
    N64Frames,
}

impl TransitionTime {
    /// The wire code of this variant.
    pub open spec fn spec_code(self) -> u8 {
        match self {
            TransitionTime::N1Frame => 0x01,
            TransitionTime::N2Frames => 0x02,
            TransitionTime::N4Frames => 0x03,
            TransitionTime::N8Frames => 0x04,
            TransitionTime::N16Frames => 0x05,
            TransitionTime::N32Frames => 0x06,
            TransitionTime::N64Frames => 0x07,
        }
    }

    /// The variant for a wire code, or a decode error for a code outside
    /// the documented mapping.
    pub open spec fn spec_decode(code: u8) -> Result<TransitionTime, CodecError> {
        if code == 0x01 {
            Ok(TransitionTime::N1Frame)
        } else if code == 0x02 {
            Ok(TransitionTime::N2Frames)
        } else if code == 0x03 {
            Ok(TransitionTime::N4Frames)
        } else if code == 0x04 {
            Ok(TransitionTime::N8Frames)
        } else if code == 0x05 {
            Ok(TransitionTime::N16Frames)
        } else if code == 0x06 {
            Ok(TransitionTime::N32Frames)
        } else if code == 0x07 {
            Ok(TransitionTime::N64Frames)
        } else {
            Err(CodecError::UnrecognizedCode { code })
        }
    }

    /// The wire code of this variant.
    pub fn code(self) -> (r: u8)
        ensures
            r == self.spec_code(),
    {
        match self {
            TransitionTime::N1Frame => 0x01,
            TransitionTime::N2Frames => 0x02,
            TransitionTime::N4Frames => 0x03,
            TransitionTime::N8Frames => 0x04,
            TransitionTime::N16Frames => 0x05,
            TransitionTime::N32Frames => 0x06,
            TransitionTime::N64Frames => 0x07,
        }
    }

    /// Decode a wire code; a code outside the documented mapping is a
    /// recoverable error, never coerced to a variant.
    pub fn from_code(code: u8) -> (r: Result<TransitionTime, CodecError>)
        ensures
            r == Self::spec_decode(code),
    {
        match code {
            0x01 => Ok(TransitionTime::N1Frame),
            0x02 => Ok(TransitionTime::N2Frames),
            0x03 => Ok(TransitionTime::N4Frames),
            0x04 => Ok(TransitionTime::N8Frames),
            0x05 => Ok(TransitionTime::N16Frames),
            0x06 => Ok(TransitionTime::N32Frames),
            0x07 => Ok(TransitionTime::N64Frames),
            _ => Err(CodecError::UnrecognizedCode { code }),
        }
    }

    /// Decoding a variant's own code yields that variant back.
    pub proof fn lemma_code_roundtrip(self)
        ensures
            Self::spec_decode(self.spec_code()) == Ok::<TransitionTime, CodecError>(self),
    {
    }
}

/// The single-byte parameter block of the `backlight-control5` command.
#[derive(Copy, Clone, Debug)]
pub struct BacklightControl5 {
    pub data: [u8; 1],
}

impl BacklightControl5 {
    /// The chip's post-reset value of this block.
    pub open spec fn spec_default() -> Seq<u8> {
        seq![0x44u8]
    }

    /// Borrow-free read view over a snapshot of the block.
    pub fn read(&self) -> (r: BacklightControl5Read)
        ensures
            r.d.data@ == self.data@,
    {
        BacklightControl5Read { d: *self }
    }

    /// Apply a builder transformation to this block and return the result.
    pub fn write<F: FnOnce(BacklightControl5Write) -> BacklightControl5Write>(self, f: F) -> (r: Self)
        requires
            call_requires(f, ((BacklightControl5Write { d: self }),)),
        ensures
            call_ensures(f, ((BacklightControl5Write { d: self }),), (BacklightControl5Write { d: r })),
    {
        let w = f(BacklightControl5Write { d: self });
        proof {
            assert((BacklightControl5Write { d: w.d }) == w);
        }
        w.d
    }
}

impl Default for BacklightControl5 {
    /// The block with the chip's documented post-reset byte pattern.
    fn default() -> (r: Self)
        ensures
            r.data@ == BacklightControl5::spec_default(),
    {
        let r = BacklightControl5 { data: [0x44] };
        proof {
            assert(r.data@ =~= BacklightControl5::spec_default());
        }
        r
    }
}

/// Read view of [`BacklightControl5`].
#[derive(Copy, Clone)]
pub struct BacklightControl5Read {
    pub d: BacklightControl5,
}

impl BacklightControl5Read {
    /// `brightness_change_threshold`: 4 bits at offset 4 of byte 0.
    pub fn brightness_change_threshold(&self) -> (r: u8)
        ensures
            r == field_get(self.d.data@[0], 4, 4),
    {
        extract_field(self.d.data[0], 4, 4)
    }

    /// `transition_time`: 3 bits at offset 0 of byte 0.
    pub fn transition_time(&self) -> (r: Result<TransitionTime, CodecError>)
        ensures
            r == TransitionTime::spec_decode(field_get(self.d.data@[0], 0, 3)),
    {
        TransitionTime::from_code(extract_field(self.d.data[0], 0, 3))
    }
}

/// Write view of [`BacklightControl5`].
#[derive(Copy, Clone)]
pub struct BacklightControl5Write {
    pub d: BacklightControl5,
}

impl BacklightControl5Write {
    /// `brightness_change_threshold`: written into 4 bits at offset 4 of byte 0; all other bits are kept.
    pub fn brightness_change_threshold(self, w: u8) -> (r: Self)
        ensures
            r.d.data@ == self.d.data@.update(
                0,
                field_set(self.d.data@[0], 4, 4, w),
            ),
    {
        let mut d = self.d;
        d.data[0] = insert_field(d.data[0], 4, 4, w);
        BacklightControl5Write { d }
    }

    /// `transition_time`: written into 3 bits at offset 0 of byte 0; all other bits are kept.
    pub fn transition_time(self, w: TransitionTime) -> (r: Self)
        ensures
            r.d.data@ == self.d.data@.update(
                0,
                field_set(self.d.data@[0], 0, 3, w.spec_code()),
            ),
    {
        let c = w.code();
        let mut d = self.d;
        d.data[0] = insert_field(d.data[0], 0, 3, c);
        BacklightControl5Write { d }
    }
}

} // verus!
