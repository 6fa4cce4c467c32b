//! Parameter block of the `frame-control-in-idle-mode` command: the internal clock
//! division ratio and line period of idle mode.

use vstd::prelude::*;

use crate::bits::extract_field;
use crate::bits::field_get;
use crate::bits::field_set;
use crate::bits::insert_field;
use crate::bits::spec_decode_floor;
use crate::error::CodecError;

verus! {

/// The documented codes of the `DivisionRatio` field.
#[derive(Copy, Clone, Debug, PartialEq, Eq, Structural)]
pub enum DivisionRatio {
    Fosc,
    FoscDiv2,
    FoscDiv4,
    FoscDiv8,
}

impl DivisionRatio {
    /// The wire code of this variant.
    pub open spec fn spec_code(self) -> u8 {
        match self {
            DivisionRatio::Fosc => 0x00,
            DivisionRatio::FoscDiv2 => 0x01,
            DivisionRatio::FoscDiv4 => 0x02,
            DivisionRatio::FoscDiv8 => 0x03,
        }
    }

    /// The variant for a wire code, or a decode error for a code outside
    /// the documented mapping.
    pub open spec fn spec_decode(code: u8) -> Result<DivisionRatio, CodecError> {
        if code == 0x00 {
            Ok(DivisionRatio::Fosc)
        } else if code == 0x01 {
            Ok(DivisionRatio::FoscDiv2)
        } else if code == 0x02 {
            Ok(DivisionRatio::FoscDiv4)
        } else if code == 0x03 {
            Ok(DivisionRatio::FoscDiv8)
        } else {
            Err(CodecError::UnrecognizedCode { code })
        }
    }

    /// The wire code of this variant.
    pub fn code(self) -> (r: u8)
        ensures
            r == self.spec_code(),
    {
        match self {
            DivisionRatio::Fosc => 0x00,
            DivisionRatio::FoscDiv2 => 0x01,
            DivisionRatio::FoscDiv4 => 0x02,
            DivisionRatio::FoscDiv8 => 0x03,
        }
    }

    /// Decode a wire code; a code outside the documented mapping is a
    /// recoverable error, never coerced to a variant.
    pub fn from_code(code: u8) -> (r: Result<DivisionRatio, CodecError>)
        ensures
            r == Self::spec_decode(code),
    {
        match code {
            0x00 => Ok(DivisionRatio::Fosc),
            0x01 => Ok(DivisionRatio::FoscDiv2),
            0x02 => Ok(DivisionRatio::FoscDiv4),
            0x03 => Ok(DivisionRatio::FoscDiv8),
            _ => Err(CodecError::UnrecognizedCode { code }),
        }
    }

    /// Decoding a variant's own code yields that variant back.
    pub proof fn lemma_code_roundtrip(self)
        ensures
            Self::spec_decode(self.spec_code()) == Ok::<DivisionRatio, CodecError>(self),
    {
    }
}

/// The 2-byte parameter block of the `frame-control-in-idle-mode` command.
#[derive(Copy, Clone, Debug)]
pub struct FrameControlInIdleMode {
    pub data: [u8; 2],
}

impl FrameControlInIdleMode {
    /// The chip's post-reset value of this block.
    pub open spec fn spec_default() -> Seq<u8> {
        seq![0x00u8, 0x1Bu8]
    }

    /// Borrow-free read view over a snapshot of the block.
    pub fn read(&self) -> (r: FrameControlInIdleModeRead)
        ensures
            r.d.data@ == self.data@,
    {
        FrameControlInIdleModeRead { d: *self }
    }

    /// Apply a builder transformation to this block and return the result.
    pub fn write<F: FnOnce(FrameControlInIdleModeWrite) -> FrameControlInIdleModeWrite>(self, f: F) -> (r: Self)
        requires
            call_requires(f, ((FrameControlInIdleModeWrite { d: self }),)),
        ensures
            call_ensures(f, ((FrameControlInIdleModeWrite { d: self }),), (FrameControlInIdleModeWrite { d: r })),
    {
        let w = f(FrameControlInIdleModeWrite { d: self });
        proof {
            assert((FrameControlInIdleModeWrite { d: w.d }) == w);
        }
        w.d
    }
}

impl Default for FrameControlInIdleMode {
    /// The block with the chip's documented post-reset byte pattern.
    fn default() -> (r: Self)
        ensures
            r.data@ == FrameControlInIdleMode::spec_default(),
    {
        let r = FrameControlInIdleMode { data: [0x00, 0x1B] };
        proof {
            assert(r.data@ =~= FrameControlInIdleMode::spec_default());
        }
        r
    }
}

/// Read view of [`FrameControlInIdleMode`].
#[derive(Copy, Clone)]
pub struct FrameControlInIdleModeRead {
    pub d: FrameControlInIdleMode,
}

impl FrameControlInIdleModeRead {
    /// `division_ratio`: 2 bits at offset 0 of byte 0.
    pub fn division_ratio(&self) -> (r: Result<DivisionRatio, CodecError>)
        ensures
            r == DivisionRatio::spec_decode(field_get(self.d.data@[0], 0, 2)),
    {
        DivisionRatio::from_code(extract_field(self.d.data[0], 0, 2))
    }

    /// `clock_per_line`: 5 bits at offset 0 of byte 1; a stored value under the documented minimum of 16 is a recoverable decode error.
    pub fn clock_per_line(&self) -> (r: Result<u8, CodecError>)
        ensures
            r == spec_decode_floor(field_get(self.d.data@[1], 0, 5), 16),
    {
        let c = extract_field(self.d.data[1], 0, 5);
        if c >= 16 {
            Ok(c)
        } else {
            Err(CodecError::UnrecognizedCode { code: c })
        }
    }
}

/// Write view of [`FrameControlInIdleMode`].
#[derive(Copy, Clone)]
pub struct FrameControlInIdleModeWrite {
    pub d: FrameControlInIdleMode,
}

impl FrameControlInIdleModeWrite {
    /// `division_ratio`: written into 2 bits at offset 0 of byte 0; all other bits are kept.
    pub fn division_ratio(self, w: DivisionRatio) -> (r: Self)
        ensures
            r.d.data@ == self.d.data@.update(
                0,
                field_set(self.d.data@[0], 0, 2, w.spec_code()),
            ),
    {
        let c = w.code();
        let mut d = self.d;
        d.data[0] = insert_field(d.data[0], 0, 2, c);
        FrameControlInIdleModeWrite { d }
    }

    /// `clock_per_line`: written into 5 bits at offset 0 of byte 1; all other bits are kept. The value must be at least the documented minimum of 16.
    pub fn clock_per_line(self, w: u8) -> (r: Self)
        requires
            16 <= w,
        ensures
            r.d.data@ == self.d.data@.update(
                1,
                field_set(self.d.data@[1], 0, 5, w),
            ),
    {
        let mut d = self.d;
        d.data[1] = insert_field(d.data[1], 0, 5, w);
        FrameControlInIdleModeWrite { d }
    }
}

} // verus!
