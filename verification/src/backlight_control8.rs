//! Parameter block of the `backlight-control8` command: the LEDPWM and LEDON pin
//! polarities.

use vstd::prelude::*;

use crate::bits::extract_field;
use crate::bits::field_get;
use crate::bits::field_set;
use crate::bits::insert_field;
use crate::error::CodecError;

verus! {

/// The documented codes of the `Polarity` field.
#[derive(Copy, Clone, Debug, PartialEq, Eq, Structural)]
pub enum Polarity {
    Low,
    High,
}

impl Polarity {
    /// The wire code of this variant.
    pub open spec fn spec_code(self) -> u8 {
        match self {
            Polarity::Low => 0x00,
            Polarity::High => 0x01,
        }
    }

    /// The variant for a wire code, or a decode error for a code outside
    /// the documented mapping.
    pub open spec fn spec_decode(code: u8) -> Result<Polarity, CodecError> {
        if code == 0x00 {
            Ok(Polarity::Low)
        } else if code == 0x01 {
            Ok(Polarity::High)
        } else {
            Err(CodecError::UnrecognizedCode { code })
        }
    }

    /// The wire code of this variant.
    pub fn code(self) -> (r: u8)
        ensures
            r == self.spec_code(),
    {
        match self {
            Polarity::Low => 0x00,
            Polarity::High => 0x01,
        }
    }

    /// Decode a wire code; a code outside the documented mapping is a
    /// recoverable error, never coerced to a variant.
    pub fn from_code(code: u8) -> (r: Result<Polarity, CodecError>)
        ensures
            r == Self::spec_decode(code),
    {
        match code {
            0x00 => Ok(Polarity::Low),
            0x01 => Ok(Polarity::High),
            _ => Err(CodecError::UnrecognizedCode { code }),
        }
    }

    /// Decoding a variant's own code yields that variant back.
    pub proof fn lemma_code_roundtrip(self)
        ensures
            Self::spec_decode(self.spec_code()) == Ok::<Polarity, CodecError>(self),
    {
    }
}

/// The documented codes of the `LedonPin` field.
#[derive(Copy, Clone, Debug, PartialEq, Eq, Structural)]
pub enum LedonPin {
    Ledonr,
    InversedLedonr,
}

impl LedonPin {
    /// The wire code of this variant.
    pub open spec fn spec_code(self) -> u8 {
        match self {
            LedonPin::Ledonr => 0x00,
            LedonPin::InversedLedonr => 0x01,
        }
    }

    /// The variant for a wire code, or a decode error for a code outside
    /// the documented mapping.
    pub open spec fn spec_decode(code: u8) -> Result<LedonPin, CodecError> {
        if code == 0x00 {
            Ok(LedonPin::Ledonr)
        } else if code == 0x01 {
            Ok(LedonPin::InversedLedonr)
        } else {
            Err(CodecError::UnrecognizedCode { code })
        }
    }

    /// The wire code of this variant.
    pub fn code(self) -> (r: u8)
        ensures
            r == self.spec_code(),
    {
        match self {
            LedonPin::Ledonr => 0x00,
            LedonPin::InversedLedonr => 0x01,
        }
    }

    /// Decode a wire code; a code outside the documented mapping is a
    /// recoverable error, never coerced to a variant.
    pub fn from_code(code: u8) -> (r: Result<LedonPin, CodecError>)
        ensures
            r == Self::spec_decode(code),
    {
        match code {
            0x00 => Ok(LedonPin::Ledonr),
            0x01 => Ok(LedonPin::InversedLedonr),
            _ => Err(CodecError::UnrecognizedCode { code }),
        }
    }

    /// Decoding a variant's own code yields that variant back.
    pub proof fn lemma_code_roundtrip(self)
        ensures
            Self::spec_decode(self.spec_code()) == Ok::<LedonPin, CodecError>(self),
    {
    }
}

/// The documented codes of the `LedpwmPin` field.
#[derive(Copy, Clone, Debug, PartialEq, Eq, Structural)]
pub enum LedpwmPin {
    OriginalPolarityOfPwmSignal,
    InversedPolarityOfPwmSignal,
}

impl LedpwmPin {
    /// The wire code of this variant.
    pub open spec fn spec_code(self) -> u8 {
        match self {
            LedpwmPin::OriginalPolarityOfPwmSignal => 0x00,
            LedpwmPin::InversedPolarityOfPwmSignal => 0x01,
        }
    }

    /// The variant for a wire code, or a decode error for a code outside
    /// the documented mapping.
    pub open spec fn spec_decode(code: u8) -> Result<LedpwmPin, CodecError> {
        if code == 0x00 {
            Ok(LedpwmPin::OriginalPolarityOfPwmSignal)
        } else if code == 0x01 {
            Ok(LedpwmPin::InversedPolarityOfPwmSignal)
        } else {
            Err(CodecError::UnrecognizedCode { code })
        }
    }

    /// The wire code of this variant.
    pub fn code(self) -> (r: u8)
        ensures
            r == self.spec_code(),
    {
        match self {
            LedpwmPin::OriginalPolarityOfPwmSignal => 0x00,
            LedpwmPin::InversedPolarityOfPwmSignal => 0x01,
        }
    }

    /// Decode a wire code; a code outside the documented mapping is a
    /// recoverable error, never coerced to a variant.
    pub fn from_code(code: u8) -> (r: Result<LedpwmPin, CodecError>)
        ensures
            r == Self::spec_decode(code),
    {
        match code {
            0x00 => Ok(LedpwmPin::OriginalPolarityOfPwmSignal),
            0x01 => Ok(LedpwmPin::InversedPolarityOfPwmSignal),
            _ => Err(CodecError::UnrecognizedCode { code }),
        }
    }

    /// Decoding a variant's own code yields that variant back.
    pub proof fn lemma_code_roundtrip(self)
        ensures
            Self::spec_decode(self.spec_code()) == Ok::<LedpwmPin, CodecError>(self),
    {
    }
}

/// The single-byte parameter block of the `backlight-control8` command.
#[derive(Copy, Clone, Debug)]
pub struct BacklightControl8 {
    pub data: [u8; 1],
}

impl BacklightControl8 {
    /// The chip's post-reset value of this block.
    pub open spec fn spec_default() -> Seq<u8> {
        seq![0x00u8]
    }

    /// Borrow-free read view over a snapshot of the block.
    pub fn read(&self) -> (r: BacklightControl8Read)
        ensures
            r.d.data@ == self.data@,
    {
        BacklightControl8Read { d: *self }
    }

    /// Apply a builder transformation to this block and return the result.
    pub fn write<F: FnOnce(BacklightControl8Write) -> BacklightControl8Write>(self, f: F) -> (r: Self)
        requires
            call_requires(f, ((BacklightControl8Write { d: self }),)),
        ensures
            call_ensures(f, ((BacklightControl8Write { d: self }),), (BacklightControl8Write { d: r })),
    {
        let w = f(BacklightControl8Write { d: self });
        proof {
            assert((BacklightControl8Write { d: w.d }) == w);
        }
        w.d
    }
}

impl Default for BacklightControl8 {
    /// The block with the chip's documented post-reset byte pattern.
    fn default() -> (r: Self)
        ensures
            r.data@ == BacklightControl8::spec_default(),
    {
        let r = BacklightControl8 { data: [0x00] };
        proof {
            assert(r.data@ =~= BacklightControl8::spec_default());
        }
        r
    }
}

/// Read view of [`BacklightControl8`].
#[derive(Copy, Clone)]
pub struct BacklightControl8Read {
    pub d: BacklightControl8,
}

impl BacklightControl8Read {
    /// `polarity`: 1 bit at offset 2 of byte 0.
    pub fn polarity(&self) -> (r: Result<Polarity, CodecError>)
        ensures
            r == Polarity::spec_decode(field_get(self.d.data@[0], 2, 1)),
    {
        Polarity::from_code(extract_field(self.d.data[0], 2, 1))
    }

    /// `ledon_pin`: 1 bit at offset 1 of byte 0.
    pub fn ledon_pin(&self) -> (r: Result<LedonPin, CodecError>)
        ensures
            r == LedonPin::spec_decode(field_get(self.d.data@[0], 1, 1)),
    {
        LedonPin::from_code(extract_field(self.d.data[0], 1, 1))
    }

    /// `ledpwm_pin`: 1 bit at offset 0 of byte 0.
    pub fn ledpwm_pin(&self) -> (r: Result<LedpwmPin, CodecError>)
        ensures
            r == LedpwmPin::spec_decode(field_get(self.d.data@[0], 0, 1)),
    {
        LedpwmPin::from_code(extract_field(self.d.data[0], 0, 1))
    }
}

/// Write view of [`BacklightControl8`].
#[derive(Copy, Clone)]
pub struct BacklightControl8Write {
    pub d: BacklightControl8,
}

impl BacklightControl8Write {
    /// `polarity`: written into 1 bit at offset 2 of byte 0; all other bits are kept.
    pub fn polarity(self, w: Polarity) -> (r: Self)
        ensures
            r.d.data@ == self.d.data@.update(
                0,
                field_set(self.d.data@[0], 2, 1, w.spec_code()),
            ),
    {
        let c = w.code();
        let mut d = self.d;
        d.data[0] = insert_field(d.data[0], 2, 1, c);
        BacklightControl8Write { d }
    }

    /// `ledon_pin`: written into 1 bit at offset 1 of byte 0; all other bits are kept.
    pub fn ledon_pin(self, w: LedonPin) -> (r: Self)
        ensures
            r.d.data@ == self.d.data@.update(
                0,
                field_set(self.d.data@[0], 1, 1, w.spec_code()),
            ),
    {
        let c = w.code();
        let mut d = self.d;
        d.data[0] = insert_field(d.data[0], 1, 1, c);
        BacklightControl8Write { d }
    }

    /// `ledpwm_pin`: written into 1 bit at offset 0 of byte 0; all other bits are kept.
    pub fn ledpwm_pin(self, w: LedpwmPin) -> (r: Self)
        ensures
            r.d.data@ == self.d.data@.update(
                0,
                field_set(self.d.data@[0], 0, 1, w.spec_code()),
            ),
    {
        let c = w.code();
        let mut d = self.d;
        d.data[0] = insert_field(d.data[0], 0, 1, c);
        BacklightControl8Write { d }
    }
}

} // verus!
