//! Parameter block of the `power-control2` command: the step-up circuit factor.

use vstd::prelude::*;

use crate::bits::extract_field;
use crate::bits::field_get;
use crate::bits::field_set;
use crate::bits::insert_field;
use crate::error::CodecError;

verus! {

/// The documented codes of the `Avdd` field.
#[derive(Copy, Clone, Debug, PartialEq, Eq, Structural)]
pub enum Avdd {
    VciX2VciX7VciX4,
    VciX2VciX7VciX3,
    VciX2VciX6VciX4,
    VciX2VciX6VciX3,
}

impl Avdd {
    /// The wire code of this variant.
    pub open spec fn spec_code(self) -> u8 {
        match self {
            Avdd::VciX2VciX7VciX4 => 0x00,
            Avdd::VciX2VciX7VciX3 => 0x01,
            Avdd::VciX2VciX6VciX4 => 0x02,
            Avdd::VciX2VciX6VciX3 => 0x03,
        }
    }

    /// The variant for a wire code, or a decode error for a code outside
    /// the documented mapping.
    pub open spec fn spec_decode(code: u8) -> Result<Avdd, CodecError> {
        if code == 0x00 {
            Ok(Avdd::VciX2VciX7VciX4)
        } else if code == 0x01 {
            Ok(Avdd::VciX2VciX7VciX3)
        } else if code == 0x02 {
            Ok(Avdd::VciX2VciX6VciX4)
        } else if code == 0x03 {
            Ok(Avdd::VciX2VciX6VciX3)
        } else {
            Err(CodecError::UnrecognizedCode { code })
        }
    }

    /// The wire code of this variant.
    pub fn code(self) -> (r: u8)
        ensures
            r == self.spec_code(),
    {
        match self {
            Avdd::VciX2VciX7VciX4 => 0x00,
            Avdd::VciX2VciX7VciX3 => 0x01,
            Avdd::VciX2VciX6VciX4 => 0x02,
            Avdd::VciX2VciX6VciX3 => 0x03,
        }
    }

    /// Decode a wire code; a code outside the documented mapping is a
    /// recoverable error, never coerced to a variant.
    pub fn from_code(code: u8) -> (r: Result<Avdd, CodecError>)
        ensures
            r == Self::spec_decode(code),
    {
        match code {
            0x00 => Ok(Avdd::VciX2VciX7VciX4),
            0x01 => Ok(Avdd::VciX2VciX7VciX3),
            0x02 => Ok(Avdd::VciX2VciX6VciX4),
            0x03 => Ok(Avdd::VciX2VciX6VciX3),
            _ => Err(CodecError::UnrecognizedCode { code }),
        }
    }

    /// Decoding a variant's own code yields that variant back.
    pub proof fn lemma_code_roundtrip(self)
        ensures
            Self::spec_decode(self.spec_code()) == Ok::<Avdd, CodecError>(self),
    {
    }
}

/// The single-byte parameter block of the `power-control2` command.
#[derive(Copy, Clone, Debug)]
pub struct PowerControl2 {
    pub data: [u8; 1],
}

impl PowerControl2 {
    /// The chip's post-reset value of this block.
    pub open spec fn spec_default() -> Seq<u8> {
        seq![0x10u8]
    }

    /// Borrow-free read view over a snapshot of the block.
    pub fn read(&self) -> (r: PowerControl2Read)
        ensures
            r.d.data@ == self.data@,
    {
        PowerControl2Read { d: *self }
    }

    /// Apply a builder transformation to this block and return the result.
    pub fn write<F: FnOnce(PowerControl2Write) -> PowerControl2Write>(self, f: F) -> (r: Self)
        requires
            call_requires(f, ((PowerControl2Write { d: self }),)),
        ensures
            call_ensures(f, ((PowerControl2Write { d: self }),), (PowerControl2Write { d: r })),
    {
        let w = f(PowerControl2Write { d: self });
        proof {
            assert((PowerControl2Write { d: w.d }) == w);
        }
        w.d
    }
}

impl Default for PowerControl2 {
    /// The block with the chip's documented post-reset byte pattern.
    fn default() -> (r: Self)
        ensures
            r.data@ == PowerControl2::spec_default(),
    {
        let r = PowerControl2 { data: [0x10] };
        proof {
            assert(r.data@ =~= PowerControl2::spec_default());
        }
        r
    }
}

/// Read view of [`PowerControl2`].
#[derive(Copy, Clone)]
pub struct PowerControl2Read {
    pub d: PowerControl2,
}

impl PowerControl2Read {
    /// `avdd`: 3 bits at offset 0 of byte 0.
    pub fn avdd(&self) -> (r: Result<Avdd, CodecError>)
        ensures
            r == Avdd::spec_decode(field_get(self.d.data@[0], 0, 3)),
    {
        Avdd::from_code(extract_field(self.d.data[0], 0, 3))
    }
}

/// Write view of [`PowerControl2`].
#[derive(Copy, Clone)]
pub struct PowerControl2Write {
    pub d: PowerControl2,
}

impl PowerControl2Write {
    /// `avdd`: written into 3 bits at offset 0 of byte 0; all other bits are kept.
    pub fn avdd(self, w: Avdd) -> (r: Self)
        ensures
            r.d.data@ == self.d.data@.update(
                0,
                field_set(self.d.data@[0], 0, 3, w.spec_code()),
            ),
    {
        let c = w.code();
        let mut d = self.d;
        d.data[0] = insert_field(d.data[0], 0, 3, c);
        PowerControl2Write { d }
    }
}

} // verus!
