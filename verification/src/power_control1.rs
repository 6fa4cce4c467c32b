//! Parameter block of the `power-control1` command: the GVDD reference voltage
//! level.

use vstd::prelude::*;

use crate::bits::extract_field;
use crate::bits::field_get;
use crate::bits::field_set;
use crate::bits::insert_field;
use crate::error::CodecError;

verus! {

/// The documented codes of the `Gvdd` field.
#[derive(Copy, Clone, Debug, PartialEq, Eq, Structural)]
pub enum Gvdd {
    N3o00V,
    N3o05V,
    N3o10V,
    N3o15V,
    N3o20V,
    N3o25V,
    N3o30V,
    N3o35V,
    N3o40V,
    N3o45V,
    N3o50V,
    N3o55V,
    N3o60V,
    N3o65V,
    N3o70V,
    N3o75V,
    N3o80V,
    N3o85V,
    N3o90V,
    N3o95V,
    N4o00V,
    N4o05V,
    N4o10V,
    N4o15V,
    N4o20V,
    N4o25V,
    N4o30V,
    N4o35V,
    N4o40V,
    N4o45V,
    N4o50V,
    N4o55V,
    N4o60V,
    N4o65V,
    N4o70V,
    N4o75V,
    N4o80V,
    N4o85V,
    N4o90V,
    N4o95V,
    N5o00V,
    N5o05V,
    N5o10V,
    N5o15V,
    N5o20V,
    N5o25V,
    N5o30V,
    N5o35V,
    N5o40V,
    N5o45V,
    N5o50V,
    N5o55V,
    N5o60V,
    N5o65V,
    N5o70V,
    N5o75V,
    N5o80V,
    N5o85V,
    N5o90V,
    N5o95V,
    N6o00V,
}

impl Gvdd {
    /// The wire code of this variant.
    pub open spec fn spec_code(self) -> u8 {
        match self {
            Gvdd::N3o00V => 0x03,
            Gvdd::N3o05V => 0x04,
            Gvdd::N3o10V => 0x05,
            Gvdd::N3o15V => 0x06,
            Gvdd::N3o20V => 0x07,
            Gvdd::N3o25V => 0x08,
            Gvdd::N3o30V => 0x09,
            Gvdd::N3o35V => 0x0A,
            Gvdd::N3o40V => 0x0B,
            Gvdd::N3o45V => 0x0C,
            Gvdd::N3o50V => 0x0D,
            Gvdd::N3o55V => 0x0E,
            Gvdd::N3o60V => 0x0F,
            Gvdd::N3o65V => 0x10,
            Gvdd::N3o70V => 0x11,
            Gvdd::N3o75V => 0x12,
            Gvdd::N3o80V => 0x13,
            Gvdd::N3o85V => 0x14,
            Gvdd::N3o90V => 0x15,
            Gvdd::N3o95V => 0x16,
            Gvdd::N4o00V => 0x17,
            Gvdd::N4o05V => 0x18,
            Gvdd::N4o10V => 0x19,
            Gvdd::N4o15V => 0x1A,
            Gvdd::N4o20V => 0x1B,
            Gvdd::N4o25V => 0x1C,
            Gvdd::N4o30V => 0x1D,
            Gvdd::N4o35V => 0x1E,
            Gvdd::N4o40V => 0x1F,
            Gvdd::N4o45V => 0x20,
            Gvdd::N4o50V => 0x21,
            Gvdd::N4o55V => 0x22,
            Gvdd::N4o60V => 0x23,
            Gvdd::N4o65V => 0x24,
            Gvdd::N4o70V => 0x25,
            Gvdd::N4o75V => 0x26,
            Gvdd::N4o80V => 0x27,
            Gvdd::N4o85V => 0x28,
            Gvdd::N4o90V => 0x29,
            Gvdd::N4o95V => 0x2A,
            Gvdd::N5o00V => 0x2B,
            Gvdd::N5o05V => 0x2C,
            Gvdd::N5o10V => 0x2D,
            Gvdd::N5o15V => 0x2E,
            Gvdd::N5o20V => 0x2F,
            Gvdd::N5o25V => 0x30,
            Gvdd::N5o30V => 0x31,
            Gvdd::N5o35V => 0x32,
            Gvdd::N5o40V => 0x33,
            Gvdd::N5o45V => 0x34,
            Gvdd::N5o50V => 0x35,
            Gvdd::N5o55V => 0x36,
            Gvdd::N5o60V => 0x37,
            Gvdd::N5o65V => 0x38,
            Gvdd::N5o70V => 0x39,
            Gvdd::N5o75V => 0x3A,
            Gvdd::N5o80V => 0x3B,
            Gvdd::N5o85V => 0x3C,
            Gvdd::N5o90V => 0x3D,
            Gvdd::N5o95V => 0x3E,
            Gvdd::N6o00V => 0x3F,
        }
    }

    /// The variant for a wire code, or a decode error for a code outside
    /// the documented mapping.
    pub open spec fn spec_decode(code: u8) -> Result<Gvdd, CodecError> {
        if code == 0x03 {
            Ok(Gvdd::N3o00V)
        } else if code == 0x04 {
            Ok(Gvdd::N3o05V)
        } else if code == 0x05 {
            Ok(Gvdd::N3o10V)
        } else if code == 0x06 {
            Ok(Gvdd::N3o15V)
        } else if code == 0x07 {
            Ok(Gvdd::N3o20V)
        } else if code == 0x08 {
            Ok(Gvdd::N3o25V)
        } else if code == 0x09 {
            Ok(Gvdd::N3o30V)
        } else if code == 0x0A {
            Ok(Gvdd::N3o35V)
        } else if code == 0x0B {
            Ok(Gvdd::N3o40V)
        } else if code == 0x0C {
            Ok(Gvdd::N3o45V)
        } else if code == 0x0D {
            Ok(Gvdd::N3o50V)
        } else if code == 0x0E {
            Ok(Gvdd::N3o55V)
        } else if code == 0x0F {
            Ok(Gvdd::N3o60V)
        } else if code == 0x10 {
            Ok(Gvdd::N3o65V)
        } else if code == 0x11 {
            Ok(Gvdd::N3o70V)
        } else if code == 0x12 {
            Ok(Gvdd::N3o75V)
        } else if code == 0x13 {
            Ok(Gvdd::N3o80V)
        } else if code == 0x14 {
            Ok(Gvdd::N3o85V)
        } else if code == 0x15 {
            Ok(Gvdd::N3o90V)
        } else if code == 0x16 {
            Ok(Gvdd::N3o95V)
        } else if code == 0x17 {
            Ok(Gvdd::N4o00V)
        } else if code == 0x18 {
            Ok(Gvdd::N4o05V)
        } else if code == 0x19 {
            Ok(Gvdd::N4o10V)
        } else if code == 0x1A {
            Ok(Gvdd::N4o15V)
        } else if code == 0x1B {
            Ok(Gvdd::N4o20V)
        } else if code == 0x1C {
            Ok(Gvdd::N4o25V)
        } else if code == 0x1D {
            Ok(Gvdd::N4o30V)
        } else if code == 0x1E {
            Ok(Gvdd::N4o35V)
        } else if code == 0x1F {
            Ok(Gvdd::N4o40V)
        } else if code == 0x20 {
            Ok(Gvdd::N4o45V)
        } else if code == 0x21 {
            Ok(Gvdd::N4o50V)
        } else if code == 0x22 {
            Ok(Gvdd::N4o55V)
        } else if code == 0x23 {
            Ok(Gvdd::N4o60V)
        } else if code == 0x24 {
            Ok(Gvdd::N4o65V)
        } else if code == 0x25 {
            Ok(Gvdd::N4o70V)
        } else if code == 0x26 {
            Ok(Gvdd::N4o75V)
        } else if code == 0x27 {
            Ok(Gvdd::N4o80V)
        } else if code == 0x28 {
            Ok(Gvdd::N4o85V)
        } else if code == 0x29 {
            Ok(Gvdd::N4o90V)
        } else if code == 0x2A {
            Ok(Gvdd::N4o95V)
        } else if code == 0x2B {
            Ok(Gvdd::N5o00V)
        } else if code == 0x2C {
            Ok(Gvdd::N5o05V)
        } else if code == 0x2D {
            Ok(Gvdd::N5o10V)
        } else if code == 0x2E {
            Ok(Gvdd::N5o15V)
        } else if code == 0x2F {
            Ok(Gvdd::N5o20V)
        } else if code == 0x30 {
            Ok(Gvdd::N5o25V)
        } else if code == 0x31 {
            Ok(Gvdd::N5o30V)
        } else if code == 0x32 {
            Ok(Gvdd::N5o35V)
        } else if code == 0x33 {
            Ok(Gvdd::N5o40V)
        } else if code == 0x34 {
            Ok(Gvdd::N5o45V)
        } else if code == 0x35 {
            Ok(Gvdd::N5o50V)
        } else if code == 0x36 {
            Ok(Gvdd::N5o55V)
        } else if code == 0x37 {
            Ok(Gvdd::N5o60V)
        } else if code == 0x38 {
            Ok(Gvdd::N5o65V)
        } else if code == 0x39 {
            Ok(Gvdd::N5o70V)
        } else if code == 0x3A {
            Ok(Gvdd::N5o75V)
        } else if code == 0x3B {
            Ok(Gvdd::N5o80V)
        } else if code == 0x3C {
            Ok(Gvdd::N5o85V)
        } else if code == 0x3D {
            Ok(Gvdd::N5o90V)
        } else if code == 0x3E {
            Ok(Gvdd::N5o95V)
        } else if code == 0x3F {
            Ok(Gvdd::N6o00V)
        } else {
            Err(CodecError::UnrecognizedCode { code })
        }
    }

    /// The wire code of this variant.
    #[verifier::rlimit(100)]
    pub fn code(self) -> (r: u8)
        ensures
            r == self.spec_code(),
    {
        match self {
            Gvdd::N3o00V => 0x03,
            Gvdd::N3o05V => 0x04,
            Gvdd::N3o10V => 0x05,
            Gvdd::N3o15V => 0x06,
            Gvdd::N3o20V => 0x07,
            Gvdd::N3o25V => 0x08,
            Gvdd::N3o30V => 0x09,
            Gvdd::N3o35V => 0x0A,
            Gvdd::N3o40V => 0x0B,
            Gvdd::N3o45V => 0x0C,
            Gvdd::N3o50V => 0x0D,
            Gvdd::N3o55V => 0x0E,
            Gvdd::N3o60V => 0x0F,
            Gvdd::N3o65V => 0x10,
            Gvdd::N3o70V => 0x11,
            Gvdd::N3o75V => 0x12,
            Gvdd::N3o80V => 0x13,
            Gvdd::N3o85V => 0x14,
            Gvdd::N3o90V => 0x15,
            Gvdd::N3o95V => 0x16,
            Gvdd::N4o00V => 0x17,
            Gvdd::N4o05V => 0x18,
            Gvdd::N4o10V => 0x19,
            Gvdd::N4o15V => 0x1A,
            Gvdd::N4o20V => 0x1B,
            Gvdd::N4o25V => 0x1C,
            Gvdd::N4o30V => 0x1D,
            Gvdd::N4o35V => 0x1E,
            Gvdd::N4o40V => 0x1F,
            Gvdd::N4o45V => 0x20,
            Gvdd::N4o50V => 0x21,
            Gvdd::N4o55V => 0x22,
            Gvdd::N4o60V => 0x23,
            Gvdd::N4o65V => 0x24,
            Gvdd::N4o70V => 0x25,
            Gvdd::N4o75V => 0x26,
            Gvdd::N4o80V => 0x27,
            Gvdd::N4o85V => 0x28,
            Gvdd::N4o90V => 0x29,
            Gvdd::N4o95V => 0x2A,
            Gvdd::N5o00V => 0x2B,
            Gvdd::N5o05V => 0x2C,
            Gvdd::N5o10V => 0x2D,
            Gvdd::N5o15V => 0x2E,
            Gvdd::N5o20V => 0x2F,
            Gvdd::N5o25V => 0x30,
            Gvdd::N5o30V => 0x31,
            Gvdd::N5o35V => 0x32,
            Gvdd::N5o40V => 0x33,
            Gvdd::N5o45V => 0x34,
            Gvdd::N5o50V => 0x35,
            Gvdd::N5o55V => 0x36,
            Gvdd::N5o60V => 0x37,
            Gvdd::N5o65V => 0x38,
            Gvdd::N5o70V => 0x39,
            Gvdd::N5o75V => 0x3A,
            Gvdd::N5o80V => 0x3B,
            Gvdd::N5o85V => 0x3C,
            Gvdd::N5o90V => 0x3D,
            Gvdd::N5o95V => 0x3E,
            Gvdd::N6o00V => 0x3F,
        }
    }

    /// Decode a wire code; a code outside the documented mapping is a
    /// recoverable error, never coerced to a variant.
    #[verifier::rlimit(100)]
    pub fn from_code(code: u8) -> (r: Result<Gvdd, CodecError>)
        ensures
            r == Self::spec_decode(code),
    {
        match code {
            0x03 => Ok(Gvdd::N3o00V),
            0x04 => Ok(Gvdd::N3o05V),
            0x05 => Ok(Gvdd::N3o10V),
            0x06 => Ok(Gvdd::N3o15V),
            0x07 => Ok(Gvdd::N3o20V),
            0x08 => Ok(Gvdd::N3o25V),
            0x09 => Ok(Gvdd::N3o30V),
            0x0A => Ok(Gvdd::N3o35V),
            0x0B => Ok(Gvdd::N3o40V),
            0x0C => Ok(Gvdd::N3o45V),
            0x0D => Ok(Gvdd::N3o50V),
            0x0E => Ok(Gvdd::N3o55V),
            0x0F => Ok(Gvdd::N3o60V),
            0x10 => Ok(Gvdd::N3o65V),
            0x11 => Ok(Gvdd::N3o70V),
            0x12 => Ok(Gvdd::N3o75V),
            0x13 => Ok(Gvdd::N3o80V),
            0x14 => Ok(Gvdd::N3o85V),
            0x15 => Ok(Gvdd::N3o90V),
            0x16 => Ok(Gvdd::N3o95V),
            0x17 => Ok(Gvdd::N4o00V),
            0x18 => Ok(Gvdd::N4o05V),
            0x19 => Ok(Gvdd::N4o10V),
            0x1A => Ok(Gvdd::N4o15V),
            0x1B => Ok(Gvdd::N4o20V),
            0x1C => Ok(Gvdd::N4o25V),
            0x1D => Ok(Gvdd::N4o30V),
            0x1E => Ok(Gvdd::N4o35V),
            0x1F => Ok(Gvdd::N4o40V),
            0x20 => Ok(Gvdd::N4o45V),
            0x21 => Ok(Gvdd::N4o50V),
            0x22 => Ok(Gvdd::N4o55V),
            0x23 => Ok(Gvdd::N4o60V),
            0x24 => Ok(Gvdd::N4o65V),
            0x25 => Ok(Gvdd::N4o70V),
            0x26 => Ok(Gvdd::N4o75V),
            0x27 => Ok(Gvdd::N4o80V),
            0x28 => Ok(Gvdd::N4o85V),
            0x29 => Ok(Gvdd::N4o90V),
            0x2A => Ok(Gvdd::N4o95V),
            0x2B => Ok(Gvdd::N5o00V),
            0x2C => Ok(Gvdd::N5o05V),
            0x2D => Ok(Gvdd::N5o10V),
            0x2E => Ok(Gvdd::N5o15V),
            0x2F => Ok(Gvdd::N5o20V),
            0x30 => Ok(Gvdd::N5o25V),
            0x31 => Ok(Gvdd::N5o30V),
            0x32 => Ok(Gvdd::N5o35V),
            0x33 => Ok(Gvdd::N5o40V),
            0x34 => Ok(Gvdd::N5o45V),
            0x35 => Ok(Gvdd::N5o50V),
            0x36 => Ok(Gvdd::N5o55V),
            0x37 => Ok(Gvdd::N5o60V),
            0x38 => Ok(Gvdd::N5o65V),
            0x39 => Ok(Gvdd::N5o70V),
            0x3A => Ok(Gvdd::N5o75V),
            0x3B => Ok(Gvdd::N5o80V),
            0x3C => Ok(Gvdd::N5o85V),
            0x3D => Ok(Gvdd::N5o90V),
            0x3E => Ok(Gvdd::N5o95V),
            0x3F => Ok(Gvdd::N6o00V),
            _ => Err(CodecError::UnrecognizedCode { code }),
        }
    }

    /// Decoding a variant's own code yields that variant back.
    #[verifier::rlimit(100)]
    pub proof fn lemma_code_roundtrip(self)
        ensures
            Self::spec_decode(self.spec_code()) == Ok::<Gvdd, CodecError>(self),
    {
    }
}

/// The single-byte parameter block of the `power-control1` command.
#[derive(Copy, Clone, Debug)]
pub struct PowerControl1 {
    pub data: [u8; 1],
}

impl PowerControl1 {
    /// The chip's post-reset value of this block.
    pub open spec fn spec_default() -> Seq<u8> {
        seq![0x21u8]
    }

    /// Borrow-free read view over a snapshot of the block.
    pub fn read(&self) -> (r: PowerControl1Read)
        ensures
            r.d.data@ == self.data@,
    {
        PowerControl1Read { d: *self }
    }

    /// Apply a builder transformation to this block and return the result.
    pub fn write<F: FnOnce(PowerControl1Write) -> PowerControl1Write>(self, f: F) -> (r: Self)
        requires
            call_requires(f, ((PowerControl1Write { d: self }),)),
        ensures
            call_ensures(f, ((PowerControl1Write { d: self }),), (PowerControl1Write { d: r })),
    {
        let w = f(PowerControl1Write { d: self });
        proof {
            assert((PowerControl1Write { d: w.d }) == w);
        }
        w.d
    }
}

impl Default for PowerControl1 {
    /// The block with the chip's documented post-reset byte pattern.
    fn default() -> (r: Self)
        ensures
            r.data@ == PowerControl1::spec_default(),
    {
        let r = PowerControl1 { data: [0x21] };
        proof {
            assert(r.data@ =~= PowerControl1::spec_default());
        }
        r
    }
}

/// Read view of [`PowerControl1`].
#[derive(Copy, Clone)]
pub struct PowerControl1Read {
    pub d: PowerControl1,
}

impl PowerControl1Read {
    /// `gvdd`: 6 bits at offset 0 of byte 0.
    pub fn gvdd(&self) -> (r: Result<Gvdd, CodecError>)
        ensures
            r == Gvdd::spec_decode(field_get(self.d.data@[0], 0, 6)),
    {
        Gvdd::from_code(extract_field(self.d.data[0], 0, 6))
    }
}

/// Write view of [`PowerControl1`].
#[derive(Copy, Clone)]
pub struct PowerControl1Write {
    pub d: PowerControl1,
}

impl PowerControl1Write {
    /// `gvdd`: written into 6 bits at offset 0 of byte 0; all other bits are kept.
    pub fn gvdd(self, w: Gvdd) -> (r: Self)
        ensures
            r.d.data@ == self.d.data@.update(
                0,
                field_set(self.d.data@[0], 0, 6, w.spec_code()),
            ),
    {
        let c = w.code();
        let mut d = self.d;
        d.data[0] = insert_field(d.data[0], 0, 6, c);
        PowerControl1Write { d }
    }
}

} // verus!
