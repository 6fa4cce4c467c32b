//! Parameter block of the `read-display-image-format` command: the gamma curve in use.

use vstd::prelude::*;

use crate::bits::extract_field;
use crate::bits::field_get;
use crate::bits::field_set;
use crate::bits::insert_field;
use crate::error::CodecError;

verus! {

/// The documented codes of the `GammaCurveSelection` field.
#[derive(Copy, Clone, Debug, PartialEq, Eq, Structural)]
pub enum GammaCurveSelection {
    GammaCurve1G2o2,
}

impl GammaCurveSelection {
    /// The wire code of this variant.
    pub open spec fn spec_code(self) -> u8 {
        match self {
            GammaCurveSelection::GammaCurve1G2o2 => 0x00,
        }
    }

    /// The variant for a wire code, or a decode error for a code outside
    /// the documented mapping.
    pub open spec fn spec_decode(code: u8) -> Result<GammaCurveSelection, CodecError> {
        if code == 0x00 {
            Ok(GammaCurveSelection::GammaCurve1G2o2)
        } else {
            Err(CodecError::UnrecognizedCode { code })
        }
    }

    /// The wire code of this variant.
    pub fn code(self) -> (r: u8)
        ensures
            r == self.spec_code(),
    {
        match self {
            GammaCurveSelection::GammaCurve1G2o2 => 0x00,
        }
    }

    /// Decode a wire code; a code outside the documented mapping is a
    /// recoverable error, never coerced to a variant.
    pub fn from_code(code: u8) -> (r: Result<GammaCurveSelection, CodecError>)
        ensures
            r == Self::spec_decode(code),
    {
        match code {
            0x00 => Ok(GammaCurveSelection::GammaCurve1G2o2),
            _ => Err(CodecError::UnrecognizedCode { code }),
        }
    }

    /// Decoding a variant's own code yields that variant back.
    pub proof fn lemma_code_roundtrip(self)
        ensures
            Self::spec_decode(self.spec_code()) == Ok::<GammaCurveSelection, CodecError>(self),
    {
    }
}

/// The single-byte parameter block of the `read-display-image-format` command.
#[derive(Copy, Clone, Debug)]
pub struct DisplayImageFormat {
    pub data: [u8; 1],
}

impl DisplayImageFormat {
    /// The chip's post-reset value of this block.
    pub open spec fn spec_default() -> Seq<u8> {
        seq![0x00u8]
    }

    /// Borrow-free read view over a snapshot of the block.
    pub fn read(&self) -> (r: DisplayImageFormatRead)
        ensures
            r.d.data@ == self.data@,
    {
        DisplayImageFormatRead { d: *self }
    }

    /// Apply a builder transformation to this block and return the result.
    pub fn write<F: FnOnce(DisplayImageFormatWrite) -> DisplayImageFormatWrite>(self, f: F) -> (r: Self)
        requires
            call_requires(f, ((DisplayImageFormatWrite { d: self }),)),
        ensures
            call_ensures(f, ((DisplayImageFormatWrite { d: self }),), (DisplayImageFormatWrite { d: r })),
    {
        let w = f(DisplayImageFormatWrite { d: self });
        proof {
            assert((DisplayImageFormatWrite { d: w.d }) == w);
        }
        w.d
    }
}

impl Default for DisplayImageFormat {
    /// The block with the chip's documented post-reset byte pattern.
    fn default() -> (r: Self)
        ensures
            r.data@ == DisplayImageFormat::spec_default(),
    {
        let r = DisplayImageFormat { data: [0x00] };
        proof {
            assert(r.data@ =~= DisplayImageFormat::spec_default());
        }
        r
    }
}

/// Read view of [`DisplayImageFormat`].
#[derive(Copy, Clone)]
pub struct DisplayImageFormatRead {
    pub d: DisplayImageFormat,
}

impl DisplayImageFormatRead {
    /// `gamma_curve_selection`: 3 bits at offset 0 of byte 0.
    pub fn gamma_curve_selection(&self) -> (r: Result<GammaCurveSelection, CodecError>)
        ensures
            r == GammaCurveSelection::spec_decode(field_get(self.d.data@[0], 0, 3)),
    {
        GammaCurveSelection::from_code(extract_field(self.d.data[0], 0, 3))
    }
}

/// Write view of [`DisplayImageFormat`].
#[derive(Copy, Clone)]
pub struct DisplayImageFormatWrite {
    pub d: DisplayImageFormat,
}

impl DisplayImageFormatWrite {
    /// `gamma_curve_selection`: written into 3 bits at offset 0 of byte 0; all other bits are kept.
    pub fn gamma_curve_selection(self, w: GammaCurveSelection) -> (r: Self)
        ensures
            r.d.data@ == self.d.data@.update(
                0,
                field_set(self.d.data@[0], 0, 3, w.spec_code()),
            ),
    {
        let c = w.code();
        let mut d = self.d;
        d.data[0] = insert_field(d.data[0], 0, 3, c);
        DisplayImageFormatWrite { d }
    }
}

} // verus!
