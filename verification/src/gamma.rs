//! Parameter block of the `gamma` command: selects one of the chip's fixed
//! gamma correction curves.

use vstd::prelude::*;

use crate::error::CodecError;

verus! {

/// The documented codes of the `CurveSelected` field.
#[derive(Copy, Clone, Debug, PartialEq, Eq, Structural)]
pub enum CurveSelected {
    GammaCurve1G2o2,
}

impl CurveSelected {
    /// The wire code of this variant.
    pub open spec fn spec_code(self) -> u8 {
        match self {
            CurveSelected::GammaCurve1G2o2 => 0x01,
        }
    }

    /// The variant for a wire code, or a decode error for a code outside
    /// the documented mapping.
    pub open spec fn spec_decode(code: u8) -> Result<CurveSelected, CodecError> {
        if code == 0x01 {
            Ok(CurveSelected::GammaCurve1G2o2)
        } else {
            Err(CodecError::UnrecognizedCode { code })
        }
    }

    /// The wire code of this variant.
    pub fn code(self) -> (r: u8)
        ensures
            r == self.spec_code(),
    {
        match self {
            CurveSelected::GammaCurve1G2o2 => 0x01,
        }
    }

    /// Decode a wire code; a code outside the documented mapping is a
    /// recoverable error, never coerced to a variant.
    pub fn from_code(code: u8) -> (r: Result<CurveSelected, CodecError>)
        ensures
            r == Self::spec_decode(code),
    {
        match code {
            0x01 => Ok(CurveSelected::GammaCurve1G2o2),
            _ => Err(CodecError::UnrecognizedCode { code }),
        }
    }

    /// Decoding a variant's own code yields that variant back.
    pub proof fn lemma_code_roundtrip(self)
        ensures
            Self::spec_decode(self.spec_code()) == Ok::<CurveSelected, CodecError>(self),
    {
    }
}

/// The single-byte parameter block of the `gamma` command.
#[derive(Copy, Clone, Debug)]
pub struct GammaSet {
    pub data: [u8; 1],
}

impl GammaSet {
    /// The chip's post-reset value of this block.
    pub open spec fn spec_default() -> Seq<u8> {
        seq![0x01u8]
    }

    /// Borrow-free read view over a snapshot of the block.
    pub fn read(&self) -> (r: GammaSetRead)
        ensures
            r.d.data@ == self.data@,
    {
        GammaSetRead { d: *self }
    }

    /// Apply a builder transformation to this block and return the result.
    pub fn write<F: FnOnce(GammaSetWrite) -> GammaSetWrite>(self, f: F) -> (r: Self)
        requires
            call_requires(f, ((GammaSetWrite { d: self }),)),
        ensures
            call_ensures(f, ((GammaSetWrite { d: self }),), (GammaSetWrite { d: r })),
    {
        let w = f(GammaSetWrite { d: self });
        proof {
            assert((GammaSetWrite { d: w.d }) == w);
        }
        w.d
    }
}

impl Default for GammaSet {
    /// The block with the chip's documented post-reset byte pattern.
    fn default() -> (r: Self)
        ensures
            r.data@ == GammaSet::spec_default(),
    {
        let r = GammaSet { data: [0x01] };
        proof {
            assert(r.data@ =~= GammaSet::spec_default());
        }
        r
    }
}

/// Read view of [`GammaSet`].
#[derive(Copy, Clone)]
pub struct GammaSetRead {
    pub d: GammaSet,
}

impl GammaSetRead {
    /// `curve_selected`: the whole of byte 0.
    pub fn curve_selected(&self) -> (r: Result<CurveSelected, CodecError>)
        ensures
            r == CurveSelected::spec_decode(self.d.data@[0]),
    {
        CurveSelected::from_code(self.d.data[0])
    }
}

/// Write view of [`GammaSet`].
#[derive(Copy, Clone)]
pub struct GammaSetWrite {
    pub d: GammaSet,
}

impl GammaSetWrite {
    /// `curve_selected`: written into byte 0; all other bits are kept.
    pub fn curve_selected(self, w: CurveSelected) -> (r: Self)
        ensures
            r.d.data@ == self.d.data@.update(0, w.spec_code()),
    {
        let c = w.code();
        let mut d = self.d;
        d.data[0] = c;
        GammaSetWrite { d }
    }
}

} // verus!
