//! Parameter block of the `nv-memory-write` command: the NV-memory program target
//! selection and the byte to program.

use vstd::prelude::*;

use crate::bits::extract_field;
use crate::bits::field_get;
use crate::bits::field_set;
use crate::bits::insert_field;
use crate::error::CodecError;

verus! {

/// The documented codes of the `ProgrammedNvMemorySelection` field.
#[derive(Copy, Clone, Debug, PartialEq, Eq, Structural)]
pub enum ProgrammedNvMemorySelection {
    Id1Programming,
    Id2Programming,
    Id3Programming,
    Vmf60Programming,
}

impl ProgrammedNvMemorySelection {
    /// The wire code of this variant.
    pub open spec fn spec_code(self) -> u8 {
        match self {
            ProgrammedNvMemorySelection::Id1Programming => 0x00,
            ProgrammedNvMemorySelection::Id2Programming => 0x01,
            ProgrammedNvMemorySelection::Id3Programming => 0x02,
            ProgrammedNvMemorySelection::Vmf60Programming => 0x04,
        }
    }

    /// The variant for a wire code, or a decode error for a code outside
    /// the documented mapping.
    pub open spec fn spec_decode(code: u8) -> Result<ProgrammedNvMemorySelection, CodecError> {
        if code == 0x00 {
            Ok(ProgrammedNvMemorySelection::Id1Programming)
        } else if code == 0x01 {
            Ok(ProgrammedNvMemorySelection::Id2Programming)
        } else if code == 0x02 {
            Ok(ProgrammedNvMemorySelection::Id3Programming)
        } else if code == 0x04 {
            Ok(ProgrammedNvMemorySelection::Vmf60Programming)
        } else {
            Err(CodecError::UnrecognizedCode { code })
        }
    }

    /// The wire code of this variant.
    pub fn code(self) -> (r: u8)
        ensures
            r == self.spec_code(),
    {
        match self {
            ProgrammedNvMemorySelection::Id1Programming => 0x00,
            ProgrammedNvMemorySelection::Id2Programming => 0x01,
            ProgrammedNvMemorySelection::Id3Programming => 0x02,
            ProgrammedNvMemorySelection::Vmf60Programming => 0x04,
        }
    }

    /// Decode a wire code; a code outside the documented mapping is a
    /// recoverable error, never coerced to a variant.
    pub fn from_code(code: u8) -> (r: Result<ProgrammedNvMemorySelection, CodecError>)
        ensures
            r == Self::spec_decode(code),
    {
        match code {
            0x00 => Ok(ProgrammedNvMemorySelection::Id1Programming),
            0x01 => Ok(ProgrammedNvMemorySelection::Id2Programming),
            0x02 => Ok(ProgrammedNvMemorySelection::Id3Programming),
            0x04 => Ok(ProgrammedNvMemorySelection::Vmf60Programming),
            _ => Err(CodecError::UnrecognizedCode { code }),
        }
    }

    /// Decoding a variant's own code yields that variant back.
    pub proof fn lemma_code_roundtrip(self)
        ensures
            Self::spec_decode(self.spec_code()) == Ok::<ProgrammedNvMemorySelection, CodecError>(self),
    {
    }
}

/// The 2-byte parameter block of the `nv-memory-write` command.
#[derive(Copy, Clone, Debug)]
pub struct NvMemory {
    pub data: [u8; 2],
}

impl NvMemory {
    /// The chip's post-reset value of this block.
    pub open spec fn spec_default() -> Seq<u8> {
        seq![0x00u8, 0x00u8]
    }

    /// Borrow-free read view over a snapshot of the block.
    pub fn read(&self) -> (r: NvMemoryRead)
        ensures
            r.d.data@ == self.data@,
    {
        NvMemoryRead { d: *self }
    }

    /// Apply a builder transformation to this block and return the result.
    pub fn write<F: FnOnce(NvMemoryWrite) -> NvMemoryWrite>(self, f: F) -> (r: Self)
        requires
            call_requires(f, ((NvMemoryWrite { d: self }),)),
        ensures
            call_ensures(f, ((NvMemoryWrite { d: self }),), (NvMemoryWrite { d: r })),
    {
        let w = f(NvMemoryWrite { d: self });
        proof {
            assert((NvMemoryWrite { d: w.d }) == w);
        }
        w.d
    }
}

impl Default for NvMemory {
    /// The block with the chip's documented post-reset byte pattern.
    fn default() -> (r: Self)
        ensures
            r.data@ == NvMemory::spec_default(),
    {
        let r = NvMemory { data: [0x00, 0x00] };
        proof {
            assert(r.data@ =~= NvMemory::spec_default());
        }
        r
    }
}

/// Read view of [`NvMemory`].
#[derive(Copy, Clone)]
pub struct NvMemoryRead {
    pub d: NvMemory,
}

impl NvMemoryRead {
    /// `programmed_nv_memory_selection`: 3 bits at offset 0 of byte 0.
    pub fn programmed_nv_memory_selection(&self) -> (r: Result<ProgrammedNvMemorySelection, CodecError>)
        ensures
            r == ProgrammedNvMemorySelection::spec_decode(field_get(self.d.data@[0], 0, 3)),
    {
        ProgrammedNvMemorySelection::from_code(extract_field(self.d.data[0], 0, 3))
    }

    /// `the_programmed_data`: the whole of byte 1.
    pub fn the_programmed_data(&self) -> (r: u8)
        ensures
            r == self.d.data@[1],
    {
        self.d.data[1]
    }
}

/// Write view of [`NvMemory`].
#[derive(Copy, Clone)]
pub struct NvMemoryWrite {
    pub d: NvMemory,
}

impl NvMemoryWrite {
    /// `programmed_nv_memory_selection`: written into 3 bits at offset 0 of byte 0; all other bits are kept.
    pub fn programmed_nv_memory_selection(self, w: ProgrammedNvMemorySelection) -> (r: Self)
        ensures
            r.d.data@ == self.d.data@.update(
                0,
                field_set(self.d.data@[0], 0, 3, w.spec_code()),
            ),
    {
        let c = w.code();
        let mut d = self.d;
        d.data[0] = insert_field(d.data[0], 0, 3, c);
        NvMemoryWrite { d }
    }

    /// `the_programmed_data`: written into byte 1; all other bits are kept.
    pub fn the_programmed_data(self, w: u8) -> (r: Self)
        ensures
            r.d.data@ == self.d.data@.update(1, w),
    {
        let mut d = self.d;
        d.data[1] = w;
        NvMemoryWrite { d }
    }
}

} // verus!
