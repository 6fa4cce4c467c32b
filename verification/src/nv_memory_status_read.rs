//! Parameter block of the `nv-memory-status-read` command: the NV-memory program
//! counts and the busy flag.

use vstd::prelude::*;

use crate::bits::extract_field;
use crate::bits::field_get;
use crate::bits::field_set;
use crate::bits::insert_field;
use crate::error::CodecError;

verus! {

/// The documented codes of the `Id2WriteCount` field.
#[derive(Copy, Clone, Debug, PartialEq, Eq, Structural)]
pub enum Id2WriteCount {
    NoProgrammed,
    Programmed1Time,
    Programmed2Times,
    Programmed3Times,
}

impl Id2WriteCount {
    /// The wire code of this variant.
    pub open spec fn spec_code(self) -> u8 {
        match self {
            Id2WriteCount::NoProgrammed => 0x00,
            Id2WriteCount::Programmed1Time => 0x01,
            Id2WriteCount::Programmed2Times => 0x03,
            Id2WriteCount::Programmed3Times => 0x07,
        }
    }

    /// The variant for a wire code, or a decode error for a code outside
    /// the documented mapping.
    pub open spec fn spec_decode(code: u8) -> Result<Id2WriteCount, CodecError> {
        if code == 0x00 {
            Ok(Id2WriteCount::NoProgrammed)
        } else if code == 0x01 {
            Ok(Id2WriteCount::Programmed1Time)
        } else if code == 0x03 {
            Ok(Id2WriteCount::Programmed2Times)
        } else if code == 0x07 {
            Ok(Id2WriteCount::Programmed3Times)
        } else {
            Err(CodecError::UnrecognizedCode { code })
        }
    }

    /// The wire code of this variant.
    pub fn code(self) -> (r: u8)
        ensures
            r == self.spec_code(),
    {
        match self {
            Id2WriteCount::NoProgrammed => 0x00,
            Id2WriteCount::Programmed1Time => 0x01,
            Id2WriteCount::Programmed2Times => 0x03,
            Id2WriteCount::Programmed3Times => 0x07,
        }
    }

    /// Decode a wire code; a code outside the documented mapping is a
    /// recoverable error, never coerced to a variant.
    pub fn from_code(code: u8) -> (r: Result<Id2WriteCount, CodecError>)
        ensures
            r == Self::spec_decode(code),
    {
        match code {
            0x00 => Ok(Id2WriteCount::NoProgrammed),
            0x01 => Ok(Id2WriteCount::Programmed1Time),
            0x03 => Ok(Id2WriteCount::Programmed2Times),
            0x07 => Ok(Id2WriteCount::Programmed3Times),
            _ => Err(CodecError::UnrecognizedCode { code }),
        }
    }

    /// Decoding a variant's own code yields that variant back.
    pub proof fn lemma_code_roundtrip(self)
        ensures
            Self::spec_decode(self.spec_code()) == Ok::<Id2WriteCount, CodecError>(self),
    {
    }
}

/// The documented codes of the `Id1WriteCount` field.
#[derive(Copy, Clone, Debug, PartialEq, Eq, Structural)]
pub enum Id1WriteCount {
    NoProgrammed,
    Programmed1Time,
    Programmed2Times,
    Programmed3Times,
}

impl Id1WriteCount {
    /// The wire code of this variant.
    pub open spec fn spec_code(self) -> u8 {
        match self {
            Id1WriteCount::NoProgrammed => 0x00,
            Id1WriteCount::Programmed1Time => 0x01,
            Id1WriteCount::Programmed2Times => 0x03,
            Id1WriteCount::Programmed3Times => 0x07,
        }
    }

    /// The variant for a wire code, or a decode error for a code outside
    /// the documented mapping.
    pub open spec fn spec_decode(code: u8) -> Result<Id1WriteCount, CodecError> {
        if code == 0x00 {
            Ok(Id1WriteCount::NoProgrammed)
        } else if code == 0x01 {
            Ok(Id1WriteCount::Programmed1Time)
        } else if code == 0x03 {
            Ok(Id1WriteCount::Programmed2Times)
        } else if code == 0x07 {
            Ok(Id1WriteCount::Programmed3Times)
        } else {
            Err(CodecError::UnrecognizedCode { code })
        }
    }

    /// The wire code of this variant.
    pub fn code(self) -> (r: u8)
        ensures
            r == self.spec_code(),
    {
        match self {
            Id1WriteCount::NoProgrammed => 0x00,
            Id1WriteCount::Programmed1Time => 0x01,
            Id1WriteCount::Programmed2Times => 0x03,
            Id1WriteCount::Programmed3Times => 0x07,
        }
    }

    /// Decode a wire code; a code outside the documented mapping is a
    /// recoverable error, never coerced to a variant.
    pub fn from_code(code: u8) -> (r: Result<Id1WriteCount, CodecError>)
        ensures
            r == Self::spec_decode(code),
    {
        match code {
            0x00 => Ok(Id1WriteCount::NoProgrammed),
            0x01 => Ok(Id1WriteCount::Programmed1Time),
            0x03 => Ok(Id1WriteCount::Programmed2Times),
            0x07 => Ok(Id1WriteCount::Programmed3Times),
            _ => Err(CodecError::UnrecognizedCode { code }),
        }
    }

    /// Decoding a variant's own code yields that variant back.
    pub proof fn lemma_code_roundtrip(self)
        ensures
            Self::spec_decode(self.spec_code()) == Ok::<Id1WriteCount, CodecError>(self),
    {
    }
}

/// The documented codes of the `TheStatusOfNvMemory` field.
#[derive(Copy, Clone, Debug, PartialEq, Eq, Structural)]
pub enum TheStatusOfNvMemory {
    Busy,
}

impl TheStatusOfNvMemory {
    /// The wire code of this variant.
    pub open spec fn spec_code(self) -> u8 {
        match self {
            TheStatusOfNvMemory::Busy => 0x01,
        }
    }

    /// The variant for a wire code, or a decode error for a code outside
    /// the documented mapping.
    pub open spec fn spec_decode(code: u8) -> Result<TheStatusOfNvMemory, CodecError> {
        if code == 0x01 {
            Ok(TheStatusOfNvMemory::Busy)
        } else {
            Err(CodecError::UnrecognizedCode { code })
        }
    }

    /// The wire code of this variant.
    pub fn code(self) -> (r: u8)
        ensures
            r == self.spec_code(),
    {
        match self {
            TheStatusOfNvMemory::Busy => 0x01,
        }
    }

    /// Decode a wire code; a code outside the documented mapping is a
    /// recoverable error, never coerced to a variant.
    pub fn from_code(code: u8) -> (r: Result<TheStatusOfNvMemory, CodecError>)
        ensures
            r == Self::spec_decode(code),
    {
        match code {
            0x01 => Ok(TheStatusOfNvMemory::Busy),
            _ => Err(CodecError::UnrecognizedCode { code }),
        }
    }

    /// Decoding a variant's own code yields that variant back.
    pub proof fn lemma_code_roundtrip(self)
        ensures
            Self::spec_decode(self.spec_code()) == Ok::<TheStatusOfNvMemory, CodecError>(self),
    {
    }
}

/// The documented codes of the `VmfWriteCount` field.
#[derive(Copy, Clone, Debug, PartialEq, Eq, Structural)]
pub enum VmfWriteCount {
    NoProgrammed,
    Programmed1Time,
    Programmed2Times,
    Programmed3Times,
}

impl VmfWriteCount {
    /// The wire code of this variant.
    pub open spec fn spec_code(self) -> u8 {
        match self {
            VmfWriteCount::NoProgrammed => 0x00,
            VmfWriteCount::Programmed1Time => 0x01,
            VmfWriteCount::Programmed2Times => 0x03,
            VmfWriteCount::Programmed3Times => 0x07,
        }
    }

    /// The variant for a wire code, or a decode error for a code outside
    /// the documented mapping.
    pub open spec fn spec_decode(code: u8) -> Result<VmfWriteCount, CodecError> {
        if code == 0x00 {
            Ok(VmfWriteCount::NoProgrammed)
        } else if code == 0x01 {
            Ok(VmfWriteCount::Programmed1Time)
        } else if code == 0x03 {
            Ok(VmfWriteCount::Programmed2Times)
        } else if code == 0x07 {
            Ok(VmfWriteCount::Programmed3Times)
        } else {
            Err(CodecError::UnrecognizedCode { code })
        }
    }

    /// The wire code of this variant.
    pub fn code(self) -> (r: u8)
        ensures
            r == self.spec_code(),
    {
        match self {
            VmfWriteCount::NoProgrammed => 0x00,
            VmfWriteCount::Programmed1Time => 0x01,
            VmfWriteCount::Programmed2Times => 0x03,
            VmfWriteCount::Programmed3Times => 0x07,
        }
    }

    /// Decode a wire code; a code outside the documented mapping is a
    /// recoverable error, never coerced to a variant.
    pub fn from_code(code: u8) -> (r: Result<VmfWriteCount, CodecError>)
        ensures
            r == Self::spec_decode(code),
    {
        match code {
            0x00 => Ok(VmfWriteCount::NoProgrammed),
            0x01 => Ok(VmfWriteCount::Programmed1Time),
            0x03 => Ok(VmfWriteCount::Programmed2Times),
            0x07 => Ok(VmfWriteCount::Programmed3Times),
            _ => Err(CodecError::UnrecognizedCode { code }),
        }
    }

    /// Decoding a variant's own code yields that variant back.
    pub proof fn lemma_code_roundtrip(self)
        ensures
            Self::spec_decode(self.spec_code()) == Ok::<VmfWriteCount, CodecError>(self),
    {
    }
}

/// The documented codes of the `Id3WriteCount` field.
#[derive(Copy, Clone, Debug, PartialEq, Eq, Structural)]
pub enum Id3WriteCount {
    NoProgrammed,
    Programmed1Time,
    Programmed2Times,
    Programmed3Times,
}

impl Id3WriteCount {
    /// The wire code of this variant.
    pub open spec fn spec_code(self) -> u8 {
        match self {
            Id3WriteCount::NoProgrammed => 0x00,
            Id3WriteCount::Programmed1Time => 0x01,
            Id3WriteCount::Programmed2Times => 0x03,
            Id3WriteCount::Programmed3Times => 0x07,
        }
    }

    /// The variant for a wire code, or a decode error for a code outside
    /// the documented mapping.
    pub open spec fn spec_decode(code: u8) -> Result<Id3WriteCount, CodecError> {
        if code == 0x00 {
            Ok(Id3WriteCount::NoProgrammed)
        } else if code == 0x01 {
            Ok(Id3WriteCount::Programmed1Time)
        } else if code == 0x03 {
            Ok(Id3WriteCount::Programmed2Times)
        } else if code == 0x07 {
            Ok(Id3WriteCount::Programmed3Times)
        } else {
            Err(CodecError::UnrecognizedCode { code })
        }
    }

    /// The wire code of this variant.
    pub fn code(self) -> (r: u8)
        ensures
            r == self.spec_code(),
    {
        match self {
            Id3WriteCount::NoProgrammed => 0x00,
            Id3WriteCount::Programmed1Time => 0x01,
            Id3WriteCount::Programmed2Times => 0x03,
            Id3WriteCount::Programmed3Times => 0x07,
        }
    }

    /// Decode a wire code; a code outside the documented mapping is a
    /// recoverable error, never coerced to a variant.
    pub fn from_code(code: u8) -> (r: Result<Id3WriteCount, CodecError>)
        ensures
            r == Self::spec_decode(code),
    {
        match code {
            0x00 => Ok(Id3WriteCount::NoProgrammed),
            0x01 => Ok(Id3WriteCount::Programmed1Time),
            0x03 => Ok(Id3WriteCount::Programmed2Times),
            0x07 => Ok(Id3WriteCount::Programmed3Times),
            _ => Err(CodecError::UnrecognizedCode { code }),
        }
    }

    /// Decoding a variant's own code yields that variant back.
    pub proof fn lemma_code_roundtrip(self)
        ensures
            Self::spec_decode(self.spec_code()) == Ok::<Id3WriteCount, CodecError>(self),
    {
    }
}

/// The 2-byte parameter block of the `nv-memory-status-read` command.
#[derive(Copy, Clone, Debug)]
pub struct NvMemoryStatus {
    pub data: [u8; 2],
}

impl NvMemoryStatus {
    /// The chip's post-reset value of this block.
    pub open spec fn spec_default() -> Seq<u8> {
        seq![0x00u8, 0x00u8]
    }

    /// Borrow-free read view over a snapshot of the block.
    pub fn read(&self) -> (r: NvMemoryStatusRead)
        ensures
            r.d.data@ == self.data@,
    {
        NvMemoryStatusRead { d: *self }
    }

    /// Apply a builder transformation to this block and return the result.
    pub fn write<F: FnOnce(NvMemoryStatusWrite) -> NvMemoryStatusWrite>(self, f: F) -> (r: Self)
        requires
            call_requires(f, ((NvMemoryStatusWrite { d: self }),)),
        ensures
            call_ensures(f, ((NvMemoryStatusWrite { d: self }),), (NvMemoryStatusWrite { d: r })),
    {
        let w = f(NvMemoryStatusWrite { d: self });
        proof {
            assert((NvMemoryStatusWrite { d: w.d }) == w);
        }
        w.d
    }
}

impl Default for NvMemoryStatus {
    /// The block with the chip's documented post-reset byte pattern.
    fn default() -> (r: Self)
        ensures
            r.data@ == NvMemoryStatus::spec_default(),
    {
        let r = NvMemoryStatus { data: [0x00, 0x00] };
        proof {
            assert(r.data@ =~= NvMemoryStatus::spec_default());
        }
        r
    }
}

/// Read view of [`NvMemoryStatus`].
#[derive(Copy, Clone)]
pub struct NvMemoryStatusRead {
    pub d: NvMemoryStatus,
}

impl NvMemoryStatusRead {
    /// `id2_write_count`: 3 bits at offset 4 of byte 0.
    pub fn id2_write_count(&self) -> (r: Result<Id2WriteCount, CodecError>)
        ensures
            r == Id2WriteCount::spec_decode(field_get(self.d.data@[0], 4, 3)),
    {
        Id2WriteCount::from_code(extract_field(self.d.data[0], 4, 3))
    }

    /// `id1_write_count`: 3 bits at offset 0 of byte 0.
    pub fn id1_write_count(&self) -> (r: Result<Id1WriteCount, CodecError>)
        ensures
            r == Id1WriteCount::spec_decode(field_get(self.d.data@[0], 0, 3)),
    {
        Id1WriteCount::from_code(extract_field(self.d.data[0], 0, 3))
    }

    /// `the_status_of_nv_memory`: 1 bit at offset 7 of byte 1.
    pub fn the_status_of_nv_memory(&self) -> (r: Result<TheStatusOfNvMemory, CodecError>)
        ensures
            r == TheStatusOfNvMemory::spec_decode(field_get(self.d.data@[1], 7, 1)),
    {
        TheStatusOfNvMemory::from_code(extract_field(self.d.data[1], 7, 1))
    }

    /// `vmf_write_count`: 3 bits at offset 4 of byte 1.
    pub fn vmf_write_count(&self) -> (r: Result<VmfWriteCount, CodecError>)
        ensures
            r == VmfWriteCount::spec_decode(field_get(self.d.data@[1], 4, 3)),
    {
        VmfWriteCount::from_code(extract_field(self.d.data[1], 4, 3))
    }

    /// `id3_write_count`: 3 bits at offset 0 of byte 1.
    pub fn id3_write_count(&self) -> (r: Result<Id3WriteCount, CodecError>)
        ensures
            r == Id3WriteCount::spec_decode(field_get(self.d.data@[1], 0, 3)),
    {
        Id3WriteCount::from_code(extract_field(self.d.data[1], 0, 3))
    }
}

/// Write view of [`NvMemoryStatus`].
#[derive(Copy, Clone)]
pub struct NvMemoryStatusWrite {
    pub d: NvMemoryStatus,
}

impl NvMemoryStatusWrite {
    /// `id2_write_count`: written into 3 bits at offset 4 of byte 0; all other bits are kept.
    pub fn id2_write_count(self, w: Id2WriteCount) -> (r: Self)
        ensures
            r.d.data@ == self.d.data@.update(
                0,
                field_set(self.d.data@[0], 4, 3, w.spec_code()),
            ),
    {
        let c = w.code();
        let mut d = self.d;
        d.data[0] = insert_field(d.data[0], 4, 3, c);
        NvMemoryStatusWrite { d }
    }

    /// `id1_write_count`: written into 3 bits at offset 0 of byte 0; all other bits are kept.
    pub fn id1_write_count(self, w: Id1WriteCount) -> (r: Self)
        ensures
            r.d.data@ == self.d.data@.update(
                0,
                field_set(self.d.data@[0], 0, 3, w.spec_code()),
            ),
    {
        let c = w.code();
        let mut d = self.d;
        d.data[0] = insert_field(d.data[0], 0, 3, c);
        NvMemoryStatusWrite { d }
    }

    /// `the_status_of_nv_memory`: written into 1 bit at offset 7 of byte 1; all other bits are kept.
    pub fn the_status_of_nv_memory(self, w: TheStatusOfNvMemory) -> (r: Self)
        ensures
            r.d.data@ == self.d.data@.update(
                1,
                field_set(self.d.data@[1], 7, 1, w.spec_code()),
            ),
    {
        let c = w.code();
        let mut d = self.d;
        d.data[1] = insert_field(d.data[1], 7, 1, c);
        NvMemoryStatusWrite { d }
    }

    /// `vmf_write_count`: written into 3 bits at offset 4 of byte 1; all other bits are kept.
    pub fn vmf_write_count(self, w: VmfWriteCount) -> (r: Self)
        ensures
            r.d.data@ == self.d.data@.update(
                1,
                field_set(self.d.data@[1], 4, 3, w.spec_code()),
            ),
    {
        let c = w.code();
        let mut d = self.d;
        d.data[1] = insert_field(d.data[1], 4, 3, c);
        NvMemoryStatusWrite { d }
    }

    /// `id3_write_count`: written into 3 bits at offset 0 of byte 1; all other bits are kept.
    pub fn id3_write_count(self, w: Id3WriteCount) -> (r: Self)
        ensures
            r.d.data@ == self.d.data@.update(
                1,
                field_set(self.d.data@[1], 0, 3, w.spec_code()),
            ),
    {
        let c = w.code();
        let mut d = self.d;
        d.data[1] = insert_field(d.data[1], 0, 3, c);
        NvMemoryStatusWrite { d }
    }
}

} // verus!
