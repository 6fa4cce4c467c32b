//! Parameter block of the `pixel-format` command: the pixel format of the RGB and
//! MCU interfaces.

use vstd::prelude::*;

use crate::bits::extract_field;
use crate::bits::field_get;
use crate::bits::field_set;
use crate::bits::insert_field;
use crate::error::CodecError;

verus! {

/// The documented codes of the `RgbInterfaceFormat` field.
#[derive(Copy, Clone, Debug, PartialEq, Eq, Structural)]
pub enum RgbInterfaceFormat {
    N16Bits,
    N18Bits,
}

impl RgbInterfaceFormat {
    /// The wire code of this variant.
    pub open spec fn spec_code(self) -> u8 {
        match self {
            RgbInterfaceFormat::N16Bits => 0x05,
            RgbInterfaceFormat::N18Bits => 0x06,
        }
    }

    /// The variant for a wire code, or a decode error for a code outside
    /// the documented mapping.
    pub open spec fn spec_decode(code: u8) -> Result<RgbInterfaceFormat, CodecError> {
        if code == 0x05 {
            Ok(RgbInterfaceFormat::N16Bits)
        } else if code == 0x06 {
            Ok(RgbInterfaceFormat::N18Bits)
        } else {
            Err(CodecError::UnrecognizedCode { code })
        }
    }

    /// The wire code of this variant.
    pub fn code(self) -> (r: u8)
        ensures
            r == self.spec_code(),
    {
        match self {
            RgbInterfaceFormat::N16Bits => 0x05,
            RgbInterfaceFormat::N18Bits => 0x06,
        }
    }

    /// Decode a wire code; a code outside the documented mapping is a
    /// recoverable error, never coerced to a variant.
    pub fn from_code(code: u8) -> (r: Result<RgbInterfaceFormat, CodecError>)
        ensures
            r == Self::spec_decode(code),
    {
        match code {
            0x05 => Ok(RgbInterfaceFormat::N16Bits),
            0x06 => Ok(RgbInterfaceFormat::N18Bits),
            _ => Err(CodecError::UnrecognizedCode { code }),
        }
    }

    /// Decoding a variant's own code yields that variant back.
    pub proof fn lemma_code_roundtrip(self)
        ensures
            Self::spec_decode(self.spec_code()) == Ok::<RgbInterfaceFormat, CodecError>(self),
    {
    }
}

/// The documented codes of the `McuInterfaceFormat` field.
#[derive(Copy, Clone, Debug, PartialEq, Eq, Structural)]
pub enum McuInterfaceFormat {
    N16Bits,
    N18Bits,
}

impl McuInterfaceFormat {
    /// The wire code of this variant.
    pub open spec fn spec_code(self) -> u8 {
        match self {
            McuInterfaceFormat::N16Bits => 0x05,
            McuInterfaceFormat::N18Bits => 0x06,
        }
    }

    /// The variant for a wire code, or a decode error for a code outside
    /// the documented mapping.
    pub open spec fn spec_decode(code: u8) -> Result<McuInterfaceFormat, CodecError> {
        if code == 0x05 {
            Ok(McuInterfaceFormat::N16Bits)
        } else if code == 0x06 {
            Ok(McuInterfaceFormat::N18Bits)
        } else {
            Err(CodecError::UnrecognizedCode { code })
        }
    }

    /// The wire code of this variant.
    pub fn code(self) -> (r: u8)
        ensures
            r == self.spec_code(),
    {
        match self {
            McuInterfaceFormat::N16Bits => 0x05,
            McuInterfaceFormat::N18Bits => 0x06,
        }
    }

    /// Decode a wire code; a code outside the documented mapping is a
    /// recoverable error, never coerced to a variant.
    pub fn from_code(code: u8) -> (r: Result<McuInterfaceFormat, CodecError>)
        ensures
            r == Self::spec_decode(code),
    {
        match code {
            0x05 => Ok(McuInterfaceFormat::N16Bits),
            0x06 => Ok(McuInterfaceFormat::N18Bits),
            _ => Err(CodecError::UnrecognizedCode { code }),
        }
    }

    /// Decoding a variant's own code yields that variant back.
    pub proof fn lemma_code_roundtrip(self)
        ensures
            Self::spec_decode(self.spec_code()) == Ok::<McuInterfaceFormat, CodecError>(self),
    {
    }
}

/// The single-byte parameter block of the `pixel-format` command.
#[derive(Copy, Clone, Debug)]
pub struct PixelFormatSet {
    pub data: [u8; 1],
}

impl PixelFormatSet {
    /// The chip's post-reset value of this block.
    pub open spec fn spec_default() -> Seq<u8> {
        seq![0x66u8]
    }

    /// Borrow-free read view over a snapshot of the block.
    pub fn read(&self) -> (r: PixelFormatSetRead)
        ensures
            r.d.data@ == self.data@,
    {
        PixelFormatSetRead { d: *self }
    }

    /// Apply a builder transformation to this block and return the result.
    pub fn write<F: FnOnce(PixelFormatSetWrite) -> PixelFormatSetWrite>(self, f: F) -> (r: Self)
        requires
            call_requires(f, ((PixelFormatSetWrite { d: self }),)),
        ensures
            call_ensures(f, ((PixelFormatSetWrite { d: self }),), (PixelFormatSetWrite { d: r })),
    {
        let w = f(PixelFormatSetWrite { d: self });
        proof {
            assert((PixelFormatSetWrite { d: w.d }) == w);
        }
        w.d
    }
}

impl Default for PixelFormatSet {
    /// The block with the chip's documented post-reset byte pattern.
    fn default() -> (r: Self)
        ensures
            r.data@ == PixelFormatSet::spec_default(),
    {
        let r = PixelFormatSet { data: [0x66] };
        proof {
            assert(r.data@ =~= PixelFormatSet::spec_default());
        }
        r
    }
}

/// Read view of [`PixelFormatSet`].
#[derive(Copy, Clone)]
pub struct PixelFormatSetRead {
    pub d: PixelFormatSet,
}

impl PixelFormatSetRead {
    /// `rgb_interface_format`: 3 bits at offset 4 of byte 0.
    pub fn rgb_interface_format(&self) -> (r: Result<RgbInterfaceFormat, CodecError>)
        ensures
            r == RgbInterfaceFormat::spec_decode(field_get(self.d.data@[0], 4, 3)),
    {
        RgbInterfaceFormat::from_code(extract_field(self.d.data[0], 4, 3))
    }

    /// `mcu_interface_format`: 3 bits at offset 0 of byte 0.
    pub fn mcu_interface_format(&self) -> (r: Result<McuInterfaceFormat, CodecError>)
        ensures
            r == McuInterfaceFormat::spec_decode(field_get(self.d.data@[0], 0, 3)),
    {
        McuInterfaceFormat::from_code(extract_field(self.d.data[0], 0, 3))
    }
}

/// Write view of [`PixelFormatSet`].
#[derive(Copy, Clone)]
pub struct PixelFormatSetWrite {
    pub d: PixelFormatSet,
}

impl PixelFormatSetWrite {
    /// `rgb_interface_format`: written into 3 bits at offset 4 of byte 0; all other bits are kept.
    pub fn rgb_interface_format(self, w: RgbInterfaceFormat) -> (r: Self)
        ensures
            r.d.data@ == self.d.data@.update(
                0,
                field_set(self.d.data@[0], 4, 3, w.spec_code()),
            ),
    {
        let c = w.code();
        let mut d = self.d;
        d.data[0] = insert_field(d.data[0], 4, 3, c);
        PixelFormatSetWrite { d }
    }

    /// `mcu_interface_format`: written into 3 bits at offset 0 of byte 0; all other bits are kept.
    pub fn mcu_interface_format(self, w: McuInterfaceFormat) -> (r: Self)
        ensures
            r.d.data@ == self.d.data@.update(
                0,
                field_set(self.d.data@[0], 0, 3, w.spec_code()),
            ),
    {
        let c = w.code();
        let mut d = self.d;
        d.data[0] = insert_field(d.data[0], 0, 3, c);
        PixelFormatSetWrite { d }
    }
}

} // verus!
