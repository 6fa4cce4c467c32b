//! Parameter block of the `display-function-control` command: non-display-area scan
//! modes, scan directions, the liquid crystal type and the driver line
//! count.

use vstd::prelude::*;

use crate::bits::extract_field;
use crate::bits::field_get;
use crate::bits::field_set;
use crate::bits::insert_field;
use crate::error::CodecError;

verus! {

/// The documented codes of the `GateOutputsInNonDisplayArea` field.
#[derive(Copy, Clone, Debug, PartialEq, Eq, Structural)]
pub enum GateOutputsInNonDisplayArea {
    NormalScan,
    IntervalScan,
}

impl GateOutputsInNonDisplayArea {
    /// The wire code of this variant.
    pub open spec fn spec_code(self) -> u8 {
        match self {
            GateOutputsInNonDisplayArea::NormalScan => 0x00,
            GateOutputsInNonDisplayArea::IntervalScan => 0x02,
        }
    }

    /// The variant for a wire code, or a decode error for a code outside
    /// the documented mapping.
    pub open spec fn spec_decode(code: u8) -> Result<GateOutputsInNonDisplayArea, CodecError> {
        if code == 0x00 {
            Ok(GateOutputsInNonDisplayArea::NormalScan)
        } else if code == 0x02 {
            Ok(GateOutputsInNonDisplayArea::IntervalScan)
        } else {
            Err(CodecError::UnrecognizedCode { code })
        }
    }

    /// The wire code of this variant.
    pub fn code(self) -> (r: u8)
        ensures
            r == self.spec_code(),
    {
        match self {
            GateOutputsInNonDisplayArea::NormalScan => 0x00,
            GateOutputsInNonDisplayArea::IntervalScan => 0x02,
        }
    }

    /// Decode a wire code; a code outside the documented mapping is a
    /// recoverable error, never coerced to a variant.
    pub fn from_code(code: u8) -> (r: Result<GateOutputsInNonDisplayArea, CodecError>)
        ensures
            r == Self::spec_decode(code),
    {
        match code {
            0x00 => Ok(GateOutputsInNonDisplayArea::NormalScan),
            0x02 => Ok(GateOutputsInNonDisplayArea::IntervalScan),
            _ => Err(CodecError::UnrecognizedCode { code }),
        }
    }

    /// Decoding a variant's own code yields that variant back.
    pub proof fn lemma_code_roundtrip(self)
        ensures
            Self::spec_decode(self.spec_code()) == Ok::<GateOutputsInNonDisplayArea, CodecError>(self),
    {
    }
}

/// The documented codes of the `LiquidCrystalType` field.
#[derive(Copy, Clone, Debug, PartialEq, Eq, Structural)]
pub enum LiquidCrystalType {
    NormallyBlack,
    NormallyWhite,
}

impl LiquidCrystalType {
    /// The wire code of this variant.
    pub open spec fn spec_code(self) -> u8 {
        match self {
            LiquidCrystalType::NormallyBlack => 0x00,
            LiquidCrystalType::NormallyWhite => 0x01,
        }
    }

    /// The variant for a wire code, or a decode error for a code outside
    /// the documented mapping.
    pub open spec fn spec_decode(code: u8) -> Result<LiquidCrystalType, CodecError> {
        if code == 0x00 {
            Ok(LiquidCrystalType::NormallyBlack)
        } else if code == 0x01 {
            Ok(LiquidCrystalType::NormallyWhite)
        } else {
            Err(CodecError::UnrecognizedCode { code })
        }
    }

    /// The wire code of this variant.
    pub fn code(self) -> (r: u8)
        ensures
            r == self.spec_code(),
    {
        match self {
            LiquidCrystalType::NormallyBlack => 0x00,
            LiquidCrystalType::NormallyWhite => 0x01,
        }
    }

    /// Decode a wire code; a code outside the documented mapping is a
    /// recoverable error, never coerced to a variant.
    pub fn from_code(code: u8) -> (r: Result<LiquidCrystalType, CodecError>)
        ensures
            r == Self::spec_decode(code),
    {
        match code {
            0x00 => Ok(LiquidCrystalType::NormallyBlack),
            0x01 => Ok(LiquidCrystalType::NormallyWhite),
            _ => Err(CodecError::UnrecognizedCode { code }),
        }
    }

    /// Decoding a variant's own code yields that variant back.
    pub proof fn lemma_code_roundtrip(self)
        ensures
            Self::spec_decode(self.spec_code()) == Ok::<LiquidCrystalType, CodecError>(self),
    {
    }
}

/// The documented codes of the `GateOutputScanDirection` field.
#[derive(Copy, Clone, Debug, PartialEq, Eq, Structural)]
pub enum GateOutputScanDirection {
    G1Cid4G320,
    G320Cid4G1,
}

impl GateOutputScanDirection {
    /// The wire code of this variant.
    pub open spec fn spec_code(self) -> u8 {
        match self {
            GateOutputScanDirection::G1Cid4G320 => 0x00,
            GateOutputScanDirection::G320Cid4G1 => 0x01,
        }
    }

    /// The variant for a wire code, or a decode error for a code outside
    /// the documented mapping.
    pub open spec fn spec_decode(code: u8) -> Result<GateOutputScanDirection, CodecError> {
        if code == 0x00 {
            Ok(GateOutputScanDirection::G1Cid4G320)
        } else if code == 0x01 {
            Ok(GateOutputScanDirection::G320Cid4G1)
        } else {
            Err(CodecError::UnrecognizedCode { code })
        }
    }

    /// The wire code of this variant.
    pub fn code(self) -> (r: u8)
        ensures
            r == self.spec_code(),
    {
        match self {
            GateOutputScanDirection::G1Cid4G320 => 0x00,
            GateOutputScanDirection::G320Cid4G1 => 0x01,
        }
    }

    /// Decode a wire code; a code outside the documented mapping is a
    /// recoverable error, never coerced to a variant.
    pub fn from_code(code: u8) -> (r: Result<GateOutputScanDirection, CodecError>)
        ensures
            r == Self::spec_decode(code),
    {
        match code {
            0x00 => Ok(GateOutputScanDirection::G1Cid4G320),
            0x01 => Ok(GateOutputScanDirection::G320Cid4G1),
            _ => Err(CodecError::UnrecognizedCode { code }),
        }
    }

    /// Decoding a variant's own code yields that variant back.
    pub proof fn lemma_code_roundtrip(self)
        ensures
            Self::spec_decode(self.spec_code()) == Ok::<GateOutputScanDirection, CodecError>(self),
    {
    }
}

/// The documented codes of the `SourceOutputScanDirection` field.
#[derive(Copy, Clone, Debug, PartialEq, Eq, Structural)]
pub enum SourceOutputScanDirection {
    S1Cid4S720,
    S720Cid4S1,
}

impl SourceOutputScanDirection {
    /// The wire code of this variant.
    pub open spec fn spec_code(self) -> u8 {
        match self {
            SourceOutputScanDirection::S1Cid4S720 => 0x00,
            SourceOutputScanDirection::S720Cid4S1 => 0x01,
        }
    }

    /// The variant for a wire code, or a decode error for a code outside
    /// the documented mapping.
    pub open spec fn spec_decode(code: u8) -> Result<SourceOutputScanDirection, CodecError> {
        if code == 0x00 {
            Ok(SourceOutputScanDirection::S1Cid4S720)
        } else if code == 0x01 {
            Ok(SourceOutputScanDirection::S720Cid4S1)
        } else {
            Err(CodecError::UnrecognizedCode { code })
        }
    }

    /// The wire code of this variant.
    pub fn code(self) -> (r: u8)
        ensures
            r == self.spec_code(),
    {
        match self {
            SourceOutputScanDirection::S1Cid4S720 => 0x00,
            SourceOutputScanDirection::S720Cid4S1 => 0x01,
        }
    }

    /// Decode a wire code; a code outside the documented mapping is a
    /// recoverable error, never coerced to a variant.
    pub fn from_code(code: u8) -> (r: Result<SourceOutputScanDirection, CodecError>)
        ensures
            r == Self::spec_decode(code),
    {
        match code {
            0x00 => Ok(SourceOutputScanDirection::S1Cid4S720),
            0x01 => Ok(SourceOutputScanDirection::S720Cid4S1),
            _ => Err(CodecError::UnrecognizedCode { code }),
        }
    }

    /// Decoding a variant's own code yields that variant back.
    pub proof fn lemma_code_roundtrip(self)
        ensures
            Self::spec_decode(self.spec_code()) == Ok::<SourceOutputScanDirection, CodecError>(self),
    {
    }
}

/// The documented codes of the `ScanCycle` field.
#[derive(Copy, Clone, Debug, PartialEq, Eq, Structural)]
pub enum ScanCycle {
    N1Frame,
    N3Frames,
    N5Frames,
    N7Frames,
    N9Frames,
    N11Frames,
    N13Frames,
    N15Frames,
    N17Frames,
    N19Frames,
    N21Frames,
    N23Frames,
    N25Frames,
    N27Frames,
    N29Frames,
    N31Frames,
}

impl ScanCycle {
    /// The wire code of this variant.
    pub open spec fn spec_code(self) -> u8 {
        match self {
            ScanCycle::N1Frame => 0x00,
            ScanCycle::N3Frames => 0x01,
            ScanCycle::N5Frames => 0x02,
            ScanCycle::N7Frames => 0x03,
            ScanCycle::N9Frames => 0x04,
            ScanCycle::N11Frames => 0x05,
            ScanCycle::N13Frames => 0x06,
            ScanCycle::N15Frames => 0x07,
            ScanCycle::N17Frames => 0x08,
            ScanCycle::N19Frames => 0x09,
            ScanCycle::N21Frames => 0x0A,
            ScanCycle::N23Frames => 0x0B,
            ScanCycle::N25Frames => 0x0C,
            ScanCycle::N27Frames => 0x0D,
            ScanCycle::N29Frames => 0x0E,
            ScanCycle::N31Frames => 0x0F,
        }
    }

    /// The variant for a wire code, or a decode error for a code outside
    /// the documented mapping.
    pub open spec fn spec_decode(code: u8) -> Result<ScanCycle, CodecError> {
        if code == 0x00 {
            Ok(ScanCycle::N1Frame)
        } else if code == 0x01 {
            Ok(ScanCycle::N3Frames)
        } else if code == 0x02 {
            Ok(ScanCycle::N5Frames)
        } else if code == 0x03 {
            Ok(ScanCycle::N7Frames)
        } else if code == 0x04 {
            Ok(ScanCycle::N9Frames)
        } else if code == 0x05 {
            Ok(ScanCycle::N11Frames)
        } else if code == 0x06 {
            Ok(ScanCycle::N13Frames)
        } else if code == 0x07 {
            Ok(ScanCycle::N15Frames)
        } else if code == 0x08 {
            Ok(ScanCycle::N17Frames)
        } else if code == 0x09 {
            Ok(ScanCycle::N19Frames)
        } else if code == 0x0A {
            Ok(ScanCycle::N21Frames)
        } else if code == 0x0B {
            Ok(ScanCycle::N23Frames)
        } else if code == 0x0C {
            Ok(ScanCycle::N25Frames)
        } else if code == 0x0D {
            Ok(ScanCycle::N27Frames)
        } else if code == 0x0E {
            Ok(ScanCycle::N29Frames)
        } else if code == 0x0F {
            Ok(ScanCycle::N31Frames)
        } else {
            Err(CodecError::UnrecognizedCode { code })
        }
    }

    /// The wire code of this variant.
    pub fn code(self) -> (r: u8)
        ensures
            r == self.spec_code(),
    {
        match self {
            ScanCycle::N1Frame => 0x00,
            ScanCycle::N3Frames => 0x01,
            ScanCycle::N5Frames => 0x02,
            ScanCycle::N7Frames => 0x03,
            ScanCycle::N9Frames => 0x04,
            ScanCycle::N11Frames => 0x05,
            ScanCycle::N13Frames => 0x06,
            ScanCycle::N15Frames => 0x07,
            ScanCycle::N17Frames => 0x08,
            ScanCycle::N19Frames => 0x09,
            ScanCycle::N21Frames => 0x0A,
            ScanCycle::N23Frames => 0x0B,
            ScanCycle::N25Frames => 0x0C,
            ScanCycle::N27Frames => 0x0D,
            ScanCycle::N29Frames => 0x0E,
            ScanCycle::N31Frames => 0x0F,
        }
    }

    /// Decode a wire code; a code outside the documented mapping is a
    /// recoverable error, never coerced to a variant.
    pub fn from_code(code: u8) -> (r: Result<ScanCycle, CodecError>)
        ensures
            r == Self::spec_decode(code),
    {
        match code {
            0x00 => Ok(ScanCycle::N1Frame),
            0x01 => Ok(ScanCycle::N3Frames),
            0x02 => Ok(ScanCycle::N5Frames),
            0x03 => Ok(ScanCycle::N7Frames),
            0x04 => Ok(ScanCycle::N9Frames),
            0x05 => Ok(ScanCycle::N11Frames),
            0x06 => Ok(ScanCycle::N13Frames),
            0x07 => Ok(ScanCycle::N15Frames),
            0x08 => Ok(ScanCycle::N17Frames),
            0x09 => Ok(ScanCycle::N19Frames),
            0x0A => Ok(ScanCycle::N21Frames),
            0x0B => Ok(ScanCycle::N23Frames),
            0x0C => Ok(ScanCycle::N25Frames),
            0x0D => Ok(ScanCycle::N27Frames),
            0x0E => Ok(ScanCycle::N29Frames),
            0x0F => Ok(ScanCycle::N31Frames),
            _ => Err(CodecError::UnrecognizedCode { code }),
        }
    }

    /// Decoding a variant's own code yields that variant back.
    pub proof fn lemma_code_roundtrip(self)
        ensures
            Self::spec_decode(self.spec_code()) == Ok::<ScanCycle, CodecError>(self),
    {
    }
}

/// The documented codes of the `LcdDriverLine` field.
#[derive(Copy, Clone, Debug, PartialEq, Eq, Structural)]
pub enum LcdDriverLine {
    N16Lines,
    N24Lines,
    N32Lines,
    N40Lines,
    N48Lines,
    N56Lines,
    N64Lines,
    N72Lines,
    N80Lines,
    N88Lines,
    N96Lines,
    N104Lines,
    N112Lines,
    N120Lines,
    N128Lines,
    N136Lines,
    N144Lines,
    N152Lines,
    N160Lines,
    N168Lines,
    N176Lines,
    N184Lines,
    N192Lines,
    N200Lines,
    N208Lines,
    N216Lines,
    N224Lines,
    N232Lines,
    N240Lines,
    N248Lines,
    N256Lines,
    N264Lines,
    N272Lines,
    N280Lines,
    N288Lines,
    N296Lines,
    N304Lines,
    N312Lines,
    N320Lines,
}

impl LcdDriverLine {
    /// The wire code of this variant.
    pub open spec fn spec_code(self) -> u8 {
        match self {
            LcdDriverLine::N16Lines => 0x01,
            LcdDriverLine::N24Lines => 0x02,
            LcdDriverLine::N32Lines => 0x03,
            LcdDriverLine::N40Lines => 0x04,
            LcdDriverLine::N48Lines => 0x05,
            LcdDriverLine::N56Lines => 0x06,
            LcdDriverLine::N64Lines => 0x07,
            LcdDriverLine::N72Lines => 0x08,
            LcdDriverLine::N80Lines => 0x09,
            LcdDriverLine::N88Lines => 0x0A,
            LcdDriverLine::N96Lines => 0x0B,
            LcdDriverLine::N104Lines => 0x0C,
            LcdDriverLine::N112Lines => 0x0D,
            LcdDriverLine::N120Lines => 0x0E,
            LcdDriverLine::N128Lines => 0x0F,
            LcdDriverLine::N136Lines => 0x10,
            LcdDriverLine::N144Lines => 0x11,
            LcdDriverLine::N152Lines => 0x12,
            LcdDriverLine::N160Lines => 0x13,
            LcdDriverLine::N168Lines => 0x14,
            LcdDriverLine::N176Lines => 0x15,
            LcdDriverLine::N184Lines => 0x16,
            LcdDriverLine::N192Lines => 0x17,
            LcdDriverLine::N200Lines => 0x18,
            LcdDriverLine::N208Lines => 0x19,
            LcdDriverLine::N216Lines => 0x1A,
            LcdDriverLine::N224Lines => 0x1B,
            LcdDriverLine::N232Lines => 0x1C,
            LcdDriverLine::N240Lines => 0x1D,
            LcdDriverLine::N248Lines => 0x1E,
            LcdDriverLine::N256Lines => 0x1F,
            LcdDriverLine::N264Lines => 0x20,
            LcdDriverLine::N272Lines => 0x21,
            LcdDriverLine::N280Lines => 0x22,
            LcdDriverLine::N288Lines => 0x23,
            LcdDriverLine::N296Lines => 0x24,
            LcdDriverLine::N304Lines => 0x25,
            LcdDriverLine::N312Lines => 0x26,
            LcdDriverLine::N320Lines => 0x27,
        }
    }

    /// The variant for a wire code, or a decode error for a code outside
    /// the documented mapping.
    pub open spec fn spec_decode(code: u8) -> Result<LcdDriverLine, CodecError> {
        if code == 0x01 {
            Ok(LcdDriverLine::N16Lines)
        } else if code == 0x02 {
            Ok(LcdDriverLine::N24Lines)
        } else if code == 0x03 {
            Ok(LcdDriverLine::N32Lines)
        } else if code == 0x04 {
            Ok(LcdDriverLine::N40Lines)
        } else if code == 0x05 {
            Ok(LcdDriverLine::N48Lines)
        } else if code == 0x06 {
            Ok(LcdDriverLine::N56Lines)
        } else if code == 0x07 {
            Ok(LcdDriverLine::N64Lines)
        } else if code == 0x08 {
            Ok(LcdDriverLine::N72Lines)
        } else if code == 0x09 {
            Ok(LcdDriverLine::N80Lines)
        } else if code == 0x0A {
            Ok(LcdDriverLine::N88Lines)
        } else if code == 0x0B {
            Ok(LcdDriverLine::N96Lines)
        } else if code == 0x0C {
            Ok(LcdDriverLine::N104Lines)
        } else if code == 0x0D {
            Ok(LcdDriverLine::N112Lines)
        } else if code == 0x0E {
            Ok(LcdDriverLine::N120Lines)
        } else if code == 0x0F {
            Ok(LcdDriverLine::N128Lines)
        } else if code == 0x10 {
            Ok(LcdDriverLine::N136Lines)
        } else if code == 0x11 {
            Ok(LcdDriverLine::N144Lines)
        } else if code == 0x12 {
            Ok(LcdDriverLine::N152Lines)
        } else if code == 0x13 {
            Ok(LcdDriverLine::N160Lines)
        } else if code == 0x14 {
            Ok(LcdDriverLine::N168Lines)
        } else if code == 0x15 {
            Ok(LcdDriverLine::N176Lines)
        } else if code == 0x16 {
            Ok(LcdDriverLine::N184Lines)
        } else if code == 0x17 {
            Ok(LcdDriverLine::N192Lines)
        } else if code == 0x18 {
            Ok(LcdDriverLine::N200Lines)
        } else if code == 0x19 {
            Ok(LcdDriverLine::N208Lines)
        } else if code == 0x1A {
            Ok(LcdDriverLine::N216Lines)
        } else if code == 0x1B {
            Ok(LcdDriverLine::N224Lines)
        } else if code == 0x1C {
            Ok(LcdDriverLine::N232Lines)
        } else if code == 0x1D {
            Ok(LcdDriverLine::N240Lines)
        } else if code == 0x1E {
            Ok(LcdDriverLine::N248Lines)
        } else if code == 0x1F {
            Ok(LcdDriverLine::N256Lines)
        } else if code == 0x20 {
            Ok(LcdDriverLine::N264Lines)
        } else if code == 0x21 {
            Ok(LcdDriverLine::N272Lines)
        } else if code == 0x22 {
            Ok(LcdDriverLine::N280Lines)
        } else if code == 0x23 {
            Ok(LcdDriverLine::N288Lines)
        } else if code == 0x24 {
            Ok(LcdDriverLine::N296Lines)
        } else if code == 0x25 {
            Ok(LcdDriverLine::N304Lines)
        } else if code == 0x26 {
            Ok(LcdDriverLine::N312Lines)
        } else if code == 0x27 {
            Ok(LcdDriverLine::N320Lines)
        } else {
            Err(CodecError::UnrecognizedCode { code })
        }
    }

    /// The wire code of this variant.
    pub fn code(self) -> (r: u8)
        ensures
            r == self.spec_code(),
    {
        match self {
            LcdDriverLine::N16Lines => 0x01,
            LcdDriverLine::N24Lines => 0x02,
            LcdDriverLine::N32Lines => 0x03,
            LcdDriverLine::N40Lines => 0x04,
            LcdDriverLine::N48Lines => 0x05,
            LcdDriverLine::N56Lines => 0x06,
            LcdDriverLine::N64Lines => 0x07,
            LcdDriverLine::N72Lines => 0x08,
            LcdDriverLine::N80Lines => 0x09,
            LcdDriverLine::N88Lines => 0x0A,
            LcdDriverLine::N96Lines => 0x0B,
            LcdDriverLine::N104Lines => 0x0C,
            LcdDriverLine::N112Lines => 0x0D,
            LcdDriverLine::N120Lines => 0x0E,
            LcdDriverLine::N128Lines => 0x0F,
            LcdDriverLine::N136Lines => 0x10,
            LcdDriverLine::N144Lines => 0x11,
            LcdDriverLine::N152Lines => 0x12,
            LcdDriverLine::N160Lines => 0x13,
            LcdDriverLine::N168Lines => 0x14,
            LcdDriverLine::N176Lines => 0x15,
            LcdDriverLine::N184Lines => 0x16,
            LcdDriverLine::N192Lines => 0x17,
            LcdDriverLine::N200Lines => 0x18,
            LcdDriverLine::N208Lines => 0x19,
            LcdDriverLine::N216Lines => 0x1A,
            LcdDriverLine::N224Lines => 0x1B,
            LcdDriverLine::N232Lines => 0x1C,
            LcdDriverLine::N240Lines => 0x1D,
            LcdDriverLine::N248Lines => 0x1E,
            LcdDriverLine::N256Lines => 0x1F,
            LcdDriverLine::N264Lines => 0x20,
            LcdDriverLine::N272Lines => 0x21,
            LcdDriverLine::N280Lines => 0x22,
            LcdDriverLine::N288Lines => 0x23,
            LcdDriverLine::N296Lines => 0x24,
            LcdDriverLine::N304Lines => 0x25,
            LcdDriverLine::N312Lines => 0x26,
            LcdDriverLine::N320Lines => 0x27,
        }
    }

    /// Decode a wire code; a code outside the documented mapping is a
    /// recoverable error, never coerced to a variant.
    pub fn from_code(code: u8) -> (r: Result<LcdDriverLine, CodecError>)
        ensures
            r == Self::spec_decode(code),
    {
        match code {
            0x01 => Ok(LcdDriverLine::N16Lines),
            0x02 => Ok(LcdDriverLine::N24Lines),
            0x03 => Ok(LcdDriverLine::N32Lines),
            0x04 => Ok(LcdDriverLine::N40Lines),
            0x05 => Ok(LcdDriverLine::N48Lines),
            0x06 => Ok(LcdDriverLine::N56Lines),
            0x07 => Ok(LcdDriverLine::N64Lines),
            0x08 => Ok(LcdDriverLine::N72Lines),
            0x09 => Ok(LcdDriverLine::N80Lines),
            0x0A => Ok(LcdDriverLine::N88Lines),
            0x0B => Ok(LcdDriverLine::N96Lines),
            0x0C => Ok(LcdDriverLine::N104Lines),
            0x0D => Ok(LcdDriverLine::N112Lines),
            0x0E => Ok(LcdDriverLine::N120Lines),
            0x0F => Ok(LcdDriverLine::N128Lines),
            0x10 => Ok(LcdDriverLine::N136Lines),
            0x11 => Ok(LcdDriverLine::N144Lines),
            0x12 => Ok(LcdDriverLine::N152Lines),
            0x13 => Ok(LcdDriverLine::N160Lines),
            0x14 => Ok(LcdDriverLine::N168Lines),
            0x15 => Ok(LcdDriverLine::N176Lines),
            0x16 => Ok(LcdDriverLine::N184Lines),
            0x17 => Ok(LcdDriverLine::N192Lines),
            0x18 => Ok(LcdDriverLine::N200Lines),
            0x19 => Ok(LcdDriverLine::N208Lines),
            0x1A => Ok(LcdDriverLine::N216Lines),
            0x1B => Ok(LcdDriverLine::N224Lines),
            0x1C => Ok(LcdDriverLine::N232Lines),
            0x1D => Ok(LcdDriverLine::N240Lines),
            0x1E => Ok(LcdDriverLine::N248Lines),
            0x1F => Ok(LcdDriverLine::N256Lines),
            0x20 => Ok(LcdDriverLine::N264Lines),
            0x21 => Ok(LcdDriverLine::N272Lines),
            0x22 => Ok(LcdDriverLine::N280Lines),
            0x23 => Ok(LcdDriverLine::N288Lines),
            0x24 => Ok(LcdDriverLine::N296Lines),
            0x25 => Ok(LcdDriverLine::N304Lines),
            0x26 => Ok(LcdDriverLine::N312Lines),
            0x27 => Ok(LcdDriverLine::N320Lines),
            _ => Err(CodecError::UnrecognizedCode { code }),
        }
    }

    /// Decoding a variant's own code yields that variant back.
    pub proof fn lemma_code_roundtrip(self)
        ensures
            Self::spec_decode(self.spec_code()) == Ok::<LcdDriverLine, CodecError>(self),
    {
    }
}

/// The 4-byte parameter block of the `display-function-control` command.
#[derive(Copy, Clone, Debug)]
pub struct DisplayFunctionControl {
    pub data: [u8; 4],
}

impl DisplayFunctionControl {
    /// The chip's post-reset value of this block.
    pub open spec fn spec_default() -> Seq<u8> {
        seq![0x0Au8, 0x82u8, 0x27u8, 0x00u8]
    }

    /// Borrow-free read view over a snapshot of the block.
    pub fn read(&self) -> (r: DisplayFunctionControlRead)
        ensures
            r.d.data@ == self.data@,
    {
        DisplayFunctionControlRead { d: *self }
    }

    /// Apply a builder transformation to this block and return the result.
    pub fn write<F: FnOnce(DisplayFunctionControlWrite) -> DisplayFunctionControlWrite>(self, f: F) -> (r: Self)
        requires
            call_requires(f, ((DisplayFunctionControlWrite { d: self }),)),
        ensures
            call_ensures(f, ((DisplayFunctionControlWrite { d: self }),), (DisplayFunctionControlWrite { d: r })),
    {
        let w = f(DisplayFunctionControlWrite { d: self });
        proof {
            assert((DisplayFunctionControlWrite { d: w.d }) == w);
        }
        w.d
    }
}

impl Default for DisplayFunctionControl {
    /// The block with the chip's documented post-reset byte pattern.
    fn default() -> (r: Self)
        ensures
            r.data@ == DisplayFunctionControl::spec_default(),
    {
        let r = DisplayFunctionControl { data: [0x0A, 0x82, 0x27, 0x00] };
        proof {
            assert(r.data@ =~= DisplayFunctionControl::spec_default());
        }
        r
    }
}

/// Read view of [`DisplayFunctionControl`].
#[derive(Copy, Clone)]
pub struct DisplayFunctionControlRead {
    pub d: DisplayFunctionControl,
}

impl DisplayFunctionControlRead {
    /// `gate_outputs_in_non_display_area`: 2 bits at offset 2 of byte 0.
    pub fn gate_outputs_in_non_display_area(&self) -> (r: Result<GateOutputsInNonDisplayArea, CodecError>)
        ensures
            r == GateOutputsInNonDisplayArea::spec_decode(field_get(self.d.data@[0], 2, 2)),
    {
        GateOutputsInNonDisplayArea::from_code(extract_field(self.d.data[0], 2, 2))
    }

    /// `determine_source_and_vcom_output_in_an_on_display_area_in_the_partial_display_mode`: 2 bits at offset 0 of byte 0.
    pub fn determine_source_and_vcom_output_in_an_on_display_area_in_the_partial_display_mode(&self) -> (r: u8)
        ensures
            r == field_get(self.d.data@[0], 0, 2),
    {
        extract_field(self.d.data[0], 0, 2)
    }

    /// `liquid_crystal_type`: 1 bit at offset 7 of byte 1.
    pub fn liquid_crystal_type(&self) -> (r: Result<LiquidCrystalType, CodecError>)
        ensures
            r == LiquidCrystalType::spec_decode(field_get(self.d.data@[1], 7, 1)),
    {
        LiquidCrystalType::from_code(extract_field(self.d.data[1], 7, 1))
    }

    /// `gate_output_scan_direction`: 1 bit at offset 6 of byte 1.
    pub fn gate_output_scan_direction(&self) -> (r: Result<GateOutputScanDirection, CodecError>)
        ensures
            r == GateOutputScanDirection::spec_decode(field_get(self.d.data@[1], 6, 1)),
    {
        GateOutputScanDirection::from_code(extract_field(self.d.data[1], 6, 1))
    }

    /// `source_output_scan_direction`: 1 bit at offset 5 of byte 1.
    pub fn source_output_scan_direction(&self) -> (r: Result<SourceOutputScanDirection, CodecError>)
        ensures
            r == SourceOutputScanDirection::spec_decode(field_get(self.d.data@[1], 5, 1)),
    {
        SourceOutputScanDirection::from_code(extract_field(self.d.data[1], 5, 1))
    }

    /// `sm`: 1 bit at offset 4 of byte 1.
    pub fn sm(&self) -> (r: bool)
        ensures
            r == (field_get(self.d.data@[1], 4, 1) != 0),
    {
        extract_field(self.d.data[1], 4, 1) != 0
    }

    /// `scan_cycle`: 4 bits at offset 0 of byte 1.
    pub fn scan_cycle(&self) -> (r: Result<ScanCycle, CodecError>)
        ensures
            r == ScanCycle::spec_decode(field_get(self.d.data@[1], 0, 4)),
    {
        ScanCycle::from_code(extract_field(self.d.data[1], 0, 4))
    }

    /// `lcd_driver_line`: 6 bits at offset 0 of byte 2.
    pub fn lcd_driver_line(&self) -> (r: Result<LcdDriverLine, CodecError>)
        ensures
            r == LcdDriverLine::spec_decode(field_get(self.d.data@[2], 0, 6)),
    {
        LcdDriverLine::from_code(extract_field(self.d.data[2], 0, 6))
    }

    /// `pcdiv`: 6 bits at offset 0 of byte 3.
    pub fn pcdiv(&self) -> (r: u8)
        ensures
            r == field_get(self.d.data@[3], 0, 6),
    {
        extract_field(self.d.data[3], 0, 6)
    }
}

/// Write view of [`DisplayFunctionControl`].
#[derive(Copy, Clone)]
pub struct DisplayFunctionControlWrite {
    pub d: DisplayFunctionControl,
}

impl DisplayFunctionControlWrite {
    /// `gate_outputs_in_non_display_area`: written into 2 bits at offset 2 of byte 0; all other bits are kept.
    pub fn gate_outputs_in_non_display_area(self, w: GateOutputsInNonDisplayArea) -> (r: Self)
        ensures
            r.d.data@ == self.d.data@.update(
                0,
                field_set(self.d.data@[0], 2, 2, w.spec_code()),
            ),
    {
        let c = w.code();
        let mut d = self.d;
        d.data[0] = insert_field(d.data[0], 2, 2, c);
        DisplayFunctionControlWrite { d }
    }

    /// `determine_source_and_vcom_output_in_an_on_display_area_in_the_partial_display_mode`: written into 2 bits at offset 0 of byte 0; all other bits are kept.
    pub fn determine_source_and_vcom_output_in_an_on_display_area_in_the_partial_display_mode(self, w: u8) -> (r: Self)
        ensures
            r.d.data@ == self.d.data@.update(
                0,
                field_set(self.d.data@[0], 0, 2, w),
            ),
    {
        let mut d = self.d;
        d.data[0] = insert_field(d.data[0], 0, 2, w);
        DisplayFunctionControlWrite { d }
    }

    /// `liquid_crystal_type`: written into 1 bit at offset 7 of byte 1; all other bits are kept.
    pub fn liquid_crystal_type(self, w: LiquidCrystalType) -> (r: Self)
        ensures
            r.d.data@ == self.d.data@.update(
                1,
                field_set(self.d.data@[1], 7, 1, w.spec_code()),
            ),
    {
        let c = w.code();
        let mut d = self.d;
        d.data[1] = insert_field(d.data[1], 7, 1, c);
        DisplayFunctionControlWrite { d }
    }

    /// `gate_output_scan_direction`: written into 1 bit at offset 6 of byte 1; all other bits are kept.
    pub fn gate_output_scan_direction(self, w: GateOutputScanDirection) -> (r: Self)
        ensures
            r.d.data@ == self.d.data@.update(
                1,
                field_set(self.d.data@[1], 6, 1, w.spec_code()),
            ),
    {
        let c = w.code();
        let mut d = self.d;
        d.data[1] = insert_field(d.data[1], 6, 1, c);
        DisplayFunctionControlWrite { d }
    }

    /// `source_output_scan_direction`: written into 1 bit at offset 5 of byte 1; all other bits are kept.
    pub fn source_output_scan_direction(self, w: SourceOutputScanDirection) -> (r: Self)
        ensures
            r.d.data@ == self.d.data@.update(
                1,
                field_set(self.d.data@[1], 5, 1, w.spec_code()),
            ),
    {
        let c = w.code();
        let mut d = self.d;
        d.data[1] = insert_field(d.data[1], 5, 1, c);
        DisplayFunctionControlWrite { d }
    }

    /// `sm`: written into 1 bit at offset 4 of byte 1; all other bits are kept.
    pub fn sm(self, w: bool) -> (r: Self)
        ensures
            r.d.data@ == self.d.data@.update(
                1,
                field_set(self.d.data@[1], 4, 1, (if w { 1u8 } else { 0u8 })),
            ),
    {
        let mut d = self.d;
        d.data[1] = insert_field(d.data[1], 4, 1, if w { 1 } else { 0 });
        DisplayFunctionControlWrite { d }
    }

    /// `scan_cycle`: written into 4 bits at offset 0 of byte 1; all other bits are kept.
    pub fn scan_cycle(self, w: ScanCycle) -> (r: Self)
        ensures
            r.d.data@ == self.d.data@.update(
                1,
                field_set(self.d.data@[1], 0, 4, w.spec_code()),
            ),
    {
        let c = w.code();
        let mut d = self.d;
        d.data[1] = insert_field(d.data[1], 0, 4, c);
        DisplayFunctionControlWrite { d }
    }

    /// `lcd_driver_line`: written into 6 bits at offset 0 of byte 2; all other bits are kept.
    pub fn lcd_driver_line(self, w: LcdDriverLine) -> (r: Self)
        ensures
            r.d.data@ == self.d.data@.update(
                2,
                field_set(self.d.data@[2], 0, 6, w.spec_code()),
            ),
    {
        let c = w.code();
        let mut d = self.d;
        d.data[2] = insert_field(d.data[2], 0, 6, c);
        DisplayFunctionControlWrite { d }
    }

    /// `pcdiv`: written into 6 bits at offset 0 of byte 3; all other bits are kept.
    pub fn pcdiv(self, w: u8) -> (r: Self)
        ensures
            r.d.data@ == self.d.data@.update(
                3,
                field_set(self.d.data@[3], 0, 6, w),
            ),
    {
        let mut d = self.d;
        d.data[3] = insert_field(d.data[3], 0, 6, w);
        DisplayFunctionControlWrite { d }
    }
}

} // verus!
