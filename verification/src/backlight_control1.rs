//! Parameter block of the `backlight-control1` command: the grayscale histogram
//! threshold of user-interface mode for content-adaptive brightness.

use vstd::prelude::*;

use crate::bits::extract_field;
use crate::bits::field_get;
use crate::bits::field_set;
use crate::bits::insert_field;
use crate::error::CodecError;

verus! {

/// The documented codes of the `HistogramThresholdInUserInterfaceMode` field.
#[derive(Copy, Clone, Debug, PartialEq, Eq, Structural)]
pub enum HistogramThresholdInUserInterfaceMode {
    N99,
    N98,
    N96,
    N94,
    N92,
    N90,
    N88,
    N86,
    N84,
    N82,
    N80,
    N78,
    N76,
    N74,
    N72,
    N70,
}

impl HistogramThresholdInUserInterfaceMode {
    /// The wire code of this variant.
    pub open spec fn spec_code(self) -> u8 {
        match self {
            HistogramThresholdInUserInterfaceMode::N99 => 0x00,
            HistogramThresholdInUserInterfaceMode::N98 => 0x01,
            HistogramThresholdInUserInterfaceMode::N96 => 0x02,
            HistogramThresholdInUserInterfaceMode::N94 => 0x03,
            HistogramThresholdInUserInterfaceMode::N92 => 0x04,
            HistogramThresholdInUserInterfaceMode::N90 => 0x05,
            HistogramThresholdInUserInterfaceMode::N88 => 0x06,
            HistogramThresholdInUserInterfaceMode::N86 => 0x07,
            HistogramThresholdInUserInterfaceMode::N84 => 0x08,
            HistogramThresholdInUserInterfaceMode::N82 => 0x09,
            HistogramThresholdInUserInterfaceMode::N80 => 0x0A,
            HistogramThresholdInUserInterfaceMode::N78 => 0x0B,
            HistogramThresholdInUserInterfaceMode::N76 => 0x0C,
            HistogramThresholdInUserInterfaceMode::N74 => 0x0D,
            HistogramThresholdInUserInterfaceMode::N72 => 0x0E,
            HistogramThresholdInUserInterfaceMode::N70 => 0x0F,
        }
    }

    /// The variant for a wire code, or a decode error for a code outside
    /// the documented mapping.
    pub open spec fn spec_decode(code: u8) -> Result<HistogramThresholdInUserInterfaceMode, CodecError> {
        if code == 0x00 {
            Ok(HistogramThresholdInUserInterfaceMode::N99)
        } else if code == 0x01 {
            Ok(HistogramThresholdInUserInterfaceMode::N98)
        } else if code == 0x02 {
            Ok(HistogramThresholdInUserInterfaceMode::N96)
        } else if code == 0x03 {
            Ok(HistogramThresholdInUserInterfaceMode::N94)
        } else if code == 0x04 {
            Ok(HistogramThresholdInUserInterfaceMode::N92)
        } else if code == 0x05 {
            Ok(HistogramThresholdInUserInterfaceMode::N90)
        } else if code == 0x06 {
            Ok(HistogramThresholdInUserInterfaceMode::N88)
        } else if code == 0x07 {
            Ok(HistogramThresholdInUserInterfaceMode::N86)
        } else if code == 0x08 {
            Ok(HistogramThresholdInUserInterfaceMode::N84)
        } else if code == 0x09 {
            Ok(HistogramThresholdInUserInterfaceMode::N82)
        } else if code == 0x0A {
            Ok(HistogramThresholdInUserInterfaceMode::N80)
        } else if code == 0x0B {
            Ok(HistogramThresholdInUserInterfaceMode::N78)
        } else if code == 0x0C {
            Ok(HistogramThresholdInUserInterfaceMode::N76)
        } else if code == 0x0D {
            Ok(HistogramThresholdInUserInterfaceMode::N74)
        } else if code == 0x0E {
            Ok(HistogramThresholdInUserInterfaceMode::N72)
        } else if code == 0x0F {
            Ok(HistogramThresholdInUserInterfaceMode::N70)
        } else {
            Err(CodecError::UnrecognizedCode { code })
        }
    }

    /// The wire code of this variant.
    pub fn code(self) -> (r: u8)
        ensures
            r == self.spec_code(),
    {
        match self {
            HistogramThresholdInUserInterfaceMode::N99 => 0x00,
            HistogramThresholdInUserInterfaceMode::N98 => 0x01,
            HistogramThresholdInUserInterfaceMode::N96 => 0x02,
            HistogramThresholdInUserInterfaceMode::N94 => 0x03,
            HistogramThresholdInUserInterfaceMode::N92 => 0x04,
            HistogramThresholdInUserInterfaceMode::N90 => 0x05,
            HistogramThresholdInUserInterfaceMode::N88 => 0x06,
            HistogramThresholdInUserInterfaceMode::N86 => 0x07,
            HistogramThresholdInUserInterfaceMode::N84 => 0x08,
            HistogramThresholdInUserInterfaceMode::N82 => 0x09,
            HistogramThresholdInUserInterfaceMode::N80 => 0x0A,
            HistogramThresholdInUserInterfaceMode::N78 => 0x0B,
            HistogramThresholdInUserInterfaceMode::N76 => 0x0C,
            HistogramThresholdInUserInterfaceMode::N74 => 0x0D,
            HistogramThresholdInUserInterfaceMode::N72 => 0x0E,
            HistogramThresholdInUserInterfaceMode::N70 => 0x0F,
        }
    }

    /// Decode a wire code; a code outside the documented mapping is a
    /// recoverable error, never coerced to a variant.
    pub fn from_code(code: u8) -> (r: Result<HistogramThresholdInUserInterfaceMode, CodecError>)
        ensures
            r == Self::spec_decode(code),
    {
        match code {
            0x00 => Ok(HistogramThresholdInUserInterfaceMode::N99),
            0x01 => Ok(HistogramThresholdInUserInterfaceMode::N98),
            0x02 => Ok(HistogramThresholdInUserInterfaceMode::N96),
            0x03 => Ok(HistogramThresholdInUserInterfaceMode::N94),
            0x04 => Ok(HistogramThresholdInUserInterfaceMode::N92),
            0x05 => Ok(HistogramThresholdInUserInterfaceMode::N90),
            0x06 => Ok(HistogramThresholdInUserInterfaceMode::N88),
            0x07 => Ok(HistogramThresholdInUserInterfaceMode::N86),
            0x08 => Ok(HistogramThresholdInUserInterfaceMode::N84),
            0x09 => Ok(HistogramThresholdInUserInterfaceMode::N82),
            0x0A => Ok(HistogramThresholdInUserInterfaceMode::N80),
            0x0B => Ok(HistogramThresholdInUserInterfaceMode::N78),
            0x0C => Ok(HistogramThresholdInUserInterfaceMode::N76),
            0x0D => Ok(HistogramThresholdInUserInterfaceMode::N74),
            0x0E => Ok(HistogramThresholdInUserInterfaceMode::N72),
            0x0F => Ok(HistogramThresholdInUserInterfaceMode::N70),
            _ => Err(CodecError::UnrecognizedCode { code }),
        }
    }

    /// Decoding a variant's own code yields that variant back.
    pub proof fn lemma_code_roundtrip(self)
        ensures
            Self::spec_decode(self.spec_code()) == Ok::<HistogramThresholdInUserInterfaceMode, CodecError>(self),
    {
    }
}

/// The single-byte parameter block of the `backlight-control1` command.
#[derive(Copy, Clone, Debug)]
pub struct BacklightControl1 {
    pub data: [u8; 1],
}

impl BacklightControl1 {
    /// The chip's post-reset value of this block.
    pub open spec fn spec_default() -> Seq<u8> {
        seq![0x06u8]
    }

    /// Borrow-free read view over a snapshot of the block.
    pub fn read(&self) -> (r: BacklightControl1Read)
        ensures
            r.d.data@ == self.data@,
    {
        BacklightControl1Read { d: *self }
    }

    /// Apply a builder transformation to this block and return the result.
    pub fn write<F: FnOnce(BacklightControl1Write) -> BacklightControl1Write>(self, f: F) -> (r: Self)
        requires
            call_requires(f, ((BacklightControl1Write { d: self }),)),
        ensures
            call_ensures(f, ((BacklightControl1Write { d: self }),), (BacklightControl1Write { d: r })),
    {
        let w = f(BacklightControl1Write { d: self });
        proof {
            assert((BacklightControl1Write { d: w.d }) == w);
        }
        w.d
    }
}

impl Default for BacklightControl1 {
    /// The block with the chip's documented post-reset byte pattern.
    fn default() -> (r: Self)
        ensures
            r.data@ == BacklightControl1::spec_default(),
    {
        let r = BacklightControl1 { data: [0x06] };
        proof {
            assert(r.data@ =~= BacklightControl1::spec_default());
        }
        r
    }
}

/// Read view of [`BacklightControl1`].
#[derive(Copy, Clone)]
pub struct BacklightControl1Read {
    pub d: BacklightControl1,
}

impl BacklightControl1Read {
    /// `histogram_threshold_in_user_interface_mode`: 4 bits at offset 0 of byte 0.
    pub fn histogram_threshold_in_user_interface_mode(&self) -> (r: Result<HistogramThresholdInUserInterfaceMode, CodecError>)
        ensures
            r == HistogramThresholdInUserInterfaceMode::spec_decode(field_get(self.d.data@[0], 0, 4)),
    {
        HistogramThresholdInUserInterfaceMode::from_code(extract_field(self.d.data[0], 0, 4))
    }
}

/// Write view of [`BacklightControl1`].
#[derive(Copy, Clone)]
pub struct BacklightControl1Write {
    pub d: BacklightControl1,
}

impl BacklightControl1Write {
    /// `histogram_threshold_in_user_interface_mode`: written into 4 bits at offset 0 of byte 0; all other bits are kept.
    pub fn histogram_threshold_in_user_interface_mode(self, w: HistogramThresholdInUserInterfaceMode) -> (r: Self)
        ensures
            r.d.data@ == self.d.data@.update(
                0,
                field_set(self.d.data@[0], 0, 4, w.spec_code()),
            ),
    {
        let c = w.code();
        let mut d = self.d;
        d.data[0] = insert_field(d.data[0], 0, 4, c);
        BacklightControl1Write { d }
    }
}

} // verus!
