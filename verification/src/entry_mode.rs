//! Parameter block of the `entry-mode` command: deep standby, gate output level
//! and low-voltage detection.

use vstd::prelude::*;

use crate::bits::extract_field;
use crate::bits::field_get;
use crate::bits::field_set;
use crate::bits::insert_field;
use crate::error::CodecError;

verus! {

/// The documented codes of the `G1G320GateOutput` field.
#[derive(Copy, Clone, Debug, PartialEq, Eq, Structural)]
pub enum G1G320GateOutput {
    Vgh,
    Vgl,
    NormalDisplay,
}

impl G1G320GateOutput {
    /// The wire code of this variant.
    pub open spec fn spec_code(self) -> u8 {
        match self {
            G1G320GateOutput::Vgh => 0x01,
            G1G320GateOutput::Vgl => 0x02,
            G1G320GateOutput::NormalDisplay => 0x03,
        }
    }

    /// The variant for a wire code, or a decode error for a code outside
    /// the documented mapping.
    pub open spec fn spec_decode(code: u8) -> Result<G1G320GateOutput, CodecError> {
        if code == 0x01 {
            Ok(G1G320GateOutput::Vgh)
        } else if code == 0x02 {
            Ok(G1G320GateOutput::Vgl)
        } else if code == 0x03 {
            Ok(G1G320GateOutput::NormalDisplay)
        } else {
            Err(CodecError::UnrecognizedCode { code })
        }
    }

    /// The wire code of this variant.
    pub fn code(self) -> (r: u8)
        ensures
            r == self.spec_code(),
    {
        match self {
            G1G320GateOutput::Vgh => 0x01,
            G1G320GateOutput::Vgl => 0x02,
            G1G320GateOutput::NormalDisplay => 0x03,
        }
    }

    /// Decode a wire code; a code outside the documented mapping is a
    /// recoverable error, never coerced to a variant.
    pub fn from_code(code: u8) -> (r: Result<G1G320GateOutput, CodecError>)
        ensures
            r == Self::spec_decode(code),
    {
        match code {
            0x01 => Ok(G1G320GateOutput::Vgh),
            0x02 => Ok(G1G320GateOutput::Vgl),
            0x03 => Ok(G1G320GateOutput::NormalDisplay),
            _ => Err(CodecError::UnrecognizedCode { code }),
        }
    }

    /// Decoding a variant's own code yields that variant back.
    pub proof fn lemma_code_roundtrip(self)
        ensures
            Self::spec_decode(self.spec_code()) == Ok::<G1G320GateOutput, CodecError>(self),
    {
    }
}

/// The documented codes of the `LowVoltageDetection` field.
#[derive(Copy, Clone, Debug, PartialEq, Eq, Structural)]
pub enum LowVoltageDetection {
    Enable,
    Disable,
}

impl LowVoltageDetection {
    /// The wire code of this variant.
    pub open spec fn spec_code(self) -> u8 {
        match self {
            LowVoltageDetection::Enable => 0x00,
            LowVoltageDetection::Disable => 0x01,
        }
    }

    /// The variant for a wire code, or a decode error for a code outside
    /// the documented mapping.
    pub open spec fn spec_decode(code: u8) -> Result<LowVoltageDetection, CodecError> {
        if code == 0x00 {
            Ok(LowVoltageDetection::Enable)
        } else if code == 0x01 {
            Ok(LowVoltageDetection::Disable)
        } else {
            Err(CodecError::UnrecognizedCode { code })
        }
    }

    /// The wire code of this variant.
    pub fn code(self) -> (r: u8)
        ensures
            r == self.spec_code(),
    {
        match self {
            LowVoltageDetection::Enable => 0x00,
            LowVoltageDetection::Disable => 0x01,
        }
    }

    /// Decode a wire code; a code outside the documented mapping is a
    /// recoverable error, never coerced to a variant.
    pub fn from_code(code: u8) -> (r: Result<LowVoltageDetection, CodecError>)
        ensures
            r == Self::spec_decode(code),
    {
        match code {
            0x00 => Ok(LowVoltageDetection::Enable),
            0x01 => Ok(LowVoltageDetection::Disable),
            _ => Err(CodecError::UnrecognizedCode { code }),
        }
    }

    /// Decoding a variant's own code yields that variant back.
    pub proof fn lemma_code_roundtrip(self)
        ensures
            Self::spec_decode(self.spec_code()) == Ok::<LowVoltageDetection, CodecError>(self),
    {
    }
}

/// The single-byte parameter block of the `entry-mode` command.
#[derive(Copy, Clone, Debug)]
pub struct EntryModeSet {
    pub data: [u8; 1],
}

impl EntryModeSet {
    /// The chip's post-reset value of this block.
    pub open spec fn spec_default() -> Seq<u8> {
        seq![0x06u8]
    }

    /// Borrow-free read view over a snapshot of the block.
    pub fn read(&self) -> (r: EntryModeSetRead)
        ensures
            r.d.data@ == self.data@,
    {
        EntryModeSetRead { d: *self }
    }

    /// Apply a builder transformation to this block and return the result.
    pub fn write<F: FnOnce(EntryModeSetWrite) -> EntryModeSetWrite>(self, f: F) -> (r: Self)
        requires
            call_requires(f, ((EntryModeSetWrite { d: self }),)),
        ensures
            call_ensures(f, ((EntryModeSetWrite { d: self }),), (EntryModeSetWrite { d: r })),
    {
        let w = f(EntryModeSetWrite { d: self });
        proof {
            assert((EntryModeSetWrite { d: w.d }) == w);
        }
        w.d
    }
}

impl Default for EntryModeSet {
    /// The block with the chip's documented post-reset byte pattern.
    fn default() -> (r: Self)
        ensures
            r.data@ == EntryModeSet::spec_default(),
    {
        let r = EntryModeSet { data: [0x06] };
        proof {
            assert(r.data@ =~= EntryModeSet::spec_default());
        }
        r
    }
}

/// Read view of [`EntryModeSet`].
#[derive(Copy, Clone)]
pub struct EntryModeSetRead {
    pub d: EntryModeSet,
}

impl EntryModeSetRead {
    /// `deep_standby_mode`: 1 bit at offset 3 of byte 0.
    pub fn deep_standby_mode(&self) -> (r: bool)
        ensures
            r == (field_get(self.d.data@[0], 3, 1) != 0),
    {
        extract_field(self.d.data[0], 3, 1) != 0
    }

    /// `g1_g320_gate_output`: 2 bits at offset 1 of byte 0.
    pub fn g1_g320_gate_output(&self) -> (r: Result<G1G320GateOutput, CodecError>)
        ensures
            r == G1G320GateOutput::spec_decode(field_get(self.d.data@[0], 1, 2)),
    {
        G1G320GateOutput::from_code(extract_field(self.d.data[0], 1, 2))
    }

    /// `low_voltage_detection`: 1 bit at offset 0 of byte 0.
    pub fn low_voltage_detection(&self) -> (r: Result<LowVoltageDetection, CodecError>)
        ensures
            r == LowVoltageDetection::spec_decode(field_get(self.d.data@[0], 0, 1)),
    {
        LowVoltageDetection::from_code(extract_field(self.d.data[0], 0, 1))
    }
}

/// Write view of [`EntryModeSet`].
#[derive(Copy, Clone)]
pub struct EntryModeSetWrite {
    pub d: EntryModeSet,
}

impl EntryModeSetWrite {
    /// `deep_standby_mode`: written into 1 bit at offset 3 of byte 0; all other bits are kept.
    pub fn deep_standby_mode(self, w: bool) -> (r: Self)
        ensures
            r.d.data@ == self.d.data@.update(
                0,
                field_set(self.d.data@[0], 3, 1, (if w { 1u8 } else { 0u8 })),
            ),
    {
        let mut d = self.d;
        d.data[0] = insert_field(d.data[0], 3, 1, if w { 1 } else { 0 });
        EntryModeSetWrite { d }
    }

    /// `g1_g320_gate_output`: written into 2 bits at offset 1 of byte 0; all other bits are kept.
    pub fn g1_g320_gate_output(self, w: G1G320GateOutput) -> (r: Self)
        ensures
            r.d.data@ == self.d.data@.update(
                0,
                field_set(self.d.data@[0], 1, 2, w.spec_code()),
            ),
    {
        let c = w.code();
        let mut d = self.d;
        d.data[0] = insert_field(d.data[0], 1, 2, c);
        EntryModeSetWrite { d }
    }

    /// `low_voltage_detection`: written into 1 bit at offset 0 of byte 0; all other bits are kept.
    pub fn low_voltage_detection(self, w: LowVoltageDetection) -> (r: Self)
        ensures
            r.d.data@ == self.d.data@.update(
                0,
                field_set(self.d.data@[0], 0, 1, w.spec_code()),
            ),
    {
        let c = w.code();
        let mut d = self.d;
        d.data[0] = insert_field(d.data[0], 0, 1, c);
        EntryModeSetWrite { d }
    }
}

} // verus!
