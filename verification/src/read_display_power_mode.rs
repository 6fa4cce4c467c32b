//! Parameter block of the `read-display-power-mode` command: booster, idle,
//! partial, sleep, normal-mode and display-on status bits.

use vstd::prelude::*;

use crate::bits::extract_field;
use crate::bits::field_get;
use crate::bits::field_set;
use crate::bits::insert_field;
use crate::error::CodecError;

verus! {

/// The documented codes of the `Booster` field.
#[derive(Copy, Clone, Debug, PartialEq, Eq, Structural)]
pub enum Booster {
    BoosterOffOrHasAFault,
    BoosterOnAndWorkingOk,
}

impl Booster {
    /// The wire code of this variant.
    pub open spec fn spec_code(self) -> u8 {
        match self {
            Booster::BoosterOffOrHasAFault => 0x00,
            Booster::BoosterOnAndWorkingOk => 0x01,
        }
    }

    /// The variant for a wire code, or a decode error for a code outside
    /// the documented mapping.
    pub open spec fn spec_decode(code: u8) -> Result<Booster, CodecError> {
        if code == 0x00 {
            Ok(Booster::BoosterOffOrHasAFault)
        } else if code == 0x01 {
            Ok(Booster::BoosterOnAndWorkingOk)
        } else {
            Err(CodecError::UnrecognizedCode { code })
        }
    }

    /// The wire code of this variant.
    pub fn code(self) -> (r: u8)
        ensures
            r == self.spec_code(),
    {
        match self {
            Booster::BoosterOffOrHasAFault => 0x00,
            Booster::BoosterOnAndWorkingOk => 0x01,
        }
    }

    /// Decode a wire code; a code outside the documented mapping is a
    /// recoverable error, never coerced to a variant.
    pub fn from_code(code: u8) -> (r: Result<Booster, CodecError>)
        ensures
            r == Self::spec_decode(code),
    {
        match code {
            0x00 => Ok(Booster::BoosterOffOrHasAFault),
            0x01 => Ok(Booster::BoosterOnAndWorkingOk),
            _ => Err(CodecError::UnrecognizedCode { code }),
        }
    }

    /// Decoding a variant's own code yields that variant back.
    pub proof fn lemma_code_roundtrip(self)
        ensures
            Self::spec_decode(self.spec_code()) == Ok::<Booster, CodecError>(self),
    {
    }
}

/// The documented codes of the `IdleMode` field.
#[derive(Copy, Clone, Debug, PartialEq, Eq, Structural)]
pub enum IdleMode {
    IdleModeOff,
    IdleModeOn,
}

impl IdleMode {
    /// The wire code of this variant.
    pub open spec fn spec_code(self) -> u8 {
        match self {
            IdleMode::IdleModeOff => 0x00,
            IdleMode::IdleModeOn => 0x01,
        }
    }

    /// The variant for a wire code, or a decode error for a code outside
    /// the documented mapping.
    pub open spec fn spec_decode(code: u8) -> Result<IdleMode, CodecError> {
        if code == 0x00 {
            Ok(IdleMode::IdleModeOff)
        } else if code == 0x01 {
            Ok(IdleMode::IdleModeOn)
        } else {
            Err(CodecError::UnrecognizedCode { code })
        }
    }

    /// The wire code of this variant.
    pub fn code(self) -> (r: u8)
        ensures
            r == self.spec_code(),
    {
        match self {
            IdleMode::IdleModeOff => 0x00,
            IdleMode::IdleModeOn => 0x01,
        }
    }

    /// Decode a wire code; a code outside the documented mapping is a
    /// recoverable error, never coerced to a variant.
    pub fn from_code(code: u8) -> (r: Result<IdleMode, CodecError>)
        ensures
            r == Self::spec_decode(code),
    {
        match code {
            0x00 => Ok(IdleMode::IdleModeOff),
            0x01 => Ok(IdleMode::IdleModeOn),
            _ => Err(CodecError::UnrecognizedCode { code }),
        }
    }

    /// Decoding a variant's own code yields that variant back.
    pub proof fn lemma_code_roundtrip(self)
        ensures
            Self::spec_decode(self.spec_code()) == Ok::<IdleMode, CodecError>(self),
    {
    }
}

/// The documented codes of the `PartialMode` field.
#[derive(Copy, Clone, Debug, PartialEq, Eq, Structural)]
pub enum PartialMode {
    PartialModeOff,
    PartialModeOn,
}

impl PartialMode {
    /// The wire code of this variant.
    pub open spec fn spec_code(self) -> u8 {
        match self {
            PartialMode::PartialModeOff => 0x00,
            PartialMode::PartialModeOn => 0x01,
        }
    }

    /// The variant for a wire code, or a decode error for a code outside
    /// the documented mapping.
    pub open spec fn spec_decode(code: u8) -> Result<PartialMode, CodecError> {
        if code == 0x00 {
            Ok(PartialMode::PartialModeOff)
        } else if code == 0x01 {
            Ok(PartialMode::PartialModeOn)
        } else {
            Err(CodecError::UnrecognizedCode { code })
        }
    }

    /// The wire code of this variant.
    pub fn code(self) -> (r: u8)
        ensures
            r == self.spec_code(),
    {
        match self {
            PartialMode::PartialModeOff => 0x00,
            PartialMode::PartialModeOn => 0x01,
        }
    }

    /// Decode a wire code; a code outside the documented mapping is a
    /// recoverable error, never coerced to a variant.
    pub fn from_code(code: u8) -> (r: Result<PartialMode, CodecError>)
        ensures
            r == Self::spec_decode(code),
    {
        match code {
            0x00 => Ok(PartialMode::PartialModeOff),
            0x01 => Ok(PartialMode::PartialModeOn),
            _ => Err(CodecError::UnrecognizedCode { code }),
        }
    }

    /// Decoding a variant's own code yields that variant back.
    pub proof fn lemma_code_roundtrip(self)
        ensures
            Self::spec_decode(self.spec_code()) == Ok::<PartialMode, CodecError>(self),
    {
    }
}

/// The documented codes of the `Sleep` field.
#[derive(Copy, Clone, Debug, PartialEq, Eq, Structural)]
pub enum Sleep {
    SleepInMode,
    SleepOutMode,
}

impl Sleep {
    /// The wire code of this variant.
    pub open spec fn spec_code(self) -> u8 {
        match self {
            Sleep::SleepInMode => 0x00,
            Sleep::SleepOutMode => 0x01,
        }
    }

    /// The variant for a wire code, or a decode error for a code outside
    /// the documented mapping.
    pub open spec fn spec_decode(code: u8) -> Result<Sleep, CodecError> {
        if code == 0x00 {
            Ok(Sleep::SleepInMode)
        } else if code == 0x01 {
            Ok(Sleep::SleepOutMode)
        } else {
            Err(CodecError::UnrecognizedCode { code })
        }
    }

    /// The wire code of this variant.
    pub fn code(self) -> (r: u8)
        ensures
            r == self.spec_code(),
    {
        match self {
            Sleep::SleepInMode => 0x00,
            Sleep::SleepOutMode => 0x01,
        }
    }

    /// Decode a wire code; a code outside the documented mapping is a
    /// recoverable error, never coerced to a variant.
    pub fn from_code(code: u8) -> (r: Result<Sleep, CodecError>)
        ensures
            r == Self::spec_decode(code),
    {
        match code {
            0x00 => Ok(Sleep::SleepInMode),
            0x01 => Ok(Sleep::SleepOutMode),
            _ => Err(CodecError::UnrecognizedCode { code }),
        }
    }

    /// Decoding a variant's own code yields that variant back.
    pub proof fn lemma_code_roundtrip(self)
        ensures
            Self::spec_decode(self.spec_code()) == Ok::<Sleep, CodecError>(self),
    {
    }
}

/// The documented codes of the `DisplayNormalMode` field.
#[derive(Copy, Clone, Debug, PartialEq, Eq, Structural)]
pub enum DisplayNormalMode {
    DisplayNormalModeOff,
    DisplayNormalModeOn,
}

impl DisplayNormalMode {
    /// The wire code of this variant.
    pub open spec fn spec_code(self) -> u8 {
        match self {
            DisplayNormalMode::DisplayNormalModeOff => 0x00,
            DisplayNormalMode::DisplayNormalModeOn => 0x01,
        }
    }

    /// The variant for a wire code, or a decode error for a code outside
    /// the documented mapping.
    pub open spec fn spec_decode(code: u8) -> Result<DisplayNormalMode, CodecError> {
        if code == 0x00 {
            Ok(DisplayNormalMode::DisplayNormalModeOff)
        } else if code == 0x01 {
            Ok(DisplayNormalMode::DisplayNormalModeOn)
        } else {
            Err(CodecError::UnrecognizedCode { code })
        }
    }

    /// The wire code of this variant.
    pub fn code(self) -> (r: u8)
        ensures
            r == self.spec_code(),
    {
        match self {
            DisplayNormalMode::DisplayNormalModeOff => 0x00,
            DisplayNormalMode::DisplayNormalModeOn => 0x01,
        }
    }

    /// Decode a wire code; a code outside the documented mapping is a
    /// recoverable error, never coerced to a variant.
    pub fn from_code(code: u8) -> (r: Result<DisplayNormalMode, CodecError>)
        ensures
            r == Self::spec_decode(code),
    {
        match code {
            0x00 => Ok(DisplayNormalMode::DisplayNormalModeOff),
            0x01 => Ok(DisplayNormalMode::DisplayNormalModeOn),
            _ => Err(CodecError::UnrecognizedCode { code }),
        }
    }

    /// Decoding a variant's own code yields that variant back.
    pub proof fn lemma_code_roundtrip(self)
        ensures
            Self::spec_decode(self.spec_code()) == Ok::<DisplayNormalMode, CodecError>(self),
    {
    }
}

/// The documented codes of the `DisplayIs` field.
#[derive(Copy, Clone, Debug, PartialEq, Eq, Structural)]
pub enum DisplayIs {
    DisplayIsOff,
    DisplayIsOn,
}

impl DisplayIs {
    /// The wire code of this variant.
    pub open spec fn spec_code(self) -> u8 {
        match self {
            DisplayIs::DisplayIsOff => 0x00,
            DisplayIs::DisplayIsOn => 0x01,
        }
    }

    /// The variant for a wire code, or a decode error for a code outside
    /// the documented mapping.
    pub open spec fn spec_decode(code: u8) -> Result<DisplayIs, CodecError> {
        if code == 0x00 {
            Ok(DisplayIs::DisplayIsOff)
        } else if code == 0x01 {
            Ok(DisplayIs::DisplayIsOn)
        } else {
            Err(CodecError::UnrecognizedCode { code })
        }
    }

    /// The wire code of this variant.
    pub fn code(self) -> (r: u8)
        ensures
            r == self.spec_code(),
    {
        match self {
            DisplayIs::DisplayIsOff => 0x00,
            DisplayIs::DisplayIsOn => 0x01,
        }
    }

    /// Decode a wire code; a code outside the documented mapping is a
    /// recoverable error, never coerced to a variant.
    pub fn from_code(code: u8) -> (r: Result<DisplayIs, CodecError>)
        ensures
            r == Self::spec_decode(code),
    {
        match code {
            0x00 => Ok(DisplayIs::DisplayIsOff),
            0x01 => Ok(DisplayIs::DisplayIsOn),
            _ => Err(CodecError::UnrecognizedCode { code }),
        }
    }

    /// Decoding a variant's own code yields that variant back.
    pub proof fn lemma_code_roundtrip(self)
        ensures
            Self::spec_decode(self.spec_code()) == Ok::<DisplayIs, CodecError>(self),
    {
    }
}

/// The single-byte parameter block of the `read-display-power-mode` command.
#[derive(Copy, Clone, Debug)]
pub struct DisplayPowerMode {
    pub data: [u8; 1],
}

impl DisplayPowerMode {
    /// The chip's post-reset value of this block.
    pub open spec fn spec_default() -> Seq<u8> {
        seq![0x08u8]
    }

    /// Borrow-free read view over a snapshot of the block.
    pub fn read(&self) -> (r: DisplayPowerModeRead)
        ensures
            r.d.data@ == self.data@,
    {
        DisplayPowerModeRead { d: *self }
    }

    /// Apply a builder transformation to this block and return the result.
    pub fn write<F: FnOnce(DisplayPowerModeWrite) -> DisplayPowerModeWrite>(self, f: F) -> (r: Self)
        requires
            call_requires(f, ((DisplayPowerModeWrite { d: self }),)),
        ensures
            call_ensures(f, ((DisplayPowerModeWrite { d: self }),), (DisplayPowerModeWrite { d: r })),
    {
        let w = f(DisplayPowerModeWrite { d: self });
        proof {
            assert((DisplayPowerModeWrite { d: w.d }) == w);
        }
        w.d
    }
}

impl Default for DisplayPowerMode {
    /// The block with the chip's documented post-reset byte pattern.
    fn default() -> (r: Self)
        ensures
            r.data@ == DisplayPowerMode::spec_default(),
    {
        let r = DisplayPowerMode { data: [0x08] };
        proof {
            assert(r.data@ =~= DisplayPowerMode::spec_default());
        }
        r
    }
}

/// Read view of [`DisplayPowerMode`].
#[derive(Copy, Clone)]
pub struct DisplayPowerModeRead {
    pub d: DisplayPowerMode,
}

impl DisplayPowerModeRead {
    /// `booster`: 1 bit at offset 7 of byte 0.
    pub fn booster(&self) -> (r: Result<Booster, CodecError>)
        ensures
            r == Booster::spec_decode(field_get(self.d.data@[0], 7, 1)),
    {
        Booster::from_code(extract_field(self.d.data[0], 7, 1))
    }

    /// `idle_mode`: 1 bit at offset 6 of byte 0.
    pub fn idle_mode(&self) -> (r: Result<IdleMode, CodecError>)
        ensures
            r == IdleMode::spec_decode(field_get(self.d.data@[0], 6, 1)),
    {
        IdleMode::from_code(extract_field(self.d.data[0], 6, 1))
    }

    /// `partial_mode`: 1 bit at offset 5 of byte 0.
    pub fn partial_mode(&self) -> (r: Result<PartialMode, CodecError>)
        ensures
            r == PartialMode::spec_decode(field_get(self.d.data@[0], 5, 1)),
    {
        PartialMode::from_code(extract_field(self.d.data[0], 5, 1))
    }

    /// `sleep`: 1 bit at offset 4 of byte 0.
    pub fn sleep(&self) -> (r: Result<Sleep, CodecError>)
        ensures
            r == Sleep::spec_decode(field_get(self.d.data@[0], 4, 1)),
    {
        Sleep::from_code(extract_field(self.d.data[0], 4, 1))
    }

    /// `display_normal_mode`: 1 bit at offset 3 of byte 0.
    pub fn display_normal_mode(&self) -> (r: Result<DisplayNormalMode, CodecError>)
        ensures
            r == DisplayNormalMode::spec_decode(field_get(self.d.data@[0], 3, 1)),
    {
        DisplayNormalMode::from_code(extract_field(self.d.data[0], 3, 1))
    }

    /// `display_is`: 1 bit at offset 2 of byte 0.
    pub fn display_is(&self) -> (r: Result<DisplayIs, CodecError>)
        ensures
            r == DisplayIs::spec_decode(field_get(self.d.data@[0], 2, 1)),
    {
        DisplayIs::from_code(extract_field(self.d.data[0], 2, 1))
    }
}

/// Write view of [`DisplayPowerMode`].
#[derive(Copy, Clone)]
pub struct DisplayPowerModeWrite {
    pub d: DisplayPowerMode,
}

impl DisplayPowerModeWrite {
    /// `booster`: written into 1 bit at offset 7 of byte 0; all other bits are kept.
    pub fn booster(self, w: Booster) -> (r: Self)
        ensures
            r.d.data@ == self.d.data@.update(
                0,
                field_set(self.d.data@[0], 7, 1, w.spec_code()),
            ),
    {
        let c = w.code();
        let mut d = self.d;
        d.data[0] = insert_field(d.data[0], 7, 1, c);
        DisplayPowerModeWrite { d }
    }

    /// `idle_mode`: written into 1 bit at offset 6 of byte 0; all other bits are kept.
    pub fn idle_mode(self, w: IdleMode) -> (r: Self)
        ensures
            r.d.data@ == self.d.data@.update(
                0,
                field_set(self.d.data@[0], 6, 1, w.spec_code()),
            ),
    {
        let c = w.code();
        let mut d = self.d;
        d.data[0] = insert_field(d.data[0], 6, 1, c);
        DisplayPowerModeWrite { d }
    }

    /// `partial_mode`: written into 1 bit at offset 5 of byte 0; all other bits are kept.
    pub fn partial_mode(self, w: PartialMode) -> (r: Self)
        ensures
            r.d.data@ == self.d.data@.update(
                0,
                field_set(self.d.data@[0], 5, 1, w.spec_code()),
            ),
    {
        let c = w.code();
        let mut d = self.d;
        d.data[0] = insert_field(d.data[0], 5, 1, c);
        DisplayPowerModeWrite { d }
    }

    /// `sleep`: written into 1 bit at offset 4 of byte 0; all other bits are kept.
    pub fn sleep(self, w: Sleep) -> (r: Self)
        ensures
            r.d.data@ == self.d.data@.update(
                0,
                field_set(self.d.data@[0], 4, 1, w.spec_code()),
            ),
    {
        let c = w.code();
        let mut d = self.d;
        d.data[0] = insert_field(d.data[0], 4, 1, c);
        DisplayPowerModeWrite { d }
    }

    /// `display_normal_mode`: written into 1 bit at offset 3 of byte 0; all other bits are kept.
    pub fn display_normal_mode(self, w: DisplayNormalMode) -> (r: Self)
        ensures
            r.d.data@ == self.d.data@.update(
                0,
                field_set(self.d.data@[0], 3, 1, w.spec_code()),
            ),
    {
        let c = w.code();
        let mut d = self.d;
        d.data[0] = insert_field(d.data[0], 3, 1, c);
        DisplayPowerModeWrite { d }
    }

    /// `display_is`: written into 1 bit at offset 2 of byte 0; all other bits are kept.
    pub fn display_is(self, w: DisplayIs) -> (r: Self)
        ensures
            r.d.data@ == self.d.data@.update(
                0,
                field_set(self.d.data@[0], 2, 1, w.spec_code()),
            ),
    {
        let c = w.code();
        let mut d = self.d;
        d.data[0] = insert_field(d.data[0], 2, 1, c);
        DisplayPowerModeWrite { d }
    }
}

} // verus!
