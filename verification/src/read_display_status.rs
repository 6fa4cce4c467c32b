//! Parameter block of the `read-display-status` command: the display status word: addressing
//! orders, pixel format, power and tearing-effect state.

use vstd::prelude::*;

use crate::bits::extract_field;
use crate::bits::field_get;
use crate::bits::field_set;
use crate::bits::insert_field;
use crate::error::CodecError;

verus! {

/// The documented codes of the `BoosterVoltageStatus` field.
#[derive(Copy, Clone, Debug, PartialEq, Eq, Structural)]
pub enum BoosterVoltageStatus {
    BoosterOff,
    BoosterOn,
}

impl BoosterVoltageStatus {
    /// The wire code of this variant.
    pub open spec fn spec_code(self) -> u8 {
        match self {
            BoosterVoltageStatus::BoosterOff => 0x00,
            BoosterVoltageStatus::BoosterOn => 0x01,
        }
    }

    /// The variant for a wire code, or a decode error for a code outside
    /// the documented mapping.
    pub open spec fn spec_decode(code: u8) -> Result<BoosterVoltageStatus, CodecError> {
        if code == 0x00 {
            Ok(BoosterVoltageStatus::BoosterOff)
        } else if code == 0x01 {
            Ok(BoosterVoltageStatus::BoosterOn)
        } else {
            Err(CodecError::UnrecognizedCode { code })
        }
    }

    /// The wire code of this variant.
    pub fn code(self) -> (r: u8)
        ensures
            r == self.spec_code(),
    {
        match self {
            BoosterVoltageStatus::BoosterOff => 0x00,
            BoosterVoltageStatus::BoosterOn => 0x01,
        }
    }

    /// Decode a wire code; a code outside the documented mapping is a
    /// recoverable error, never coerced to a variant.
    pub fn from_code(code: u8) -> (r: Result<BoosterVoltageStatus, CodecError>)
        ensures
            r == Self::spec_decode(code),
    {
        match code {
            0x00 => Ok(BoosterVoltageStatus::BoosterOff),
            0x01 => Ok(BoosterVoltageStatus::BoosterOn),
            _ => Err(CodecError::UnrecognizedCode { code }),
        }
    }

    /// Decoding a variant's own code yields that variant back.
    pub proof fn lemma_code_roundtrip(self)
        ensures
            Self::spec_decode(self.spec_code()) == Ok::<BoosterVoltageStatus, CodecError>(self),
    {
    }
}

/// The documented codes of the `RowAddressOrder` field.
#[derive(Copy, Clone, Debug, PartialEq, Eq, Structural)]
pub enum RowAddressOrder {
    TopToBottomWhenMadctlB7Eq0,
    BottomToTopWhenMadctlB7Eq1,
}

impl RowAddressOrder {
    /// The wire code of this variant.
    pub open spec fn spec_code(self) -> u8 {
        match self {
            RowAddressOrder::TopToBottomWhenMadctlB7Eq0 => 0x00,
            RowAddressOrder::BottomToTopWhenMadctlB7Eq1 => 0x01,
        }
    }

    /// The variant for a wire code, or a decode error for a code outside
    /// the documented mapping.
    pub open spec fn spec_decode(code: u8) -> Result<RowAddressOrder, CodecError> {
        if code == 0x00 {
            Ok(RowAddressOrder::TopToBottomWhenMadctlB7Eq0)
        } else if code == 0x01 {
            Ok(RowAddressOrder::BottomToTopWhenMadctlB7Eq1)
        } else {
            Err(CodecError::UnrecognizedCode { code })
        }
    }

    /// The wire code of this variant.
    pub fn code(self) -> (r: u8)
        ensures
            r == self.spec_code(),
    {
        match self {
            RowAddressOrder::TopToBottomWhenMadctlB7Eq0 => 0x00,
            RowAddressOrder::BottomToTopWhenMadctlB7Eq1 => 0x01,
        }
    }

    /// Decode a wire code; a code outside the documented mapping is a
    /// recoverable error, never coerced to a variant.
    pub fn from_code(code: u8) -> (r: Result<RowAddressOrder, CodecError>)
        ensures
            r == Self::spec_decode(code),
    {
        match code {
            0x00 => Ok(RowAddressOrder::TopToBottomWhenMadctlB7Eq0),
            0x01 => Ok(RowAddressOrder::BottomToTopWhenMadctlB7Eq1),
            _ => Err(CodecError::UnrecognizedCode { code }),
        }
    }

    /// Decoding a variant's own code yields that variant back.
    pub proof fn lemma_code_roundtrip(self)
        ensures
            Self::spec_decode(self.spec_code()) == Ok::<RowAddressOrder, CodecError>(self),
    {
    }
}

/// The documented codes of the `ColumnAddressOrder` field.
#[derive(Copy, Clone, Debug, PartialEq, Eq, Structural)]
pub enum ColumnAddressOrder {
    LeftToRightWhenMadctlB6Eq0,
    RightToLeftWhenMadctlB6Eq1,
}

impl ColumnAddressOrder {
    /// The wire code of this variant.
    pub open spec fn spec_code(self) -> u8 {
        match self {
            ColumnAddressOrder::LeftToRightWhenMadctlB6Eq0 => 0x00,
            ColumnAddressOrder::RightToLeftWhenMadctlB6Eq1 => 0x01,
        }
    }

    /// The variant for a wire code, or a decode error for a code outside
    /// the documented mapping.
    pub open spec fn spec_decode(code: u8) -> Result<ColumnAddressOrder, CodecError> {
        if code == 0x00 {
            Ok(ColumnAddressOrder::LeftToRightWhenMadctlB6Eq0)
        } else if code == 0x01 {
            Ok(ColumnAddressOrder::RightToLeftWhenMadctlB6Eq1)
        } else {
            Err(CodecError::UnrecognizedCode { code })
        }
    }

    /// The wire code of this variant.
    pub fn code(self) -> (r: u8)
        ensures
            r == self.spec_code(),
    {
        match self {
            ColumnAddressOrder::LeftToRightWhenMadctlB6Eq0 => 0x00,
            ColumnAddressOrder::RightToLeftWhenMadctlB6Eq1 => 0x01,
        }
    }

    /// Decode a wire code; a code outside the documented mapping is a
    /// recoverable error, never coerced to a variant.
    pub fn from_code(code: u8) -> (r: Result<ColumnAddressOrder, CodecError>)
        ensures
            r == Self::spec_decode(code),
    {
        match code {
            0x00 => Ok(ColumnAddressOrder::LeftToRightWhenMadctlB6Eq0),
            0x01 => Ok(ColumnAddressOrder::RightToLeftWhenMadctlB6Eq1),
            _ => Err(CodecError::UnrecognizedCode { code }),
        }
    }

    /// Decoding a variant's own code yields that variant back.
    pub proof fn lemma_code_roundtrip(self)
        ensures
            Self::spec_decode(self.spec_code()) == Ok::<ColumnAddressOrder, CodecError>(self),
    {
    }
}

/// The documented codes of the `RowColumnExchange` field.
#[derive(Copy, Clone, Debug, PartialEq, Eq, Structural)]
pub enum RowColumnExchange {
    NormalModeWhenMadctlB5Eq0,
    ReverseModeWhenMadctlB5Eq1,
}

impl RowColumnExchange {
    /// The wire code of this variant.
    pub open spec fn spec_code(self) -> u8 {
        match self {
            RowColumnExchange::NormalModeWhenMadctlB5Eq0 => 0x00,
            RowColumnExchange::ReverseModeWhenMadctlB5Eq1 => 0x01,
        }
    }

    /// The variant for a wire code, or a decode error for a code outside
    /// the documented mapping.
    pub open spec fn spec_decode(code: u8) -> Result<RowColumnExchange, CodecError> {
        if code == 0x00 {
            Ok(RowColumnExchange::NormalModeWhenMadctlB5Eq0)
        } else if code == 0x01 {
            Ok(RowColumnExchange::ReverseModeWhenMadctlB5Eq1)
        } else {
            Err(CodecError::UnrecognizedCode { code })
        }
    }

    /// The wire code of this variant.
    pub fn code(self) -> (r: u8)
        ensures
            r == self.spec_code(),
    {
        match self {
            RowColumnExchange::NormalModeWhenMadctlB5Eq0 => 0x00,
            RowColumnExchange::ReverseModeWhenMadctlB5Eq1 => 0x01,
        }
    }

    /// Decode a wire code; a code outside the documented mapping is a
    /// recoverable error, never coerced to a variant.
    pub fn from_code(code: u8) -> (r: Result<RowColumnExchange, CodecError>)
        ensures
            r == Self::spec_decode(code),
    {
        match code {
            0x00 => Ok(RowColumnExchange::NormalModeWhenMadctlB5Eq0),
            0x01 => Ok(RowColumnExchange::ReverseModeWhenMadctlB5Eq1),
            _ => Err(CodecError::UnrecognizedCode { code }),
        }
    }

    /// Decoding a variant's own code yields that variant back.
    pub proof fn lemma_code_roundtrip(self)
        ensures
            Self::spec_decode(self.spec_code()) == Ok::<RowColumnExchange, CodecError>(self),
    {
    }
}

/// The documented codes of the `VerticalRefresh` field.
#[derive(Copy, Clone, Debug, PartialEq, Eq, Structural)]
pub enum VerticalRefresh {
    LcdRefreshTopToBottomWhenMadctlB4Eq0,
    LcdRefreshBottomToTopWhenMadctlB4Eq1,
}

impl VerticalRefresh {
    /// The wire code of this variant.
    pub open spec fn spec_code(self) -> u8 {
        match self {
            VerticalRefresh::LcdRefreshTopToBottomWhenMadctlB4Eq0 => 0x00,
            VerticalRefresh::LcdRefreshBottomToTopWhenMadctlB4Eq1 => 0x01,
        }
    }

    /// The variant for a wire code, or a decode error for a code outside
    /// the documented mapping.
    pub open spec fn spec_decode(code: u8) -> Result<VerticalRefresh, CodecError> {
        if code == 0x00 {
            Ok(VerticalRefresh::LcdRefreshTopToBottomWhenMadctlB4Eq0)
        } else if code == 0x01 {
            Ok(VerticalRefresh::LcdRefreshBottomToTopWhenMadctlB4Eq1)
        } else {
            Err(CodecError::UnrecognizedCode { code })
        }
    }

    /// The wire code of this variant.
    pub fn code(self) -> (r: u8)
        ensures
            r == self.spec_code(),
    {
        match self {
            VerticalRefresh::LcdRefreshTopToBottomWhenMadctlB4Eq0 => 0x00,
            VerticalRefresh::LcdRefreshBottomToTopWhenMadctlB4Eq1 => 0x01,
        }
    }

    /// Decode a wire code; a code outside the documented mapping is a
    /// recoverable error, never coerced to a variant.
    pub fn from_code(code: u8) -> (r: Result<VerticalRefresh, CodecError>)
        ensures
            r == Self::spec_decode(code),
    {
        match code {
            0x00 => Ok(VerticalRefresh::LcdRefreshTopToBottomWhenMadctlB4Eq0),
            0x01 => Ok(VerticalRefresh::LcdRefreshBottomToTopWhenMadctlB4Eq1),
            _ => Err(CodecError::UnrecognizedCode { code }),
        }
    }

    /// Decoding a variant's own code yields that variant back.
    pub proof fn lemma_code_roundtrip(self)
        ensures
            Self::spec_decode(self.spec_code()) == Ok::<VerticalRefresh, CodecError>(self),
    {
    }
}

/// The documented codes of the `RgbBgrOrder` field.
#[derive(Copy, Clone, Debug, PartialEq, Eq, Structural)]
pub enum RgbBgrOrder {
    RgbWhenMadctlB3Eq0,
    BgrWhenMadctlB3Eq1,
}

impl RgbBgrOrder {
    /// The wire code of this variant.
    pub open spec fn spec_code(self) -> u8 {
        match self {
            RgbBgrOrder::RgbWhenMadctlB3Eq0 => 0x00,
            RgbBgrOrder::BgrWhenMadctlB3Eq1 => 0x01,
        }
    }

    /// The variant for a wire code, or a decode error for a code outside
    /// the documented mapping.
    pub open spec fn spec_decode(code: u8) -> Result<RgbBgrOrder, CodecError> {
        if code == 0x00 {
            Ok(RgbBgrOrder::RgbWhenMadctlB3Eq0)
        } else if code == 0x01 {
            Ok(RgbBgrOrder::BgrWhenMadctlB3Eq1)
        } else {
            Err(CodecError::UnrecognizedCode { code })
        }
    }

    /// The wire code of this variant.
    pub fn code(self) -> (r: u8)
        ensures
            r == self.spec_code(),
    {
        match self {
            RgbBgrOrder::RgbWhenMadctlB3Eq0 => 0x00,
            RgbBgrOrder::BgrWhenMadctlB3Eq1 => 0x01,
        }
    }

    /// Decode a wire code; a code outside the documented mapping is a
    /// recoverable error, never coerced to a variant.
    pub fn from_code(code: u8) -> (r: Result<RgbBgrOrder, CodecError>)
        ensures
            r == Self::spec_decode(code),
    {
        match code {
            0x00 => Ok(RgbBgrOrder::RgbWhenMadctlB3Eq0),
            0x01 => Ok(RgbBgrOrder::BgrWhenMadctlB3Eq1),
            _ => Err(CodecError::UnrecognizedCode { code }),
        }
    }

    /// Decoding a variant's own code yields that variant back.
    pub proof fn lemma_code_roundtrip(self)
        ensures
            Self::spec_decode(self.spec_code()) == Ok::<RgbBgrOrder, CodecError>(self),
    {
    }
}

/// The documented codes of the `HorizontalRefreshOrder` field.
#[derive(Copy, Clone, Debug, PartialEq, Eq, Structural)]
pub enum HorizontalRefreshOrder {
    LcdRefreshLeftToRightWhenMadctlB2Eq0,
    LcdRefreshRightToLeftWhenMadctlB2Eq1,
}

impl HorizontalRefreshOrder {
    /// The wire code of this variant.
    pub open spec fn spec_code(self) -> u8 {
        match self {
            HorizontalRefreshOrder::LcdRefreshLeftToRightWhenMadctlB2Eq0 => 0x00,
            HorizontalRefreshOrder::LcdRefreshRightToLeftWhenMadctlB2Eq1 => 0x01,
        }
    }

    /// The variant for a wire code, or a decode error for a code outside
    /// the documented mapping.
    pub open spec fn spec_decode(code: u8) -> Result<HorizontalRefreshOrder, CodecError> {
        if code == 0x00 {
            Ok(HorizontalRefreshOrder::LcdRefreshLeftToRightWhenMadctlB2Eq0)
        } else if code == 0x01 {
            Ok(HorizontalRefreshOrder::LcdRefreshRightToLeftWhenMadctlB2Eq1)
        } else {
            Err(CodecError::UnrecognizedCode { code })
        }
    }

    /// The wire code of this variant.
    pub fn code(self) -> (r: u8)
        ensures
            r == self.spec_code(),
    {
        match self {
            HorizontalRefreshOrder::LcdRefreshLeftToRightWhenMadctlB2Eq0 => 0x00,
            HorizontalRefreshOrder::LcdRefreshRightToLeftWhenMadctlB2Eq1 => 0x01,
        }
    }

    /// Decode a wire code; a code outside the documented mapping is a
    /// recoverable error, never coerced to a variant.
    pub fn from_code(code: u8) -> (r: Result<HorizontalRefreshOrder, CodecError>)
        ensures
            r == Self::spec_decode(code),
    {
        match code {
            0x00 => Ok(HorizontalRefreshOrder::LcdRefreshLeftToRightWhenMadctlB2Eq0),
            0x01 => Ok(HorizontalRefreshOrder::LcdRefreshRightToLeftWhenMadctlB2Eq1),
            _ => Err(CodecError::UnrecognizedCode { code }),
        }
    }

    /// Decoding a variant's own code yields that variant back.
    pub proof fn lemma_code_roundtrip(self)
        ensures
            Self::spec_decode(self.spec_code()) == Ok::<HorizontalRefreshOrder, CodecError>(self),
    {
    }
}

/// The documented codes of the `InterfaceColorPixelFormat` field.
#[derive(Copy, Clone, Debug, PartialEq, Eq, Structural)]
pub enum InterfaceColorPixelFormat {
    N16BitPerPixel,
    N18BitPerPixel,
}

impl InterfaceColorPixelFormat {
    /// The wire code of this variant.
    pub open spec fn spec_code(self) -> u8 {
        match self {
            InterfaceColorPixelFormat::N16BitPerPixel => 0x05,
            InterfaceColorPixelFormat::N18BitPerPixel => 0x06,
        }
    }

    /// The variant for a wire code, or a decode error for a code outside
    /// the documented mapping.
    pub open spec fn spec_decode(code: u8) -> Result<InterfaceColorPixelFormat, CodecError> {
        if code == 0x05 {
            Ok(InterfaceColorPixelFormat::N16BitPerPixel)
        } else if code == 0x06 {
            Ok(InterfaceColorPixelFormat::N18BitPerPixel)
        } else {
            Err(CodecError::UnrecognizedCode { code })
        }
    }

    /// The wire code of this variant.
    pub fn code(self) -> (r: u8)
        ensures
            r == self.spec_code(),
    {
        match self {
            InterfaceColorPixelFormat::N16BitPerPixel => 0x05,
            InterfaceColorPixelFormat::N18BitPerPixel => 0x06,
        }
    }

    /// Decode a wire code; a code outside the documented mapping is a
    /// recoverable error, never coerced to a variant.
    pub fn from_code(code: u8) -> (r: Result<InterfaceColorPixelFormat, CodecError>)
        ensures
            r == Self::spec_decode(code),
    {
        match code {
            0x05 => Ok(InterfaceColorPixelFormat::N16BitPerPixel),
            0x06 => Ok(InterfaceColorPixelFormat::N18BitPerPixel),
            _ => Err(CodecError::UnrecognizedCode { code }),
        }
    }

    /// Decoding a variant's own code yields that variant back.
    pub proof fn lemma_code_roundtrip(self)
        ensures
            Self::spec_decode(self.spec_code()) == Ok::<InterfaceColorPixelFormat, CodecError>(self),
    {
    }
}

/// The documented codes of the `IdleMode` field.
#[derive(Copy, Clone, Debug, PartialEq, Eq, Structural)]
pub enum IdleMode {
    IdleModeOff,
    IdleModeOn,
}

impl IdleMode {
    /// The wire code of this variant.
    pub open spec fn spec_code(self) -> u8 {
        match self {
            IdleMode::IdleModeOff => 0x00,
            IdleMode::IdleModeOn => 0x01,
        }
    }

    /// The variant for a wire code, or a decode error for a code outside
    /// the documented mapping.
    pub open spec fn spec_decode(code: u8) -> Result<IdleMode, CodecError> {
        if code == 0x00 {
            Ok(IdleMode::IdleModeOff)
        } else if code == 0x01 {
            Ok(IdleMode::IdleModeOn)
        } else {
            Err(CodecError::UnrecognizedCode { code })
        }
    }

    /// The wire code of this variant.
    pub fn code(self) -> (r: u8)
        ensures
            r == self.spec_code(),
    {
        match self {
            IdleMode::IdleModeOff => 0x00,
            IdleMode::IdleModeOn => 0x01,
        }
    }

    /// Decode a wire code; a code outside the documented mapping is a
    /// recoverable error, never coerced to a variant.
    pub fn from_code(code: u8) -> (r: Result<IdleMode, CodecError>)
        ensures
            r == Self::spec_decode(code),
    {
        match code {
            0x00 => Ok(IdleMode::IdleModeOff),
            0x01 => Ok(IdleMode::IdleModeOn),
            _ => Err(CodecError::UnrecognizedCode { code }),
        }
    }

    /// Decoding a variant's own code yields that variant back.
    pub proof fn lemma_code_roundtrip(self)
        ensures
            Self::spec_decode(self.spec_code()) == Ok::<IdleMode, CodecError>(self),
    {
    }
}

/// The documented codes of the `PartialMode` field.
#[derive(Copy, Clone, Debug, PartialEq, Eq, Structural)]
pub enum PartialMode {
    PartialModeOff,
    PartialModeOn,
}

impl PartialMode {
    /// The wire code of this variant.
    pub open spec fn spec_code(self) -> u8 {
        match self {
            PartialMode::PartialModeOff => 0x00,
            PartialMode::PartialModeOn => 0x01,
        }
    }

    /// The variant for a wire code, or a decode error for a code outside
    /// the documented mapping.
    pub open spec fn spec_decode(code: u8) -> Result<PartialMode, CodecError> {
        if code == 0x00 {
            Ok(PartialMode::PartialModeOff)
        } else if code == 0x01 {
            Ok(PartialMode::PartialModeOn)
        } else {
            Err(CodecError::UnrecognizedCode { code })
        }
    }

    /// The wire code of this variant.
    pub fn code(self) -> (r: u8)
        ensures
            r == self.spec_code(),
    {
        match self {
            PartialMode::PartialModeOff => 0x00,
            PartialMode::PartialModeOn => 0x01,
        }
    }

    /// Decode a wire code; a code outside the documented mapping is a
    /// recoverable error, never coerced to a variant.
    pub fn from_code(code: u8) -> (r: Result<PartialMode, CodecError>)
        ensures
            r == Self::spec_decode(code),
    {
        match code {
            0x00 => Ok(PartialMode::PartialModeOff),
            0x01 => Ok(PartialMode::PartialModeOn),
            _ => Err(CodecError::UnrecognizedCode { code }),
        }
    }

    /// Decoding a variant's own code yields that variant back.
    pub proof fn lemma_code_roundtrip(self)
        ensures
            Self::spec_decode(self.spec_code()) == Ok::<PartialMode, CodecError>(self),
    {
    }
}

/// The documented codes of the `Sleep` field.
#[derive(Copy, Clone, Debug, PartialEq, Eq, Structural)]
pub enum Sleep {
    SleepInMode,
    SleepOutMode,
}

impl Sleep {
    /// The wire code of this variant.
    pub open spec fn spec_code(self) -> u8 {
        match self {
            Sleep::SleepInMode => 0x00,
            Sleep::SleepOutMode => 0x01,
        }
    }

    /// The variant for a wire code, or a decode error for a code outside
    /// the documented mapping.
    pub open spec fn spec_decode(code: u8) -> Result<Sleep, CodecError> {
        if code == 0x00 {
            Ok(Sleep::SleepInMode)
        } else if code == 0x01 {
            Ok(Sleep::SleepOutMode)
        } else {
            Err(CodecError::UnrecognizedCode { code })
        }
    }

    /// The wire code of this variant.
    pub fn code(self) -> (r: u8)
        ensures
            r == self.spec_code(),
    {
        match self {
            Sleep::SleepInMode => 0x00,
            Sleep::SleepOutMode => 0x01,
        }
    }

    /// Decode a wire code; a code outside the documented mapping is a
    /// recoverable error, never coerced to a variant.
    pub fn from_code(code: u8) -> (r: Result<Sleep, CodecError>)
        ensures
            r == Self::spec_decode(code),
    {
        match code {
            0x00 => Ok(Sleep::SleepInMode),
            0x01 => Ok(Sleep::SleepOutMode),
            _ => Err(CodecError::UnrecognizedCode { code }),
        }
    }

    /// Decoding a variant's own code yields that variant back.
    pub proof fn lemma_code_roundtrip(self)
        ensures
            Self::spec_decode(self.spec_code()) == Ok::<Sleep, CodecError>(self),
    {
    }
}

/// The documented codes of the `DisplayNormalMode` field.
#[derive(Copy, Clone, Debug, PartialEq, Eq, Structural)]
pub enum DisplayNormalMode {
    DisplayNormalModeOff,
    DisplayNormalModeOn,
}

impl DisplayNormalMode {
    /// The wire code of this variant.
    pub open spec fn spec_code(self) -> u8 {
        match self {
            DisplayNormalMode::DisplayNormalModeOff => 0x00,
            DisplayNormalMode::DisplayNormalModeOn => 0x01,
        }
    }

    /// The variant for a wire code, or a decode error for a code outside
    /// the documented mapping.
    pub open spec fn spec_decode(code: u8) -> Result<DisplayNormalMode, CodecError> {
        if code == 0x00 {
            Ok(DisplayNormalMode::DisplayNormalModeOff)
        } else if code == 0x01 {
            Ok(DisplayNormalMode::DisplayNormalModeOn)
        } else {
            Err(CodecError::UnrecognizedCode { code })
        }
    }

    /// The wire code of this variant.
    pub fn code(self) -> (r: u8)
        ensures
            r == self.spec_code(),
    {
        match self {
            DisplayNormalMode::DisplayNormalModeOff => 0x00,
            DisplayNormalMode::DisplayNormalModeOn => 0x01,
        }
    }

    /// Decode a wire code; a code outside the documented mapping is a
    /// recoverable error, never coerced to a variant.
    pub fn from_code(code: u8) -> (r: Result<DisplayNormalMode, CodecError>)
        ensures
            r == Self::spec_decode(code),
    {
        match code {
            0x00 => Ok(DisplayNormalMode::DisplayNormalModeOff),
            0x01 => Ok(DisplayNormalMode::DisplayNormalModeOn),
            _ => Err(CodecError::UnrecognizedCode { code }),
        }
    }

    /// Decoding a variant's own code yields that variant back.
    pub proof fn lemma_code_roundtrip(self)
        ensures
            Self::spec_decode(self.spec_code()) == Ok::<DisplayNormalMode, CodecError>(self),
    {
    }
}

/// The documented codes of the `VerticalScrollingStatus` field.
#[derive(Copy, Clone, Debug, PartialEq, Eq, Structural)]
pub enum VerticalScrollingStatus {
    ScrollOff,
}

impl VerticalScrollingStatus {
    /// The wire code of this variant.
    pub open spec fn spec_code(self) -> u8 {
        match self {
            VerticalScrollingStatus::ScrollOff => 0x00,
        }
    }

    /// The variant for a wire code, or a decode error for a code outside
    /// the documented mapping.
    pub open spec fn spec_decode(code: u8) -> Result<VerticalScrollingStatus, CodecError> {
        if code == 0x00 {
            Ok(VerticalScrollingStatus::ScrollOff)
        } else {
            Err(CodecError::UnrecognizedCode { code })
        }
    }

    /// The wire code of this variant.
    pub fn code(self) -> (r: u8)
        ensures
            r == self.spec_code(),
    {
        match self {
            VerticalScrollingStatus::ScrollOff => 0x00,
        }
    }

    /// Decode a wire code; a code outside the documented mapping is a
    /// recoverable error, never coerced to a variant.
    pub fn from_code(code: u8) -> (r: Result<VerticalScrollingStatus, CodecError>)
        ensures
            r == Self::spec_decode(code),
    {
        match code {
            0x00 => Ok(VerticalScrollingStatus::ScrollOff),
            _ => Err(CodecError::UnrecognizedCode { code }),
        }
    }

    /// Decoding a variant's own code yields that variant back.
    pub proof fn lemma_code_roundtrip(self)
        ensures
            Self::spec_decode(self.spec_code()) == Ok::<VerticalScrollingStatus, CodecError>(self),
    {
    }
}

/// The documented codes of the `Display` field.
#[derive(Copy, Clone, Debug, PartialEq, Eq, Structural)]
pub enum Display {
    DisplayIsOff,
    DisplayIsOn,
}

impl Display {
    /// The wire code of this variant.
    pub open spec fn spec_code(self) -> u8 {
        match self {
            Display::DisplayIsOff => 0x00,
            Display::DisplayIsOn => 0x01,
        }
    }

    /// The variant for a wire code, or a decode error for a code outside
    /// the documented mapping.
    pub open spec fn spec_decode(code: u8) -> Result<Display, CodecError> {
        if code == 0x00 {
            Ok(Display::DisplayIsOff)
        } else if code == 0x01 {
            Ok(Display::DisplayIsOn)
        } else {
            Err(CodecError::UnrecognizedCode { code })
        }
    }

    /// The wire code of this variant.
    pub fn code(self) -> (r: u8)
        ensures
            r == self.spec_code(),
    {
        match self {
            Display::DisplayIsOff => 0x00,
            Display::DisplayIsOn => 0x01,
        }
    }

    /// Decode a wire code; a code outside the documented mapping is a
    /// recoverable error, never coerced to a variant.
    pub fn from_code(code: u8) -> (r: Result<Display, CodecError>)
        ensures
            r == Self::spec_decode(code),
    {
        match code {
            0x00 => Ok(Display::DisplayIsOff),
            0x01 => Ok(Display::DisplayIsOn),
            _ => Err(CodecError::UnrecognizedCode { code }),
        }
    }

    /// Decoding a variant's own code yields that variant back.
    pub proof fn lemma_code_roundtrip(self)
        ensures
            Self::spec_decode(self.spec_code()) == Ok::<Display, CodecError>(self),
    {
    }
}

/// The documented codes of the `TearingEffectLine` field.
#[derive(Copy, Clone, Debug, PartialEq, Eq, Structural)]
pub enum TearingEffectLine {
    TearingEffectLineOff,
    TearingEffectOn,
}

impl TearingEffectLine {
    /// The wire code of this variant.
    pub open spec fn spec_code(self) -> u8 {
        match self {
            TearingEffectLine::TearingEffectLineOff => 0x00,
            TearingEffectLine::TearingEffectOn => 0x01,
        }
    }

    /// The variant for a wire code, or a decode error for a code outside
    /// the documented mapping.
    pub open spec fn spec_decode(code: u8) -> Result<TearingEffectLine, CodecError> {
        if code == 0x00 {
            Ok(TearingEffectLine::TearingEffectLineOff)
        } else if code == 0x01 {
            Ok(TearingEffectLine::TearingEffectOn)
        } else {
            Err(CodecError::UnrecognizedCode { code })
        }
    }

    /// The wire code of this variant.
    pub fn code(self) -> (r: u8)
        ensures
            r == self.spec_code(),
    {
        match self {
            TearingEffectLine::TearingEffectLineOff => 0x00,
            TearingEffectLine::TearingEffectOn => 0x01,
        }
    }

    /// Decode a wire code; a code outside the documented mapping is a
    /// recoverable error, never coerced to a variant.
    pub fn from_code(code: u8) -> (r: Result<TearingEffectLine, CodecError>)
        ensures
            r == Self::spec_decode(code),
    {
        match code {
            0x00 => Ok(TearingEffectLine::TearingEffectLineOff),
            0x01 => Ok(TearingEffectLine::TearingEffectOn),
            _ => Err(CodecError::UnrecognizedCode { code }),
        }
    }

    /// Decoding a variant's own code yields that variant back.
    pub proof fn lemma_code_roundtrip(self)
        ensures
            Self::spec_decode(self.spec_code()) == Ok::<TearingEffectLine, CodecError>(self),
    {
    }
}

/// The documented codes of the `GammaCurveSelection` field.
#[derive(Copy, Clone, Debug, PartialEq, Eq, Structural)]
pub enum GammaCurveSelection {
    Gc0,
}

impl GammaCurveSelection {
    /// The wire code of this variant.
    pub open spec fn spec_code(self) -> u8 {
        match self {
            GammaCurveSelection::Gc0 => 0x00,
        }
    }

    /// The variant for a wire code, or a decode error for a code outside
    /// the documented mapping.
    pub open spec fn spec_decode(code: u8) -> Result<GammaCurveSelection, CodecError> {
        if code == 0x00 {
            Ok(GammaCurveSelection::Gc0)
        } else {
            Err(CodecError::UnrecognizedCode { code })
        }
    }

    /// The wire code of this variant.
    pub fn code(self) -> (r: u8)
        ensures
            r == self.spec_code(),
    {
        match self {
            GammaCurveSelection::Gc0 => 0x00,
        }
    }

    /// Decode a wire code; a code outside the documented mapping is a
    /// recoverable error, never coerced to a variant.
    pub fn from_code(code: u8) -> (r: Result<GammaCurveSelection, CodecError>)
        ensures
            r == Self::spec_decode(code),
    {
        match code {
            0x00 => Ok(GammaCurveSelection::Gc0),
            _ => Err(CodecError::UnrecognizedCode { code }),
        }
    }

    /// Decoding a variant's own code yields that variant back.
    pub proof fn lemma_code_roundtrip(self)
        ensures
            Self::spec_decode(self.spec_code()) == Ok::<GammaCurveSelection, CodecError>(self),
    {
    }
}

/// The documented codes of the `TearingEffectLineMode` field.
#[derive(Copy, Clone, Debug, PartialEq, Eq, Structural)]
pub enum TearingEffectLineMode {
    Mode1VBlankingOnly,
    Mode2BothHBlankingAndVBlanking,
}

impl TearingEffectLineMode {
    /// The wire code of this variant.
    pub open spec fn spec_code(self) -> u8 {
        match self {
            TearingEffectLineMode::Mode1VBlankingOnly => 0x00,
            TearingEffectLineMode::Mode2BothHBlankingAndVBlanking => 0x01,
        }
    }

    /// The variant for a wire code, or a decode error for a code outside
    /// the documented mapping.
    pub open spec fn spec_decode(code: u8) -> Result<TearingEffectLineMode, CodecError> {
        if code == 0x00 {
            Ok(TearingEffectLineMode::Mode1VBlankingOnly)
        } else if code == 0x01 {
            Ok(TearingEffectLineMode::Mode2BothHBlankingAndVBlanking)
        } else {
            Err(CodecError::UnrecognizedCode { code })
        }
    }

    /// The wire code of this variant.
    pub fn code(self) -> (r: u8)
        ensures
            r == self.spec_code(),
    {
        match self {
            TearingEffectLineMode::Mode1VBlankingOnly => 0x00,
            TearingEffectLineMode::Mode2BothHBlankingAndVBlanking => 0x01,
        }
    }

    /// Decode a wire code; a code outside the documented mapping is a
    /// recoverable error, never coerced to a variant.
    pub fn from_code(code: u8) -> (r: Result<TearingEffectLineMode, CodecError>)
        ensures
            r == Self::spec_decode(code),
    {
        match code {
            0x00 => Ok(TearingEffectLineMode::Mode1VBlankingOnly),
            0x01 => Ok(TearingEffectLineMode::Mode2BothHBlankingAndVBlanking),
            _ => Err(CodecError::UnrecognizedCode { code }),
        }
    }

    /// Decoding a variant's own code yields that variant back.
    pub proof fn lemma_code_roundtrip(self)
        ensures
            Self::spec_decode(self.spec_code()) == Ok::<TearingEffectLineMode, CodecError>(self),
    {
    }
}

/// The 4-byte parameter block of the `read-display-status` command.
#[derive(Copy, Clone, Debug)]
pub struct DisplayStatus {
    pub data: [u8; 4],
}

impl DisplayStatus {
    /// The chip's post-reset value of this block.
    pub open spec fn spec_default() -> Seq<u8> {
        seq![0x00u8, 0x61u8, 0x00u8, 0x00u8]
    }

    /// Borrow-free read view over a snapshot of the block.
    pub fn read(&self) -> (r: DisplayStatusRead)
        ensures
            r.d.data@ == self.data@,
    {
        DisplayStatusRead { d: *self }
    }

    /// Apply a builder transformation to this block and return the result.
    pub fn write<F: FnOnce(DisplayStatusWrite) -> DisplayStatusWrite>(self, f: F) -> (r: Self)
        requires
            call_requires(f, ((DisplayStatusWrite { d: self }),)),
        ensures
            call_ensures(f, ((DisplayStatusWrite { d: self }),), (DisplayStatusWrite { d: r })),
    {
        let w = f(DisplayStatusWrite { d: self });
        proof {
            assert((DisplayStatusWrite { d: w.d }) == w);
        }
        w.d
    }
}

impl Default for DisplayStatus {
    /// The block with the chip's documented post-reset byte pattern.
    fn default() -> (r: Self)
        ensures
            r.data@ == DisplayStatus::spec_default(),
    {
        let r = DisplayStatus { data: [0x00, 0x61, 0x00, 0x00] };
        proof {
            assert(r.data@ =~= DisplayStatus::spec_default());
        }
        r
    }
}

/// Read view of [`DisplayStatus`].
#[derive(Copy, Clone)]
pub struct DisplayStatusRead {
    pub d: DisplayStatus,
}

impl DisplayStatusRead {
    /// `booster_voltage_status`: 1 bit at offset 7 of byte 0.
    pub fn booster_voltage_status(&self) -> (r: Result<BoosterVoltageStatus, CodecError>)
        ensures
            r == BoosterVoltageStatus::spec_decode(field_get(self.d.data@[0], 7, 1)),
    {
        BoosterVoltageStatus::from_code(extract_field(self.d.data[0], 7, 1))
    }

    /// `row_address_order`: 1 bit at offset 6 of byte 0.
    pub fn row_address_order(&self) -> (r: Result<RowAddressOrder, CodecError>)
        ensures
            r == RowAddressOrder::spec_decode(field_get(self.d.data@[0], 6, 1)),
    {
        RowAddressOrder::from_code(extract_field(self.d.data[0], 6, 1))
    }

    /// `column_address_order`: 1 bit at offset 5 of byte 0.
    pub fn column_address_order(&self) -> (r: Result<ColumnAddressOrder, CodecError>)
        ensures
            r == ColumnAddressOrder::spec_decode(field_get(self.d.data@[0], 5, 1)),
    {
        ColumnAddressOrder::from_code(extract_field(self.d.data[0], 5, 1))
    }

    /// `row_column_exchange`: 1 bit at offset 4 of byte 0.
    pub fn row_column_exchange(&self) -> (r: Result<RowColumnExchange, CodecError>)
        ensures
            r == RowColumnExchange::spec_decode(field_get(self.d.data@[0], 4, 1)),
    {
        RowColumnExchange::from_code(extract_field(self.d.data[0], 4, 1))
    }

    /// `vertical_refresh`: 1 bit at offset 3 of byte 0.
    pub fn vertical_refresh(&self) -> (r: Result<VerticalRefresh, CodecError>)
        ensures
            r == VerticalRefresh::spec_decode(field_get(self.d.data@[0], 3, 1)),
    {
        VerticalRefresh::from_code(extract_field(self.d.data[0], 3, 1))
    }

    /// `rgb_bgr_order`: 1 bit at offset 2 of byte 0.
    pub fn rgb_bgr_order(&self) -> (r: Result<RgbBgrOrder, CodecError>)
        ensures
            r == RgbBgrOrder::spec_decode(field_get(self.d.data@[0], 2, 1)),
    {
        RgbBgrOrder::from_code(extract_field(self.d.data[0], 2, 1))
    }

    /// `horizontal_refresh_order`: 1 bit at offset 1 of byte 0.
    pub fn horizontal_refresh_order(&self) -> (r: Result<HorizontalRefreshOrder, CodecError>)
        ensures
            r == HorizontalRefreshOrder::spec_decode(field_get(self.d.data@[0], 1, 1)),
    {
        HorizontalRefreshOrder::from_code(extract_field(self.d.data[0], 1, 1))
    }

    /// `interface_color_pixel_format`: 3 bits at offset 4 of byte 1.
    pub fn interface_color_pixel_format(&self) -> (r: Result<InterfaceColorPixelFormat, CodecError>)
        ensures
            r == InterfaceColorPixelFormat::spec_decode(field_get(self.d.data@[1], 4, 3)),
    {
        InterfaceColorPixelFormat::from_code(extract_field(self.d.data[1], 4, 3))
    }

    /// `idle_mode`: 1 bit at offset 3 of byte 1.
    pub fn idle_mode(&self) -> (r: Result<IdleMode, CodecError>)
        ensures
            r == IdleMode::spec_decode(field_get(self.d.data@[1], 3, 1)),
    {
        IdleMode::from_code(extract_field(self.d.data[1], 3, 1))
    }

    /// `partial_mode`: 1 bit at offset 2 of byte 1.
    pub fn partial_mode(&self) -> (r: Result<PartialMode, CodecError>)
        ensures
            r == PartialMode::spec_decode(field_get(self.d.data@[1], 2, 1)),
    {
        PartialMode::from_code(extract_field(self.d.data[1], 2, 1))
    }

    /// `sleep`: 1 bit at offset 1 of byte 1.
    pub fn sleep(&self) -> (r: Result<Sleep, CodecError>)
        ensures
            r == Sleep::spec_decode(field_get(self.d.data@[1], 1, 1)),
    {
        Sleep::from_code(extract_field(self.d.data[1], 1, 1))
    }

    /// `display_normal_mode`: 1 bit at offset 0 of byte 1.
    pub fn display_normal_mode(&self) -> (r: Result<DisplayNormalMode, CodecError>)
        ensures
            r == DisplayNormalMode::spec_decode(field_get(self.d.data@[1], 0, 1)),
    {
        DisplayNormalMode::from_code(extract_field(self.d.data[1], 0, 1))
    }

    /// `vertical_scrolling_status`: 1 bit at offset 7 of byte 2.
    pub fn vertical_scrolling_status(&self) -> (r: Result<VerticalScrollingStatus, CodecError>)
        ensures
            r == VerticalScrollingStatus::spec_decode(field_get(self.d.data@[2], 7, 1)),
    {
        VerticalScrollingStatus::from_code(extract_field(self.d.data[2], 7, 1))
    }

    /// `display`: 1 bit at offset 2 of byte 2.
    pub fn display(&self) -> (r: Result<Display, CodecError>)
        ensures
            r == Display::spec_decode(field_get(self.d.data@[2], 2, 1)),
    {
        Display::from_code(extract_field(self.d.data[2], 2, 1))
    }

    /// `tearing_effect_line`: 1 bit at offset 1 of byte 2.
    pub fn tearing_effect_line(&self) -> (r: Result<TearingEffectLine, CodecError>)
        ensures
            r == TearingEffectLine::spec_decode(field_get(self.d.data@[2], 1, 1)),
    {
        TearingEffectLine::from_code(extract_field(self.d.data[2], 1, 1))
    }

    /// `gamma_curve_selection`: the low bit of byte 2 combined with 2 bits at offset 6 of byte 3.
    pub fn gamma_curve_selection(&self) -> (r: Result<GammaCurveSelection, CodecError>)
        ensures
            r == GammaCurveSelection::spec_decode(field_get(self.d.data@[2], 0, 1) | field_get(self.d.data@[3], 6, 2)),
    {
        GammaCurveSelection::from_code(extract_field(self.d.data[2], 0, 1) | extract_field(self.d.data[3], 6, 2))
    }

    /// `tearing_effect_line_mode`: 1 bit at offset 5 of byte 3.
    pub fn tearing_effect_line_mode(&self) -> (r: Result<TearingEffectLineMode, CodecError>)
        ensures
            r == TearingEffectLineMode::spec_decode(field_get(self.d.data@[3], 5, 1)),
    {
        TearingEffectLineMode::from_code(extract_field(self.d.data[3], 5, 1))
    }
}

/// Write view of [`DisplayStatus`].
#[derive(Copy, Clone)]
pub struct DisplayStatusWrite {
    pub d: DisplayStatus,
}

impl DisplayStatusWrite {
    /// `booster_voltage_status`: written into 1 bit at offset 7 of byte 0; all other bits are kept.
    pub fn booster_voltage_status(self, w: BoosterVoltageStatus) -> (r: Self)
        ensures
            r.d.data@ == self.d.data@.update(
                0,
                field_set(self.d.data@[0], 7, 1, w.spec_code()),
            ),
    {
        let c = w.code();
        let mut d = self.d;
        d.data[0] = insert_field(d.data[0], 7, 1, c);
        DisplayStatusWrite { d }
    }

    /// `row_address_order`: written into 1 bit at offset 6 of byte 0; all other bits are kept.
    pub fn row_address_order(self, w: RowAddressOrder) -> (r: Self)
        ensures
            r.d.data@ == self.d.data@.update(
                0,
                field_set(self.d.data@[0], 6, 1, w.spec_code()),
            ),
    {
        let c = w.code();
        let mut d = self.d;
        d.data[0] = insert_field(d.data[0], 6, 1, c);
        DisplayStatusWrite { d }
    }

    /// `column_address_order`: written into 1 bit at offset 5 of byte 0; all other bits are kept.
    pub fn column_address_order(self, w: ColumnAddressOrder) -> (r: Self)
        ensures
            r.d.data@ == self.d.data@.update(
                0,
                field_set(self.d.data@[0], 5, 1, w.spec_code()),
            ),
    {
        let c = w.code();
        let mut d = self.d;
        d.data[0] = insert_field(d.data[0], 5, 1, c);
        DisplayStatusWrite { d }
    }

    /// `row_column_exchange`: written into 1 bit at offset 4 of byte 0; all other bits are kept.
    pub fn row_column_exchange(self, w: RowColumnExchange) -> (r: Self)
        ensures
            r.d.data@ == self.d.data@.update(
                0,
                field_set(self.d.data@[0], 4, 1, w.spec_code()),
            ),
    {
        let c = w.code();
        let mut d = self.d;
        d.data[0] = insert_field(d.data[0], 4, 1, c);
        DisplayStatusWrite { d }
    }

    /// `vertical_refresh`: written into 1 bit at offset 3 of byte 0; all other bits are kept.
    pub fn vertical_refresh(self, w: VerticalRefresh) -> (r: Self)
        ensures
            r.d.data@ == self.d.data@.update(
                0,
                field_set(self.d.data@[0], 3, 1, w.spec_code()),
            ),
    {
        let c = w.code();
        let mut d = self.d;
        d.data[0] = insert_field(d.data[0], 3, 1, c);
        DisplayStatusWrite { d }
    }

    /// `rgb_bgr_order`: written into 1 bit at offset 2 of byte 0; all other bits are kept.
    pub fn rgb_bgr_order(self, w: RgbBgrOrder) -> (r: Self)
        ensures
            r.d.data@ == self.d.data@.update(
                0,
                field_set(self.d.data@[0], 2, 1, w.spec_code()),
            ),
    {
        let c = w.code();
        let mut d = self.d;
        d.data[0] = insert_field(d.data[0], 2, 1, c);
        DisplayStatusWrite { d }
    }

    /// `horizontal_refresh_order`: written into 1 bit at offset 1 of byte 0; all other bits are kept.
    pub fn horizontal_refresh_order(self, w: HorizontalRefreshOrder) -> (r: Self)
        ensures
            r.d.data@ == self.d.data@.update(
                0,
                field_set(self.d.data@[0], 1, 1, w.spec_code()),
            ),
    {
        let c = w.code();
        let mut d = self.d;
        d.data[0] = insert_field(d.data[0], 1, 1, c);
        DisplayStatusWrite { d }
    }

    /// `interface_color_pixel_format`: written into 3 bits at offset 4 of byte 1; all other bits are kept.
    pub fn interface_color_pixel_format(self, w: InterfaceColorPixelFormat) -> (r: Self)
        ensures
            r.d.data@ == self.d.data@.update(
                1,
                field_set(self.d.data@[1], 4, 3, w.spec_code()),
            ),
    {
        let c = w.code();
        let mut d = self.d;
        d.data[1] = insert_field(d.data[1], 4, 3, c);
        DisplayStatusWrite { d }
    }

    /// `idle_mode`: written into 1 bit at offset 3 of byte 1; all other bits are kept.
    pub fn idle_mode(self, w: IdleMode) -> (r: Self)
        ensures
            r.d.data@ == self.d.data@.update(
                1,
                field_set(self.d.data@[1], 3, 1, w.spec_code()),
            ),
    {
        let c = w.code();
        let mut d = self.d;
        d.data[1] = insert_field(d.data[1], 3, 1, c);
        DisplayStatusWrite { d }
    }

    /// `partial_mode`: written into 1 bit at offset 2 of byte 1; all other bits are kept.
    pub fn partial_mode(self, w: PartialMode) -> (r: Self)
        ensures
            r.d.data@ == self.d.data@.update(
                1,
                field_set(self.d.data@[1], 2, 1, w.spec_code()),
            ),
    {
        let c = w.code();
        let mut d = self.d;
        d.data[1] = insert_field(d.data[1], 2, 1, c);
        DisplayStatusWrite { d }
    }

    /// `sleep`: written into 1 bit at offset 1 of byte 1; all other bits are kept.
    pub fn sleep(self, w: Sleep) -> (r: Self)
        ensures
            r.d.data@ == self.d.data@.update(
                1,
                field_set(self.d.data@[1], 1, 1, w.spec_code()),
            ),
    {
        let c = w.code();
        let mut d = self.d;
        d.data[1] = insert_field(d.data[1], 1, 1, c);
        DisplayStatusWrite { d }
    }

    /// `display_normal_mode`: written into 1 bit at offset 0 of byte 1; all other bits are kept.
    pub fn display_normal_mode(self, w: DisplayNormalMode) -> (r: Self)
        ensures
            r.d.data@ == self.d.data@.update(
                1,
                field_set(self.d.data@[1], 0, 1, w.spec_code()),
            ),
    {
        let c = w.code();
        let mut d = self.d;
        d.data[1] = insert_field(d.data[1], 0, 1, c);
        DisplayStatusWrite { d }
    }

    /// `vertical_scrolling_status`: written into 1 bit at offset 7 of byte 2; all other bits are kept.
    pub fn vertical_scrolling_status(self, w: VerticalScrollingStatus) -> (r: Self)
        ensures
            r.d.data@ == self.d.data@.update(
                2,
                field_set(self.d.data@[2], 7, 1, w.spec_code()),
            ),
    {
        let c = w.code();
        let mut d = self.d;
        d.data[2] = insert_field(d.data[2], 7, 1, c);
        DisplayStatusWrite { d }
    }

    /// `display`: written into 1 bit at offset 2 of byte 2; all other bits are kept.
    pub fn display(self, w: Display) -> (r: Self)
        ensures
            r.d.data@ == self.d.data@.update(
                2,
                field_set(self.d.data@[2], 2, 1, w.spec_code()),
            ),
    {
        let c = w.code();
        let mut d = self.d;
        d.data[2] = insert_field(d.data[2], 2, 1, c);
        DisplayStatusWrite { d }
    }

    /// `tearing_effect_line`: written into 1 bit at offset 1 of byte 2; all other bits are kept.
    pub fn tearing_effect_line(self, w: TearingEffectLine) -> (r: Self)
        ensures
            r.d.data@ == self.d.data@.update(
                2,
                field_set(self.d.data@[2], 1, 1, w.spec_code()),
            ),
    {
        let c = w.code();
        let mut d = self.d;
        d.data[2] = insert_field(d.data[2], 1, 1, c);
        DisplayStatusWrite { d }
    }

    /// `gamma_curve_selection`: written into 1 bit at offset 0 of byte 2 and 2 bits at offset 6 of byte 3; all other bits are kept.
    pub fn gamma_curve_selection(self, w: GammaCurveSelection) -> (r: Self)
        ensures
            r.d.data@ == self.d.data@.update(
                2,
                field_set(self.d.data@[2], 0, 1, w.spec_code()),
            ).update(
                3,
                field_set(self.d.data@[3], 6, 2, w.spec_code()),
            ),
    {
        let c = w.code();
        let mut d = self.d;
        d.data[2] = insert_field(d.data[2], 0, 1, c);
        d.data[3] = insert_field(d.data[3], 6, 2, c);
        DisplayStatusWrite { d }
    }

    /// `tearing_effect_line_mode`: written into 1 bit at offset 5 of byte 3; all other bits are kept.
    pub fn tearing_effect_line_mode(self, w: TearingEffectLineMode) -> (r: Self)
        ensures
            r.d.data@ == self.d.data@.update(
                3,
                field_set(self.d.data@[3], 5, 1, w.spec_code()),
            ),
    {
        let c = w.code();
        let mut d = self.d;
        d.data[3] = insert_field(d.data[3], 5, 1, c);
        DisplayStatusWrite { d }
    }
}

} // verus!
