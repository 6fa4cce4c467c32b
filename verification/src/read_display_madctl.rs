//! Parameter block of the `read-display-madctl` command: the current memory access control
//! settings.

use vstd::prelude::*;

use crate::bits::extract_field;
use crate::bits::field_get;
use crate::bits::field_set;
use crate::bits::insert_field;
use crate::error::CodecError;

verus! {

/// The documented codes of the `RowAddressOrder` field.
#[derive(Copy, Clone, Debug, PartialEq, Eq, Structural)]
pub enum RowAddressOrder {
    TopToBottomWhenMadctlB7Eq0,
    BottomToTopWhenMadctlB7Eq1,
}

impl RowAddressOrder {
    /// The wire code of this variant.
    pub open spec fn spec_code(self) -> u8 {
        match self {
            RowAddressOrder::TopToBottomWhenMadctlB7Eq0 => 0x00,
            RowAddressOrder::BottomToTopWhenMadctlB7Eq1 => 0x01,
        }
    }

    /// The variant for a wire code, or a decode error for a code outside
    /// the documented mapping.
    pub open spec fn spec_decode(code: u8) -> Result<RowAddressOrder, CodecError> {
        if code == 0x00 {
            Ok(RowAddressOrder::TopToBottomWhenMadctlB7Eq0)
        } else if code == 0x01 {
            Ok(RowAddressOrder::BottomToTopWhenMadctlB7Eq1)
        } else {
            Err(CodecError::UnrecognizedCode { code })
        }
    }

    /// The wire code of this variant.
    pub fn code(self) -> (r: u8)
        ensures
            r == self.spec_code(),
    {
        match self {
            RowAddressOrder::TopToBottomWhenMadctlB7Eq0 => 0x00,
            RowAddressOrder::BottomToTopWhenMadctlB7Eq1 => 0x01,
        }
    }

    /// Decode a wire code; a code outside the documented mapping is a
    /// recoverable error, never coerced to a variant.
    pub fn from_code(code: u8) -> (r: Result<RowAddressOrder, CodecError>)
        ensures
            r == Self::spec_decode(code),
    {
        match code {
            0x00 => Ok(RowAddressOrder::TopToBottomWhenMadctlB7Eq0),
            0x01 => Ok(RowAddressOrder::BottomToTopWhenMadctlB7Eq1),
            _ => Err(CodecError::UnrecognizedCode { code }),
        }
    }

    /// Decoding a variant's own code yields that variant back.
    pub proof fn lemma_code_roundtrip(self)
        ensures
            Self::spec_decode(self.spec_code()) == Ok::<RowAddressOrder, CodecError>(self),
    {
    }
}

/// The documented codes of the `ColumnAddressOrder` field.
#[derive(Copy, Clone, Debug, PartialEq, Eq, Structural)]
pub enum ColumnAddressOrder {
    LeftToRightWhenMadctlB6Eq0,
    RightToLeftWhenMadctlB6Eq1,
}

impl ColumnAddressOrder {
    /// The wire code of this variant.
    pub open spec fn spec_code(self) -> u8 {
        match self {
            ColumnAddressOrder::LeftToRightWhenMadctlB6Eq0 => 0x00,
            ColumnAddressOrder::RightToLeftWhenMadctlB6Eq1 => 0x01,
        }
    }

    /// The variant for a wire code, or a decode error for a code outside
    /// the documented mapping.
    pub open spec fn spec_decode(code: u8) -> Result<ColumnAddressOrder, CodecError> {
        if code == 0x00 {
            Ok(ColumnAddressOrder::LeftToRightWhenMadctlB6Eq0)
        } else if code == 0x01 {
            Ok(ColumnAddressOrder::RightToLeftWhenMadctlB6Eq1)
        } else {
            Err(CodecError::UnrecognizedCode { code })
        }
    }

    /// The wire code of this variant.
    pub fn code(self) -> (r: u8)
        ensures
            r == self.spec_code(),
    {
        match self {
            ColumnAddressOrder::LeftToRightWhenMadctlB6Eq0 => 0x00,
            ColumnAddressOrder::RightToLeftWhenMadctlB6Eq1 => 0x01,
        }
    }

    /// Decode a wire code; a code outside the documented mapping is a
    /// recoverable error, never coerced to a variant.
    pub fn from_code(code: u8) -> (r: Result<ColumnAddressOrder, CodecError>)
        ensures
            r == Self::spec_decode(code),
    {
        match code {
            0x00 => Ok(ColumnAddressOrder::LeftToRightWhenMadctlB6Eq0),
            0x01 => Ok(ColumnAddressOrder::RightToLeftWhenMadctlB6Eq1),
            _ => Err(CodecError::UnrecognizedCode { code }),
        }
    }

    /// Decoding a variant's own code yields that variant back.
    pub proof fn lemma_code_roundtrip(self)
        ensures
            Self::spec_decode(self.spec_code()) == Ok::<ColumnAddressOrder, CodecError>(self),
    {
    }
}

/// The documented codes of the `RowColumnExchange` field.
#[derive(Copy, Clone, Debug, PartialEq, Eq, Structural)]
pub enum RowColumnExchange {
    NormalModeWhenMadctlB5Eq0,
    ReverseModeWhenMadctlB5Eq1,
}

impl RowColumnExchange {
    /// The wire code of this variant.
    pub open spec fn spec_code(self) -> u8 {
        match self {
            RowColumnExchange::NormalModeWhenMadctlB5Eq0 => 0x00,
            RowColumnExchange::ReverseModeWhenMadctlB5Eq1 => 0x01,
        }
    }

    /// The variant for a wire code, or a decode error for a code outside
    /// the documented mapping.
    pub open spec fn spec_decode(code: u8) -> Result<RowColumnExchange, CodecError> {
        if code == 0x00 {
            Ok(RowColumnExchange::NormalModeWhenMadctlB5Eq0)
        } else if code == 0x01 {
            Ok(RowColumnExchange::ReverseModeWhenMadctlB5Eq1)
        } else {
            Err(CodecError::UnrecognizedCode { code })
        }
    }

    /// The wire code of this variant.
    pub fn code(self) -> (r: u8)
        ensures
            r == self.spec_code(),
    {
        match self {
            RowColumnExchange::NormalModeWhenMadctlB5Eq0 => 0x00,
            RowColumnExchange::ReverseModeWhenMadctlB5Eq1 => 0x01,
        }
    }

    /// Decode a wire code; a code outside the documented mapping is a
    /// recoverable error, never coerced to a variant.
    pub fn from_code(code: u8) -> (r: Result<RowColumnExchange, CodecError>)
        ensures
            r == Self::spec_decode(code),
    {
        match code {
            0x00 => Ok(RowColumnExchange::NormalModeWhenMadctlB5Eq0),
            0x01 => Ok(RowColumnExchange::ReverseModeWhenMadctlB5Eq1),
            _ => Err(CodecError::UnrecognizedCode { code }),
        }
    }

    /// Decoding a variant's own code yields that variant back.
    pub proof fn lemma_code_roundtrip(self)
        ensures
            Self::spec_decode(self.spec_code()) == Ok::<RowColumnExchange, CodecError>(self),
    {
    }
}

/// The documented codes of the `VerticalRefresh` field.
#[derive(Copy, Clone, Debug, PartialEq, Eq, Structural)]
pub enum VerticalRefresh {
    LcdRefreshTopToBottomWhenMadctlB4Eq0,
    LcdRefreshBottomToTopWhenMadctlB4Eq1,
}

impl VerticalRefresh {
    /// The wire code of this variant.
    pub open spec fn spec_code(self) -> u8 {
        match self {
            VerticalRefresh::LcdRefreshTopToBottomWhenMadctlB4Eq0 => 0x00,
            VerticalRefresh::LcdRefreshBottomToTopWhenMadctlB4Eq1 => 0x01,
        }
    }

    /// The variant for a wire code, or a decode error for a code outside
    /// the documented mapping.
    pub open spec fn spec_decode(code: u8) -> Result<VerticalRefresh, CodecError> {
        if code == 0x00 {
            Ok(VerticalRefresh::LcdRefreshTopToBottomWhenMadctlB4Eq0)
        } else if code == 0x01 {
            Ok(VerticalRefresh::LcdRefreshBottomToTopWhenMadctlB4Eq1)
        } else {
            Err(CodecError::UnrecognizedCode { code })
        }
    }

    /// The wire code of this variant.
    pub fn code(self) -> (r: u8)
        ensures
            r == self.spec_code(),
    {
        match self {
            VerticalRefresh::LcdRefreshTopToBottomWhenMadctlB4Eq0 => 0x00,
            VerticalRefresh::LcdRefreshBottomToTopWhenMadctlB4Eq1 => 0x01,
        }
    }

    /// Decode a wire code; a code outside the documented mapping is a
    /// recoverable error, never coerced to a variant.
    pub fn from_code(code: u8) -> (r: Result<VerticalRefresh, CodecError>)
        ensures
            r == Self::spec_decode(code),
    {
        match code {
            0x00 => Ok(VerticalRefresh::LcdRefreshTopToBottomWhenMadctlB4Eq0),
            0x01 => Ok(VerticalRefresh::LcdRefreshBottomToTopWhenMadctlB4Eq1),
            _ => Err(CodecError::UnrecognizedCode { code }),
        }
    }

    /// Decoding a variant's own code yields that variant back.
    pub proof fn lemma_code_roundtrip(self)
        ensures
            Self::spec_decode(self.spec_code()) == Ok::<VerticalRefresh, CodecError>(self),
    {
    }
}

/// The documented codes of the `RgbBgrOrder` field.
#[derive(Copy, Clone, Debug, PartialEq, Eq, Structural)]
pub enum RgbBgrOrder {
    RgbWhenMadctlB3Eq0,
    BgrWhenMadctlB3Eq1,
}

impl RgbBgrOrder {
    /// The wire code of this variant.
    pub open spec fn spec_code(self) -> u8 {
        match self {
            RgbBgrOrder::RgbWhenMadctlB3Eq0 => 0x00,
            RgbBgrOrder::BgrWhenMadctlB3Eq1 => 0x01,
        }
    }

    /// The variant for a wire code, or a decode error for a code outside
    /// the documented mapping.
    pub open spec fn spec_decode(code: u8) -> Result<RgbBgrOrder, CodecError> {
        if code == 0x00 {
            Ok(RgbBgrOrder::RgbWhenMadctlB3Eq0)
        } else if code == 0x01 {
            Ok(RgbBgrOrder::BgrWhenMadctlB3Eq1)
        } else {
            Err(CodecError::UnrecognizedCode { code })
        }
    }

    /// The wire code of this variant.
    pub fn code(self) -> (r: u8)
        ensures
            r == self.spec_code(),
    {
        match self {
            RgbBgrOrder::RgbWhenMadctlB3Eq0 => 0x00,
            RgbBgrOrder::BgrWhenMadctlB3Eq1 => 0x01,
        }
    }

    /// Decode a wire code; a code outside the documented mapping is a
    /// recoverable error, never coerced to a variant.
    pub fn from_code(code: u8) -> (r: Result<RgbBgrOrder, CodecError>)
        ensures
            r == Self::spec_decode(code),
    {
        match code {
            0x00 => Ok(RgbBgrOrder::RgbWhenMadctlB3Eq0),
            0x01 => Ok(RgbBgrOrder::BgrWhenMadctlB3Eq1),
            _ => Err(CodecError::UnrecognizedCode { code }),
        }
    }

    /// Decoding a variant's own code yields that variant back.
    pub proof fn lemma_code_roundtrip(self)
        ensures
            Self::spec_decode(self.spec_code()) == Ok::<RgbBgrOrder, CodecError>(self),
    {
    }
}

/// The documented codes of the `HorizontalRefreshOrder` field.
#[derive(Copy, Clone, Debug, PartialEq, Eq, Structural)]
pub enum HorizontalRefreshOrder {
    LcdRefreshLeftToRightWhenMadctlB2Eq0,
    LcdRefreshRightToLeftWhenMadctlB2Eq1,
}

impl HorizontalRefreshOrder {
    /// The wire code of this variant.
    pub open spec fn spec_code(self) -> u8 {
        match self {
            HorizontalRefreshOrder::LcdRefreshLeftToRightWhenMadctlB2Eq0 => 0x00,
            HorizontalRefreshOrder::LcdRefreshRightToLeftWhenMadctlB2Eq1 => 0x01,
        }
    }

    /// The variant for a wire code, or a decode error for a code outside
    /// the documented mapping.
    pub open spec fn spec_decode(code: u8) -> Result<HorizontalRefreshOrder, CodecError> {
        if code == 0x00 {
            Ok(HorizontalRefreshOrder::LcdRefreshLeftToRightWhenMadctlB2Eq0)
        } else if code == 0x01 {
            Ok(HorizontalRefreshOrder::LcdRefreshRightToLeftWhenMadctlB2Eq1)
        } else {
            Err(CodecError::UnrecognizedCode { code })
        }
    }

    /// The wire code of this variant.
    pub fn code(self) -> (r: u8)
        ensures
            r == self.spec_code(),
    {
        match self {
            HorizontalRefreshOrder::LcdRefreshLeftToRightWhenMadctlB2Eq0 => 0x00,
            HorizontalRefreshOrder::LcdRefreshRightToLeftWhenMadctlB2Eq1 => 0x01,
        }
    }

    /// Decode a wire code; a code outside the documented mapping is a
    /// recoverable error, never coerced to a variant.
    pub fn from_code(code: u8) -> (r: Result<HorizontalRefreshOrder, CodecError>)
        ensures
            r == Self::spec_decode(code),
    {
        match code {
            0x00 => Ok(HorizontalRefreshOrder::LcdRefreshLeftToRightWhenMadctlB2Eq0),
            0x01 => Ok(HorizontalRefreshOrder::LcdRefreshRightToLeftWhenMadctlB2Eq1),
            _ => Err(CodecError::UnrecognizedCode { code }),
        }
    }

    /// Decoding a variant's own code yields that variant back.
    pub proof fn lemma_code_roundtrip(self)
        ensures
            Self::spec_decode(self.spec_code()) == Ok::<HorizontalRefreshOrder, CodecError>(self),
    {
    }
}

/// The single-byte parameter block of the `read-display-madctl` command.
#[derive(Copy, Clone, Debug)]
pub struct DisplayMadctl {
    pub data: [u8; 1],
}

impl DisplayMadctl {
    /// The chip's post-reset value of this block.
    pub open spec fn spec_default() -> Seq<u8> {
        seq![0x00u8]
    }

    /// Borrow-free read view over a snapshot of the block.
    pub fn read(&self) -> (r: DisplayMadctlRead)
        ensures
            r.d.data@ == self.data@,
    {
        DisplayMadctlRead { d: *self }
    }

    /// Apply a builder transformation to this block and return the result.
    pub fn write<F: FnOnce(DisplayMadctlWrite) -> DisplayMadctlWrite>(self, f: F) -> (r: Self)
        requires
            call_requires(f, ((DisplayMadctlWrite { d: self }),)),
        ensures
            call_ensures(f, ((DisplayMadctlWrite { d: self }),), (DisplayMadctlWrite { d: r })),
    {
        let w = f(DisplayMadctlWrite { d: self });
        proof {
            assert((DisplayMadctlWrite { d: w.d }) == w);
        }
        w.d
    }
}

impl Default for DisplayMadctl {
    /// The block with the chip's documented post-reset byte pattern.
    fn default() -> (r: Self)
        ensures
            r.data@ == DisplayMadctl::spec_default(),
    {
        let r = DisplayMadctl { data: [0x00] };
        proof {
            assert(r.data@ =~= DisplayMadctl::spec_default());
        }
        r
    }
}

/// Read view of [`DisplayMadctl`].
#[derive(Copy, Clone)]
pub struct DisplayMadctlRead {
    pub d: DisplayMadctl,
}

impl DisplayMadctlRead {
    /// `row_address_order`: 1 bit at offset 7 of byte 0.
    pub fn row_address_order(&self) -> (r: Result<RowAddressOrder, CodecError>)
        ensures
            r == RowAddressOrder::spec_decode(field_get(self.d.data@[0], 7, 1)),
    {
        RowAddressOrder::from_code(extract_field(self.d.data[0], 7, 1))
    }

    /// `column_address_order`: 1 bit at offset 6 of byte 0.
    pub fn column_address_order(&self) -> (r: Result<ColumnAddressOrder, CodecError>)
        ensures
            r == ColumnAddressOrder::spec_decode(field_get(self.d.data@[0], 6, 1)),
    {
        ColumnAddressOrder::from_code(extract_field(self.d.data[0], 6, 1))
    }

    /// `row_column_exchange`: 1 bit at offset 5 of byte 0.
    pub fn row_column_exchange(&self) -> (r: Result<RowColumnExchange, CodecError>)
        ensures
            r == RowColumnExchange::spec_decode(field_get(self.d.data@[0], 5, 1)),
    {
        RowColumnExchange::from_code(extract_field(self.d.data[0], 5, 1))
    }

    /// `vertical_refresh`: 1 bit at offset 4 of byte 0.
    pub fn vertical_refresh(&self) -> (r: Result<VerticalRefresh, CodecError>)
        ensures
            r == VerticalRefresh::spec_decode(field_get(self.d.data@[0], 4, 1)),
    {
        VerticalRefresh::from_code(extract_field(self.d.data[0], 4, 1))
    }

    /// `rgb_bgr_order`: 1 bit at offset 3 of byte 0.
    pub fn rgb_bgr_order(&self) -> (r: Result<RgbBgrOrder, CodecError>)
        ensures
            r == RgbBgrOrder::spec_decode(field_get(self.d.data@[0], 3, 1)),
    {
        RgbBgrOrder::from_code(extract_field(self.d.data[0], 3, 1))
    }

    /// `horizontal_refresh_order`: 1 bit at offset 2 of byte 0.
    pub fn horizontal_refresh_order(&self) -> (r: Result<HorizontalRefreshOrder, CodecError>)
        ensures
            r == HorizontalRefreshOrder::spec_decode(field_get(self.d.data@[0], 2, 1)),
    {
        HorizontalRefreshOrder::from_code(extract_field(self.d.data[0], 2, 1))
    }
}

/// Write view of [`DisplayMadctl`].
#[derive(Copy, Clone)]
pub struct DisplayMadctlWrite {
    pub d: DisplayMadctl,
}

impl DisplayMadctlWrite {
    /// `row_address_order`: written into 1 bit at offset 7 of byte 0; all other bits are kept.
    pub fn row_address_order(self, w: RowAddressOrder) -> (r: Self)
        ensures
            r.d.data@ == self.d.data@.update(
                0,
                field_set(self.d.data@[0], 7, 1, w.spec_code()),
            ),
    {
        let c = w.code();
        let mut d = self.d;
        d.data[0] = insert_field(d.data[0], 7, 1, c);
        DisplayMadctlWrite { d }
    }

    /// `column_address_order`: written into 1 bit at offset 6 of byte 0; all other bits are kept.
    pub fn column_address_order(self, w: ColumnAddressOrder) -> (r: Self)
        ensures
            r.d.data@ == self.d.data@.update(
                0,
                field_set(self.d.data@[0], 6, 1, w.spec_code()),
            ),
    {
        let c = w.code();
        let mut d = self.d;
        d.data[0] = insert_field(d.data[0], 6, 1, c);
        DisplayMadctlWrite { d }
    }

    /// `row_column_exchange`: written into 1 bit at offset 5 of byte 0; all other bits are kept.
    pub fn row_column_exchange(self, w: RowColumnExchange) -> (r: Self)
        ensures
            r.d.data@ == self.d.data@.update(
                0,
                field_set(self.d.data@[0], 5, 1, w.spec_code()),
            ),
    {
        let c = w.code();
        let mut d = self.d;
        d.data[0] = insert_field(d.data[0], 5, 1, c);
        DisplayMadctlWrite { d }
    }

    /// `vertical_refresh`: written into 1 bit at offset 4 of byte 0; all other bits are kept.
    pub fn vertical_refresh(self, w: VerticalRefresh) -> (r: Self)
        ensures
            r.d.data@ == self.d.data@.update(
                0,
                field_set(self.d.data@[0], 4, 1, w.spec_code()),
            ),
    {
        let c = w.code();
        let mut d = self.d;
        d.data[0] = insert_field(d.data[0], 4, 1, c);
        DisplayMadctlWrite { d }
    }

    /// `rgb_bgr_order`: written into 1 bit at offset 3 of byte 0; all other bits are kept.
    pub fn rgb_bgr_order(self, w: RgbBgrOrder) -> (r: Self)
        ensures
            r.d.data@ == self.d.data@.update(
                0,
                field_set(self.d.data@[0], 3, 1, w.spec_code()),
            ),
    {
        let c = w.code();
        let mut d = self.d;
        d.data[0] = insert_field(d.data[0], 3, 1, c);
        DisplayMadctlWrite { d }
    }

    /// `horizontal_refresh_order`: written into 1 bit at offset 2 of byte 0; all other bits are kept.
    pub fn horizontal_refresh_order(self, w: HorizontalRefreshOrder) -> (r: Self)
        ensures
            r.d.data@ == self.d.data@.update(
                0,
                field_set(self.d.data@[0], 2, 1, w.spec_code()),
            ),
    {
        let c = w.code();
        let mut d = self.d;
        d.data[0] = insert_field(d.data[0], 2, 1, c);
        DisplayMadctlWrite { d }
    }
}

} // verus!
