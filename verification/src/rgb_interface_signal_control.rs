//! Parameter block of the `rgb-interface-signal-control` command: the RGB interface
//! polarities, interface selection and display data path.

use vstd::prelude::*;

use crate::bits::extract_field;
use crate::bits::field_get;
use crate::bits::field_set;
use crate::bits::insert_field;
use crate::error::CodecError;

verus! {

/// The documented codes of the `DisplayDataPath` field.
#[derive(Copy, Clone, Debug, PartialEq, Eq, Structural)]
pub enum DisplayDataPath {
    DirectToShiftRegisterDefault,
    Memory,
}

impl DisplayDataPath {
    /// The wire code of this variant.
    pub open spec fn spec_code(self) -> u8 {
        match self {
            DisplayDataPath::DirectToShiftRegisterDefault => 0x00,
            DisplayDataPath::Memory => 0x01,
        }
    }

    /// The variant for a wire code, or a decode error for a code outside
    /// the documented mapping.
    pub open spec fn spec_decode(code: u8) -> Result<DisplayDataPath, CodecError> {
        if code == 0x00 {
            Ok(DisplayDataPath::DirectToShiftRegisterDefault)
        } else if code == 0x01 {
            Ok(DisplayDataPath::Memory)
        } else {
            Err(CodecError::UnrecognizedCode { code })
        }
    }

    /// The wire code of this variant.
    pub fn code(self) -> (r: u8)
        ensures
            r == self.spec_code(),
    {
        match self {
            DisplayDataPath::DirectToShiftRegisterDefault => 0x00,
            DisplayDataPath::Memory => 0x01,
        }
    }

    /// Decode a wire code; a code outside the documented mapping is a
    /// recoverable error, never coerced to a variant.
    pub fn from_code(code: u8) -> (r: Result<DisplayDataPath, CodecError>)
        ensures
            r == Self::spec_decode(code),
    {
        match code {
            0x00 => Ok(DisplayDataPath::DirectToShiftRegisterDefault),
            0x01 => Ok(DisplayDataPath::Memory),
            _ => Err(CodecError::UnrecognizedCode { code }),
        }
    }

    /// Decoding a variant's own code yields that variant back.
    pub proof fn lemma_code_roundtrip(self)
        ensures
            Self::spec_decode(self.spec_code()) == Ok::<DisplayDataPath, CodecError>(self),
    {
    }
}

/// The single-byte parameter block of the `rgb-interface-signal-control` command.
#[derive(Copy, Clone, Debug)]
pub struct RgbInterfaceSignalControl {
    pub data: [u8; 1],
}

impl RgbInterfaceSignalControl {
    /// The chip's post-reset value of this block.
    pub open spec fn spec_default() -> Seq<u8> {
        seq![0x41u8]
    }

    /// Borrow-free read view over a snapshot of the block.
    pub fn read(&self) -> (r: RgbInterfaceSignalControlRead)
        ensures
            r.d.data@ == self.data@,
    {
        RgbInterfaceSignalControlRead { d: *self }
    }

    /// Apply a builder transformation to this block and return the result.
    pub fn write<F: FnOnce(RgbInterfaceSignalControlWrite) -> RgbInterfaceSignalControlWrite>(self, f: F) -> (r: Self)
        requires
            call_requires(f, ((RgbInterfaceSignalControlWrite { d: self }),)),
        ensures
            call_ensures(f, ((RgbInterfaceSignalControlWrite { d: self }),), (RgbInterfaceSignalControlWrite { d: r })),
    {
        let w = f(RgbInterfaceSignalControlWrite { d: self });
        proof {
            assert((RgbInterfaceSignalControlWrite { d: w.d }) == w);
        }
        w.d
    }
}

impl Default for RgbInterfaceSignalControl {
    /// The block with the chip's documented post-reset byte pattern.
    fn default() -> (r: Self)
        ensures
            r.data@ == RgbInterfaceSignalControl::spec_default(),
    {
        let r = RgbInterfaceSignalControl { data: [0x41] };
        proof {
            assert(r.data@ =~= RgbInterfaceSignalControl::spec_default());
        }
        r
    }
}

/// Read view of [`RgbInterfaceSignalControl`].
#[derive(Copy, Clone)]
pub struct RgbInterfaceSignalControlRead {
    pub d: RgbInterfaceSignalControl,
}

impl RgbInterfaceSignalControlRead {
    /// `display_data_path`: 1 bit at offset 7 of byte 0.
    pub fn display_data_path(&self) -> (r: Result<DisplayDataPath, CodecError>)
        ensures
            r == DisplayDataPath::spec_decode(field_get(self.d.data@[0], 7, 1)),
    {
        DisplayDataPath::from_code(extract_field(self.d.data[0], 7, 1))
    }

    /// `rgb_interface_selection`: 2 bits at offset 5 of byte 0.
    pub fn rgb_interface_selection(&self) -> (r: u8)
        ensures
            r == field_get(self.d.data@[0], 5, 2),
    {
        extract_field(self.d.data[0], 5, 2)
    }

    /// `vsync_polarity`: 1 bit at offset 3 of byte 0.
    pub fn vsync_polarity(&self) -> (r: bool)
        ensures
            r == (field_get(self.d.data@[0], 3, 1) != 0),
    {
        extract_field(self.d.data[0], 3, 1) != 0
    }

    /// `hsync_polarity`: 1 bit at offset 2 of byte 0.
    pub fn hsync_polarity(&self) -> (r: bool)
        ensures
            r == (field_get(self.d.data@[0], 2, 1) != 0),
    {
        extract_field(self.d.data[0], 2, 1) != 0
    }

    /// `dotclk_polarity`: 1 bit at offset 1 of byte 0.
    pub fn dotclk_polarity(&self) -> (r: bool)
        ensures
            r == (field_get(self.d.data@[0], 1, 1) != 0),
    {
        extract_field(self.d.data[0], 1, 1) != 0
    }

    /// `de_polarity`: 1 bit at offset 0 of byte 0.
    pub fn de_polarity(&self) -> (r: bool)
        ensures
            r == (field_get(self.d.data@[0], 0, 1) != 0),
    {
        extract_field(self.d.data[0], 0, 1) != 0
    }
}

/// Write view of [`RgbInterfaceSignalControl`].
#[derive(Copy, Clone)]
pub struct RgbInterfaceSignalControlWrite {
    pub d: RgbInterfaceSignalControl,
}

impl RgbInterfaceSignalControlWrite {
    /// `display_data_path`: written into 1 bit at offset 7 of byte 0; all other bits are kept.
    pub fn display_data_path(self, w: DisplayDataPath) -> (r: Self)
        ensures
            r.d.data@ == self.d.data@.update(
                0,
                field_set(self.d.data@[0], 7, 1, w.spec_code()),
            ),
    {
        let c = w.code();
        let mut d = self.d;
        d.data[0] = insert_field(d.data[0], 7, 1, c);
        RgbInterfaceSignalControlWrite { d }
    }

    /// `rgb_interface_selection`: written into 2 bits at offset 5 of byte 0; all other bits are kept.
    pub fn rgb_interface_selection(self, w: u8) -> (r: Self)
        ensures
            r.d.data@ == self.d.data@.update(
                0,
                field_set(self.d.data@[0], 5, 2, w),
            ),
    {
        let mut d = self.d;
        d.data[0] = insert_field(d.data[0], 5, 2, w);
        RgbInterfaceSignalControlWrite { d }
    }

    /// `vsync_polarity`: written into 1 bit at offset 3 of byte 0; all other bits are kept.
    pub fn vsync_polarity(self, w: bool) -> (r: Self)
        ensures
            r.d.data@ == self.d.data@.update(
                0,
                field_set(self.d.data@[0], 3, 1, (if w { 1u8 } else { 0u8 })),
            ),
    {
        let mut d = self.d;
        d.data[0] = insert_field(d.data[0], 3, 1, if w { 1 } else { 0 });
        RgbInterfaceSignalControlWrite { d }
    }

    /// `hsync_polarity`: written into 1 bit at offset 2 of byte 0; all other bits are kept.
    pub fn hsync_polarity(self, w: bool) -> (r: Self)
        ensures
            r.d.data@ == self.d.data@.update(
                0,
                field_set(self.d.data@[0], 2, 1, (if w { 1u8 } else { 0u8 })),
            ),
    {
        let mut d = self.d;
        d.data[0] = insert_field(d.data[0], 2, 1, if w { 1 } else { 0 });
        RgbInterfaceSignalControlWrite { d }
    }

    /// `dotclk_polarity`: written into 1 bit at offset 1 of byte 0; all other bits are kept.
    pub fn dotclk_polarity(self, w: bool) -> (r: Self)
        ensures
            r.d.data@ == self.d.data@.update(
                0,
                field_set(self.d.data@[0], 1, 1, (if w { 1u8 } else { 0u8 })),
            ),
    {
        let mut d = self.d;
        d.data[0] = insert_field(d.data[0], 1, 1, if w { 1 } else { 0 });
        RgbInterfaceSignalControlWrite { d }
    }

    /// `de_polarity`: written into 1 bit at offset 0 of byte 0; all other bits are kept.
    pub fn de_polarity(self, w: bool) -> (r: Self)
        ensures
            r.d.data@ == self.d.data@.update(
                0,
                field_set(self.d.data@[0], 0, 1, (if w { 1u8 } else { 0u8 })),
            ),
    {
        let mut d = self.d;
        d.data[0] = insert_field(d.data[0], 0, 1, if w { 1 } else { 0 });
        RgbInterfaceSignalControlWrite { d }
    }
}

} // verus!
