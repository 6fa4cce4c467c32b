//! Parameter block of the `read-ctrl-display` command: the brightness control block,
//! display dimming and backlight switches in use.

use vstd::prelude::*;

use crate::bits::extract_field;
use crate::bits::field_get;
use crate::bits::field_set;
use crate::bits::insert_field;

verus! {

/// The single-byte parameter block of the `read-ctrl-display` command.
#[derive(Copy, Clone, Debug)]
pub struct CtrlDisplay {
    pub data: [u8; 1],
}

impl CtrlDisplay {
    /// The chip's post-reset value of this block.
    pub open spec fn spec_default() -> Seq<u8> {
        seq![0x00u8]
    }

    /// Borrow-free read view over a snapshot of the block.
    pub fn read(&self) -> (r: CtrlDisplayRead)
        ensures
            r.d.data@ == self.data@,
    {
        CtrlDisplayRead { d: *self }
    }

    /// Apply a builder transformation to this block and return the result.
    pub fn write<F: FnOnce(CtrlDisplayWrite) -> CtrlDisplayWrite>(self, f: F) -> (r: Self)
        requires
            call_requires(f, ((CtrlDisplayWrite { d: self }),)),
        ensures
            call_ensures(f, ((CtrlDisplayWrite { d: self }),), (CtrlDisplayWrite { d: r })),
    {
        let w = f(CtrlDisplayWrite { d: self });
        proof {
            assert((CtrlDisplayWrite { d: w.d }) == w);
        }
        w.d
    }
}

impl Default for CtrlDisplay {
    /// The block with the chip's documented post-reset byte pattern.
    fn default() -> (r: Self)
        ensures
            r.data@ == CtrlDisplay::spec_default(),
    {
        let r = CtrlDisplay { data: [0x00] };
        proof {
            assert(r.data@ =~= CtrlDisplay::spec_default());
        }
        r
    }
}

/// Read view of [`CtrlDisplay`].
#[derive(Copy, Clone)]
pub struct CtrlDisplayRead {
    pub d: CtrlDisplay,
}

impl CtrlDisplayRead {
    /// `brightness_control_block`: 1 bit at offset 5 of byte 0.
    pub fn brightness_control_block(&self) -> (r: bool)
        ensures
            r == (field_get(self.d.data@[0], 5, 1) != 0),
    {
        extract_field(self.d.data[0], 5, 1) != 0
    }

    /// `display_dimming`: 1 bit at offset 3 of byte 0.
    pub fn display_dimming(&self) -> (r: bool)
        ensures
            r == (field_get(self.d.data@[0], 3, 1) != 0),
    {
        extract_field(self.d.data[0], 3, 1) != 0
    }

    /// `backlight`: 1 bit at offset 2 of byte 0.
    pub fn backlight(&self) -> (r: bool)
        ensures
            r == (field_get(self.d.data@[0], 2, 1) != 0),
    {
        extract_field(self.d.data[0], 2, 1) != 0
    }
}

/// Write view of [`CtrlDisplay`].
#[derive(Copy, Clone)]
pub struct CtrlDisplayWrite {
    pub d: CtrlDisplay,
}

impl CtrlDisplayWrite {
    /// `brightness_control_block`: written into 1 bit at offset 5 of byte 0; all other bits are kept.
    pub fn brightness_control_block(self, w: bool) -> (r: Self)
        ensures
            r.d.data@ == self.d.data@.update(
                0,
                field_set(self.d.data@[0], 5, 1, (if w { 1u8 } else { 0u8 })),
            ),
    {
        let mut d = self.d;
        d.data[0] = insert_field(d.data[0], 5, 1, if w { 1 } else { 0 });
        CtrlDisplayWrite { d }
    }

    /// `display_dimming`: written into 1 bit at offset 3 of byte 0; all other bits are kept.
    pub fn display_dimming(self, w: bool) -> (r: Self)
        ensures
            r.d.data@ == self.d.data@.update(
                0,
                field_set(self.d.data@[0], 3, 1, (if w { 1u8 } else { 0u8 })),
            ),
    {
        let mut d = self.d;
        d.data[0] = insert_field(d.data[0], 3, 1, if w { 1 } else { 0 });
        CtrlDisplayWrite { d }
    }

    /// `backlight`: written into 1 bit at offset 2 of byte 0; all other bits are kept.
    pub fn backlight(self, w: bool) -> (r: Self)
        ensures
            r.d.data@ == self.d.data@.update(
                0,
                field_set(self.d.data@[0], 2, 1, (if w { 1u8 } else { 0u8 })),
            ),
    {
        let mut d = self.d;
        d.data[0] = insert_field(d.data[0], 2, 1, if w { 1 } else { 0 });
        CtrlDisplayWrite { d }
    }
}

} // verus!
