//! Parameter block of the `memory-access-control` command: the read/write scanning
//! direction of the frame memory.

use vstd::prelude::*;

use crate::bits::extract_field;
use crate::bits::field_get;
use crate::bits::field_set;
use crate::bits::insert_field;

verus! {

/// The single-byte parameter block of the `memory-access-control` command.
#[derive(Copy, Clone, Debug)]
pub struct MemoryAccessControl {
    pub data: [u8; 1],
}

impl MemoryAccessControl {
    /// The chip's post-reset value of this block.
    pub open spec fn spec_default() -> Seq<u8> {
        seq![0x00u8]
    }

    /// Borrow-free read view over a snapshot of the block.
    pub fn read(&self) -> (r: MemoryAccessControlRead)
        ensures
            r.d.data@ == self.data@,
    {
        MemoryAccessControlRead { d: *self }
    }

    /// Apply a builder transformation to this block and return the result.
    pub fn write<F: FnOnce(MemoryAccessControlWrite) -> MemoryAccessControlWrite>(self, f: F) -> (r: Self)
        requires
            call_requires(f, ((MemoryAccessControlWrite { d: self }),)),
        ensures
            call_ensures(f, ((MemoryAccessControlWrite { d: self }),), (MemoryAccessControlWrite { d: r })),
    {
        let w = f(MemoryAccessControlWrite { d: self });
        proof {
            assert((MemoryAccessControlWrite { d: w.d }) == w);
        }
        w.d
    }
}

impl Default for MemoryAccessControl {
    /// The block with the chip's documented post-reset byte pattern.
    fn default() -> (r: Self)
        ensures
            r.data@ == MemoryAccessControl::spec_default(),
    {
        let r = MemoryAccessControl { data: [0x00] };
        proof {
            assert(r.data@ =~= MemoryAccessControl::spec_default());
        }
        r
    }
}

/// Read view of [`MemoryAccessControl`].
#[derive(Copy, Clone)]
pub struct MemoryAccessControlRead {
    pub d: MemoryAccessControl,
}

impl MemoryAccessControlRead {
    /// `row_address_order`: 1 bit at offset 7 of byte 0.
    pub fn row_address_order(&self) -> (r: bool)
        ensures
            r == (field_get(self.d.data@[0], 7, 1) != 0),
    {
        extract_field(self.d.data[0], 7, 1) != 0
    }

    /// `column_address_order`: 1 bit at offset 6 of byte 0.
    pub fn column_address_order(&self) -> (r: bool)
        ensures
            r == (field_get(self.d.data@[0], 6, 1) != 0),
    {
        extract_field(self.d.data[0], 6, 1) != 0
    }

    /// `row_column_exchange`: 1 bit at offset 5 of byte 0.
    pub fn row_column_exchange(&self) -> (r: bool)
        ensures
            r == (field_get(self.d.data@[0], 5, 1) != 0),
    {
        extract_field(self.d.data[0], 5, 1) != 0
    }

    /// `vertical_refresh_order`: 1 bit at offset 4 of byte 0.
    pub fn vertical_refresh_order(&self) -> (r: bool)
        ensures
            r == (field_get(self.d.data@[0], 4, 1) != 0),
    {
        extract_field(self.d.data[0], 4, 1) != 0
    }

    /// `rgb_bgr_order`: 1 bit at offset 3 of byte 0.
    pub fn rgb_bgr_order(&self) -> (r: bool)
        ensures
            r == (field_get(self.d.data@[0], 3, 1) != 0),
    {
        extract_field(self.d.data[0], 3, 1) != 0
    }

    /// `horizontal_refresh_order`: 1 bit at offset 2 of byte 0.
    pub fn horizontal_refresh_order(&self) -> (r: bool)
        ensures
            r == (field_get(self.d.data@[0], 2, 1) != 0),
    {
        extract_field(self.d.data[0], 2, 1) != 0
    }
}

/// Write view of [`MemoryAccessControl`].
#[derive(Copy, Clone)]
pub struct MemoryAccessControlWrite {
    pub d: MemoryAccessControl,
}

impl MemoryAccessControlWrite {
    /// `row_address_order`: written into 1 bit at offset 7 of byte 0; all other bits are kept.
    pub fn row_address_order(self, w: bool) -> (r: Self)
        ensures
            r.d.data@ == self.d.data@.update(
                0,
                field_set(self.d.data@[0], 7, 1, (if w { 1u8 } else { 0u8 })),
            ),
    {
        let mut d = self.d;
        d.data[0] = insert_field(d.data[0], 7, 1, if w { 1 } else { 0 });
        MemoryAccessControlWrite { d }
    }

    /// `column_address_order`: written into 1 bit at offset 6 of byte 0; all other bits are kept.
    pub fn column_address_order(self, w: bool) -> (r: Self)
        ensures
            r.d.data@ == self.d.data@.update(
                0,
                field_set(self.d.data@[0], 6, 1, (if w { 1u8 } else { 0u8 })),
            ),
    {
        let mut d = self.d;
        d.data[0] = insert_field(d.data[0], 6, 1, if w { 1 } else { 0 });
        MemoryAccessControlWrite { d }
    }

    /// `row_column_exchange`: written into 1 bit at offset 5 of byte 0; all other bits are kept.
    pub fn row_column_exchange(self, w: bool) -> (r: Self)
        ensures
            r.d.data@ == self.d.data@.update(
                0,
                field_set(self.d.data@[0], 5, 1, (if w { 1u8 } else { 0u8 })),
            ),
    {
        let mut d = self.d;
        d.data[0] = insert_field(d.data[0], 5, 1, if w { 1 } else { 0 });
        MemoryAccessControlWrite { d }
    }

    /// `vertical_refresh_order`: written into 1 bit at offset 4 of byte 0; all other bits are kept.
    pub fn vertical_refresh_order(self, w: bool) -> (r: Self)
        ensures
            r.d.data@ == self.d.data@.update(
                0,
                field_set(self.d.data@[0], 4, 1, (if w { 1u8 } else { 0u8 })),
            ),
    {
        let mut d = self.d;
        d.data[0] = insert_field(d.data[0], 4, 1, if w { 1 } else { 0 });
        MemoryAccessControlWrite { d }
    }

    /// `rgb_bgr_order`: written into 1 bit at offset 3 of byte 0; all other bits are kept.
    pub fn rgb_bgr_order(self, w: bool) -> (r: Self)
        ensures
            r.d.data@ == self.d.data@.update(
                0,
                field_set(self.d.data@[0], 3, 1, (if w { 1u8 } else { 0u8 })),
            ),
    {
        let mut d = self.d;
        d.data[0] = insert_field(d.data[0], 3, 1, if w { 1 } else { 0 });
        MemoryAccessControlWrite { d }
    }

    /// `horizontal_refresh_order`: written into 1 bit at offset 2 of byte 0; all other bits are kept.
    pub fn horizontal_refresh_order(self, w: bool) -> (r: Self)
        ensures
            r.d.data@ == self.d.data@.update(
                0,
                field_set(self.d.data@[0], 2, 1, (if w { 1u8 } else { 0u8 })),
            ),
    {
        let mut d = self.d;
        d.data[0] = insert_field(d.data[0], 2, 1, if w { 1 } else { 0 });
        MemoryAccessControlWrite { d }
    }
}

} // verus!
