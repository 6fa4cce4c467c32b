//! Parameter block of the `column-address` command: the start and end
//! column of the frame-memory window, each a 16-bit big-endian counter.

use vstd::prelude::*;

use crate::bits::be16;

verus! {

/// The 4-byte parameter block of the `column-address` command.
#[derive(Copy, Clone, Debug)]
pub struct ColumnAddressSet {
    pub data: [u8; 4],
}

impl ColumnAddressSet {
    /// The chip's post-reset value of this block.
    pub open spec fn spec_default() -> Seq<u8> {
        seq![0x00u8, 0x00u8, 0x00u8, 0xEFu8]
    }

    /// Borrow-free read view over a snapshot of the block.
    pub fn read(&self) -> (r: ColumnAddressSetRead)
        ensures
            r.d.data@ == self.data@,
    {
        ColumnAddressSetRead { d: *self }
    }

    /// Apply a builder transformation to this block and return the result.
    pub fn write<F: FnOnce(ColumnAddressSetWrite) -> ColumnAddressSetWrite>(self, f: F) -> (r: Self)
        requires
            call_requires(f, ((ColumnAddressSetWrite { d: self }),)),
        ensures
            call_ensures(f, ((ColumnAddressSetWrite { d: self }),), (ColumnAddressSetWrite { d: r })),
    {
        let w = f(ColumnAddressSetWrite { d: self });
        proof {
            assert((ColumnAddressSetWrite { d: w.d }) == w);
        }
        w.d
    }
}

impl Default for ColumnAddressSet {
    /// The block with the chip's documented post-reset byte pattern.
    fn default() -> (r: Self)
        ensures
            r.data@ == ColumnAddressSet::spec_default(),
    {
        let r = ColumnAddressSet { data: [0x00, 0x00, 0x00, 0xEF] };
        proof {
            assert(r.data@ =~= ColumnAddressSet::spec_default());
        }
        r
    }
}

/// Read view of [`ColumnAddressSet`].
#[derive(Copy, Clone)]
pub struct ColumnAddressSetRead {
    pub d: ColumnAddressSet,
}

impl ColumnAddressSetRead {
    /// `sc`: a 16-bit counter, bytes 0..2 big-endian.
    pub fn sc(&self) -> (r: u16)
        ensures
            r == be16(self.d.data@[0], self.d.data@[1]),
    {
        ((self.d.data[0] as u16) << 8) | (self.d.data[1] as u16)
    }

    /// `ec`: a 16-bit counter, bytes 2..4 big-endian.
    pub fn ec(&self) -> (r: u16)
        ensures
            r == be16(self.d.data@[2], self.d.data@[3]),
    {
        ((self.d.data[2] as u16) << 8) | (self.d.data[3] as u16)
    }
}

/// Write view of [`ColumnAddressSet`].
#[derive(Copy, Clone)]
pub struct ColumnAddressSetWrite {
    pub d: ColumnAddressSet,
}

impl ColumnAddressSetWrite {
    /// `sc`: written into byte 0 and byte 1; all other bits are kept.
    pub fn sc(self, w: u16) -> (r: Self)
        ensures
            r.d.data@ == self.d.data@.update(0, (w >> 8) as u8).update(1, w as u8),
    {
        let mut d = self.d;
        d.data[0] = (w >> 8) as u8;
        d.data[1] = w as u8;
        ColumnAddressSetWrite { d }
    }

    /// `ec`: written into byte 2 and byte 3; all other bits are kept.
    pub fn ec(self, w: u16) -> (r: Self)
        ensures
            r.d.data@ == self.d.data@.update(2, (w >> 8) as u8).update(3, w as u8),
    {
        let mut d = self.d;
        d.data[2] = (w >> 8) as u8;
        d.data[3] = w as u8;
        ColumnAddressSetWrite { d }
    }
}

} // verus!
