//! Parameter block of the `page-address` command: the start and end
//! page of the frame-memory window, each a 16-bit big-endian counter.

use vstd::prelude::*;

use crate::bits::be16;

verus! {

/// The 4-byte parameter block of the `page-address` command.
#[derive(Copy, Clone, Debug)]
pub struct PageAddressSet {
    pub data: [u8; 4],
}

impl PageAddressSet {
    /// The chip's post-reset value of this block.
    pub open spec fn spec_default() -> Seq<u8> {
        seq![0x00u8, 0x00u8, 0x01u8, 0x3Fu8]
    }

    /// Borrow-free read view over a snapshot of the block.
    pub fn read(&self) -> (r: PageAddressSetRead)
        ensures
            r.d.data@ == self.data@,
    {
        PageAddressSetRead { d: *self }
    }

    /// Apply a builder transformation to this block and return the result.
    pub fn write<F: FnOnce(PageAddressSetWrite) -> PageAddressSetWrite>(self, f: F) -> (r: Self)
        requires
            call_requires(f, ((PageAddressSetWrite { d: self }),)),
        ensures
            call_ensures(f, ((PageAddressSetWrite { d: self }),), (PageAddressSetWrite { d: r })),
    {
        let w = f(PageAddressSetWrite { d: self });
        proof {
            assert((PageAddressSetWrite { d: w.d }) == w);
        }
        w.d
    }
}

impl Default for PageAddressSet {
    /// The block with the chip's documented post-reset byte pattern.
    fn default() -> (r: Self)
        ensures
            r.data@ == PageAddressSet::spec_default(),
    {
        let r = PageAddressSet { data: [0x00, 0x00, 0x01, 0x3F] };
        proof {
            assert(r.data@ =~= PageAddressSet::spec_default());
        }
        r
    }
}

/// Read view of [`PageAddressSet`].
#[derive(Copy, Clone)]
pub struct PageAddressSetRead {
    pub d: PageAddressSet,
}

impl PageAddressSetRead {
    /// `sp`: a 16-bit counter, bytes 0..2 big-endian.
    pub fn sp(&self) -> (r: u16)
        ensures
            r == be16(self.d.data@[0], self.d.data@[1]),
    {
        ((self.d.data[0] as u16) << 8) | (self.d.data[1] as u16)
    }

    /// `ep`: a 16-bit counter, bytes 2..4 big-endian.
    pub fn ep(&self) -> (r: u16)
        ensures
            r == be16(self.d.data@[2], self.d.data@[3]),
    {
        ((self.d.data[2] as u16) << 8) | (self.d.data[3] as u16)
    }
}

/// Write view of [`PageAddressSet`].
#[derive(Copy, Clone)]
pub struct PageAddressSetWrite {
    pub d: PageAddressSet,
}

impl PageAddressSetWrite {
    /// `sp`: written into byte 0 and byte 1; all other bits are kept.
    pub fn sp(self, w: u16) -> (r: Self)
        ensures
            r.d.data@ == self.d.data@.update(0, (w >> 8) as u8).update(1, w as u8),
    {
        let mut d = self.d;
        d.data[0] = (w >> 8) as u8;
        d.data[1] = w as u8;
        PageAddressSetWrite { d }
    }

    /// `ep`: written into byte 2 and byte 3; all other bits are kept.
    pub fn ep(self, w: u16) -> (r: Self)
        ensures
            r.d.data@ == self.d.data@.update(2, (w >> 8) as u8).update(3, w as u8),
    {
        let mut d = self.d;
        d.data[2] = (w >> 8) as u8;
        d.data[3] = w as u8;
        PageAddressSetWrite { d }
    }
}

} // verus!
