//! Parameter block of the `vertical-scrolling-start-address` command: the line
//! written first after the top fixed area when scrolling, a 16-bit
//! big-endian counter.

use vstd::prelude::*;

use crate::bits::be16;

verus! {

/// The 2-byte parameter block of the `vertical-scrolling-start-address` command.
#[derive(Copy, Clone, Debug)]
pub struct VerticalScrollingStartAddress {
    pub data: [u8; 2],
}

impl VerticalScrollingStartAddress {
    /// The chip's post-reset value of this block.
    pub open spec fn spec_default() -> Seq<u8> {
        seq![0x00u8, 0x00u8]
    }

    /// Borrow-free read view over a snapshot of the block.
    pub fn read(&self) -> (r: VerticalScrollingStartAddressRead)
        ensures
            r.d.data@ == self.data@,
    {
        VerticalScrollingStartAddressRead { d: *self }
    }

    /// Apply a builder transformation to this block and return the result.
    pub fn write<F: FnOnce(VerticalScrollingStartAddressWrite) -> VerticalScrollingStartAddressWrite>(self, f: F) -> (r: Self)
        requires
            call_requires(f, ((VerticalScrollingStartAddressWrite { d: self }),)),
        ensures
            call_ensures(f, ((VerticalScrollingStartAddressWrite { d: self }),), (VerticalScrollingStartAddressWrite { d: r })),
    {
        let w = f(VerticalScrollingStartAddressWrite { d: self });
        proof {
            assert((VerticalScrollingStartAddressWrite { d: w.d }) == w);
        }
        w.d
    }
}

impl Default for VerticalScrollingStartAddress {
    /// The block with the chip's documented post-reset byte pattern.
    fn default() -> (r: Self)
        ensures
            r.data@ == VerticalScrollingStartAddress::spec_default(),
    {
        let r = VerticalScrollingStartAddress { data: [0x00, 0x00] };
        proof {
            assert(r.data@ =~= VerticalScrollingStartAddress::spec_default());
        }
        r
    }
}

/// Read view of [`VerticalScrollingStartAddress`].
#[derive(Copy, Clone)]
pub struct VerticalScrollingStartAddressRead {
    pub d: VerticalScrollingStartAddress,
}

impl VerticalScrollingStartAddressRead {
    /// `vsp`: a 16-bit counter, bytes 0..2 big-endian.
    pub fn vsp(&self) -> (r: u16)
        ensures
            r == be16(self.d.data@[0], self.d.data@[1]),
    {
        ((self.d.data[0] as u16) << 8) | (self.d.data[1] as u16)
    }
}

/// Write view of [`VerticalScrollingStartAddress`].
#[derive(Copy, Clone)]
pub struct VerticalScrollingStartAddressWrite {
    pub d: VerticalScrollingStartAddress,
}

impl VerticalScrollingStartAddressWrite {
    /// `vsp`: written into byte 0 and byte 1; all other bits are kept.
    pub fn vsp(self, w: u16) -> (r: Self)
        ensures
            r.d.data@ == self.d.data@.update(0, (w >> 8) as u8).update(1, w as u8),
    {
        let mut d = self.d;
        d.data[0] = (w >> 8) as u8;
        d.data[1] = w as u8;
        VerticalScrollingStartAddressWrite { d }
    }
}

} // verus!
