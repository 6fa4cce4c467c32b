//! Parameter block of the `vertical-scrolling` command: the top fixed, scrolling
//! and bottom fixed area heights, each a 16-bit big-endian counter.

use vstd::prelude::*;

use crate::bits::be16;

verus! {

/// The 6-byte parameter block of the `vertical-scrolling` command.
#[derive(Copy, Clone, Debug)]
pub struct VerticalScrollingDefinition {
    pub data: [u8; 6],
}

impl VerticalScrollingDefinition {
    /// The chip's post-reset value of this block.
    pub open spec fn spec_default() -> Seq<u8> {
        seq![0x00u8, 0x00u8, 0x01u8, 0x40u8, 0x00u8, 0x00u8]
    }

    /// Borrow-free read view over a snapshot of the block.
    pub fn read(&self) -> (r: VerticalScrollingDefinitionRead)
        ensures
            r.d.data@ == self.data@,
    {
        VerticalScrollingDefinitionRead { d: *self }
    }

    /// Apply a builder transformation to this block and return the result.
    pub fn write<F: FnOnce(VerticalScrollingDefinitionWrite) -> VerticalScrollingDefinitionWrite>(self, f: F) -> (r: Self)
        requires
            call_requires(f, ((VerticalScrollingDefinitionWrite { d: self }),)),
        ensures
            call_ensures(f, ((VerticalScrollingDefinitionWrite { d: self }),), (VerticalScrollingDefinitionWrite { d: r })),
    {
        let w = f(VerticalScrollingDefinitionWrite { d: self });
        proof {
            assert((VerticalScrollingDefinitionWrite { d: w.d }) == w);
        }
        w.d
    }
}

impl Default for VerticalScrollingDefinition {
    /// The block with the chip's documented post-reset byte pattern.
    fn default() -> (r: Self)
        ensures
            r.data@ == VerticalScrollingDefinition::spec_default(),
    {
        let r = VerticalScrollingDefinition { data: [0x00, 0x00, 0x01, 0x40, 0x00, 0x00] };
        proof {
            assert(r.data@ =~= VerticalScrollingDefinition::spec_default());
        }
        r
    }
}

/// Read view of [`VerticalScrollingDefinition`].
#[derive(Copy, Clone)]
pub struct VerticalScrollingDefinitionRead {
    pub d: VerticalScrollingDefinition,
}

impl VerticalScrollingDefinitionRead {
    /// `tfa`: a 16-bit counter, bytes 0..2 big-endian.
    pub fn tfa(&self) -> (r: u16)
        ensures
            r == be16(self.d.data@[0], self.d.data@[1]),
    {
        ((self.d.data[0] as u16) << 8) | (self.d.data[1] as u16)
    }

    /// `vsa`: a 16-bit counter, bytes 2..4 big-endian.
    pub fn vsa(&self) -> (r: u16)
        ensures
            r == be16(self.d.data@[2], self.d.data@[3]),
    {
        ((self.d.data[2] as u16) << 8) | (self.d.data[3] as u16)
    }

    /// `bfa`: a 16-bit counter, bytes 4..6 big-endian.
    pub fn bfa(&self) -> (r: u16)
        ensures
            r == be16(self.d.data@[4], self.d.data@[5]),
    {
        ((self.d.data[4] as u16) << 8) | (self.d.data[5] as u16)
    }
}

/// Write view of [`VerticalScrollingDefinition`].
#[derive(Copy, Clone)]
pub struct VerticalScrollingDefinitionWrite {
    pub d: VerticalScrollingDefinition,
}

impl VerticalScrollingDefinitionWrite {
    /// `tfa`: written into byte 0 and byte 1; all other bits are kept.
    pub fn tfa(self, w: u16) -> (r: Self)
        ensures
            r.d.data@ == self.d.data@.update(0, (w >> 8) as u8).update(1, w as u8),
    {
        let mut d = self.d;
        d.data[0] = (w >> 8) as u8;
        d.data[1] = w as u8;
        VerticalScrollingDefinitionWrite { d }
    }

    /// `vsa`: written into byte 2 and byte 3; all other bits are kept.
    pub fn vsa(self, w: u16) -> (r: Self)
        ensures
            r.d.data@ == self.d.data@.update(2, (w >> 8) as u8).update(3, w as u8),
    {
        let mut d = self.d;
        d.data[2] = (w >> 8) as u8;
        d.data[3] = w as u8;
        VerticalScrollingDefinitionWrite { d }
    }

    /// `bfa`: written into byte 4 and byte 5; all other bits are kept.
    pub fn bfa(self, w: u16) -> (r: Self)
        ensures
            r.d.data@ == self.d.data@.update(4, (w >> 8) as u8).update(5, w as u8),
    {
        let mut d = self.d;
        d.data[4] = (w >> 8) as u8;
        d.data[5] = w as u8;
        VerticalScrollingDefinitionWrite { d }
    }
}

} // verus!
