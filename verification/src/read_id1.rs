//! Parameter block of the `read-id1` command: the module's manufacturer ID.

use vstd::prelude::*;


verus! {

/// The single-byte parameter block of the `read-id1` command.
#[derive(Copy, Clone, Debug)]
pub struct Id1 {
    pub data: [u8; 1],
}

impl Id1 {
    /// The chip's post-reset value of this block.
    pub open spec fn spec_default() -> Seq<u8> {
        seq![0x00u8]
    }

    /// Borrow-free read view over a snapshot of the block.
    pub fn read(&self) -> (r: Id1Read)
        ensures
            r.d.data@ == self.data@,
    {
        Id1Read { d: *self }
    }

    /// Apply a builder transformation to this block and return the result.
    pub fn write<F: FnOnce(Id1Write) -> Id1Write>(self, f: F) -> (r: Self)
        requires
            call_requires(f, ((Id1Write { d: self }),)),
        ensures
            call_ensures(f, ((Id1Write { d: self }),), (Id1Write { d: r })),
    {
        let w = f(Id1Write { d: self });
        proof {
            assert((Id1Write { d: w.d }) == w);
        }
        w.d
    }
}

impl Default for Id1 {
    /// The block with the chip's documented post-reset byte pattern.
    fn default() -> (r: Self)
        ensures
            r.data@ == Id1::spec_default(),
    {
        let r = Id1 { data: [0x00] };
        proof {
            assert(r.data@ =~= Id1::spec_default());
        }
        r
    }
}

/// Read view of [`Id1`].
#[derive(Copy, Clone)]
pub struct Id1Read {
    pub d: Id1,
}

impl Id1Read {
    /// `id1`: the whole of byte 0.
    pub fn id1(&self) -> (r: u8)
        ensures
            r == self.d.data@[0],
    {
        self.d.data[0]
    }
}

/// Write view of [`Id1`].
#[derive(Copy, Clone)]
pub struct Id1Write {
    pub d: Id1,
}

impl Id1Write {
    /// `id1`: written into byte 0; all other bits are kept.
    pub fn id1(self, w: u8) -> (r: Self)
        ensures
            r.d.data@ == self.d.data@.update(0, w),
    {
        let mut d = self.d;
        d.data[0] = w;
        Id1Write { d }
    }
}

} // verus!
