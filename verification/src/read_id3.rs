//! Parameter block of the `read-id3` command: the module's driver ID.

use vstd::prelude::*;


verus! {

/// The single-byte parameter block of the `read-id3` command.
#[derive(Copy, Clone, Debug)]
pub struct Id3 {
    pub data: [u8; 1],
}

impl Id3 {
    /// The chip's post-reset value of this block.
    pub open spec fn spec_default() -> Seq<u8> {
        seq![0x00u8]
    }

    /// Borrow-free read view over a snapshot of the block.
    pub fn read(&self) -> (r: Id3Read)
        ensures
            r.d.data@ == self.data@,
    {
        Id3Read { d: *self }
    }

    /// Apply a builder transformation to this block and return the result.
    pub fn write<F: FnOnce(Id3Write) -> Id3Write>(self, f: F) -> (r: Self)
        requires
            call_requires(f, ((Id3Write { d: self }),)),
        ensures
            call_ensures(f, ((Id3Write { d: self }),), (Id3Write { d: r })),
    {
        let w = f(Id3Write { d: self });
        proof {
            assert((Id3Write { d: w.d }) == w);
        }
        w.d
    }
}

impl Default for Id3 {
    /// The block with the chip's documented post-reset byte pattern.
    fn default() -> (r: Self)
        ensures
            r.data@ == Id3::spec_default(),
    {
        let r = Id3 { data: [0x00] };
        proof {
            assert(r.data@ =~= Id3::spec_default());
        }
        r
    }
}

/// Read view of [`Id3`].
#[derive(Copy, Clone)]
pub struct Id3Read {
    pub d: Id3,
}

impl Id3Read {
    /// `id3`: the whole of byte 0.
    pub fn id3(&self) -> (r: u8)
        ensures
            r == self.d.data@[0],
    {
        self.d.data[0]
    }
}

/// Write view of [`Id3`].
#[derive(Copy, Clone)]
pub struct Id3Write {
    pub d: Id3,
}

impl Id3Write {
    /// `id3`: written into byte 0; all other bits are kept.
    pub fn id3(self, w: u8) -> (r: Self)
        ensures
            r.d.data@ == self.d.data@.update(0, w),
    {
        let mut d = self.d;
        d.data[0] = w;
        Id3Write { d }
    }
}

} // verus!
