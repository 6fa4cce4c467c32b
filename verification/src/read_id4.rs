//! Parameter block of the `read-id4` command: the IC device code.

use vstd::prelude::*;


verus! {

/// The 3-byte parameter block of the `read-id4` command.
#[derive(Copy, Clone, Debug)]
pub struct Id4 {
    pub data: [u8; 3],
}

impl Id4 {
    /// The chip's post-reset value of this block.
    pub open spec fn spec_default() -> Seq<u8> {
        seq![0x00u8, 0x93u8, 0x41u8]
    }

    /// Borrow-free read view over a snapshot of the block.
    pub fn read(&self) -> (r: Id4Read)
        ensures
            r.d.data@ == self.data@,
    {
        Id4Read { d: *self }
    }

    /// Apply a builder transformation to this block and return the result.
    pub fn write<F: FnOnce(Id4Write) -> Id4Write>(self, f: F) -> (r: Self)
        requires
            call_requires(f, ((Id4Write { d: self }),)),
        ensures
            call_ensures(f, ((Id4Write { d: self }),), (Id4Write { d: r })),
    {
        let w = f(Id4Write { d: self });
        proof {
            assert((Id4Write { d: w.d }) == w);
        }
        w.d
    }
}

impl Default for Id4 {
    /// The block with the chip's documented post-reset byte pattern.
    fn default() -> (r: Self)
        ensures
            r.data@ == Id4::spec_default(),
    {
        let r = Id4 { data: [0x00, 0x93, 0x41] };
        proof {
            assert(r.data@ =~= Id4::spec_default());
        }
        r
    }
}

/// Read view of [`Id4`].
#[derive(Copy, Clone)]
pub struct Id4Read {
    pub d: Id4,
}

/// Write view of [`Id4`].
#[derive(Copy, Clone)]
pub struct Id4Write {
    pub d: Id4,
}

} // verus!
