//! Parameter block of the `read-id2` command: the module's driver version ID.

use vstd::prelude::*;

use crate::bits::extract_field;
use crate::bits::field_get;
use crate::bits::field_set;
use crate::bits::insert_field;

verus! {

/// The single-byte parameter block of the `read-id2` command.
#[derive(Copy, Clone, Debug)]
pub struct Id2 {
    pub data: [u8; 1],
}

impl Id2 {
    /// The chip's post-reset value of this block.
    pub open spec fn spec_default() -> Seq<u8> {
        seq![0x80u8]
    }

    /// Borrow-free read view over a snapshot of the block.
    pub fn read(&self) -> (r: Id2Read)
        ensures
            r.d.data@ == self.data@,
    {
        Id2Read { d: *self }
    }

    /// Apply a builder transformation to this block and return the result.
    pub fn write<F: FnOnce(Id2Write) -> Id2Write>(self, f: F) -> (r: Self)
        requires
            call_requires(f, ((Id2Write { d: self }),)),
        ensures
            call_ensures(f, ((Id2Write { d: self }),), (Id2Write { d: r })),
    {
        let w = f(Id2Write { d: self });
        proof {
            assert((Id2Write { d: w.d }) == w);
        }
        w.d
    }
}

impl Default for Id2 {
    /// The block with the chip's documented post-reset byte pattern.
    fn default() -> (r: Self)
        ensures
            r.data@ == Id2::spec_default(),
    {
        let r = Id2 { data: [0x80] };
        proof {
            assert(r.data@ =~= Id2::spec_default());
        }
        r
    }
}

/// Read view of [`Id2`].
#[derive(Copy, Clone)]
pub struct Id2Read {
    pub d: Id2,
}

impl Id2Read {
    /// `id2`: 7 bits at offset 0 of byte 0.
    pub fn id2(&self) -> (r: u8)
        ensures
            r == field_get(self.d.data@[0], 0, 7),
    {
        extract_field(self.d.data[0], 0, 7)
    }
}

/// Write view of [`Id2`].
#[derive(Copy, Clone)]
pub struct Id2Write {
    pub d: Id2,
}

impl Id2Write {
    /// `id2`: written into 7 bits at offset 0 of byte 0; all other bits are kept.
    pub fn id2(self, w: u8) -> (r: Self)
        ensures
            r.d.data@ == self.d.data@.update(
                0,
                field_set(self.d.data@[0], 0, 7, w),
            ),
    {
        let mut d = self.d;
        d.data[0] = insert_field(d.data[0], 0, 7, w);
        Id2Write { d }
    }
}

} // verus!
