//! Parameter block of the `tearing-effect-line-on` command: the tearing-effect
//! output mode.

use vstd::prelude::*;

use crate::bits::extract_field;
use crate::bits::field_get;
use crate::bits::field_set;
use crate::bits::insert_field;

verus! {

/// The single-byte parameter block of the `tearing-effect-line-on` command.
#[derive(Copy, Clone, Debug)]
pub struct TearingEffectLineOn {
    pub data: [u8; 1],
}

impl TearingEffectLineOn {
    /// The chip's post-reset value of this block.
    pub open spec fn spec_default() -> Seq<u8> {
        seq![0x00u8]
    }

    /// Borrow-free read view over a snapshot of the block.
    pub fn read(&self) -> (r: TearingEffectLineOnRead)
        ensures
            r.d.data@ == self.data@,
    {
        TearingEffectLineOnRead { d: *self }
    }

    /// Apply a builder transformation to this block and return the result.
    pub fn write<F: FnOnce(TearingEffectLineOnWrite) -> TearingEffectLineOnWrite>(self, f: F) -> (r: Self)
        requires
            call_requires(f, ((TearingEffectLineOnWrite { d: self }),)),
        ensures
            call_ensures(f, ((TearingEffectLineOnWrite { d: self }),), (TearingEffectLineOnWrite { d: r })),
    {
        let w = f(TearingEffectLineOnWrite { d: self });
        proof {
            assert((TearingEffectLineOnWrite { d: w.d }) == w);
        }
        w.d
    }
}

impl Default for TearingEffectLineOn {
    /// The block with the chip's documented post-reset byte pattern.
    fn default() -> (r: Self)
        ensures
            r.data@ == TearingEffectLineOn::spec_default(),
    {
        let r = TearingEffectLineOn { data: [0x00] };
        proof {
            assert(r.data@ =~= TearingEffectLineOn::spec_default());
        }
        r
    }
}

/// Read view of [`TearingEffectLineOn`].
#[derive(Copy, Clone)]
pub struct TearingEffectLineOnRead {
    pub d: TearingEffectLineOn,
}

impl TearingEffectLineOnRead {
    /// `m`: 1 bit at offset 0 of byte 0.
    pub fn m(&self) -> (r: bool)
        ensures
            r == (field_get(self.d.data@[0], 0, 1) != 0),
    {
        extract_field(self.d.data[0], 0, 1) != 0
    }
}

/// Write view of [`TearingEffectLineOn`].
#[derive(Copy, Clone)]
pub struct TearingEffectLineOnWrite {
    pub d: TearingEffectLineOn,
}

impl TearingEffectLineOnWrite {
    /// `m`: written into 1 bit at offset 0 of byte 0; all other bits are kept.
    pub fn m(self, w: bool) -> (r: Self)
        ensures
            r.d.data@ == self.d.data@.update(
                0,
                field_set(self.d.data@[0], 0, 1, (if w { 1u8 } else { 0u8 })),
            ),
    {
        let mut d = self.d;
        d.data[0] = insert_field(d.data[0], 0, 1, if w { 1 } else { 0 });
        TearingEffectLineOnWrite { d }
    }
}

} // verus!
