//! Parameter block of the `blanking-porch-control` command: the vertical and
//! horizontal front and back porch line counts, each biased with a
//! documented minimum of 2.

use vstd::prelude::*;

use crate::bits::extract_field;
use crate::bits::field_get;
use crate::bits::field_set;
use crate::bits::insert_field;
use crate::bits::spec_decode_floor;
use crate::error::CodecError;

verus! {

/// The 4-byte parameter block of the `blanking-porch-control` command.
#[derive(Copy, Clone, Debug)]
pub struct BlankingPorchControl {
    pub data: [u8; 4],
}

impl BlankingPorchControl {
    /// The chip's post-reset value of this block.
    pub open spec fn spec_default() -> Seq<u8> {
        seq![0x02u8, 0x02u8, 0x0Au8, 0x14u8]
    }

    /// Borrow-free read view over a snapshot of the block.
    pub fn read(&self) -> (r: BlankingPorchControlRead)
        ensures
            r.d.data@ == self.data@,
    {
        BlankingPorchControlRead { d: *self }
    }

    /// Apply a builder transformation to this block and return the result.
    pub fn write<F: FnOnce(BlankingPorchControlWrite) -> BlankingPorchControlWrite>(self, f: F) -> (r: Self)
        requires
            call_requires(f, ((BlankingPorchControlWrite { d: self }),)),
        ensures
            call_ensures(f, ((BlankingPorchControlWrite { d: self }),), (BlankingPorchControlWrite { d: r })),
    {
        let w = f(BlankingPorchControlWrite { d: self });
        proof {
            assert((BlankingPorchControlWrite { d: w.d }) == w);
        }
        w.d
    }
}

impl Default for BlankingPorchControl {
    /// The block with the chip's documented post-reset byte pattern.
    fn default() -> (r: Self)
        ensures
            r.data@ == BlankingPorchControl::spec_default(),
    {
        let r = BlankingPorchControl { data: [0x02, 0x02, 0x0A, 0x14] };
        proof {
            assert(r.data@ =~= BlankingPorchControl::spec_default());
        }
        r
    }
}

/// Read view of [`BlankingPorchControl`].
#[derive(Copy, Clone)]
pub struct BlankingPorchControlRead {
    pub d: BlankingPorchControl,
}

impl BlankingPorchControlRead {
    /// `vfp`: 7 bits at offset 0 of byte 0; a stored value under the documented minimum of 2 is a recoverable decode error.
    pub fn vfp(&self) -> (r: Result<u8, CodecError>)
        ensures
            r == spec_decode_floor(field_get(self.d.data@[0], 0, 7), 2),
    {
        let c = extract_field(self.d.data[0], 0, 7);
        if c >= 2 {
            Ok(c)
        } else {
            Err(CodecError::UnrecognizedCode { code: c })
        }
    }

    /// `vbp`: 7 bits at offset 0 of byte 1; a stored value under the documented minimum of 2 is a recoverable decode error.
    pub fn vbp(&self) -> (r: Result<u8, CodecError>)
        ensures
            r == spec_decode_floor(field_get(self.d.data@[1], 0, 7), 2),
    {
        let c = extract_field(self.d.data[1], 0, 7);
        if c >= 2 {
            Ok(c)
        } else {
            Err(CodecError::UnrecognizedCode { code: c })
        }
    }

    /// `hfp`: 5 bits at offset 0 of byte 2; a stored value under the documented minimum of 2 is a recoverable decode error.
    pub fn hfp(&self) -> (r: Result<u8, CodecError>)
        ensures
            r == spec_decode_floor(field_get(self.d.data@[2], 0, 5), 2),
    {
        let c = extract_field(self.d.data[2], 0, 5);
        if c >= 2 {
            Ok(c)
        } else {
            Err(CodecError::UnrecognizedCode { code: c })
        }
    }

    /// `hbp`: 5 bits at offset 0 of byte 3; a stored value under the documented minimum of 2 is a recoverable decode error.
    pub fn hbp(&self) -> (r: Result<u8, CodecError>)
        ensures
            r == spec_decode_floor(field_get(self.d.data@[3], 0, 5), 2),
    {
        let c = extract_field(self.d.data[3], 0, 5);
        if c >= 2 {
            Ok(c)
        } else {
            Err(CodecError::UnrecognizedCode { code: c })
        }
    }
}

/// Write view of [`BlankingPorchControl`].
#[derive(Copy, Clone)]
pub struct BlankingPorchControlWrite {
    pub d: BlankingPorchControl,
}

impl BlankingPorchControlWrite {
    /// `vfp`: written into 7 bits at offset 0 of byte 0; all other bits are kept. The value must be at least the documented minimum of 2.
    pub fn vfp(self, w: u8) -> (r: Self)
        requires
            2 <= w,
        ensures
            r.d.data@ == self.d.data@.update(
                0,
                field_set(self.d.data@[0], 0, 7, w),
            ),
    {
        let mut d = self.d;
        d.data[0] = insert_field(d.data[0], 0, 7, w);
        BlankingPorchControlWrite { d }
    }

    /// `vbp`: written into 7 bits at offset 0 of byte 1; all other bits are kept. The value must be at least the documented minimum of 2.
    pub fn vbp(self, w: u8) -> (r: Self)
        requires
            2 <= w,
        ensures
            r.d.data@ == self.d.data@.update(
                1,
                field_set(self.d.data@[1], 0, 7, w),
            ),
    {
        let mut d = self.d;
        d.data[1] = insert_field(d.data[1], 0, 7, w);
        BlankingPorchControlWrite { d }
    }

    /// `hfp`: written into 5 bits at offset 0 of byte 2; all other bits are kept. The value must be at least the documented minimum of 2.
    pub fn hfp(self, w: u8) -> (r: Self)
        requires
            2 <= w,
        ensures
            r.d.data@ == self.d.data@.update(
                2,
                field_set(self.d.data@[2], 0, 5, w),
            ),
    {
        let mut d = self.d;
        d.data[2] = insert_field(d.data[2], 0, 5, w);
        BlankingPorchControlWrite { d }
    }

    /// `hbp`: written into 5 bits at offset 0 of byte 3; all other bits are kept. The value must be at least the documented minimum of 2.
    pub fn hbp(self, w: u8) -> (r: Self)
        requires
            2 <= w,
        ensures
            r.d.data@ == self.d.data@.update(
                3,
                field_set(self.d.data@[3], 0, 5, w),
            ),
    {
        let mut d = self.d;
        d.data[3] = insert_field(d.data[3], 0, 5, w);
        BlankingPorchControlWrite { d }
    }
}

} // verus!
