//! Parameter block of the `negative-gamma-correction` command: the negative gamma
//! correction levels.

use vstd::prelude::*;

use crate::bits::extract_field;
use crate::bits::field_get;
use crate::bits::field_set;
use crate::bits::insert_field;

verus! {

/// The 15-byte parameter block of the `negative-gamma-correction` command.
#[derive(Copy, Clone, Debug)]
pub struct NegativeGammaCorrection {
    pub data: [u8; 15],
}

impl NegativeGammaCorrection {
    /// The chip's post-reset value of this block.
    pub open spec fn spec_default() -> Seq<u8> {
        seq![0x08u8, 0x00u8, 0x00u8, 0x07u8, 0x00u8, 0x05u8, 0x00u8, 0x00u8, 0x00u8, 0x04u8, 0x00u8, 0x0Fu8, 0x00u8, 0x00u8, 0x0Fu8]
    }

    /// Borrow-free read view over a snapshot of the block.
    pub fn read(&self) -> (r: NegativeGammaCorrectionRead)
        ensures
            r.d.data@ == self.data@,
    {
        NegativeGammaCorrectionRead { d: *self }
    }

    /// Apply a builder transformation to this block and return the result.
    pub fn write<F: FnOnce(NegativeGammaCorrectionWrite) -> NegativeGammaCorrectionWrite>(self, f: F) -> (r: Self)
        requires
            call_requires(f, ((NegativeGammaCorrectionWrite { d: self }),)),
        ensures
            call_ensures(f, ((NegativeGammaCorrectionWrite { d: self }),), (NegativeGammaCorrectionWrite { d: r })),
    {
        let w = f(NegativeGammaCorrectionWrite { d: self });
        proof {
            assert((NegativeGammaCorrectionWrite { d: w.d }) == w);
        }
        w.d
    }
}

impl Default for NegativeGammaCorrection {
    /// The block with the chip's documented post-reset byte pattern.
    fn default() -> (r: Self)
        ensures
            r.data@ == NegativeGammaCorrection::spec_default(),
    {
        let r = NegativeGammaCorrection { data: [0x08, 0x00, 0x00, 0x07, 0x00, 0x05, 0x00, 0x00, 0x00, 0x04, 0x00, 0x0F, 0x00, 0x00, 0x0F] };
        proof {
            assert(r.data@ =~= NegativeGammaCorrection::spec_default());
        }
        r
    }
}

/// Read view of [`NegativeGammaCorrection`].
#[derive(Copy, Clone)]
pub struct NegativeGammaCorrectionRead {
    pub d: NegativeGammaCorrection,
}

impl NegativeGammaCorrectionRead {
    /// `vn63`: 4 bits at offset 0 of byte 0.
    pub fn vn63(&self) -> (r: u8)
        ensures
            r == field_get(self.d.data@[0], 0, 4),
    {
        extract_field(self.d.data[0], 0, 4)
    }

    /// `vn62`: 6 bits at offset 0 of byte 1.
    pub fn vn62(&self) -> (r: u8)
        ensures
            r == field_get(self.d.data@[1], 0, 6),
    {
        extract_field(self.d.data[1], 0, 6)
    }

    /// `vn61`: 6 bits at offset 0 of byte 2.
    pub fn vn61(&self) -> (r: u8)
        ensures
            r == field_get(self.d.data@[2], 0, 6),
    {
        extract_field(self.d.data[2], 0, 6)
    }

    /// `vn59`: 4 bits at offset 0 of byte 3.
    pub fn vn59(&self) -> (r: u8)
        ensures
            r == field_get(self.d.data@[3], 0, 4),
    {
        extract_field(self.d.data[3], 0, 4)
    }

    /// `vn57`: 5 bits at offset 0 of byte 4.
    pub fn vn57(&self) -> (r: u8)
        ensures
            r == field_get(self.d.data@[4], 0, 5),
    {
        extract_field(self.d.data[4], 0, 5)
    }

    /// `vn50`: 4 bits at offset 0 of byte 5.
    pub fn vn50(&self) -> (r: u8)
        ensures
            r == field_get(self.d.data@[5], 0, 4),
    {
        extract_field(self.d.data[5], 0, 4)
    }

    /// `vn43`: 7 bits at offset 0 of byte 6.
    pub fn vn43(&self) -> (r: u8)
        ensures
            r == field_get(self.d.data@[6], 0, 7),
    {
        extract_field(self.d.data[6], 0, 7)
    }

    /// `vn36`: 4 bits at offset 4 of byte 7.
    pub fn vn36(&self) -> (r: u8)
        ensures
            r == field_get(self.d.data@[7], 4, 4),
    {
        extract_field(self.d.data[7], 4, 4)
    }

    /// `vn27`: 4 bits at offset 0 of byte 7.
    pub fn vn27(&self) -> (r: u8)
        ensures
            r == field_get(self.d.data@[7], 0, 4),
    {
        extract_field(self.d.data[7], 0, 4)
    }

    /// `vn20`: 7 bits at offset 0 of byte 8.
    pub fn vn20(&self) -> (r: u8)
        ensures
            r == field_get(self.d.data@[8], 0, 7),
    {
        extract_field(self.d.data[8], 0, 7)
    }

    /// `vn13`: 4 bits at offset 0 of byte 9.
    pub fn vn13(&self) -> (r: u8)
        ensures
            r == field_get(self.d.data@[9], 0, 4),
    {
        extract_field(self.d.data[9], 0, 4)
    }

    /// `vn6`: 5 bits at offset 0 of byte 10.
    pub fn vn6(&self) -> (r: u8)
        ensures
            r == field_get(self.d.data@[10], 0, 5),
    {
        extract_field(self.d.data[10], 0, 5)
    }

    /// `vn4`: 4 bits at offset 0 of byte 11.
    pub fn vn4(&self) -> (r: u8)
        ensures
            r == field_get(self.d.data@[11], 0, 4),
    {
        extract_field(self.d.data[11], 0, 4)
    }

    /// `vn2`: 6 bits at offset 0 of byte 12.
    pub fn vn2(&self) -> (r: u8)
        ensures
            r == field_get(self.d.data@[12], 0, 6),
    {
        extract_field(self.d.data[12], 0, 6)
    }

    /// `vn1`: 6 bits at offset 0 of byte 13.
    pub fn vn1(&self) -> (r: u8)
        ensures
            r == field_get(self.d.data@[13], 0, 6),
    {
        extract_field(self.d.data[13], 0, 6)
    }

    /// `vn0`: 4 bits at offset 0 of byte 14.
    pub fn vn0(&self) -> (r: u8)
        ensures
            r == field_get(self.d.data@[14], 0, 4),
    {
        extract_field(self.d.data[14], 0, 4)
    }
}

/// Write view of [`NegativeGammaCorrection`].
#[derive(Copy, Clone)]
pub struct NegativeGammaCorrectionWrite {
    pub d: NegativeGammaCorrection,
}

impl NegativeGammaCorrectionWrite {
    /// `vn63`: written into 4 bits at offset 0 of byte 0; all other bits are kept.
    pub fn vn63(self, w: u8) -> (r: Self)
        ensures
            r.d.data@ == self.d.data@.update(
                0,
                field_set(self.d.data@[0], 0, 4, w),
            ),
    {
        let mut d = self.d;
        d.data[0] = insert_field(d.data[0], 0, 4, w);
        NegativeGammaCorrectionWrite { d }
    }

    /// `vn62`: written into 6 bits at offset 0 of byte 1; all other bits are kept.
    pub fn vn62(self, w: u8) -> (r: Self)
        ensures
            r.d.data@ == self.d.data@.update(
                1,
                field_set(self.d.data@[1], 0, 6, w),
            ),
    {
        let mut d = self.d;
        d.data[1] = insert_field(d.data[1], 0, 6, w);
        NegativeGammaCorrectionWrite { d }
    }

    /// `vn61`: written into 6 bits at offset 0 of byte 2; all other bits are kept.
    pub fn vn61(self, w: u8) -> (r: Self)
        ensures
            r.d.data@ == self.d.data@.update(
                2,
                field_set(self.d.data@[2], 0, 6, w),
            ),
    {
        let mut d = self.d;
        d.data[2] = insert_field(d.data[2], 0, 6, w);
        NegativeGammaCorrectionWrite { d }
    }

    /// `vn59`: written into 4 bits at offset 0 of byte 3; all other bits are kept.
    pub fn vn59(self, w: u8) -> (r: Self)
        ensures
            r.d.data@ == self.d.data@.update(
                3,
                field_set(self.d.data@[3], 0, 4, w),
            ),
    {
        let mut d = self.d;
        d.data[3] = insert_field(d.data[3], 0, 4, w);
        NegativeGammaCorrectionWrite { d }
    }

    /// `vn57`: written into 5 bits at offset 0 of byte 4; all other bits are kept.
    pub fn vn57(self, w: u8) -> (r: Self)
        ensures
            r.d.data@ == self.d.data@.update(
                4,
                field_set(self.d.data@[4], 0, 5, w),
            ),
    {
        let mut d = self.d;
        d.data[4] = insert_field(d.data[4], 0, 5, w);
        NegativeGammaCorrectionWrite { d }
    }

    /// `vn50`: written into 4 bits at offset 0 of byte 5; all other bits are kept.
    pub fn vn50(self, w: u8) -> (r: Self)
        ensures
            r.d.data@ == self.d.data@.update(
                5,
                field_set(self.d.data@[5], 0, 4, w),
            ),
    {
        let mut d = self.d;
        d.data[5] = insert_field(d.data[5], 0, 4, w);
        NegativeGammaCorrectionWrite { d }
    }

    /// `vn43`: written into 7 bits at offset 0 of byte 6; all other bits are kept.
    pub fn vn43(self, w: u8) -> (r: Self)
        ensures
            r.d.data@ == self.d.data@.update(
                6,
                field_set(self.d.data@[6], 0, 7, w),
            ),
    {
        let mut d = self.d;
        d.data[6] = insert_field(d.data[6], 0, 7, w);
        NegativeGammaCorrectionWrite { d }
    }

    /// `vn36`: written into 4 bits at offset 4 of byte 7; all other bits are kept.
    pub fn vn36(self, w: u8) -> (r: Self)
        ensures
            r.d.data@ == self.d.data@.update(
                7,
                field_set(self.d.data@[7], 4, 4, w),
            ),
    {
        let mut d = self.d;
        d.data[7] = insert_field(d.data[7], 4, 4, w);
        NegativeGammaCorrectionWrite { d }
    }

    /// `vn27`: written into 4 bits at offset 0 of byte 7; all other bits are kept.
    pub fn vn27(self, w: u8) -> (r: Self)
        ensures
            r.d.data@ == self.d.data@.update(
                7,
                field_set(self.d.data@[7], 0, 4, w),
            ),
    {
        let mut d = self.d;
        d.data[7] = insert_field(d.data[7], 0, 4, w);
        NegativeGammaCorrectionWrite { d }
    }

    /// `vn20`: written into 7 bits at offset 0 of byte 8; all other bits are kept.
    pub fn vn20(self, w: u8) -> (r: Self)
        ensures
            r.d.data@ == self.d.data@.update(
                8,
                field_set(self.d.data@[8], 0, 7, w),
            ),
    {
        let mut d = self.d;
        d.data[8] = insert_field(d.data[8], 0, 7, w);
        NegativeGammaCorrectionWrite { d }
    }

    /// `vn13`: written into 4 bits at offset 0 of byte 9; all other bits are kept.
    pub fn vn13(self, w: u8) -> (r: Self)
        ensures
            r.d.data@ == self.d.data@.update(
                9,
                field_set(self.d.data@[9], 0, 4, w),
            ),
    {
        let mut d = self.d;
        d.data[9] = insert_field(d.data[9], 0, 4, w);
        NegativeGammaCorrectionWrite { d }
    }

    /// `vn6`: written into 5 bits at offset 0 of byte 10; all other bits are kept.
    pub fn vn6(self, w: u8) -> (r: Self)
        ensures
            r.d.data@ == self.d.data@.update(
                10,
                field_set(self.d.data@[10], 0, 5, w),
            ),
    {
        let mut d = self.d;
        d.data[10] = insert_field(d.data[10], 0, 5, w);
        NegativeGammaCorrectionWrite { d }
    }

    /// `vn4`: written into 4 bits at offset 0 of byte 11; all other bits are kept.
    pub fn vn4(self, w: u8) -> (r: Self)
        ensures
            r.d.data@ == self.d.data@.update(
                11,
                field_set(self.d.data@[11], 0, 4, w),
            ),
    {
        let mut d = self.d;
        d.data[11] = insert_field(d.data[11], 0, 4, w);
        NegativeGammaCorrectionWrite { d }
    }

    /// `vn2`: written into 6 bits at offset 0 of byte 12; all other bits are kept.
    pub fn vn2(self, w: u8) -> (r: Self)
        ensures
            r.d.data@ == self.d.data@.update(
                12,
                field_set(self.d.data@[12], 0, 6, w),
            ),
    {
        let mut d = self.d;
        d.data[12] = insert_field(d.data[12], 0, 6, w);
        NegativeGammaCorrectionWrite { d }
    }

    /// `vn1`: written into 6 bits at offset 0 of byte 13; all other bits are kept.
    pub fn vn1(self, w: u8) -> (r: Self)
        ensures
            r.d.data@ == self.d.data@.update(
                13,
                field_set(self.d.data@[13], 0, 6, w),
            ),
    {
        let mut d = self.d;
        d.data[13] = insert_field(d.data[13], 0, 6, w);
        NegativeGammaCorrectionWrite { d }
    }

    /// `vn0`: written into 4 bits at offset 0 of byte 14; all other bits are kept.
    pub fn vn0(self, w: u8) -> (r: Self)
        ensures
            r.d.data@ == self.d.data@.update(
                14,
                field_set(self.d.data@[14], 0, 4, w),
            ),
    {
        let mut d = self.d;
        d.data[14] = insert_field(d.data[14], 0, 4, w);
        NegativeGammaCorrectionWrite { d }
    }
}

} // verus!
