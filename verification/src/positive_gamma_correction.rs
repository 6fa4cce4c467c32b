//! Parameter block of the `positive-gamma-correction` command: the positive gamma
//! correction levels.

use vstd::prelude::*;

use crate::bits::extract_field;
use crate::bits::field_get;
use crate::bits::field_set;
use crate::bits::insert_field;

verus! {

/// The 15-byte parameter block of the `positive-gamma-correction` command.
#[derive(Copy, Clone, Debug)]
pub struct PositiveGammaCorrection {
    pub data: [u8; 15],
}

impl PositiveGammaCorrection {
    /// The chip's post-reset value of this block.
    pub open spec fn spec_default() -> Seq<u8> {
        seq![0x08u8, 0x00u8, 0x00u8, 0x05u8, 0x00u8, 0x09u8, 0x00u8, 0x00u8, 0x00u8, 0x0Bu8, 0x00u8, 0x00u8, 0x00u8, 0x00u8, 0x00u8]
    }

    /// Borrow-free read view over a snapshot of the block.
    pub fn read(&self) -> (r: PositiveGammaCorrectionRead)
        ensures
            r.d.data@ == self.data@,
    {
        PositiveGammaCorrectionRead { d: *self }
    }

    /// Apply a builder transformation to this block and return the result.
    pub fn write<F: FnOnce(PositiveGammaCorrectionWrite) -> PositiveGammaCorrectionWrite>(self, f: F) -> (r: Self)
        requires
            call_requires(f, ((PositiveGammaCorrectionWrite { d: self }),)),
        ensures
            call_ensures(f, ((PositiveGammaCorrectionWrite { d: self }),), (PositiveGammaCorrectionWrite { d: r })),
    {
        let w = f(PositiveGammaCorrectionWrite { d: self });
        proof {
            assert((PositiveGammaCorrectionWrite { d: w.d }) == w);
        }
        w.d
    }
}

impl Default for PositiveGammaCorrection {
    /// The block with the chip's documented post-reset byte pattern.
    fn default() -> (r: Self)
        ensures
            r.data@ == PositiveGammaCorrection::spec_default(),
    {
        let r = PositiveGammaCorrection { data: [0x08, 0x00, 0x00, 0x05, 0x00, 0x09, 0x00, 0x00, 0x00, 0x0B, 0x00, 0x00, 0x00, 0x00, 0x00] };
        proof {
            assert(r.data@ =~= PositiveGammaCorrection::spec_default());
        }
        r
    }
}

/// Read view of [`PositiveGammaCorrection`].
#[derive(Copy, Clone)]
pub struct PositiveGammaCorrectionRead {
    pub d: PositiveGammaCorrection,
}

impl PositiveGammaCorrectionRead {
    /// `vp63`: 4 bits at offset 0 of byte 0.
    pub fn vp63(&self) -> (r: u8)
        ensures
            r == field_get(self.d.data@[0], 0, 4),
    {
        extract_field(self.d.data[0], 0, 4)
    }

    /// `vp62`: 6 bits at offset 0 of byte 1.
    pub fn vp62(&self) -> (r: u8)
        ensures
            r == field_get(self.d.data@[1], 0, 6),
    {
        extract_field(self.d.data[1], 0, 6)
    }

    /// `vp61`: 6 bits at offset 0 of byte 2.
    pub fn vp61(&self) -> (r: u8)
        ensures
            r == field_get(self.d.data@[2], 0, 6),
    {
        extract_field(self.d.data[2], 0, 6)
    }

    /// `vp59`: 4 bits at offset 0 of byte 3.
    pub fn vp59(&self) -> (r: u8)
        ensures
            r == field_get(self.d.data@[3], 0, 4),
    {
        extract_field(self.d.data[3], 0, 4)
    }

    /// `vp57`: 5 bits at offset 0 of byte 4.
    pub fn vp57(&self) -> (r: u8)
        ensures
            r == field_get(self.d.data@[4], 0, 5),
    {
        extract_field(self.d.data[4], 0, 5)
    }

    /// `vp50`: 4 bits at offset 0 of byte 5.
    pub fn vp50(&self) -> (r: u8)
        ensures
            r == field_get(self.d.data@[5], 0, 4),
    {
        extract_field(self.d.data[5], 0, 4)
    }

    /// `vp43`: 7 bits at offset 0 of byte 6.
    pub fn vp43(&self) -> (r: u8)
        ensures
            r == field_get(self.d.data@[6], 0, 7),
    {
        extract_field(self.d.data[6], 0, 7)
    }

    /// `vp27`: 4 bits at offset 4 of byte 7.
    pub fn vp27(&self) -> (r: u8)
        ensures
            r == field_get(self.d.data@[7], 4, 4),
    {
        extract_field(self.d.data[7], 4, 4)
    }

    /// `vp36`: 4 bits at offset 0 of byte 7.
    pub fn vp36(&self) -> (r: u8)
        ensures
            r == field_get(self.d.data@[7], 0, 4),
    {
        extract_field(self.d.data[7], 0, 4)
    }

    /// `vp20`: 7 bits at offset 0 of byte 8.
    pub fn vp20(&self) -> (r: u8)
        ensures
            r == field_get(self.d.data@[8], 0, 7),
    {
        extract_field(self.d.data[8], 0, 7)
    }

    /// `vp13`: 4 bits at offset 0 of byte 9.
    pub fn vp13(&self) -> (r: u8)
        ensures
            r == field_get(self.d.data@[9], 0, 4),
    {
        extract_field(self.d.data[9], 0, 4)
    }

    /// `vp6`: 5 bits at offset 0 of byte 10.
    pub fn vp6(&self) -> (r: u8)
        ensures
            r == field_get(self.d.data@[10], 0, 5),
    {
        extract_field(self.d.data[10], 0, 5)
    }

    /// `vp4`: 4 bits at offset 0 of byte 11.
    pub fn vp4(&self) -> (r: u8)
        ensures
            r == field_get(self.d.data@[11], 0, 4),
    {
        extract_field(self.d.data[11], 0, 4)
    }

    /// `vp2`: 6 bits at offset 0 of byte 12.
    pub fn vp2(&self) -> (r: u8)
        ensures
            r == field_get(self.d.data@[12], 0, 6),
    {
        extract_field(self.d.data[12], 0, 6)
    }

    /// `vp1`: 6 bits at offset 0 of byte 13.
    pub fn vp1(&self) -> (r: u8)
        ensures
            r == field_get(self.d.data@[13], 0, 6),
    {
        extract_field(self.d.data[13], 0, 6)
    }

    /// `vp0`: 4 bits at offset 0 of byte 14.
    pub fn vp0(&self) -> (r: u8)
        ensures
            r == field_get(self.d.data@[14], 0, 4),
    {
        extract_field(self.d.data[14], 0, 4)
    }
}

/// Write view of [`PositiveGammaCorrection`].
#[derive(Copy, Clone)]
pub struct PositiveGammaCorrectionWrite {
    pub d: PositiveGammaCorrection,
}

impl PositiveGammaCorrectionWrite {
    /// `vp63`: written into 4 bits at offset 0 of byte 0; all other bits are kept.
    pub fn vp63(self, w: u8) -> (r: Self)
        ensures
            r.d.data@ == self.d.data@.update(
                0,
                field_set(self.d.data@[0], 0, 4, w),
            ),
    {
        let mut d = self.d;
        d.data[0] = insert_field(d.data[0], 0, 4, w);
        PositiveGammaCorrectionWrite { d }
    }

    /// `vp62`: written into 6 bits at offset 0 of byte 1; all other bits are kept.
    pub fn vp62(self, w: u8) -> (r: Self)
        ensures
            r.d.data@ == self.d.data@.update(
                1,
                field_set(self.d.data@[1], 0, 6, w),
            ),
    {
        let mut d = self.d;
        d.data[1] = insert_field(d.data[1], 0, 6, w);
        PositiveGammaCorrectionWrite { d }
    }

    /// `vp61`: written into 6 bits at offset 0 of byte 2; all other bits are kept.
    pub fn vp61(self, w: u8) -> (r: Self)
        ensures
            r.d.data@ == self.d.data@.update(
                2,
                field_set(self.d.data@[2], 0, 6, w),
            ),
    {
        let mut d = self.d;
        d.data[2] = insert_field(d.data[2], 0, 6, w);
        PositiveGammaCorrectionWrite { d }
    }

    /// `vp59`: written into 4 bits at offset 0 of byte 3; all other bits are kept.
    pub fn vp59(self, w: u8) -> (r: Self)
        ensures
            r.d.data@ == self.d.data@.update(
                3,
                field_set(self.d.data@[3], 0, 4, w),
            ),
    {
        let mut d = self.d;
        d.data[3] = insert_field(d.data[3], 0, 4, w);
        PositiveGammaCorrectionWrite { d }
    }

    /// `vp57`: written into 5 bits at offset 0 of byte 4; all other bits are kept.
    pub fn vp57(self, w: u8) -> (r: Self)
        ensures
            r.d.data@ == self.d.data@.update(
                4,
                field_set(self.d.data@[4], 0, 5, w),
            ),
    {
        let mut d = self.d;
        d.data[4] = insert_field(d.data[4], 0, 5, w);
        PositiveGammaCorrectionWrite { d }
    }

    /// `vp50`: written into 4 bits at offset 0 of byte 5; all other bits are kept.
    pub fn vp50(self, w: u8) -> (r: Self)
        ensures
            r.d.data@ == self.d.data@.update(
                5,
                field_set(self.d.data@[5], 0, 4, w),
            ),
    {
        let mut d = self.d;
        d.data[5] = insert_field(d.data[5], 0, 4, w);
        PositiveGammaCorrectionWrite { d }
    }

    /// `vp43`: written into 7 bits at offset 0 of byte 6; all other bits are kept.
    pub fn vp43(self, w: u8) -> (r: Self)
        ensures
            r.d.data@ == self.d.data@.update(
                6,
                field_set(self.d.data@[6], 0, 7, w),
            ),
    {
        let mut d = self.d;
        d.data[6] = insert_field(d.data[6], 0, 7, w);
        PositiveGammaCorrectionWrite { d }
    }

    /// `vp27`: written into 4 bits at offset 4 of byte 7; all other bits are kept.
    pub fn vp27(self, w: u8) -> (r: Self)
        ensures
            r.d.data@ == self.d.data@.update(
                7,
                field_set(self.d.data@[7], 4, 4, w),
            ),
    {
        let mut d = self.d;
        d.data[7] = insert_field(d.data[7], 4, 4, w);
        PositiveGammaCorrectionWrite { d }
    }

    /// `vp36`: written into 4 bits at offset 0 of byte 7; all other bits are kept.
    pub fn vp36(self, w: u8) -> (r: Self)
        ensures
            r.d.data@ == self.d.data@.update(
                7,
                field_set(self.d.data@[7], 0, 4, w),
            ),
    {
        let mut d = self.d;
        d.data[7] = insert_field(d.data[7], 0, 4, w);
        PositiveGammaCorrectionWrite { d }
    }

    /// `vp20`: written into 7 bits at offset 0 of byte 8; all other bits are kept.
    pub fn vp20(self, w: u8) -> (r: Self)
        ensures
            r.d.data@ == self.d.data@.update(
                8,
                field_set(self.d.data@[8], 0, 7, w),
            ),
    {
        let mut d = self.d;
        d.data[8] = insert_field(d.data[8], 0, 7, w);
        PositiveGammaCorrectionWrite { d }
    }

    /// `vp13`: written into 4 bits at offset 0 of byte 9; all other bits are kept.
    pub fn vp13(self, w: u8) -> (r: Self)
        ensures
            r.d.data@ == self.d.data@.update(
                9,
                field_set(self.d.data@[9], 0, 4, w),
            ),
    {
        let mut d = self.d;
        d.data[9] = insert_field(d.data[9], 0, 4, w);
        PositiveGammaCorrectionWrite { d }
    }

    /// `vp6`: written into 5 bits at offset 0 of byte 10; all other bits are kept.
    pub fn vp6(self, w: u8) -> (r: Self)
        ensures
            r.d.data@ == self.d.data@.update(
                10,
                field_set(self.d.data@[10], 0, 5, w),
            ),
    {
        let mut d = self.d;
        d.data[10] = insert_field(d.data[10], 0, 5, w);
        PositiveGammaCorrectionWrite { d }
    }

    /// `vp4`: written into 4 bits at offset 0 of byte 11; all other bits are kept.
    pub fn vp4(self, w: u8) -> (r: Self)
        ensures
            r.d.data@ == self.d.data@.update(
                11,
                field_set(self.d.data@[11], 0, 4, w),
            ),
    {
        let mut d = self.d;
        d.data[11] = insert_field(d.data[11], 0, 4, w);
        PositiveGammaCorrectionWrite { d }
    }

    /// `vp2`: written into 6 bits at offset 0 of byte 12; all other bits are kept.
    pub fn vp2(self, w: u8) -> (r: Self)
        ensures
            r.d.data@ == self.d.data@.update(
                12,
                field_set(self.d.data@[12], 0, 6, w),
            ),
    {
        let mut d = self.d;
        d.data[12] = insert_field(d.data[12], 0, 6, w);
        PositiveGammaCorrectionWrite { d }
    }

    /// `vp1`: written into 6 bits at offset 0 of byte 13; all other bits are kept.
    pub fn vp1(self, w: u8) -> (r: Self)
        ensures
            r.d.data@ == self.d.data@.update(
                13,
                field_set(self.d.data@[13], 0, 6, w),
            ),
    {
        let mut d = self.d;
        d.data[13] = insert_field(d.data[13], 0, 6, w);
        PositiveGammaCorrectionWrite { d }
    }

    /// `vp0`: written into 4 bits at offset 0 of byte 14; all other bits are kept.
    pub fn vp0(self, w: u8) -> (r: Self)
        ensures
            r.d.data@ == self.d.data@.update(
                14,
                field_set(self.d.data@[14], 0, 4, w),
            ),
    {
        let mut d = self.d;
        d.data[14] = insert_field(d.data[14], 0, 4, w);
        PositiveGammaCorrectionWrite { d }
    }
}

} // verus!
