//! Parameter block of the `write-cabc-minimum-brightness` command: the minimum display
//! brightness the content-adaptive control may fall to.

use vstd::prelude::*;


verus! {

/// The single-byte parameter block of the `write-cabc-minimum-brightness` command.
#[derive(Copy, Clone, Debug)]
pub struct CabcMinimumBrightness {
    pub data: [u8; 1],
}

impl CabcMinimumBrightness {
    /// The chip's post-reset value of this block.
    pub open spec fn spec_default() -> Seq<u8> {
        seq![0x00u8]
    }

    /// Borrow-free read view over a snapshot of the block.
    pub fn read(&self) -> (r: CabcMinimumBrightnessRead)
        ensures
            r.d.data@ == self.data@,
    {
        CabcMinimumBrightnessRead { d: *self }
    }

    /// Apply a builder transformation to this block and return the result.
    pub fn write<F: FnOnce(CabcMinimumBrightnessWrite) -> CabcMinimumBrightnessWrite>(self, f: F) -> (r: Self)
        requires
            call_requires(f, ((CabcMinimumBrightnessWrite { d: self }),)),
        ensures
            call_ensures(f, ((CabcMinimumBrightnessWrite { d: self }),), (CabcMinimumBrightnessWrite { d: r })),
    {
        let w = f(CabcMinimumBrightnessWrite { d: self });
        proof {
            assert((CabcMinimumBrightnessWrite { d: w.d }) == w);
        }
        w.d
    }
}

impl Default for CabcMinimumBrightness {
    /// The block with the chip's documented post-reset byte pattern.
    fn default() -> (r: Self)
        ensures
            r.data@ == CabcMinimumBrightness::spec_default(),
    {
        let r = CabcMinimumBrightness { data: [0x00] };
        proof {
            assert(r.data@ =~= CabcMinimumBrightness::spec_default());
        }
        r
    }
}

/// Read view of [`CabcMinimumBrightness`].
#[derive(Copy, Clone)]
pub struct CabcMinimumBrightnessRead {
    pub d: CabcMinimumBrightness,
}

impl CabcMinimumBrightnessRead {
    /// `cabc_minimum_brightness`: the whole of byte 0.
    pub fn cabc_minimum_brightness(&self) -> (r: u8)
        ensures
            r == self.d.data@[0],
    {
        self.d.data[0]
    }
}

/// Write view of [`CabcMinimumBrightness`].
#[derive(Copy, Clone)]
pub struct CabcMinimumBrightnessWrite {
    pub d: CabcMinimumBrightness,
}

impl CabcMinimumBrightnessWrite {
    /// `cabc_minimum_brightness`: written into byte 0; all other bits are kept.
    pub fn cabc_minimum_brightness(self, w: u8) -> (r: Self)
        ensures
            r.d.data@ == self.d.data@.update(0, w),
    {
        let mut d = self.d;
        d.data[0] = w;
        CabcMinimumBrightnessWrite { d }
    }
}

} // verus!
