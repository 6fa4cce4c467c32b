//! Parameter block of the `read-display-brightness` command: the display
//! brightness value in use.

use vstd::prelude::*;


verus! {

/// The single-byte parameter block of the `read-display-brightness` command.
#[derive(Copy, Clone, Debug)]
pub struct DisplayBrightness {
    pub data: [u8; 1],
}

impl DisplayBrightness {
    /// The chip's post-reset value of this block.
    pub open spec fn spec_default() -> Seq<u8> {
        seq![0x00u8]
    }

    /// Borrow-free read view over a snapshot of the block.
    pub fn read(&self) -> (r: DisplayBrightnessRead)
        ensures
            r.d.data@ == self.data@,
    {
        DisplayBrightnessRead { d: *self }
    }

    /// Apply a builder transformation to this block and return the result.
    pub fn write<F: FnOnce(DisplayBrightnessWrite) -> DisplayBrightnessWrite>(self, f: F) -> (r: Self)
        requires
            call_requires(f, ((DisplayBrightnessWrite { d: self }),)),
        ensures
            call_ensures(f, ((DisplayBrightnessWrite { d: self }),), (DisplayBrightnessWrite { d: r })),
    {
        let w = f(DisplayBrightnessWrite { d: self });
        proof {
            assert((DisplayBrightnessWrite { d: w.d }) == w);
        }
        w.d
    }
}

impl Default for DisplayBrightness {
    /// The block with the chip's documented post-reset byte pattern.
    fn default() -> (r: Self)
        ensures
            r.data@ == DisplayBrightness::spec_default(),
    {
        let r = DisplayBrightness { data: [0x00] };
        proof {
            assert(r.data@ =~= DisplayBrightness::spec_default());
        }
        r
    }
}

/// Read view of [`DisplayBrightness`].
#[derive(Copy, Clone)]
pub struct DisplayBrightnessRead {
    pub d: DisplayBrightness,
}

impl DisplayBrightnessRead {
    /// `dbv`: the whole of byte 0.
    pub fn dbv(&self) -> (r: u8)
        ensures
            r == self.d.data@[0],
    {
        self.d.data[0]
    }
}

/// Write view of [`DisplayBrightness`].
#[derive(Copy, Clone)]
pub struct DisplayBrightnessWrite {
    pub d: DisplayBrightness,
}

impl DisplayBrightnessWrite {
    /// `dbv`: written into byte 0; all other bits are kept.
    pub fn dbv(self, w: u8) -> (r: Self)
        ensures
            r.d.data@ == self.d.data@.update(0, w),
    {
        let mut d = self.d;
        d.data[0] = w;
        DisplayBrightnessWrite { d }
    }
}

} // verus!
