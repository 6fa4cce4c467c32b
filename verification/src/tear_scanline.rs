//! Parameter block of the `tear-scanline` command: the scanline that raises the
//! tearing-effect output, a 9-bit counter split over two bytes.

use vstd::prelude::*;

use crate::bits::extract_field;
use crate::bits::field_get;
use crate::bits::field_set;
use crate::bits::insert_field;

verus! {

/// The 2-byte parameter block of the `tear-scanline` command.
#[derive(Copy, Clone, Debug)]
pub struct SetTearScanline {
    pub data: [u8; 2],
}

impl SetTearScanline {
    /// The chip's post-reset value of this block.
    pub open spec fn spec_default() -> Seq<u8> {
        seq![0x00u8, 0x00u8]
    }

    /// Borrow-free read view over a snapshot of the block.
    pub fn read(&self) -> (r: SetTearScanlineRead)
        ensures
            r.d.data@ == self.data@,
    {
        SetTearScanlineRead { d: *self }
    }

    /// Apply a builder transformation to this block and return the result.
    pub fn write<F: FnOnce(SetTearScanlineWrite) -> SetTearScanlineWrite>(self, f: F) -> (r: Self)
        requires
            call_requires(f, ((SetTearScanlineWrite { d: self }),)),
        ensures
            call_ensures(f, ((SetTearScanlineWrite { d: self }),), (SetTearScanlineWrite { d: r })),
    {
        let w = f(SetTearScanlineWrite { d: self });
        proof {
            assert((SetTearScanlineWrite { d: w.d }) == w);
        }
        w.d
    }
}

impl Default for SetTearScanline {
    /// The block with the chip's documented post-reset byte pattern.
    fn default() -> (r: Self)
        ensures
            r.data@ == SetTearScanline::spec_default(),
    {
        let r = SetTearScanline { data: [0x00, 0x00] };
        proof {
            assert(r.data@ =~= SetTearScanline::spec_default());
        }
        r
    }
}

/// Read view of [`SetTearScanline`].
#[derive(Copy, Clone)]
pub struct SetTearScanlineRead {
    pub d: SetTearScanline,
}

impl SetTearScanlineRead {
    /// `sts`: a 9-bit counter, its top bits in byte 0 and its low byte in byte 1.
    pub fn sts(&self) -> (r: u16)
        ensures
            r == (((field_get(self.d.data@[0], 0, 1) as u16) << 8) | (self.d.data@[1] as u16)),
    {
        ((extract_field(self.d.data[0], 0, 1) as u16) << 8) | (self.d.data[1] as u16)
    }
}

/// Write view of [`SetTearScanline`].
#[derive(Copy, Clone)]
pub struct SetTearScanlineWrite {
    pub d: SetTearScanline,
}

impl SetTearScanlineWrite {
    /// `sts`: written into 1 bit at offset 0 of byte 0 and byte 1; all other bits are kept.
    pub fn sts(self, w: u16) -> (r: Self)
        ensures
            r.d.data@ == self.d.data@.update(
                0,
                field_set(self.d.data@[0], 0, 1, ((w >> 8) as u8)),
            ).update(1, w as u8),
    {
        let mut d = self.d;
        d.data[0] = insert_field(d.data[0], 0, 1, (w >> 8) as u8);
        d.data[1] = w as u8;
        SetTearScanlineWrite { d }
    }
}

/// Splitting the tear scanline over its single top bit and its low byte and
/// recombining them is the identity for every value the 9-bit counter holds.
pub proof fn lemma_sts_roundtrip(b: u8, w: u16)
    by (bit_vector)
    requires
        w < 0x200,
    ensures
        (((field_get(field_set(b, 0, 1, (w >> 8) as u8), 0, 1) as u16) << 8) | ((w as u8) as u16))
            == w,
{
}

} // verus!
