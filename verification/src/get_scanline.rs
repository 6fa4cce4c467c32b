//! Parameter block of the `get-scanline` command: the scan line currently being
//! updated, a 10-bit counter split over two bytes.

use vstd::prelude::*;

use crate::bits::extract_field;
use crate::bits::field_get;
use crate::bits::field_set;
use crate::bits::insert_field;

verus! {

/// The 2-byte parameter block of the `get-scanline` command.
#[derive(Copy, Clone, Debug)]
pub struct GetScanline {
    pub data: [u8; 2],
}

impl GetScanline {
    /// The chip's post-reset value of this block.
    pub open spec fn spec_default() -> Seq<u8> {
        seq![0x00u8, 0x00u8]
    }

    /// Borrow-free read view over a snapshot of the block.
    pub fn read(&self) -> (r: GetScanlineRead)
        ensures
            r.d.data@ == self.data@,
    {
        GetScanlineRead { d: *self }
    }

    /// Apply a builder transformation to this block and return the result.
    pub fn write<F: FnOnce(GetScanlineWrite) -> GetScanlineWrite>(self, f: F) -> (r: Self)
        requires
            call_requires(f, ((GetScanlineWrite { d: self }),)),
        ensures
            call_ensures(f, ((GetScanlineWrite { d: self }),), (GetScanlineWrite { d: r })),
    {
        let w = f(GetScanlineWrite { d: self });
        proof {
            assert((GetScanlineWrite { d: w.d }) == w);
        }
        w.d
    }
}

impl Default for GetScanline {
    /// The block with the chip's documented post-reset byte pattern.
    fn default() -> (r: Self)
        ensures
            r.data@ == GetScanline::spec_default(),
    {
        let r = GetScanline { data: [0x00, 0x00] };
        proof {
            assert(r.data@ =~= GetScanline::spec_default());
        }
        r
    }
}

/// Read view of [`GetScanline`].
#[derive(Copy, Clone)]
pub struct GetScanlineRead {
    pub d: GetScanline,
}

impl GetScanlineRead {
    /// `gts`: a 10-bit counter, its top bits in byte 0 and its low byte in byte 1.
    pub fn gts(&self) -> (r: u16)
        ensures
            r == (((field_get(self.d.data@[0], 0, 2) as u16) << 8) | (self.d.data@[1] as u16)),
    {
        ((extract_field(self.d.data[0], 0, 2) as u16) << 8) | (self.d.data[1] as u16)
    }
}

/// Write view of [`GetScanline`].
#[derive(Copy, Clone)]
pub struct GetScanlineWrite {
    pub d: GetScanline,
}

impl GetScanlineWrite {
    /// `gts`: written into 2 bits at offset 0 of byte 0 and byte 1; all other bits are kept.
    pub fn gts(self, w: u16) -> (r: Self)
        ensures
            r.d.data@ == self.d.data@.update(
                0,
                field_set(self.d.data@[0], 0, 2, ((w >> 8) as u8)),
            ).update(1, w as u8),
    {
        let mut d = self.d;
        d.data[0] = insert_field(d.data[0], 0, 2, (w >> 8) as u8);
        d.data[1] = w as u8;
        GetScanlineWrite { d }
    }
}

/// Splitting the scan line over its two top bits and its low byte and
/// recombining them is the identity for every value the 10-bit counter holds.
pub proof fn lemma_gts_roundtrip(b: u8, w: u16)
    by (bit_vector)
    requires
        w < 0x400,
    ensures
        (((field_get(field_set(b, 0, 2, (w >> 8) as u8), 0, 2) as u16) << 8) | ((w as u8) as u16))
            == w,
{
}

} // verus!
