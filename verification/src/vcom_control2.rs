//! Parameter block of the `vcom-control2` command: whether the VCOM offset
//! comes from NV memory or from this register, and the offset itself, a
//! biased 7-bit quantity.

use vstd::prelude::*;

use crate::bits::extract_field;
use crate::bits::field_get;
use crate::bits::field_set;
use crate::bits::insert_field;
use crate::bits::lemma_field_roundtrip_exact;
use crate::error::CodecError;

verus! {

/// The VCOM offset a wire code stands for: codes 1..=127 carry offsets
/// -63..=63; code 0 selects the programmed NV-memory value and has no
/// register-set offset, so it decodes to an error.
pub open spec fn spec_decode_vcomh(c: u8) -> Result<i8, CodecError> {
    if 1 <= c <= 127 {
        Ok((((c - 1) as i8) + -63) as i8)
    } else {
        Err(CodecError::UnrecognizedCode { code: c })
    }
}

/// The wire code of a VCOM offset: the offset biased by -63, plus the
/// reserved zero code.
pub open spec fn spec_encode_vcomh(w: i8) -> u8
    recommends
        -63 <= w <= 64,
{
    (((w + 63) as u8) + 1) as u8
}

/// The bias arithmetic of the VCOM offset: encoding an offset in the
/// documented semantic range and decoding the stored 7-bit run yields the
/// offset back, and the encoding never exceeds the run's 7-bit width.
pub proof fn lemma_vcomh_roundtrip(b: u8, w: i8)
    requires
        -63 <= w <= 63,
    ensures
        spec_encode_vcomh(w) <= 127,
        spec_decode_vcomh(field_get(field_set(b, 0, 7, spec_encode_vcomh(w)), 0, 7))
            == Ok::<i8, CodecError>(w),
{
    assert(crate::bits::field_mask(7) == 127) by (bit_vector);
    lemma_field_roundtrip_exact(b, 0, 7, spec_encode_vcomh(w));
}

/// The single-byte parameter block of the `vcom-control2` command.
#[derive(Copy, Clone, Debug)]
pub struct VcomControl2 {
    pub data: [u8; 1],
}

impl VcomControl2 {
    /// The chip's post-reset value of this block.
    pub open spec fn spec_default() -> Seq<u8> {
        seq![0xC0u8]
    }

    /// Borrow-free read view over a snapshot of the block.
    pub fn read(&self) -> (r: VcomControl2Read)
        ensures
            r.d.data@ == self.data@,
    {
        VcomControl2Read { d: *self }
    }

    /// Apply a builder transformation to this block and return the result.
    pub fn write<F: FnOnce(VcomControl2Write) -> VcomControl2Write>(self, f: F) -> (r: Self)
        requires
            call_requires(f, ((VcomControl2Write { d: self }),)),
        ensures
            call_ensures(f, ((VcomControl2Write { d: self }),), (VcomControl2Write { d: r })),
    {
        let w = f(VcomControl2Write { d: self });
        proof {
            assert((VcomControl2Write { d: w.d }) == w);
        }
        w.d
    }
}

impl Default for VcomControl2 {
    /// The block with the chip's documented post-reset byte pattern.
    fn default() -> (r: Self)
        ensures
            r.data@ == VcomControl2::spec_default(),
    {
        let r = VcomControl2 { data: [0xC0] };
        proof {
            assert(r.data@ =~= VcomControl2::spec_default());
        }
        r
    }
}

/// Read view of [`VcomControl2`].
#[derive(Copy, Clone)]
pub struct VcomControl2Read {
    pub d: VcomControl2,
}

impl VcomControl2Read {
    /// `vcom_setting_source`: 1 bit at offset 7 of byte 0.
    pub fn vcom_setting_source(&self) -> (r: bool)
        ensures
            r == (field_get(self.d.data@[0], 7, 1) != 0),
    {
        extract_field(self.d.data[0], 7, 1) != 0
    }

    /// The VCOM offset, a biased 7-bit run at offset 0 of byte 0; the
    /// reserved zero code is a recoverable decode error.
    pub fn vcomh(&self) -> (r: Result<i8, CodecError>)
        ensures
            r == spec_decode_vcomh(field_get(self.d.data@[0], 0, 7)),
    {
        let c = extract_field(self.d.data[0], 0, 7);
        if 1 <= c && c <= 127 {
            Ok(((c - 1) as i8) + (-63))
        } else {
            Err(CodecError::UnrecognizedCode { code: c })
        }
    }
}

/// Write view of [`VcomControl2`].
#[derive(Copy, Clone)]
pub struct VcomControl2Write {
    pub d: VcomControl2,
}

impl VcomControl2Write {
    /// `vcom_setting_source`: written into 1 bit at offset 7 of byte 0; all other bits are kept.
    pub fn vcom_setting_source(self, w: bool) -> (r: Self)
        ensures
            r.d.data@ == self.d.data@.update(
                0,
                field_set(self.d.data@[0], 7, 1, (if w { 1u8 } else { 0u8 })),
            ),
    {
        let mut d = self.d;
        d.data[0] = insert_field(d.data[0], 7, 1, if w { 1 } else { 0 });
        VcomControl2Write { d }
    }

    /// The VCOM offset, biased into the 7-bit run at offset 0 of byte 0. The
    /// offset must lie in the chip's accepted range -63..=64; only -63..=63
    /// round-trips, since 64 encodes to the reserved zero code.
    pub fn vcomh(self, w: i8) -> (r: Self)
        requires
            -63 <= w <= 64,
        ensures
            r.d.data@ == self.d.data@.update(
                0,
                field_set(self.d.data@[0], 0, 7, spec_encode_vcomh(w)),
            ),
    {
        let c = ((w + 63) as u8) + 1;
        let mut d = self.d;
        d.data[0] = insert_field(d.data[0], 0, 7, c);
        VcomControl2Write { d }
    }
}

} // verus!
