//! Bit-run extraction and insertion on single bytes, and the big-endian
//! recombination of multi-byte counters.
//!
//! The codec modules state their bit-run contracts over `field_get` and
//! `field_set`, so the round-trip and isolation laws proved here carry over
//! to every fixed bit-run field of every parameter block.

use vstd::prelude::*;

use crate::error::CodecError;

verus! {

/// The low `width` bits set, e.g. `field_mask(3) == 0x07`.
pub open spec fn field_mask(width: u8) -> u8
    recommends
        1 <= width <= 8,
{
    0xFFu8 >> ((8 - width) as u8)
}

/// The value of the bit-run of `width` bits at offset `off` within `b`.
pub open spec fn field_get(b: u8, off: u8, width: u8) -> u8
    recommends
        1 <= width <= 8,
        off + width <= 8,
{
    (b >> off) & field_mask(width)
}

/// `b` with the bit-run of `width` bits at offset `off` replaced by the low
/// `width` bits of `v`; all other bits of `b` are kept.
pub open spec fn field_set(b: u8, off: u8, width: u8, v: u8) -> u8
    recommends
        1 <= width <= 8,
        off + width <= 8,
{
    (b & !(field_mask(width) << off)) | ((v & field_mask(width)) << off)
}

/// The single bit of `b` at position `i`, as 0 or 1.
pub open spec fn bit_at(b: u8, i: u8) -> u8
    recommends
        i < 8,
{
    (b >> i) & 1
}

/// The 16-bit value encoded big-endian as `hi` then `lo`.
pub open spec fn be16(hi: u8, lo: u8) -> u16 {
    (((hi as u16) << 8) | (lo as u16)) as u16
}

/// The 24-bit value encoded big-endian as `b0`, `b1`, `b2`.
pub open spec fn be24(b0: u8, b1: u8, b2: u8) -> u32 {
    ((((b0 as u32) << 16) | ((b1 as u32) << 8)) | (b2 as u32)) as u32
}

/// Executable counterpart of `field_get`.
pub fn extract_field(b: u8, off: u8, width: u8) -> (r: u8)
    requires
        1 <= width <= 8,
        off + width <= 8,
    ensures
        r == field_get(b, off, width),
        r <= field_mask(width),
{
    proof {
        lemma_field_get_bounded(b, off, width);
    }
    (b >> off) & (0xFFu8 >> (8 - width))
}

/// Executable counterpart of `field_set`.
pub fn insert_field(b: u8, off: u8, width: u8, v: u8) -> (r: u8)
    requires
        1 <= width <= 8,
        off + width <= 8,
    ensures
        r == field_set(b, off, width, v),
{
    let mask: u8 = 0xFFu8 >> (8 - width);
    (b & !(mask << off)) | ((v & mask) << off)
}

/// Writing a value into a bit-run and reading the run back yields the value's
/// low `width` bits; a value that fits in `width` bits comes back unchanged.
pub proof fn lemma_field_roundtrip(b: u8, off: u8, width: u8, v: u8)
    by (bit_vector)
    requires
        1 <= width <= 8,
        off + width <= 8,
    ensures
        field_get(field_set(b, off, width, v), off, width) == (v & field_mask(width)),
{
}

/// Writing into a bit-run leaves every bit outside `[off, off + width)`
/// unchanged.
pub proof fn lemma_field_isolation(b: u8, off: u8, width: u8, v: u8, i: u8)
    by (bit_vector)
    requires
        1 <= width <= 8,
        off + width <= 8,
        i < 8,
        i < off || off + width <= i,
    ensures
        bit_at(field_set(b, off, width, v), i) == bit_at(b, i),
{
}

/// A bit-run value never exceeds the run's mask.
pub proof fn lemma_field_get_bounded(b: u8, off: u8, width: u8)
    by (bit_vector)
    requires
        1 <= width <= 8,
        off + width <= 8,
    ensures
        field_get(b, off, width) <= field_mask(width),
{
}

/// Splitting a 16-bit counter big-endian and recombining it is the identity.
pub proof fn lemma_be16_roundtrip(w: u16)
    by (bit_vector)
    ensures
        be16((w >> 8) as u8, w as u8) == w,
{
}

/// The high byte of a big-endian 16-bit counter carries its top 8 bits.
pub proof fn lemma_be16_bytes(hi: u8, lo: u8)
    by (bit_vector)
    ensures
        (be16(hi, lo) >> 8) as u8 == hi,
        be16(hi, lo) as u8 == lo,
{
}

/// `d` with the subrange of `w.len()` bytes at `base` replaced element-wise
/// by `w`, each element masked to `mask` and shifted into place by `shift`;
/// bytes outside the subrange are kept.
pub open spec fn blob_splice(d: Seq<u8>, base: int, w: Seq<u8>, mask: u8, shift: u8) -> Seq<u8>
    recommends
        0 <= base,
        base + w.len() <= d.len(),
        shift < 8,
{
    Seq::new(d.len(), |i: int|
        if base <= i < base + w.len() {
            (w[i - base] & mask) << shift
        } else {
            d[i]
        })
}

/// The subrange of `len` bytes at `base` of `d`, each element extracted by
/// `shift` and `mask`.
pub open spec fn blob_extract(d: Seq<u8>, base: int, len: int, mask: u8, shift: u8) -> Seq<u8>
    recommends
        0 <= base,
        base + len <= d.len(),
        shift < 8,
{
    Seq::new(len as nat, |i: int| (d[base + i] >> shift) & mask)
}

/// `w` masked element-wise to `mask`.
pub open spec fn blob_masked(w: Seq<u8>, mask: u8) -> Seq<u8> {
    Seq::new(w.len(), |i: int| w[i] & mask)
}

/// Storing a masked, shifted element and extracting it back yields the masked
/// element, whenever the shift loses no bit of the mask.
pub proof fn lemma_masked_element_roundtrip(v: u8, mask: u8, shift: u8)
    by (bit_vector)
    requires
        shift < 8,
        ((mask << shift) >> shift) == mask,
    ensures
        (((v & mask) << shift) >> shift) & mask == (v & mask),
{
}

/// Writing a full-length blob and reading the subrange back yields the input
/// masked element-wise.
pub proof fn lemma_blob_roundtrip(d: Seq<u8>, base: int, w: Seq<u8>, mask: u8, shift: u8)
    requires
        0 <= base,
        base + w.len() <= d.len(),
        shift < 8,
        ((mask << shift) >> shift) == mask,
    ensures
        blob_extract(blob_splice(d, base, w, mask, shift), base, w.len() as int, mask, shift)
            == blob_masked(w, mask),
{
    let spliced = blob_splice(d, base, w, mask, shift);
    let extracted = blob_extract(spliced, base, w.len() as int, mask, shift);
    assert forall|i: int| 0 <= i < w.len() implies extracted[i] == (w[i] & mask) by {
        lemma_masked_element_roundtrip(w[i], mask, shift);
    }
    assert(extracted =~= blob_masked(w, mask));
}

/// A value no larger than a field's mask is kept exactly by the mask.
pub proof fn lemma_mask_identity(v: u8, width: u8)
    by (bit_vector)
    requires
        1 <= width <= 8,
        v <= field_mask(width),
    ensures
        v & field_mask(width) == v,
{
}

/// The value a stored code of a floor-biased field stands for: codes at or
/// above the documented floor stand for themselves; a smaller code is a
/// recoverable decode error.
pub open spec fn spec_decode_floor(c: u8, floor: u8) -> Result<u8, CodecError> {
    if c >= floor {
        Ok(c)
    } else {
        Err(CodecError::UnrecognizedCode { code: c })
    }
}

/// Writing a floor-biased value that fits the bit-run and decoding the run
/// back yields the value exactly.
pub proof fn lemma_floor_field_roundtrip(b: u8, off: u8, width: u8, v: u8, floor: u8)
    requires
        1 <= width <= 8,
        off + width <= 8,
        floor <= v <= field_mask(width),
    ensures
        spec_decode_floor(field_get(field_set(b, off, width, v), off, width), floor)
            == Ok::<u8, CodecError>(v),
{
    lemma_field_roundtrip_exact(b, off, width, v);
}

/// Writing a value that fits the bit-run and reading the run back yields the
/// value exactly.
pub proof fn lemma_field_roundtrip_exact(b: u8, off: u8, width: u8, v: u8)
    requires
        1 <= width <= 8,
        off + width <= 8,
        v <= field_mask(width),
    ensures
        field_get(field_set(b, off, width, v), off, width) == v,
{
    lemma_field_roundtrip(b, off, width, v);
    lemma_mask_identity(v, width);
}

/// Splitting a 24-bit counter big-endian and recombining it is the identity.
pub proof fn lemma_be24_roundtrip(w: u32)
    by (bit_vector)
    requires
        w < 0x1000000,
    ensures
        be24((w >> 16) as u8, (w >> 8) as u8, w as u8) == w,
{
}

/// Extract `len` masked elements starting at `base`.
pub fn blob_read<const N: usize>(d: &[u8; N], base: usize, len: usize, mask: u8, shift: u8) -> (res:
    Vec<u8>)
    requires
        base + len <= N,
        shift < 8,
    ensures
        res@ == blob_extract(d@, base as int, len as int, mask, shift),
{
    let mut res: Vec<u8> = Vec::new();
    let mut i: usize = 0;
    while i < len
        invariant
            i <= len,
            base + len <= N,
            shift < 8,
            res@.len() == i,
            forall|j: int| 0 <= j < i ==> res@[j] == ((d@[base + j] >> shift) & mask),
        decreases len - i,
    {
        res.push((d[base + i] >> shift) & mask);
        i += 1;
    }
    proof {
        assert(res@ =~= blob_extract(d@, base as int, len as int, mask, shift));
    }
    res
}

/// Write `w` masked and shifted into the subrange at `base`, leaving all
/// other bytes unchanged.
pub fn blob_write<const N: usize>(d: &mut [u8; N], base: usize, w: &[u8], mask: u8, shift: u8)
    requires
        base + w@.len() <= N,
        shift < 8,
    ensures
        final(d)@ == blob_splice(old(d)@, base as int, w@, mask, shift),
{
    let len = w.len();
    let mut i: usize = 0;
    while i < len
        invariant
            i <= len,
            w@.len() == len,
            base + len <= N,
            shift < 8,
            forall|j: int| base <= j < base + i ==> d@[j] == ((w@[j - base] & mask) << shift),
            forall|j: int| 0 <= j < N && !(base <= j < base + i) ==> d@[j] == old(d)@[j],
        decreases len - i,
    {
        d[base + i] = (w[i] & mask) << shift;
        i += 1;
    }
    proof {
        assert(d@ =~= blob_splice(old(d)@, base as int, w@, mask, shift));
    }
}

} // verus!
