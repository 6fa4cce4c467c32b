//! Parameter block of the `nv-memory-protection-key` command: the 24-bit NV-memory
//! programming protection key, big-endian.

use vstd::prelude::*;

use crate::bits::be24;

verus! {

/// The 3-byte parameter block of the `nv-memory-protection-key` command.
#[derive(Copy, Clone, Debug)]
pub struct NvMemoryProtectionKey {
    pub data: [u8; 3],
}

impl NvMemoryProtectionKey {
    /// The chip's post-reset value of this block.
    pub open spec fn spec_default() -> Seq<u8> {
        seq![0x55u8, 0xAAu8, 0x66u8]
    }

    /// Borrow-free read view over a snapshot of the block.
    pub fn read(&self) -> (r: NvMemoryProtectionKeyRead)
        ensures
            r.d.data@ == self.data@,
    {
        NvMemoryProtectionKeyRead { d: *self }
    }

    /// Apply a builder transformation to this block and return the result.
    pub fn write<F: FnOnce(NvMemoryProtectionKeyWrite) -> NvMemoryProtectionKeyWrite>(self, f: F) -> (r: Self)
        requires
            call_requires(f, ((NvMemoryProtectionKeyWrite { d: self }),)),
        ensures
            call_ensures(f, ((NvMemoryProtectionKeyWrite { d: self }),), (NvMemoryProtectionKeyWrite { d: r })),
    {
        let w = f(NvMemoryProtectionKeyWrite { d: self });
        proof {
            assert((NvMemoryProtectionKeyWrite { d: w.d }) == w);
        }
        w.d
    }
}

impl Default for NvMemoryProtectionKey {
    /// The block with the chip's documented post-reset byte pattern.
    fn default() -> (r: Self)
        ensures
            r.data@ == NvMemoryProtectionKey::spec_default(),
    {
        let r = NvMemoryProtectionKey { data: [0x55, 0xAA, 0x66] };
        proof {
            assert(r.data@ =~= NvMemoryProtectionKey::spec_default());
        }
        r
    }
}

/// Read view of [`NvMemoryProtectionKey`].
#[derive(Copy, Clone)]
pub struct NvMemoryProtectionKeyRead {
    pub d: NvMemoryProtectionKey,
}

impl NvMemoryProtectionKeyRead {
    /// `nv_memory_programming_protection_key`: a 24-bit counter, bytes 0..3 big-endian.
    pub fn nv_memory_programming_protection_key(&self) -> (r: u32)
        ensures
            r == be24(self.d.data@[0], self.d.data@[1], self.d.data@[2]),
    {
        (((self.d.data[0] as u32) << 16) | ((self.d.data[1] as u32) << 8)) | (self.d.data[2] as u32)
    }
}

/// Write view of [`NvMemoryProtectionKey`].
#[derive(Copy, Clone)]
pub struct NvMemoryProtectionKeyWrite {
    pub d: NvMemoryProtectionKey,
}

impl NvMemoryProtectionKeyWrite {
    /// `nv_memory_programming_protection_key`: written into byte 0 and byte 1 and byte 2; all other bits are kept.
    pub fn nv_memory_programming_protection_key(self, w: u32) -> (r: Self)
        ensures
            r.d.data@ == self.d.data@.update(0, (w >> 16) as u8).update(1, (w >> 8) as u8).update(2, w as u8),
    {
        let mut d = self.d;
        d.data[0] = (w >> 16) as u8;
        d.data[1] = (w >> 8) as u8;
        d.data[2] = w as u8;
        NvMemoryProtectionKeyWrite { d }
    }
}

} // verus!
