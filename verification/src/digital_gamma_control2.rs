//! Parameter block of the `digital-gamma-control2` command: the digital gamma
//! micro-adjustment nibbles for the red and blue curves.

use vstd::prelude::*;

use crate::bits::blob_extract;
use crate::bits::blob_read;
use crate::bits::blob_splice;
use crate::bits::blob_write;
use crate::error::CodecError;

verus! {

/// The 64-byte parameter block of the `digital-gamma-control2` command.
#[derive(Copy, Clone, Debug)]
pub struct DigitalGammaControl2 {
    pub data: [u8; 64],
}

impl DigitalGammaControl2 {
    /// The chip's post-reset value of this block.
    pub open spec fn spec_default() -> Seq<u8> {
        Seq::new(64, |i: int| 0x00u8)
    }

    /// Borrow-free read view over a snapshot of the block.
    pub fn read(&self) -> (r: DigitalGammaControl2Read)
        ensures
            r.d.data@ == self.data@,
    {
        DigitalGammaControl2Read { d: *self }
    }

    /// Apply a builder transformation to this block and return the result;
    /// the builder reports a blob argument of the wrong length as an error.
    pub fn write<F: FnOnce(DigitalGammaControl2Write) -> Result<DigitalGammaControl2Write, CodecError>>(self, f: F) -> (r:
        Result<Self, CodecError>)
        requires
            call_requires(f, ((DigitalGammaControl2Write { d: self }),)),
        ensures
            match r {
                Ok(b) => call_ensures(f, ((DigitalGammaControl2Write { d: self }),), Ok(
                    (DigitalGammaControl2Write { d: b }),
                )),
                Err(e) => call_ensures(f, ((DigitalGammaControl2Write { d: self }),), Err(e)),
            },
    {
        match f(DigitalGammaControl2Write { d: self }) {
            Ok(w) => {
                proof {
                    assert((DigitalGammaControl2Write { d: w.d }) == w);
                }
                Ok(w.d)
            },
            Err(e) => Err(e),
        }
    }
}

impl Default for DigitalGammaControl2 {
    /// The block with the chip's documented post-reset byte pattern.
    fn default() -> (r: Self)
        ensures
            r.data@ == DigitalGammaControl2::spec_default(),
    {
        let r = DigitalGammaControl2 { data: [0x00u8; 64] };
        proof {
            assert(r.data@ =~= DigitalGammaControl2::spec_default());
        }
        r
    }
}

/// Read view of [`DigitalGammaControl2`].
#[derive(Copy, Clone)]
pub struct DigitalGammaControl2Read {
    pub d: DigitalGammaControl2,
}

impl DigitalGammaControl2Read {
    /// `rfa`: bytes 0..64, extracted element-wise.
    pub fn rfa(&self) -> (res: Vec<u8>)
        ensures
            res@ == blob_extract(self.d.data@, 0, 64, 0x0F, 4),
    {
        blob_read(&self.d.data, 0, 64, 0x0F, 4)
    }

    /// `bfa`: bytes 0..64, extracted element-wise.
    pub fn bfa(&self) -> (res: Vec<u8>)
        ensures
            res@ == blob_extract(self.d.data@, 0, 64, 0x0F, 0),
    {
        blob_read(&self.d.data, 0, 64, 0x0F, 0)
    }
}

/// Write view of [`DigitalGammaControl2`].
#[derive(Copy, Clone)]
pub struct DigitalGammaControl2Write {
    pub d: DigitalGammaControl2,
}

impl DigitalGammaControl2Write {
    /// `rfa`: exactly 64 bytes into bytes 0..64, each masked to 0x0F and shifted into the high nibble; any other length is a reported contract violation.
    pub fn rfa(self, w: &[u8]) -> (res: Result<Self, CodecError>)
        ensures
            match res {
                Ok(b) => w@.len() == 64 && b.d.data@ == blob_splice(
                    self.d.data@,
                    0,
                    w@,
                    0x0F,
                    4,
                ),
                Err(e) => w@.len() != 64 && e == (CodecError::LengthMismatch {
                    expected: 64,
                    actual: w@.len() as usize,
                }),
            },
    {
        if w.len() != 64 {
            return Err(CodecError::LengthMismatch { expected: 64, actual: w.len() });
        }
        let mut d = self.d;
        blob_write(&mut d.data, 0, w, 0x0F, 4);
        Ok(DigitalGammaControl2Write { d })
    }

    /// `bfa`: exactly 64 bytes into bytes 0..64, each masked to 0x0F; any other length is a reported contract violation.
    pub fn bfa(self, w: &[u8]) -> (res: Result<Self, CodecError>)
        ensures
            match res {
                Ok(b) => w@.len() == 64 && b.d.data@ == blob_splice(
                    self.d.data@,
                    0,
                    w@,
                    0x0F,
                    0,
                ),
                Err(e) => w@.len() != 64 && e == (CodecError::LengthMismatch {
                    expected: 64,
                    actual: w@.len() as usize,
                }),
            },
    {
        if w.len() != 64 {
            return Err(CodecError::LengthMismatch { expected: 64, actual: w.len() });
        }
        let mut d = self.d;
        blob_write(&mut d.data, 0, w, 0x0F, 0);
        Ok(DigitalGammaControl2Write { d })
    }
}

} // verus!
