//! Parameter block of the `digital-gamma-control1` command: the digital gamma
//! macro-adjustment nibbles for the red and blue curves.

use vstd::prelude::*;

use crate::bits::blob_extract;
use crate::bits::blob_read;
use crate::bits::blob_splice;
use crate::bits::blob_write;
use crate::error::CodecError;

verus! {

/// The 16-byte parameter block of the `digital-gamma-control1` command.
#[derive(Copy, Clone, Debug)]
pub struct DigitalGammaControl1 {
    pub data: [u8; 16],
}

impl DigitalGammaControl1 {
    /// The chip's post-reset value of this block.
    pub open spec fn spec_default() -> Seq<u8> {
        seq![0x00u8, 0x00u8, 0x00u8, 0x00u8, 0x00u8, 0x00u8, 0x00u8, 0x00u8, 0x00u8, 0x00u8, 0x00u8, 0x00u8, 0x00u8, 0x00u8, 0x00u8, 0x00u8]
    }

    /// Borrow-free read view over a snapshot of the block.
    pub fn read(&self) -> (r: DigitalGammaControl1Read)
        ensures
            r.d.data@ == self.data@,
    {
        DigitalGammaControl1Read { d: *self }
    }

    /// Apply a builder transformation to this block and return the result;
    /// the builder reports a blob argument of the wrong length as an error.
    pub fn write<F: FnOnce(DigitalGammaControl1Write) -> Result<DigitalGammaControl1Write, CodecError>>(self, f: F) -> (r:
        Result<Self, CodecError>)
        requires
            call_requires(f, ((DigitalGammaControl1Write { d: self }),)),
        ensures
            match r {
                Ok(b) => call_ensures(f, ((DigitalGammaControl1Write { d: self }),), Ok(
                    (DigitalGammaControl1Write { d: b }),
                )),
                Err(e) => call_ensures(f, ((DigitalGammaControl1Write { d: self }),), Err(e)),
            },
    {
        match f(DigitalGammaControl1Write { d: self }) {
            Ok(w) => {
                proof {
                    assert((DigitalGammaControl1Write { d: w.d }) == w);
                }
                Ok(w.d)
            },
            Err(e) => Err(e),
        }
    }
}

impl Default for DigitalGammaControl1 {
    /// The block with the chip's documented post-reset byte pattern.
    fn default() -> (r: Self)
        ensures
            r.data@ == DigitalGammaControl1::spec_default(),
    {
        let r = DigitalGammaControl1 { data: [0x00u8; 16] };
        proof {
            assert(r.data@ =~= DigitalGammaControl1::spec_default());
        }
        r
    }
}

/// Read view of [`DigitalGammaControl1`].
#[derive(Copy, Clone)]
pub struct DigitalGammaControl1Read {
    pub d: DigitalGammaControl1,
}

impl DigitalGammaControl1Read {
    /// `rca`: bytes 0..16, extracted element-wise.
    pub fn rca(&self) -> (res: Vec<u8>)
        ensures
            res@ == blob_extract(self.d.data@, 0, 16, 0x0F, 4),
    {
        blob_read(&self.d.data, 0, 16, 0x0F, 4)
    }

    /// `bca`: bytes 0..16, extracted element-wise.
    pub fn bca(&self) -> (res: Vec<u8>)
        ensures
            res@ == blob_extract(self.d.data@, 0, 16, 0x0F, 0),
    {
        blob_read(&self.d.data, 0, 16, 0x0F, 0)
    }
}

/// Write view of [`DigitalGammaControl1`].
#[derive(Copy, Clone)]
pub struct DigitalGammaControl1Write {
    pub d: DigitalGammaControl1,
}

impl DigitalGammaControl1Write {
    /// `rca`: exactly 16 bytes into bytes 0..16, each masked to 0x0F and shifted into the high nibble; any other length is a reported contract violation.
    pub fn rca(self, w: &[u8]) -> (res: Result<Self, CodecError>)
        ensures
            match res {
                Ok(b) => w@.len() == 16 && b.d.data@ == blob_splice(
                    self.d.data@,
                    0,
                    w@,
                    0x0F,
                    4,
                ),
                Err(e) => w@.len() != 16 && e == (CodecError::LengthMismatch {
                    expected: 16,
                    actual: w@.len() as usize,
                }),
            },
    {
        if w.len() != 16 {
            return Err(CodecError::LengthMismatch { expected: 16, actual: w.len() });
        }
        let mut d = self.d;
        blob_write(&mut d.data, 0, w, 0x0F, 4);
        Ok(DigitalGammaControl1Write { d })
    }

    /// `bca`: exactly 16 bytes into bytes 0..16, each masked to 0x0F; any other length is a reported contract violation.
    pub fn bca(self, w: &[u8]) -> (res: Result<Self, CodecError>)
        ensures
            match res {
                Ok(b) => w@.len() == 16 && b.d.data@ == blob_splice(
                    self.d.data@,
                    0,
                    w@,
                    0x0F,
                    0,
                ),
                Err(e) => w@.len() != 16 && e == (CodecError::LengthMismatch {
                    expected: 16,
                    actual: w@.len() as usize,
                }),
            },
    {
        if w.len() != 16 {
            return Err(CodecError::LengthMismatch { expected: 16, actual: w.len() });
        }
        let mut d = self.d;
        blob_write(&mut d.data, 0, w, 0x0F, 0);
        Ok(DigitalGammaControl1Write { d })
    }
}

} // verus!
