//! Parameter block of the `color` command: the 128-byte lookup table for
//! 16-bit to 18-bit color depth conversion, split into red, green and blue
//! subranges of 6-bit entries.

use vstd::prelude::*;

use crate::bits::blob_extract;
use crate::bits::blob_read;
use crate::bits::blob_splice;
use crate::bits::blob_write;
use crate::error::CodecError;

verus! {

/// The 128-byte parameter block of the `color` command.
#[derive(Copy, Clone, Debug)]
pub struct ColorSet {
    pub data: [u8; 128],
}

impl ColorSet {
    /// The chip's post-reset value of this block.
    pub open spec fn spec_default() -> Seq<u8> {
        Seq::new(128, |i: int| 0x00u8)
    }

    /// Borrow-free read view over a snapshot of the block.
    pub fn read(&self) -> (r: ColorSetRead)
        ensures
            r.d.data@ == self.data@,
    {
        ColorSetRead { d: *self }
    }

    /// Apply a builder transformation to this block and return the result;
    /// the builder reports a blob argument of the wrong length as an error.
    pub fn write<F: FnOnce(ColorSetWrite) -> Result<ColorSetWrite, CodecError>>(self, f: F) -> (r:
        Result<Self, CodecError>)
        requires
            call_requires(f, ((ColorSetWrite { d: self }),)),
        ensures
            match r {
                Ok(b) => call_ensures(f, ((ColorSetWrite { d: self }),), Ok(
                    (ColorSetWrite { d: b }),
                )),
                Err(e) => call_ensures(f, ((ColorSetWrite { d: self }),), Err(e)),
            },
    {
        match f(ColorSetWrite { d: self }) {
            Ok(w) => {
                proof {
                    assert((ColorSetWrite { d: w.d }) == w);
                }
                Ok(w.d)
            },
            Err(e) => Err(e),
        }
    }
}

impl Default for ColorSet {
    /// The block with the chip's documented post-reset byte pattern.
    fn default() -> (r: Self)
        ensures
            r.data@ == ColorSet::spec_default(),
    {
        let r = ColorSet { data: [0x00u8; 128] };
        proof {
            assert(r.data@ =~= ColorSet::spec_default());
        }
        r
    }
}

/// Read view of [`ColorSet`].
#[derive(Copy, Clone)]
pub struct ColorSetRead {
    pub d: ColorSet,
}

impl ColorSetRead {
    /// `r`: bytes 0..32, extracted element-wise.
    pub fn r(&self) -> (res: Vec<u8>)
        ensures
            res@ == blob_extract(self.d.data@, 0, 32, 0x3F, 0),
    {
        blob_read(&self.d.data, 0, 32, 0x3F, 0)
    }

    /// `g`: bytes 32..96, extracted element-wise.
    pub fn g(&self) -> (res: Vec<u8>)
        ensures
            res@ == blob_extract(self.d.data@, 32, 64, 0x3F, 0),
    {
        blob_read(&self.d.data, 32, 64, 0x3F, 0)
    }

    /// `b`: bytes 96..128, extracted element-wise.
    pub fn b(&self) -> (res: Vec<u8>)
        ensures
            res@ == blob_extract(self.d.data@, 96, 32, 0x3F, 0),
    {
        blob_read(&self.d.data, 96, 32, 0x3F, 0)
    }
}

/// Write view of [`ColorSet`].
#[derive(Copy, Clone)]
pub struct ColorSetWrite {
    pub d: ColorSet,
}

impl ColorSetWrite {
    /// `r`: exactly 32 bytes into bytes 0..32, each masked to 0x3F; any other length is a reported contract violation.
    pub fn r(self, w: &[u8]) -> (res: Result<Self, CodecError>)
        ensures
            match res {
                Ok(b) => w@.len() == 32 && b.d.data@ == blob_splice(
                    self.d.data@,
                    0,
                    w@,
                    0x3F,
                    0,
                ),
                Err(e) => w@.len() != 32 && e == (CodecError::LengthMismatch {
                    expected: 32,
                    actual: w@.len() as usize,
                }),
            },
    {
        if w.len() != 32 {
            return Err(CodecError::LengthMismatch { expected: 32, actual: w.len() });
        }
        let mut d = self.d;
        blob_write(&mut d.data, 0, w, 0x3F, 0);
        Ok(ColorSetWrite { d })
    }

    /// `g`: exactly 64 bytes into bytes 32..96, each masked to 0x3F; any other length is a reported contract violation.
    pub fn g(self, w: &[u8]) -> (res: Result<Self, CodecError>)
        ensures
            match res {
                Ok(b) => w@.len() == 64 && b.d.data@ == blob_splice(
                    self.d.data@,
                    32,
                    w@,
                    0x3F,
                    0,
                ),
                Err(e) => w@.len() != 64 && e == (CodecError::LengthMismatch {
                    expected: 64,
                    actual: w@.len() as usize,
                }),
            },
    {
        if w.len() != 64 {
            return Err(CodecError::LengthMismatch { expected: 64, actual: w.len() });
        }
        let mut d = self.d;
        blob_write(&mut d.data, 32, w, 0x3F, 0);
        Ok(ColorSetWrite { d })
    }

    /// `b`: exactly 32 bytes into bytes 96..128, each masked to 0x3F; any other length is a reported contract violation.
    pub fn b(self, w: &[u8]) -> (res: Result<Self, CodecError>)
        ensures
            match res {
                Ok(b) => w@.len() == 32 && b.d.data@ == blob_splice(
                    self.d.data@,
                    96,
                    w@,
                    0x3F,
                    0,
                ),
                Err(e) => w@.len() != 32 && e == (CodecError::LengthMismatch {
                    expected: 32,
                    actual: w@.len() as usize,
                }),
            },
    {
        if w.len() != 32 {
            return Err(CodecError::LengthMismatch { expected: 32, actual: w.len() });
        }
        let mut d = self.d;
        blob_write(&mut d.data, 96, w, 0x3F, 0);
        Ok(ColorSetWrite { d })
    }
}

} // verus!
