//! Parameter block of the `read-display-self-diagnostic-result` command: the self-diagnostic
//! register-loading and functionality bits.

use vstd::prelude::*;

use crate::bits::extract_field;
use crate::bits::field_get;
use crate::bits::field_set;
use crate::bits::insert_field;

verus! {

/// The single-byte parameter block of the `read-display-self-diagnostic-result` command.
#[derive(Copy, Clone, Debug)]
pub struct DisplaySelfDiagnosticResult {
    pub data: [u8; 1],
}

impl DisplaySelfDiagnosticResult {
    /// The chip's post-reset value of this block.
    pub open spec fn spec_default() -> Seq<u8> {
        seq![0x00u8]
    }

    /// Borrow-free read view over a snapshot of the block.
    pub fn read(&self) -> (r: DisplaySelfDiagnosticResultRead)
        ensures
            r.d.data@ == self.data@,
    {
        DisplaySelfDiagnosticResultRead { d: *self }
    }

    /// Apply a builder transformation to this block and return the result.
    pub fn write<F: FnOnce(DisplaySelfDiagnosticResultWrite) -> DisplaySelfDiagnosticResultWrite>(self, f: F) -> (r: Self)
        requires
            call_requires(f, ((DisplaySelfDiagnosticResultWrite { d: self }),)),
        ensures
            call_ensures(f, ((DisplaySelfDiagnosticResultWrite { d: self }),), (DisplaySelfDiagnosticResultWrite { d: r })),
    {
        let w = f(DisplaySelfDiagnosticResultWrite { d: self });
        proof {
            assert((DisplaySelfDiagnosticResultWrite { d: w.d }) == w);
        }
        w.d
    }
}

impl Default for DisplaySelfDiagnosticResult {
    /// The block with the chip's documented post-reset byte pattern.
    fn default() -> (r: Self)
        ensures
            r.data@ == DisplaySelfDiagnosticResult::spec_default(),
    {
        let r = DisplaySelfDiagnosticResult { data: [0x00] };
        proof {
            assert(r.data@ =~= DisplaySelfDiagnosticResult::spec_default());
        }
        r
    }
}

/// Read view of [`DisplaySelfDiagnosticResult`].
#[derive(Copy, Clone)]
pub struct DisplaySelfDiagnosticResultRead {
    pub d: DisplaySelfDiagnosticResult,
}

impl DisplaySelfDiagnosticResultRead {
    /// `d`: 2 bits at offset 6 of byte 0, returned in place.
    pub fn d(&self) -> (r: u8)
        ensures
            r == (field_get(self.d.data@[0], 6, 2) << 6),
    {
        extract_field(self.d.data[0], 6, 2) << 6
    }
}

/// Write view of [`DisplaySelfDiagnosticResult`].
#[derive(Copy, Clone)]
pub struct DisplaySelfDiagnosticResultWrite {
    pub d: DisplaySelfDiagnosticResult,
}

impl DisplaySelfDiagnosticResultWrite {
    /// `d`: written into 2 bits at offset 6 of byte 0; all other bits are kept.
    pub fn d(self, w: u8) -> (r: Self)
        ensures
            r.d.data@ == self.d.data@.update(
                0,
                field_set(self.d.data@[0], 6, 2, (w >> 6) as u8),
            ),
    {
        let mut d = self.d;
        d.data[0] = insert_field(d.data[0], 6, 2, (w >> 6) as u8);
        DisplaySelfDiagnosticResultWrite { d }
    }
}

} // verus!
