//! Errors local to the codec layer: decode failures and caller contract
//! violations. Transport failures are carried separately, through the
//! `Interface` implementation's own error type.

use vstd::prelude::*;

verus! {

/// A failure of the codec layer itself.
#[derive(Copy, Clone, Debug, PartialEq, Eq, Structural)]
pub enum CodecError {
    /// A received bit pattern is not a documented code of the field's
    /// enumeration (or of its biased numeric range).
    UnrecognizedCode { code: u8 },
    /// A blob argument's length does not match the field's fixed subrange.
    LengthMismatch { expected: usize, actual: usize },
}

/// A failure of one controller command: either the transport failed, or the
/// caller's builder violated a codec contract.
#[derive(Copy, Clone, Debug, PartialEq, Eq)]
pub enum CommandError<E> {
    Transport(E),
    Codec(CodecError),
}

} // verus!
