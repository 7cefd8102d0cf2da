//! Error kinds reported by the decoders.

use vstd::prelude::*;

verus! {

/// Everything that can go wrong while decoding a stack file.
#[derive(Debug, Clone, PartialEq, Eq)]
pub enum StackError {
    /// The file is missing the stack magic, is too short, or a header
    /// field is impossible.
    InvalidFile(String),
    /// A slice read exceeded its buffer.  Recoverable inside Part
    /// decoding, fatal elsewhere.
    OutOfBounds,
    /// A per-block decoder failed on internal structure; reported with the
    /// block's tag and offset.
    MalformedBlock(String, usize, String),
    /// The header's format code names a stack format newer than this
    /// decoder understands.
    UnsupportedFormat(u32),
    /// No STBL block was found in the file.
    MissingStyleTable,
    /// A byte sequence used as a block tag was not valid 7-bit ASCII.
    EncodingError,
}


} // verus!
