//! Error condition for response encoding.

use vstd::prelude::*;

verus! {

/// Raised when a caller-supplied destination is shorter than the encoded
/// response. With the protocol's fixed maximum sizes this signals a sizing
/// defect in the caller, not a recoverable protocol event.
#[derive(Clone, Copy, Debug, PartialEq, Eq, Structural)]
pub enum DataError {
    BufferTooSmall { buf_size: usize, required: usize },
}

} // verus!
