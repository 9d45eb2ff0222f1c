//! Errors of the report decoder.

use vstd::prelude::*;

verus! {

/// Why a report could not be decoded.
#[derive(Clone, Copy, Debug, PartialEq, Eq, Structural)]
pub enum DecodeError {
    /// The d-pad nibble held a value above 8, which no conforming device sends.
    InvalidDirection(u8),
    /// The transport mode has no decoder.
    Unsupported,
}

} // verus!
