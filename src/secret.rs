//! Seals [`crate::Mode`]: no type outside this crate can implement it.

use vstd::prelude::*;

verus! {

/// Implemented by the transport modes of this crate alone.
pub trait Secret {}

} // verus!
