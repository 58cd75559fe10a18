//! Batching of the outbox.

use vstd::prelude::*;

verus! {

/// Messages attempted per pass.
pub const DRAIN_BATCH: u32 = 64;

} // verus!
