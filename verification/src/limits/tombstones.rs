//! Caps of the tombstone ledger.

use vstd::prelude::*;

verus! {

/// Tombstones kept per relationship.
pub const TOMBSTONE_CAP: u64 = 4096;

} // verus!
