//! Read-path bounds of the store.

use vstd::prelude::*;

verus! {

/// Rows scanned at most to answer one page of a thread.
pub const VIEW_SCAN_LIMIT: u32 = 65_536;

/// How long an inbound frame is remembered as a duplicate: 24 hours.
pub const INBOUND_FRAME_TTL_SECS: i64 = 86_400;

} // verus!
