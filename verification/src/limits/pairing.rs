//! Bounds of the pairing surface.

use vstd::prelude::*;

verus! {

/// Ceiling of a pairing payload, over all its fields.
pub const MAX_QR_PAYLOAD_BYTES: usize = 8192;

/// Requests awaiting acceptance per open offer; past it new intros are
/// dropped.
pub const MAX_PENDING_REQUESTS: u32 = 256;

/// Relationships in all.
pub const MAX_RELATIONSHIPS: u32 = 1024;

} // verus!
