//! Send-side bounds of attachments.

use vstd::prelude::*;

verus! {

/// At or below this an attachment rides inline in its head.
pub const INLINE_MAX: usize = 27_000;

/// The chunk count is padded up to a multiple of this.
pub const BUCKET_GRANULARITY: u16 = 8;

} // verus!
