//! Caps of the queue at rest: past them new frames are refused.

use vstd::prelude::*;

verus! {

pub const MAX_FILES: usize = 2048;

pub const MAX_BYTES: u64 = 67_108_864;

} // verus!
