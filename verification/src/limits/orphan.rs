//! Caps on attachment chunks whose head has not arrived yet.

use vstd::prelude::*;

verus! {

/// Chunks held for one head that has not been seen.
pub const MAX_ORPHAN_CHUNKS_PER_HEAD: u32 = 1024;

/// Bytes held for one head that has not been seen.
pub const MAX_ORPHAN_BYTES_PER_HEAD: u64 = 26_214_400;

/// Chunks held per relationship, over all heads.
pub const MAX_ORPHAN_CHUNKS_PER_REL: u32 = 4096;

/// Bytes held per relationship, over all heads.
pub const MAX_ORPHAN_BYTES_PER_REL: u64 = 67_108_864;

/// Orphans older than this are swept: 24 hours.
pub const ORPHAN_TTL_SECS: i64 = 86_400;

} // verus!
