//! Ingress bounds of media preparation, applied before any pixel work.

use vstd::prelude::*;

verus! {

/// Ceiling of the encoded input.
pub const MAX_INPUT_BYTES: usize = 26_214_400;

/// Ceiling of a decoded edge, in pixels.
pub const MAX_DECODE_EDGE: u32 = 8192;

/// Long edge after re-encoding.
pub const LONG_EDGE: u32 = 1080;

/// The JPEG quality is stepped down until the output fits this.
pub const JPEG_TARGET_BYTES: usize = 409_600;

/// Edges of the profile photo renditions: large, medium, small.
pub const PROFILE_EDGE_LARGE: u32 = 512;

pub const PROFILE_EDGE_MEDIUM: u32 = 384;

pub const PROFILE_EDGE_SMALL: u32 = 256;

} // verus!
