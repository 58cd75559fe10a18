//! Capability bits. A side advertises them inside the channel only.

use vstd::prelude::*;

verus! {

pub const CAP_V15: u32 = 1;

pub const CAP_V19: u32 = 2;

pub const CAP_STICKER: u32 = 4;

pub const CAP_PRESENCE: u32 = 8;

pub const CAP_TYPING: u32 = 16;

pub const CAP_READ: u32 = 32;

pub const CAP_POLICY: u32 = 64;

/// Every bit that this build speaks.
pub const LOCAL: u32 = 127;

/// Whether `bit` is set in `caps`.
pub fn has(caps: u32, bit: u32) -> (set: bool)
    ensures
        set == (caps & bit != 0),
{
    caps & bit != 0
}

} // verus!
