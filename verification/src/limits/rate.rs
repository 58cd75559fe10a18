//! Temporal limits. They bound abusive peers and runaway loops, and sit well
//! above what honest use reaches.

use vstd::prelude::*;

verus! {

/// Inbound frames per hosted service, dropped before any decryption.
pub const INBOUND_FRAME_PER_SEC: u32 = 256;

pub const INBOUND_FRAME_BURST: u32 = 4096;

/// Resync requests answered per relationship.
pub const RESYNC_REQ_PER_SEC: u32 = 1;

pub const RESYNC_REQ_BURST: u32 = 8;

/// Inbound typing and presence envelopes per relationship.
pub const EPHEMERAL_PER_SEC: u32 = 4;

pub const EPHEMERAL_BURST: u32 = 16;

/// Seconds between two intros of one invitation service.
pub const INTRO_MIN_INTERVAL_SECS: u64 = 1;

/// Control-port commands.
pub const CONTROL_CMD_PER_SEC: u32 = 8;

pub const CONTROL_CMD_BURST: u32 = 64;

/// Sticker fetches that inbound content triggers, per relationship.
pub const STICKER_FETCH_PER_SEC: u32 = 8;

pub const STICKER_FETCH_BURST: u32 = 32;

/// Sticker requests answered, per relationship.
pub const STICKER_SERVE_PER_SEC: u32 = 16;

pub const STICKER_SERVE_BURST: u32 = 128;

} // verus!
