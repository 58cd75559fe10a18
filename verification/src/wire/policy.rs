//! The chat policy payload.

use vstd::prelude::*;

verus! {

pub const OP_RULE_PROPOSE: u8 = 1;

pub const OP_RULE_ACCEPT: u8 = 2;

pub const OP_CAP_SET: u8 = 3;

pub const OP_SYNC: u8 = 4;

pub const FLAG_WANT_ATTACH: u32 = 1;

pub const FLAG_WANT_EMOJI: u32 = 2;

pub const FLAG_WANT_PRESENCE: u32 = 4;

pub const FLAG_WANT_TYPING: u32 = 8;

pub const FLAG_WANT_RECEIPTS: u32 = 16;

pub const CAP_ID_ATTACH: u8 = 1;

pub const CAP_ID_EMOJI: u8 = 2;

pub const CAP_ID_PRESENCE: u8 = 3;

pub const CAP_ID_TYPING: u8 = 4;

pub const CAP_ID_RECEIPTS: u8 = 5;

pub const CAP_ID_MAX: u8 = 5;

/// Messages never expire.
pub const TTL_NEVER: u32 = 0;

pub const TTL_1H: u32 = 3_600;

pub const TTL_24H: u32 = 86_400;

pub const TTL_7D: u32 = 604_800;

pub const TTL_14D: u32 = 1_209_600;

/// The lifetimes that two sides can agree on.
pub open spec fn allowed_ttl(ttl_sec: u32) -> bool {
    ttl_sec == TTL_NEVER || ttl_sec == TTL_1H || ttl_sec == TTL_24H || ttl_sec == TTL_7D || ttl_sec
        == TTL_14D
}

/// Whether two sides can agree on a lifetime.
pub fn is_allowed_ttl(ttl_sec: u32) -> (allowed: bool)
    ensures
        allowed == allowed_ttl(ttl_sec),
{
    ttl_sec == TTL_NEVER || ttl_sec == TTL_1H || ttl_sec == TTL_24H || ttl_sec == TTL_7D || ttl_sec
        == TTL_14D
}

/// The want bit of a capability, 0 where there is no such capability.
pub open spec fn bit_of(cap_id: u8) -> u32 {
    if cap_id == CAP_ID_ATTACH {
        FLAG_WANT_ATTACH
    } else if cap_id == CAP_ID_EMOJI {
        FLAG_WANT_EMOJI
    } else if cap_id == CAP_ID_PRESENCE {
        FLAG_WANT_PRESENCE
    } else if cap_id == CAP_ID_TYPING {
        FLAG_WANT_TYPING
    } else if cap_id == CAP_ID_RECEIPTS {
        FLAG_WANT_RECEIPTS
    } else {
        0
    }
}

/// The want bit of a capability, 0 where there is no such capability.
pub fn cap_bit(cap_id: u8) -> (bit: u32)
    ensures
        bit == bit_of(cap_id),
{
    if cap_id == CAP_ID_ATTACH {
        FLAG_WANT_ATTACH
    } else if cap_id == CAP_ID_EMOJI {
        FLAG_WANT_EMOJI
    } else if cap_id == CAP_ID_PRESENCE {
        FLAG_WANT_PRESENCE
    } else if cap_id == CAP_ID_TYPING {
        FLAG_WANT_TYPING
    } else if cap_id == CAP_ID_RECEIPTS {
        FLAG_WANT_RECEIPTS
    } else {
        0
    }
}

/// A policy operation. Whatever the operation, the wants are those of its
/// sender.
#[derive(Clone, Copy, Debug, PartialEq, Eq)]
pub struct ChatPolicy {
    pub op: u8,
    pub ttl_sec: u32,
    pub screenshot: bool,
    pub attach_download: bool,
    pub want_attach: bool,
    pub want_emoji: bool,
    pub want_presence: bool,
    pub want_typing: bool,
    pub want_receipts: bool,
    pub cap_id: u8,
    pub cap_on: bool,
    pub propose_id: [u8; 16],
}

/// Each capability has a want bit of its own, and there are no others.
pub proof fn each_capability_has_its_bit(cap_id: u8)
    ensures
        bit_of(cap_id) == FLAG_WANT_ATTACH <==> cap_id == CAP_ID_ATTACH,
        bit_of(cap_id) == FLAG_WANT_EMOJI <==> cap_id == CAP_ID_EMOJI,
        bit_of(cap_id) == FLAG_WANT_PRESENCE <==> cap_id == CAP_ID_PRESENCE,
        bit_of(cap_id) == FLAG_WANT_TYPING <==> cap_id == CAP_ID_TYPING,
        bit_of(cap_id) == FLAG_WANT_RECEIPTS <==> cap_id == CAP_ID_RECEIPTS,
        bit_of(cap_id) == 0 <==> cap_id == 0 || cap_id > CAP_ID_MAX,
{
}

/// Two sides can agree on no lifetime at all, an hour, a day, a week or two
/// weeks.
pub proof fn lifetimes_are_an_hour_to_two_weeks(ttl_sec: u32)
    ensures
        allowed_ttl(ttl_sec) <==> ttl_sec == 0 || ttl_sec == 60 * 60 || ttl_sec == 24 * 60 * 60
            || ttl_sec == 7 * 24 * 60 * 60 || ttl_sec == 14 * 24 * 60 * 60,
{
}

} // verus!
