//! The rules of a chat and what each side wants of it.
//!
//! Rules (lifetime, screenshots, attachment download) change by a proposal
//! that the other side accepts. A capability is on only while both sides
//! want it: either side turns it off for both, and it comes back when both
//! want it again.

use vstd::prelude::*;

use crate::wire::policy::{
    FLAG_WANT_ATTACH, FLAG_WANT_EMOJI, FLAG_WANT_PRESENCE, FLAG_WANT_RECEIPTS, FLAG_WANT_TYPING,
    TTL_24H, TTL_NEVER,
};

pub mod engine;
pub mod machine;
pub mod store;

verus! {

/// Every want that this build knows.
pub const WANT_ALL: u32 = 31;

/// How often wants are advertised again.
pub const SYNC_INTERVAL_SEC: u64 = 3_600;

/// Time between two sync replies.
pub const SYNC_REPLY_MIN_SEC: u64 = 30;

/// A proposal that has not been answered.
#[derive(Clone, Copy, Debug, PartialEq, Eq)]
pub struct PendingProposal {
    pub ttl_sec: u32,
    pub screenshot: bool,
    pub attach_download: bool,
    /// Whether the peer proposed it, so that this side may accept.
    pub inbound: bool,
    pub propose_id: [u8; 16],
}

/// The policy of one relationship.
#[derive(Clone, Copy, Debug, PartialEq, Eq)]
pub struct PolicyState {
    /// The agreed lifetime of messages.
    pub ttl_sec: u32,
    pub screenshot: bool,
    pub attach_download: bool,
    pub local_want: u32,
    pub peer_want: u32,
    pub pending: Option<PendingProposal>,
    pub last_sync_at: u64,
}

impl Default for PolicyState {
    /// A day's lifetime, and everything on.
    fn default() -> (s: PolicyState)
        ensures
            s.ttl_sec == TTL_24H,
            s.screenshot && s.attach_download,
            s.local_want == WANT_ALL,
            s.peer_want == WANT_ALL,
            s.pending is None,
            s.last_sync_at == 0,
    {
        PolicyState {
            ttl_sec: TTL_24H,
            screenshot: true,
            attach_download: true,
            local_want: WANT_ALL,
            peer_want: WANT_ALL,
            pending: None,
            last_sync_at: 0,
        }
    }
}

impl PolicyState {
    /// Whether both sides want what `bit` stands for.
    pub open spec fn on(self, bit: u32) -> bool {
        self.local_want & self.peer_want & bit != 0
    }

    /// Whether both sides want what `bit` stands for.
    pub fn enforced(&self, bit: u32) -> (on: bool)
        ensures
            on == self.on(bit),
    {
        self.local_want & self.peer_want & bit != 0
    }

    pub fn attachments(&self) -> (on: bool)
        ensures
            on == self.on(FLAG_WANT_ATTACH),
    {
        self.enforced(FLAG_WANT_ATTACH)
    }

    pub fn emoji(&self) -> (on: bool)
        ensures
            on == self.on(FLAG_WANT_EMOJI),
    {
        self.enforced(FLAG_WANT_EMOJI)
    }

    pub fn presence(&self) -> (on: bool)
        ensures
            on == self.on(FLAG_WANT_PRESENCE),
    {
        self.enforced(FLAG_WANT_PRESENCE)
    }

    pub fn typing(&self) -> (on: bool)
        ensures
            on == self.on(FLAG_WANT_TYPING),
    {
        self.enforced(FLAG_WANT_TYPING)
    }

    pub fn receipts(&self) -> (on: bool)
        ensures
            on == self.on(FLAG_WANT_RECEIPTS),
    {
        self.enforced(FLAG_WANT_RECEIPTS)
    }

    /// When a message of time `floor` is over under the agreed lifetime.
    pub open spec fn over_at(self, floor: u64) -> Option<u64> {
        if self.ttl_sec == TTL_NEVER {
            None
        } else {
            Some((floor + self.ttl_sec) as u64)
        }
    }

    /// When a message of time `floor` expires under the agreed lifetime;
    /// `None` where it never does.
    pub fn expiry_at(&self, floor: u64) -> (at: Option<u64>)
        requires
            floor + self.ttl_sec <= u64::MAX,
        ensures
            at == self.over_at(floor),
    {
        if self.ttl_sec == TTL_NEVER {
            None
        } else {
            Some(floor + self.ttl_sec as u64)
        }
    }
}

/// A capability is on only if both sides want it.
pub proof fn both_must_want(s: PolicyState, bit: u32)
    requires
        s.on(bit),
    ensures
        s.local_want & bit != 0,
        s.peer_want & bit != 0,
{
    let l = s.local_want;
    let p = s.peer_want;
    assert(l & p & bit != 0 ==> l & bit != 0 && p & bit != 0) by (bit_vector);
}

/// A capability is on exactly if both sides want it.
pub proof fn what_both_want_is_on(s: PolicyState)
    ensures
        s.on(FLAG_WANT_ATTACH) <==> s.local_want & FLAG_WANT_ATTACH != 0 && s.peer_want
            & FLAG_WANT_ATTACH != 0,
        s.on(FLAG_WANT_EMOJI) <==> s.local_want & FLAG_WANT_EMOJI != 0 && s.peer_want
            & FLAG_WANT_EMOJI != 0,
        s.on(FLAG_WANT_PRESENCE) <==> s.local_want & FLAG_WANT_PRESENCE != 0 && s.peer_want
            & FLAG_WANT_PRESENCE != 0,
        s.on(FLAG_WANT_TYPING) <==> s.local_want & FLAG_WANT_TYPING != 0 && s.peer_want
            & FLAG_WANT_TYPING != 0,
        s.on(FLAG_WANT_RECEIPTS) <==> s.local_want & FLAG_WANT_RECEIPTS != 0 && s.peer_want
            & FLAG_WANT_RECEIPTS != 0,
{
    let l = s.local_want;
    let p = s.peer_want;
    assert(l & p & 1 != 0 <==> l & 1 != 0 && p & 1 != 0) by (bit_vector);
    assert(l & p & 2 != 0 <==> l & 2 != 0 && p & 2 != 0) by (bit_vector);
    assert(l & p & 4 != 0 <==> l & 4 != 0 && p & 4 != 0) by (bit_vector);
    assert(l & p & 8 != 0 <==> l & 8 != 0 && p & 8 != 0) by (bit_vector);
    assert(l & p & 16 != 0 <==> l & 16 != 0 && p & 16 != 0) by (bit_vector);
}

/// A message lives for the agreed lifetime, and for ever where that is zero. A
/// later message is over as much later.
pub proof fn messages_live_for_the_agreed_time(s: PolicyState, floor: u64, later: u64)
    requires
        floor <= later,
        later + s.ttl_sec <= u64::MAX,
    ensures
        s.ttl_sec == 0 <==> s.over_at(floor) is None,
        s.over_at(floor) matches Some(at) ==> at == floor + s.ttl_sec,
        s.ttl_sec != 0 ==> s.over_at(later)->0 - s.over_at(floor)->0 == later - floor,
{
}

} // verus!
