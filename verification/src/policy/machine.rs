//! The policy machine: state in, state and effects out.
//!
//! Whatever the operation, it carries what its sender wants.

use vstd::prelude::*;

use crate::bytes::same_bytes;
use crate::policy::{PendingProposal, PolicyState, WANT_ALL};
use crate::wire::policy::{
    self, cap_bit, is_allowed_ttl, ChatPolicy, FLAG_WANT_ATTACH, FLAG_WANT_EMOJI,
    FLAG_WANT_PRESENCE, FLAG_WANT_RECEIPTS, FLAG_WANT_TYPING, OP_CAP_SET, OP_RULE_ACCEPT,
    OP_RULE_PROPOSE, OP_SYNC, TTL_NEVER,
};

verus! {

/// What the caller has to do after a transition.
#[derive(Clone, Copy, Debug, PartialEq, Eq, Structural)]
pub struct ApplyOutcome {
    /// The agreed rules or an enforced capability changed.
    pub changed: bool,
    /// The lifetime shrank: no live message may outlast this instant.
    pub clamp_expiry_to: Option<u64>,
    /// Attachments went off: erase them.
    pub erase_attachments: bool,
}

/// Nothing to do.
pub open spec fn no_outcome() -> ApplyOutcome {
    ApplyOutcome { changed: false, clamp_expiry_to: None, erase_attachments: false }
}

impl Default for ApplyOutcome {
    fn default() -> (o: ApplyOutcome)
        ensures
            o == no_outcome(),
    {
        ApplyOutcome { changed: false, clamp_expiry_to: None, erase_attachments: false }
    }
}

/// The want bits that a payload carries.
pub open spec fn wants_of(p: ChatPolicy) -> u32 {
    (if p.want_attach {
        FLAG_WANT_ATTACH
    } else {
        0
    }) | (if p.want_emoji {
        FLAG_WANT_EMOJI
    } else {
        0
    }) | (if p.want_presence {
        FLAG_WANT_PRESENCE
    } else {
        0
    }) | (if p.want_typing {
        FLAG_WANT_TYPING
    } else {
        0
    }) | (if p.want_receipts {
        FLAG_WANT_RECEIPTS
    } else {
        0
    })
}

fn wants(p: &ChatPolicy) -> (w: u32)
    ensures
        w == wants_of(*p),
{
    let attach: u32 = if p.want_attach {
        FLAG_WANT_ATTACH
    } else {
        0
    };
    let emoji: u32 = if p.want_emoji {
        FLAG_WANT_EMOJI
    } else {
        0
    };
    let presence: u32 = if p.want_presence {
        FLAG_WANT_PRESENCE
    } else {
        0
    };
    let typing: u32 = if p.want_typing {
        FLAG_WANT_TYPING
    } else {
        0
    };
    let receipts: u32 = if p.want_receipts {
        FLAG_WANT_RECEIPTS
    } else {
        0
    };
    attach | emoji | presence | typing | receipts
}

/// A payload that carries the rules and the wants of `s`.
pub open spec fn carries(
    p: ChatPolicy,
    op: u8,
    s: PolicyState,
    cap_id: u8,
    cap_on: bool,
    propose_id: Seq<u8>,
) -> bool {
    &&& p.op == op
    &&& p.ttl_sec == s.ttl_sec
    &&& p.screenshot == s.screenshot
    &&& p.attach_download == s.attach_download
    &&& p.want_attach == (s.local_want & FLAG_WANT_ATTACH != 0)
    &&& p.want_emoji == (s.local_want & FLAG_WANT_EMOJI != 0)
    &&& p.want_presence == (s.local_want & FLAG_WANT_PRESENCE != 0)
    &&& p.want_typing == (s.local_want & FLAG_WANT_TYPING != 0)
    &&& p.want_receipts == (s.local_want & FLAG_WANT_RECEIPTS != 0)
    &&& p.cap_id == cap_id
    &&& p.cap_on == cap_on
    &&& p.propose_id@ == propose_id
}

/// The id of no proposal.
pub open spec fn no_id() -> Seq<u8> {
    Seq::new(16, |i: int| 0u8)
}

fn payload(op: u8, state: &PolicyState, cap_id: u8, cap_on: bool, propose_id: [u8; 16]) -> (p:
    ChatPolicy)
    ensures
        carries(p, op, *state, cap_id, cap_on, propose_id@),
{
    ChatPolicy {
        op,
        ttl_sec: state.ttl_sec,
        screenshot: state.screenshot,
        attach_download: state.attach_download,
        want_attach: state.local_want & FLAG_WANT_ATTACH != 0,
        want_emoji: state.local_want & FLAG_WANT_EMOJI != 0,
        want_presence: state.local_want & FLAG_WANT_PRESENCE != 0,
        want_typing: state.local_want & FLAG_WANT_TYPING != 0,
        want_receipts: state.local_want & FLAG_WANT_RECEIPTS != 0,
        cap_id,
        cap_on,
        propose_id,
    }
}

/// Whether lifetime `ttl` is shorter than `prev`.
pub open spec fn shrinks(prev: u32, ttl: u32) -> bool {
    ttl != TTL_NEVER && (prev == TTL_NEVER || ttl < prev)
}

/// The state under agreed rules. No proposal is left open.
pub open spec fn with_rules(s: PolicyState, ttl: u32, screenshot: bool, download: bool) -> PolicyState {
    PolicyState {
        ttl_sec: ttl,
        screenshot,
        attach_download: download,
        pending: None,
        ..s
    }
}

/// What agreed rules ask for: a shorter lifetime clamps live messages.
pub open spec fn rules_outcome(
    s: PolicyState,
    ttl: u32,
    screenshot: bool,
    download: bool,
    now: u64,
) -> ApplyOutcome {
    ApplyOutcome {
        changed: ttl != s.ttl_sec || screenshot != s.screenshot || download != s.attach_download,
        clamp_expiry_to: if shrinks(s.ttl_sec, ttl) {
            Some((now + ttl) as u64)
        } else {
            None
        },
        erase_attachments: false,
    }
}

/// Whether the clock has room for the lifetime that live messages are clamped
/// to, if they are.
pub open spec fn clamp_fits(s: PolicyState, ttl: u32, now: u64) -> bool {
    shrinks(s.ttl_sec, ttl) ==> now + ttl <= u64::MAX
}

/// Applies agreed rules.
pub fn apply_rules(
    state: PolicyState,
    ttl_sec: u32,
    screenshot: bool,
    attach_download: bool,
    now: u64,
) -> (r: (PolicyState, ApplyOutcome))
    requires
        clamp_fits(state, ttl_sec, now),
    ensures
        r.0 == with_rules(state, ttl_sec, screenshot, attach_download),
        r.1 == rules_outcome(state, ttl_sec, screenshot, attach_download, now),
{
    let prev_ttl: u32 = state.ttl_sec;
    let mut next: PolicyState = state;
    next.ttl_sec = ttl_sec;
    next.screenshot = screenshot;
    next.attach_download = attach_download;
    next.pending = None;
    let clamp: Option<u64> = if ttl_sec != TTL_NEVER && (prev_ttl == TTL_NEVER || ttl_sec
        < prev_ttl) {
        Some(now + ttl_sec as u64)
    } else {
        None
    };
    let changed: bool = ttl_sec != prev_ttl || screenshot != state.screenshot || attach_download
        != state.attach_download;
    (next, ApplyOutcome { changed, clamp_expiry_to: clamp, erase_attachments: false })
}

// ---------------------------------------------------------------------------
// Inbound

/// The proposal that a payload makes to its receiver. Its id is the
/// payload's, or the envelope's where the payload has none.
pub open spec fn proposed(parsed: ChatPolicy, msg_id: [u8; 16]) -> PendingProposal {
    PendingProposal {
        ttl_sec: parsed.ttl_sec,
        screenshot: parsed.screenshot,
        attach_download: parsed.attach_download,
        inbound: true,
        propose_id: if parsed.propose_id@ == no_id() {
            msg_id
        } else {
            parsed.propose_id
        },
    }
}

/// A proposal of the peer: it waits for an answer, in place of any other.
pub fn apply_propose(state: PolicyState, parsed: &ChatPolicy, msg_id: [u8; 16]) -> (next: PolicyState)
    ensures
        next == (PolicyState { pending: Some(proposed(*parsed, msg_id)), ..state }),
{
    let zero: [u8; 16] = [0u8; 16];
    assert(zero@ =~= no_id());
    let propose_id: [u8; 16] = if same_bytes(&parsed.propose_id, &zero) {
        msg_id
    } else {
        parsed.propose_id
    };
    let mut next: PolicyState = state;
    next.pending = Some(
        PendingProposal {
            ttl_sec: parsed.ttl_sec,
            screenshot: parsed.screenshot,
            attach_download: parsed.attach_download,
            inbound: true,
            propose_id,
        },
    );
    next
}

/// Whether an acceptance answers this side's own open proposal.
pub open spec fn answers(s: PolicyState, parsed: ChatPolicy) -> bool {
    s.pending matches Some(p) && !p.inbound && p.propose_id@ == parsed.propose_id@
}

/// An acceptance of the peer: the rules are those of this side's own open
/// proposal, if the ids match. `None` for a stale or forged one.
pub fn apply_accept(state: PolicyState, parsed: &ChatPolicy, now: u64) -> (r: Option<
    (PolicyState, ApplyOutcome),
>)
    requires
        answers(state, *parsed) ==> clamp_fits(state, state.pending->0.ttl_sec, now),
    ensures
        match r {
            Some((next, outcome)) => {
                &&& answers(state, *parsed)
                &&& next == with_rules(
                    state,
                    state.pending->0.ttl_sec,
                    state.pending->0.screenshot,
                    state.pending->0.attach_download,
                )
                &&& outcome == rules_outcome(
                    state,
                    state.pending->0.ttl_sec,
                    state.pending->0.screenshot,
                    state.pending->0.attach_download,
                    now,
                )
            },
            None => !answers(state, *parsed),
        },
{
    let pending: PendingProposal = match state.pending {
        Some(p) => p,
        None => {
            return None;
        },
    };
    if pending.inbound || !same_bytes(&pending.propose_id, &parsed.propose_id) {
        return None;
    }
    Some(
        apply_rules(
            state,
            pending.ttl_sec,
            pending.screenshot,
            pending.attach_download,
            now,
        ),
    )
}

/// The state after the peer set a capability: off clears both wants, on sets
/// only theirs.
pub open spec fn peer_set(s: PolicyState, bit: u32, on: bool) -> PolicyState {
    if bit == 0 {
        s
    } else if on {
        PolicyState { peer_want: s.peer_want | bit, ..s }
    } else {
        PolicyState { local_want: s.local_want & !bit, peer_want: s.peer_want & !bit, ..s }
    }
}

/// The state after this side set a capability: off clears both wants, on
/// sets only its own.
pub open spec fn local_set(s: PolicyState, bit: u32, on: bool) -> PolicyState {
    if on {
        PolicyState { local_want: s.local_want | bit, ..s }
    } else {
        PolicyState { local_want: s.local_want & !bit, peer_want: s.peer_want & !bit, ..s }
    }
}

/// What setting a capability asks for: turning attachments off erases them,
/// if they were on.
pub open spec fn cap_outcome(before: PolicyState, after: PolicyState, bit: u32, on: bool) -> ApplyOutcome {
    ApplyOutcome {
        changed: before.on(bit) != after.on(bit),
        clamp_expiry_to: None,
        erase_attachments: !on && bit == FLAG_WANT_ATTACH && before.on(bit),
    }
}

/// The peer sets a capability. An unknown one is ignored.
pub fn apply_cap_set(state: &PolicyState, cap_id: u8, on: bool) -> (r: (PolicyState, ApplyOutcome))
    ensures
        r.0 == peer_set(*state, policy::bit_of(cap_id), on),
        r.1 == (if policy::bit_of(cap_id) == 0 {
            no_outcome()
        } else {
            cap_outcome(*state, r.0, policy::bit_of(cap_id), on)
        }),
{
    let bit: u32 = cap_bit(cap_id);
    if bit == 0 {
        return (*state, ApplyOutcome::default());
    }
    let before: bool = state.enforced(bit);
    let mut next: PolicyState = *state;
    if on {
        next.peer_want = next.peer_want | bit;
    } else {
        next.local_want = next.local_want & !bit;
        next.peer_want = next.peer_want & !bit;
    }
    let after: bool = next.enforced(bit);
    (
        next,
        ApplyOutcome {
            changed: before != after,
            clamp_expiry_to: None,
            erase_attachments: !on && bit == FLAG_WANT_ATTACH && before,
        },
    )
}

/// What taking over the peer's wants asks for.
pub open spec fn sync_outcome(before: PolicyState, after: PolicyState) -> ApplyOutcome {
    ApplyOutcome {
        changed: before.local_want & before.peer_want & WANT_ALL != after.local_want
            & after.peer_want & WANT_ALL,
        clamp_expiry_to: None,
        erase_attachments: before.on(FLAG_WANT_ATTACH) && !after.on(FLAG_WANT_ATTACH),
    }
}

/// The peer advertises its wants: they replace what was known of them.
pub fn apply_sync(state: &PolicyState, parsed: &ChatPolicy) -> (r: (PolicyState, ApplyOutcome))
    ensures
        r.0 == (PolicyState { peer_want: wants_of(*parsed), ..*state }),
        r.1 == sync_outcome(*state, r.0),
{
    let before_attach: bool = state.attachments();
    let mut next: PolicyState = *state;
    next.peer_want = wants(parsed);
    let after_attach: bool = next.attachments();
    (
        next,
        ApplyOutcome {
            changed: state.local_want & state.peer_want & WANT_ALL != next.local_want
                & next.peer_want & WANT_ALL,
            clamp_expiry_to: None,
            erase_attachments: before_attach && !after_attach,
        },
    )
}

// ---------------------------------------------------------------------------
// Outbound

/// Proposes rules. The payload carries the rules proposed, not those in
/// force. `None` for a lifetime that cannot be agreed on.
pub fn build_propose(
    state: PolicyState,
    ttl_sec: u32,
    screenshot: bool,
    attach_download: bool,
    propose_id: [u8; 16],
) -> (r: Option<(PolicyState, ChatPolicy)>)
    ensures
        match r {
            Some((next, p)) => {
                &&& policy::allowed_ttl(ttl_sec)
                &&& next == (PolicyState {
                    pending: Some(
                        PendingProposal {
                            ttl_sec,
                            screenshot,
                            attach_download,
                            inbound: false,
                            propose_id,
                        },
                    ),
                    ..state
                })
                &&& carries(
                    p,
                    OP_RULE_PROPOSE,
                    with_rules(state, ttl_sec, screenshot, attach_download),
                    0,
                    false,
                    propose_id@,
                )
            },
            None => !policy::allowed_ttl(ttl_sec),
        },
{
    if !is_allowed_ttl(ttl_sec) {
        return None;
    }
    let mut next: PolicyState = state;
    next.pending = Some(
        PendingProposal { ttl_sec, screenshot, attach_download, inbound: false, propose_id },
    );
    let mut p: ChatPolicy = payload(OP_RULE_PROPOSE, &next, 0, false, propose_id);
    p.ttl_sec = ttl_sec;
    p.screenshot = screenshot;
    p.attach_download = attach_download;
    Some((next, p))
}

/// Accepts the peer's open proposal. `None` where there is none.
pub fn build_accept(state: PolicyState, now: u64) -> (r: Option<
    (PolicyState, ChatPolicy, ApplyOutcome),
>)
    requires
        state.pending matches Some(p) ==> p.inbound ==> clamp_fits(state, p.ttl_sec, now),
    ensures
        match r {
            Some((next, p, outcome)) => {
                &&& state.pending is Some
                &&& state.pending->0.inbound
                &&& next == with_rules(
                    state,
                    state.pending->0.ttl_sec,
                    state.pending->0.screenshot,
                    state.pending->0.attach_download,
                )
                &&& outcome == rules_outcome(
                    state,
                    state.pending->0.ttl_sec,
                    state.pending->0.screenshot,
                    state.pending->0.attach_download,
                    now,
                )
                &&& carries(p, OP_RULE_ACCEPT, next, 0, false, state.pending->0.propose_id@)
            },
            None => state.pending is None || !state.pending->0.inbound,
        },
{
    let pending: PendingProposal = match state.pending {
        Some(p) => p,
        None => {
            return None;
        },
    };
    if !pending.inbound {
        return None;
    }
    let (next, outcome) = apply_rules(
        state,
        pending.ttl_sec,
        pending.screenshot,
        pending.attach_download,
        now,
    );
    let p: ChatPolicy = payload(OP_RULE_ACCEPT, &next, 0, false, pending.propose_id);
    Some((next, p, outcome))
}

/// Sets a capability on this side. `None` for an unknown one, and where this
/// side already wants it so.
pub fn build_cap_set(state: &PolicyState, cap_id: u8, on: bool) -> (r: Option<
    (PolicyState, ChatPolicy, ApplyOutcome),
>)
    ensures
        match r {
            Some((next, p, outcome)) => {
                &&& policy::bit_of(cap_id) != 0
                &&& on != (state.local_want & policy::bit_of(cap_id) != 0)
                &&& next == local_set(*state, policy::bit_of(cap_id), on)
                &&& carries(p, OP_CAP_SET, next, cap_id, on, no_id())
                &&& outcome == cap_outcome(*state, next, policy::bit_of(cap_id), on)
            },
            None => policy::bit_of(cap_id) == 0 || on == (state.local_want & policy::bit_of(cap_id) != 0),
        },
{
    let bit: u32 = cap_bit(cap_id);
    if bit == 0 {
        return None;
    }
    let have: bool = state.local_want & bit != 0;
    if on == have {
        return None;
    }
    let before: bool = state.enforced(bit);
    let mut next: PolicyState = *state;
    if on {
        next.local_want = next.local_want | bit;
    } else {
        next.local_want = next.local_want & !bit;
        next.peer_want = next.peer_want & !bit;
    }
    let after: bool = next.enforced(bit);
    let zero: [u8; 16] = [0u8; 16];
    assert(zero@ =~= no_id());
    let p: ChatPolicy = payload(OP_CAP_SET, &next, cap_id, on, zero);
    Some(
        (
            next,
            p,
            ApplyOutcome {
                changed: before != after,
                clamp_expiry_to: None,
                erase_attachments: !on && bit == FLAG_WANT_ATTACH && before,
            },
        ),
    )
}

/// Advertises this side's wants.
pub fn build_sync(state: PolicyState, now: u64) -> (r: (PolicyState, ChatPolicy))
    ensures
        r.0 == (PolicyState { last_sync_at: now, ..state }),
        carries(r.1, OP_SYNC, r.0, 0, false, no_id()),
{
    let mut next: PolicyState = state;
    next.last_sync_at = now;
    let zero: [u8; 16] = [0u8; 16];
    assert(zero@ =~= no_id());
    let p: ChatPolicy = payload(OP_SYNC, &next, 0, false, zero);
    (next, p)
}

// ---------------------------------------------------------------------------
// Laws

/// The states of the two sides of a chat agree on who wants what.
pub open spec fn mirrored(a: PolicyState, b: PolicyState) -> bool {
    a.local_want == b.peer_want && a.peer_want == b.local_want
}

/// One side suffices to turn a capability off: afterwards it is off, and all
/// others are as before.
pub proof fn one_to_disable(s: PolicyState, bit: u32, other: u32)
    requires
        other & bit == 0,
        bit != 0,
    ensures
        !peer_set(s, bit, false).on(bit),
        !local_set(s, bit, false).on(bit),
        peer_set(s, bit, false).on(other) == s.on(other),
        local_set(s, bit, false).on(other) == s.on(other),
{
    let l = s.local_want;
    let p = s.peer_want;
    assert((l & !bit) & (p & !bit) & bit == 0) by (bit_vector);
    assert(other & bit == 0 ==> (l & !bit) & (p & !bit) & other == l & p & other) by (bit_vector);
}

/// Both sides have to turn a capability on: the one that did it last finds
/// it on exactly if the other wants it too.
pub proof fn two_to_enable(s: PolicyState, bit: u32)
    requires
        bit != 0,
        exists|c: u8| #[trigger] policy::bit_of(c) == bit,
    ensures
        peer_set(s, bit, true).on(bit) == (s.local_want & bit != 0),
        local_set(s, bit, true).on(bit) == (s.peer_want & bit != 0),
{
    let l = s.local_want;
    let p = s.peer_want;
    assert(l & (p | bit) & bit == l & bit) by (bit_vector);
    assert((l | bit) & p & bit == p & bit) by (bit_vector);
}

/// What one side sets and the other applies leaves the two in agreement.
pub proof fn cap_set_keeps_agreement(a: PolicyState, b: PolicyState, cap_id: u8, on: bool)
    requires
        mirrored(a, b),
        policy::bit_of(cap_id) != 0,
    ensures
        mirrored(local_set(a, policy::bit_of(cap_id), on), peer_set(b, policy::bit_of(cap_id), on)),
{
}

/// Turning off again what is off erases nothing and changes nothing.
pub proof fn disabling_twice_erases_once(s: PolicyState, cap_id: u8)
    requires
        policy::bit_of(cap_id) != 0,
    ensures
        ({
            let bit = policy::bit_of(cap_id);
            let off = peer_set(s, bit, false);
            cap_outcome(off, peer_set(off, bit, false), bit, false) == no_outcome()
        }),
{
    let bit = policy::bit_of(cap_id);
    let l = s.local_want;
    let p = s.peer_want;
    assert((l & !bit) & (p & !bit) & bit == 0) by (bit_vector);
    assert((l & !bit & !bit) & (p & !bit & !bit) & bit == 0) by (bit_vector);
}

/// A proposal that the peer accepts leaves both sides with the same rules
/// and nothing open, and both clamp alike if they had the same lifetime.
pub proof fn accepted_proposal_is_agreed(
    a: PolicyState,
    b: PolicyState,
    ttl: u32,
    screenshot: bool,
    download: bool,
    id: [u8; 16],
    msg_id: [u8; 16],
    offer: ChatPolicy,
    accept: ChatPolicy,
    now: u64,
)
    requires
        a.ttl_sec == b.ttl_sec,
        id@ != no_id() || msg_id@ == id@,
        carries(offer, OP_RULE_PROPOSE, with_rules(a, ttl, screenshot, download), 0, false, id@),
        ({
            let waiting = PolicyState { pending: Some(proposed(offer, msg_id)), ..b };
            let agreed = with_rules(waiting, ttl, screenshot, download);
            carries(accept, OP_RULE_ACCEPT, agreed, 0, false, proposed(offer, msg_id).propose_id@)
        }),
    ensures
        ({
            let asked = PolicyState {
                pending: Some(
                    PendingProposal {
                        ttl_sec: ttl,
                        screenshot,
                        attach_download: download,
                        inbound: false,
                        propose_id: id,
                    },
                ),
                ..a
            };
            let waiting = PolicyState { pending: Some(proposed(offer, msg_id)), ..b };
            let ours = with_rules(asked, ttl, screenshot, download);
            let theirs = with_rules(
                waiting,
                waiting.pending->0.ttl_sec,
                waiting.pending->0.screenshot,
                waiting.pending->0.attach_download,
            );
            &&& answers(asked, accept)
            &&& waiting.pending->0.inbound
            &&& ours.ttl_sec == theirs.ttl_sec == ttl
            &&& ours.screenshot == screenshot && theirs.screenshot == screenshot
            &&& ours.attach_download == download && theirs.attach_download == download
            &&& ours.pending is None
            &&& theirs.pending is None
            &&& rules_outcome(asked, ttl, screenshot, download, now).clamp_expiry_to
                == rules_outcome(waiting, ttl, screenshot, download, now).clamp_expiry_to
        }),
{
}

/// Nothing but an acceptance of this side's own open proposal changes the
/// rules: without one, or with another id, an acceptance is dropped.
pub proof fn forged_accepts_are_dropped(s: PolicyState, accept: ChatPolicy)
    ensures
        s.pending is None ==> !answers(s, accept),
        s.pending matches Some(p) && p.inbound ==> !answers(s, accept),
        s.pending matches Some(p) && p.propose_id@ != accept.propose_id@ ==> !answers(s, accept),
{
}

/// Live messages are clamped exactly where the lifetime shrinks, and then to
/// the new lifetime from now.
pub proof fn clamps_only_on_shrink(
    s: PolicyState,
    ttl: u32,
    screenshot: bool,
    download: bool,
    now: u64,
)
    requires
        clamp_fits(s, ttl, now),
    ensures
        ({
            let clamp = rules_outcome(s, ttl, screenshot, download, now).clamp_expiry_to;
            &&& clamp is Some <==> (ttl != TTL_NEVER && (s.ttl_sec == TTL_NEVER || ttl < s.ttl_sec))
            &&& clamp matches Some(at) ==> at == now + ttl
        }),
{
}

/// An outcome reports a change of rules exactly where the rules differ.
pub proof fn agreeing_again_changes_nothing(
    s: PolicyState,
    ttl: u32,
    screenshot: bool,
    download: bool,
    now: u64,
)
    ensures
        ({
            let next = with_rules(s, ttl, screenshot, download);
            rules_outcome(s, ttl, screenshot, download, now).changed <==> (s.ttl_sec, s.screenshot,
                s.attach_download) != (next.ttl_sec, next.screenshot, next.attach_download)
        }),
        rules_outcome(s, s.ttl_sec, s.screenshot, s.attach_download, now) == no_outcome(),
{
}

/// An advertisement hands over exactly the wants of its sender that this
/// build knows, and repeating it changes nothing.
pub proof fn sync_hands_over_wants(a: PolicyState, b: PolicyState, p: ChatPolicy)
    requires
        carries(p, OP_SYNC, a, 0, false, no_id()),
    ensures
        wants_of(p) == a.local_want & WANT_ALL,
        ({
            let synced = PolicyState { peer_want: wants_of(p), ..b };
            sync_outcome(synced, PolicyState { peer_want: wants_of(p), ..synced }) == no_outcome()
        }),
{
    let w = a.local_want;
    assert((if w & 1 != 0 {
        1u32
    } else {
        0
    }) | (if w & 2 != 0 {
        2u32
    } else {
        0
    }) | (if w & 4 != 0 {
        4u32
    } else {
        0
    }) | (if w & 8 != 0 {
        8u32
    } else {
        0
    }) | (if w & 16 != 0 {
        16u32
    } else {
        0
    }) == w & 31) by (bit_vector);
}

/// A payload says of each capability by name whether its sender wants it, and is
/// read so.
pub proof fn wants_travel_by_name(
    p: ChatPolicy,
    op: u8,
    s: PolicyState,
    cap_id: u8,
    cap_on: bool,
    id: Seq<u8>,
)
    ensures
        carries(p, op, s, cap_id, cap_on, id) ==> {
            &&& p.want_attach <==> s.local_want & FLAG_WANT_ATTACH != 0
            &&& p.want_emoji <==> s.local_want & FLAG_WANT_EMOJI != 0
            &&& p.want_presence <==> s.local_want & FLAG_WANT_PRESENCE != 0
            &&& p.want_typing <==> s.local_want & FLAG_WANT_TYPING != 0
            &&& p.want_receipts <==> s.local_want & FLAG_WANT_RECEIPTS != 0
            &&& (p.op, p.cap_id, p.cap_on, p.propose_id@) == (op, cap_id, cap_on, id)
            &&& (p.ttl_sec, p.screenshot, p.attach_download) == (
                s.ttl_sec,
                s.screenshot,
                s.attach_download,
            )
        },
        wants_of(p) & FLAG_WANT_ATTACH != 0 <==> p.want_attach,
        wants_of(p) & FLAG_WANT_EMOJI != 0 <==> p.want_emoji,
        wants_of(p) & FLAG_WANT_PRESENCE != 0 <==> p.want_presence,
        wants_of(p) & FLAG_WANT_TYPING != 0 <==> p.want_typing,
        wants_of(p) & FLAG_WANT_RECEIPTS != 0 <==> p.want_receipts,
        wants_of(p) & !WANT_ALL == 0,
{
    let (a, b, c, d, e) = (
        p.want_attach,
        p.want_emoji,
        p.want_presence,
        p.want_typing,
        p.want_receipts,
    );
    let x1: u32 = if a {
        1
    } else {
        0
    };
    let x2: u32 = if b {
        2
    } else {
        0
    };
    let x3: u32 = if c {
        4
    } else {
        0
    };
    let x4: u32 = if d {
        8
    } else {
        0
    };
    let x5: u32 = if e {
        16
    } else {
        0
    };
    let w = x1 | x2 | x3 | x4 | x5;
    assert(wants_of(p) == w);
    assert((w & 1 != 0 <==> x1 != 0) && (w & 2 != 0 <==> x2 != 0) && (w & 4 != 0 <==> x3 != 0) && (w
        & 8 != 0 <==> x4 != 0) && (w & 16 != 0 <==> x5 != 0) && w & !31 == 0) by (bit_vector)
        requires
            w == x1 | x2 | x3 | x4 | x5,
            x1 == 0 || x1 == 1,
            x2 == 0 || x2 == 2,
            x3 == 0 || x3 == 4,
            x4 == 0 || x4 == 8,
            x5 == 0 || x5 == 16,
    ;
}

/// Setting a capability touches no other: every other want of either side, the
/// rules and what is open stay as they are. Turning it on changes the want of the
/// side that does so alone.
pub proof fn setting_one_touches_no_other(s: PolicyState, bit: u32, on: bool, other: u32)
    requires
        other & bit == 0,
        bit != 0,
    ensures
        local_set(s, bit, on).local_want & other == s.local_want & other,
        local_set(s, bit, on).peer_want & other == s.peer_want & other,
        peer_set(s, bit, on).local_want & other == s.local_want & other,
        peer_set(s, bit, on).peer_want & other == s.peer_want & other,
        on ==> local_set(s, bit, on).peer_want == s.peer_want,
        on ==> peer_set(s, bit, on).local_want == s.local_want,
        (PolicyState {
            local_want: s.local_want,
            peer_want: s.peer_want,
            ..local_set(s, bit, on)
        }) == s,
        (PolicyState { local_want: s.local_want, peer_want: s.peer_want, ..peer_set(s, bit, on) })
            == s,
{
    let l = s.local_want;
    let p = s.peer_want;
    assert(other & bit == 0 ==> (l & !bit) & other == l & other) by (bit_vector);
    assert(other & bit == 0 ==> (p & !bit) & other == p & other) by (bit_vector);
    assert(other & bit == 0 ==> (l | bit) & other == l & other) by (bit_vector);
    assert(other & bit == 0 ==> (p | bit) & other == p & other) by (bit_vector);
}

/// Attachments are erased exactly when they were on and go off, whoever turns
/// them off; nothing else that is agreed on erases any.
pub proof fn attachments_are_erased_when_they_go_off(
    s: PolicyState,
    on: bool,
    next: PolicyState,
    ttl: u32,
    screenshot: bool,
    download: bool,
    now: u64,
    bit: u32,
)
    ensures
        cap_outcome(s, next, FLAG_WANT_ATTACH, on).erase_attachments <==> !on && s.local_want
            & FLAG_WANT_ATTACH != 0 && s.peer_want & FLAG_WANT_ATTACH != 0,
        bit != FLAG_WANT_ATTACH ==> !cap_outcome(s, next, bit, on).erase_attachments,
        cap_outcome(s, next, bit, on).clamp_expiry_to is None,
        sync_outcome(s, next).erase_attachments <==> s.local_want & FLAG_WANT_ATTACH != 0
            && s.peer_want & FLAG_WANT_ATTACH != 0 && !(next.local_want & FLAG_WANT_ATTACH != 0
            && next.peer_want & FLAG_WANT_ATTACH != 0),
        sync_outcome(s, next).clamp_expiry_to is None,
        !rules_outcome(s, ttl, screenshot, download, now).erase_attachments,
{
    crate::policy::what_both_want_is_on(s);
    crate::policy::what_both_want_is_on(next);
}

} // verus!
