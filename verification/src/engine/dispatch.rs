//! What an admitted envelope does, by its type: the effects on the store and
//! on the wire, in order, and the events for the client.

use vstd::prelude::*;

use crate::bytes;
use crate::engine::{Engine, EngineEvent, EventView};
use crate::engine::inbound::{self, EnvelopeHead, InboundFacts};
use crate::messages::MAX_BODY_BYTES;
use crate::messages::delete;
use crate::messages::edit::{self, edit_decision, EditDecision};
use crate::pairing::ingest::{self, read_time, time_setting};
use crate::policy::{PolicyState, SYNC_REPLY_MIN_SEC};
use crate::policy::machine::{
    self, apply_accept, apply_cap_set, apply_propose, apply_sync, build_sync, ApplyOutcome,
};
use crate::presence::{self, PeerPresence, Presence};
use crate::ratelimit::{DropCounts, Surface};
use crate::store::MessageRow;
use crate::wire::policy::{
    self, is_allowed_ttl, ChatPolicy, FLAG_WANT_PRESENCE, FLAG_WANT_RECEIPTS, FLAG_WANT_TYPING,
    OP_CAP_SET, OP_RULE_ACCEPT, OP_RULE_PROPOSE, OP_SYNC,
};

verus! {

/// Time between two resync requests to one peer.
pub const RESYNC_REQ_MIN_SECS: u64 = 10;

/// What an envelope carries, as far as the decision reads it, with what the
/// store holds of it once the envelope is in the ledger.
#[derive(Clone, Copy, Debug)]
pub enum Content<'a> {
    Msg,
    Edit {
        body_bytes: usize,
        target: Option<&'a MessageRow>,
        tombstoned: bool,
        history_cut: u64,
    },
    /// `marks` if the target is a row that is not tombstoned yet.
    Delete { marks: bool },
    DeleteAll,
    ContactClose,
    ResyncReq { caps: u32, policy: PolicyState },
    AttachHead,
    AttachChunk,
    /// `changed` if the profile differs from the one on record.
    Profile { changed: bool },
    ProfileReq,
    Pref,
    Sticker,
    StickerCtrl,
    Presence { presence: Presence, policy: PolicyState },
    Typing { typing: bool, policy: PolicyState },
    /// `marks` if the target is a row that was not read yet.
    Read { marks: bool, policy: PolicyState },
    ChatPolicy { op: ChatPolicy, policy: PolicyState },
}

/// One thing to do.
#[derive(Clone, Copy, Debug)]
pub enum Effect {
    /// Fetch the inline emoji that the body names and that are not here.
    FetchEmoji,
    /// Replace the target's body.
    MarkEdited { target: [u8; 16], app_seq: u64 },
    /// Erase the attachments of the target.
    EraseAttachmentsOf([u8; 16]),
    AddTombstone([u8; 16]),
    MarkTombstoned([u8; 16]),
    /// Raise the history cut to this sequence number.
    RaiseCut(u64),
    /// Erase the history, keeping this message.
    EraseHistory([u8; 16]),
    /// Burn the relationship.
    Burn,
    /// Take over the caps that the peer advertises.
    NoteCaps(u32),
    /// Send again what the peer has not received.
    Retransmit,
    SavePolicy(PolicyState),
    /// No message may outlast this instant.
    ClampExpiry(u64),
    /// Erase every attachment.
    EraseAttachments,
    SendPolicy(ChatPolicy),
    /// Start or finish a transfer.
    AttachHead,
    AttachChunk,
    PutProfile,
    PutPrefs,
    Sticker,
    StickerCtrl,
    /// Note the peer's typing indicator.
    NoteTyping(bool),
    MarkRead([u8; 16]),
}

/// What to do, and what to say.
pub struct Dispatched {
    pub effects: Vec<Effect>,
    pub events: Vec<EngineEvent>,
}

/// What the events say.
pub open spec fn events_of(events: Seq<EngineEvent>) -> Seq<EventView> {
    events.map_values(|e: EngineEvent| e@)
}

impl Dispatched {
    /// Exactly these effects and events.
    pub open spec fn is(&self, effects: Seq<Effect>, events: Seq<EventView>) -> bool {
        self.effects@ == effects && events_of(self.events@) == events
    }

    fn of(effect: Effect, event: EngineEvent) -> (d: Dispatched)
        ensures
            d.is(seq![effect], seq![event@]),
    {
        let d: Dispatched = Dispatched { effects: vec![effect], events: vec![event] };
        assert(d.effects@ =~= seq![effect]);
        assert(events_of(d.events@) =~= seq![event@]);
        d
    }

    fn silent(effect: Effect) -> (d: Dispatched)
        ensures
            d.is(seq![effect], Seq::empty()),
    {
        let d: Dispatched = Dispatched { effects: vec![effect], events: Vec::new() };
        assert(d.effects@ =~= seq![effect]);
        assert(events_of(d.events@) =~= Seq::empty());
        d
    }

    fn event(event: EngineEvent) -> (d: Dispatched)
        ensures
            d.is(Seq::empty(), seq![event@]),
    {
        let d: Dispatched = Dispatched { effects: Vec::new(), events: vec![event] };
        assert(events_of(d.events@) =~= seq![event@]);
        d
    }

    fn nothing() -> (d: Dispatched)
        ensures
            d.is(Seq::empty(), Seq::empty()),
    {
        let d: Dispatched = Dispatched { effects: Vec::new(), events: Vec::new() };
        assert(events_of(d.events@) =~= Seq::empty());
        d
    }
}

// ---------------------------------------------------------------------------
// Messages

/// Whether an edit is taken.
pub open spec fn edits(
    env: EnvelopeHead,
    target: Option<MessageRow>,
    now: u64,
    body_bytes: usize,
    tombstoned: bool,
    history_cut: u64,
) -> bool {
    env.ref_id is Some && edit::edit_verdict(
        target,
        now,
        env.app_seq,
        body_bytes as nat,
        MAX_BODY_BYTES as nat,
        tombstoned,
        history_cut,
    ) == EditDecision::Apply
}

/// A row that is there or not.
pub open spec fn row_of(row: Option<&MessageRow>) -> Option<MessageRow> {
    match row {
        Some(row) => Some(*row),
        None => None,
    }
}

/// Decides on an edit: the message to edit, or `None` where the edit is
/// dropped. An edit without a target is malformed.
pub fn apply_edit(
    env: &EnvelopeHead,
    target: Option<&MessageRow>,
    now: u64,
    body_bytes: usize,
    tombstoned: bool,
    history_cut: u64,
) -> (edited: Option<[u8; 16]>)
    ensures
        edited == (if edits(*env, row_of(target), now, body_bytes, tombstoned, history_cut) {
            env.ref_id
        } else {
            None
        }),
{
    match env.ref_id {
        Some(id) => {
            let d: EditDecision = edit_decision(
                target,
                now,
                env.app_seq,
                body_bytes,
                MAX_BODY_BYTES,
                tombstoned,
                history_cut,
            );
            if d == EditDecision::Apply {
                Some(id)
            } else {
                None
            }
        },
        None => None,
    }
}

/// What a deletion does: the target's attachments go, it is tombstoned also
/// where it never arrived, so that a late copy is dropped, and the client is
/// told if the row was live. Without a target it does nothing.
pub open spec fn deletes(d: Dispatched, rel: Seq<char>, env: EnvelopeHead, marks: bool) -> bool {
    match env.ref_id {
        Some(id) => d.is(
            seq![
                Effect::EraseAttachmentsOf(id),
                Effect::AddTombstone(id),
                Effect::MarkTombstoned(id),
            ],
            if marks {
                seq![EventView::Deleted { rel_id: rel, msg_id: id@ }]
            } else {
                Seq::empty()
            },
        ),
        None => d.is(Seq::empty(), Seq::empty()),
    }
}

/// Decides on a deletion.
pub fn apply_delete(rel_id: &str, env: &EnvelopeHead, marks: bool) -> (d: Dispatched)
    ensures
        deletes(d, rel_id@, *env, marks),
{
    match env.ref_id {
        Some(id) => {
            let mut events: Vec<EngineEvent> = Vec::new();
            if marks {
                events.push(EngineEvent::Deleted { rel_id: rel_id.to_owned(), msg_id: id });
            }
            let d: Dispatched = Dispatched {
                effects: vec![
                    Effect::EraseAttachmentsOf(id),
                    Effect::AddTombstone(id),
                    Effect::MarkTombstoned(id),
                ],
                events,
            };
            assert(events_of(d.events@) =~= if marks {
                seq![EventView::Deleted { rel_id: rel_id@, msg_id: id@ }]
            } else {
                Seq::empty()
            });
            d
        },
        None => Dispatched::nothing(),
    }
}

// ---------------------------------------------------------------------------
// Policy

/// Whether a sync may be answered.
pub open spec fn sync_due(s: PolicyState, now: u64) -> bool {
    now >= s.last_sync_at + SYNC_REPLY_MIN_SEC
}

/// The answer to a resync request or a sync: the state to save and the
/// advertisement of this side's wants to send, at most one per interval.
pub fn sync_reply(state: PolicyState, now: u64) -> (r: Option<(PolicyState, ChatPolicy)>)
    ensures
        match r {
            Some((next, p)) => {
                &&& sync_due(state, now)
                &&& next == (PolicyState { last_sync_at: now, ..state })
                &&& machine::carries(
                    p,
                    OP_SYNC,
                    next,
                    0,
                    false,
                    machine::no_id(),
                )
            },
            None => !sync_due(state, now),
        },
{
    if now >= state.last_sync_at && now - state.last_sync_at >= SYNC_REPLY_MIN_SEC {
        Some(build_sync(state, now))
    } else {
        None
    }
}

/// The effects of an answer to a sync.
pub open spec fn replies(effects: Seq<Effect>, s: PolicyState, now: u64) -> bool {
    if sync_due(s, now) {
        let next = PolicyState { last_sync_at: now, ..s };
        &&& effects.len() == 2
        &&& effects[0] == Effect::SavePolicy(next)
        &&& effects[1] matches Effect::SendPolicy(p) && machine::carries(
            p,
            OP_SYNC,
            next,
            0,
            false,
            machine::no_id(),
        )
    } else {
        effects.len() == 0
    }
}

fn push_reply(effects: &mut Vec<Effect>, state: PolicyState, now: u64)
    ensures
        final(effects)@.len() >= old(effects)@.len(),
        final(effects)@.take(old(effects)@.len() as int) == old(effects)@,
        replies(final(effects)@.skip(old(effects)@.len() as int), state, now),
{
    match sync_reply(state, now) {
        Some((next, p)) => {
            effects.push(Effect::SavePolicy(next));
            effects.push(Effect::SendPolicy(p));
        },
        None => {},
    }
    assert(effects@.take(old(effects)@.len() as int) =~= old(effects)@);
}

/// The state after a policy operation of the peer, before any reply, and
/// what it asks for; `None` where the operation is dropped. A new proposal is
/// always shown to the client.
pub open spec fn policy_step(
    s: PolicyState,
    msg_id: [u8; 16],
    cp: ChatPolicy,
    now: u64,
) -> Option<(PolicyState, ApplyOutcome)> {
    if cp.op == OP_RULE_PROPOSE && !policy::allowed_ttl(cp.ttl_sec) {
        None
    } else if cp.op == OP_RULE_PROPOSE {
        Some(
            (
                PolicyState {
                    pending: Some(machine::proposed(cp, msg_id)),
                    ..s
                },
                ApplyOutcome { changed: true, clamp_expiry_to: None, erase_attachments: false },
            ),
        )
    } else if cp.op == OP_RULE_ACCEPT {
        if machine::answers(s, cp) {
            let p = s.pending->0;
            Some(
                (
                    machine::with_rules(
                        s,
                        p.ttl_sec,
                        p.screenshot,
                        p.attach_download,
                    ),
                    machine::rules_outcome(
                        s,
                        p.ttl_sec,
                        p.screenshot,
                        p.attach_download,
                        now,
                    ),
                ),
            )
        } else {
            None
        }
    } else if cp.op == OP_CAP_SET {
        let bit = policy::bit_of(cp.cap_id);
        let next = machine::peer_set(s, bit, cp.cap_on);
        Some(
            (
                next,
                if bit == 0 {
                    machine::no_outcome()
                } else {
                    machine::cap_outcome(s, next, bit, cp.cap_on)
                },
            ),
        )
    } else if cp.op == OP_SYNC {
        let next = PolicyState { peer_want: machine::wants_of(cp), ..s };
        Some((next, machine::sync_outcome(s, next)))
    } else {
        None
    }
}

/// Whether the agreed lifetime and the one under proposal are ones that two
/// sides can agree on.
pub open spec fn lifetimes_allowed(s: PolicyState) -> bool {
    &&& policy::allowed_ttl(s.ttl_sec)
    &&& s.pending matches Some(p) ==> policy::allowed_ttl(p.ttl_sec)
}

/// Whatever the peer sends, only an allowed lifetime is ever agreed on, and rules
/// change by no operation but the acceptance of this side's own proposal.
pub proof fn only_allowed_lifetimes_are_agreed(
    s: PolicyState,
    msg_id: [u8; 16],
    cp: ChatPolicy,
    now: u64,
)
    requires
        lifetimes_allowed(s),
    ensures
        policy_step(s, msg_id, cp, now) matches Some((next, _)) ==> {
            &&& lifetimes_allowed(next)
            &&& (next.ttl_sec, next.screenshot, next.attach_download) != (
                s.ttl_sec,
                s.screenshot,
                s.attach_download,
            ) ==> cp.op == OP_RULE_ACCEPT && machine::answers(s, cp)
        },
{
}

/// The effects of an outcome, in order.
pub open spec fn outcome_effects(o: ApplyOutcome) -> Seq<Effect> {
    (match o.clamp_expiry_to {
        Some(at) => seq![Effect::ClampExpiry(at)],
        None => Seq::empty(),
    }) + (if o.erase_attachments {
        seq![Effect::EraseAttachments]
    } else {
        Seq::empty()
    })
}

/// The events of an outcome.
pub open spec fn outcome_events(rel: Seq<char>, o: ApplyOutcome) -> Seq<EventView> {
    if o.changed {
        seq![EventView::PolicyChanged { rel_id: rel }]
    } else {
        Seq::empty()
    }
}

/// Carries out an outcome: the lifetimes are clamped, the attachments are
/// erased, and a change is an event.
pub fn apply_outcome(rel_id: &str, outcome: &ApplyOutcome, effects: &mut Vec<Effect>) -> (events:
    Vec<EngineEvent>)
    ensures
        final(effects)@ == old(effects)@ + outcome_effects(*outcome),
        events_of(events@) == outcome_events(rel_id@, *outcome),
{
    if let Some(at) = outcome.clamp_expiry_to {
        effects.push(Effect::ClampExpiry(at));
    }
    if outcome.erase_attachments {
        effects.push(Effect::EraseAttachments);
    }
    assert(effects@ =~= old(effects)@ + outcome_effects(*outcome));
    let mut events: Vec<EngineEvent> = Vec::new();
    if outcome.changed {
        events.push(EngineEvent::PolicyChanged { rel_id: rel_id.to_owned() });
    }
    assert(events_of(events@) =~= outcome_events(rel_id@, *outcome));
    events
}

/// What a policy operation of the peer does: the state is saved, its outcome
/// carried out, and a sync answered by a sync, at most one per interval, so
/// that both sides converge.
pub open spec fn governs(
    d: Dispatched,
    rel: Seq<char>,
    s: PolicyState,
    msg_id: [u8; 16],
    cp: ChatPolicy,
    now: u64,
) -> bool {
    match policy_step(s, msg_id, cp, now) {
        None => d.is(Seq::empty(), Seq::empty()),
        Some((next, outcome)) => {
            let first = seq![Effect::SavePolicy(next)] + outcome_effects(outcome);
            &&& d.effects@.len() >= first.len()
            &&& d.effects@.take(first.len() as int) == first
            &&& (if cp.op == OP_SYNC {
                replies(d.effects@.skip(first.len() as int), next, now)
            } else {
                d.effects@.len() == first.len()
            })
            &&& events_of(d.events@) == outcome_events(rel, outcome)
        },
    }
}

/// Whether the clock has room for the lifetime that an operation of the peer
/// clamps live messages to, if it does.
pub open spec fn clock_fits(s: PolicyState, cp: ChatPolicy, now: u64) -> bool {
    cp.op == OP_RULE_ACCEPT && machine::answers(s, cp) ==> machine::clamp_fits(
        s,
        s.pending->0.ttl_sec,
        now,
    )
}

/// Applies a policy operation of the peer.
pub fn apply_chat_policy(
    rel_id: &str,
    state: PolicyState,
    msg_id: [u8; 16],
    cp: &ChatPolicy,
    now: u64,
) -> (d: Dispatched)
    requires
        clock_fits(state, *cp, now),
    ensures
        governs(d, rel_id@, state, msg_id, *cp, now),
{
    let (next, outcome, respond): (PolicyState, ApplyOutcome, bool) = if cp.op == OP_RULE_PROPOSE {
        if !is_allowed_ttl(cp.ttl_sec) {
            return Dispatched::nothing();
        }
        let next: PolicyState = apply_propose(state, cp, msg_id);
        let outcome: ApplyOutcome = ApplyOutcome {
            changed: true,
            clamp_expiry_to: None,
            erase_attachments: false,
        };
        (next, outcome, false)
    } else if cp.op == OP_RULE_ACCEPT {
        match apply_accept(state, cp, now) {
            Some((next, outcome)) => (next, outcome, false),
            None => {
                return Dispatched::nothing();
            },
        }
    } else if cp.op == OP_CAP_SET {
        let (next, outcome) = apply_cap_set(&state, cp.cap_id, cp.cap_on);
        (next, outcome, false)
    } else if cp.op == OP_SYNC {
        let (next, outcome) = apply_sync(&state, cp);
        (next, outcome, true)
    } else {
        return Dispatched::nothing();
    };
    let mut effects: Vec<Effect> = vec![Effect::SavePolicy(next)];
    let events: Vec<EngineEvent> = apply_outcome(rel_id, &outcome, &mut effects);
    let ghost first = effects@;
    assert(first =~= seq![Effect::SavePolicy(next)] + outcome_effects(outcome));
    assert(first.take(first.len() as int) =~= first);
    if respond {
        push_reply(&mut effects, next, now);
    }
    Dispatched { effects, events }
}

/// A sync is not answered for ever: right after a reply none is due.
pub proof fn syncs_do_not_echo(s: PolicyState, now: u64, later: u64)
    requires
        sync_due(s, now),
        later < now + SYNC_REPLY_MIN_SEC,
    ensures
        !sync_due(PolicyState { last_sync_at: now, ..s }, later),
{
}

// ---------------------------------------------------------------------------
// Resync

/// What a resync request does: the caps that it carries are taken over, what
/// the peer misses is sent again, and this side's wants go out if that is
/// due.
pub open spec fn resyncs(d: Dispatched, caps: u32, s: PolicyState, now: u64) -> bool {
    &&& d.effects@.len() >= 2
    &&& d.effects@[0] == Effect::NoteCaps(caps)
    &&& d.effects@[1] == Effect::Retransmit
    &&& replies(d.effects@.skip(2), s, now)
    &&& d.events@.len() == 0
}

/// Answers a resync request.
pub fn apply_resync_req(caps: u32, state: PolicyState, now: u64) -> (d: Dispatched)
    ensures
        resyncs(d, caps, state, now),
{
    let mut effects: Vec<Effect> = vec![Effect::NoteCaps(caps), Effect::Retransmit];
    push_reply(&mut effects, state, now);
    assert(effects@[0] == effects@.take(2)[0]);
    assert(effects@[1] == effects@.take(2)[1]);
    Dispatched { effects, events: Vec::new() }
}

/// Whether a resync may be asked for.
pub open spec fn resync_due(last: int, now: int) -> bool {
    now >= last + RESYNC_REQ_MIN_SECS
}

/// The setting that remembers a resync request, where one is made.
pub open spec fn resync_stamp(last: Option<Seq<u8>>, now: u64) -> Option<Seq<u8>> {
    if resync_due(ingest::stored_time(last), now as int) {
        Some(bytes::be64(now))
    } else {
        None
    }
}

/// Decides whether a gap leads to a resync request: at most one per interval.
/// Returns the setting that remembers the request, which is stored before it
/// is sent.
pub fn maybe_request_resync(last: Option<&[u8]>, now: u64) -> (stamp: Option<Vec<u8>>)
    ensures
        resync_stamp(
            match last {
                Some(b) => Some(b@),
                None => None,
            },
            now,
        ) == (match stamp {
            Some(b) => Some(b@),
            None => None,
        }),
{
    let last: u64 = read_time(last);
    if now < last || now - last < RESYNC_REQ_MIN_SECS {
        return None;
    }
    Some(time_setting(now))
}

// ---------------------------------------------------------------------------
// The dispatch

/// The change that an advertisement of presence is to the client, given the
/// last one on record.
pub open spec fn presence_change(last: Option<(Presence, u64)>, p: Presence) -> Option<PeerPresence> {
    match last {
        Some((before, _)) => if before == p {
            None
        } else {
            Some(presence::shown(p))
        },
        None => Some(presence::shown(p)),
    }
}

/// The surface that content takes a token of. Where a feature is off, its
/// content takes none.
pub open spec fn asks(content: Content) -> Option<Surface> {
    match content {
        Content::ResyncReq { .. } => Some(Surface::ResyncReq),
        Content::Presence { policy, .. } => if policy.on(FLAG_WANT_PRESENCE) {
            Some(Surface::Ephemeral)
        } else {
            None
        },
        Content::Typing { policy, .. } => if policy.on(FLAG_WANT_TYPING) {
            Some(Surface::Ephemeral)
        } else {
            None
        },
        _ => None,
    }
}

impl Engine {
    /// Whether the peer is within its rate on a surface.
    pub open spec fn grants(&self, surface: Surface, rel: Seq<char>, now: u64) -> bool {
        self.rate.bucket_at(surface, rel, now as nat).grants(now as nat)
    }

    /// Whether content is dropped for its rate.
    pub open spec fn over_rate(&self, content: Content, rel: Seq<char>, now: u64) -> Option<Surface> {
        match asks(content) {
            Some(surface) => if self.grants(surface, rel, now) {
                None
            } else {
                Some(surface)
            },
            None => None,
        }
    }

    /// What content does, by its type.
    pub open spec fn dispatches(
        &self,
        d: Dispatched,
        rel: Seq<char>,
        env: EnvelopeHead,
        content: Content,
        now: u64,
    ) -> bool {
        let none = Seq::<Effect>::empty();
        let quiet = Seq::<EventView>::empty();
        if self.over_rate(content, rel, now) is Some {
            d.is(none, quiet)
        } else {
            match content {
                Content::Msg => d.is(
                    seq![Effect::FetchEmoji],
                    seq![EventView::Message { rel_id: rel, msg_id: env.msg_id@ }],
                ),
                Content::Edit { body_bytes, target, tombstoned, history_cut } => if edits(
                    env,
                    row_of(target),
                    now,
                    body_bytes,
                    tombstoned,
                    history_cut,
                ) {
                    d.is(
                        seq![Effect::MarkEdited { target: env.ref_id->0, app_seq: env.app_seq }],
                        seq![EventView::Edited { rel_id: rel, msg_id: env.ref_id->0@ }],
                    )
                } else {
                    d.is(none, quiet)
                },
                Content::Delete { marks } => deletes(d, rel, env, marks),
                Content::DeleteAll => d.is(
                    seq![Effect::RaiseCut(env.app_seq), Effect::EraseHistory(env.msg_id)],
                    seq![EventView::HistoryCleared { rel_id: rel }],
                ),
                Content::ContactClose => d.is(
                    seq![Effect::Burn],
                    seq![EventView::ContactClosed { rel_id: rel }],
                ),
                Content::ResyncReq { caps, policy } => resyncs(d, caps, policy, now),
                Content::AttachHead => d.is(seq![Effect::AttachHead], quiet),
                Content::AttachChunk => d.is(seq![Effect::AttachChunk], quiet),
                Content::Profile { changed } => if changed {
                    d.is(
                        seq![Effect::PutProfile],
                        seq![EventView::ProfileUpdated { rel_id: rel }],
                    )
                } else {
                    d.is(none, quiet)
                },
                Content::ProfileReq => d.is(
                    none,
                    seq![EventView::ProfileRequested { rel_id: rel }],
                ),
                Content::Pref => d.is(
                    seq![Effect::PutPrefs],
                    seq![EventView::PeerPrefs { rel_id: rel }],
                ),
                Content::Sticker => d.is(seq![Effect::Sticker], quiet),
                Content::StickerCtrl => d.is(seq![Effect::StickerCtrl], quiet),
                Content::Presence { presence, policy } => if policy.on(FLAG_WANT_PRESENCE) {
                    match presence_change(self.presence.entry(rel), presence) {
                        Some(p) => d.is(
                            none,
                            seq![
                                EventView::Presence {
                                    rel_id: rel,
                                    in_app: p.in_app,
                                    do_not_disturb: p.do_not_disturb,
                                },
                            ],
                        ),
                        None => d.is(none, quiet),
                    }
                } else {
                    d.is(none, quiet)
                },
                Content::Typing { typing, policy } => if policy.on(FLAG_WANT_TYPING) {
                    d.is(seq![Effect::NoteTyping(typing)], quiet)
                } else {
                    d.is(none, quiet)
                },
                Content::Read { marks, policy } => match env.ref_id {
                    Some(id) => if policy.on(FLAG_WANT_RECEIPTS) {
                        d.is(
                            seq![Effect::MarkRead(id)],
                            if marks {
                                seq![EventView::Read { rel_id: rel, msg_id: id@ }]
                            } else {
                                quiet
                            },
                        )
                    } else {
                        d.is(none, quiet)
                    },
                    None => d.is(none, quiet),
                },
                Content::ChatPolicy { op, policy } => governs(d, rel, policy, env.msg_id, op, now),
            }
        }
    }

    /// Whether content notes a presence.
    pub open spec fn notes(&self, content: Content, rel: Seq<char>, now: u64) -> Option<Presence> {
        match content {
            Content::Presence { presence, policy } => if policy.on(FLAG_WANT_PRESENCE)
                && self.grants(Surface::Ephemeral, rel, now) {
                Some(presence)
            } else {
                None
            },
            _ => None,
        }
    }

    /// The drops that are counted once content came.
    pub open spec fn counts_after(&self, content: Content, rel: Seq<char>, now: u64) -> DropCounts {
        match self.over_rate(content, rel, now) {
            Some(surface) => self.limited.bumped(surface),
            None => self.limited,
        }
    }

    /// What is remembered of the presence in `other` once content came in `rel`.
    pub open spec fn entry_after(
        &self,
        content: Content,
        rel: Seq<char>,
        now: u64,
        other: Seq<char>,
    ) -> Option<(Presence, u64)> {
        match self.notes(content, rel, now) {
            Some(p) => if other == rel {
                Some((p, now))
            } else {
                self.presence.entry(other)
            },
            None => self.presence.entry(other),
        }
    }

    /// Decides what an admitted envelope does.
    pub fn dispatch(&mut self, rel_id: &str, env: &EnvelopeHead, content: &Content, now: u64) -> (d:
        Dispatched)
        requires
            old(self).wf(),
            content matches Content::ChatPolicy { op, policy } ==> clock_fits(*policy, *op, now),
        ensures
            final(self).wf(),
            old(self).dispatches(d, rel_id@, *env, *content, now),
            final(self).limited == old(self).counts_after(*content, rel_id@, now),
            forall|s: Surface, k: Seq<char>| #[trigger]
                final(self).rate.bucket(s, k) == (if asks(*content) == Some(s) && k == rel_id@ {
                    Some(old(self).rate.bucket_at(s, k, now as nat).asked(now as nat))
                } else {
                    old(self).rate.bucket(s, k)
                }),
            forall|rel: Seq<char>| #[trigger]
                final(self).presence.entry(rel) == old(self).entry_after(*content, rel_id@, now, rel),
    {
        match content {
            Content::Msg => {
                Dispatched::of(
                    Effect::FetchEmoji,
                    EngineEvent::Message { rel_id: rel_id.to_owned(), msg_id: env.msg_id },
                )
            },
            Content::Edit { body_bytes, target, tombstoned, history_cut } => {
                match apply_edit(env, *target, now, *body_bytes, *tombstoned, *history_cut) {
                    Some(id) => Dispatched::of(
                        Effect::MarkEdited { target: id, app_seq: env.app_seq },
                        EngineEvent::Edited { rel_id: rel_id.to_owned(), msg_id: id },
                    ),
                    None => Dispatched::nothing(),
                }
            },
            Content::Delete { marks } => apply_delete(rel_id, env, *marks),
            Content::DeleteAll => {
                let mut d: Dispatched = Dispatched::event(
                    EngineEvent::HistoryCleared { rel_id: rel_id.to_owned() },
                );
                d.effects.push(Effect::RaiseCut(env.app_seq));
                d.effects.push(Effect::EraseHistory(env.msg_id));
                assert(d.effects@ =~= seq![
                    Effect::RaiseCut(env.app_seq),
                    Effect::EraseHistory(env.msg_id),
                ]);
                d
            },
            Content::ContactClose => Dispatched::of(
                Effect::Burn,
                EngineEvent::ContactClosed { rel_id: rel_id.to_owned() },
            ),
            Content::ResyncReq { caps, policy } => {
                if self.rate_allow(Surface::ResyncReq, rel_id, now) {
                    apply_resync_req(*caps, *policy, now)
                } else {
                    Dispatched::nothing()
                }
            },
            Content::AttachHead => Dispatched::silent(Effect::AttachHead),
            Content::AttachChunk => Dispatched::silent(Effect::AttachChunk),
            Content::Profile { changed } => {
                if *changed {
                    Dispatched::of(
                        Effect::PutProfile,
                        EngineEvent::ProfileUpdated { rel_id: rel_id.to_owned() },
                    )
                } else {
                    Dispatched::nothing()
                }
            },
            Content::ProfileReq => Dispatched::event(
                EngineEvent::ProfileRequested { rel_id: rel_id.to_owned() },
            ),
            Content::Pref => Dispatched::of(
                Effect::PutPrefs,
                EngineEvent::PeerPrefs { rel_id: rel_id.to_owned() },
            ),
            Content::Sticker => Dispatched::silent(Effect::Sticker),
            Content::StickerCtrl => Dispatched::silent(Effect::StickerCtrl),
            Content::Presence { presence, policy } => {
                if !policy.presence() || !self.rate_allow(Surface::Ephemeral, rel_id, now) {
                    return Dispatched::nothing();
                }
                match self.presence.note(rel_id, *presence, now) {
                    Some(p) => Dispatched::event(
                        EngineEvent::Presence {
                            rel_id: rel_id.to_owned(),
                            in_app: p.in_app,
                            do_not_disturb: p.do_not_disturb,
                        },
                    ),
                    None => Dispatched::nothing(),
                }
            },
            Content::Typing { typing, policy } => {
                if policy.typing() && self.rate_allow(Surface::Ephemeral, rel_id, now) {
                    Dispatched::silent(Effect::NoteTyping(*typing))
                } else {
                    Dispatched::nothing()
                }
            },
            Content::Read { marks, policy } => {
                match env.ref_id {
                    Some(id) => {
                        if !policy.receipts() {
                            Dispatched::nothing()
                        } else if *marks {
                            Dispatched::of(
                                Effect::MarkRead(id),
                                EngineEvent::Read { rel_id: rel_id.to_owned(), msg_id: id },
                            )
                        } else {
                            Dispatched::silent(Effect::MarkRead(id))
                        }
                    },
                    None => Dispatched::nothing(),
                }
            },
            Content::ChatPolicy { op, policy } => apply_chat_policy(
                rel_id,
                *policy,
                env.msg_id,
                op,
                now,
            ),
        }
    }
}

// ---------------------------------------------------------------------------
// Laws

/// A deletion may come before what it deletes: once its effects are carried
/// out, the late copy is neither stored nor handled.
pub proof fn late_copies_of_the_deleted_drop(
    d: Dispatched,
    rel: Seq<char>,
    deletion: EnvelopeHead,
    marks: bool,
    late: EnvelopeHead,
    facts: InboundFacts,
)
    requires
        deletes(d, rel, deletion, marks),
        deletion.ref_id == Some(late.msg_id),
        d.effects@.contains(Effect::AddTombstone(late.msg_id)) ==> facts.tombstoned,
        delete::history_type(late.kind),
        inbound::admission(late, facts) is Fresh,
    ensures
        !inbound::admission(late, facts)->Fresh_0.handle,
        inbound::admission(late, facts)->Fresh_0.ledger is None,
{
    assert(d.effects@[1] == Effect::AddTombstone(late.msg_id));
}

/// A thread that was wiped stays wiped: what was sent before is neither stored
/// nor handled when it arrives late.
pub proof fn a_wiped_thread_stays_wiped(
    engine: Engine,
    d: Dispatched,
    rel: Seq<char>,
    wipe: EnvelopeHead,
    now: u64,
    late: EnvelopeHead,
    facts: InboundFacts,
)
    requires
        engine.dispatches(d, rel, wipe, Content::DeleteAll, now),
        d.effects@.contains(Effect::RaiseCut(wipe.app_seq)) ==> facts.history_cut >= wipe.app_seq,
        late.app_seq < wipe.app_seq,
        delete::history_type(late.kind),
        inbound::admission(late, facts) is Fresh,
    ensures
        !inbound::admission(late, facts)->Fresh_0.handle,
        inbound::admission(late, facts)->Fresh_0.ledger is None,
{
    assert(d.effects@[0] == Effect::RaiseCut(wipe.app_seq));
}

} // verus!
