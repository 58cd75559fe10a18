//! What effects make of a ledger, and what an envelope therefore does to the
//! store.
//!
//! The store itself is the caller's. Here it is a value, and each effect is what
//! it does to that value: the laws below say what is on record once the effects
//! of an envelope are carried out.

use vstd::prelude::*;

use crate::engine::{Engine, EventView};
use crate::engine::dispatch::{self, Content, Dispatched, Effect};
use crate::engine::inbound::EnvelopeHead;
use crate::engine::send::{self, Outgoing, Sent};
use crate::policy::{engine, machine, PolicyState};
use crate::presence::Presence;
use crate::ratelimit::Surface;
use crate::store::{Direction, MessageRow};
use crate::wire::envelope::{self, EnvelopeType};
use crate::wire::policy::{
    ChatPolicy, FLAG_WANT_ATTACH, FLAG_WANT_EMOJI, FLAG_WANT_PRESENCE, FLAG_WANT_RECEIPTS,
    FLAG_WANT_TYPING, OP_CAP_SET, OP_RULE_ACCEPT, OP_RULE_PROPOSE, OP_SYNC,
};

verus! {

/// What a ledger holds of a message.
pub struct Row {
    pub tombstone: bool,
    pub read: bool,
    pub edits: nat,
    pub last_edit_seq: u64,
    pub expires_at: Option<u64>,
}

/// What is on record of a relationship.
#[verifier::ext_equal]
pub struct Ledger {
    pub rows: Map<[u8; 16], Row>,
    /// The ids that a late copy is dropped by.
    pub tombstones: Set<[u8; 16]>,
    pub cut: u64,
    /// The messages whose attachments are stored.
    pub attachments: Set<[u8; 16]>,
    pub peer_caps: u32,
    pub policy: PolicyState,
    /// Whether the relationship was burned.
    pub burned: bool,
}

impl Ledger {
    /// With another row for a message that is on record.
    pub open spec fn with_row(self, id: [u8; 16], row: Row) -> Ledger {
        if self.rows.dom().contains(id) {
            Ledger { rows: self.rows.insert(id, row), ..self }
        } else {
            self
        }
    }

    /// What an effect makes of it.
    pub open spec fn after(self, e: Effect) -> Ledger {
        match e {
            Effect::MarkEdited { target, app_seq } => {
                let row = self.rows[target];
                self.with_row(target, Row { edits: row.edits + 1, last_edit_seq: app_seq, ..row })
            },
            Effect::MarkTombstoned(id) => self.with_row(
                id,
                Row { tombstone: true, ..self.rows[id] },
            ),
            Effect::MarkRead(id) => self.with_row(id, Row { read: true, ..self.rows[id] }),
            Effect::AddTombstone(id) => Ledger { tombstones: self.tombstones.insert(id), ..self },
            Effect::EraseAttachmentsOf(id) => Ledger {
                attachments: self.attachments.remove(id),
                ..self
            },
            Effect::EraseAttachments => Ledger { attachments: Set::empty(), ..self },
            Effect::RaiseCut(seq) => Ledger {
                cut: if self.cut < seq {
                    seq
                } else {
                    self.cut
                },
                ..self
            },
            Effect::EraseHistory(keep) => Ledger {
                rows: self.rows.restrict(set![keep]),
                attachments: Set::empty(),
                ..self
            },
            Effect::ClampExpiry(at) => Ledger {
                rows: self.rows.map_values(
                    |row: Row|
                        Row {
                            expires_at: match row.expires_at {
                                Some(was) => if was <= at {
                                    Some(was)
                                } else {
                                    Some(at)
                                },
                                None => Some(at),
                            },
                            ..row
                        },
                ),
                ..self
            },
            Effect::NoteCaps(caps) => Ledger { peer_caps: caps, ..self },
            Effect::SavePolicy(s) => Ledger { policy: s, ..self },
            Effect::Burn => Ledger {
                rows: Map::empty(),
                tombstones: Set::empty(),
                attachments: Set::empty(),
                burned: true,
                ..self
            },
            _ => self,
        }
    }

    /// What effects make of it, in order.
    pub open spec fn after_all(self, effects: Seq<Effect>) -> Ledger
        decreases effects.len(),
    {
        if effects.len() == 0 {
            self
        } else {
            self.after_all(effects.drop_last()).after(effects.last())
        }
    }

    /// Whether nothing but one message's row differs.
    pub open spec fn differs_in_row(self, other: Ledger, id: [u8; 16]) -> bool {
        &&& self.rows.dom() == other.rows.dom()
        &&& forall|k: [u8; 16]|
            k != id && self.rows.dom().contains(k) ==> #[trigger] self.rows[k] == other.rows[k]
        &&& self == (Ledger { rows: self.rows, ..other })
    }
}

proof fn a_row_is_all_that_differs(l: Ledger, id: [u8; 16], row: Row)
    ensures
        l.differs_in_row(l.with_row(id, row), id),
{
    let after = l.with_row(id, row);
    assert(after.rows.dom() =~= l.rows.dom());
    assert(l =~= (Ledger { rows: l.rows, ..after }));
}

proof fn after_none(l: Ledger)
    ensures
        l.after_all(Seq::<Effect>::empty()) == l,
{
}

proof fn after_one(l: Ledger, a: Effect)
    ensures
        l.after_all(seq![a]) == l.after(a),
{
    assert(seq![a].drop_last() =~= Seq::<Effect>::empty());
    after_none(l);
}

proof fn after_two(l: Ledger, a: Effect, b: Effect)
    ensures
        l.after_all(seq![a, b]) == l.after(a).after(b),
{
    assert(seq![a, b].drop_last() =~= seq![a]);
    after_one(l, a);
}

proof fn after_three(l: Ledger, a: Effect, b: Effect, c: Effect)
    ensures
        l.after_all(seq![a, b, c]) == l.after(a).after(b).after(c),
{
    assert(seq![a, b, c].drop_last() =~= seq![a, b]);
    after_two(l, a, b);
}

proof fn after_both(l: Ledger, a: Seq<Effect>, b: Seq<Effect>)
    ensures
        l.after_all(a + b) == l.after_all(a).after_all(b),
    decreases b.len(),
{
    if b.len() == 0 {
        assert(a + b =~= a);
    } else {
        assert((a + b).drop_last() =~= a + b.drop_last());
        after_both(l, a, b.drop_last());
    }
}

// ---------------------------------------------------------------------------
// Messages

/// A message is reported under its own id, and changes no row.
pub proof fn a_message_is_reported(
    engine: Engine,
    d: Dispatched,
    rel: Seq<char>,
    env: EnvelopeHead,
    now: u64,
    l: Ledger,
)
    requires
        engine.dispatches(d, rel, env, Content::Msg, now),
    ensures
        dispatch::events_of(d.events@) == seq![
            EventView::Message { rel_id: rel, msg_id: env.msg_id@ },
        ],
        d.effects@ == seq![Effect::FetchEmoji],
        l.after_all(d.effects@) == l,
{
    after_one(l, Effect::FetchEmoji);
}

/// Whether an edit of a message is in order: it is the peer's own text, live,
/// first received less than an hour ago, edited fewer than thirty times and by
/// no later edit, and neither was the edit deleted nor is it below the cut. The
/// new text is at most sixteen kibibytes long.
pub open spec fn edit_in_order(
    env: EnvelopeHead,
    row: MessageRow,
    now: u64,
    body_bytes: usize,
    tombstoned: bool,
    cut: u64,
) -> bool {
    &&& row.direction == Direction::In
    &&& row.env_type == envelope::type_code(EnvelopeType::Msg)
    &&& (row.expires_at matches Some(at) ==> now < at)
    &&& now < (match row.received_at {
        Some(at) => at,
        None => row.created_at,
    }) + 3_600
    &&& row.edit_count < 30
    &&& row.last_edit_seq < env.app_seq
    &&& body_bytes <= 16_384
    &&& !tombstoned
    &&& (cut == 0 || cut <= env.app_seq)
}

/// An edit that refers to a message on record is taken exactly where it is in
/// order. Then it replaces the text of that message and of no other, the row
/// remembers the edit's number, and the client is told of that message.
/// Otherwise nothing happens.
pub proof fn an_edit_changes_its_target_alone(
    engine: Engine,
    d: Dispatched,
    rel: Seq<char>,
    env: EnvelopeHead,
    target: Option<&MessageRow>,
    body_bytes: usize,
    tombstoned: bool,
    history_cut: u64,
    now: u64,
    l: Ledger,
)
    requires
        engine.dispatches(
            d,
            rel,
            env,
            Content::Edit { body_bytes, target, tombstoned, history_cut },
            now,
        ),
    ensures
        ({
            let after = l.after_all(d.effects@);
            if env.ref_id is Some && target is Some && edit_in_order(
                env,
                *target->0,
                now,
                body_bytes,
                tombstoned,
                history_cut,
            ) {
                let id = env.ref_id->0;
                &&& dispatch::events_of(d.events@) == seq![
                    EventView::Edited { rel_id: rel, msg_id: id@ },
                ]
                &&& l.differs_in_row(after, id)
                &&& l.rows.dom().contains(id) ==> {
                    &&& after.rows[id].last_edit_seq == env.app_seq
                    &&& after.rows[id].edits == l.rows[id].edits + 1
                    &&& after.rows[id].tombstone == l.rows[id].tombstone
                }
            } else {
                &&& after == l
                &&& d.effects@.len() == 0
                &&& d.events@.len() == 0
            }
        }),
{
    if let Some(id) = env.ref_id {
        let row = l.rows[id];
        after_one(l, Effect::MarkEdited { target: id, app_seq: env.app_seq });
        a_row_is_all_that_differs(
            l,
            id,
            Row { edits: row.edits + 1, last_edit_seq: env.app_seq, ..row },
        );
    }
    after_none(l);
    assert(dispatch::events_of(d.events@).len() == d.events@.len());
    if d.effects@.len() == 0 {
        assert(d.effects@ =~= Seq::<Effect>::empty());
    }
}

/// Once the effects of a deletion are carried out, the message that it refers to
/// is a tombstone if it is on record, its id is remembered so that a late copy is
/// dropped, and its attachments are gone. Every other row, tombstone and
/// attachment is as before. The client is told of that message alone, and only
/// where its row was live. Without a reference nothing happens.
pub proof fn a_deletion_tombstones_its_target(
    engine: Engine,
    d: Dispatched,
    rel: Seq<char>,
    env: EnvelopeHead,
    marks: bool,
    now: u64,
    l: Ledger,
)
    requires
        dispatch::deletes(d, rel, env, marks) || engine.dispatches(
            d,
            rel,
            env,
            Content::Delete { marks },
            now,
        ),
    ensures
        ({
            let after = l.after_all(d.effects@);
            match env.ref_id {
                Some(id) => {
                    &&& after.rows.dom() == l.rows.dom()
                    &&& forall|k: [u8; 16]|
                        k != id && l.rows.dom().contains(k) ==> #[trigger] after.rows[k]
                            == l.rows[k]
                    &&& l.rows.dom().contains(id) ==> after.rows[id].tombstone
                    &&& after == (Ledger {
                        rows: after.rows,
                        tombstones: l.tombstones.insert(id),
                        attachments: l.attachments.remove(id),
                        ..l
                    })
                    &&& forall|x: [u8; 16]|
                        #[trigger] d.effects@.contains(Effect::MarkTombstoned(x)) <==> x == id
                    &&& dispatch::events_of(d.events@) == (if marks {
                        seq![EventView::Deleted { rel_id: rel, msg_id: id@ }]
                    } else {
                        Seq::empty()
                    })
                },
                None => d.effects@.len() == 0 && d.events@.len() == 0,
            }
        }),
{
    assert(dispatch::events_of(d.events@).len() == d.events@.len());
    if let Some(id) = env.ref_id {
        after_three(
            l,
            Effect::EraseAttachmentsOf(id),
            Effect::AddTombstone(id),
            Effect::MarkTombstoned(id),
        );
        assert(d.effects@[2] == Effect::MarkTombstoned(id));
        let after = l.after_all(d.effects@);
        assert(after.rows.dom() =~= l.rows.dom());
    }
}

/// A wipe leaves the frame that wiped as the only row, erases every attachment,
/// and raises the cut to the frame's number, so that what was sent before it is
/// dropped when it comes late.
pub proof fn a_wipe_leaves_its_frame_alone(
    engine: Engine,
    d: Dispatched,
    rel: Seq<char>,
    env: EnvelopeHead,
    now: u64,
    l: Ledger,
)
    requires
        engine.dispatches(d, rel, env, Content::DeleteAll, now),
    ensures
        ({
            let after = l.after_all(d.effects@);
            &&& after.cut >= env.app_seq && after.cut >= l.cut
            &&& after.cut == env.app_seq || after.cut == l.cut
            &&& forall|k: [u8; 16]| #[trigger]
                after.rows.dom().contains(k) <==> k == env.msg_id && l.rows.dom().contains(k)
            &&& l.rows.dom().contains(env.msg_id) ==> after.rows[env.msg_id] == l.rows[env.msg_id]
            &&& after.attachments == Set::<[u8; 16]>::empty()
            &&& dispatch::events_of(d.events@) == seq![EventView::HistoryCleared { rel_id: rel }]
        }),
{
    after_two(l, Effect::RaiseCut(env.app_seq), Effect::EraseHistory(env.msg_id));
}

/// A contact that the peer closes is burned, and the client is told.
pub proof fn a_closed_contact_is_burned(
    engine: Engine,
    d: Dispatched,
    rel: Seq<char>,
    env: EnvelopeHead,
    now: u64,
    l: Ledger,
)
    requires
        engine.dispatches(d, rel, env, Content::ContactClose, now),
    ensures
        l.after_all(d.effects@).burned,
        l.after_all(d.effects@).rows == Map::<[u8; 16], Row>::empty(),
        dispatch::events_of(d.events@) == seq![EventView::ContactClosed { rel_id: rel }],
{
    after_one(l, Effect::Burn);
}

/// A read receipt marks the message that it refers to and no other, and only
/// while both sides want receipts.
pub proof fn a_receipt_marks_its_target_alone(
    engine: Engine,
    d: Dispatched,
    rel: Seq<char>,
    env: EnvelopeHead,
    marks: bool,
    policy: PolicyState,
    now: u64,
    l: Ledger,
)
    requires
        engine.dispatches(d, rel, env, Content::Read { marks, policy }, now),
    ensures
        ({
            let after = l.after_all(d.effects@);
            if env.ref_id is Some && policy.local_want & FLAG_WANT_RECEIPTS != 0 && policy.peer_want
                & FLAG_WANT_RECEIPTS != 0 {
                let id = env.ref_id->0;
                &&& l.differs_in_row(after, id)
                &&& l.rows.dom().contains(id) ==> after.rows[id].read && after.rows[id].tombstone
                    == l.rows[id].tombstone
                &&& dispatch::events_of(d.events@) == (if marks {
                    seq![EventView::Read { rel_id: rel, msg_id: id@ }]
                } else {
                    Seq::empty()
                })
            } else {
                d.effects@.len() == 0 && d.events@.len() == 0
            }
        }),
{
    let lw = policy.local_want;
    let pw = policy.peer_want;
    assert(lw & pw & 16 != 0 <==> lw & 16 != 0 && pw & 16 != 0) by (bit_vector);
    assert(dispatch::events_of(d.events@).len() == d.events@.len());
    if let Some(id) = env.ref_id {
        after_one(l, Effect::MarkRead(id));
        a_row_is_all_that_differs(l, id, Row { read: true, ..l.rows[id] });
    }
}

// ---------------------------------------------------------------------------
// What is not on record

/// A typing indicator is taken as it is said, while both sides want typing and
/// the peer is within its rate; otherwise it is dropped.
pub proof fn typing_is_taken_as_said(
    engine: Engine,
    d: Dispatched,
    rel: Seq<char>,
    env: EnvelopeHead,
    typing: bool,
    policy: PolicyState,
    now: u64,
)
    requires
        engine.dispatches(d, rel, env, Content::Typing { typing, policy }, now),
    ensures
        d.events@.len() == 0,
        d.effects@ == (if policy.local_want & FLAG_WANT_TYPING != 0 && policy.peer_want
            & FLAG_WANT_TYPING != 0 && engine.rate.bucket_at(
            Surface::Ephemeral,
            rel,
            now as nat,
        ).grants(now as nat) {
            seq![Effect::NoteTyping(typing)]
        } else {
            Seq::empty()
        }),
{
    let lw = policy.local_want;
    let pw = policy.peer_want;
    assert(lw & pw & 8 != 0 <==> lw & 8 != 0 && pw & 8 != 0) by (bit_vector);
    assert(dispatch::events_of(d.events@).len() == d.events@.len());
}

/// A presence that differs from the last one is shown as it is said, while both
/// sides want presence and the peer is within its rate. Nothing of it is put on
/// record.
pub proof fn presence_is_shown_as_said(
    engine: Engine,
    d: Dispatched,
    rel: Seq<char>,
    env: EnvelopeHead,
    presence: Presence,
    policy: PolicyState,
    now: u64,
)
    requires
        engine.dispatches(d, rel, env, Content::Presence { presence, policy }, now),
    ensures
        d.effects@.len() == 0,
        dispatch::events_of(d.events@) == (if policy.local_want & FLAG_WANT_PRESENCE != 0
            && policy.peer_want & FLAG_WANT_PRESENCE != 0 && engine.rate.bucket_at(
            Surface::Ephemeral,
            rel,
            now as nat,
        ).grants(now as nat) && !(engine.presence.entry(rel) matches Some((last, _)) && last
            == presence) {
            seq![
                EventView::Presence {
                    rel_id: rel,
                    in_app: presence.in_app,
                    do_not_disturb: presence.do_not_disturb,
                },
            ]
        } else {
            Seq::empty()
        }),
{
    let lw = policy.local_want;
    let pw = policy.peer_want;
    assert(lw & pw & 4 != 0 <==> lw & 4 != 0 && pw & 4 != 0) by (bit_vector);
}

/// The other types each do one thing: a new profile and preferences are kept and
/// reported, a request for the profile is reported, and attachments and stickers
/// go to their handlers.
pub proof fn the_other_types_do_one_thing(
    engine: Engine,
    d: Dispatched,
    rel: Seq<char>,
    env: EnvelopeHead,
    content: Content,
    now: u64,
)
    requires
        engine.dispatches(d, rel, env, content, now),
    ensures
        content == (Content::Profile { changed: true }) ==> d.effects@ == seq![Effect::PutProfile]
            && dispatch::events_of(d.events@) == seq![EventView::ProfileUpdated { rel_id: rel }],
        content == (Content::Profile { changed: false }) ==> d.effects@.len() == 0
            && d.events@.len() == 0,
        content == Content::ProfileReq ==> d.effects@.len() == 0 && dispatch::events_of(d.events@)
            == seq![EventView::ProfileRequested { rel_id: rel }],
        content == Content::Pref ==> d.effects@ == seq![Effect::PutPrefs] && dispatch::events_of(
            d.events@,
        ) == seq![EventView::PeerPrefs { rel_id: rel }],
        content == Content::AttachHead ==> d.effects@ == seq![Effect::AttachHead]
            && d.events@.len() == 0,
        content == Content::AttachChunk ==> d.effects@ == seq![Effect::AttachChunk]
            && d.events@.len() == 0,
        content == Content::Sticker ==> d.effects@ == seq![Effect::Sticker] && d.events@.len() == 0,
        content == Content::StickerCtrl ==> d.effects@ == seq![Effect::StickerCtrl]
            && d.events@.len() == 0,
{
    assert(dispatch::events_of(d.events@).len() == d.events@.len());
}

/// Nothing but resync requests, presence and typing is ever dropped for its
/// rate.
pub proof fn only_cheap_types_are_limited(
    engine: Engine,
    content: Content,
    rel: Seq<char>,
    now: u64,
)
    requires
        engine.over_rate(content, rel, now) is Some,
    ensures
        content is ResyncReq || content is Presence || content is Typing,
{
}

// ---------------------------------------------------------------------------
// Rules and wants

/// A ledger whose rows all end by an instant, and no earlier than they would.
pub open spec fn clamped_to(after: Map<[u8; 16], Row>, before: Map<[u8; 16], Row>, at: int) -> bool {
    &&& after.dom() == before.dom()
    &&& forall|k: [u8; 16]|
        before.dom().contains(k) ==> {
            &&& (#[trigger] after[k]).expires_at is Some
            &&& after[k].expires_at->0 <= at
            &&& after[k].expires_at->0 == at || after[k].expires_at == before[k].expires_at
            &&& before[k].expires_at matches Some(was) ==> after[k].expires_at->0 <= was
            &&& after[k] == (Row { expires_at: after[k].expires_at, ..before[k] })
        }
}

proof fn after_outcome(l: Ledger, next: PolicyState, o: machine::ApplyOutcome)
    ensures
        ({
            let after = l.after_all(
                seq![Effect::SavePolicy(next)] + dispatch::outcome_effects(o),
            );
            &&& after == (Ledger {
                policy: next,
                rows: after.rows,
                attachments: after.attachments,
                ..l
            })
            &&& after.attachments == (if o.erase_attachments {
                Set::empty()
            } else {
                l.attachments
            })
            &&& match o.clamp_expiry_to {
                Some(at) => clamped_to(after.rows, l.rows, at as int),
                None => after.rows == l.rows,
            }
        }),
{
    let save = Effect::SavePolicy(next);
    let all = seq![save] + dispatch::outcome_effects(o);
    match o.clamp_expiry_to {
        Some(at) => {
            let clamp = Effect::ClampExpiry(at);
            if o.erase_attachments {
                assert(all =~= seq![save, clamp, Effect::EraseAttachments]);
                after_three(l, save, clamp, Effect::EraseAttachments);
            } else {
                assert(all =~= seq![save, clamp]);
                after_two(l, save, clamp);
            }
            assert(l.after_all(all).rows.dom() =~= l.rows.dom());
        },
        None => {
            if o.erase_attachments {
                assert(all =~= seq![save, Effect::EraseAttachments]);
                after_two(l, save, Effect::EraseAttachments);
            } else {
                assert(all =~= seq![save]);
                after_one(l, save);
            }
        },
    }
}

proof fn governed(
    l: Ledger,
    d: Dispatched,
    rel: Seq<char>,
    s: PolicyState,
    msg_id: [u8; 16],
    cp: ChatPolicy,
    now: u64,
)
    requires
        dispatch::governs(d, rel, s, msg_id, cp, now),
        cp.op != OP_SYNC,
    ensures
        match dispatch::policy_step(s, msg_id, cp, now) {
            None => d.effects@.len() == 0 && d.events@.len() == 0,
            Some((next, o)) => d.effects@ == seq![Effect::SavePolicy(next)]
                + dispatch::outcome_effects(o),
        },
{
    assert(dispatch::events_of(d.events@).len() == d.events@.len());
    if let Some((next, o)) = dispatch::policy_step(s, msg_id, cp, now) {
        let first = seq![Effect::SavePolicy(next)] + dispatch::outcome_effects(o);
        assert(d.effects@ =~= d.effects@.take(first.len() as int));
    }
}

/// A proposal of the peer changes no rule: it is put on record as it was made,
/// open for this side to accept, under its own id, or that of its envelope where
/// it has none, and the client is told. One with a lifetime that cannot be agreed
/// on does nothing.
pub proof fn a_proposal_waits_for_an_answer(
    d: Dispatched,
    rel: Seq<char>,
    s: PolicyState,
    msg_id: [u8; 16],
    cp: ChatPolicy,
    now: u64,
    l: Ledger,
)
    requires
        dispatch::governs(d, rel, s, msg_id, cp, now),
        cp.op == OP_RULE_PROPOSE,
    ensures
        ({
            let after = l.after_all(d.effects@);
            let t = cp.ttl_sec;
            if t == 0 || t == 3_600 || t == 86_400 || t == 604_800 || t == 1_209_600 {
                &&& after == (Ledger { policy: after.policy, ..l })
                &&& after.policy == (PolicyState { pending: after.policy.pending, ..s })
                &&& after.policy.pending matches Some(p)
                &&& p.inbound
                &&& (p.ttl_sec, p.screenshot, p.attach_download) == (
                    cp.ttl_sec,
                    cp.screenshot,
                    cp.attach_download,
                )
                &&& (forall|i: int| 0 <= i < 16 ==> #[trigger] cp.propose_id@[i] == 0)
                    ==> p.propose_id == msg_id
                &&& !(forall|i: int| 0 <= i < 16 ==> #[trigger] cp.propose_id@[i] == 0)
                    ==> p.propose_id == cp.propose_id
                &&& dispatch::events_of(d.events@) == seq![EventView::PolicyChanged { rel_id: rel }]
            } else {
                d.effects@.len() == 0 && d.events@.len() == 0
            }
        }),
{
    governed(l, d, rel, s, msg_id, cp, now);
    if let Some((next, o)) = dispatch::policy_step(s, msg_id, cp, now) {
        after_outcome(l, next, o);
    }
    if forall|i: int| 0 <= i < 16 ==> #[trigger] cp.propose_id@[i] == 0 {
        assert(cp.propose_id@ =~= machine::no_id());
    } else {
        let i = choose|i: int| 0 <= i < 16 && #[trigger] cp.propose_id@[i] != 0;
        assert(machine::no_id()[i] == 0);
    }
}

/// An acceptance of the peer puts this side's own open proposal into force,
/// exactly as it was proposed and where the ids agree. A shorter lifetime then
/// ends every message by the new lifetime from now; otherwise no message changes.
/// The client is told where a rule changed. Any other acceptance does nothing.
pub proof fn an_acceptance_puts_the_proposal_into_force(
    d: Dispatched,
    rel: Seq<char>,
    s: PolicyState,
    msg_id: [u8; 16],
    cp: ChatPolicy,
    now: u64,
    l: Ledger,
)
    requires
        dispatch::governs(d, rel, s, msg_id, cp, now),
        dispatch::clock_fits(s, cp, now),
        cp.op == OP_RULE_ACCEPT,
    ensures
        ({
            let after = l.after_all(d.effects@);
            if s.pending is Some && !s.pending->0.inbound && s.pending->0.propose_id@
                == cp.propose_id@ {
                let p = s.pending->0;
                &&& after == (Ledger { policy: after.policy, rows: after.rows, ..l })
                &&& after.policy == (PolicyState {
                    ttl_sec: p.ttl_sec,
                    screenshot: p.screenshot,
                    attach_download: p.attach_download,
                    pending: None,
                    ..s
                })
                &&& (if p.ttl_sec != 0 && (s.ttl_sec == 0 || p.ttl_sec < s.ttl_sec) {
                    clamped_to(after.rows, l.rows, now + p.ttl_sec)
                } else {
                    after.rows == l.rows
                })
                &&& dispatch::events_of(d.events@) == (if p.ttl_sec != s.ttl_sec || p.screenshot
                    != s.screenshot || p.attach_download != s.attach_download {
                    seq![EventView::PolicyChanged { rel_id: rel }]
                } else {
                    Seq::empty()
                })
            } else {
                d.effects@.len() == 0 && d.events@.len() == 0
            }
        }),
{
    governed(l, d, rel, s, msg_id, cp, now);
    if let Some((next, o)) = dispatch::policy_step(s, msg_id, cp, now) {
        after_outcome(l, next, o);
    }
}

/// Bits of a state that a side set.
pub open spec fn both_want(s: PolicyState, bit: u32) -> bool {
    s.local_want & bit != 0 && s.peer_want & bit != 0
}

/// What the peer sets of a capability is on record: on is the peer's want alone,
/// off is both sides'. Attachments go where that turns them off, no message or
/// rule changes, and the client is told where the capability went on or off. One
/// that does not exist changes nothing.
pub proof fn a_capability_is_set_as_said(
    d: Dispatched,
    rel: Seq<char>,
    s: PolicyState,
    msg_id: [u8; 16],
    cp: ChatPolicy,
    now: u64,
    l: Ledger,
)
    requires
        dispatch::governs(d, rel, s, msg_id, cp, now),
        cp.op == OP_CAP_SET,
        l.policy == s,
    ensures
        ({
            let after = l.after_all(d.effects@);
            let bit = crate::wire::policy::bit_of(cp.cap_id);
            &&& after.rows == l.rows
            &&& bit == 0 ==> after == l && d.events@.len() == 0
            &&& bit != 0 ==> {
                &&& after.policy == (if cp.cap_on {
                    PolicyState { peer_want: s.peer_want | bit, ..s }
                } else {
                    PolicyState {
                        local_want: s.local_want & !bit,
                        peer_want: s.peer_want & !bit,
                        ..s
                    }
                })
                &&& after.attachments == (if !cp.cap_on && bit == FLAG_WANT_ATTACH && both_want(
                    s,
                    bit,
                ) {
                    Set::empty()
                } else {
                    l.attachments
                })
                &&& dispatch::events_of(d.events@) == (if both_want(s, bit) != both_want(
                    after.policy,
                    bit,
                ) {
                    seq![EventView::PolicyChanged { rel_id: rel }]
                } else {
                    Seq::empty()
                })
            }
        }),
{
    governed(l, d, rel, s, msg_id, cp, now);
    let (next, o) = dispatch::policy_step(s, msg_id, cp, now)->0;
    after_outcome(l, next, o);
    crate::policy::what_both_want_is_on(s);
    crate::policy::what_both_want_is_on(next);
    crate::wire::policy::each_capability_has_its_bit(cp.cap_id);
    assert(dispatch::events_of(d.events@).len() == d.events@.len());
}

/// Whether an advertisement of this side's wants went out last: due at half a
/// minute after the last one, and only then.
pub open spec fn advertises(effects: Seq<Effect>, s: PolicyState, now: u64) -> bool {
    let due = now - s.last_sync_at >= 30;
    &&& forall|i: int|
        0 <= i < effects.len() - 1 ==> !((#[trigger] effects[i]) is SendPolicy)
    &&& due <==> effects.last() is SendPolicy
    &&& effects.last() matches Effect::SendPolicy(p) ==> {
        &&& p.op == OP_SYNC
        &&& p.want_attach <==> s.local_want & FLAG_WANT_ATTACH != 0
        &&& p.want_emoji <==> s.local_want & FLAG_WANT_EMOJI != 0
        &&& p.want_presence <==> s.local_want & FLAG_WANT_PRESENCE != 0
        &&& p.want_typing <==> s.local_want & FLAG_WANT_TYPING != 0
        &&& p.want_receipts <==> s.local_want & FLAG_WANT_RECEIPTS != 0
        &&& (p.ttl_sec, p.screenshot, p.attach_download) == (
            s.ttl_sec,
            s.screenshot,
            s.attach_download,
        )
    }
}

/// What the peer wants is on record as it was advertised, capability by
/// capability; this side's wants and the rules stay. Attachments go where both
/// sides wanted them and the peer no longer does. The client is told where any
/// capability went on or off, and this side's wants are advertised in turn if
/// that is due.
pub proof fn wants_are_taken_as_said(
    d: Dispatched,
    rel: Seq<char>,
    s: PolicyState,
    msg_id: [u8; 16],
    cp: ChatPolicy,
    now: u64,
    l: Ledger,
)
    requires
        dispatch::governs(d, rel, s, msg_id, cp, now),
        cp.op == OP_SYNC,
    ensures
        ({
            let after = l.after_all(d.effects@);
            let due = now - s.last_sync_at >= 30;
            let a = FLAG_WANT_ATTACH;
            let e = FLAG_WANT_EMOJI;
            let p = FLAG_WANT_PRESENCE;
            let t = FLAG_WANT_TYPING;
            let r = FLAG_WANT_RECEIPTS;
            &&& after == (Ledger {
                policy: after.policy,
                attachments: after.attachments,
                ..l
            })
            &&& after.policy == (PolicyState {
                peer_want: after.policy.peer_want,
                last_sync_at: if due {
                    now
                } else {
                    s.last_sync_at
                },
                ..s
            })
            &&& after.policy.peer_want & a != 0 <==> cp.want_attach
            &&& after.policy.peer_want & e != 0 <==> cp.want_emoji
            &&& after.policy.peer_want & p != 0 <==> cp.want_presence
            &&& after.policy.peer_want & t != 0 <==> cp.want_typing
            &&& after.policy.peer_want & r != 0 <==> cp.want_receipts
            &&& after.attachments == (if both_want(s, a) && !cp.want_attach {
                Set::empty()
            } else {
                l.attachments
            })
            &&& advertises(d.effects@, s, now)
            &&& dispatch::events_of(d.events@) == (if both_want(s, a) != both_want(after.policy, a)
                || both_want(s, e) != both_want(after.policy, e) || both_want(s, p) != both_want(
                after.policy,
                p,
            ) || both_want(s, t) != both_want(after.policy, t) || both_want(s, r) != both_want(
                after.policy,
                r,
            ) {
                seq![EventView::PolicyChanged { rel_id: rel }]
            } else {
                Seq::empty()
            })
        }),
{
    let (next, o) = dispatch::policy_step(s, msg_id, cp, now)->0;
    let first = seq![Effect::SavePolicy(next)] + dispatch::outcome_effects(o);
    let tail = d.effects@.skip(first.len() as int);
    assert(d.effects@ =~= first + tail);
    after_both(l, first, tail);
    after_outcome(l, next, o);
    machine::wants_travel_by_name(cp, OP_SYNC, next, 0, false, machine::no_id());
    crate::policy::what_both_want_is_on(s);
    crate::policy::what_both_want_is_on(next);
    let mid = l.after_all(first);
    if dispatch::sync_due(next, now) {
        let last = PolicyState { last_sync_at: now, ..next };
        assert(tail =~= seq![Effect::SavePolicy(last), tail[1]]);
        after_two(mid, Effect::SavePolicy(last), tail[1]);
        assert(d.effects@.last() == tail[1]);
    } else {
        assert(tail =~= Seq::<Effect>::empty());
        after_none(mid);
        assert(d.effects@ =~= first);
    }
    let (lw, pw, nw) = (s.local_want, s.peer_want, next.peer_want);
    assert(lw & pw & 31 != lw & nw & 31 <==> ((lw & 1 != 0 && pw & 1 != 0) != (lw & 1 != 0 && nw & 1
        != 0) || (lw & 2 != 0 && pw & 2 != 0) != (lw & 2 != 0 && nw & 2 != 0) || (lw & 4 != 0 && pw
        & 4 != 0) != (lw & 4 != 0 && nw & 4 != 0) || (lw & 8 != 0 && pw & 8 != 0) != (lw & 8 != 0
        && nw & 8 != 0) || (lw & 16 != 0 && pw & 16 != 0) != (lw & 16 != 0 && nw & 16 != 0)))
        by (bit_vector);
}

/// A resync request that is within the peer's rate replaces what was known of the
/// peer's capabilities by what it says, has what the peer misses sent again, and
/// has this side's wants advertised if that is due. Otherwise it is dropped.
pub proof fn a_resync_takes_the_caps_and_sends_again(
    engine: Engine,
    d: Dispatched,
    rel: Seq<char>,
    env: EnvelopeHead,
    caps: u32,
    policy: PolicyState,
    now: u64,
    l: Ledger,
)
    requires
        engine.dispatches(d, rel, env, Content::ResyncReq { caps, policy }, now),
        l.policy == policy,
    ensures
        d.events@.len() == 0,
        if engine.rate.bucket_at(Surface::ResyncReq, rel, now as nat).grants(now as nat) {
            let after = l.after_all(d.effects@);
            &&& after == (Ledger { peer_caps: caps, policy: after.policy, ..l })
            &&& after.policy == (PolicyState {
                last_sync_at: after.policy.last_sync_at,
                ..policy
            })
            &&& exists|i: int|
                0 <= i < d.effects@.len() && #[trigger] d.effects@[i] == Effect::Retransmit
            &&& advertises(d.effects@, policy, now)
        } else {
            d.effects@.len() == 0
        },
{
    assert(dispatch::events_of(d.events@).len() == d.events@.len());
    if engine.rate.bucket_at(Surface::ResyncReq, rel, now as nat).grants(now as nat) {
        let first = seq![Effect::NoteCaps(caps), Effect::Retransmit];
        let tail = d.effects@.skip(2);
        assert(d.effects@ =~= first + tail);
        after_both(l, first, tail);
        after_two(l, Effect::NoteCaps(caps), Effect::Retransmit);
        let mid = l.after_all(first);
        if dispatch::sync_due(policy, now) {
            let last = PolicyState { last_sync_at: now, ..policy };
            assert(tail =~= seq![Effect::SavePolicy(last), tail[1]]);
            after_two(mid, Effect::SavePolicy(last), tail[1]);
            assert(d.effects@.last() == tail[1]);
        } else {
            assert(tail =~= Seq::<Effect>::empty());
            after_none(mid);
            assert(d.effects@ =~= first);
        }
        assert(d.effects@[1] == Effect::Retransmit);
    }
}

// ---------------------------------------------------------------------------
// This side's own rules and wants

proof fn operated(
    l: Ledger,
    d: Dispatched,
    rel: Seq<char>,
    next: PolicyState,
    o: machine::ApplyOutcome,
    op: u8,
    cap_id: u8,
    on: bool,
    id: Seq<u8>,
)
    requires
        engine::operates(d, rel, next, o, op, cap_id, on, id),
    ensures
        l.after_all(d.effects@) == l.after_all(
            seq![Effect::SavePolicy(next)] + dispatch::outcome_effects(o),
        ),
{
    assert(l.after_all(d.effects@) == l.after_all(d.effects@.drop_last()).after(d.effects@.last()));
}

/// Accepting the peer's proposal puts it into force here as it was made, and the
/// acceptance that goes out answers it: it has the proposal's id. A shorter
/// lifetime ends every message by the new lifetime from now.
pub proof fn accepting_puts_the_proposal_into_force(
    d: Dispatched,
    rel: Seq<char>,
    s: PolicyState,
    now: u64,
    l: Ledger,
)
    requires
        s.pending is Some,
        machine::clamp_fits(s, s.pending->0.ttl_sec, now),
        engine::accepts(d, rel, s, now),
    ensures
        ({
            let after = l.after_all(d.effects@);
            let p = s.pending->0;
            &&& after == (Ledger { policy: after.policy, rows: after.rows, ..l })
            &&& after.policy == (PolicyState {
                ttl_sec: p.ttl_sec,
                screenshot: p.screenshot,
                attach_download: p.attach_download,
                pending: None,
                ..s
            })
            &&& (if p.ttl_sec != 0 && (s.ttl_sec == 0 || p.ttl_sec < s.ttl_sec) {
                clamped_to(after.rows, l.rows, now + p.ttl_sec)
            } else {
                after.rows == l.rows
            })
            &&& d.effects@.last() matches Effect::SendPolicy(answer)
            &&& answer.op == OP_RULE_ACCEPT
            &&& answer.propose_id@ == p.propose_id@
        }),
{
    let p = s.pending->0;
    let next = machine::with_rules(s, p.ttl_sec, p.screenshot, p.attach_download);
    let o = machine::rules_outcome(s, p.ttl_sec, p.screenshot, p.attach_download, now);
    operated(l, d, rel, next, o, OP_RULE_ACCEPT, 0, false, p.propose_id@);
    after_outcome(l, next, o);
}

/// Setting a capability on this side puts it on record and tells the peer which
/// one and how. Off is off for both sides, and takes the attachments along where
/// it turns those off.
pub proof fn setting_a_capability_tells_the_peer(
    d: Dispatched,
    rel: Seq<char>,
    s: PolicyState,
    cap_id: u8,
    on: bool,
    l: Ledger,
)
    requires
        crate::wire::policy::bit_of(cap_id) != 0,
        on != (s.local_want & crate::wire::policy::bit_of(cap_id) != 0),
        engine::sets(d, rel, s, cap_id, on),
    ensures
        ({
            let after = l.after_all(d.effects@);
            let bit = crate::wire::policy::bit_of(cap_id);
            &&& after.rows == l.rows
            &&& after.policy == (if on {
                PolicyState { local_want: s.local_want | bit, ..s }
            } else {
                PolicyState { local_want: s.local_want & !bit, peer_want: s.peer_want & !bit, ..s }
            })
            &&& after.attachments == (if !on && bit == FLAG_WANT_ATTACH && both_want(s, bit) {
                Set::empty()
            } else {
                l.attachments
            })
            &&& d.effects@.last() matches Effect::SendPolicy(p)
            &&& (p.op, p.cap_id, p.cap_on) == (OP_CAP_SET, cap_id, on)
            &&& dispatch::events_of(d.events@) == (if both_want(s, bit) != both_want(
                after.policy,
                bit,
            ) {
                seq![EventView::PolicyChanged { rel_id: rel }]
            } else {
                Seq::empty()
            })
        }),
{
    let bit = crate::wire::policy::bit_of(cap_id);
    let next = machine::local_set(s, bit, on);
    let o = machine::cap_outcome(s, next, bit, on);
    operated(l, d, rel, next, o, OP_CAP_SET, cap_id, on, machine::no_id());
    after_outcome(l, next, o);
    crate::policy::what_both_want_is_on(s);
    crate::policy::what_both_want_is_on(next);
    crate::wire::policy::each_capability_has_its_bit(cap_id);
}

// ---------------------------------------------------------------------------
// This side's own envelopes

/// What this side sends does here what it does there: after a deletion the same
/// row is a tombstone on both ledgers and the same id is remembered, after an
/// edit the same row has the same number, and a wipe cuts at the same number and
/// keeps the same frame. Other envelopes change nothing here.
pub proof fn both_ledgers_follow_an_envelope(
    engine: Engine,
    out: Outgoing,
    sent: Sent,
    env: EnvelopeHead,
    d: Dispatched,
    rel: Seq<char>,
    marks: bool,
    now: u64,
    here: Ledger,
    there: Ledger,
)
    requires
        env.msg_id == sent.msg_id,
        env.app_seq == sent.app_seq,
        env.ref_id == out.ref_id,
        env.kind == out.t,
        here.rows == there.rows,
        here.tombstones == there.tombstones,
        here.cut == there.cut,
        out.t == EnvelopeType::Delete ==> engine.dispatches(
            d,
            rel,
            env,
            Content::Delete { marks },
            now,
        ),
        out.t == EnvelopeType::DeleteAll ==> engine.dispatches(
            d,
            rel,
            env,
            Content::DeleteAll,
            now,
        ),
    ensures
        ({
            let mine = here.after_all(send::echo(out, sent));
            let theirs = there.after_all(d.effects@);
            &&& (out.t == EnvelopeType::Delete || out.t == EnvelopeType::DeleteAll) ==> {
                &&& mine.rows == theirs.rows
                &&& mine.tombstones == theirs.tombstones
                &&& mine.cut == theirs.cut
            }
            &&& out.t == EnvelopeType::Edit && out.ref_id is Some ==> {
                let id = out.ref_id->0;
                &&& here.differs_in_row(mine, id)
                &&& here.rows.dom().contains(id) ==> mine.rows[id].last_edit_seq == sent.app_seq
                    && mine.rows[id].edits == here.rows[id].edits + 1
            }
            &&& out.t != EnvelopeType::Delete && out.t != EnvelopeType::DeleteAll && out.t
                != EnvelopeType::Edit ==> mine == here
        }),
{
    if let Some(id) = out.ref_id {
        after_two(here, Effect::MarkTombstoned(id), Effect::AddTombstone(id));
        after_three(
            there,
            Effect::EraseAttachmentsOf(id),
            Effect::AddTombstone(id),
            Effect::MarkTombstoned(id),
        );
        let row = here.rows[id];
        after_one(here, Effect::MarkEdited { target: id, app_seq: sent.app_seq });
        a_row_is_all_that_differs(
            here,
            id,
            Row { edits: row.edits + 1, last_edit_seq: sent.app_seq, ..row },
        );
    } else {
        assert(d.effects@ =~= Seq::<Effect>::empty() || out.t != EnvelopeType::Delete);
    }
    after_two(here, Effect::RaiseCut(sent.app_seq), Effect::EraseHistory(sent.msg_id));
    after_two(there, Effect::RaiseCut(sent.app_seq), Effect::EraseHistory(sent.msg_id));
    after_none(here);
    after_none(there);
}

/// A presence is noted exactly if it was taken: presence is on for both sides, and
/// the peer is within its rate. No other content notes one, and none is noted in
/// another relationship.
pub proof fn presence_is_noted_as_taken(
    engine: Engine,
    content: Content,
    rel: Seq<char>,
    now: u64,
    other: Seq<char>,
)
    ensures
        engine.notes(content, rel, now) is Some <==> content is Presence && both_want(
            content->Presence_policy,
            FLAG_WANT_PRESENCE,
        ) && engine.over_rate(content, rel, now) is None,
        engine.notes(content, rel, now) matches Some(p) ==> p == content->Presence_presence,
        engine.notes(content, rel, now) matches Some(p) ==> engine.entry_after(
            content,
            rel,
            now,
            rel,
        ) == Some((p, now)),
        engine.notes(content, rel, now) is None ==> engine.entry_after(content, rel, now, rel)
            == engine.presence.entry(rel),
        other != rel ==> engine.entry_after(content, rel, now, other) == engine.presence.entry(
            other,
        ),
{
    if content is Presence {
        crate::policy::what_both_want_is_on(content->Presence_policy);
    }
}

/// Between two requests for a resync at least ten seconds lie. The first may go out
/// ten seconds after the epoch.
pub proof fn resyncs_are_asked_for_now_and_then(last: u64, now: u64)
    ensures
        dispatch::resync_due(
            crate::pairing::ingest::stored_time(Some(crate::bytes::be64(last))),
            now as int,
        ) <==> now >= last + 10,
        now >= 10 ==> dispatch::resync_due(
            crate::pairing::ingest::stored_time(None),
            now as int,
        ),
        dispatch::resync_stamp(Some(crate::bytes::be64(last)), now) is Some <==> now >= last + 10,
        dispatch::resync_stamp(Some(crate::bytes::be64(last)), now) matches Some(b) ==> {
            &&& crate::pairing::ingest::stored_time(Some(b)) == now
            &&& dispatch::resync_stamp(Some(b), now) is None
        },
{
    crate::bytes::be64_reads_back(last);
    crate::bytes::be64_reads_back(now);
}

/// A drop is counted exactly if the content was over its rate, once and on its
/// surface.
pub proof fn drops_for_rate_are_counted(
    engine: Engine,
    content: Content,
    rel: Seq<char>,
    now: u64,
    surface: Surface,
)
    requires
        engine.limited.of(surface) < u64::MAX,
    ensures
        engine.over_rate(content, rel, now) == Some(surface) <==> engine.counts_after(
            content,
            rel,
            now,
        ).of(surface) == engine.limited.of(surface) + 1,
        engine.over_rate(content, rel, now) != Some(surface) ==> engine.counts_after(
            content,
            rel,
            now,
        ).of(surface) == engine.limited.of(surface),
{
    if let Some(s) = engine.over_rate(content, rel, now) {
        crate::ratelimit::drops_are_counted_where_they_happen(engine.limited, s, surface);
    }
}

} // verus!
