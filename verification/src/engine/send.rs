//! What may leave. Every envelope is decided on here, and nothing else leaves.

use vstd::prelude::*;
use vstd::utf8::encode_utf8;

use crate::caps::{self, check_outbound};
use crate::engine::{EngineError, EngineFault};
use crate::engine::dispatch::Effect;
use crate::engine::inbound::EnvelopeHead;
use crate::messages::MAX_BODY_BYTES;
use crate::messages::edit::{self, can_offer_edit};
use crate::pairing::{SESSION_BROKEN, STATE_ACTIVE, STATE_REQUEST};
use crate::pairing::messaging::{self, intro_of, is_unaccepted};
use crate::pairing::relationship::{Relation, Relationship};
use crate::policy::PolicyState;
use crate::store::{DeliveryState, Direction, MessageRow};
use crate::text::same_text;
use crate::util::random_bytes;
use crate::wire::envelope::{self, EnvelopeType};
use crate::wire::policy::{
    FLAG_WANT_ATTACH, FLAG_WANT_EMOJI, FLAG_WANT_PRESENCE, FLAG_WANT_RECEIPTS, FLAG_WANT_TYPING,
    TTL_NEVER,
};

verus! {

/// How long an outbound record is kept for delivery: 24 hours.
pub const MESSAGE_TTL_SECS: u64 = 86_400;

/// Whether the policy denies a type: what it stands for is off.
pub open spec fn policy_denies(policy: PolicyState, t: EnvelopeType) -> bool {
    match t {
        EnvelopeType::Typing => !policy.on(FLAG_WANT_TYPING),
        EnvelopeType::Presence => !policy.on(FLAG_WANT_PRESENCE),
        EnvelopeType::Read => !policy.on(FLAG_WANT_RECEIPTS),
        EnvelopeType::Sticker => !policy.on(FLAG_WANT_EMOJI),
        EnvelopeType::StickerCtrl => !policy.on(FLAG_WANT_EMOJI),
        EnvelopeType::AttachHead => !policy.on(FLAG_WANT_ATTACH),
        EnvelopeType::AttachChunk => !policy.on(FLAG_WANT_ATTACH),
        _ => false,
    }
}

/// The types that still leave a settling relationship: those that close it.
pub open spec fn closes(t: EnvelopeType) -> bool {
    t == EnvelopeType::DeleteAll || t == EnvelopeType::ContactClose || t == EnvelopeType::ResyncReq
}

/// The first ground on which an envelope is refused, if any.
pub open spec fn refusal(
    row: Relation,
    closing: bool,
    peer_caps: u32,
    policy: PolicyState,
    t: EnvelopeType,
) -> Option<EngineFault> {
    if row.session_state == SESSION_BROKEN@ {
        Some(EngineFault::SessionBroken)
    } else if messaging::unaccepted(row) {
        Some(EngineFault::NotActive)
    } else if row.state != STATE_ACTIVE@ && row.state != STATE_REQUEST@ {
        Some(EngineFault::NotActive)
    } else if closing && !closes(t) {
        Some(EngineFault::Closing)
    } else if !caps::allowed(peer_caps, t) {
        Some(EngineFault::CapGated(t))
    } else if policy_denies(policy, t) {
        Some(EngineFault::PolicyDenied(t))
    } else {
        None
    }
}

fn denied(policy: &PolicyState, t: EnvelopeType) -> (d: bool)
    ensures
        d == policy_denies(*policy, t),
{
    match t {
        EnvelopeType::Typing => !policy.typing(),
        EnvelopeType::Presence => !policy.presence(),
        EnvelopeType::Read => !policy.receipts(),
        EnvelopeType::Sticker => !policy.emoji(),
        EnvelopeType::StickerCtrl => !policy.emoji(),
        EnvelopeType::AttachHead => !policy.attachments(),
        EnvelopeType::AttachChunk => !policy.attachments(),
        _ => false,
    }
}

/// Checks that every outbound envelope passes.
pub fn gate_outbound(
    row: &Relationship,
    closing: bool,
    peer_caps: u32,
    policy: &PolicyState,
    t: EnvelopeType,
) -> (r: Result<(), EngineError>)
    ensures
        match refusal(row@, closing, peer_caps, *policy, t) {
            None => r is Ok,
            Some(why) => r is Err && r->Err_0@ == why,
        },
{
    if same_text(row.session_state.as_str(), SESSION_BROKEN) {
        return Err(EngineError::SessionBroken);
    }
    if is_unaccepted(row) {
        return Err(EngineError::NotActive);
    }
    if !same_text(row.state.as_str(), STATE_ACTIVE) && !same_text(
        row.state.as_str(),
        STATE_REQUEST,
    ) {
        return Err(EngineError::NotActive);
    }
    if closing && !(t == EnvelopeType::DeleteAll || t == EnvelopeType::ContactClose || t
        == EnvelopeType::ResyncReq) {
        return Err(EngineError::Closing);
    }
    if !check_outbound(peer_caps, t) {
        return Err(EngineError::CapGated(t));
    }
    if denied(policy, t) {
        return Err(EngineError::PolicyDenied(t));
    }
    Ok(())
}

/// A message that was sent.
#[derive(Clone, Copy, Debug, PartialEq, Eq)]
pub struct Sent {
    pub msg_id: [u8; 16],
    pub app_seq: u64,
}

/// How the ledger has an outbound envelope, but for its relationship and its
/// payload.
#[derive(Clone, Copy, Debug)]
pub struct NewMessage {
    pub msg_id: [u8; 16],
    pub direction: Direction,
    pub app_seq: u64,
    pub sent_at: u64,
    pub received_at: Option<u64>,
    pub env_type: u8,
    pub ref_id: Option<[u8; 16]>,
    pub state: DeliveryState,
    pub expires_at: Option<u64>,
}

/// What goes with an envelope that may leave.
#[derive(Clone, Debug)]
pub struct SendPlan {
    pub sent: Sent,
    /// The head of the envelope.
    pub head: EnvelopeHead,
    /// How the ledger has it.
    pub row: NewMessage,
    /// How long the record is kept for delivery.
    pub queue_secs: u64,
    /// This side's payload, until the peer has answered.
    pub intro: Option<Vec<u8>>,
}

/// An envelope to send: its type, the message that it refers to, and whether
/// it asks for the peer's attention.
#[derive(Clone, Copy, Debug, PartialEq, Eq)]
pub struct Outgoing {
    pub t: EnvelopeType,
    pub ref_id: Option<[u8; 16]>,
    pub alert: bool,
}

impl Outgoing {
    /// An envelope that asks for no attention.
    pub open spec fn quiet(t: EnvelopeType, ref_id: Option<[u8; 16]>) -> Outgoing {
        Outgoing { t, ref_id, alert: false }
    }
}

/// When a message of now expires.
pub open spec fn expiry(policy: PolicyState, now: u64) -> Option<u64> {
    if policy.ttl_sec == TTL_NEVER {
        None
    } else {
        Some((now + policy.ttl_sec) as u64)
    }
}

impl SendPlan {
    /// Whether this is the plan for an envelope: head and ledger row are those
    /// of the envelope under the plan's id, and the intro rides along until
    /// the peer has answered.
    pub open spec fn is_for(
        &self,
        row: Relation,
        policy: PolicyState,
        out: Outgoing,
        app_seq: u64,
        now: u64,
    ) -> bool {
        &&& self.sent.app_seq == app_seq
        &&& self.head == (EnvelopeHead {
            msg_id: self.sent.msg_id,
            app_seq,
            sent_at: now,
            ref_id: out.ref_id,
            kind: out.t,
        })
        &&& self.row == (NewMessage {
            msg_id: self.sent.msg_id,
            direction: Direction::Out,
            app_seq,
            sent_at: now,
            received_at: None,
            env_type: envelope::type_code(out.t),
            ref_id: out.ref_id,
            state: DeliveryState::Queued,
            expires_at: expiry(policy, now),
        })
        &&& self.queue_secs == MESSAGE_TTL_SECS
        &&& match self.intro {
            Some(b) => row.intro_pending && b@ == row.our_qr_bytes,
            None => !row.intro_pending,
        }
    }
}

/// Decides on an outbound envelope: whether it may leave, a fresh id, its head,
/// its ledger row, and the intro that rides along.
pub fn send_envelope(
    row: Option<&Relationship>,
    closing: bool,
    peer_caps: u32,
    policy: &PolicyState,
    out: &Outgoing,
    app_seq: u64,
    now: u64,
) -> (r: Result<SendPlan, EngineError>)
    requires
        now + policy.ttl_sec <= u64::MAX,
    ensures
        match row {
            None => r is Err && r->Err_0@ == EngineFault::UnknownRelationship,
            Some(row) => match refusal(row@, closing, peer_caps, *policy, out.t) {
                Some(why) => r is Err && r->Err_0@ == why,
                None => r is Ok && r->Ok_0.is_for(row@, *policy, *out, app_seq, now),
            },
        },
{
    let row: &Relationship = match row {
        Some(row) => row,
        None => {
            return Err(EngineError::UnknownRelationship);
        },
    };
    if let Err(e) = gate_outbound(row, closing, peer_caps, policy, out.t) {
        return Err(e);
    }
    let msg_id: [u8; 16] = random_bytes::<16>();
    Ok(
        SendPlan {
            sent: Sent { msg_id, app_seq },
            head: EnvelopeHead { msg_id, app_seq, sent_at: now, ref_id: out.ref_id, kind: out.t },
            row: NewMessage {
                msg_id,
                direction: Direction::Out,
                app_seq,
                sent_at: now,
                received_at: None,
                env_type: out.t.code(),
                ref_id: out.ref_id,
                state: DeliveryState::Queued,
                expires_at: policy.expiry_at(now),
            },
            queue_secs: MESSAGE_TTL_SECS,
            intro: intro_of(row),
        },
    )
}

/// How a message stands after an attempt.
pub open spec fn state_after(ok: bool) -> DeliveryState {
    if ok {
        DeliveryState::Transmitted
    } else {
        DeliveryState::Queued
    }
}

/// How a message stands after the first attempt: transmitted and off the
/// queue, or still queued.
pub fn after_send(ok: bool) -> (state: DeliveryState)
    ensures
        state == state_after(ok),
{
    if ok {
        DeliveryState::Transmitted
    } else {
        DeliveryState::Queued
    }
}

/// What sending an envelope does here, once it is out: this side's ledger
/// follows what the peer is told.
pub open spec fn echo(out: Outgoing, sent: Sent) -> Seq<Effect> {
    match (out.t, out.ref_id) {
        (EnvelopeType::Edit, Some(id)) => seq![
            Effect::MarkEdited { target: id, app_seq: sent.app_seq },
        ],
        (EnvelopeType::Delete, Some(id)) => seq![
            Effect::MarkTombstoned(id),
            Effect::AddTombstone(id),
        ],
        (EnvelopeType::DeleteAll, _) => seq![
            Effect::RaiseCut(sent.app_seq),
            Effect::EraseHistory(sent.msg_id),
        ],
        _ => Seq::empty(),
    }
}

/// What sending an envelope does here, once it is out.
pub fn local_echo(out: &Outgoing, sent: &Sent) -> (effects: Vec<Effect>)
    ensures
        effects@ == echo(*out, *sent),
{
    let effects: Vec<Effect> = match (out.t, out.ref_id) {
        (EnvelopeType::Edit, Some(id)) => vec![
            Effect::MarkEdited { target: id, app_seq: sent.app_seq },
        ],
        (EnvelopeType::Delete, Some(id)) => vec![
            Effect::MarkTombstoned(id),
            Effect::AddTombstone(id),
        ],
        (EnvelopeType::DeleteAll, _) => vec![
            Effect::RaiseCut(sent.app_seq),
            Effect::EraseHistory(sent.msg_id),
        ],
        _ => Vec::new(),
    };
    assert(effects@ =~= echo(*out, *sent));
    effects
}

/// An envelope or an error, as values.
pub open spec fn outgoing_result(r: Result<Outgoing, EngineError>) -> Result<Outgoing, EngineFault> {
    match r {
        Ok(out) => Ok(out),
        Err(e) => Err(e@),
    }
}

/// The text message of a body, which asks for attention; none for a body that is
/// too large.
pub open spec fn text_message(body: Seq<u8>, reply_to: Option<[u8; 16]>) -> Result<
    Outgoing,
    EngineFault,
> {
    if body.len() > MAX_BODY_BYTES {
        Err(EngineFault::EditDenied("body too large"@))
    } else {
        Ok(Outgoing { t: EnvelopeType::Msg, ref_id: reply_to, alert: true })
    }
}

/// A text message, which asks for attention and may reply to another.
pub fn send_text(body: &str, reply_to: Option<[u8; 16]>) -> (r: Result<Outgoing, EngineError>)
    ensures
        outgoing_result(r) == text_message(encode_utf8(body@), reply_to),
{
    if body.as_bytes().len() > MAX_BODY_BYTES {
        return Err(EngineError::EditDenied("body too large"));
    }
    Ok(Outgoing { t: EnvelopeType::Msg, ref_id: reply_to, alert: true })
}

/// The edit of a message of a relationship, which the ledger has as `row`.
pub open spec fn edit_message(
    row: Option<MessageRow>,
    rel: Seq<char>,
    target: [u8; 16],
    now: u64,
) -> Result<Outgoing, EngineFault> {
    match row {
        None => Err(EngineFault::NotFound),
        Some(row) => if row.rel_id@ != rel {
            Err(EngineFault::NotFound)
        } else if !edit::editable(row, now) {
            Err(EngineFault::EditDenied("window closed, cap reached, or not our text"@))
        } else {
            Ok(Outgoing::quiet(EnvelopeType::Edit, Some(target)))
        },
    }
}

/// An edit of the message `target`, which the ledger has as `row`: it is of
/// this relationship, and it is this side's text, inside the window and below
/// the cap.
pub fn send_edit(
    row: Option<&MessageRow>,
    rel_id: &str,
    target: [u8; 16],
    now: u64,
) -> (r: Result<Outgoing, EngineError>)
    ensures
        outgoing_result(r) == edit_message(
            match row {
                Some(row) => Some(*row),
                None => None,
            },
            rel_id@,
            target,
            now,
        ),
{
    let row: &MessageRow = match row {
        Some(row) => row,
        None => {
            return Err(EngineError::NotFound);
        },
    };
    if !same_text(row.rel_id.as_str(), rel_id) {
        return Err(EngineError::NotFound);
    }
    if !can_offer_edit(row, now) {
        return Err(EngineError::EditDenied("window closed, cap reached, or not our text"));
    }
    Ok(Outgoing { t: EnvelopeType::Edit, ref_id: Some(target), alert: false })
}

/// The envelope that deletes a message.
pub open spec fn deletion(target: [u8; 16]) -> Outgoing {
    Outgoing::quiet(EnvelopeType::Delete, Some(target))
}

/// The envelope that deletes the thread.
pub open spec fn wipe() -> Outgoing {
    Outgoing::quiet(EnvelopeType::DeleteAll, None)
}

/// The envelope that says that a message was read.
pub open spec fn receipt(target: [u8; 16]) -> Outgoing {
    Outgoing::quiet(EnvelopeType::Read, Some(target))
}

/// The envelope of a typing indicator, where one goes out.
pub open spec fn indicator(typing: bool, due: bool) -> Option<Outgoing> {
    if typing && !due {
        None
    } else {
        Some(Outgoing::quiet(EnvelopeType::Typing, None))
    }
}

/// The envelope of a presence beat.
pub open spec fn beat() -> Outgoing {
    Outgoing::quiet(EnvelopeType::Presence, None)
}

/// The deletion of a message, for both sides.
pub fn send_delete(target: [u8; 16]) -> (out: Outgoing)
    ensures
        out == deletion(target),
{
    Outgoing { t: EnvelopeType::Delete, ref_id: Some(target), alert: false }
}

/// The deletion of the whole thread, for both sides.
pub fn send_delete_all() -> (out: Outgoing)
    ensures
        out == wipe(),
{
    Outgoing { t: EnvelopeType::DeleteAll, ref_id: None, alert: false }
}

/// A typing indicator. A start goes out where one is due, a stop always.
pub fn send_typing(typing: bool, due: bool) -> (out: Option<Outgoing>)
    ensures
        out == indicator(typing, due),
{
    if typing && !due {
        return None;
    }
    Some(Outgoing { t: EnvelopeType::Typing, ref_id: None, alert: false })
}

/// A presence beat.
pub fn send_presence() -> (out: Outgoing)
    ensures
        out == beat(),
{
    Outgoing { t: EnvelopeType::Presence, ref_id: None, alert: false }
}

/// A read receipt for an inbound message.
pub fn send_read(target: [u8; 16]) -> (out: Outgoing)
    ensures
        out == receipt(target),
{
    Outgoing { t: EnvelopeType::Read, ref_id: Some(target), alert: false }
}

// ---------------------------------------------------------------------------
// Laws

/// Once a message or the whole thread is deleted for both sides, this side's
/// ledger holds it no more: the message is tombstoned and remembered as such,
/// and the thread is erased below the frame that wiped it.
pub proof fn deletions_apply_here_too(target: [u8; 16], sent: Sent)
    ensures
        echo(Outgoing::quiet(EnvelopeType::Delete, Some(target)), sent) == seq![
            Effect::MarkTombstoned(target),
            Effect::AddTombstone(target),
        ],
        echo(Outgoing::quiet(EnvelopeType::DeleteAll, None), sent) == seq![
            Effect::RaiseCut(sent.app_seq),
            Effect::EraseHistory(sent.msg_id),
        ],
{
}

/// Only what the peer speaks and both sides want leaves, and only on a live
/// session of an accepted relationship.
pub proof fn only_what_the_peer_speaks_leaves(
    row: Relation,
    closing: bool,
    peer_caps: u32,
    policy: PolicyState,
    t: EnvelopeType,
)
    requires
        refusal(row, closing, peer_caps, policy, t) is None,
    ensures
        caps::allowed(peer_caps, t),
        !policy_denies(policy, t),
        row.session_state != SESSION_BROKEN@,
        !messaging::unaccepted(row),
{
}

/// A settling relationship sends what closes it, and nothing else.
pub proof fn settling_sends_control_only(
    row: Relation,
    peer_caps: u32,
    policy: PolicyState,
    t: EnvelopeType,
)
    requires
        refusal(row, true, peer_caps, policy, t) is None,
    ensures
        closes(t),
{
}

/// The frames that close a relationship need no capability and no policy: a
/// live, accepted relationship can always be closed.
pub proof fn closing_is_always_possible(
    row: Relation,
    closing: bool,
    peer_caps: u32,
    policy: PolicyState,
    t: EnvelopeType,
)
    requires
        closes(t),
        row.session_state != SESSION_BROKEN@,
        !messaging::unaccepted(row),
        row.state == STATE_ACTIVE@ || row.state == STATE_REQUEST@,
    ensures
        refusal(row, closing, peer_caps, policy, t) is None,
{
}

/// Whatever is not refused is wanted by both sides, capability by capability:
/// read receipts leave only while both want receipts, typing and presence only
/// while both want those, stickers only while both want emoji, and attachments
/// only while both want attachments.
pub proof fn only_what_both_want_leaves(
    row: Relation,
    closing: bool,
    peer_caps: u32,
    policy: PolicyState,
    t: EnvelopeType,
)
    requires
        refusal(row, closing, peer_caps, policy, t) is None,
    ensures
        t == EnvelopeType::Read ==> policy.local_want & FLAG_WANT_RECEIPTS != 0 && policy.peer_want
            & FLAG_WANT_RECEIPTS != 0,
        t == EnvelopeType::Typing ==> policy.local_want & FLAG_WANT_TYPING != 0 && policy.peer_want
            & FLAG_WANT_TYPING != 0,
        t == EnvelopeType::Presence ==> policy.local_want & FLAG_WANT_PRESENCE != 0
            && policy.peer_want & FLAG_WANT_PRESENCE != 0,
        t == EnvelopeType::Sticker || t == EnvelopeType::StickerCtrl ==> policy.local_want
            & FLAG_WANT_EMOJI != 0 && policy.peer_want & FLAG_WANT_EMOJI != 0,
        t == EnvelopeType::AttachHead || t == EnvelopeType::AttachChunk ==> policy.local_want
            & FLAG_WANT_ATTACH != 0 && policy.peer_want & FLAG_WANT_ATTACH != 0,
{
    crate::policy::what_both_want_is_on(policy);
}

/// The capability that a type stands for, if it stands for one.
pub open spec fn want_bit(t: EnvelopeType) -> Option<u32> {
    match t {
        EnvelopeType::Typing => Some(FLAG_WANT_TYPING),
        EnvelopeType::Presence => Some(FLAG_WANT_PRESENCE),
        EnvelopeType::Read => Some(FLAG_WANT_RECEIPTS),
        EnvelopeType::Sticker | EnvelopeType::StickerCtrl => Some(FLAG_WANT_EMOJI),
        EnvelopeType::AttachHead | EnvelopeType::AttachChunk => Some(FLAG_WANT_ATTACH),
        _ => None,
    }
}

/// An envelope leaves exactly if the session works, the relationship is active or
/// a request that the peer has to accept, it is not settling or the envelope
/// closes it, the peer speaks the type, and both sides want what it stands for.
/// Each ground for a refusal has its own error.
pub proof fn what_leaves_and_why_not(
    row: Relation,
    closing: bool,
    peer_caps: u32,
    policy: PolicyState,
    t: EnvelopeType,
)
    ensures
        ({
            let why = refusal(row, closing, peer_caps, policy, t);
            let broken = row.session_state == "broken"@;
            let ours_to_accept = row.role == "inviter"@ && row.state == "request"@;
            let live = (row.state == "active"@ || row.state == "request"@) && !ours_to_accept;
            let held = closing && t != EnvelopeType::DeleteAll && t != EnvelopeType::ContactClose
                && t != EnvelopeType::ResyncReq;
            let spoken = caps::needed_cap(t) matches Some(bit) ==> peer_caps & bit != 0;
            let wanted = want_bit(t) matches Some(bit) ==> policy.local_want & bit != 0
                && policy.peer_want & bit != 0;
            &&& why is None <==> !broken && live && !held && spoken && wanted
            &&& why == Some(EngineFault::SessionBroken) <==> broken
            &&& why == Some(EngineFault::NotActive) <==> !broken && !live
            &&& why == Some(EngineFault::Closing) <==> !broken && live && held
            &&& why == Some(EngineFault::CapGated(t)) <==> !broken && live && !held && !spoken
            &&& why == Some(EngineFault::PolicyDenied(t)) <==> !broken && live && !held && spoken
                && !wanted
        }),
{
    crate::policy::what_both_want_is_on(policy);
}

/// A planned envelope is one and the same in its head and in the ledger: one id,
/// one number, this instant, the type and the reference that were asked for. It
/// waits to be sent for a day, ends with the agreed lifetime from now, and takes
/// this side's payload along until the peer has answered.
pub proof fn a_plan_is_of_one_envelope(
    plan: SendPlan,
    row: Relation,
    policy: PolicyState,
    out: Outgoing,
    app_seq: u64,
    now: u64,
)
    requires
        plan.is_for(row, policy, out, app_seq, now),
        now + policy.ttl_sec <= u64::MAX,
    ensures
        plan.head.msg_id == plan.sent.msg_id,
        plan.row.msg_id == plan.sent.msg_id,
        plan.sent.app_seq == plan.head.app_seq == plan.row.app_seq == app_seq,
        plan.head.sent_at == plan.row.sent_at == now,
        plan.head.kind == out.t,
        plan.row.env_type == envelope::type_code(out.t),
        plan.head.ref_id == out.ref_id,
        plan.row.ref_id == out.ref_id,
        plan.row.direction == Direction::Out,
        plan.row.state == DeliveryState::Queued,
        plan.row.received_at is None,
        policy.ttl_sec == 0 <==> plan.row.expires_at is None,
        plan.row.expires_at matches Some(at) ==> at == now + policy.ttl_sec,
        plan.queue_secs == 24 * 60 * 60,
        plan.intro is Some <==> row.intro_pending,
        plan.intro matches Some(b) ==> b@ == row.our_qr_bytes,
{
}

/// An envelope that asks for no attention is of the type and refers to the
/// message that it was made for.
pub proof fn a_quiet_envelope_is_as_asked(t: EnvelopeType, ref_id: Option<[u8; 16]>)
    ensures
        Outgoing::quiet(t, ref_id).t == t,
        Outgoing::quiet(t, ref_id).ref_id == ref_id,
        !Outgoing::quiet(t, ref_id).alert,
{
}

/// A text goes out exactly if it has no more than 16,384 bytes. It asks for
/// attention and refers to the message that it replies to.
pub proof fn texts_go_out_up_to_a_size(body: Seq<u8>, reply_to: Option<[u8; 16]>)
    ensures
        text_message(body, reply_to) is Ok <==> body.len() <= 16_384,
        text_message(body, reply_to) matches Ok(out) ==> out.t == EnvelopeType::Msg && out.ref_id
            == reply_to && out.alert,
{
}

/// An edit goes out exactly if the message is of the relationship, this side's, a
/// text that is not deleted, sent less than an hour ago and edited less than thirty
/// times. It refers to the message, and does not ask for attention.
pub proof fn edits_go_out_in_time(
    row: Option<MessageRow>,
    rel: Seq<char>,
    target: [u8; 16],
    now: u64,
)
    ensures
        ({
            let r = edit_message(row, rel, target, now);
            &&& r is Ok <==> row is Some && row->0.rel_id@ == rel && row->0.direction
                == Direction::Out && row->0.env_type == envelope::type_code(EnvelopeType::Msg)
                && !row->0.tombstone && row->0.edit_count < 30 && now < row->0.sent_at + 3600
            &&& r matches Ok(out) ==> out.t == EnvelopeType::Edit && out.ref_id == Some(target)
                && !out.alert
            &&& r == Err::<Outgoing, EngineFault>(EngineFault::NotFound) <==> row is None
                || row->0.rel_id@ != rel
        }),
{
}

/// Each of these goes out as what it is, to the message that it is about, without
/// asking for attention: deletions, receipts, typing and presence. A start of
/// typing waits until one is due; a stop does not.
pub proof fn what_is_done_goes_out_as_such(target: [u8; 16], typing: bool, due: bool)
    ensures
        deletion(target).t == EnvelopeType::Delete,
        deletion(target).ref_id == Some(target),
        wipe().t == EnvelopeType::DeleteAll,
        wipe().ref_id is None,
        receipt(target).t == EnvelopeType::Read,
        receipt(target).ref_id == Some(target),
        beat().t == EnvelopeType::Presence,
        beat().ref_id is None,
        indicator(typing, due) is Some <==> !typing || due,
        indicator(typing, due) matches Some(out) ==> out.t == EnvelopeType::Typing && out.ref_id
            is None && !out.alert,
        !deletion(target).alert && !wipe().alert && !receipt(target).alert && !beat().alert,
{
}

/// A message is off the queue exactly if the attempt succeeded.
pub proof fn only_what_went_out_leaves_the_queue(ok: bool)
    ensures
        state_after(ok) == DeliveryState::Transmitted <==> ok,
        state_after(ok) == DeliveryState::Queued <==> !ok,
{
}

} // verus!
