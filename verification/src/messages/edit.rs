//! Whether an edit may be offered, and whether a received one is applied.
//!
//! The receiver's window runs from when the message was first received: a copy
//! that arrives late does not extend it.

use vstd::prelude::*;

use crate::messages::{EDIT_MAX_EDITS, EDIT_WINDOW_SEC};
use crate::messages::delete;
use crate::store::{Direction, MessageRow};
use crate::wire::envelope::{self, EnvelopeType};

verus! {

/// What becomes of a received edit.
#[derive(Clone, Copy, Debug, PartialEq, Eq, Structural)]
pub enum EditDecision {
    Apply,
    /// The edit's own id was tombstoned: its deletion came first.
    DropTombstone,
    /// Below the relationship's history cut.
    DropHistoryCut,
    /// No row for the message that it edits.
    DropMissing,
    /// Only the author edits: the target must be an inbound row.
    DropAuthorship,
    /// Only plain messages can be edited.
    DropKind,
    /// The target is past its lifetime.
    DropExpired,
    /// Past the edit window.
    DropWindow,
    /// The target has had all its edits.
    DropCap,
    /// Not newer than the last edit that was applied.
    DropStaleSeq,
    DropTooLarge,
}

/// When the window of a received message opened.
pub open spec fn first_received(row: MessageRow) -> u64 {
    match row.received_at {
        Some(at) => at,
        None => row.created_at,
    }
}

/// Whether a row's lifetime is over.
pub open spec fn expired(row: MessageRow, now: u64) -> bool {
    row.expires_at matches Some(at) && now >= at
}

/// The rows that their author may still edit.
pub open spec fn editable(row: MessageRow, now: u64) -> bool {
    &&& row.direction == Direction::Out
    &&& row.env_type == envelope::type_code(EnvelopeType::Msg)
    &&& !row.tombstone
    &&& row.edit_count < EDIT_MAX_EDITS
    &&& now < row.sent_at + EDIT_WINDOW_SEC
}

/// The decision on a received edit: the first ground that holds, in this
/// order.
pub open spec fn edit_verdict(
    target: Option<MessageRow>,
    now: u64,
    seq: u64,
    body_bytes: nat,
    max_body_bytes: nat,
    tombstoned: bool,
    cut: u64,
) -> EditDecision {
    if delete::below_cut(seq, cut) {
        EditDecision::DropHistoryCut
    } else if tombstoned {
        EditDecision::DropTombstone
    } else {
        match target {
            None => EditDecision::DropMissing,
            Some(row) => if row.direction != Direction::In {
                EditDecision::DropAuthorship
            } else if row.env_type != envelope::type_code(EnvelopeType::Msg) {
                EditDecision::DropKind
            } else if expired(row, now) {
                EditDecision::DropExpired
            } else if now >= first_received(row) + EDIT_WINDOW_SEC {
                EditDecision::DropWindow
            } else if row.edit_count >= EDIT_MAX_EDITS {
                EditDecision::DropCap
            } else if seq <= row.last_edit_seq {
                EditDecision::DropStaleSeq
            } else if body_bytes > max_body_bytes {
                EditDecision::DropTooLarge
            } else {
                EditDecision::Apply
            },
        }
    }
}

fn past(now: u64, start: u64) -> (p: bool)
    ensures
        p == (now >= start + EDIT_WINDOW_SEC),
{
    now >= start && now - start >= EDIT_WINDOW_SEC
}

/// Whether the user may edit a message: it is their own text message, inside
/// the window and below the cap.
pub fn can_offer_edit(row: &MessageRow, now: u64) -> (ok: bool)
    ensures
        ok == editable(*row, now),
{
    if row.direction != Direction::Out {
        return false;
    }
    if row.env_type != EnvelopeType::Msg.code() {
        return false;
    }
    if row.tombstone || row.edit_count >= EDIT_MAX_EDITS {
        return false;
    }
    !past(now, row.sent_at)
}

/// The decision on a received edit. `tombstoned` says whether the edit's own
/// id is.
pub fn edit_decision(
    target: Option<&MessageRow>,
    now: u64,
    incoming_app_seq: u64,
    body_bytes: usize,
    max_body_bytes: usize,
    tombstoned: bool,
    history_cut_seq: u64,
) -> (d: EditDecision)
    ensures
        d == edit_verdict(
            match target {
                Some(row) => Some(*row),
                None => None,
            },
            now,
            incoming_app_seq,
            body_bytes as nat,
            max_body_bytes as nat,
            tombstoned,
            history_cut_seq,
        ),
{
    if history_cut_seq > 0 && incoming_app_seq < history_cut_seq {
        return EditDecision::DropHistoryCut;
    }
    if tombstoned {
        return EditDecision::DropTombstone;
    }
    let row: &MessageRow = match target {
        Some(row) => row,
        None => {
            return EditDecision::DropMissing;
        },
    };
    if row.direction != Direction::In {
        return EditDecision::DropAuthorship;
    }
    if row.env_type != EnvelopeType::Msg.code() {
        return EditDecision::DropKind;
    }
    if let Some(at) = row.expires_at {
        if now >= at {
            return EditDecision::DropExpired;
        }
    }
    let opened: u64 = match row.received_at {
        Some(at) => at,
        None => row.created_at,
    };
    if past(now, opened) {
        return EditDecision::DropWindow;
    }
    if row.edit_count >= EDIT_MAX_EDITS {
        return EditDecision::DropCap;
    }
    if incoming_app_seq <= row.last_edit_seq {
        return EditDecision::DropStaleSeq;
    }
    if body_bytes > max_body_bytes {
        return EditDecision::DropTooLarge;
    }
    EditDecision::Apply
}

/// An edit that was applied is not applied a second time, nor is an older
/// one: the row then holds its sequence number.
pub proof fn edits_apply_once(
    row: MessageRow,
    edited: MessageRow,
    now: u64,
    later: u64,
    seq: u64,
    again: u64,
    body: nat,
    max: nat,
    cut: u64,
)
    requires
        edit_verdict(Some(row), now, seq, body, max, false, cut) == EditDecision::Apply,
        edited.last_edit_seq == seq,
        again <= seq,
    ensures
        edit_verdict(Some(edited), later, again, body, max, false, cut) != EditDecision::Apply,
{
}

/// An applied edit targets a live inbound text message, inside its window,
/// below its cap, at or above the cut.
pub proof fn applied_edits_are_sound(
    target: Option<MessageRow>,
    now: u64,
    seq: u64,
    body: nat,
    max: nat,
    tombstoned: bool,
    cut: u64,
)
    requires
        edit_verdict(target, now, seq, body, max, tombstoned, cut) == EditDecision::Apply,
    ensures
        target is Some,
        target->0.direction == Direction::In,
        target->0.env_type == envelope::type_code(EnvelopeType::Msg),
        target->0.edit_count < EDIT_MAX_EDITS,
        target->0.last_edit_seq < seq,
        now < first_received(target->0) + EDIT_WINDOW_SEC,
        !tombstoned,
        body <= max,
        cut == 0 || cut <= seq,
{
}

/// An author may edit a message that is theirs, plain and not deleted, within an
/// hour of sending it, thirty times.
pub proof fn authors_edit_for_an_hour(row: MessageRow, now: u64)
    ensures
        editable(row, now) <==> row.direction == Direction::Out && row.env_type
            == envelope::type_code(EnvelopeType::Msg) && !row.tombstone && row.edit_count < 30 && now
            < row.sent_at + 3600,
        expired(row, now) <==> row.expires_at is Some && row.expires_at->0 <= now,
        row.received_at is Some ==> first_received(row) == row.received_at->0,
        row.received_at is None ==> first_received(row) == row.created_at,
{
}

/// What the author may still edit, the peer takes: the same message, received
/// after it was sent and edited as often, within its lifetime.
pub proof fn edits_in_time_are_taken(
    ours: MessageRow,
    theirs: MessageRow,
    now: u64,
    seq: u64,
    body_bytes: nat,
    max_body_bytes: nat,
    cut: u64,
)
    requires
        editable(ours, now),
        theirs.direction == Direction::In,
        theirs.env_type == ours.env_type,
        theirs.edit_count == ours.edit_count,
        theirs.received_at is Some,
        theirs.received_at->0 >= ours.sent_at,
        theirs.expires_at matches Some(at) ==> now < at,
        seq > theirs.last_edit_seq,
        seq >= cut,
        body_bytes <= max_body_bytes,
    ensures
        edit_verdict(Some(theirs), now, seq, body_bytes, max_body_bytes, false, cut)
            == EditDecision::Apply,
{
}

/// An edit is dropped for the first ground that holds: it is older than the cut,
/// it was deleted, its message is not there, is not the peer's, is no text, is over,
/// is an hour old, was edited thirty times, was edited later, or gets too large.
pub proof fn edits_are_dropped_for_the_first_ground(
    row: MessageRow,
    now: u64,
    seq: u64,
    body_bytes: nat,
    max_body_bytes: nat,
    tombstoned: bool,
    cut: u64,
)
    ensures
        ({
            let d = edit_verdict(Some(row), now, seq, body_bytes, max_body_bytes, tombstoned, cut);
            let gone = edit_verdict(None, now, seq, body_bytes, max_body_bytes, tombstoned, cut);
            let there = seq >= cut && !tombstoned;
            let theirs = there && row.direction == Direction::In;
            let text = theirs && row.env_type == envelope::type_code(EnvelopeType::Msg);
            let live = text && !(row.expires_at matches Some(at) && at <= now);
            let received = if row.received_at is Some {
                row.received_at->0
            } else {
                row.created_at
            };
            let open = live && now < received + 3600;
            let few = open && row.edit_count < 30;
            let newer = few && seq > row.last_edit_seq;
            &&& d == EditDecision::DropHistoryCut <==> seq < cut
            &&& d == EditDecision::DropTombstone <==> seq >= cut && tombstoned
            &&& there <==> gone == EditDecision::DropMissing
            &&& d == EditDecision::DropAuthorship <==> there && !theirs
            &&& d == EditDecision::DropKind <==> theirs && !text
            &&& d == EditDecision::DropExpired <==> text && !live
            &&& d == EditDecision::DropWindow <==> live && !open
            &&& d == EditDecision::DropCap <==> open && !few
            &&& d == EditDecision::DropStaleSeq <==> few && !newer
            &&& d == EditDecision::DropTooLarge <==> newer && body_bytes > max_body_bytes
            &&& d == EditDecision::Apply <==> newer && body_bytes <= max_body_bytes
        }),
{
}

} // verus!
