//! What tombstones and the history cut drop.

use vstd::prelude::*;

use crate::wire::envelope::EnvelopeType;

verus! {

/// The types that tombstones and the history cut apply to.
pub open spec fn history_type(t: EnvelopeType) -> bool {
    match t {
        EnvelopeType::Msg => true,
        EnvelopeType::Edit => true,
        EnvelopeType::AttachHead => true,
        EnvelopeType::AttachChunk => true,
        EnvelopeType::Sticker => true,
        _ => false,
    }
}

/// Whether a sequence number lies below a cut; 0 is no cut.
pub open spec fn below_cut(app_seq: u64, history_cut_seq: u64) -> bool {
    history_cut_seq > 0 && app_seq < history_cut_seq
}

/// Whether tombstones and the history cut apply to a type.
pub fn is_history_type(t: EnvelopeType) -> (history: bool)
    ensures
        history == history_type(t),
{
    t == EnvelopeType::Msg || t == EnvelopeType::Edit || t == EnvelopeType::AttachHead || t
        == EnvelopeType::AttachChunk || t == EnvelopeType::Sticker
}

/// Whether an inbound envelope is of what was deleted.
pub open spec fn of_the_deleted(
    t: EnvelopeType,
    app_seq: u64,
    history_cut_seq: u64,
    tombstoned: bool,
) -> bool {
    history_type(t) && (tombstoned || below_cut(app_seq, history_cut_seq))
}

/// Whether an inbound envelope is dropped as deleted: it is of a history
/// type, and its id is tombstoned or its sequence number is below the cut.
pub fn should_drop_inbound(t: EnvelopeType, app_seq: u64, history_cut_seq: u64, tombstoned: bool) -> (
    drop: bool)
    ensures
        drop == of_the_deleted(t, app_seq, history_cut_seq, tombstoned),
{
    if !is_history_type(t) {
        return false;
    }
    if tombstoned {
        return true;
    }
    history_cut_seq > 0 && app_seq < history_cut_seq
}

/// Raising the cut never brings back what it dropped before.
pub proof fn raising_the_cut_keeps_drops(app_seq: u64, cut: u64, higher: u64)
    requires
        cut <= higher,
        below_cut(app_seq, cut),
    ensures
        below_cut(app_seq, higher),
{
}

/// Messages, edits, attachments and stickers are dropped exactly if they are
/// tombstoned or older than a cut that was made. Nothing else is ever dropped as
/// deleted: not the deletions themselves, nor what governs the conversation.
pub proof fn only_content_is_dropped_as_deleted(
    t: EnvelopeType,
    app_seq: u64,
    cut: u64,
    tombstoned: bool,
)
    ensures
        of_the_deleted(t, app_seq, cut, tombstoned) <==> (t == EnvelopeType::Msg || t
            == EnvelopeType::Edit || t == EnvelopeType::AttachHead || t == EnvelopeType::AttachChunk
            || t == EnvelopeType::Sticker) && (tombstoned || app_seq < cut),
{
}

} // verus!
