//! Messages, edits and deletions: decisions over ledger rows.
//!
//! An edit is an envelope of its own whose reference is the message that it
//! edits. The history types (message, edit, attachment head and chunk,
//! sticker) are subject to tombstones and to the history cut; control types
//! are not.

use vstd::prelude::*;

use crate::wire::envelope::{self, EnvelopeType};

pub mod delete;
pub mod edit;

verus! {

/// How long a message can be edited: from when it was first received, on
/// the receiving side; from when it was sent, on the sending side.
pub const EDIT_WINDOW_SEC: u64 = 3_600;

/// Edits per message.
pub const EDIT_MAX_EDITS: u32 = 30;

/// Time between two edits on the sending side.
pub const EDIT_MIN_INTERVAL_MS: u64 = 1_000;

/// Bytes of a message body.
pub const MAX_BODY_BYTES: usize = 16_384;

/// The types that a thread shows as rows: content and system lines.
pub open spec fn thread_row(t: EnvelopeType) -> bool {
    match t {
        EnvelopeType::Msg => true,
        EnvelopeType::AttachHead => true,
        EnvelopeType::Sticker => true,
        EnvelopeType::ChatPolicy => true,
        EnvelopeType::Profile => true,
        EnvelopeType::ProfileReq => true,
        EnvelopeType::Pref => true,
        _ => false,
    }
}

/// Whether a ledger row of this type code is a row of the thread. Control
/// frames change rows and are none themselves.
pub fn is_thread_row(env_type: u8) -> (row: bool)
    ensures
        row == exists|t: EnvelopeType| #[trigger] envelope::type_code(t) == env_type && thread_row(t),
{
    match EnvelopeType::from_code(env_type) {
        Some(t) => {
            proof {
                assert forall|u: EnvelopeType| #[trigger] envelope::type_code(u) == env_type implies u
                    == t by {
                    envelope::type_codes_differ(u, t);
                }
            }
            t == EnvelopeType::Msg || t == EnvelopeType::AttachHead || t == EnvelopeType::Sticker
                || t == EnvelopeType::ChatPolicy || t == EnvelopeType::Profile || t
                == EnvelopeType::ProfileReq || t == EnvelopeType::Pref
        },
        None => false,
    }
}

/// A thread shows what a person sends and what changes about the conversation: a
/// history type is a row unless it belongs to another row, and of the others only
/// policy, profiles and preferences are.
pub proof fn threads_show_content_and_notices(t: EnvelopeType)
    ensures
        delete::history_type(t) ==> (thread_row(t) <==> t != EnvelopeType::Edit && t
            != EnvelopeType::AttachChunk),
        !delete::history_type(t) ==> (thread_row(t) <==> t == EnvelopeType::ChatPolicy || t
            == EnvelopeType::Profile || t == EnvelopeType::ProfileReq || t == EnvelopeType::Pref),
{
}

} // verus!
