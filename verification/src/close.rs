//! Closing a contact. This side closes: it enters the closing state, sends
//! the two frames that close, and erases its history but for them; the
//! relationship is burned once they are out. The peer closes: the
//! relationship is burned at once.

use vstd::prelude::*;

use crate::bytes;
use crate::engine::drain::{self, enter_closing, ClosingRow};
use crate::engine::send::{self, Sent};
use crate::wire::envelope::EnvelopeType;

verus! {

/// What closing a contact does first.
#[derive(Clone, Debug)]
pub struct ClosePlan {
    /// The setting that remembers when closing began.
    pub stamp: Vec<u8>,
    /// The frames to send, in order.
    pub frames: [EnvelopeType; 2],
}

/// The frames that close a contact.
pub open spec fn closing_frames() -> Seq<EnvelopeType> {
    seq![EnvelopeType::DeleteAll, EnvelopeType::ContactClose]
}

/// Closes a contact. A second time does nothing.
pub fn close_contact(closing: bool, now: u64) -> (plan: Option<ClosePlan>)
    ensures
        plan is Some <==> !closing,
        plan matches Some(p) ==> drain::closing_stamp(closing, now) == Some(p.stamp@) && p.stamp@
            == bytes::be64(now) && p.frames@ == closing_frames(),
{
    match enter_closing(closing, now) {
        Some(stamp) => {
            let frames: [EnvelopeType; 2] = [EnvelopeType::DeleteAll, EnvelopeType::ContactClose];
            assert(frames@ =~= closing_frames());
            Some(ClosePlan { stamp, frames })
        },
        None => None,
    }
}

/// The later of the two frames.
pub open spec fn closing_cut(delete_all: Sent, contact_close: Sent) -> u64 {
    if delete_all.app_seq >= contact_close.app_seq {
        delete_all.app_seq
    } else {
        contact_close.app_seq
    }
}

/// What becomes of the history once the two frames are sent: the cut rises to
/// the later of them, and everything but the two is erased.
pub fn close_cut(delete_all: &Sent, contact_close: &Sent) -> (r: (u64, [[u8; 16]; 2]))
    ensures
        r.0 == closing_cut(*delete_all, *contact_close),
        r.0 >= delete_all.app_seq && r.0 >= contact_close.app_seq,
        r.0 == delete_all.app_seq || r.0 == contact_close.app_seq,
        r.1@ == seq![delete_all.msg_id, contact_close.msg_id],
{
    let cut: u64 = if delete_all.app_seq >= contact_close.app_seq {
        delete_all.app_seq
    } else {
        contact_close.app_seq
    };
    let keep: [[u8; 16]; 2] = [delete_all.msg_id, contact_close.msg_id];
    assert(keep@ =~= seq![delete_all.msg_id, contact_close.msg_id]);
    (cut, keep)
}

/// Closing wipes the thread on the other side before it closes the contact there,
/// and both frames may leave a relationship that settles. It is over a minute
/// later at the latest.
pub proof fn closing_wipes_and_then_closes(row: ClosingRow, now: u64, later: u64)
    requires
        row.started is Some,
        row.started->0@ == bytes::be64(now),
    ensures
        closing_frames().len() == 2,
        closing_frames()[0] == EnvelopeType::DeleteAll,
        closing_frames()[1] == EnvelopeType::ContactClose,
        forall|i: int| 0 <= i < 2 ==> send::closes(#[trigger] closing_frames()[i]),
        later >= now + 60 ==> row.due(later),
{
    drain::settling_takes_a_minute_at_most(row, now, later);
}

/// Everything that was sent before both frames is below the cut, and the later
/// frame is not.
pub proof fn the_cut_is_at_the_later_frame(delete_all: Sent, contact_close: Sent, app_seq: u64)
    ensures
        closing_cut(delete_all, contact_close) == delete_all.app_seq || closing_cut(
            delete_all,
            contact_close,
        ) == contact_close.app_seq,
        app_seq < delete_all.app_seq || app_seq < contact_close.app_seq <==> app_seq < closing_cut(
            delete_all,
            contact_close,
        ),
{
}

} // verus!
