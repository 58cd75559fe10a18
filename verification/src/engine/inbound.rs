//! What to do with one decrypted envelope. One of an unknown relationship is
//! refused. Then the gates, in order, each failing closed:
//!
//! 1. capabilities: a type that the peer never advertised is dropped;
//! 2. closing: a settling relationship takes resync requests only;
//! 3. skew: a time too far ahead is refused;
//! 4. duplicates: by message id, then by sequence number;
//! 5. gap: computed before the sequence number is noted;
//! 6. history cut and tombstones: dropped, but the number is noted;
//! 7. ledger: everything but typing and presence is stored;
//! 8. the handler of the type.

use vstd::prelude::*;

use crate::caps::{self, allows, required_cap};
use crate::engine::{EngineError, EngineFault};
use crate::messages::delete::{self, should_drop_inbound};
use crate::wire::envelope::EnvelopeType;

verus! {

/// The head of an envelope.
#[derive(Clone, Copy, Debug)]
pub struct EnvelopeHead {
    pub msg_id: [u8; 16],
    pub app_seq: u64,
    pub sent_at: u64,
    pub ref_id: Option<[u8; 16]>,
    pub kind: EnvelopeType,
}

/// What the store holds of an envelope's relationship when it arrives.
#[derive(Clone, Copy, Debug)]
pub struct InboundFacts {
    pub peer_caps: u32,
    pub closing: bool,
    /// The envelope's time after the skew clamp; `None` where it is too far
    /// ahead.
    pub sent_at: Option<u64>,
    /// Whether the ledger has the message id.
    pub in_ledger: bool,
    /// Whether the sequence number was seen.
    pub seq_seen: bool,
    /// Whether the sequence number leaves a gap.
    pub opens_gap: bool,
    /// Whether this side accepted the invitation.
    pub accepter: bool,
    /// Whether the activation burst went out.
    pub activation_sent: bool,
    pub history_cut: u64,
    /// Whether the message id is tombstoned.
    pub tombstoned: bool,
    /// When a message of now expires.
    pub expires_at: Option<u64>,
}

/// What the ledger stores of an envelope, besides the envelope.
#[derive(Clone, Copy, Debug, PartialEq, Eq, Structural)]
pub struct LedgerEntry {
    pub sent_at: u64,
    pub expires_at: Option<u64>,
}

/// What becomes of an envelope.
#[derive(Clone, Copy, Debug, PartialEq, Eq, Structural)]
pub enum Admission {
    /// The peer never advertised the type: counted and dropped.
    CapGated,
    /// The relationship is settling.
    Settling,
    /// Its time is too far ahead.
    Skewed,
    /// It came before.
    Duplicate,
    /// It is new. Its sequence number is noted.
    Fresh(FreshPlan),
}

/// What to do with a new envelope, in this order: note the sequence number,
/// send the activation burst, store, handle, ask for a resync.
#[derive(Clone, Copy, Debug, PartialEq, Eq, Structural)]
pub struct FreshPlan {
    /// The activation burst is due, once.
    pub activate: bool,
    /// What to store; `None` for what is not stored.
    pub ledger: Option<LedgerEntry>,
    /// Whether the type's handler runs.
    pub handle: bool,
    /// Whether a resync may be asked for.
    pub gap: bool,
}

/// Types that are not stored.
pub open spec fn ephemeral(t: EnvelopeType) -> bool {
    t == EnvelopeType::Typing || t == EnvelopeType::Presence
}

/// Whether an envelope is dropped as deleted.
pub open spec fn deleted(env: EnvelopeHead, facts: InboundFacts) -> bool {
    delete::history_type(env.kind) && (facts.tombstoned || delete::below_cut(env.app_seq, facts.history_cut))
}

/// The plan for a new envelope. A deleted one is neither stored nor handled,
/// but still activates and still shows a gap. After a close there is nothing
/// left to resync.
pub open spec fn fresh_plan(env: EnvelopeHead, facts: InboundFacts) -> FreshPlan {
    let gone = deleted(env, facts);
    FreshPlan {
        activate: facts.accepter && !facts.activation_sent,
        ledger: if gone || ephemeral(env.kind) {
            None
        } else {
            Some(
                LedgerEntry {
                    sent_at: facts.sent_at->0,
                    expires_at: facts.expires_at,
                },
            )
        },
        handle: !gone,
        gap: facts.opens_gap && (gone || env.kind != EnvelopeType::ContactClose),
    }
}

/// What becomes of an envelope.
pub open spec fn admission(env: EnvelopeHead, facts: InboundFacts) -> Admission {
    if !caps::allowed(facts.peer_caps, env.kind) {
        Admission::CapGated
    } else if facts.closing && env.kind != EnvelopeType::ResyncReq {
        Admission::Settling
    } else if facts.sent_at is None {
        Admission::Skewed
    } else if facts.in_ledger || facts.seq_seen {
        Admission::Duplicate
    } else {
        Admission::Fresh(fresh_plan(env, facts))
    }
}

/// Decides what becomes of an envelope, given the facts of its relationship. It
/// is refused where there is no such relationship.
pub fn handle_plaintext(env: &EnvelopeHead, facts: Option<&InboundFacts>) -> (r: Result<
    Admission,
    EngineError,
>)
    ensures
        match facts {
            Some(facts) => r is Ok && r->Ok_0 == admission(*env, *facts),
            None => r is Err && r->Err_0@ == EngineFault::UnknownRelationship,
        },
{
    match facts {
        Some(facts) => Ok(decide(env, facts)),
        None => Err(EngineError::UnknownRelationship),
    }
}

fn decide(env: &EnvelopeHead, facts: &InboundFacts) -> (a: Admission)
    ensures
        a == admission(*env, *facts),
{
    if !allows(facts.peer_caps, env.kind) {
        return Admission::CapGated;
    }
    if facts.closing && env.kind != EnvelopeType::ResyncReq {
        return Admission::Settling;
    }
    let sent_at: u64 = match facts.sent_at {
        Some(at) => at,
        None => {
            return Admission::Skewed;
        },
    };
    if facts.in_ledger || facts.seq_seen {
        return Admission::Duplicate;
    }
    let activate: bool = facts.accepter && !facts.activation_sent;
    let gone: bool = should_drop_inbound(
        env.kind,
        env.app_seq,
        facts.history_cut,
        facts.tombstoned,
    );
    if gone {
        return Admission::Fresh(
            FreshPlan { activate, ledger: None, handle: false, gap: facts.opens_gap },
        );
    }
    let ledger: Option<LedgerEntry> = if env.kind == EnvelopeType::Typing || env.kind
        == EnvelopeType::Presence {
        None
    } else {
        Some(LedgerEntry { sent_at, expires_at: facts.expires_at })
    };
    let gap: bool = facts.opens_gap && env.kind != EnvelopeType::ContactClose;
    Admission::Fresh(FreshPlan { activate, ledger, handle: true, gap })
}

/// The caps that a type shows its sender to have, where they are not known yet.
pub open spec fn shown_caps(peer_caps: u32, t: EnvelopeType) -> Option<u32> {
    match caps::needed_cap(t) {
        Some(bit) => if peer_caps & bit == 0 {
            Some(peer_caps | bit)
        } else {
            None
        },
        None => None,
    }
}

/// The caps that a peer is known to have after an envelope of a type came
/// from it: receiving the type shows that the peer speaks it. `None` where
/// that is known.
pub fn implied_caps(peer_caps: u32, t: EnvelopeType) -> (caps: Option<u32>)
    ensures
        caps == shown_caps(peer_caps, t),
{
    match required_cap(t) {
        Some(bit) => {
            if peer_caps & bit == 0 {
                Some(peer_caps | bit)
            } else {
                None
            }
        },
        None => None,
    }
}

// ---------------------------------------------------------------------------
// Laws of admission

/// What is remembered of the envelopes that came in.
pub struct InboundBook {
    pub ids: Set<Seq<u8>>,
    pub seqs: Set<u64>,
}

/// Whether facts agree with the book on an envelope.
pub open spec fn booked(book: InboundBook, env: EnvelopeHead, facts: InboundFacts) -> bool {
    &&& facts.in_ledger == book.ids.contains(env.msg_id@)
    &&& facts.seq_seen == book.seqs.contains(env.app_seq)
}

/// The book after an envelope.
pub open spec fn book_after(book: InboundBook, env: EnvelopeHead, a: Admission) -> InboundBook {
    match a {
        Admission::Fresh(plan) => InboundBook {
            ids: if plan.ledger is Some {
                book.ids.insert(env.msg_id@)
            } else {
                book.ids
            },
            seqs: book.seqs.insert(env.app_seq),
        },
        _ => book,
    }
}

/// However often an envelope is delivered, it has one effect: once it was
/// admitted, no later delivery is, whatever else came in between.
pub proof fn deliveries_have_one_effect(
    book: InboundBook,
    env: EnvelopeHead,
    facts: InboundFacts,
    later: InboundBook,
    again: InboundFacts,
)
    requires
        booked(book, env, facts),
        admission(env, facts) is Fresh,
        book_after(book, env, admission(env, facts)).seqs.subset_of(later.seqs),
        booked(later, env, again),
    ensures
        !(admission(env, again) is Fresh),
{
    assert(book_after(book, env, admission(env, facts)).seqs.contains(env.app_seq));
}

/// Nothing is ever forgotten from the book.
pub proof fn the_book_only_grows(book: InboundBook, env: EnvelopeHead, a: Admission)
    ensures
        book.ids.subset_of(book_after(book, env, a).ids),
        book.seqs.subset_of(book_after(book, env, a).seqs),
{
}

/// A settling relationship takes resync requests only.
pub proof fn settling_takes_resync_only(env: EnvelopeHead, facts: InboundFacts)
    requires
        facts.closing,
        admission(env, facts) is Fresh,
    ensures
        env.kind == EnvelopeType::ResyncReq,
{
}

/// Nothing that the peer did not advertise is admitted, and then no caps are
/// learnt from it either: what is admitted was advertised.
pub proof fn admitted_types_were_advertised(env: EnvelopeHead, facts: InboundFacts)
    requires
        admission(env, facts) is Fresh,
    ensures
        caps::needed_cap(env.kind) matches Some(bit) ==> facts.peer_caps & bit != 0,
{
}

/// Every admitted envelope's sequence number is noted, also where the
/// envelope is dropped as deleted: the numbers stay contiguous.
pub proof fn deleted_envelopes_keep_continuity(
    book: InboundBook,
    env: EnvelopeHead,
    facts: InboundFacts,
)
    requires
        admission(env, facts) is Fresh,
        deleted(env, facts),
    ensures
        book_after(book, env, admission(env, facts)).seqs.contains(env.app_seq),
        book_after(book, env, admission(env, facts)).ids == book.ids,
        admission(env, facts)->Fresh_0.gap == facts.opens_gap,
{
}

/// Typing and presence never reach the ledger; everything else that is
/// handled does.
pub proof fn ledger_holds_all_but_the_ephemeral(env: EnvelopeHead, facts: InboundFacts)
    requires
        admission(env, facts) is Fresh,
    ensures
        ephemeral(env.kind) ==> admission(env, facts)->Fresh_0.ledger is None,
        !ephemeral(env.kind) ==> (admission(env, facts)->Fresh_0.ledger is Some
            <==> admission(env, facts)->Fresh_0.handle),
{
}

/// An envelope is admitted exactly if the peer advertised its type, the
/// relationship is not settling or the envelope asks for a resync, its time is not
/// too far ahead, and neither its id nor its number came before.
pub proof fn what_is_admitted(env: EnvelopeHead, facts: InboundFacts)
    ensures
        admission(env, facts) is Fresh <==> (caps::needed_cap(env.kind) matches Some(bit)
            ==> facts.peer_caps & bit != 0) && (facts.closing ==> env.kind
            == EnvelopeType::ResyncReq) && facts.sent_at is Some && !facts.in_ledger
            && !facts.seq_seen,
        admission(env, facts) is CapGated <==> !caps::allowed(facts.peer_caps, env.kind),
        admission(env, facts) is Skewed ==> facts.sent_at is None,
        admission(env, facts) is Duplicate ==> facts.in_ledger || facts.seq_seen,
        admission(env, facts) is Settling ==> facts.closing && env.kind != EnvelopeType::ResyncReq,
{
}

/// Whether a type is part of the history that a deletion or a wipe takes away:
/// messages, edits, attachments and stickers.
pub open spec fn of_history(t: EnvelopeType) -> bool {
    t == EnvelopeType::Msg || t == EnvelopeType::Edit || t == EnvelopeType::AttachHead || t
        == EnvelopeType::AttachChunk || t == EnvelopeType::Sticker
}

/// What becomes of an admitted envelope. One of the history that was deleted, or
/// that was sent before the wipe, is neither stored nor handled; all others are
/// handled, and stored unless they are typing or presence, with the time and the
/// expiry that were found for them. The activation burst is due on the accepter's
/// side until it went out. A gap is followed up, but for a contact that closes.
pub proof fn what_becomes_of_the_admitted(env: EnvelopeHead, facts: InboundFacts)
    requires
        admission(env, facts) is Fresh,
    ensures
        ({
            let plan = admission(env, facts)->Fresh_0;
            let gone = of_history(env.kind) && (facts.tombstoned || env.app_seq
                < facts.history_cut);
            &&& plan.handle <==> !gone
            &&& plan.ledger is Some <==> !gone && env.kind != EnvelopeType::Typing && env.kind
                != EnvelopeType::Presence
            &&& plan.ledger matches Some(entry) ==> facts.sent_at == Some(entry.sent_at)
                && entry.expires_at == facts.expires_at
            &&& plan.activate <==> facts.accepter && !facts.activation_sent
            &&& plan.gap <==> facts.opens_gap && (gone || env.kind != EnvelopeType::ContactClose)
        }),
{
}

/// A type that came from a peer may go to it from then on, along with everything
/// that might before. Nothing is learned where it might already.
pub proof fn receiving_shows_a_capability(peer_caps: u32, t: EnvelopeType, other: EnvelopeType)
    ensures
        shown_caps(peer_caps, t) is Some <==> !caps::allowed(peer_caps, t),
        shown_caps(peer_caps, t) matches Some(known) ==> {
            &&& caps::allowed(known, t)
            &&& caps::allowed(peer_caps, other) ==> caps::allowed(known, other)
            &&& caps::allowed(known, other) && !caps::allowed(peer_caps, other)
                ==> caps::needed_cap(other) == caps::needed_cap(t)
        },
{
    if let Some(bit) = caps::needed_cap(t) {
        assert((peer_caps | bit) & bit == bit) by (bit_vector);
        if let Some(c) = caps::needed_cap(other) {
            assert(peer_caps & c != 0 ==> (peer_caps | bit) & c != 0) by (bit_vector);
            assert(peer_caps & c == 0 && bit & c == 0 ==> (peer_caps | bit) & c == 0) by (bit_vector);
        }
    }
    assert(4u32 & 8 == 0 && 4u32 & 16 == 0 && 4u32 & 32 == 0 && 4u32 & 64 == 0 && 8u32 & 16 == 0
        && 8u32 & 32 == 0 && 8u32 & 64 == 0 && 16u32 & 32 == 0 && 16u32 & 64 == 0 && 32u32 & 64 == 0
        && 8u32 & 4 == 0 && 16u32 & 4 == 0 && 32u32 & 4 == 0 && 64u32 & 4 == 0 && 16u32 & 8 == 0
        && 32u32 & 8 == 0 && 64u32 & 8 == 0 && 32u32 & 16 == 0 && 64u32 & 16 == 0 && 64u32 & 32
        == 0) by (bit_vector);
}

} // verus!
