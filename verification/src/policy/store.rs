//! The policy columns of a relationship's row, and what policy effects do to
//! the ledger.

use vstd::prelude::*;
use vstd::slice::slice_subrange;

use crate::bytes::{self, append_bytes, push_be32, read_be32, to_array};
use crate::policy::{PendingProposal, PolicyState};
use crate::store::{MessageRow, StoreError};
use crate::text::{self, push_decimal, same_text};
use crate::wire::envelope::{self, EnvelopeType};

verus! {

/// Bytes of a stored proposal: lifetime, flags and id.
pub const PENDING_LEN: usize = 21;

/// The policy columns.
#[derive(Clone, Debug)]
pub struct PolicyRow {
    pub ttl_sec: i64,
    pub flags: i64,
    pub wants: i64,
    pub pending: Option<Vec<u8>>,
    pub last_sync_at: i64,
}

/// 1 for screenshots, 2 for downloads, 4 for a proposal of the peer.
pub open spec fn pending_flags(p: PendingProposal) -> u8 {
    ((if p.screenshot {
        1int
    } else {
        0
    }) + (if p.attach_download {
        2int
    } else {
        0
    }) + (if p.inbound {
        4int
    } else {
        0
    })) as u8
}

/// A stored proposal.
pub open spec fn pending_bytes(p: PendingProposal) -> Seq<u8> {
    bytes::be32(p.ttl_sec) + seq![pending_flags(p)] + p.propose_id@
}

/// What a stored proposal holds.
pub open spec fn pending_is(p: PendingProposal, b: Seq<u8>) -> bool {
    &&& p.ttl_sec == bytes::of_be32(b, 0)
    &&& p.screenshot == (b[4] % 2 != 0)
    &&& p.attach_download == (b[4] / 2 % 2 != 0)
    &&& p.inbound == (b[4] / 4 % 2 != 0)
    &&& p.propose_id@ == b.subrange(5, 21)
}

/// Stores a proposal.
pub fn encode_pending(p: &PendingProposal) -> (out: Vec<u8>)
    ensures
        out@ == pending_bytes(*p),
        out@.len() == PENDING_LEN,
{
    let mut out: Vec<u8> = Vec::with_capacity(PENDING_LEN);
    push_be32(&mut out, p.ttl_sec);
    let screenshot: u8 = if p.screenshot {
        1
    } else {
        0
    };
    let download: u8 = if p.attach_download {
        2
    } else {
        0
    };
    let inbound: u8 = if p.inbound {
        4
    } else {
        0
    };
    out.push(screenshot + download + inbound);
    append_bytes(&mut out, &p.propose_id);
    assert(out@ =~= pending_bytes(*p));
    out
}

/// Reads a stored proposal. Only its length can be wrong.
pub fn decode_pending(bytes: &[u8]) -> (r: Result<PendingProposal, StoreError>)
    ensures
        r is Ok <==> bytes@.len() == PENDING_LEN,
        r matches Ok(p) ==> pending_is(p, bytes@),
        r matches Err(StoreError::Corrupt(why)) ==> why@ == "policy_pending: "@ + text::decimal(
            bytes@.len(),
        ) + " bytes, want 21"@,
{
    if bytes.len() != PENDING_LEN {
        let mut why: String = "policy_pending: ".to_owned();
        push_decimal(&mut why, bytes.len() as u64);
        why.append(" bytes, want 21");
        return Err(StoreError::Corrupt(why));
    }
    let ttl_sec: u32 = read_be32(bytes, 0);
    let flags: u8 = bytes[4];
    match to_array::<16>(slice_subrange(bytes, 5, 21)) {
        Some(propose_id) => Ok(
            PendingProposal {
                ttl_sec,
                screenshot: flags % 2 != 0,
                attach_download: flags / 2 % 2 != 0,
                inbound: flags / 4 % 2 != 0,
                propose_id,
            },
        ),
        None => Err(StoreError::Corrupt("policy_pending.propose_id".to_owned())),
    }
}

/// Whether a policy is the one that a relationship's columns hold.
pub open spec fn loads(s: PolicyState, row: PolicyRow) -> bool {
    &&& s.ttl_sec == row.ttl_sec as u32
    &&& s.screenshot == (row.flags as u64 % 2 != 0)
    &&& s.attach_download == (row.flags as u64 / 2 % 2 != 0)
    &&& s.local_want == row.wants as u32 % 256
    &&& s.peer_want == row.wants as u32 / 256 % 256
    &&& match (row.pending, s.pending) {
        (Some(b), Some(p)) => pending_is(p, b@),
        (None, None) => true,
        _ => false,
    }
    &&& s.last_sync_at == row.last_sync_at as u64
}

/// The policy that a relationship's columns hold: flags in the low bits, the
/// local wants in the low byte, the peer's in the next.
pub fn load_policy(row: Option<&PolicyRow>, rel_id: &str) -> (r: Result<PolicyState, StoreError>)
    ensures
        r is Ok <==> row is Some && (row->0.pending matches Some(b) ==> b@.len() == PENDING_LEN),
        r matches Ok(s) ==> loads(s, *row->0),
        row is None ==> (r matches Err(StoreError::Corrupt(why)) && why@
            == "policy for unknown rel "@ + rel_id@),
{
    let row: &PolicyRow = match row {
        Some(row) => row,
        None => {
            return Err(
                StoreError::Corrupt("policy for unknown rel ".to_owned().concat(rel_id)),
            );
        },
    };
    let pending: Option<PendingProposal> = match &row.pending {
        Some(b) => match decode_pending(b.as_slice()) {
            Ok(p) => Some(p),
            Err(e) => {
                return Err(e);
            },
        },
        None => None,
    };
    let flags: u64 = row.flags as u64;
    let wants: u32 = row.wants as u32;
    Ok(
        PolicyState {
            ttl_sec: row.ttl_sec as u32,
            screenshot: flags % 2 != 0,
            attach_download: flags / 2 % 2 != 0,
            local_want: wants % 256,
            peer_want: wants / 256 % 256,
            pending,
            last_sync_at: row.last_sync_at as u64,
        },
    )
}

/// The columns for a policy. Of the wants the low eight bits are kept.
pub open spec fn columns(row: PolicyRow, s: PolicyState) -> bool {
    &&& row.ttl_sec == s.ttl_sec
    &&& row.flags == (if s.screenshot {
        1int
    } else {
        0
    }) + (if s.attach_download {
        2int
    } else {
        0
    })
    &&& row.wants == (s.peer_want % 256) * 256 + s.local_want % 256
    &&& match (s.pending, row.pending) {
        (Some(p), Some(b)) => b@ == pending_bytes(p),
        (None, None) => true,
        _ => false,
    }
    &&& row.last_sync_at == s.last_sync_at as i64
}

/// The columns for a policy.
pub fn save_policy(state: &PolicyState) -> (row: PolicyRow)
    ensures
        columns(row, *state),
{
    let screenshot: i64 = if state.screenshot {
        1
    } else {
        0
    };
    let download: i64 = if state.attach_download {
        2
    } else {
        0
    };
    let wants: u32 = (state.peer_want % 256) * 256 + state.local_want % 256;
    PolicyRow {
        ttl_sec: state.ttl_sec as i64,
        flags: screenshot + download,
        wants: wants as i64,
        pending: match &state.pending {
            Some(p) => Some(encode_pending(p)),
            None => None,
        },
        last_sync_at: state.last_sync_at as i64,
    }
}

/// A stored proposal reads back as it was.
pub proof fn pending_reads_back(p: PendingProposal, q: PendingProposal)
    requires
        pending_is(q, pending_bytes(p)),
    ensures
        pending_bytes(p).len() == PENDING_LEN,
        q.ttl_sec == p.ttl_sec,
        q.screenshot == p.screenshot,
        q.attach_download == p.attach_download,
        q.inbound == p.inbound,
        q.propose_id@ == p.propose_id@,
{
    let b = pending_bytes(p);
    bytes::be32_reads_back(p.ttl_sec);
    assert(bytes::of_be32(b, 0) == bytes::of_be32(bytes::be32(p.ttl_sec), 0));
    assert(b[4] == pending_flags(p));
    assert(b.subrange(5, 21) =~= p.propose_id@);
}

/// A saved policy loads as it was, as long as the wants fit the low byte;
/// all that this build knows do.
pub proof fn saved_policy_loads(s: PolicyState, row: PolicyRow)
    requires
        columns(row, s),
        s.local_want < 256,
        s.peer_want < 256,
    ensures
        row.ttl_sec as u32 == s.ttl_sec,
        (row.flags as u64 % 2 != 0) == s.screenshot,
        (row.flags as u64 / 2 % 2 != 0) == s.attach_download,
        row.wants as u32 % 256 == s.local_want,
        row.wants as u32 / 256 % 256 == s.peer_want,
        row.last_sync_at as u64 == s.last_sync_at,
        s.pending is Some <==> row.pending is Some,
        s.pending is Some ==> row.pending->0@ == pending_bytes(s.pending->0),
{
    let at = s.last_sync_at;
    assert((at as i64) as u64 == at) by (bit_vector);
}

// ---------------------------------------------------------------------------
// Effects on the ledger

/// The expiry of a live message once no message may outlast `before`.
pub open spec fn clamped(expires_at: Option<u64>, before: u64) -> Option<u64> {
    match expires_at {
        Some(at) => if at > before {
            Some(before)
        } else {
            Some(at)
        },
        None => Some(before),
    }
}

/// Whether clamping changes an expiry.
pub open spec fn needs_clamp(expires_at: Option<u64>, before: u64) -> bool {
    expires_at matches Some(at) ==> at > before
}

/// How many of the first `n` rows are of a relationship and change.
pub open spec fn clamp_count(rows: Seq<MessageRow>, rel: Seq<char>, before: u64, n: nat) -> nat
    decreases n,
{
    if n == 0 {
        0
    } else {
        let row = rows[n - 1];
        clamp_count(rows, rel, before, (n - 1) as nat) + (if row.rel_id@ == rel && needs_clamp(
            row.expires_at,
            before,
        ) {
            1nat
        } else {
            0
        })
    }
}

/// A row with another expiry.
pub open spec fn with_expiry(row: MessageRow, expires_at: Option<u64>) -> MessageRow {
    MessageRow { expires_at, ..row }
}

/// Clamps the messages of a relationship to an instant and counts those that
/// change. A message without an expiry gets one.
pub fn clamp_message_expiry(rows: &mut Vec<MessageRow>, rel_id: &str, before: u64) -> (n: u64)
    ensures
        final(rows)@.len() == old(rows)@.len(),
        forall|i: int|
            0 <= i < final(rows)@.len() ==> #[trigger] final(rows)@[i] == (if old(
                rows,
            )@[i].rel_id@ == rel_id@ {
                with_expiry(old(rows)@[i], clamped(old(rows)@[i].expires_at, before))
            } else {
                old(rows)@[i]
            }),
        n == clamp_count(old(rows)@, rel_id@, before, old(rows)@.len()),
{
    let mut n: u64 = 0;
    let mut i: usize = 0;
    let ghost was = rows@;
    while i < rows.len()
        invariant
            i <= rows@.len(),
            rows@.len() == was.len(),
            was == old(rows)@,
            n <= i,
            n == clamp_count(was, rel_id@, before, i as nat),
            forall|k: int|
                0 <= k < i ==> #[trigger] rows@[k] == (if was[k].rel_id@ == rel_id@ {
                    with_expiry(was[k], clamped(was[k].expires_at, before))
                } else {
                    was[k]
                }),
            forall|k: int| i <= k < was.len() ==> #[trigger] rows@[k] == was[k],
        decreases rows.len() - i,
    {
        if same_text(rows[i].rel_id.as_str(), rel_id) {
            let change: bool = match rows[i].expires_at {
                Some(at) => at > before,
                None => true,
            };
            if change {
                rows[i].expires_at = Some(before);
                n = n + 1;
            }
        }
        i = i + 1;
    }
    n
}

/// Clamping never lengthens a life, and doing it again changes nothing.
pub proof fn clamping_only_shrinks(expires_at: Option<u64>, before: u64)
    ensures
        expires_at matches Some(at) ==> clamped(expires_at, before)->0 <= at,
        clamped(expires_at, before)->0 <= before,
        clamped(clamped(expires_at, before), before) == clamped(expires_at, before),
        !needs_clamp(clamped(expires_at, before), before),
{
}

/// The live attachment heads of a relationship, up to row `n`.
pub open spec fn live_heads(rows: Seq<MessageRow>, rel: Seq<char>, n: nat) -> Seq<Seq<u8>>
    decreases n,
{
    if n == 0 {
        Seq::empty()
    } else {
        let row = rows[n - 1];
        let before = live_heads(rows, rel, (n - 1) as nat);
        if row.rel_id@ == rel && row.env_type == envelope::type_code(EnvelopeType::AttachHead)
            && !row.tombstone {
            before.push(row.msg_id@)
        } else {
            before
        }
    }
}

/// The attachments to erase when attachments go off: every head of the
/// relationship that is not tombstoned yet, in ledger order.
pub fn erase_attach_messages(rows: &Vec<MessageRow>, rel_id: &str) -> (heads: Vec<[u8; 16]>)
    ensures
        heads@.map_values(|h: [u8; 16]| h@) == live_heads(rows@, rel_id@, rows@.len()),
{
    let mut heads: Vec<[u8; 16]> = Vec::new();
    let mut i: usize = 0;
    while i < rows.len()
        invariant
            i <= rows@.len(),
            heads@.map_values(|h: [u8; 16]| h@) == live_heads(rows@, rel_id@, i as nat),
        decreases rows.len() - i,
    {
        let row: &MessageRow = &rows[i];
        if same_text(row.rel_id.as_str(), rel_id) && row.env_type == EnvelopeType::AttachHead.code()
            && !row.tombstone {
            let ghost was = heads@;
            heads.push(row.msg_id);
            assert(heads@.map_values(|h: [u8; 16]| h@) =~= was.map_values(|h: [u8; 16]| h@).push(
                row.msg_id@,
            ));
        }
        i = i + 1;
    }
    heads
}

// ---------------------------------------------------------------------------
// Laws

/// A stored proposal is 21 bytes: the lifetime, a byte with one bit each for
/// screenshots, downloads and whose proposal it is, and the id.
pub proof fn a_proposal_is_stored_in_order(p: PendingProposal)
    ensures
        ({
            let b = pending_bytes(p);
            &&& b.len() == 21
            &&& 0x100_0000 * b[0] + 0x1_0000 * b[1] + 0x100 * b[2] + b[3] == p.ttl_sec
            &&& b[4] < 8
            &&& b[4] % 2 == 1 <==> p.screenshot
            &&& b[4] / 2 % 2 == 1 <==> p.attach_download
            &&& b[4] / 4 == 1 <==> p.inbound
            &&& b.skip(5) == p.propose_id@
        }),
{
    let b = pending_bytes(p);
    bytes::be32_reads_back(p.ttl_sec);
    assert(b[0] == bytes::be32(p.ttl_sec)[0]);
    assert(b[1] == bytes::be32(p.ttl_sec)[1]);
    assert(b[2] == bytes::be32(p.ttl_sec)[2]);
    assert(b[3] == bytes::be32(p.ttl_sec)[3]);
    assert(b[4] == pending_flags(p));
    assert(b.skip(5) =~= p.propose_id@);
}

/// The columns of a policy: screenshots are bit 0 and downloads bit 1, this side's
/// wants are the low byte and the peer's the next.
pub proof fn columns_have_their_bits(row: PolicyRow, s: PolicyState)
    requires
        columns(row, s),
    ensures
        row.ttl_sec == s.ttl_sec,
        0 <= row.flags < 4,
        row.flags % 2 == 1 <==> s.screenshot,
        row.flags / 2 == 1 <==> s.attach_download,
        row.wants % 256 == s.local_want % 256,
        row.wants / 256 == s.peer_want % 256,
        row.pending is Some <==> s.pending is Some,
{
}

/// A clamped message expires at the earlier of its own time and the new one; a
/// message without a time gets the new one. A message changes exactly if its time
/// was later, or it had none.
pub proof fn the_earlier_time_counts(expires_at: Option<u64>, before: u64)
    ensures
        expires_at is None ==> clamped(expires_at, before) == Some(before),
        expires_at is Some && expires_at->0 <= before ==> clamped(expires_at, before) == expires_at,
        expires_at is Some && expires_at->0 >= before ==> clamped(expires_at, before) == Some(before),
        needs_clamp(expires_at, before) <==> clamped(expires_at, before) != expires_at,
{
}

/// As many messages are counted as change: those of the relationship whose expiry
/// is not the clamped one yet.
pub proof fn as_many_are_counted_as_change(
    rows: Seq<MessageRow>,
    rel: Seq<char>,
    before: u64,
    n: nat,
)
    requires
        n <= rows.len(),
    ensures
        clamp_count(rows, rel, before, n) == rows.take(n as int).filter(
            |r: MessageRow| r.rel_id@ == rel && clamped(r.expires_at, before) != r.expires_at,
        ).len(),
    decreases n,
{
    reveal(Seq::filter);
    if n > 0 {
        as_many_are_counted_as_change(rows, rel, before, (n - 1) as nat);
        assert(rows.take(n as int).drop_last() =~= rows.take(n - 1));
        the_earlier_time_counts(rows[n - 1].expires_at, before);
    }
}

/// A clamped row keeps everything but its expiry.
pub proof fn clamping_changes_the_expiry_alone(row: MessageRow, expires_at: Option<u64>)
    ensures
        with_expiry(row, expires_at).expires_at == expires_at,
        with_expiry(with_expiry(row, expires_at), row.expires_at) == row,
{
}

/// A head is among the live ones exactly if it is an attachment's, of the
/// relationship, and not deleted.
pub proof fn live_heads_are_of_attachments(
    rows: Seq<MessageRow>,
    rel: Seq<char>,
    n: nat,
    id: Seq<u8>,
)
    requires
        n <= rows.len(),
    ensures
        live_heads(rows, rel, n).contains(id) <==> exists|i: int|
            #![trigger rows[i]]
            0 <= i < n && rows[i].msg_id@ == id && rows[i].rel_id@ == rel && rows[i].env_type
                == envelope::type_code(EnvelopeType::AttachHead) && !rows[i].tombstone,
    decreases n,
{
    if n > 0 {
        let before = live_heads(rows, rel, (n - 1) as nat);
        let all = live_heads(rows, rel, n);
        let row = rows[n - 1];
        live_heads_are_of_attachments(rows, rel, (n - 1) as nat, id);
        if before.contains(id) {
            let k = choose|k: int| 0 <= k < before.len() && before[k] == id;
            assert(all[k] == id);
        }
        if all.contains(id) && !before.contains(id) {
            let k = choose|k: int| 0 <= k < all.len() && all[k] == id;
            if k < before.len() {
                assert(before[k] == id);
            }
            assert(row.msg_id@ == id);
        }
        if row.rel_id@ == rel && row.env_type == envelope::type_code(EnvelopeType::AttachHead)
            && !row.tombstone {
            assert(all[before.len() as int] == row.msg_id@);
        }
    }
}

/// What is loaded is what was saved: the rules, both sides' wants, the open proposal
/// and the time of the last sync.
pub proof fn what_was_saved_is_loaded(s: PolicyState, row: PolicyRow, t: PolicyState)
    requires
        columns(row, s),
        s.local_want < 256,
        s.peer_want < 256,
        loads(t, row),
    ensures
        t.ttl_sec == s.ttl_sec,
        t.screenshot == s.screenshot,
        t.attach_download == s.attach_download,
        t.local_want == s.local_want,
        t.peer_want == s.peer_want,
        t.last_sync_at == s.last_sync_at,
        t.pending is Some <==> s.pending is Some,
        s.pending matches Some(p) ==> {
            &&& t.pending->0.ttl_sec == p.ttl_sec
            &&& t.pending->0.screenshot == p.screenshot
            &&& t.pending->0.attach_download == p.attach_download
            &&& t.pending->0.inbound == p.inbound
            &&& t.pending->0.propose_id@ == p.propose_id@
        },
{
    saved_policy_loads(s, row);
    if s.pending is Some {
        pending_reads_back(s.pending->0, t.pending->0);
    }
}

} // verus!
