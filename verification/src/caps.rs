//! Capability gating.
//!
//! A peer that never advertised a bit is taken not to speak the feature.
//! Inbound envelopes of such a type are dropped and counted; outbound ones
//! are not sent. Baseline types need no bit.

use vstd::prelude::*;

use crate::wire::caps;
use crate::wire::envelope::EnvelopeType;

verus! {

/// Everything that this build speaks.
pub fn local_caps() -> (bits: u32)
    ensures
        bits == caps::LOCAL,
{
    caps::LOCAL
}

/// The bit that a type needs before either side may speak it; `None` for
/// the baseline.
pub open spec fn needed_cap(t: EnvelopeType) -> Option<u32> {
    match t {
        EnvelopeType::Sticker => Some(caps::CAP_STICKER),
        EnvelopeType::StickerCtrl => Some(caps::CAP_STICKER),
        EnvelopeType::Presence => Some(caps::CAP_PRESENCE),
        EnvelopeType::Typing => Some(caps::CAP_TYPING),
        EnvelopeType::Read => Some(caps::CAP_READ),
        EnvelopeType::ChatPolicy => Some(caps::CAP_POLICY),
        _ => None,
    }
}

/// Whether a type may cross the channel to or from a peer with these caps.
pub open spec fn allowed(peer_caps: u32, t: EnvelopeType) -> bool {
    match needed_cap(t) {
        None => true,
        Some(bit) => peer_caps & bit != 0,
    }
}

/// The bit that a type needs; `None` for the baseline.
pub fn required_cap(t: EnvelopeType) -> (bit: Option<u32>)
    ensures
        bit == needed_cap(t),
{
    match t {
        EnvelopeType::Sticker => Some(caps::CAP_STICKER),
        EnvelopeType::StickerCtrl => Some(caps::CAP_STICKER),
        EnvelopeType::Presence => Some(caps::CAP_PRESENCE),
        EnvelopeType::Typing => Some(caps::CAP_TYPING),
        EnvelopeType::Read => Some(caps::CAP_READ),
        EnvelopeType::ChatPolicy => Some(caps::CAP_POLICY),
        _ => None,
    }
}

/// Whether a type may cross the channel to or from a peer with these caps.
pub fn allows(peer_caps: u32, t: EnvelopeType) -> (ok: bool)
    ensures
        ok == allowed(peer_caps, t),
{
    match required_cap(t) {
        None => true,
        Some(bit) => caps::has(peer_caps, bit),
    }
}

/// The bits that a caps column holds; the baseline where there is none.
pub open spec fn column_bits(column: Option<i64>) -> u32 {
    match column {
        Some(v) => v as u32,
        None => 0,
    }
}

/// The caps column of a relationship's row as the bits it holds; 0, the
/// baseline, where there is no row.
pub fn peer_caps(column: Option<i64>) -> (bits: u32)
    ensures
        bits == column_bits(column),
{
    match column {
        Some(v) => v as u32,
        None => 0,
    }
}

/// The caps column for advertised bits.
pub fn note_peer_caps(bits: u32) -> (column: i64)
    ensures
        column == bits,
{
    bits as i64
}

/// Envelopes that the inbound gate has dropped.
#[derive(Clone, Copy, Debug)]
pub struct GateCount {
    pub drops: u64,
}

/// The inbound gate. A refusal is counted; the session goes on.
pub fn check_inbound(gate: &mut GateCount, peer_caps: u32, t: EnvelopeType) -> (ok: bool)
    ensures
        ok == allowed(peer_caps, t),
        final(gate).drops == (if ok {
            old(gate).drops
        } else {
            old(gate).drops.wrapping_add(1)
        }),
{
    if allows(peer_caps, t) {
        return true;
    }
    gate.drops = gate.drops.wrapping_add(1);
    false
}

/// The outbound gate, asked before anything is encrypted.
pub fn check_outbound(peer_caps: u32, t: EnvelopeType) -> (ok: bool)
    ensures
        ok == allowed(peer_caps, t),
{
    allows(peer_caps, t)
}

/// Envelopes that the inbound gate has dropped.
pub fn gated_drops(gate: &GateCount) -> (n: u64)
    ensures
        n == gate.drops,
{
    gate.drops
}

/// What is advertised is read back.
pub proof fn caps_column_reads_back(bits: u32)
    ensures
        (bits as i64) as u32 == bits,
{
}

/// A type that no bit covers is always allowed, and one that needs a bit is
/// refused as long as the bit is missing, whatever else was advertised: no
/// other bit stands in for it.
pub proof fn no_downgrade(peer_caps: u32, t: EnvelopeType)
    ensures
        needed_cap(t) is None ==> allowed(peer_caps, t),
        needed_cap(t) is Some ==> !allowed(peer_caps & !(needed_cap(t)->0), t),
        needed_cap(t) is Some ==> allowed(peer_caps | needed_cap(t)->0, t),
{
    if let Some(bit) = needed_cap(t) {
        assert((peer_caps & !bit) & bit == 0) by (bit_vector);
        assert(bit != 0 ==> (peer_caps | bit) & bit != 0) by (bit_vector);
    }
}

/// A peer that advertises all that this build speaks may be sent every type.
pub proof fn full_peer_is_ungated(t: EnvelopeType)
    ensures
        allowed(caps::LOCAL, t),
{
    assert(127u32 & 4 != 0 && 127u32 & 8 != 0 && 127u32 & 16 != 0 && 127u32 & 32 != 0 && 127u32 & 64
        != 0) by (bit_vector);
}

/// Each feature needs its own bit, and the baseline needs none.
pub proof fn each_feature_needs_its_bit(peer_caps: u32, t: EnvelopeType)
    ensures
        allowed(peer_caps, EnvelopeType::Sticker) <==> peer_caps & caps::CAP_STICKER != 0,
        allowed(peer_caps, EnvelopeType::StickerCtrl) <==> peer_caps & caps::CAP_STICKER != 0,
        allowed(peer_caps, EnvelopeType::Presence) <==> peer_caps & caps::CAP_PRESENCE != 0,
        allowed(peer_caps, EnvelopeType::Typing) <==> peer_caps & caps::CAP_TYPING != 0,
        allowed(peer_caps, EnvelopeType::Read) <==> peer_caps & caps::CAP_READ != 0,
        allowed(peer_caps, EnvelopeType::ChatPolicy) <==> peer_caps & caps::CAP_POLICY != 0,
        t == EnvelopeType::Msg || t == EnvelopeType::Edit || t == EnvelopeType::Delete || t
            == EnvelopeType::DeleteAll || t == EnvelopeType::ResyncReq || t
            == EnvelopeType::AttachHead || t == EnvelopeType::AttachChunk || t
            == EnvelopeType::ContactClose || t == EnvelopeType::Profile || t == EnvelopeType::Pref
            || t == EnvelopeType::ProfileReq ==> allowed(peer_caps, t) && needed_cap(t) is None,
{
}

/// A peer of whom nothing is on record has only the baseline, and what was put on
/// record is read back.
pub proof fn unknown_peers_have_the_baseline(bits: u32, t: EnvelopeType)
    ensures
        column_bits(Some(bits as i64)) == bits,
        allowed(column_bits(None), t) <==> needed_cap(t) is None,
{
    caps_column_reads_back(bits);
    assert(0u32 & 4 == 0 && 0u32 & 8 == 0 && 0u32 & 16 == 0 && 0u32 & 32 == 0 && 0u32 & 64 == 0)
        by (bit_vector);
}

} // verus!
