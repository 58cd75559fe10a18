//! The inviter's side: an offer and its lifetime. The invitation service is
//! open to anyone until the request is accepted; the lifetime bounds that.

use vstd::prelude::*;
use vstd::slice::slice_to_vec;

use crate::pairing::service_id_for;
use crate::pairing::layout;
use crate::pairing::qr::{self, encode_code, BundleParts, PairingPayload, OFFER_TTL_SECONDS};
use crate::text;
use crate::util::random_bytes;

verus! {

/// An offer, for the client to show.
#[derive(Clone, Debug)]
pub struct Offer {
    pub qr_bytes: Vec<u8>,
    /// The payload as text.
    pub code: String,
    pub onion: String,
    pub expires_at: u64,
    /// The invitation service.
    pub service_id: String,
}

/// The outstanding offer as it is stored.
#[derive(Clone, Debug)]
pub struct PendingRow {
    pub service_id: String,
    pub onion: String,
    pub qr_bytes: Vec<u8>,
    pub client_auth_private: String,
    pub expires_at: u64,
}

/// Whether an offer's time is up.
pub open spec fn lapsed(expires_at: u64, now: u64) -> bool {
    expires_at <= now
}

/// Whether the outstanding offer is to be swept: its time is up.
pub fn sweep_expired(pending: Option<&PendingRow>, now: u64) -> (sweep: bool)
    ensures
        sweep == (pending is Some && lapsed(pending->0.expires_at, now)),
{
    match pending {
        Some(p) => p.expires_at <= now,
        None => false,
    }
}

/// A payload of `now` for a bundle and an address, not signed yet. It expires
/// after an offer's lifetime.
pub open spec fn drafts(
    p: PairingPayload,
    bundle: BundleParts,
    onion_raw: Seq<u8>,
    client_auth_public: Seq<u8>,
    now: u64,
) -> bool {
    &&& p.expires_at == now + OFFER_TTL_SECONDS
    &&& p@.identity_key == bundle.identity_key@
    &&& p@.registration_id == bundle.registration_id
    &&& p@.pre_key == (if bundle.pre_key_id is Some && bundle.pre_key_public is Some {
        Some((bundle.pre_key_id->0, bundle.pre_key_public->0@))
    } else {
        None
    })
    &&& p@.signed_pre_key_id == bundle.signed_pre_key_id
    &&& p@.signed_pre_key_public == bundle.signed_pre_key_public@
    &&& p@.signed_pre_key_signature == bundle.signed_pre_key_signature@
    &&& p@.kyber_pre_key_id == bundle.kyber_pre_key_id
    &&& p@.kyber_pre_key_public == bundle.kyber_pre_key_public@
    &&& p@.kyber_pre_key_signature == bundle.kyber_pre_key_signature@
    &&& p@.onion == onion_raw
    &&& p@.client_auth_public == client_auth_public
    &&& p@.signature.len() == 0
}

/// The payload of an offer or of an answer to one, with a given nonce, to be
/// signed.
pub fn draft_with(
    bundle: BundleParts,
    onion_raw: [u8; 35],
    client_auth_public: [u8; 32],
    nonce: [u8; 32],
    now: u64,
) -> (p: PairingPayload)
    requires
        now + OFFER_TTL_SECONDS <= u64::MAX,
    ensures
        drafts(p, bundle, onion_raw@, client_auth_public@, now),
        p@.nonce == nonce@,
{
    PairingPayload::from_bundle(
        bundle,
        onion_raw,
        client_auth_public,
        nonce,
        now + OFFER_TTL_SECONDS,
    )
}

/// The payload of an offer or of an answer to one, with a fresh nonce, to be
/// signed.
pub fn draft_offer(
    bundle: BundleParts,
    onion_raw: [u8; 35],
    client_auth_public: [u8; 32],
    now: u64,
) -> (p: PairingPayload)
    requires
        now + OFFER_TTL_SECONDS <= u64::MAX,
    ensures
        drafts(p, bundle, onion_raw@, client_auth_public@, now),
{
    draft_with(bundle, onion_raw, client_auth_public, random_bytes::<32>(), now)
}

/// Whether an offer and its row are of a signed payload.
pub open spec fn offers(
    o: Offer,
    row: PendingRow,
    payload: PairingPayload,
    onion: Seq<char>,
    client_auth_private: Seq<char>,
) -> bool {
    &&& o.qr_bytes@ == layout::wire_bytes(payload@)
    &&& o.code@ == qr::base58_of(layout::wire_bytes(payload@))
    &&& o.onion@ == onion
    &&& o.expires_at == payload.expires_at
    &&& o.service_id@ == text::hex(payload@.identity_key)
    &&& row.service_id@ == o.service_id@
    &&& row.onion@ == onion
    &&& row.qr_bytes@ == o.qr_bytes@
    &&& row.client_auth_private@ == client_auth_private
    &&& row.expires_at == payload.expires_at
}

/// The offer for a signed payload, and its row. Both name the service of the
/// payload's identity.
pub fn offer(payload: &PairingPayload, onion: &str, client_auth_private: &str) -> (r: (
    Offer,
    PendingRow,
))
    ensures
        offers(r.0, r.1, *payload, onion@, client_auth_private@),
        qr::base58_read(text::trimmed(r.0.code@)) is Ok,
        qr::base58_read(text::trimmed(r.0.code@))->Ok_0 == r.0.qr_bytes@,
{
    let qr_bytes: Vec<u8> = payload.encode();
    let service_id: String = service_id_for(payload.identity_key.as_slice());
    let row: PendingRow = PendingRow {
        service_id: service_id.clone(),
        onion: onion.to_owned(),
        qr_bytes: slice_to_vec(qr_bytes.as_slice()),
        client_auth_private: client_auth_private.to_owned(),
        expires_at: payload.expires_at,
    };
    let code: String = encode_code(qr_bytes.as_slice());
    (
        Offer {
            code,
            qr_bytes,
            onion: onion.to_owned(),
            expires_at: payload.expires_at,
            service_id,
        },
        row,
    )
}

/// What an offer was drafted from is what the other side reads in it: the bundle,
/// the address and the client key, and an expiry 300 seconds after the draft.
pub proof fn an_offer_carries_its_bundle(
    p: PairingPayload,
    signed: PairingPayload,
    bundle: BundleParts,
    onion_raw: Seq<u8>,
    client_auth_public: Seq<u8>,
    now: u64,
    code: Seq<char>,
)
    requires
        drafts(p, bundle, onion_raw, client_auth_public, now),
        signed@ == (layout::Payload { signature: signed@.signature, ..p@ }),
        layout::fits_wire(signed@),
        qr::base58_read(text::trimmed(code)) == Ok::<Seq<u8>, Seq<char>>(
            layout::wire_bytes(signed@),
        ),
    ensures
        ({
            let read = layout::scan_payload(qr::base58_read(text::trimmed(code))->Ok_0);
            let q = read->Ok_0;
            &&& read is Ok
            &&& q.identity_key == bundle.identity_key@
            &&& q.registration_id == bundle.registration_id
            &&& q.pre_key is Some <==> bundle.pre_key_id is Some && bundle.pre_key_public is Some
            &&& q.pre_key matches Some((id, key)) ==> bundle.pre_key_id == Some(id)
                && bundle.pre_key_public->0@ == key
            &&& q.signed_pre_key_id == bundle.signed_pre_key_id
            &&& q.signed_pre_key_public == bundle.signed_pre_key_public@
            &&& q.signed_pre_key_signature == bundle.signed_pre_key_signature@
            &&& q.kyber_pre_key_id == bundle.kyber_pre_key_id
            &&& q.kyber_pre_key_public == bundle.kyber_pre_key_public@
            &&& q.kyber_pre_key_signature == bundle.kyber_pre_key_signature@
            &&& q.onion == onion_raw
            &&& q.client_auth_public == client_auth_public
            &&& q.nonce == p@.nonce
            &&& q.expires_at == now + 300
        }),
{
    layout::decoding_undoes_encoding(signed@);
}

/// An offer that still stands has not expired for the one who scans it: it is swept
/// from the second on in which it runs out.
pub proof fn standing_offers_can_be_taken_up(
    expires_at: u64,
    now: u64,
    checks: qr::PayloadChecks,
)
    ensures
        lapsed(expires_at, now) <==> now >= expires_at,
        !lapsed(expires_at, now) ==> qr::payload_verdict(expires_at, now, true, checks)
            == qr::payload_verdict(expires_at, now, false, checks),
{
}

/// What is shown of an offer and what is kept of it are of one payload: its bytes
/// decode to it, its service is of its identity, and it runs out when it says.
pub proof fn an_offer_is_kept_as_it_is_shown(
    o: Offer,
    row: PendingRow,
    payload: PairingPayload,
    onion: Seq<char>,
    client_auth_private: Seq<char>,
)
    requires
        offers(o, row, payload, onion, client_auth_private),
        layout::fits_wire(payload@),
    ensures
        layout::scan_payload(o.qr_bytes@) == Ok::<layout::Payload, Seq<char>>(payload@),
        layout::scan_payload(row.qr_bytes@) == Ok::<layout::Payload, Seq<char>>(payload@),
        text::unhex(o.service_id@) == payload@.identity_key,
        text::unhex(row.service_id@) == payload@.identity_key,
        o.expires_at == payload@.expires_at && row.expires_at == payload@.expires_at,
        o.onion@ == onion && row.onion@ == onion,
        row.client_auth_private@ == client_auth_private,
{
    layout::decoding_undoes_encoding(payload@);
    text::hex_reads_back(payload@.identity_key);
}

/// The bundle that goes into an offer is the bundle that the other side gets out of
/// it, for the only device that there is. A one-time pre-key is passed on only as a
/// whole.
pub proof fn the_bundle_comes_through(
    p: PairingPayload,
    given: BundleParts,
    got: BundleParts,
    onion_raw: Seq<u8>,
    client_auth_public: Seq<u8>,
    now: u64,
)
    requires
        drafts(p, given, onion_raw, client_auth_public, now),
        qr::bundled(got, p@),
    ensures
        got.identity_key@ == given.identity_key@,
        got.registration_id == given.registration_id,
        got.device_id == 1,
        given.pre_key_id is Some && given.pre_key_public is Some ==> got.pre_key_id
            == given.pre_key_id && got.pre_key_public is Some && got.pre_key_public->0@
            == given.pre_key_public->0@,
        given.pre_key_id is None || given.pre_key_public is None ==> got.pre_key_id is None
            && got.pre_key_public is None,
        got.signed_pre_key_id == given.signed_pre_key_id,
        got.signed_pre_key_public@ == given.signed_pre_key_public@,
        got.signed_pre_key_signature@ == given.signed_pre_key_signature@,
        got.kyber_pre_key_id == given.kyber_pre_key_id,
        got.kyber_pre_key_public@ == given.kyber_pre_key_public@,
        got.kyber_pre_key_signature@ == given.kyber_pre_key_signature@,
{
}

} // verus!
