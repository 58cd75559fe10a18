//! The accepter's side, the only one that scans or pastes. The payload is
//! decoded and checked in full before anything is written.

use vstd::prelude::*;

use crate::bytes::same_bytes;
use crate::limits::pairing::MAX_RELATIONSHIPS;
use crate::pairing::{
    self, b32, service_id_for, PairingFailure, PairingRefusal, ROLE_ACCEPTER, STATE_ACTIVE,
};
use crate::pairing::layout;
use crate::pairing::offer::PendingRow;
use crate::pairing::qr::{self, decode_code, PairingFault, PairingPayload, PayloadChecks};
use crate::pairing::relationship::{insert_relationship, NewRelationship, Relation, Relationship};
use crate::pairing::sas::{relationship_id, sas};
use crate::text::{self, hex_text};
use crate::util;

verus! {

/// A pairing that was accepted.
#[derive(Clone, Debug)]
pub struct Accepted {
    pub rel_id: String,
    pub sas: String,
    pub peer_onion: String,
    pub onion: String,
}

/// The payload in pasted text: the text is decoded, then the payload in it.
pub fn accept_code(code: &str) -> (r: Result<PairingPayload, PairingFailure>)
    ensures
        match qr::base58_read(text::trimmed(code@)) {
            Err(why) => r is Err && r->Err_0@ == PairingRefusal::Payload(
                PairingFault::Invalid("base58: "@ + why),
            ),
            Ok(bytes) => match layout::scan_payload(bytes) {
                Ok(p) => r is Ok && r->Ok_0@ == p,
                Err(why) => r is Err && r->Err_0@ == PairingRefusal::Payload(
                    PairingFault::Invalid(why),
                ),
            },
        },
{
    match decode_code(code) {
        Ok(bytes) => match PairingPayload::decode(bytes.as_slice()) {
            Ok(p) => Ok(p),
            Err(e) => Err(PairingFailure::Payload(e)),
        },
        Err(e) => Err(PairingFailure::Payload(e)),
    }
}

/// Whether the outstanding offer, if it decodes, is of this identity.
pub open spec fn own_offer(pending: Option<&PendingRow>, identity_key: Seq<u8>) -> bool {
    &&& pending is Some
    &&& layout::scan_payload(pending->0.qr_bytes@) is Ok
    &&& layout::scan_payload(pending->0.qr_bytes@)->Ok_0.identity_key == identity_key
}

/// Why an offer may not be taken up, if it may not.
pub open spec fn offer_refusal(
    payload: PairingPayload,
    now: u64,
    checks: PayloadChecks,
    pending: Option<&PendingRow>,
) -> Option<PairingRefusal> {
    match qr::payload_verdict(payload.expires_at, now, true, checks) {
        Err(why) => Some(PairingRefusal::Payload(why)),
        Ok(_) => if own_offer(pending, payload@.identity_key) {
            Some(PairingRefusal::SelfPairing)
        } else {
            None
        },
    }
}

/// Decides whether an offer may be taken up: it passes all checks, its expiry
/// included, and it is not this side's own.
pub fn accept(
    payload: &PairingPayload,
    now: u64,
    checks: &PayloadChecks,
    pending: Option<&PendingRow>,
) -> (r: Result<(), PairingFailure>)
    ensures
        match offer_refusal(*payload, now, *checks, pending) {
            Some(why) => r is Err && r->Err_0@ == why,
            None => r is Ok,
        },
{
    if let Err(e) = payload.verify(now, true, checks) {
        return Err(PairingFailure::Payload(e));
    }
    if let Some(row) = pending {
        if let Ok(ours) = PairingPayload::decode(row.qr_bytes.as_slice()) {
            if same_bytes(ours.identity_key.as_slice(), payload.identity_key.as_slice()) {
                return Err(PairingFailure::SelfPairing);
            }
        }
    }
    Ok(())
}

/// The id of the relationship of two identities.
pub open spec fn relation_id(a: Seq<u8>, b: Seq<u8>) -> Seq<char> {
    text::hex(util::sha256_of(pairing::sas::relationship_input(a, b)))
}

/// The id of the relationship of two identities.
pub fn rel_id_for(ours: &[u8], theirs: &[u8]) -> (id: String)
    ensures
        id@ == relation_id(ours@, theirs@),
{
    let id: [u8; 32] = relationship_id(ours, theirs);
    hex_text(&id)
}

/// Refuses a second relationship of the same two identities.
pub fn check_new_contact(known: bool) -> (r: Result<(), PairingFailure>)
    ensures
        r is Ok <==> !known,
        r matches Err(e) ==> e@ == PairingRefusal::ContactExists,
{
    if known {
        Err(PairingFailure::ContactExists)
    } else {
        Ok(())
    }
}

/// The relationship that an accepted offer makes. It is active at once, and
/// this side's payload rides along until the inviter answers.
pub open spec fn accepted_relation(
    ours: PairingPayload,
    theirs: PairingPayload,
    our_onion: Seq<char>,
    peer_onion: Seq<char>,
    our_client_auth_private: Seq<char>,
    now: u64,
) -> Relation {
    Relation {
        rel_id: relation_id(ours@.identity_key, theirs@.identity_key),
        role: ROLE_ACCEPTER@,
        state: STATE_ACTIVE@,
        service_id: text::hex(ours@.identity_key),
        onion: our_onion,
        peer_onion,
        peer_identity_key: theirs@.identity_key,
        peer_client_auth_public: pairing::base32_of(theirs@.client_auth_public).map_values(
            |c: char| pairing::ascii_lower(c),
        ),
        our_client_auth_private,
        our_nonce: ours@.nonce,
        peer_nonce: theirs@.nonce,
        our_qr_bytes: layout::wire_bytes(ours@),
        intro_pending: true,
        session_state: "active"@,
        created_at: now,
    }
}

/// Finishes an acceptance once this side's service is up: the row, and what
/// the client shows. `total` is how many relationships there are.
pub fn accept_inner(
    ours: &PairingPayload,
    theirs: &PairingPayload,
    our_onion: &str,
    peer_onion: &str,
    our_client_auth_private: &str,
    total: u32,
    now: u64,
) -> (r: Result<(Relationship, Accepted), PairingFailure>)
    ensures
        r is Ok <==> total < MAX_RELATIONSHIPS,
        r matches Ok((row, done)) ==> {
            &&& row@ == accepted_relation(
                *ours,
                *theirs,
                our_onion@,
                peer_onion@,
                our_client_auth_private@,
                now,
            )
            &&& done.rel_id@ == row@.rel_id
            &&& done.sas@ == pairing::sas::sas_digits(
                util::sha256_of(
                    pairing::sas::sas_input(
                        ours@.identity_key,
                        ours@.nonce,
                        theirs@.identity_key,
                        theirs@.nonce,
                    ),
                ),
            )
            &&& done.peer_onion@ == peer_onion@
            &&& done.onion@ == our_onion@
        },
        r matches Err(e) ==> e@ == PairingRefusal::CapReached("relationships (1024)"@),
{
    let rel_id: String = rel_id_for(ours.identity_key.as_slice(), theirs.identity_key.as_slice());
    let service_id: String = service_id_for(ours.identity_key.as_slice());
    let peer_auth: String = b32(&theirs.client_auth_public);
    let our_qr_bytes: Vec<u8> = ours.encode();
    let row: Relationship = match insert_relationship(
        total,
        NewRelationship {
            rel_id: rel_id.as_str(),
            role: ROLE_ACCEPTER,
            state: STATE_ACTIVE,
            service_id: service_id.as_str(),
            onion: our_onion,
            peer_onion,
            peer_identity_key: theirs.identity_key.as_slice(),
            peer_client_auth_public: peer_auth.as_str(),
            our_client_auth_private,
            our_nonce: ours.nonce,
            peer_nonce: theirs.nonce,
            our_qr_bytes: our_qr_bytes.as_slice(),
            intro_pending: true,
            now,
        },
    ) {
        Ok(row) => row,
        Err(e) => {
            return Err(e);
        },
    };
    let code: String = sas(
        ours.identity_key.as_slice(),
        &ours.nonce,
        theirs.identity_key.as_slice(),
        &theirs.nonce,
    );
    Ok(
        (
            row,
            Accepted {
                rel_id,
                sas: code,
                peer_onion: peer_onion.to_owned(),
                onion: our_onion.to_owned(),
            },
        ),
    )
}

/// An offer is this side's own exactly if it is of the identity of an outstanding
/// offer that decodes.
pub proof fn own_offers_are_known_by_their_identity(
    pending: PendingRow,
    ours: layout::Payload,
    identity_key: Seq<u8>,
)
    requires
        layout::fits_wire(ours),
        pending.qr_bytes@ == layout::wire_bytes(ours),
    ensures
        own_offer(Some(&pending), identity_key) <==> ours.identity_key == identity_key,
        !own_offer(None, identity_key),
{
    layout::decoding_undoes_encoding(ours);
}

/// The id of a relationship is the digest of its two identities in hexadecimal.
pub proof fn the_id_reads_back_as_a_digest(a: Seq<u8>, b: Seq<u8>)
    ensures
        text::is_hex(relation_id(a, b)),
        text::unhex(relation_id(a, b)) == util::sha256_of(
            pairing::sas::relationship_input(a, b),
        ),
{
    text::hex_reads_back(util::sha256_of(pairing::sas::relationship_input(a, b)));
}

/// An offer is taken up exactly if it has not expired, its key parses, its three
/// signatures and its address hold, and it is not this side's own. One's own offer
/// is refused as such only if it would have passed.
pub proof fn offers_are_taken_up_in_full(
    payload: PairingPayload,
    now: u64,
    checks: PayloadChecks,
    pending: Option<&PendingRow>,
)
    ensures
        ({
            let r = offer_refusal(payload, now, checks, pending);
            let sound = now <= payload.expires_at && checks.identity is Ok && checks.signature
                && checks.signed_pre_key && checks.kyber_pre_key && checks.onion is Ok;
            &&& r is None <==> sound && !own_offer(pending, payload@.identity_key)
            &&& r == Some(PairingRefusal::SelfPairing) <==> sound && own_offer(
                pending,
                payload@.identity_key,
            )
            &&& now > payload.expires_at <==> r == Some(
                PairingRefusal::Payload(PairingFault::Expired),
            )
        }),
{
}

} // verus!
