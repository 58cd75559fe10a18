//! Routing an inbound frame: a message of a relationship, an intro at the
//! invitation service, or nothing.

use vstd::prelude::*;

use crate::bytes::{self, push_be64, read_be64, same_bytes};
use crate::limits::pairing::{MAX_PENDING_REQUESTS, MAX_RELATIONSHIPS};
use crate::limits::rate::INTRO_MIN_INTERVAL_SECS;
use crate::pairing::{self, b32, PairingFailure, PairingRefusal, ROLE_INVITER, STATE_REQUEST};
use crate::pairing::accept::{self, rel_id_for};
use crate::pairing::layout::{self, Payload};
use crate::pairing::offer::PendingRow;
use crate::pairing::qr::{self, PairingPayload, PayloadChecks};
use crate::pairing::messaging;
use crate::pairing::relationship::{insert_relationship, NewRelationship, Relation, Relationship};
use crate::pairing::requests;
use crate::pairing::sas::sas;
use crate::text::{self, same_text};
use crate::util;

verus! {

/// What a frame was.
#[derive(Debug)]
pub enum Ingest {
    /// An intro: a new request, with its first message.
    RequestReceived { rel_id: String, sas: String, plaintext: Vec<u8> },
    Message { rel_id: String, plaintext: Vec<u8> },
    /// A frame that was processed before.
    Duplicate,
    /// The session broke on this frame.
    SessionBroken { rel_id: String, reason: String },
    /// Unknown service, no intro, or malformed.
    Dropped,
}

/// Where a frame goes.
#[derive(Clone, Copy, Debug, PartialEq, Eq, Structural)]
pub enum Route {
    /// The invitation service: an intro is due.
    Intro,
    /// The service of a relationship.
    Relationship,
    /// A service that nobody knows.
    Unknown,
}

/// Where a frame for a service goes, given the service of the outstanding offer and
/// whether a relationship has it.
pub open spec fn route(offered: Option<Seq<char>>, service: Seq<char>, known: bool) -> Route {
    if offered == Some(service) {
        Route::Intro
    } else if known {
        Route::Relationship
    } else {
        Route::Unknown
    }
}

/// Where a frame for a service goes. The outstanding offer comes before the
/// relationships.
pub fn route_frame(pending: Option<&PendingRow>, service_id: &str, known: bool) -> (to: Route)
    ensures
        to == route(
            match pending {
                Some(p) => Some(p.service_id@),
                None => None,
            },
            service_id@,
            known,
        ),
{
    if let Some(p) = pending {
        if same_text(p.service_id.as_str(), service_id) {
            return Route::Intro;
        }
    }
    if known {
        Route::Relationship
    } else {
        Route::Unknown
    }
}

/// What the session layer makes of a frame.
#[derive(Debug)]
pub enum Opened {
    Plaintext(Vec<u8>),
    /// It was processed before.
    Duplicate,
    /// The session broke on it.
    Broken(String),
    /// Malformed, or not for this session.
    Failed,
}

/// What a frame of a relationship was, as the session layer found it.
pub open spec fn frame_was(r: Ingest, rel: Seq<char>, opened: Opened) -> bool {
    match opened {
        Opened::Plaintext(p) => r matches Ingest::Message { rel_id: id, plaintext } && id@ == rel
            && plaintext@ == p@,
        Opened::Duplicate => r is Duplicate,
        Opened::Broken(why) => r matches Ingest::SessionBroken { rel_id: id, reason } && id@ == rel
            && reason@ == why@,
        Opened::Failed => r is Dropped,
    }
}

/// What a frame of a relationship was.
pub fn ingest_frame(rel_id: &str, opened: Opened) -> (r: Ingest)
    ensures
        frame_was(r, rel_id@, opened),
{
    match opened {
        Opened::Plaintext(plaintext) => Ingest::Message { rel_id: rel_id.to_owned(), plaintext },
        Opened::Duplicate => Ingest::Duplicate,
        Opened::Broken(reason) => Ingest::SessionBroken { rel_id: rel_id.to_owned(), reason },
        Opened::Failed => Ingest::Dropped,
    }
}

// ---------------------------------------------------------------------------
// Intros

/// The payload of an intro; `None` where there is none, or it does not
/// decode.
pub fn decode_intro(intro: Option<&[u8]>) -> (p: Option<PairingPayload>)
    ensures
        match intro {
            None => p is None,
            Some(bytes) => match layout::scan_payload(bytes@) {
                Ok(q) => p is Some && p->0@ == q,
                Err(_) => p is None,
            },
        },
{
    match intro {
        Some(bytes) => match PairingPayload::decode(bytes) {
            Ok(p) => Some(p),
            Err(_) => None,
        },
        None => None,
    }
}

/// Whether a frame brings the intro of the identity that encrypted it.
pub open spec fn bound(
    payload: PairingPayload,
    checks: PayloadChecks,
    now: u64,
    prekey_identity: Option<Seq<u8>>,
) -> bool {
    &&& qr::payload_verdict(payload.expires_at, now, false, checks) is Ok
    &&& prekey_identity == Some(payload@.identity_key)
}

/// Whether an intro is to be looked at further: its payload passes all checks
/// but expiry, and the frame is a pre-key message of the very identity that
/// the payload claims.
pub fn intro_is_bound(
    payload: &PairingPayload,
    checks: &PayloadChecks,
    now: u64,
    prekey_identity: Option<&[u8]>,
) -> (ok: bool)
    ensures
        ok == bound(
            *payload,
            *checks,
            now,
            match prekey_identity {
                Some(ik) => Some(ik@),
                None => None,
            },
        ),
{
    if payload.verify(now, false, checks).is_err() {
        return false;
    }
    match prekey_identity {
        Some(ik) => same_bytes(ik, payload.identity_key.as_slice()),
        None => false,
    }
}

/// The time that a setting of eight bytes holds, 0 otherwise.
pub open spec fn stored_time(setting: Option<Seq<u8>>) -> int {
    match setting {
        Some(b) => if b.len() == 8 {
            bytes::of_be64(b, 0)
        } else {
            0
        },
        None => 0,
    }
}

/// The time that a setting of eight bytes holds, 0 otherwise.
pub fn read_time(setting: Option<&[u8]>) -> (t: u64)
    ensures
        t == stored_time(
            match setting {
                Some(b) => Some(b@),
                None => None,
            },
        ),
{
    match setting {
        Some(b) => {
            if b.len() == 8 {
                read_be64(b, 0)
            } else {
                0
            }
        },
        None => 0,
    }
}

/// The setting that holds a time.
pub fn time_setting(t: u64) -> (b: Vec<u8>)
    ensures
        b@ == bytes::be64(t),
{
    let mut b: Vec<u8> = Vec::new();
    push_be64(&mut b, t);
    assert(b@ =~= bytes::be64(t));
    b
}

/// Whether an intro comes too soon after the last one.
pub open spec fn too_soon(last: int, now: int) -> bool {
    now < last + INTRO_MIN_INTERVAL_SECS
}

/// The throttle on intros: `None` where the intro comes too soon, else the
/// setting that remembers it.
pub fn intro_throttled(last: Option<&[u8]>, now: u64) -> (stamp: Option<Vec<u8>>)
    ensures
        match stamp {
            None => too_soon(
                stored_time(
                    match last {
                        Some(b) => Some(b@),
                        None => None,
                    },
                ),
                now as int,
            ),
            Some(b) => b@ == bytes::be64(now) && !too_soon(
                stored_time(
                    match last {
                        Some(b) => Some(b@),
                        None => None,
                    },
                ),
                now as int,
            ),
        },
{
    let last: u64 = read_time(last);
    if now < last || now - last < INTRO_MIN_INTERVAL_SECS {
        return None;
    }
    Some(time_setting(now))
}

/// Whether the requests are full for a new relationship. One that is known
/// is a redelivery and passes.
pub fn request_bucket_full(pending_count: u32, known: bool) -> (full: bool)
    ensures
        full == no_room(pending_count, known),
{
    pending_count >= MAX_PENDING_REQUESTS && !known
}

/// What becomes of a bound intro before its message is decrypted.
#[derive(Debug)]
pub enum IntroGate {
    /// It is of this side's own identity.
    Own,
    /// It comes too soon: dropped, and counted.
    Throttled,
    /// The requests are full. The time is remembered all the same.
    Full { stamp: Vec<u8> },
    /// It may be decrypted, once the step before that is taken.
    Open { stamp: Vec<u8>, rel_id: String, first: IntroStep },
}

/// Whether the requests have no room for one more.
pub open spec fn no_room(pending_count: u32, known: bool) -> bool {
    pending_count >= MAX_PENDING_REQUESTS && !known
}

/// What becomes of a bound intro, given the setting that remembers the last one.
pub open spec fn gates(
    g: IntroGate,
    ours: Seq<u8>,
    theirs: Seq<u8>,
    last: Option<Seq<u8>>,
    now: u64,
    pending_count: u32,
    known: bool,
) -> bool {
    let soon = too_soon(stored_time(last), now as int);
    let full = no_room(pending_count, known);
    match g {
        IntroGate::Own => ours == theirs,
        IntroGate::Throttled => ours != theirs && soon,
        IntroGate::Full { stamp } => ours != theirs && !soon && full && stamp@ == bytes::be64(now),
        IntroGate::Open { stamp, rel_id, first } => ours != theirs && !soon && !full && stamp@
            == bytes::be64(now) && rel_id@ == accept::relation_id(ours, theirs) && seq![first]
            == attempt_steps(),
    }
}

/// Decides on a bound intro.
pub fn gate_intro(
    our_identity: &[u8],
    their_identity: &[u8],
    last: Option<&[u8]>,
    now: u64,
    pending_count: u32,
    known: bool,
) -> (g: IntroGate)
    ensures
        gates(
            g,
            our_identity@,
            their_identity@,
            match last {
                Some(b) => Some(b@),
                None => None,
            },
            now,
            pending_count,
            known,
        ),
{
    if same_bytes(their_identity, our_identity) {
        return IntroGate::Own;
    }
    let stamp: Vec<u8> = match intro_throttled(last, now) {
        Some(stamp) => stamp,
        None => {
            return IntroGate::Throttled;
        },
    };
    if request_bucket_full(pending_count, known) {
        return IntroGate::Full { stamp };
    }
    IntroGate::Open {
        stamp,
        rel_id: rel_id_for(our_identity, their_identity),
        first: IntroStep::MovePersona,
    }
}

/// The relationship that an intro makes: a request, on the service of the
/// offer.
pub open spec fn requested_relation(
    pending: PendingRow,
    offer: Payload,
    theirs: Payload,
    our_identity: Seq<u8>,
    peer_onion: Seq<char>,
    now: u64,
) -> Relation {
    Relation {
        rel_id: accept::relation_id(our_identity, theirs.identity_key),
        role: ROLE_INVITER@,
        state: STATE_REQUEST@,
        service_id: pending.service_id@,
        onion: pending.onion@,
        peer_onion,
        peer_identity_key: theirs.identity_key,
        peer_client_auth_public: pairing::base32_of(theirs.client_auth_public).map_values(
            |c: char| pairing::ascii_lower(c),
        ),
        our_client_auth_private: pending.client_auth_private@,
        our_nonce: offer.nonce,
        peer_nonce: theirs.nonce,
        our_qr_bytes: pending.qr_bytes@,
        intro_pending: false,
        session_state: "active"@,
        created_at: now,
    }
}

/// One step that an intro takes in the store or on the transport.
#[derive(Clone, Copy, Debug, PartialEq, Eq, Structural)]
pub enum IntroStep {
    /// Move the offer's persona to the new relationship, which decrypting
    /// needs.
    MovePersona,
    /// Move the persona back to the offer.
    RestorePersona,
    /// Delete what the attempt left under the relationship's id: keys and
    /// session.
    DeleteNamespace,
    /// Store the relationship.
    Insert,
    /// Delete the offer.
    CloseOffer,
    /// Sign in to the peer's service.
    SignIn,
}

/// What an intro does once its message was decrypted, or was not.
#[derive(Clone, Debug)]
pub struct IntroPlan {
    /// The relationship to store, if any.
    pub row: Option<Relationship>,
    /// What to do, in order.
    pub steps: Vec<IntroStep>,
}

/// The step before an intro's message is decrypted.
pub open spec fn attempt_steps() -> Seq<IntroStep> {
    seq![IntroStep::MovePersona]
}

/// The steps after a message that does not decrypt: the attempt is undone.
pub open spec fn undo_steps() -> Seq<IntroStep> {
    seq![IntroStep::RestorePersona, IntroStep::DeleteNamespace]
}

/// The steps after a message that decrypts.
pub open spec fn request_steps() -> Seq<IntroStep> {
    seq![IntroStep::Insert, IntroStep::CloseOffer, IntroStep::SignIn]
}

/// Finishes an intro. `opened` is its message, `None` where it did not decrypt:
/// then the frame is dropped and the offer is left as it was. Otherwise there is
/// the row of a request, and what the client is told.
pub fn ingest_intro(
    pending: &PendingRow,
    theirs: &PairingPayload,
    our_identity: &[u8],
    peer_onion: &str,
    opened: Option<Vec<u8>>,
    total: u32,
    now: u64,
) -> (r: Result<(IntroPlan, Ingest), PairingFailure>)
    ensures
        match opened {
            None => {
                &&& r is Ok
                &&& r->Ok_0.0.row is None
                &&& r->Ok_0.0.steps@ == undo_steps()
                &&& r->Ok_0.1 is Dropped
            },
            Some(plaintext) => match layout::scan_payload(pending.qr_bytes@) {
                Err(why) => r is Err && r->Err_0@ == PairingRefusal::Payload(
                    qr::PairingFault::Invalid(why),
                ),
                Ok(offer) => if total >= MAX_RELATIONSHIPS {
                    r is Err && r->Err_0@ == PairingRefusal::CapReached("relationships (1024)"@)
                } else {
                    &&& r is Ok
                    &&& r->Ok_0.0.row is Some
                    &&& r->Ok_0.0.row->0@ == requested_relation(
                        *pending,
                        offer,
                        theirs@,
                        our_identity@,
                        peer_onion@,
                        now,
                    )
                    &&& r->Ok_0.0.steps@ == request_steps()
                    &&& r->Ok_0.1 matches Ingest::RequestReceived {
                        rel_id,
                        sas: code,
                        plaintext: p,
                    }
                    &&& rel_id@ == accept::relation_id(our_identity@, theirs@.identity_key)
                    &&& code@ == pairing::sas::sas_digits(
                        util::sha256_of(
                            pairing::sas::sas_input(
                                our_identity@,
                                offer.nonce,
                                theirs@.identity_key,
                                theirs@.nonce,
                            ),
                        ),
                    )
                    &&& p@ == plaintext@
                },
            },
        },
{
    let plaintext: Vec<u8> = match opened {
        Some(p) => p,
        None => {
            let steps: Vec<IntroStep> = vec![IntroStep::RestorePersona, IntroStep::DeleteNamespace];
            assert(steps@ =~= undo_steps());
            return Ok((IntroPlan { row: None, steps }, Ingest::Dropped));
        },
    };
    let offer: PairingPayload = match PairingPayload::decode(pending.qr_bytes.as_slice()) {
        Ok(offer) => offer,
        Err(e) => {
            return Err(PairingFailure::Payload(e));
        },
    };
    let rel_id: String = rel_id_for(our_identity, theirs.identity_key.as_slice());
    let peer_auth: String = b32(&theirs.client_auth_public);
    let row: Relationship = match insert_relationship(
        total,
        NewRelationship {
            rel_id: rel_id.as_str(),
            role: ROLE_INVITER,
            state: STATE_REQUEST,
            service_id: pending.service_id.as_str(),
            onion: pending.onion.as_str(),
            peer_onion,
            peer_identity_key: theirs.identity_key.as_slice(),
            peer_client_auth_public: peer_auth.as_str(),
            our_client_auth_private: pending.client_auth_private.as_str(),
            our_nonce: offer.nonce,
            peer_nonce: theirs.nonce,
            our_qr_bytes: pending.qr_bytes.as_slice(),
            intro_pending: false,
            now,
        },
    ) {
        Ok(row) => row,
        Err(e) => {
            return Err(e);
        },
    };
    let code: String = sas(
        our_identity,
        &offer.nonce,
        theirs.identity_key.as_slice(),
        &theirs.nonce,
    );
    let steps: Vec<IntroStep> = vec![IntroStep::Insert, IntroStep::CloseOffer, IntroStep::SignIn];
    assert(steps@ =~= request_steps());
    Ok(
        (
            IntroPlan { row: Some(row), steps },
            Ingest::RequestReceived { rel_id, sas: code, plaintext },
        ),
    )
}

// ---------------------------------------------------------------------------
// Laws

/// The time that was remembered is the time that is read.
pub proof fn remembered_time_reads_back(now: u64)
    ensures
        stored_time(Some(bytes::be64(now))) == now,
{
    bytes::be64_reads_back(now);
}

/// Between two intros that pass at one invitation service at least the
/// minimum interval lies, whatever the clock does in between.
pub proof fn intros_are_paced(first: u64, second: u64)
    requires
        !too_soon(stored_time(Some(bytes::be64(first))), second as int),
    ensures
        second >= first + INTRO_MIN_INTERVAL_SECS,
{
    remembered_time_reads_back(first);
}

/// What there is of an offer and of the relationship that an intro would make.
pub struct OfferState {
    /// Whether the offer is open.
    pub offer: bool,
    /// Whether the offer has its persona.
    pub persona: bool,
    /// Whether keys or a session are kept under the relationship's id.
    pub namespace: bool,
    /// Whether the relationship is on record.
    pub row: bool,
    /// Whether this side is signed in to the peer's service.
    pub signed_in: bool,
}

/// What a step makes of it.
pub open spec fn after_step(s: OfferState, step: IntroStep) -> OfferState {
    match step {
        IntroStep::MovePersona => OfferState { persona: false, namespace: true, ..s },
        IntroStep::RestorePersona => OfferState { persona: true, ..s },
        IntroStep::DeleteNamespace => OfferState { namespace: false, ..s },
        IntroStep::Insert => OfferState { row: true, ..s },
        IntroStep::CloseOffer => OfferState { offer: false, ..s },
        IntroStep::SignIn => OfferState { signed_in: true, ..s },
    }
}

/// What steps make of it, in order.
pub open spec fn after_steps(s: OfferState, steps: Seq<IntroStep>) -> OfferState
    decreases steps.len(),
{
    if steps.len() == 0 {
        s
    } else {
        after_step(after_steps(s, steps.drop_last()), steps.last())
    }
}

/// An intro whose message does not decrypt leaves everything as it was, so the
/// offer stays open for the honest peer: an intro that comes after the minimum
/// interval is not throttled.
pub proof fn a_failed_intro_leaves_the_offer(s: OfferState, now: u64, later: u64)
    requires
        s.offer,
        s.persona,
        !s.namespace,
        later >= now + INTRO_MIN_INTERVAL_SECS,
    ensures
        after_steps(after_steps(s, attempt_steps()), undo_steps()) == s,
        !too_soon(stored_time(Some(bytes::be64(now))), later as int),
{
    reveal_with_fuel(after_steps, 3);
    assert(attempt_steps().drop_last() =~= Seq::empty());
    assert(undo_steps().drop_last() =~= seq![IntroStep::RestorePersona]);
    assert(undo_steps().drop_last().drop_last() =~= Seq::empty());
    remembered_time_reads_back(now);
}

/// An intro whose message decrypts becomes a request on record, in place of the
/// offer, whose persona it takes over.
pub proof fn an_intro_becomes_a_request(s: OfferState)
    ensures
        after_steps(after_steps(s, attempt_steps()), request_steps()) == (OfferState {
            offer: false,
            persona: false,
            namespace: true,
            row: true,
            signed_in: true,
        }),
{
    reveal_with_fuel(after_steps, 4);
    assert(attempt_steps().drop_last() =~= Seq::empty());
    assert(request_steps().drop_last() =~= seq![IntroStep::Insert, IntroStep::CloseOffer]);
    assert(request_steps().drop_last().drop_last() =~= seq![IntroStep::Insert]);
    assert(request_steps().drop_last().drop_last().drop_last() =~= Seq::empty());
}

/// The two sides of one pairing derive the same relationship id and the same
/// safety code.
pub proof fn both_sides_agree(
    inviter: Seq<u8>,
    inviter_nonce: Seq<u8>,
    accepter: Seq<u8>,
    accepter_nonce: Seq<u8>,
)
    requires
        inviter != accepter,
    ensures
        accept::relation_id(inviter, accepter) == accept::relation_id(accepter, inviter),
        pairing::sas::sas_input(inviter, inviter_nonce, accepter, accepter_nonce) == pairing::sas::sas_input(
            accepter,
            accepter_nonce,
            inviter,
            inviter_nonce,
        ),
{
    pairing::sas::relationship_input_is_symmetric(inviter, accepter);
    pairing::sas::sas_input_is_symmetric(
        inviter,
        inviter_nonce,
        accepter,
        accepter_nonce,
    );
}

/// The rows of the two sides of one pairing mirror each other. They have one id
/// and one safety code; each has the other's identity, nonce, address and client
/// key, and its own payload. The accepter is active at once and sends its payload
/// along; the inviter has a request.
pub proof fn both_rows_are_of_one_pairing(
    pending: PendingRow,
    offer: PairingPayload,
    answer: PairingPayload,
    answer_onion: Seq<char>,
    offer_onion: Seq<char>,
    answer_private: Seq<char>,
    taken_at: u64,
    asked_at: u64,
)
    requires
        layout::fits_wire(offer@),
        layout::fits_wire(answer@),
        pending.qr_bytes@ == layout::wire_bytes(offer@),
        pending.onion@ == offer_onion,
        pending.service_id@ == text::hex(offer@.identity_key),
        offer@.identity_key != answer@.identity_key,
    ensures
        ({
            let a = accept::accepted_relation(
                answer,
                offer,
                answer_onion,
                offer_onion,
                answer_private,
                taken_at,
            );
            let i = requested_relation(
                pending,
                offer@,
                answer@,
                offer@.identity_key,
                answer_onion,
                asked_at,
            );
            &&& a.rel_id == i.rel_id
            &&& requests::code_of(a, answer@.identity_key) == requests::code_of(
                i,
                offer@.identity_key,
            )
            &&& a.peer_identity_key == offer@.identity_key
            &&& i.peer_identity_key == answer@.identity_key
            &&& a.our_nonce == answer@.nonce && i.peer_nonce == answer@.nonce
            &&& a.peer_nonce == offer@.nonce && i.our_nonce == offer@.nonce
            &&& a.onion == answer_onion && i.peer_onion == answer_onion
            &&& a.peer_onion == offer_onion && i.onion == offer_onion
            &&& text::unhex(a.service_id) == answer@.identity_key
            &&& text::unhex(i.service_id) == offer@.identity_key
            &&& a.our_client_auth_private == answer_private
            &&& i.our_client_auth_private == pending.client_auth_private@
            &&& layout::scan_payload(a.our_qr_bytes) == Ok::<Payload, Seq<char>>(answer@)
            &&& layout::scan_payload(i.our_qr_bytes) == Ok::<Payload, Seq<char>>(offer@)
            &&& a.role == "accepter"@ && i.role == "inviter"@
            &&& a.state == "active"@ && i.state == "request"@
            &&& a.session_state == "active"@ && i.session_state == "active"@
            &&& a.intro_pending && !i.intro_pending
            &&& a.created_at == taken_at && i.created_at == asked_at
            &&& messaging::unaccepted(i) && !messaging::unaccepted(a)
        }),
{
    both_sides_agree(offer@.identity_key, offer@.nonce, answer@.identity_key, answer@.nonce);
    layout::decoding_undoes_encoding(offer@);
    layout::decoding_undoes_encoding(answer@);
    text::hex_reads_back(offer@.identity_key);
    text::hex_reads_back(answer@.identity_key);
    reveal_strlit("accepter");
    reveal_strlit("inviter");
    assert("accepter"@[0] != "inviter"@[0]);
}

/// Each side's service is restricted to the other's client key: the 32 bytes of
/// the key in 52 letters and digits, five bits each, the highest first.
pub proof fn client_keys_are_written_in_five_bits(
    pending: PendingRow,
    offer: Payload,
    theirs: Payload,
    our_identity: Seq<u8>,
    peer_onion: Seq<char>,
    now: u64,
    i: int,
)
    requires
        theirs.client_auth_public.len() == 32,
        0 <= i < 52,
    ensures
        ({
            let row = requested_relation(pending, offer, theirs, our_identity, peer_onion, now);
            let key = theirs.client_auth_public;
            let five = 16 * pairing::bit_at(key, 5 * i) + 8 * pairing::bit_at(key, 5 * i + 1) + 4
                * pairing::bit_at(key, 5 * i + 2) + 2 * pairing::bit_at(key, 5 * i + 3)
                + pairing::bit_at(key, 5 * i + 4);
            &&& row.peer_client_auth_public.len() == 52
            &&& row.peer_client_auth_public[i] == "abcdefghijklmnopqrstuvwxyz234567"@[five]
        }),
{
    reveal_strlit("abcdefghijklmnopqrstuvwxyz234567");
    let key = theirs.client_auth_public;
    assert(0 <= pairing::bit_at(key, 5 * i) <= 1);
    assert(0 <= pairing::bit_at(key, 5 * i + 1) <= 1);
    assert(0 <= pairing::bit_at(key, 5 * i + 2) <= 1);
    assert(0 <= pairing::bit_at(key, 5 * i + 3) <= 1);
    assert(0 <= pairing::bit_at(key, 5 * i + 4) <= 1);
}

/// The first intro passes a second after the epoch and later; a setting that is
/// not a time counts as none.
pub proof fn the_first_intro_passes(now: u64, setting: Seq<u8>)
    requires
        now >= 1,
        setting.len() != 8,
    ensures
        !too_soon(stored_time(None), now as int),
        !too_soon(stored_time(Some(setting)), now as int),
{
}

/// A frame is an intro exactly if its service is that of the outstanding offer, and
/// otherwise goes to the relationship that has the service, if there is one.
pub proof fn frames_go_to_their_service(offered: Option<Seq<char>>, service: Seq<char>, known: bool)
    ensures
        route(offered, service, known) == Route::Intro <==> offered is Some && offered->0
            == service,
        route(offered, service, known) == Route::Relationship <==> known && (offered is None
            || offered->0 != service),
        route(offered, service, known) == Route::Unknown <==> !known && (offered is None
            || offered->0 != service),
{
}

/// A message is delivered exactly if its frame was decrypted, as it was, and to the
/// relationship that it came in. A frame that was seen before and one that does not
/// decrypt bring nothing.
pub proof fn only_what_decrypts_is_delivered(r: Ingest, rel: Seq<char>, opened: Opened)
    requires
        frame_was(r, rel, opened),
    ensures
        r is Message <==> opened is Plaintext,
        r matches Ingest::Message { rel_id, plaintext } ==> rel_id@ == rel && plaintext@
            == opened->Plaintext_0@,
        r is SessionBroken <==> opened is Broken,
        r matches Ingest::SessionBroken { rel_id, reason } ==> rel_id@ == rel && reason@
            == opened->Broken_0@,
        r is Duplicate <==> opened is Duplicate,
        r is Dropped <==> opened is Failed,
        !(r is RequestReceived),
{
}

/// An intro counts exactly if its payload is sound and names the very identity that
/// encrypted the frame. How late it comes does not matter.
pub proof fn intros_are_of_their_sender(
    payload: PairingPayload,
    checks: PayloadChecks,
    now: u64,
    later: u64,
    sender: Seq<u8>,
)
    ensures
        bound(payload, checks, now, Some(sender)) <==> checks.identity is Ok && checks.signature
            && checks.signed_pre_key && checks.kyber_pre_key && checks.onion is Ok && sender
            == payload@.identity_key,
        !bound(payload, checks, now, None),
        bound(payload, checks, now, Some(sender)) == bound(payload, checks, later, Some(sender)),
{
}

/// A bound intro is opened exactly if it is not of this side's own identity, a
/// second has passed since the last one, and there is room among 256 requests, or
/// its relationship is known. What passes the throttle is remembered, opened or
/// not, and reads back as the time it came.
pub proof fn intros_are_opened_one_a_second(
    g: IntroGate,
    ours: Seq<u8>,
    theirs: Seq<u8>,
    last: u64,
    now: u64,
    pending_count: u32,
    known: bool,
)
    requires
        gates(g, ours, theirs, Some(bytes::be64(last)), now, pending_count, known),
    ensures
        g is Own <==> ours == theirs,
        g is Throttled <==> ours != theirs && now < last + 1,
        g is Open <==> ours != theirs && now > last && (pending_count < 256 || known),
        g is Full <==> ours != theirs && now > last && pending_count >= 256 && !known,
        g matches IntroGate::Open { stamp, rel_id, .. } ==> stored_time(Some(stamp@)) == now
            && text::unhex(rel_id@) == util::sha256_of(
            pairing::sas::relationship_input(ours, theirs),
        ),
        g matches IntroGate::Full { stamp } ==> stored_time(Some(stamp@)) == now,
{
    remembered_time_reads_back(last);
    remembered_time_reads_back(now);
    text::hex_reads_back(util::sha256_of(pairing::sas::relationship_input(ours, theirs)));
}

} // verus!
