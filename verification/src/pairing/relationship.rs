//! A relationship as a row.

use vstd::prelude::*;
use vstd::slice::slice_to_vec;

use crate::bytes::to_array;
use crate::limits::pairing::MAX_RELATIONSHIPS;
use crate::pairing::{PairingFailure, PairingRefusal};

verus! {

/// A relationship.
#[derive(Clone, Debug)]
pub struct Relationship {
    pub rel_id: String,
    pub role: String,
    pub state: String,
    pub service_id: String,
    pub onion: String,
    pub peer_onion: String,
    pub peer_identity_key: Vec<u8>,
    pub peer_client_auth_public: String,
    pub our_client_auth_private: String,
    pub our_nonce: [u8; 32],
    pub peer_nonce: [u8; 32],
    pub our_qr_bytes: Vec<u8>,
    pub intro_pending: bool,
    pub session_state: String,
    pub created_at: u64,
}

/// The values of a relationship.
pub struct Relation {
    pub rel_id: Seq<char>,
    pub role: Seq<char>,
    pub state: Seq<char>,
    pub service_id: Seq<char>,
    pub onion: Seq<char>,
    pub peer_onion: Seq<char>,
    pub peer_identity_key: Seq<u8>,
    pub peer_client_auth_public: Seq<char>,
    pub our_client_auth_private: Seq<char>,
    pub our_nonce: Seq<u8>,
    pub peer_nonce: Seq<u8>,
    pub our_qr_bytes: Seq<u8>,
    pub intro_pending: bool,
    pub session_state: Seq<char>,
    pub created_at: u64,
}

impl View for Relationship {
    type V = Relation;

    open spec fn view(&self) -> Relation {
        Relation {
            rel_id: self.rel_id@,
            role: self.role@,
            state: self.state@,
            service_id: self.service_id@,
            onion: self.onion@,
            peer_onion: self.peer_onion@,
            peer_identity_key: self.peer_identity_key@,
            peer_client_auth_public: self.peer_client_auth_public@,
            our_client_auth_private: self.our_client_auth_private@,
            our_nonce: self.our_nonce@,
            peer_nonce: self.peer_nonce@,
            our_qr_bytes: self.our_qr_bytes@,
            intro_pending: self.intro_pending,
            session_state: self.session_state@,
            created_at: self.created_at,
        }
    }
}

/// A nonce column: the bytes where there are 32, else zeros.
pub fn nonce_column(bytes: &[u8]) -> (nonce: [u8; 32])
    ensures
        nonce@ == if bytes@.len() == 32 {
            bytes@
        } else {
            Seq::new(32, |i: int| 0u8)
        },
{
    match to_array::<32>(bytes) {
        Some(nonce) => nonce,
        None => {
            let zero: [u8; 32] = [0u8; 32];
            assert(zero@ =~= Seq::new(32, |i: int| 0u8));
            zero
        },
    }
}

/// What a new relationship is made of.
pub struct NewRelationship<'a> {
    pub rel_id: &'a str,
    pub role: &'a str,
    pub state: &'a str,
    pub service_id: &'a str,
    pub onion: &'a str,
    pub peer_onion: &'a str,
    pub peer_identity_key: &'a [u8],
    pub peer_client_auth_public: &'a str,
    pub our_client_auth_private: &'a str,
    pub our_nonce: [u8; 32],
    pub peer_nonce: [u8; 32],
    pub our_qr_bytes: &'a [u8],
    pub intro_pending: bool,
    pub now: u64,
}

/// The row of a new relationship. Its session is active.
pub open spec fn new_relation(n: NewRelationship) -> Relation {
    Relation {
        rel_id: n.rel_id@,
        role: n.role@,
        state: n.state@,
        service_id: n.service_id@,
        onion: n.onion@,
        peer_onion: n.peer_onion@,
        peer_identity_key: n.peer_identity_key@,
        peer_client_auth_public: n.peer_client_auth_public@,
        our_client_auth_private: n.our_client_auth_private@,
        our_nonce: n.our_nonce@,
        peer_nonce: n.peer_nonce@,
        our_qr_bytes: n.our_qr_bytes@,
        intro_pending: n.intro_pending,
        session_state: "active"@,
        created_at: n.now,
    }
}

/// Makes the row of a new relationship, given how many there are. Past the
/// cap it is refused.
pub fn insert_relationship(total: u32, new: NewRelationship) -> (r: Result<
    Relationship,
    PairingFailure,
>)
    ensures
        r is Ok <==> total < MAX_RELATIONSHIPS,
        r matches Ok(row) ==> row@ == new_relation(new),
        r matches Err(e) ==> e@ == PairingRefusal::CapReached("relationships (1024)"@),
{
    if total >= MAX_RELATIONSHIPS {
        return Err(PairingFailure::CapReached("relationships (1024)".to_owned()));
    }
    Ok(
        Relationship {
            rel_id: new.rel_id.to_owned(),
            role: new.role.to_owned(),
            state: new.state.to_owned(),
            service_id: new.service_id.to_owned(),
            onion: new.onion.to_owned(),
            peer_onion: new.peer_onion.to_owned(),
            peer_identity_key: slice_to_vec(new.peer_identity_key),
            peer_client_auth_public: new.peer_client_auth_public.to_owned(),
            our_client_auth_private: new.our_client_auth_private.to_owned(),
            our_nonce: new.our_nonce,
            peer_nonce: new.peer_nonce,
            our_qr_bytes: slice_to_vec(new.our_qr_bytes),
            intro_pending: new.intro_pending,
            session_state: "active".to_owned(),
            created_at: new.now,
        },
    )
}

/// A new relationship is what it was made of, and its session is active.
pub proof fn a_new_relationship_is_as_made(n: NewRelationship)
    ensures
        ({
            let r = new_relation(n);
            &&& r.rel_id == n.rel_id@ && r.role == n.role@ && r.state == n.state@
            &&& r.service_id == n.service_id@ && r.onion == n.onion@ && r.peer_onion == n.peer_onion@
            &&& r.peer_identity_key == n.peer_identity_key@
            &&& r.peer_client_auth_public == n.peer_client_auth_public@
            &&& r.our_client_auth_private == n.our_client_auth_private@
            &&& r.our_nonce == n.our_nonce@ && r.peer_nonce == n.peer_nonce@
            &&& r.our_qr_bytes == n.our_qr_bytes@
            &&& r.intro_pending == n.intro_pending
            &&& r.session_state == "active"@
            &&& r.created_at == n.now
        }),
{
}

} // verus!
