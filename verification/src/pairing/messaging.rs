//! Sending on a relationship, and restoring services after a restart.

use vstd::prelude::*;
use vstd::slice::slice_to_vec;

use crate::pairing::{PairingFailure, PairingRefusal, ROLE_INVITER, SESSION_BROKEN, STATE_REQUEST};
use crate::pairing::relationship::{Relation, Relationship};
use crate::text::same_text;

verus! {

/// Whether a relationship is one that this side has not accepted yet.
pub open spec fn unaccepted(row: Relation) -> bool {
    row.role == ROLE_INVITER@ && row.state == STATE_REQUEST@
}

/// Whether a relationship is one that this side has not accepted yet.
pub fn is_unaccepted(row: &Relationship) -> (yes: bool)
    ensures
        yes == unaccepted(row@),
{
    same_text(row.role.as_str(), ROLE_INVITER) && same_text(row.state.as_str(), STATE_REQUEST)
}

/// The intro of a relationship, until the peer has answered.
pub open spec fn intro(row: Relation) -> Option<Seq<u8>> {
    if row.intro_pending {
        Some(row.our_qr_bytes)
    } else {
        None
    }
}

/// The payload that rides along as the intro, until the peer has answered.
pub fn intro_of(row: &Relationship) -> (b: Option<Vec<u8>>)
    ensures
        match b {
            Some(b) => row.intro_pending && b@ == row@.our_qr_bytes,
            None => !row.intro_pending,
        },
        intro(row@) == (match b {
            Some(b) => Some(b@),
            None => None,
        }),
{
    if row.intro_pending {
        Some(slice_to_vec(row.our_qr_bytes.as_slice()))
    } else {
        None
    }
}

/// The intro that goes with what is sent on a relationship, or why nothing may be
/// sent on it.
pub open spec fn sending(row: Option<Relation>) -> Result<Option<Seq<u8>>, PairingRefusal> {
    match row {
        None => Err(PairingRefusal::NotFound),
        Some(row) => if row.session_state == SESSION_BROKEN@ {
            Err(PairingRefusal::Broken)
        } else if unaccepted(row) {
            Err(PairingRefusal::NotARequest)
        } else {
            Ok(intro(row))
        },
    }
}

/// Decides whether anything may be sent on a relationship, and with which
/// intro.
pub fn send_message(row: Option<&Relationship>) -> (r: Result<Option<Vec<u8>>, PairingFailure>)
    ensures
        match sending(
            match row {
                Some(row) => Some(row@),
                None => None,
            },
        ) {
            Err(why) => r is Err && r->Err_0@ == why,
            Ok(None) => r is Ok && r->Ok_0 is None,
            Ok(Some(b)) => r is Ok && r->Ok_0 is Some && r->Ok_0->0@ == b,
        },
{
    match row {
        Some(row) => {
            if same_text(row.session_state.as_str(), SESSION_BROKEN) {
                return Err(PairingFailure::Broken);
            }
            if is_unaccepted(row) {
                return Err(PairingFailure::NotARequest);
            }
            Ok(intro_of(row))
        },
        None => Err(PairingFailure::NotFound),
    }
}

/// The client keys of a relationship's service.
pub open spec fn client_keys(row: Relation) -> Seq<Seq<char>> {
    if unaccepted(row) {
        Seq::empty()
    } else {
        seq![row.peer_client_auth_public]
    }
}

/// The client keys that a relationship's service is restricted to after a
/// restart: none while the request is open, else the peer's.
pub fn restore_services(row: &Relationship) -> (auth: Vec<String>)
    ensures
        auth@.map_values(|s: String| s@) == client_keys(row@),
        unaccepted(row@) ==> auth@.len() == 0,
        !unaccepted(row@) ==> auth@.len() == 1 && auth@[0]@ == row@.peer_client_auth_public,
{
    let mut auth: Vec<String> = Vec::new();
    if !is_unaccepted(row) {
        auth.push(row.peer_client_auth_public.clone());
    }
    assert(auth@.map_values(|s: String| s@) =~= client_keys(row@));
    auth
}

/// A message may go out on a relationship exactly if it exists, its session is not
/// broken, and it is not a request that this side has not accepted. This side's
/// payload rides along exactly while the peer has not answered.
pub proof fn accepted_relationships_carry_messages(row: Relation)
    ensures
        sending(None) is Err,
        sending(Some(row)) is Ok <==> row.session_state != "broken"@ && !(row.role == "inviter"@
            && row.state == "request"@),
        sending(Some(row)) matches Ok(b) ==> (b is Some <==> row.intro_pending),
        sending(Some(row)) matches Ok(Some(b)) ==> b == row.our_qr_bytes,
        intro(row) is Some <==> row.intro_pending,
        intro(row) matches Some(b) ==> b == row.our_qr_bytes,
{
}

/// A service is open to anyone only while its request waits; from then on only the
/// peer's key opens it.
pub proof fn services_are_restricted_to_the_peer(row: Relation)
    ensures
        row.role == "inviter"@ && row.state == "request"@ <==> client_keys(row).len() == 0,
        client_keys(row).len() <= 1,
        forall|i: int|
            0 <= i < client_keys(row).len() ==> #[trigger] client_keys(row)[i]
                == row.peer_client_auth_public,
{
}

} // verus!
