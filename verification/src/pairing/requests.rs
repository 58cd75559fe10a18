//! The inviter's requests, and the safety code of a relationship.

use vstd::prelude::*;

use crate::pairing::{self, PairingFailure, PairingRefusal, STATE_REQUEST};
use crate::pairing::relationship::{Relation, Relationship};
use crate::pairing::sas::sas;
use crate::text::same_text;
use crate::util;

verus! {

/// The safety code of a relationship, seen from the side of identity `ours`.
pub open spec fn code_of(row: Relation, ours: Seq<u8>) -> Seq<char> {
    pairing::sas::sas_digits(
        util::sha256_of(pairing::sas::sas_input(ours, row.our_nonce, row.peer_identity_key, row.peer_nonce)),
    )
}

/// The safety code of a relationship, for display.
pub fn sas_for(row: Option<&Relationship>, our_identity_key: &[u8]) -> (r: Result<
    String,
    PairingFailure,
>)
    ensures
        match row {
            Some(row) => r is Ok && r->Ok_0@ == code_of(row@, our_identity_key@),
            None => r is Err && r->Err_0@ == PairingRefusal::NotFound,
        },
{
    match row {
        Some(row) => Ok(
            sas(
                our_identity_key,
                &row.our_nonce,
                row.peer_identity_key.as_slice(),
                &row.peer_nonce,
            ),
        ),
        None => Err(PairingFailure::NotFound),
    }
}

/// The client key that accepting a relationship lets in, or why it cannot be
/// accepted.
pub open spec fn acceptance(row: Option<Relation>) -> Result<Seq<char>, PairingRefusal> {
    match row {
        None => Err(PairingRefusal::NotFound),
        Some(row) => if row.state == STATE_REQUEST@ {
            Ok(row.peer_client_auth_public)
        } else {
            Err(PairingRefusal::NotARequest)
        },
    }
}

/// Decides whether a relationship can be accepted: it exists and is a
/// request. Returns the client key that the service is then restricted to.
pub fn accept_request(row: Option<&Relationship>) -> (r: Result<String, PairingFailure>)
    ensures
        match acceptance(
            match row {
                Some(row) => Some(row@),
                None => None,
            },
        ) {
            Ok(key) => r is Ok && r->Ok_0@ == key,
            Err(why) => r is Err && r->Err_0@ == why,
        },
{
    match row {
        Some(row) => {
            if !same_text(row.state.as_str(), STATE_REQUEST) {
                return Err(PairingFailure::NotARequest);
            }
            Ok(row.peer_client_auth_public.clone())
        },
        None => Err(PairingFailure::NotFound),
    }
}

/// A request that awaits acceptance.
#[derive(Clone, Debug)]
pub struct RequestInfo {
    pub rel_id: String,
    pub sas: String,
    pub peer_onion: String,
    pub created_at: u64,
}

/// The values of a request.
pub struct Request {
    pub rel_id: Seq<char>,
    pub sas: Seq<char>,
    pub peer_onion: Seq<char>,
    pub created_at: u64,
}

impl View for RequestInfo {
    type V = Request;

    open spec fn view(&self) -> Request {
        Request {
            rel_id: self.rel_id@,
            sas: self.sas@,
            peer_onion: self.peer_onion@,
            created_at: self.created_at,
        }
    }
}

/// A relationship and this side's identity key in it.
pub struct Contact {
    pub row: Relationship,
    pub our_identity_key: Vec<u8>,
}

/// A list of requests with one more: it stands behind those that are not younger.
pub open spec fn placed(list: Seq<Request>, r: Request) -> Seq<Request>
    decreases list.len(),
{
    if list.len() == 0 || list.last().created_at <= r.created_at {
        list.push(r)
    } else {
        placed(list.drop_last(), r).push(list.last())
    }
}

/// The request that a contact is.
pub open spec fn request_of(c: Contact) -> Request {
    Request {
        rel_id: c.row@.rel_id,
        sas: code_of(c.row@, c.our_identity_key@),
        peer_onion: c.row@.peer_onion,
        created_at: c.row.created_at,
    }
}

/// The requests among the first `n` contacts, oldest first.
pub open spec fn requests_of(contacts: Seq<Contact>, n: nat) -> Seq<Request>
    decreases n,
{
    if n == 0 {
        Seq::empty()
    } else {
        let c = contacts[n - 1];
        let before = requests_of(contacts, (n - 1) as nat);
        if c.row@.state == STATE_REQUEST@ {
            placed(before, request_of(c))
        } else {
            before
        }
    }
}

spec fn views(out: Seq<RequestInfo>) -> Seq<Request> {
    out.map_values(|r: RequestInfo| r@)
}

/// Puts a request in its place.
fn place(out: &mut Vec<RequestInfo>, r: RequestInfo)
    ensures
        final(out)@.map_values(|r: RequestInfo| r@) == placed(
            old(out)@.map_values(|r: RequestInfo| r@),
            r@,
        ),
{
    let ghost list = views(out@);
    let mut j: usize = out.len();
    assert(list.take(j as int) =~= list);
    assert(placed(list, r@) =~= placed(list.take(j as int), r@) + list.skip(j as int));
    while j > 0 && out[j - 1].created_at > r.created_at
        invariant
            out@ == old(out)@,
            list == views(out@),
            j <= out@.len(),
            placed(list, r@) == placed(list.take(j as int), r@) + list.skip(j as int),
        decreases j,
    {
        proof {
            let head = list.take(j as int);
            assert(head.last() == out@[j - 1]@);
            assert(head.drop_last() =~= list.take(j - 1));
            assert(placed(head, r@) + list.skip(j as int) =~= placed(list.take(j - 1), r@)
                + list.skip(j - 1));
        }
        j = j - 1;
    }
    proof {
        let head = list.take(j as int);
        if j > 0 {
            assert(head.last() == out@[j - 1]@);
        }
        assert(placed(head, r@) == head.push(r@));
    }
    out.insert(j, r);
    assert(views(out@) =~= placed(list, r@));
}

/// The requests that await acceptance, oldest first.
pub fn pending_requests(contacts: &Vec<Contact>) -> (out: Vec<RequestInfo>)
    ensures
        out@.map_values(|r: RequestInfo| r@) == requests_of(contacts@, contacts@.len()),
{
    let mut out: Vec<RequestInfo> = Vec::new();
    let mut i: usize = 0;
    assert(out@.map_values(|r: RequestInfo| r@) =~= Seq::empty());
    while i < contacts.len()
        invariant
            i <= contacts@.len(),
            out@.map_values(|r: RequestInfo| r@) == requests_of(contacts@, i as nat),
        decreases contacts.len() - i,
    {
        let c: &Contact = &contacts[i];
        if same_text(c.row.state.as_str(), STATE_REQUEST) {
            let code: String = sas(
                c.our_identity_key.as_slice(),
                &c.row.our_nonce,
                c.row.peer_identity_key.as_slice(),
                &c.row.peer_nonce,
            );
            place(
                &mut out,
                RequestInfo {
                    sas: code,
                    rel_id: c.row.rel_id.clone(),
                    peer_onion: c.row.peer_onion.clone(),
                    created_at: c.row.created_at,
                },
            );
        }
        i = i + 1;
    }
    out
}

/// Whether requests are listed oldest first.
pub open spec fn oldest_first(list: Seq<Request>) -> bool {
    forall|i: int, j: int|
        0 <= i <= j < list.len() ==> list[i].created_at <= list[j].created_at
}

/// The requests are listed oldest first, and every contact that is a request is
/// listed.
pub proof fn requests_are_listed_oldest_first(contacts: Seq<Contact>, n: nat)
    requires
        n <= contacts.len(),
    ensures
        oldest_first(requests_of(contacts, n)),
        forall|i: int|
            0 <= i < n && (#[trigger] contacts[i]).row@.state == STATE_REQUEST@ ==> requests_of(
                contacts,
                n,
            ).contains(request_of(contacts[i])),
    decreases n,
{
    if n > 0 {
        let before = requests_of(contacts, (n - 1) as nat);
        let c = contacts[n - 1];
        requests_are_listed_oldest_first(contacts, (n - 1) as nat);
        placing_keeps_the_order(before, request_of(c));
    }
}

proof fn placing_keeps_the_order(list: Seq<Request>, r: Request)
    requires
        oldest_first(list),
    ensures
        oldest_first(placed(list, r)),
        placed(list, r).len() == list.len() + 1,
        placed(list, r).contains(r),
        forall|x: Request| #[trigger] list.contains(x) ==> placed(list, r).contains(x),
        forall|x: Request| #[trigger] placed(list, r).contains(x) ==> x == r || list.contains(x),
    decreases list.len(),
{
    let all = placed(list, r);
    if list.len() == 0 || list.last().created_at <= r.created_at {
        assert(all[list.len() as int] == r);
        assert forall|x: Request| #[trigger] list.contains(x) implies all.contains(x) by {
            let k = choose|k: int| 0 <= k < list.len() && list[k] == x;
            assert(all[k] == x);
        }
    } else {
        let rest = list.drop_last();
        let front = placed(rest, r);
        placing_keeps_the_order(rest, r);
        assert(all == front.push(list.last()));
        assert forall|x: Request| #[trigger] front.contains(x) implies all.contains(x) by {
            let k = choose|k: int| 0 <= k < front.len() && front[k] == x;
            assert(all[k] == x);
        }
        assert(front.contains(r));
        assert forall|x: Request| #[trigger] list.contains(x) implies all.contains(x) by {
            let k = choose|k: int| 0 <= k < list.len() && list[k] == x;
            if k < rest.len() {
                assert(rest[k] == x);
                assert(rest.contains(x));
            } else {
                assert(all[front.len() as int] == x);
            }
        }
        assert forall|x: Request| #[trigger] all.contains(x) implies x == r || list.contains(x) by {
            let k = choose|k: int| 0 <= k < all.len() && all[k] == x;
            if k < front.len() {
                assert(front[k] == x);
                assert(front.contains(x));
                if x != r {
                    let m = choose|m: int| 0 <= m < rest.len() && rest[m] == x;
                    assert(list[m] == x);
                }
            } else {
                assert(list[list.len() - 1] == x);
            }
        }
        assert forall|i: int, j: int| 0 <= i <= j < all.len() implies all[i].created_at
            <= all[j].created_at by {
            if j == front.len() && i < front.len() {
                assert(front.contains(front[i]));
                if front[i] != r {
                    let m = choose|m: int| 0 <= m < rest.len() && rest[m] == front[i];
                    assert(list[m].created_at <= list[list.len() - 1].created_at);
                }
            }
        }
    }
}

/// Nothing is listed but requests, each once for every contact that is one, with
/// its id, address and age and the code that its row gives.
pub proof fn only_requests_are_listed(contacts: Seq<Contact>, n: nat)
    requires
        n <= contacts.len(),
    ensures
        requests_of(contacts, n).len() == contacts.take(n as int).filter(
            |c: Contact| c.row@.state == "request"@,
        ).len(),
        forall|x: Request| #[trigger]
            requests_of(contacts, n).contains(x) ==> exists|i: int|
                #![trigger contacts[i]]
                0 <= i < n && contacts[i].row@.state == "request"@ && x.rel_id
                    == contacts[i].row@.rel_id && x.peer_onion == contacts[i].row@.peer_onion
                    && x.created_at == contacts[i].row.created_at && x.sas == code_of(
                    contacts[i].row@,
                    contacts[i].our_identity_key@,
                ),
    decreases n,
{
    reveal(Seq::filter);
    if n > 0 {
        let before = requests_of(contacts, (n - 1) as nat);
        let c = contacts[n - 1];
        only_requests_are_listed(contacts, (n - 1) as nat);
        requests_are_listed_oldest_first(contacts, (n - 1) as nat);
        placing_keeps_the_order(before, request_of(c));
        assert(contacts.take(n as int).drop_last() =~= contacts.take(n - 1));
        assert(contacts.take(n as int).last() == c);
    }
}

/// What can be accepted is what is listed: a contact's request is on the list
/// exactly if the contact can be accepted, and accepting lets the peer's own key in.
pub proof fn listed_requests_can_be_accepted(contacts: Seq<Contact>, i: int)
    requires
        0 <= i < contacts.len(),
    ensures
        acceptance(Some(contacts[i].row@)) is Ok ==> requests_of(contacts, contacts.len()).contains(
            request_of(contacts[i]),
        ),
        acceptance(Some(contacts[i].row@)) is Ok <==> contacts[i].row@.state == "request"@,
        acceptance(Some(contacts[i].row@)) matches Ok(key) ==> key
            == contacts[i].row@.peer_client_auth_public,
        acceptance(None) is Err,
{
    requests_are_listed_oldest_first(contacts, contacts.len());
}

} // verus!
