//! Pairing by a one-way invitation.
//!
//! One side offers a signed payload, as a QR matrix or as text. The other
//! scans or pastes it, and its first frames carry its own payload as an
//! intro. The inviter finds the new relationship among its requests and
//! accepts it there.
//!
//! Fail closed: an invalid field, a bad signature, an expired offer or one's
//! own offer ends the pairing before anything is written.

use vstd::prelude::*;

use crate::pairing::qr::{PairingError, PairingFault};
use crate::text::{self, hex_text};

pub mod accept;
pub mod ingest;
pub mod layout;
pub mod messaging;
pub mod offer;
pub mod qr;
pub mod relationship;
pub mod requests;
pub mod sas;

verus! {

pub const ROLE_INVITER: &'static str = "inviter";

pub const ROLE_ACCEPTER: &'static str = "accepter";

pub const STATE_REQUEST: &'static str = "request";

pub const STATE_ACTIVE: &'static str = "active";

pub const SESSION_BROKEN: &'static str = "broken";

/// Why a pairing operation fails.
#[derive(Debug)]
pub enum PairingFailure {
    Payload(PairingError),
    ContactExists,
    SelfPairing,
    NotFound,
    NotARequest,
    /// The session of the relationship is broken.
    Broken,
    /// A static bound was hit.
    CapReached(String),
}

/// What a `PairingFailure` says.
pub enum PairingRefusal {
    Payload(PairingFault),
    ContactExists,
    SelfPairing,
    NotFound,
    NotARequest,
    Broken,
    CapReached(Seq<char>),
}

impl View for PairingFailure {
    type V = PairingRefusal;

    open spec fn view(&self) -> PairingRefusal {
        match self {
            PairingFailure::Payload(e) => PairingRefusal::Payload(e@),
            PairingFailure::ContactExists => PairingRefusal::ContactExists,
            PairingFailure::SelfPairing => PairingRefusal::SelfPairing,
            PairingFailure::NotFound => PairingRefusal::NotFound,
            PairingFailure::NotARequest => PairingRefusal::NotARequest,
            PairingFailure::Broken => PairingRefusal::Broken,
            PairingFailure::CapReached(what) => PairingRefusal::CapReached(what@),
        }
    }
}

/// The message of a payload's error.
pub open spec fn payload_text(e: PairingFault) -> Seq<char> {
    match e {
        PairingFault::Invalid(why) => "invalid pairing payload: "@ + why,
        PairingFault::Expired => "pairing offer expired"@,
        PairingFault::BadSignature => "pairing signature invalid"@,
    }
}

/// The message of a failure.
pub open spec fn failure_text(e: PairingRefusal) -> Seq<char> {
    match e {
        PairingRefusal::Payload(e) => payload_text(e),
        PairingRefusal::ContactExists => "contact already exists"@,
        PairingRefusal::SelfPairing => "cannot pair with our own offer"@,
        PairingRefusal::NotFound => "relationship not found"@,
        PairingRefusal::NotARequest => "no pending request for this relationship"@,
        PairingRefusal::Broken => "relationship is broken"@,
        PairingRefusal::CapReached(what) => "pairing cap reached: "@ + what,
    }
}

impl PairingFailure {
    /// The message for a person.
    pub fn message(&self) -> (text: String)
        ensures
            text@ == failure_text(self@),
    {
        match self {
            PairingFailure::Payload(e) => e.message(),
            PairingFailure::ContactExists => "contact already exists".to_owned(),
            PairingFailure::SelfPairing => "cannot pair with our own offer".to_owned(),
            PairingFailure::NotFound => "relationship not found".to_owned(),
            PairingFailure::NotARequest => "no pending request for this relationship".to_owned(),
            PairingFailure::Broken => "relationship is broken".to_owned(),
            PairingFailure::CapReached(what) => {
                "pairing cap reached: ".to_owned().concat(what.as_str())
            },
        }
    }
}

/// The id of the service that an identity hosts.
pub fn service_id_for(identity_key: &[u8]) -> (id: String)
    ensures
        id@ == text::hex(identity_key@),
{
    hex_text(identity_key)
}

// ---------------------------------------------------------------------------
// Base32

/// Bit `k` of a byte string, the most significant bit of a byte first; 0 past
/// the end.
pub open spec fn bit_at(b: Seq<u8>, k: int) -> int {
    if k / 8 < b.len() {
        b[k / 8] as int / two_to(7 - k % 8) % 2
    } else {
        0
    }
}

/// Two to the power of a number below eight.
pub open spec fn two_to(n: int) -> int {
    if n <= 0 {
        1
    } else if n == 1 {
        2
    } else if n == 2 {
        4
    } else if n == 3 {
        8
    } else if n == 4 {
        16
    } else if n == 5 {
        32
    } else if n == 6 {
        64
    } else {
        128
    }
}

/// The Base32 character for five bits: `A` to `Z`, then `2` to `7`.
pub open spec fn base32_char(n: int) -> char {
    if n < 26 {
        (65 + n) as char
    } else {
        (24 + n) as char
    }
}

/// Base32 without padding: one character for every five bits, the last filled
/// up with zeros.
pub open spec fn base32_of(b: Seq<u8>) -> Seq<char> {
    Seq::new(
        ((8 * b.len() + 4) / 5) as nat,
        |i: int|
            base32_char(
                16 * bit_at(b, 5 * i) + 8 * bit_at(b, 5 * i + 1) + 4 * bit_at(b, 5 * i + 2) + 2
                    * bit_at(b, 5 * i + 3) + bit_at(b, 5 * i + 4),
            ),
    )
}

/// `data_encoding::BASE32_NOPAD.encode` on a key: Base32 in the alphabet of RFC
/// 4648, most significant bit first, without padding. The length of a key is far
/// from the one above which encoding panics.
#[verifier::external_body]
fn base32_encode(raw: &[u8; 32]) -> (text: String)
    ensures
        text@ == base32_of(raw@),
{
    data_encoding::BASE32_NOPAD.encode(raw)
}

/// A character in lower case, if it is an ASCII letter.
pub open spec fn ascii_lower(c: char) -> char {
    if 'A' <= c <= 'Z' {
        (c as u32 + 32) as char
    } else {
        c
    }
}

/// `str::to_ascii_lowercase`: ASCII letters in lower case, all else as it is.
pub assume_specification[ str::to_ascii_lowercase ](s: &str) -> (lower: String)
    ensures
        lower@ == s@.map_values(|c: char| ascii_lower(c)),
;

/// A client key as the onion service wants it: Base32 in lower case.
pub fn b32(raw: &[u8; 32]) -> (text: String)
    ensures
        text@ == base32_of(raw@).map_values(|c: char| ascii_lower(c)),
{
    base32_encode(raw).as_str().to_ascii_lowercase()
}

/// Each failure says what failed: a refused payload says why it was, and a cap says
/// which one was hit.
pub proof fn failures_say_what_failed(e: PairingRefusal)
    ensures
        e is ContactExists ==> failure_text(e) == "contact already exists"@,
        e is SelfPairing ==> failure_text(e) == "cannot pair with our own offer"@,
        e is NotFound ==> failure_text(e) == "relationship not found"@,
        e is NotARequest ==> failure_text(e) == "no pending request for this relationship"@,
        e is Broken ==> failure_text(e) == "relationship is broken"@,
        e matches PairingRefusal::CapReached(what) ==> failure_text(e) == "pairing cap reached: "@
            + what,
        e == PairingRefusal::Payload(PairingFault::Expired) ==> failure_text(e)
            == "pairing offer expired"@,
        e == PairingRefusal::Payload(PairingFault::BadSignature) ==> failure_text(e)
            == "pairing signature invalid"@,
        e matches PairingRefusal::Payload(PairingFault::Invalid(why)) ==> failure_text(e)
            == "invalid pairing payload: "@ + why,
{
}

/// Base32 text has a character for every five bits, the highest first, the last
/// filled up with zeros: `A` to `Z` stand for 0 to 25 and `2` to `7` for 26 to 31.
pub proof fn five_bits_have_a_character(b: Seq<u8>, i: int)
    requires
        0 <= i < base32_of(b).len(),
    ensures
        5 * base32_of(b).len() >= 8 * b.len(),
        5 * base32_of(b).len() < 8 * b.len() + 5,
        base32_of(b)[i] == "ABCDEFGHIJKLMNOPQRSTUVWXYZ234567"@[16 * bit_at(b, 5 * i) + 8 * bit_at(
            b,
            5 * i + 1,
        ) + 4 * bit_at(b, 5 * i + 2) + 2 * bit_at(b, 5 * i + 3) + bit_at(b, 5 * i + 4)],
{
    reveal_strlit("ABCDEFGHIJKLMNOPQRSTUVWXYZ234567");
    assert(0 <= bit_at(b, 5 * i) <= 1);
    assert(0 <= bit_at(b, 5 * i + 1) <= 1);
    assert(0 <= bit_at(b, 5 * i + 2) <= 1);
    assert(0 <= bit_at(b, 5 * i + 3) <= 1);
    assert(0 <= bit_at(b, 5 * i + 4) <= 1);
}

/// A byte is the sum of its bits, the highest first.
pub proof fn a_byte_is_its_bits(b: Seq<u8>, i: int)
    requires
        0 <= i < b.len(),
    ensures
        b[i] == 128 * bit_at(b, 8 * i) + 64 * bit_at(b, 8 * i + 1) + 32 * bit_at(b, 8 * i + 2) + 16
            * bit_at(b, 8 * i + 3) + 8 * bit_at(b, 8 * i + 4) + 4 * bit_at(b, 8 * i + 5) + 2
            * bit_at(b, 8 * i + 6) + bit_at(b, 8 * i + 7),
{
    let n = b[i] as int;
    assert(bit_at(b, 8 * i) == n / 128 % 2);
    assert(bit_at(b, 8 * i + 1) == n / 64 % 2);
    assert(bit_at(b, 8 * i + 2) == n / 32 % 2);
    assert(bit_at(b, 8 * i + 3) == n / 16 % 2);
    assert(bit_at(b, 8 * i + 4) == n / 8 % 2);
    assert(bit_at(b, 8 * i + 5) == n / 4 % 2);
    assert(bit_at(b, 8 * i + 6) == n / 2 % 2);
    assert(bit_at(b, 8 * i + 7) == n % 2);
    halves_sum(n);
}

proof fn halves_sum(n: int)
    requires
        0 <= n < 256,
    ensures
        n == 128 * (n / 128 % 2) + 64 * (n / 64 % 2) + 32 * (n / 32 % 2) + 16 * (n / 16 % 2) + 8 * (n
            / 8 % 2) + 4 * (n / 4 % 2) + 2 * (n / 2 % 2) + n % 2,
{
    assert(n == 2 * (n / 2) + n % 2);
    assert(n / 2 == 2 * (n / 4) + n / 2 % 2);
    assert(n / 4 == 2 * (n / 8) + n / 4 % 2);
    assert(n / 8 == 2 * (n / 16) + n / 8 % 2);
    assert(n / 16 == 2 * (n / 32) + n / 16 % 2);
    assert(n / 32 == 2 * (n / 64) + n / 32 % 2);
    assert(n / 64 == 2 * (n / 128) + n / 64 % 2);
    assert(n / 128 == n / 128 % 2);
}

} // verus!
