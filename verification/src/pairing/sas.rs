//! The safety code and the relationship id.
//!
//! Both are digests over the two identity keys in byte order, so that both
//! sides derive them alone and agree.

use vstd::prelude::*;
use vstd::utf8::{encode_utf8, is_ascii_chars_encode_utf8};

use crate::bytes::{self, append_bytes, bytes_le, read_be64};
use crate::text::{self, push_padded};
use crate::util::{self, sha256};

verus! {

pub open spec fn sas_label() -> Seq<u8> {
    encode_utf8("s//chat6-v7 SAS"@)
}

pub open spec fn relationship_label() -> Seq<u8> {
    encode_utf8("s//chat6-v7 REL"@)
}

/// The two byte strings, the lesser first.
pub open spec fn ordered_pair(a: Seq<u8>, b: Seq<u8>) -> (Seq<u8>, Seq<u8>) {
    if bytes::lex_le(a, b) {
        (a, b)
    } else {
        (b, a)
    }
}

/// The bytes that the relationship id is the digest of.
pub open spec fn relationship_input(a: Seq<u8>, b: Seq<u8>) -> Seq<u8> {
    let (lo, hi) = ordered_pair(a, b);
    relationship_label() + lo + hi
}

/// The bytes that the safety code is derived from: the keys in order, then
/// each key's nonce in the same order.
pub open spec fn sas_input(a: Seq<u8>, nonce_a: Seq<u8>, b: Seq<u8>, nonce_b: Seq<u8>) -> Seq<u8> {
    if bytes::lex_le(a, b) {
        sas_label() + a + b + nonce_a + nonce_b
    } else {
        sas_label() + b + a + nonce_b + nonce_a
    }
}

/// Eight decimal digits out of the first eight bytes of a digest.
pub open spec fn sas_digits(digest: Seq<u8>) -> Seq<char> {
    text::padded((bytes::of_be64(digest, 0) % 100_000_000) as nat, 8)
}

fn ordered<'a>(a: &'a [u8], b: &'a [u8]) -> (pair: (&'a [u8], &'a [u8]))
    ensures
        (pair.0@, pair.1@) == ordered_pair(a@, b@),
{
    if bytes_le(a, b) {
        (a, b)
    } else {
        (b, a)
    }
}

/// The id that both sides of a pairing derive from the two identity keys.
pub fn relationship_id(identity_a: &[u8], identity_b: &[u8]) -> (id: [u8; 32])
    ensures
        id@ == util::sha256_of(relationship_input(identity_a@, identity_b@)),
{
    let (lo, hi) = ordered(identity_a, identity_b);
    let mut h: Vec<u8> = Vec::new();
    append_bytes(&mut h, "s//chat6-v7 REL".as_bytes());
    append_bytes(&mut h, lo);
    append_bytes(&mut h, hi);
    assert(h@ =~= relationship_input(identity_a@, identity_b@));
    sha256(&h)
}

/// The eight digits that a digest gives.
pub fn digits_of(digest: &[u8; 32]) -> (code: String)
    ensures
        code@ == sas_digits(digest@),
{
    let n: u64 = read_be64(digest, 0) % 100_000_000;
    let mut out: String = String::new();
    push_padded(&mut out, n, 8);
    assert(out@ =~= sas_digits(digest@));
    out
}

/// The safety code of a pairing, for comparison over another channel: eight
/// decimal digits. It gates nothing.
pub fn sas(identity_a: &[u8], nonce_a: &[u8; 32], identity_b: &[u8], nonce_b: &[u8; 32]) -> (code:
    String)
    ensures
        code@ == sas_digits(
            util::sha256_of(sas_input(identity_a@, nonce_a@, identity_b@, nonce_b@)),
        ),
{
    let (lo, hi, lo_nonce, hi_nonce) = if bytes_le(identity_a, identity_b) {
        (identity_a, identity_b, nonce_a, nonce_b)
    } else {
        (identity_b, identity_a, nonce_b, nonce_a)
    };
    let mut h: Vec<u8> = Vec::new();
    append_bytes(&mut h, "s//chat6-v7 SAS".as_bytes());
    append_bytes(&mut h, lo);
    append_bytes(&mut h, hi);
    append_bytes(&mut h, lo_nonce);
    append_bytes(&mut h, hi_nonce);
    assert(h@ =~= sas_input(identity_a@, nonce_a@, identity_b@, nonce_b@));
    let digest: [u8; 32] = sha256(&h);
    digits_of(&digest)
}

/// Both sides of a pairing derive the same relationship id.
pub proof fn relationship_input_is_symmetric(a: Seq<u8>, b: Seq<u8>)
    ensures
        relationship_input(a, b) == relationship_input(b, a),
{
    bytes::lex_le_total(a, b);
}

/// Both sides of a pairing of two identities derive the same safety code.
pub proof fn sas_input_is_symmetric(a: Seq<u8>, nonce_a: Seq<u8>, b: Seq<u8>, nonce_b: Seq<u8>)
    requires
        a != b,
    ensures
        sas_input(a, nonce_a, b, nonce_b) == sas_input(b, nonce_b, a, nonce_a),
{
    bytes::lex_le_total(a, b);
}

/// A safety code is eight decimal digits.
pub proof fn sas_is_eight_digits(digest: Seq<u8>)
    requires
        digest.len() == 32,
    ensures
        sas_digits(digest).len() == 8,
        forall|i: int| 0 <= i < 8 ==> '0' <= #[trigger] sas_digits(digest)[i] <= '9',
{
    text::padded_is_digits((bytes::of_be64(digest, 0) % 100_000_000) as nat, 8);
}

/// The bytes of the two labels.
proof fn labels()
    ensures
        sas_label() == seq![
            0x73u8, 0x2f, 0x2f, 0x63, 0x68, 0x61, 0x74, 0x36, 0x2d, 0x76, 0x37, 0x20, 0x53, 0x41, 0x53,
        ],
        relationship_label() == seq![
            0x73u8, 0x2f, 0x2f, 0x63, 0x68, 0x61, 0x74, 0x36, 0x2d, 0x76, 0x37, 0x20, 0x52, 0x45, 0x4c,
        ],
{
    reveal_strlit("s//chat6-v7 SAS");
    reveal_strlit("s//chat6-v7 REL");
    is_ascii_chars_encode_utf8("s//chat6-v7 SAS"@);
    is_ascii_chars_encode_utf8("s//chat6-v7 REL"@);
    assert(sas_label() =~= seq![
        0x73u8, 0x2f, 0x2f, 0x63, 0x68, 0x61, 0x74, 0x36, 0x2d, 0x76, 0x37, 0x20, 0x53, 0x41, 0x53,
    ]);
    assert(relationship_label() =~= seq![
        0x73u8, 0x2f, 0x2f, 0x63, 0x68, 0x61, 0x74, 0x36, 0x2d, 0x76, 0x37, 0x20, 0x52, 0x45, 0x4c,
    ]);
}

/// The safety code is the digest of the label, the two keys with the lesser one
/// first, and then each key's nonce in the order of the keys. The lesser key is
/// the one with the lesser byte where they first differ.
pub proof fn the_code_is_of_both_keys_and_both_nonces(
    lesser: Seq<u8>,
    lesser_nonce: Seq<u8>,
    greater: Seq<u8>,
    greater_nonce: Seq<u8>,
    at: int,
)
    requires
        bytes::less_at(lesser, greater, at),
    ensures
        ({
            let input = encode_utf8("s//chat6-v7 SAS"@) + lesser + greater + lesser_nonce
                + greater_nonce;
            &&& sas_input(lesser, lesser_nonce, greater, greater_nonce) == input
            &&& sas_input(greater, greater_nonce, lesser, lesser_nonce) == input
        }),
{
    bytes::the_first_difference_decides(lesser, greater, at);
}

/// The relationship id is the digest of its label and the two keys, the lesser
/// one first.
pub proof fn the_id_is_of_both_keys(lesser: Seq<u8>, greater: Seq<u8>, at: int)
    requires
        bytes::less_at(lesser, greater, at),
    ensures
        ({
            let input = encode_utf8("s//chat6-v7 REL"@) + lesser + greater;
            &&& relationship_input(lesser, greater) == input
            &&& relationship_input(greater, lesser) == input
        }),
{
    bytes::the_first_difference_decides(lesser, greater, at);
}

/// Four fields behind a label are found again by their lengths.
proof fn fields_are_found(label: Seq<u8>, a: Seq<u8>, b: Seq<u8>, c: Seq<u8>, d: Seq<u8>)
    ensures
        ({
            let all = label + a + b + c + d;
            let l = label.len() as int;
            let n = a.len() as int;
            let m = b.len() as int;
            let o = c.len() as int;
            &&& all.len() == l + n + m + o + d.len()
            &&& all.subrange(l, l + n) == a
            &&& all.subrange(l + n, l + n + m) == b
            &&& all.subrange(l + n + m, l + n + m + o) == c
            &&& all.skip(l + n + m + o) == d
        }),
{
    let all = label + a + b + c + d;
    let l = label.len() as int;
    let n = a.len() as int;
    let m = b.len() as int;
    let o = c.len() as int;
    assert(all.subrange(l, l + n) =~= a);
    assert(all.subrange(l + n, l + n + m) =~= b);
    assert(all.subrange(l + n + m, l + n + m + o) =~= c);
    assert(all.skip(l + n + m + o) =~= d);
}

/// What the safety code is the digest of tells both keys and both nonces: two
/// pairings with keys of one length and nonces of one length have the same input
/// only if they are of the same two people, each with the same nonce.
pub proof fn the_code_tells_both_keys_and_both_nonces(
    a: Seq<u8>,
    nonce_a: Seq<u8>,
    b: Seq<u8>,
    nonce_b: Seq<u8>,
    c: Seq<u8>,
    nonce_c: Seq<u8>,
    d: Seq<u8>,
    nonce_d: Seq<u8>,
)
    requires
        a.len() == b.len() == c.len() == d.len(),
        nonce_a.len() == nonce_b.len() == nonce_c.len() == nonce_d.len(),
        sas_input(a, nonce_a, b, nonce_b) == sas_input(c, nonce_c, d, nonce_d),
    ensures
        ((a, nonce_a) == (c, nonce_c) && (b, nonce_b) == (d, nonce_d)) || ((a, nonce_a) == (
            d,
            nonce_d,
        ) && (b, nonce_b) == (c, nonce_c)),
{
    if bytes::lex_le(a, b) {
        fields_are_found(sas_label(), a, b, nonce_a, nonce_b);
    } else {
        fields_are_found(sas_label(), b, a, nonce_b, nonce_a);
    }
    if bytes::lex_le(c, d) {
        fields_are_found(sas_label(), c, d, nonce_c, nonce_d);
    } else {
        fields_are_found(sas_label(), d, c, nonce_d, nonce_c);
    }
}

/// What the relationship id is the digest of tells both keys: two pairs of keys
/// of one length have the same input only if they are the same two keys.
pub proof fn the_id_tells_both_keys(a: Seq<u8>, b: Seq<u8>, c: Seq<u8>, d: Seq<u8>)
    requires
        a.len() == b.len() == c.len() == d.len(),
        relationship_input(a, b) == relationship_input(c, d),
    ensures
        (a == c && b == d) || (a == d && b == c),
{
    let none = Seq::<u8>::empty();
    let (lo, hi) = ordered_pair(a, b);
    let (lo2, hi2) = ordered_pair(c, d);
    fields_are_found(relationship_label(), lo, hi, none, none);
    fields_are_found(relationship_label(), lo2, hi2, none, none);
    assert(relationship_label() + lo + hi + none + none =~= relationship_input(a, b));
    assert(relationship_label() + lo2 + hi2 + none + none =~= relationship_input(c, d));
}

/// No bytes are the input of a safety code and of a relationship id at once.
pub proof fn code_and_id_have_inputs_of_their_own(
    a: Seq<u8>,
    nonce_a: Seq<u8>,
    b: Seq<u8>,
    nonce_b: Seq<u8>,
    c: Seq<u8>,
    d: Seq<u8>,
)
    ensures
        sas_input(a, nonce_a, b, nonce_b) != relationship_input(c, d),
{
    labels();
    assert(sas_input(a, nonce_a, b, nonce_b)[12] == 0x53);
    assert(relationship_input(c, d)[12] == 0x52);
}

/// The eight digits of a code are those of the number that the first eight bytes
/// of the digest make, the most significant first, without what exceeds eight
/// digits.
pub proof fn the_code_is_the_end_of_the_number(digest: Seq<u8>)
    requires
        digest.len() >= 8,
    ensures
        text::is_digits(sas_digits(digest)),
        text::undecimal(sas_digits(digest)) == (digest[0] * 0x100_0000_0000_0000 + digest[1]
            * 0x1_0000_0000_0000 + digest[2] * 0x100_0000_0000 + digest[3] * 0x1_0000_0000
            + digest[4] * 0x100_0000 + digest[5] * 0x1_0000 + digest[6] * 0x100 + digest[7])
            % 100_000_000,
{
    let n = (bytes::of_be64(digest, 0) % 100_000_000) as nat;
    text::padded_is_digits(n, 8);
    reveal_with_fuel(text::ten_to, 9);
    text::padded_is_read(n, 8);
}

} // verus!
