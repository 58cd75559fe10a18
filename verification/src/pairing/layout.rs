//! The wire layout of a pairing payload, and what reading it gives.
//!
//! Wire layout (`lp` is a field behind a u16be length, integers are
//! big-endian):
//!
//! ```text
//! "SPAIR7" | u8 version=1
//! lp identity_key | u32be registration_id
//! u8 has_prekey [| u32be pre_key_id | lp pre_key_public]
//! u32be signed_pre_key_id | lp spk_public | lp spk_signature
//! u32be kyber_pre_key_id | lp kyber_public | lp kyber_signature
//! lp onion_raw(35) | lp client_auth_public(32) | lp nonce(32)
//! u64be expires_at_epoch_seconds
//! lp signature        -- over everything above
//! ```

use vstd::prelude::*;
use vstd::utf8::{encode_utf8, is_ascii_chars_encode_utf8};

use crate::bytes;
use crate::limits::pairing::MAX_QR_PAYLOAD_BYTES;
use crate::text;

verus! {

pub const QR_VERSION: u8 = 1;

/// Bytes of a raw onion address: key, checksum and version.
pub const ONION_RAW_BYTES: usize = 35;

/// Bytes of a Kyber public key at most.
pub const MAX_FIELD: usize = 4096;

/// Bytes of any other key or signature at most.
pub const MAX_KEY: usize = 64;

/// The values that a pairing payload holds.
#[verifier::ext_equal]
pub struct Payload {
    pub identity_key: Seq<u8>,
    pub registration_id: u32,
    pub pre_key: Option<(u32, Seq<u8>)>,
    pub signed_pre_key_id: u32,
    pub signed_pre_key_public: Seq<u8>,
    pub signed_pre_key_signature: Seq<u8>,
    pub kyber_pre_key_id: u32,
    pub kyber_pre_key_public: Seq<u8>,
    pub kyber_pre_key_signature: Seq<u8>,
    pub onion: Seq<u8>,
    pub client_auth_public: Seq<u8>,
    pub nonce: Seq<u8>,
    pub expires_at: u64,
    pub signature: Seq<u8>,
}

// ---------------------------------------------------------------------------
// The layout

pub open spec fn qr_label() -> Seq<u8> {
    encode_utf8("SPAIR7"@)
}

/// A field behind its length.
#[verifier::opaque]
pub open spec fn lp(field: Seq<u8>) -> Seq<u8> {
    bytes::be16(field.len() as u16) + field
}

/// The optional one-time pre-key, then `rest`.
pub open spec fn pre_key_bytes(p: Payload, rest: Seq<u8>) -> Seq<u8> {
    match p.pre_key {
        Some((id, key)) => seq![1u8] + (bytes::be32(id) + (lp(key) + rest)),
        None => seq![0u8] + rest,
    }
}

/// Label to one-time pre-key, then `rest`.
pub open spec fn head_bytes(p: Payload, rest: Seq<u8>) -> Seq<u8> {
    qr_label() + (seq![QR_VERSION] + (lp(p.identity_key) + (bytes::be32(p.registration_id)
        + pre_key_bytes(p, rest))))
}

/// The two signed pre-keys, then `rest`.
pub open spec fn keys_bytes(p: Payload, rest: Seq<u8>) -> Seq<u8> {
    bytes::be32(p.signed_pre_key_id) + (lp(p.signed_pre_key_public) + (lp(p.signed_pre_key_signature) + (
    bytes::be32(p.kyber_pre_key_id) + (lp(p.kyber_pre_key_public) + (lp(p.kyber_pre_key_signature)
        + rest)))))
}

/// Address, client key, nonce and expiry, then `rest`.
pub open spec fn address_bytes(p: Payload, rest: Seq<u8>) -> Seq<u8> {
    lp(p.onion) + (lp(p.client_auth_public) + (lp(p.nonce) + (bytes::be64(p.expires_at) + rest)))
}

/// Everything that the identity key signs, then `rest`.
pub open spec fn signed_bytes(p: Payload, rest: Seq<u8>) -> Seq<u8> {
    head_bytes(p, keys_bytes(p, address_bytes(p, rest)))
}

/// The payload on the wire.
pub open spec fn wire_bytes(p: Payload) -> Seq<u8> {
    signed_bytes(p, lp(p.signature))
}

/// The lengths that the wire admits.
pub open spec fn fits_wire(p: Payload) -> bool {
    &&& 0 < p.identity_key.len() <= MAX_KEY
    &&& (p.pre_key matches Some((_, key)) ==> 0 < key.len() <= MAX_KEY)
    &&& 0 < p.signed_pre_key_public.len() <= MAX_KEY
    &&& 0 < p.signed_pre_key_signature.len() <= MAX_KEY
    &&& 0 < p.kyber_pre_key_public.len() <= MAX_FIELD
    &&& 0 < p.kyber_pre_key_signature.len() <= MAX_KEY
    &&& p.onion.len() == ONION_RAW_BYTES
    &&& p.client_auth_public.len() == 32
    &&& p.nonce.len() == 32
    &&& 0 < p.signature.len() <= MAX_KEY
}

// ---------------------------------------------------------------------------
// Reading

/// A value read from the front of a byte string and what follows it, or why
/// it could not be read.
pub enum Scan<T> {
    Got(T, Seq<u8>),
    Bad(Seq<char>),
}

/// The first `n` bytes.
pub open spec fn scan_take(s: Seq<u8>, n: nat) -> Scan<Seq<u8>> {
    if s.len() < n {
        Scan::Bad("truncated"@)
    } else {
        Scan::Got(s.take(n as int), s.skip(n as int))
    }
}

#[verifier::opaque]
pub open spec fn scan_u8(s: Seq<u8>) -> Scan<u8> {
    match scan_take(s, 1) {
        Scan::Got(b, rest) => Scan::Got(b[0], rest),
        Scan::Bad(why) => Scan::Bad(why),
    }
}

#[verifier::opaque]
pub open spec fn scan_u32(s: Seq<u8>) -> Scan<u32> {
    match scan_take(s, 4) {
        Scan::Got(b, rest) => Scan::Got(bytes::of_be32(b, 0) as u32, rest),
        Scan::Bad(why) => Scan::Bad(why),
    }
}

#[verifier::opaque]
pub open spec fn scan_u64(s: Seq<u8>) -> Scan<u64> {
    match scan_take(s, 8) {
        Scan::Got(b, rest) => Scan::Got(bytes::of_be64(b, 0) as u64, rest),
        Scan::Bad(why) => Scan::Bad(why),
    }
}

/// A field of one to `max` bytes behind its length.
#[verifier::opaque]
pub open spec fn scan_lp(s: Seq<u8>, max: nat) -> Scan<Seq<u8>> {
    match scan_take(s, 2) {
        Scan::Bad(why) => Scan::Bad(why),
        Scan::Got(b, rest) => {
            let len = bytes::of_be16(b, 0);
            if len == 0 || len > max {
                Scan::Bad("lp length "@ + text::decimal(len as nat) + " out of range"@)
            } else {
                scan_take(rest, len as nat)
            }
        },
    }
}

/// A field of exactly `len` bytes behind its length; `why` where it is
/// shorter.
pub open spec fn scan_exact(s: Seq<u8>, len: nat, why: Seq<char>) -> Scan<Seq<u8>> {
    match scan_lp(s, len) {
        Scan::Bad(e) => Scan::Bad(e),
        Scan::Got(field, rest) => if field.len() != len {
            Scan::Bad(why)
        } else {
            Scan::Got(field, rest)
        },
    }
}

/// Label and version.
#[verifier::opaque]
pub open spec fn scan_label(s: Seq<u8>) -> Scan<()> {
    match scan_take(s, qr_label().len()) {
        Scan::Bad(why) => Scan::Bad(why),
        Scan::Got(label, s1) => if label != qr_label() {
            Scan::Bad("label mismatch"@)
        } else {
            match scan_u8(s1) {
                Scan::Bad(why) => Scan::Bad(why),
                Scan::Got(version, s2) => if version != QR_VERSION {
                    Scan::Bad("unsupported version"@)
                } else {
                    Scan::Got((), s2)
                },
            }
        },
    }
}

/// The optional one-time pre-key.
#[verifier::opaque]
pub open spec fn scan_pre_key(s: Seq<u8>) -> Scan<Option<(u32, Seq<u8>)>> {
    match scan_u8(s) {
        Scan::Bad(why) => Scan::Bad(why),
        Scan::Got(has, s1) => if has == 0 {
            Scan::Got(None, s1)
        } else if has == 1 {
            match scan_u32(s1) {
                Scan::Bad(why) => Scan::Bad(why),
                Scan::Got(id, s2) => match scan_lp(s2, MAX_KEY as nat) {
                    Scan::Bad(why) => Scan::Bad(why),
                    Scan::Got(key, s3) => Scan::Got(Some((id, key)), s3),
                },
            }
        } else {
            Scan::Bad("has_prekey "@ + text::decimal(has as nat))
        },
    }
}

/// A pre-key id, its public key of at most `max` bytes, and its signature.
#[verifier::opaque]
pub open spec fn scan_signed_key(s: Seq<u8>, max: nat) -> Scan<(u32, Seq<u8>, Seq<u8>)> {
    match scan_u32(s) {
        Scan::Bad(why) => Scan::Bad(why),
        Scan::Got(id, s1) => match scan_lp(s1, max) {
            Scan::Bad(why) => Scan::Bad(why),
            Scan::Got(key, s2) => match scan_lp(s2, MAX_KEY as nat) {
                Scan::Bad(why) => Scan::Bad(why),
                Scan::Got(signature, s3) => Scan::Got((id, key, signature), s3),
            },
        },
    }
}

/// Address, client key, nonce and expiry.
#[verifier::opaque]
pub open spec fn scan_address(s: Seq<u8>) -> Scan<(Seq<u8>, Seq<u8>, Seq<u8>, u64)> {
    match scan_exact(s, ONION_RAW_BYTES as nat, "onion length"@) {
        Scan::Bad(why) => Scan::Bad(why),
        Scan::Got(onion, s1) => match scan_exact(s1, 32, "client auth length"@) {
            Scan::Bad(why) => Scan::Bad(why),
            Scan::Got(auth, s2) => match scan_exact(s2, 32, "nonce length"@) {
                Scan::Bad(why) => Scan::Bad(why),
                Scan::Got(nonce, s3) => match scan_u64(s3) {
                    Scan::Bad(why) => Scan::Bad(why),
                    Scan::Got(expires, s4) => Scan::Got((onion, auth, nonce, expires), s4),
                },
            },
        },
    }
}

/// All fields in order, and what follows the last.
pub open spec fn scan_fields(s: Seq<u8>) -> Scan<Payload> {
    match scan_label(s) {
        Scan::Bad(why) => Scan::Bad(why),
        Scan::Got(_, s1) => match scan_lp(s1, MAX_KEY as nat) {
            Scan::Bad(why) => Scan::Bad(why),
            Scan::Got(identity_key, s2) => match scan_u32(s2) {
                Scan::Bad(why) => Scan::Bad(why),
                Scan::Got(registration_id, s3) => match scan_pre_key(s3) {
                    Scan::Bad(why) => Scan::Bad(why),
                    Scan::Got(pre_key, s4) => match scan_signed_key(s4, MAX_KEY as nat) {
                        Scan::Bad(why) => Scan::Bad(why),
                        Scan::Got(spk, s5) => match scan_signed_key(s5, MAX_FIELD as nat) {
                            Scan::Bad(why) => Scan::Bad(why),
                            Scan::Got(kyber, s6) => match scan_address(s6) {
                                Scan::Bad(why) => Scan::Bad(why),
                                Scan::Got(address, s7) => match scan_lp(s7, MAX_KEY as nat) {
                                    Scan::Bad(why) => Scan::Bad(why),
                                    Scan::Got(signature, s8) => Scan::Got(
                                        Payload {
                                            identity_key,
                                            registration_id,
                                            pre_key,
                                            signed_pre_key_id: spk.0,
                                            signed_pre_key_public: spk.1,
                                            signed_pre_key_signature: spk.2,
                                            kyber_pre_key_id: kyber.0,
                                            kyber_pre_key_public: kyber.1,
                                            kyber_pre_key_signature: kyber.2,
                                            onion: address.0,
                                            client_auth_public: address.1,
                                            nonce: address.2,
                                            expires_at: address.3,
                                            signature,
                                        },
                                        s8,
                                    ),
                                },
                            },
                        },
                    },
                },
            },
        },
    }
}

/// The payload that a byte string holds, or why it holds none.
pub open spec fn scan_payload(s: Seq<u8>) -> Result<Payload, Seq<char>> {
    if s.len() > MAX_QR_PAYLOAD_BYTES {
        Err(
            "payload too large: "@ + text::decimal(s.len()) + " > "@ + text::decimal(
                MAX_QR_PAYLOAD_BYTES as nat,
            ),
        )
    } else {
        match scan_fields(s) {
            Scan::Bad(why) => Err(why),
            Scan::Got(p, rest) => if rest.len() > 0 {
                Err("trailing bytes"@)
            } else {
                Ok(p)
            },
        }
    }
}

// ---------------------------------------------------------------------------
// Laws of the layout

proof fn split_off<A>(a: Seq<A>, b: Seq<A>)
    ensures
        (a + b).take(a.len() as int) == a,
        (a + b).skip(a.len() as int) == b,
{
    assert((a + b).take(a.len() as int) =~= a);
    assert((a + b).skip(a.len() as int) =~= b);
}

proof fn add_is_associative<A>(a: Seq<A>, b: Seq<A>, c: Seq<A>)
    ensures
        (a + b) + c == a + (b + c),
{
    assert((a + b) + c =~= a + (b + c));
}

proof fn scans_u8(v: u8, rest: Seq<u8>)
    ensures
        scan_u8(seq![v] + rest) == Scan::Got(v, rest),
{
    reveal(scan_u8);
    split_off(seq![v], rest);
}

proof fn scans_u32(v: u32, rest: Seq<u8>)
    ensures
        scan_u32(bytes::be32(v) + rest) == Scan::Got(v, rest),
{
    reveal(scan_u32);
    split_off(bytes::be32(v), rest);
    bytes::be32_reads_back(v);
}

proof fn scans_u64(v: u64, rest: Seq<u8>)
    ensures
        scan_u64(bytes::be64(v) + rest) == Scan::Got(v, rest),
{
    reveal(scan_u64);
    split_off(bytes::be64(v), rest);
    bytes::be64_reads_back(v);
}

proof fn scans_lp(field: Seq<u8>, max: nat, rest: Seq<u8>)
    requires
        0 < field.len() <= max <= u16::MAX,
    ensures
        scan_lp(lp(field) + rest, max) == Scan::Got(field, rest),
{
    reveal(scan_lp);
    reveal(lp);
    let n = field.len() as u16;
    add_is_associative(bytes::be16(n), field, rest);
    split_off(bytes::be16(n), field + rest);
    bytes::be16_reads_back(n);
    split_off(field, rest);
}

proof fn u8_scanned(s: Seq<u8>)
    requires
        scan_u8(s) is Got,
    ensures
        s == seq![scan_u8(s)->Got_0] + scan_u8(s)->Got_1,
{
    reveal(scan_u8);
    assert(s =~= seq![scan_u8(s)->Got_0] + scan_u8(s)->Got_1);
}

proof fn u32_scanned(s: Seq<u8>)
    requires
        scan_u32(s) is Got,
    ensures
        s == bytes::be32(scan_u32(s)->Got_0) + scan_u32(s)->Got_1,
{
    reveal(scan_u32);
    bytes::be32_writes_back(s.take(4), 0);
    assert(s.take(4).subrange(0, 4) =~= s.take(4));
    assert(s =~= s.take(4) + s.skip(4));
}

proof fn u64_scanned(s: Seq<u8>)
    requires
        scan_u64(s) is Got,
    ensures
        s == bytes::be64(scan_u64(s)->Got_0) + scan_u64(s)->Got_1,
{
    reveal(scan_u64);
    bytes::be64_writes_back(s.take(8), 0);
    assert(s.take(8).subrange(0, 8) =~= s.take(8));
    assert(s =~= s.take(8) + s.skip(8));
}

proof fn lp_scanned(s: Seq<u8>, max: nat)
    requires
        scan_lp(s, max) is Got,
    ensures
        s == lp(scan_lp(s, max)->Got_0) + scan_lp(s, max)->Got_1,
        0 < scan_lp(s, max)->Got_0.len() <= max,
{
    reveal(scan_lp);
    reveal(lp);
    bytes::be16_writes_back(s.take(2), 0);
    assert(s.take(2).subrange(0, 2) =~= s.take(2));
    let field = scan_lp(s, max)->Got_0;
    let rest = scan_lp(s, max)->Got_1;
    assert(s.skip(2) =~= field + rest);
    assert(s =~= s.take(2) + s.skip(2));
    add_is_associative(bytes::be16(field.len() as u16), field, rest);
}

proof fn label_is_six_bytes()
    ensures
        qr_label().len() == 6,
{
    reveal_strlit("SPAIR7");
    is_ascii_chars_encode_utf8("SPAIR7"@);
}

proof fn scans_label(rest: Seq<u8>)
    ensures
        scan_label(qr_label() + (seq![QR_VERSION] + rest)) == Scan::Got((), rest),
{
    reveal(scan_label);
    split_off(qr_label(), seq![QR_VERSION] + rest);
    scans_u8(QR_VERSION, rest);
}

proof fn scans_pre_key(p: Payload, rest: Seq<u8>)
    requires
        fits_wire(p),
    ensures
        scan_pre_key(pre_key_bytes(p, rest)) == Scan::Got(p.pre_key, rest),
{
    reveal(scan_pre_key);
    match p.pre_key {
        Some((id, key)) => {
            scans_u8(1, bytes::be32(id) + (lp(key) + rest));
            scans_u32(id, lp(key) + rest);
            scans_lp(key, MAX_KEY as nat, rest);
        },
        None => {
            scans_u8(0, rest);
        },
    }
}

proof fn scans_signed_key(id: u32, key: Seq<u8>, signature: Seq<u8>, max: nat, rest: Seq<u8>)
    requires
        0 < key.len() <= max <= u16::MAX,
        0 < signature.len() <= MAX_KEY,
    ensures
        scan_signed_key(bytes::be32(id) + (lp(key) + (lp(signature) + rest)), max) == Scan::Got(
            (id, key, signature),
            rest,
        ),
{
    reveal(scan_signed_key);
    scans_u32(id, lp(key) + (lp(signature) + rest));
    scans_lp(key, max, lp(signature) + rest);
    scans_lp(signature, MAX_KEY as nat, rest);
}

proof fn scans_address(p: Payload, rest: Seq<u8>)
    requires
        fits_wire(p),
    ensures
        scan_address(address_bytes(p, rest)) == Scan::Got(
            (p.onion, p.client_auth_public, p.nonce, p.expires_at),
            rest,
        ),
{
    reveal(scan_address);
    let a3 = bytes::be64(p.expires_at) + rest;
    let a2 = lp(p.nonce) + a3;
    let a1 = lp(p.client_auth_public) + a2;
    scans_lp(p.onion, ONION_RAW_BYTES as nat, a1);
    scans_lp(p.client_auth_public, 32, a2);
    scans_lp(p.nonce, 32, a3);
    scans_u64(p.expires_at, rest);
}

proof fn scans_fields(p: Payload)
    requires
        fits_wire(p),
    ensures
        scan_fields(wire_bytes(p)) == Scan::Got(p, Seq::<u8>::empty()),
{
    let s7 = lp(p.signature);
    let s6 = address_bytes(p, s7);
    let s5 = bytes::be32(p.kyber_pre_key_id) + (lp(p.kyber_pre_key_public) + (lp(
        p.kyber_pre_key_signature,
    ) + s6));
    let s4 = keys_bytes(p, s6);
    let s3 = pre_key_bytes(p, s4);
    let s2 = bytes::be32(p.registration_id) + s3;
    let s1 = lp(p.identity_key) + s2;
    scans_label(s1);
    scans_lp(p.identity_key, MAX_KEY as nat, s2);
    scans_u32(p.registration_id, s3);
    scans_pre_key(p, s4);
    scans_signed_key(
        p.signed_pre_key_id,
        p.signed_pre_key_public,
        p.signed_pre_key_signature,
        MAX_KEY as nat,
        s5,
    );
    scans_signed_key(
        p.kyber_pre_key_id,
        p.kyber_pre_key_public,
        p.kyber_pre_key_signature,
        MAX_FIELD as nat,
        s6,
    );
    scans_address(p, s7);
    assert(s7 =~= s7 + Seq::<u8>::empty());
    scans_lp(p.signature, MAX_KEY as nat, Seq::empty());
}

/// A payload whose fields fit the wire fits under the payload cap.
pub proof fn wire_fits_cap(p: Payload)
    requires
        fits_wire(p),
    ensures
        wire_bytes(p).len() <= MAX_QR_PAYLOAD_BYTES,
{
    reveal(lp);
    label_is_six_bytes();
}

/// What one side encodes, the other decodes: every payload whose fields fit
/// the wire comes back field for field.
pub proof fn decoding_undoes_encoding(p: Payload)
    requires
        fits_wire(p),
    ensures
        scan_payload(wire_bytes(p)) == Ok::<Payload, Seq<char>>(p),
{
    wire_fits_cap(p);
    scans_fields(p);
}

/// No byte of an accepted payload is free: encoding what was decoded gives
/// the very bytes that were decoded.
pub proof fn encoding_undoes_decoding(s: Seq<u8>)
    requires
        scan_payload(s) is Ok,
    ensures
        fits_wire(scan_payload(s)->Ok_0),
        wire_bytes(scan_payload(s)->Ok_0) == s,
{
    let p = scan_payload(s)->Ok_0;
    label_scanned(s);
    let s1 = scan_label(s)->Got_1;
    lp_scanned(s1, MAX_KEY as nat);
    let s2 = scan_lp(s1, MAX_KEY as nat)->Got_1;
    u32_scanned(s2);
    let s3 = scan_u32(s2)->Got_1;
    pre_key_scanned(s3, p);
    let s4 = scan_pre_key(s3)->Got_1;
    signed_key_scanned(s4, MAX_KEY as nat);
    let s5 = scan_signed_key(s4, MAX_KEY as nat)->Got_1;
    signed_key_scanned(s5, MAX_FIELD as nat);
    let s6 = scan_signed_key(s5, MAX_FIELD as nat)->Got_1;
    address_scanned(s6, p);
    let s7 = scan_address(s6)->Got_1;
    lp_scanned(s7, MAX_KEY as nat);
    let s8 = scan_lp(s7, MAX_KEY as nat)->Got_1;
    assert(lp(p.signature) + s8 =~= lp(p.signature));
}

proof fn label_scanned(s: Seq<u8>)
    requires
        scan_label(s) is Got,
    ensures
        s == qr_label() + (seq![QR_VERSION] + scan_label(s)->Got_1),
{
    reveal(scan_label);
    label_is_six_bytes();
    let s0 = s.skip(6);
    assert(s =~= qr_label() + s0);
    u8_scanned(s0);
}

proof fn pre_key_scanned(s: Seq<u8>, p: Payload)
    requires
        scan_pre_key(s) is Got,
        p.pre_key == scan_pre_key(s)->Got_0,
    ensures
        s == pre_key_bytes(p, scan_pre_key(s)->Got_1),
        p.pre_key matches Some((_, key)) ==> 0 < key.len() <= MAX_KEY,
{
    reveal(scan_pre_key);
    u8_scanned(s);
    let s1 = scan_u8(s)->Got_1;
    if p.pre_key is Some {
        u32_scanned(s1);
        lp_scanned(scan_u32(s1)->Got_1, MAX_KEY as nat);
    }
}

proof fn address_scanned(s: Seq<u8>, p: Payload)
    requires
        scan_address(s) is Got,
        (p.onion, p.client_auth_public, p.nonce, p.expires_at) == scan_address(s)->Got_0,
    ensures
        s == address_bytes(p, scan_address(s)->Got_1),
        p.onion.len() == ONION_RAW_BYTES,
        p.client_auth_public.len() == 32,
        p.nonce.len() == 32,
{
    reveal(scan_address);
    lp_scanned(s, ONION_RAW_BYTES as nat);
    let s1 = scan_lp(s, ONION_RAW_BYTES as nat)->Got_1;
    lp_scanned(s1, 32);
    let s2 = scan_lp(s1, 32)->Got_1;
    lp_scanned(s2, 32);
    let s3 = scan_lp(s2, 32)->Got_1;
    u64_scanned(s3);
}

proof fn signed_key_scanned(s: Seq<u8>, max: nat)
    requires
        scan_signed_key(s, max) is Got,
    ensures
        ({
            let (id, key, signature) = scan_signed_key(s, max)->Got_0;
            &&& s == bytes::be32(id) + (lp(key) + (lp(signature) + scan_signed_key(s, max)->Got_1))
            &&& 0 < key.len() <= max
            &&& 0 < signature.len() <= MAX_KEY
        }),
{
    reveal(scan_signed_key);
    u32_scanned(s);
    let s1 = scan_u32(s)->Got_1;
    lp_scanned(s1, max);
    lp_scanned(scan_lp(s1, max)->Got_1, MAX_KEY as nat);
}

/// A payload starts with its label and version, and then the identity key behind
/// its length and the registration id.
pub proof fn payloads_start_with_their_label(p: Payload)
    requires
        fits_wire(p),
    ensures
        ({
            let w = wire_bytes(p);
            let n = p.identity_key.len() as int;
            &&& w.take(9) == seq![0x53u8, 0x50, 0x41, 0x49, 0x52, 0x37, 1, 0, n as u8]
            &&& w.subrange(9, 9 + n) == p.identity_key
            &&& bytes::of_be32(w, 9 + n) == p.registration_id
            &&& w[13 + n] == (if p.pre_key is Some {
                1u8
            } else {
                0u8
            })
        }),
{
    reveal(lp);
    let w = wire_bytes(p);
    let n = p.identity_key.len() as int;
    reveal_strlit("SPAIR7");
    is_ascii_chars_encode_utf8("SPAIR7"@);
    assert(w.take(9) =~= seq![0x53u8, 0x50, 0x41, 0x49, 0x52, 0x37, 1, 0, n as u8]);
    assert(w.subrange(9, 9 + n) =~= p.identity_key);
    assert(w.subrange(9 + n, 13 + n) =~= bytes::be32(p.registration_id));
    bytes::be32_reads_back(p.registration_id);
    assert forall|k: int| 0 <= k < 4 implies #[trigger] w[9 + n + k] == bytes::be32(
        p.registration_id,
    )[k] by {
        assert(w.subrange(9 + n, 13 + n)[k] == w[9 + n + k]);
    }
}

} // verus!
