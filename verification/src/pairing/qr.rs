//! The pairing payload: a pre-key bundle, the inviter's address, a nonce and
//! an expiry, signed by the inviter's identity key.
//!
//! Fail closed: an invalid field, a bad signature or an expired payload ends
//! the pairing. The same bytes travel as a QR matrix or as Base58 text.

use vstd::prelude::*;
use vstd::slice::{slice_subrange, slice_to_vec};

use crate::bytes::{
    self, append_bytes, push_be16, push_be32, push_be64, read_be16, read_be32, read_be64,
    same_bytes, to_array,
};
use crate::limits::pairing::MAX_QR_PAYLOAD_BYTES;
use crate::pairing::layout::{self, Payload, Scan, MAX_FIELD, MAX_KEY, QR_VERSION};
use crate::text::{self, push_decimal, trim};

verus! {


/// How long an invitation can be taken up, in seconds.
pub const OFFER_TTL_SECONDS: u64 = 300;

/// Why a payload is refused.
#[derive(Clone, Debug, PartialEq, Eq)]
pub enum PairingError {
    Invalid(String),
    Expired,
    BadSignature,
}

/// What a `PairingError` says.
pub enum PairingFault {
    Invalid(Seq<char>),
    Expired,
    BadSignature,
}

impl View for PairingError {
    type V = PairingFault;

    open spec fn view(&self) -> PairingFault {
        match self {
            PairingError::Invalid(why) => PairingFault::Invalid(why@),
            PairingError::Expired => PairingFault::Expired,
            PairingError::BadSignature => PairingFault::BadSignature,
        }
    }
}

impl PairingError {
    /// The message for a person.
    pub fn message(&self) -> (text: String)
        ensures
            text@ == match self@ {
                PairingFault::Invalid(why) => "invalid pairing payload: "@ + why,
                PairingFault::Expired => "pairing offer expired"@,
                PairingFault::BadSignature => "pairing signature invalid"@,
            },
    {
        match self {
            PairingError::Invalid(why) => "invalid pairing payload: ".to_owned().concat(
                why.as_str(),
            ),
            PairingError::Expired => "pairing offer expired".to_owned(),
            PairingError::BadSignature => "pairing signature invalid".to_owned(),
        }
    }
}

/// An invitation.
#[derive(Clone, Debug)]
pub struct PairingPayload {
    pub identity_key: Vec<u8>,
    pub registration_id: u32,
    pub pre_key: Option<(u32, Vec<u8>)>,
    pub signed_pre_key_id: u32,
    pub signed_pre_key_public: Vec<u8>,
    pub signed_pre_key_signature: Vec<u8>,
    pub kyber_pre_key_id: u32,
    pub kyber_pre_key_public: Vec<u8>,
    pub kyber_pre_key_signature: Vec<u8>,
    pub onion: [u8; 35],
    pub client_auth_public: [u8; 32],
    pub nonce: [u8; 32],
    pub expires_at: u64,
    pub signature: Vec<u8>,
}

pub open spec fn pre_key_view(pre_key: Option<(u32, Vec<u8>)>) -> Option<(u32, Seq<u8>)> {
    match pre_key {
        Some((id, key)) => Some((id, key@)),
        None => None,
    }
}

impl View for PairingPayload {
    type V = Payload;

    open spec fn view(&self) -> Payload {
        Payload {
            identity_key: self.identity_key@,
            registration_id: self.registration_id,
            pre_key: pre_key_view(self.pre_key),
            signed_pre_key_id: self.signed_pre_key_id,
            signed_pre_key_public: self.signed_pre_key_public@,
            signed_pre_key_signature: self.signed_pre_key_signature@,
            kyber_pre_key_id: self.kyber_pre_key_id,
            kyber_pre_key_public: self.kyber_pre_key_public@,
            kyber_pre_key_signature: self.kyber_pre_key_signature@,
            onion: self.onion@,
            client_auth_public: self.client_auth_public@,
            nonce: self.nonce@,
            expires_at: self.expires_at,
            signature: self.signature@,
        }
    }
}

// ---------------------------------------------------------------------------
// Writing

struct Writer(Vec<u8>);

impl Writer {
    spec fn out(&self) -> Seq<u8> {
        self.0@
    }

    fn u8(&mut self, v: u8)
        ensures
            final(self).out() == old(self).out() + seq![v],
    {
        self.0.push(v);
        assert(self.out() =~= old(self).out() + seq![v]);
    }

    fn u32be(&mut self, v: u32)
        ensures
            final(self).out() == old(self).out() + bytes::be32(v),
    {
        push_be32(&mut self.0, v);
    }

    fn u64be(&mut self, v: u64)
        ensures
            final(self).out() == old(self).out() + bytes::be64(v),
    {
        push_be64(&mut self.0, v);
    }

    fn raw(&mut self, v: &[u8])
        ensures
            final(self).out() == old(self).out() + v@,
    {
        append_bytes(&mut self.0, v);
    }

    fn lp(&mut self, v: &[u8])
        ensures
            final(self).out() == old(self).out() + layout::lp(v@),
    {
        reveal(layout::lp);
        self.u32be_len(v.len());
        self.raw(v);
        assert(self.out() =~= old(self).out() + layout::lp(v@));
    }

    /// Length prefixes are two bytes wide.
    fn u32be_len(&mut self, len: usize)
        ensures
            final(self).out() == old(self).out() + bytes::be16(len as u16),
    {
        push_be16(&mut self.0, len as u16);
    }
}

impl Writer {
    fn head(&mut self, p: &PairingPayload)
        ensures
            final(self).out() == old(self).out() + layout::head_bytes(p@, Seq::empty()),
    {
        self.raw("SPAIR7".as_bytes());
        self.u8(QR_VERSION);
        self.lp(p.identity_key.as_slice());
        self.u32be(p.registration_id);
        let ghost before = self.out();
        match &p.pre_key {
            Some((id, pk)) => {
                self.u8(1);
                self.u32be(*id);
                self.lp(pk.as_slice());
            },
            None => self.u8(0),
        }
        assert(self.out() =~= before + layout::pre_key_bytes(p@, Seq::empty()));
        assert(self.out() =~= old(self).out() + layout::head_bytes(p@, Seq::empty()));
    }

    fn keys(&mut self, p: &PairingPayload)
        ensures
            final(self).out() == old(self).out() + layout::keys_bytes(p@, Seq::empty()),
    {
        self.u32be(p.signed_pre_key_id);
        self.lp(p.signed_pre_key_public.as_slice());
        self.lp(p.signed_pre_key_signature.as_slice());
        self.u32be(p.kyber_pre_key_id);
        self.lp(p.kyber_pre_key_public.as_slice());
        self.lp(p.kyber_pre_key_signature.as_slice());
        assert(self.out() =~= old(self).out() + layout::keys_bytes(p@, Seq::empty()));
    }

    fn address(&mut self, p: &PairingPayload)
        ensures
            final(self).out() == old(self).out() + layout::address_bytes(p@, Seq::empty()),
    {
        self.lp(&p.onion);
        self.lp(&p.client_auth_public);
        self.lp(&p.nonce);
        self.u64be(p.expires_at);
        assert(self.out() =~= old(self).out() + layout::address_bytes(p@, Seq::empty()));
    }
}

// ---------------------------------------------------------------------------
// Reading

struct Reader<'a> {
    buf: &'a [u8],
    pos: usize,
}

fn invalid<T>(why: &str) -> (r: Result<T, PairingError>)
    ensures
        r matches Err(e) && e@ == PairingFault::Invalid(why@),
{
    Err(PairingError::Invalid(why.to_owned()))
}

impl<'a> Reader<'a> {
    spec fn wf(&self) -> bool {
        self.pos <= self.buf@.len()
    }

    /// What has not been read yet.
    spec fn rest(&self) -> Seq<u8> {
        self.buf@.skip(self.pos as int)
    }

    fn take(&mut self, n: usize) -> (r: Result<&'a [u8], PairingError>)
        requires
            old(self).wf(),
        ensures
            final(self).wf(),
            match layout::scan_take(old(self).rest(), n as nat) {
                Scan::Got(v, rest) => r is Ok && r->Ok_0@ == v && final(self).rest() == rest,
                Scan::Bad(why) => r is Err && r->Err_0@ == PairingFault::Invalid(why),
            },
    {
        if n > self.buf.len() - self.pos {
            return invalid("truncated");
        }
        let out: &'a [u8] = slice_subrange(self.buf, self.pos, self.pos + n);
        assert(out@ =~= self.rest().take(n as int));
        assert(self.buf@.skip(self.pos + n) =~= self.rest().skip(n as int));
        self.pos = self.pos + n;
        Ok(out)
    }

    fn u8(&mut self) -> (r: Result<u8, PairingError>)
        requires
            old(self).wf(),
        ensures
            final(self).wf(),
            match layout::scan_u8(old(self).rest()) {
                Scan::Got(v, rest) => r is Ok && r->Ok_0 == v && final(self).rest() == rest,
                Scan::Bad(why) => r is Err && r->Err_0@ == PairingFault::Invalid(why),
            },
    {
        reveal(layout::scan_u8);
        match self.take(1) {
            Ok(b) => Ok(b[0]),
            Err(e) => Err(e),
        }
    }

    fn u32be(&mut self) -> (r: Result<u32, PairingError>)
        requires
            old(self).wf(),
        ensures
            final(self).wf(),
            match layout::scan_u32(old(self).rest()) {
                Scan::Got(v, rest) => r is Ok && r->Ok_0 == v && final(self).rest() == rest,
                Scan::Bad(why) => r is Err && r->Err_0@ == PairingFault::Invalid(why),
            },
    {
        reveal(layout::scan_u32);
        match self.take(4) {
            Ok(b) => Ok(read_be32(b, 0)),
            Err(e) => Err(e),
        }
    }

    fn u64be(&mut self) -> (r: Result<u64, PairingError>)
        requires
            old(self).wf(),
        ensures
            final(self).wf(),
            match layout::scan_u64(old(self).rest()) {
                Scan::Got(v, rest) => r is Ok && r->Ok_0 == v && final(self).rest() == rest,
                Scan::Bad(why) => r is Err && r->Err_0@ == PairingFault::Invalid(why),
            },
    {
        reveal(layout::scan_u64);
        match self.take(8) {
            Ok(b) => Ok(read_be64(b, 0)),
            Err(e) => Err(e),
        }
    }

    fn lp(&mut self, max: usize) -> (r: Result<&'a [u8], PairingError>)
        requires
            old(self).wf(),
        ensures
            final(self).wf(),
            match layout::scan_lp(old(self).rest(), max as nat) {
                Scan::Got(v, rest) => r is Ok && r->Ok_0@ == v && final(self).rest() == rest,
                Scan::Bad(why) => r is Err && r->Err_0@ == PairingFault::Invalid(why),
            },
    {
        reveal(layout::scan_lp);
        let len: u16 = match self.take(2) {
            Ok(b) => read_be16(b, 0),
            Err(e) => {
                return Err(e);
            },
        };
        if len == 0 || len as usize > max {
            let mut why: String = "lp length ".to_owned();
            push_decimal(&mut why, len as u64);
            why.append(" out of range");
            return Err(PairingError::Invalid(why));
        }
        self.take(len as usize)
    }

    fn exact<const N: usize>(&mut self, why: &str) -> (r: Result<[u8; N], PairingError>)
        requires
            old(self).wf(),
        ensures
            final(self).wf(),
            match layout::scan_exact(old(self).rest(), N as nat, why@) {
                Scan::Got(v, rest) => r is Ok && r->Ok_0@ == v && final(self).rest() == rest,
                Scan::Bad(e) => r is Err && r->Err_0@ == PairingFault::Invalid(e),
            },
    {
        match self.lp(N) {
            Ok(field) => match to_array::<N>(field) {
                Some(a) => Ok(a),
                None => invalid(why),
            },
            Err(e) => Err(e),
        }
    }

    fn label(&mut self) -> (r: Result<(), PairingError>)
        requires
            old(self).wf(),
        ensures
            final(self).wf(),
            match layout::scan_label(old(self).rest()) {
                Scan::Got(_, rest) => r is Ok && final(self).rest() == rest,
                Scan::Bad(why) => r is Err && r->Err_0@ == PairingFault::Invalid(why),
            },
    {
        reveal(layout::scan_label);
        let label: &[u8] = "SPAIR7".as_bytes();
        match self.take(label.len()) {
            Ok(found) => {
                if !same_bytes(found, label) {
                    return invalid("label mismatch");
                }
            },
            Err(e) => {
                return Err(e);
            },
        }
        match self.u8() {
            Ok(version) => {
                if version != QR_VERSION {
                    return invalid("unsupported version");
                }
                Ok(())
            },
            Err(e) => Err(e),
        }
    }

    fn pre_key(&mut self) -> (r: Result<Option<(u32, Vec<u8>)>, PairingError>)
        requires
            old(self).wf(),
        ensures
            final(self).wf(),
            match layout::scan_pre_key(old(self).rest()) {
                Scan::Got(v, rest) => r is Ok && pre_key_view(r->Ok_0) == v && final(self).rest()
                    == rest,
                Scan::Bad(why) => r is Err && r->Err_0@ == PairingFault::Invalid(why),
            },
    {
        reveal(layout::scan_pre_key);
        let has: u8 = match self.u8() {
            Ok(has) => has,
            Err(e) => {
                return Err(e);
            },
        };
        if has == 0 {
            return Ok(None);
        }
        if has != 1 {
            let mut why: String = "has_prekey ".to_owned();
            push_decimal(&mut why, has as u64);
            return Err(PairingError::Invalid(why));
        }
        let id: u32 = match self.u32be() {
            Ok(id) => id,
            Err(e) => {
                return Err(e);
            },
        };
        match self.lp(MAX_KEY) {
            Ok(key) => Ok(Some((id, slice_to_vec(key)))),
            Err(e) => Err(e),
        }
    }

    fn signed_key(&mut self, max: usize) -> (r: Result<(u32, Vec<u8>, Vec<u8>), PairingError>)
        requires
            old(self).wf(),
        ensures
            final(self).wf(),
            match layout::scan_signed_key(old(self).rest(), max as nat) {
                Scan::Got(v, rest) => r is Ok && (r->Ok_0.0, r->Ok_0.1@, r->Ok_0.2@) == v
                    && final(self).rest() == rest,
                Scan::Bad(why) => r is Err && r->Err_0@ == PairingFault::Invalid(why),
            },
    {
        reveal(layout::scan_signed_key);
        let id: u32 = match self.u32be() {
            Ok(id) => id,
            Err(e) => {
                return Err(e);
            },
        };
        let key: &[u8] = match self.lp(max) {
            Ok(key) => key,
            Err(e) => {
                return Err(e);
            },
        };
        match self.lp(MAX_KEY) {
            Ok(signature) => Ok((id, slice_to_vec(key), slice_to_vec(signature))),
            Err(e) => Err(e),
        }
    }

    fn address(&mut self) -> (r: Result<([u8; 35], [u8; 32], [u8; 32], u64), PairingError>)
        requires
            old(self).wf(),
        ensures
            final(self).wf(),
            match layout::scan_address(old(self).rest()) {
                Scan::Got(v, rest) => r is Ok && (
                    r->Ok_0.0@,
                    r->Ok_0.1@,
                    r->Ok_0.2@,
                    r->Ok_0.3,
                ) == v && final(self).rest() == rest,
                Scan::Bad(why) => r is Err && r->Err_0@ == PairingFault::Invalid(why),
            },
    {
        reveal(layout::scan_address);
        let onion: [u8; 35] = match self.exact::<35>("onion length") {
            Ok(onion) => onion,
            Err(e) => {
                return Err(e);
            },
        };
        let auth: [u8; 32] = match self.exact::<32>("client auth length") {
            Ok(auth) => auth,
            Err(e) => {
                return Err(e);
            },
        };
        let nonce: [u8; 32] = match self.exact::<32>("nonce length") {
            Ok(nonce) => nonce,
            Err(e) => {
                return Err(e);
            },
        };
        match self.u64be() {
            Ok(expires_at) => Ok((onion, auth, nonce, expires_at)),
            Err(e) => Err(e),
        }
    }

    fn expect_end(&self) -> (r: Result<(), PairingError>)
        requires
            self.wf(),
        ensures
            r is Ok <==> self.rest().len() == 0,
            r matches Err(e) ==> e@ == PairingFault::Invalid("trailing bytes"@),
    {
        if self.pos != self.buf.len() {
            return invalid("trailing bytes");
        }
        Ok(())
    }
}

// ---------------------------------------------------------------------------
// The payload

/// The public half of a persona: a pre-key bundle with its keys and
/// signatures as bytes.
#[derive(Clone, Debug)]
pub struct BundleParts {
    pub identity_key: Vec<u8>,
    pub registration_id: u32,
    pub device_id: u32,
    pub pre_key_id: Option<u32>,
    pub pre_key_public: Option<Vec<u8>>,
    pub signed_pre_key_id: u32,
    pub signed_pre_key_public: Vec<u8>,
    pub signed_pre_key_signature: Vec<u8>,
    pub kyber_pre_key_id: u32,
    pub kyber_pre_key_public: Vec<u8>,
    pub kyber_pre_key_signature: Vec<u8>,
}

/// The only device of a persona.
pub const DEVICE_ID: u32 = 1;

/// Bytes, and a signature that the identity key is to have put on them.
#[derive(Debug)]
pub struct Signed {
    pub message: Vec<u8>,
    pub signature: Vec<u8>,
}

/// What the key library and the address codec find in a payload.
#[derive(Debug)]
pub struct PayloadChecks {
    /// Whether the identity key parses, or why not.
    pub identity: Result<(), String>,
    /// Whether the identity key signed the first of `signatures`, the body.
    pub signature: bool,
    /// Whether it signed the second, the signed pre-key.
    pub signed_pre_key: bool,
    /// Whether it signed the third, the Kyber pre-key.
    pub kyber_pre_key: bool,
    /// Whether the onion's checksum and version hold, or why not.
    pub onion: Result<(), String>,
}

/// The verdict on a payload: expiry first where it counts, then the identity
/// key, the three signatures and the address.
pub open spec fn payload_verdict(
    expires_at: u64,
    now: u64,
    enforce_expiry: bool,
    checks: PayloadChecks,
) -> Result<(), PairingFault> {
    if enforce_expiry && expires_at < now {
        Err(PairingFault::Expired)
    } else if let Err(why) = checks.identity {
        Err(PairingFault::Invalid("identity key: "@ + why@))
    } else if !checks.signature || !checks.signed_pre_key || !checks.kyber_pre_key {
        Err(PairingFault::BadSignature)
    } else if let Err(why) = checks.onion {
        Err(PairingFault::Invalid("onion: "@ + why@))
    } else {
        Ok(())
    }
}

/// What an identity key is to have signed in a payload, each with its signature.
pub open spec fn to_be_signed(p: Payload) -> Seq<(Seq<u8>, Seq<u8>)> {
    seq![
        (layout::signed_bytes(p, Seq::empty()), p.signature),
        (p.signed_pre_key_public, p.signed_pre_key_signature),
        (p.kyber_pre_key_public, p.kyber_pre_key_signature),
    ]
}

/// Whether a bundle is the one that a payload carries.
pub open spec fn bundled(bundle: BundleParts, p: Payload) -> bool {
    &&& bundle.identity_key@ == p.identity_key
    &&& bundle.registration_id == p.registration_id
    &&& bundle.device_id == DEVICE_ID
    &&& match p.pre_key {
        Some((id, key)) => bundle.pre_key_id == Some(id) && bundle.pre_key_public is Some
            && bundle.pre_key_public->0@ == key,
        None => bundle.pre_key_id is None && bundle.pre_key_public is None,
    }
    &&& bundle.signed_pre_key_id == p.signed_pre_key_id
    &&& bundle.signed_pre_key_public@ == p.signed_pre_key_public
    &&& bundle.signed_pre_key_signature@ == p.signed_pre_key_signature
    &&& bundle.kyber_pre_key_id == p.kyber_pre_key_id
    &&& bundle.kyber_pre_key_public@ == p.kyber_pre_key_public
    &&& bundle.kyber_pre_key_signature@ == p.kyber_pre_key_signature
}

impl PairingPayload {
    /// The unsigned payload for a bundle. It carries a one-time pre-key only
    /// where the bundle has both its id and its key.
    pub fn from_bundle(
        bundle: BundleParts,
        onion: [u8; 35],
        client_auth_public: [u8; 32],
        nonce: [u8; 32],
        expires_at: u64,
    ) -> (p: PairingPayload)
        ensures
            p@ == (Payload {
                identity_key: bundle.identity_key@,
                registration_id: bundle.registration_id,
                pre_key: if bundle.pre_key_id is Some && bundle.pre_key_public is Some {
                    Some((bundle.pre_key_id->0, bundle.pre_key_public->0@))
                } else {
                    None
                },
                signed_pre_key_id: bundle.signed_pre_key_id,
                signed_pre_key_public: bundle.signed_pre_key_public@,
                signed_pre_key_signature: bundle.signed_pre_key_signature@,
                kyber_pre_key_id: bundle.kyber_pre_key_id,
                kyber_pre_key_public: bundle.kyber_pre_key_public@,
                kyber_pre_key_signature: bundle.kyber_pre_key_signature@,
                onion: onion@,
                client_auth_public: client_auth_public@,
                nonce: nonce@,
                expires_at,
                signature: Seq::empty(),
            }),
    {
        PairingPayload {
            identity_key: bundle.identity_key,
            registration_id: bundle.registration_id,
            pre_key: match (bundle.pre_key_id, bundle.pre_key_public) {
                (Some(id), Some(key)) => Some((id, key)),
                _ => None,
            },
            signed_pre_key_id: bundle.signed_pre_key_id,
            signed_pre_key_public: bundle.signed_pre_key_public,
            signed_pre_key_signature: bundle.signed_pre_key_signature,
            kyber_pre_key_id: bundle.kyber_pre_key_id,
            kyber_pre_key_public: bundle.kyber_pre_key_public,
            kyber_pre_key_signature: bundle.kyber_pre_key_signature,
            onion,
            client_auth_public,
            nonce,
            expires_at,
            signature: Vec::new(),
        }
    }

    /// The bytes that the identity key signs.
    pub fn signed_body(&self) -> (body: Vec<u8>)
        ensures
            body@ == layout::signed_bytes(self@, Seq::empty()),
    {
        let ghost none = Seq::<u8>::empty();
        let mut w: Writer = Writer(Vec::with_capacity(2560));
        w.head(self);
        w.keys(self);
        w.address(self);
        proof {
            address_prepends(self@, none);
            keys_prepends(self@, layout::address_bytes(self@, none));
            head_prepends(self@, layout::keys_bytes(self@, layout::address_bytes(self@, none)));
            assert(w.out() =~= layout::signed_bytes(self@, none));
        }
        w.0
    }

    /// What the identity key is to have signed, each with its signature: the
    /// body, the signed pre-key and the Kyber pre-key.
    pub fn signatures(&self) -> (pairs: Vec<Signed>)
        ensures
            pairs@.map_values(|s: Signed| (s.message@, s.signature@)) == to_be_signed(self@),
            pairs@.len() == 3,
            pairs@[0].message@ == layout::signed_bytes(self@, Seq::empty()),
            pairs@[0].signature@ == self@.signature,
            pairs@[1].message@ == self@.signed_pre_key_public,
            pairs@[1].signature@ == self@.signed_pre_key_signature,
            pairs@[2].message@ == self@.kyber_pre_key_public,
            pairs@[2].signature@ == self@.kyber_pre_key_signature,
    {
        let mut pairs: Vec<Signed> = Vec::with_capacity(3);
        pairs.push(
            Signed { message: self.signed_body(), signature: slice_to_vec(self.signature.as_slice()) },
        );
        pairs.push(
            Signed {
                message: slice_to_vec(self.signed_pre_key_public.as_slice()),
                signature: slice_to_vec(self.signed_pre_key_signature.as_slice()),
            },
        );
        pairs.push(
            Signed {
                message: slice_to_vec(self.kyber_pre_key_public.as_slice()),
                signature: slice_to_vec(self.kyber_pre_key_signature.as_slice()),
            },
        );
        assert(pairs@.map_values(|s: Signed| (s.message@, s.signature@)) =~= to_be_signed(self@));
        pairs
    }

    /// The payload with its signature.
    pub fn sign(self, signature: Vec<u8>) -> (p: PairingPayload)
        ensures
            p@ == (Payload { signature: signature@, ..self@ }),
    {
        let mut p: PairingPayload = self;
        p.signature = signature;
        p
    }

    /// The payload on the wire.
    pub fn encode(&self) -> (out: Vec<u8>)
        ensures
            out@ == layout::wire_bytes(self@),
    {
        let mut out: Vec<u8> = self.signed_body();
        reveal(layout::lp);
        push_be16(&mut out, self.signature.len() as u16);
        append_bytes(&mut out, self.signature.as_slice());
        proof {
            signed_bytes_prepend(self@, layout::lp(self@.signature));
            assert(out@ =~= layout::signed_bytes(self@, Seq::empty()) + layout::lp(self@.signature));
        }
        out
    }

    /// Strict decoding. Only the structure is looked at: `verify` has the
    /// checks on keys and signatures.
    pub fn decode(bytes: &[u8]) -> (r: Result<PairingPayload, PairingError>)
        ensures
            match layout::scan_payload(bytes@) {
                Ok(p) => r is Ok && r->Ok_0@ == p,
                Err(why) => r is Err && r->Err_0@ == PairingFault::Invalid(why),
            },
    {
        if bytes.len() > MAX_QR_PAYLOAD_BYTES {
            let mut why: String = "payload too large: ".to_owned();
            push_decimal(&mut why, bytes.len() as u64);
            why.append(" > ");
            push_decimal(&mut why, MAX_QR_PAYLOAD_BYTES as u64);
            return Err(PairingError::Invalid(why));
        }
        let mut r: Reader = Reader { buf: bytes, pos: 0 };
        assert(r.rest() =~= bytes@);
        if let Err(e) = r.label() {
            return Err(e);
        }
        let identity_key: &[u8] = match r.lp(MAX_KEY) {
            Ok(v) => v,
            Err(e) => {
                return Err(e);
            },
        };
        let registration_id: u32 = match r.u32be() {
            Ok(v) => v,
            Err(e) => {
                return Err(e);
            },
        };
        let pre_key: Option<(u32, Vec<u8>)> = match r.pre_key() {
            Ok(v) => v,
            Err(e) => {
                return Err(e);
            },
        };
        let spk: (u32, Vec<u8>, Vec<u8>) = match r.signed_key(MAX_KEY) {
            Ok(v) => v,
            Err(e) => {
                return Err(e);
            },
        };
        let kyber: (u32, Vec<u8>, Vec<u8>) = match r.signed_key(MAX_FIELD) {
            Ok(v) => v,
            Err(e) => {
                return Err(e);
            },
        };
        let address: ([u8; 35], [u8; 32], [u8; 32], u64) = match r.address() {
            Ok(v) => v,
            Err(e) => {
                return Err(e);
            },
        };
        let signature: &[u8] = match r.lp(MAX_KEY) {
            Ok(v) => v,
            Err(e) => {
                return Err(e);
            },
        };
        if let Err(e) = r.expect_end() {
            return Err(e);
        }
        Ok(
            PairingPayload {
                identity_key: slice_to_vec(identity_key),
                registration_id,
                pre_key,
                signed_pre_key_id: spk.0,
                signed_pre_key_public: spk.1,
                signed_pre_key_signature: spk.2,
                kyber_pre_key_id: kyber.0,
                kyber_pre_key_public: kyber.1,
                kyber_pre_key_signature: kyber.2,
                onion: address.0,
                client_auth_public: address.1,
                nonce: address.2,
                expires_at: address.3,
                signature: slice_to_vec(signature),
            },
        )
    }

    /// The verdict on the payload, from what the key library and the address
    /// codec find in it. Expiry counts where the payload is scanned or
    /// pasted, not where an intro brings it later.
    pub fn verify(&self, now_epoch_seconds: u64, enforce_expiry: bool, checks: &PayloadChecks) -> (r:
        Result<(), PairingError>)
        ensures
            match payload_verdict(self.expires_at, now_epoch_seconds, enforce_expiry, *checks) {
                Ok(_) => r is Ok,
                Err(why) => r is Err && r->Err_0@ == why,
            },
    {
        if enforce_expiry && self.expires_at < now_epoch_seconds {
            return Err(PairingError::Expired);
        }
        if let Err(why) = &checks.identity {
            return Err(PairingError::Invalid("identity key: ".to_owned().concat(why.as_str())));
        }
        if !checks.signature {
            return Err(PairingError::BadSignature);
        }
        if !checks.signed_pre_key {
            return Err(PairingError::BadSignature);
        }
        if !checks.kyber_pre_key {
            return Err(PairingError::BadSignature);
        }
        if let Err(why) = &checks.onion {
            return Err(PairingError::Invalid("onion: ".to_owned().concat(why.as_str())));
        }
        Ok(())
    }

    /// The bundle that the payload carries, for the side that accepts.
    pub fn to_bundle(&self) -> (bundle: BundleParts)
        ensures
            bundled(bundle, self@),
    {
        let (pre_key_id, pre_key_public) = match &self.pre_key {
            Some((id, key)) => (Some(*id), Some(slice_to_vec(key.as_slice()))),
            None => (None, None),
        };
        BundleParts {
            identity_key: slice_to_vec(self.identity_key.as_slice()),
            registration_id: self.registration_id,
            device_id: DEVICE_ID,
            pre_key_id,
            pre_key_public,
            signed_pre_key_id: self.signed_pre_key_id,
            signed_pre_key_public: slice_to_vec(self.signed_pre_key_public.as_slice()),
            signed_pre_key_signature: slice_to_vec(self.signed_pre_key_signature.as_slice()),
            kyber_pre_key_id: self.kyber_pre_key_id,
            kyber_pre_key_public: slice_to_vec(self.kyber_pre_key_public.as_slice()),
            kyber_pre_key_signature: slice_to_vec(self.kyber_pre_key_signature.as_slice()),
        }
    }
}

proof fn head_prepends(p: Payload, rest: Seq<u8>)
    ensures
        layout::head_bytes(p, rest) == layout::head_bytes(p, Seq::empty()) + rest,
{
    let none = Seq::<u8>::empty();
    assert(layout::pre_key_bytes(p, rest) =~= layout::pre_key_bytes(p, none) + rest);
    assert(layout::head_bytes(p, rest) =~= layout::head_bytes(p, none) + rest);
}

proof fn keys_prepends(p: Payload, rest: Seq<u8>)
    ensures
        layout::keys_bytes(p, rest) == layout::keys_bytes(p, Seq::empty()) + rest,
{
    assert(layout::keys_bytes(p, rest) =~= layout::keys_bytes(p, Seq::empty()) + rest);
}

proof fn address_prepends(p: Payload, rest: Seq<u8>)
    ensures
        layout::address_bytes(p, rest) == layout::address_bytes(p, Seq::empty()) + rest,
{
    assert(layout::address_bytes(p, rest) =~= layout::address_bytes(p, Seq::empty()) + rest);
}

proof fn signed_bytes_prepend(p: Payload, rest: Seq<u8>)
    ensures
        layout::signed_bytes(p, rest) == layout::signed_bytes(p, Seq::empty()) + rest,
{
    let none = Seq::<u8>::empty();
    let a = layout::address_bytes(p, none);
    let k = layout::keys_bytes(p, none);
    let h = layout::head_bytes(p, none);
    address_prepends(p, rest);
    keys_prepends(p, a);
    keys_prepends(p, a + rest);
    head_prepends(p, k + a);
    head_prepends(p, k + (a + rest));
    assert(h + (k + (a + rest)) =~= h + (k + a) + rest);
}

// ---------------------------------------------------------------------------
// The QR matrix

/// A QR code: `size` rows of `size` modules.
#[derive(Clone, Debug)]
pub struct QrMatrix {
    pub size: u32,
    /// Row by row, 1 for a dark module and 0 for a light one.
    pub modules: Vec<u8>,
}

/// The QR code that `qrcode::QrCode::new` makes of `data`: its width and
/// which modules are dark, row by row, or the text of its error.
pub uninterp spec fn qr_code_of(data: Seq<u8>) -> Result<(nat, Seq<bool>), Seq<char>>;

/// `qrcode::QrCode::new`: the smallest QR code of medium error correction
/// that holds `data`, or an error where none does. The code is square, and
/// the widest, version 40, has 177 modules a side.
#[verifier::external_body]
fn qr_code(data: &[u8]) -> (r: Result<(usize, Vec<bool>), String>)
    ensures
        match qr_code_of(data@) {
            Ok((width, dark)) => r is Ok && r->Ok_0.0 == width && r->Ok_0.1@ == dark && dark.len()
                == width * width && width <= 177,
            Err(why) => r is Err && r->Err_0@ == why,
        },
{
    match qrcode::QrCode::new(data) {
        Ok(code) => {
            let colors = code.to_colors().into_iter();
            Ok((code.width(), colors.map(|c| match c {
                qrcode::Color::Dark => true,
                qrcode::Color::Light => false,
            }).collect()))
        },
        Err(e) => Err(e.to_string()),
    }
}

/// One byte per module: 1 for dark, 0 for light.
pub open spec fn module_bytes(dark: Seq<bool>) -> Seq<u8> {
    Seq::new(
        dark.len(),
        |i: int|
            if dark[i] {
                1u8
            } else {
                0u8
            },
    )
}

/// The matrix for a code `width` modules wide.
pub fn matrix_of(width: u32, dark: &[bool]) -> (m: QrMatrix)
    ensures
        m.size == width,
        m.modules@ == module_bytes(dark@),
{
    let mut modules: Vec<u8> = Vec::new();
    let mut i: usize = 0;
    while i < dark.len()
        invariant
            i <= dark.len(),
            modules@ == module_bytes(dark@.take(i as int)),
        decreases dark.len() - i,
    {
        if dark[i] {
            modules.push(1);
        } else {
            modules.push(0);
        }
        i = i + 1;
        assert(modules@ =~= module_bytes(dark@.take(i as int)));
    }
    assert(dark@.take(i as int) =~= dark@);
    QrMatrix { size: width, modules }
}

/// The QR code of a payload, for clients to draw.
pub fn render_qr_matrix(payload: &[u8]) -> (r: Result<QrMatrix, PairingError>)
    ensures
        match qr_code_of(payload@) {
            Ok((width, dark)) => r is Ok && r->Ok_0.size == width && r->Ok_0.modules@
                == module_bytes(dark) && r->Ok_0.modules@.len() == r->Ok_0.size * r->Ok_0.size,
            Err(why) => r is Err && r->Err_0@ == PairingFault::Invalid("qr encode: "@ + why),
        },
{
    match qr_code(payload) {
        Ok((width, dark)) => Ok(matrix_of(width as u32, dark.as_slice())),
        Err(why) => Err(PairingError::Invalid("qr encode: ".to_owned().concat(why.as_str()))),
    }
}

// ---------------------------------------------------------------------------
// The one-time code

/// What `bs58::encode` writes for a byte string.
pub uninterp spec fn base58_of(bytes: Seq<u8>) -> Seq<char>;

/// What `bs58::decode` reads in a text, or the text of its error.
pub uninterp spec fn base58_read(text: Seq<char>) -> Result<Seq<u8>, Seq<char>>;

/// `bs58::encode`: Base58 text in the Bitcoin alphabet, which has no white
/// space in it. `bs58::decode` reads the same bytes back.
#[verifier::external_body]
fn base58_encode(bytes: &[u8]) -> (text: String)
    ensures
        text@ == base58_of(bytes@),
        base58_read(text@) is Ok && base58_read(text@)->Ok_0 == bytes@,
        forall|i: int| 0 <= i < text@.len() ==> !text::is_white(#[trigger] text@[i]),
{
    bs58::encode(bytes).into_string()
}

/// `bs58::decode`: the bytes that a text in the Bitcoin alphabet stands for,
/// or an error where a character is not in the alphabet.
#[verifier::external_body]
fn base58_decode(text: &str) -> (r: Result<Vec<u8>, String>)
    ensures
        match base58_read(text@) {
            Ok(bytes) => r is Ok && r->Ok_0@ == bytes,
            Err(why) => r is Err && r->Err_0@ == why,
        },
{
    bs58::decode(text).into_vec().map_err(|e| e.to_string())
}

/// The payload as text for pasting. Decoding the text gives the payload
/// back.
pub fn encode_code(qr_bytes: &[u8]) -> (code: String)
    ensures
        code@ == base58_of(qr_bytes@),
        base58_read(text::trimmed(code@)) == Ok::<Seq<u8>, Seq<char>>(qr_bytes@),
{
    let code: String = base58_encode(qr_bytes);
    proof {
        text::trimmed_is_idle(code@);
    }
    code
}

/// What a Base58 reading of pasted text means for the pairing.
pub fn code_outcome(read: Result<Vec<u8>, String>) -> (r: Result<Vec<u8>, PairingError>)
    ensures
        match read {
            Ok(bytes) => r is Ok && r->Ok_0@ == bytes@,
            Err(why) => r is Err && r->Err_0@ == PairingFault::Invalid("base58: "@ + why@),
        },
{
    match read {
        Ok(bytes) => Ok(bytes),
        Err(why) => Err(PairingError::Invalid("base58: ".to_owned().concat(why.as_str()))),
    }
}

/// The payload in pasted text. White space around the text is ignored.
pub fn decode_code(code: &str) -> (r: Result<Vec<u8>, PairingError>)
    ensures
        match base58_read(text::trimmed(code@)) {
            Ok(bytes) => r is Ok && r->Ok_0@ == bytes,
            Err(why) => r is Err && r->Err_0@ == PairingFault::Invalid("base58: "@ + why),
        },
{
    code_outcome(base58_decode(trim(code)))
}

// ---------------------------------------------------------------------------
// Laws

/// The signature covers every field but itself: two payloads with the same signed
/// bytes have all other fields in common.
pub proof fn the_signature_covers_every_field(p: Payload, q: Payload)
    requires
        layout::fits_wire(p),
        layout::fits_wire(q),
        layout::signed_bytes(p, Seq::empty()) == layout::signed_bytes(q, Seq::empty()),
    ensures
        q == (Payload { signature: q.signature, ..p }),
{
    let r = Payload { signature: p.signature, ..q };
    signed_bytes_prepend(p, layout::lp(p.signature));
    signed_bytes_prepend(q, layout::lp(p.signature));
    assert(layout::head_bytes(r, Seq::empty()) == layout::head_bytes(q, Seq::empty()));
    assert(layout::wire_bytes(r) == layout::signed_bytes(q, layout::lp(p.signature)));
    layout::decoding_undoes_encoding(p);
    layout::decoding_undoes_encoding(r);
}

/// The signed bytes are the front of the payload; what follows them is the
/// signature behind its length.
pub proof fn the_signature_ends_the_payload(p: Payload)
    requires
        p.signature.len() <= layout::MAX_KEY,
    ensures
        layout::wire_bytes(p) == layout::signed_bytes(p, Seq::empty()) + seq![
            0u8,
            p.signature.len() as u8,
        ] + p.signature,
{
    signed_bytes_prepend(p, layout::lp(p.signature));
    reveal(layout::lp);
    assert(layout::lp(p.signature) =~= seq![0u8, p.signature.len() as u8] + p.signature);
    assert(layout::wire_bytes(p) =~= layout::signed_bytes(p, Seq::empty()) + seq![
        0u8,
        p.signature.len() as u8,
    ] + p.signature);
}

/// A payload passes exactly if the identity key parses, has signed the body and
/// both pre-keys, the address holds, and, where expiry counts, its time is not
/// over. A payload in its last second still passes. A signature that is missing is
/// never reported as anything else by a payload whose key parses in time.
pub proof fn every_check_counts(expires_at: u64, now: u64, enforce_expiry: bool, checks: PayloadChecks)
    ensures
        ({
            let verdict = payload_verdict(expires_at, now, enforce_expiry, checks);
            let late = enforce_expiry && now > expires_at;
            &&& verdict is Ok <==> !late && checks.identity is Ok && checks.signature
                && checks.signed_pre_key && checks.kyber_pre_key && checks.onion is Ok
            &&& late <==> verdict is Err && verdict->Err_0 is Expired
            &&& !late && checks.identity is Ok && !(checks.signature && checks.signed_pre_key
                && checks.kyber_pre_key) <==> verdict is Err && verdict->Err_0 is BadSignature
        }),
{
}

/// A module is drawn dark exactly if it is dark.
pub proof fn dark_modules_are_ones(dark: Seq<bool>, i: int)
    requires
        0 <= i < dark.len(),
    ensures
        module_bytes(dark).len() == dark.len(),
        module_bytes(dark)[i] == 1 <==> dark[i],
        module_bytes(dark)[i] == 0 <==> !dark[i],
{
}

/// A payload ends with its address, client key, nonce, expiry and signature.
pub proof fn payloads_end_with_their_signature(p: Payload)
    requires
        layout::fits_wire(p),
    ensures
        ({
            let w = layout::wire_bytes(p);
            let end = w.len() - p.signature.len();
            &&& w.skip(end) == p.signature
            &&& w.subrange(end - 10, end - 2) == bytes::be64(p.expires_at)
            &&& w.subrange(end - 42, end - 10) == p.nonce
            &&& w.subrange(end - 76, end - 44) == p.client_auth_public
            &&& w.subrange(end - 113, end - 78) == p.onion
        }),
{
    let w = layout::wire_bytes(p);
    let none = Seq::<u8>::empty();
    let tail = layout::address_bytes(p, layout::lp(p.signature));
    let h = layout::head_bytes(p, none);
    let k = layout::keys_bytes(p, none);
    keys_prepends(p, tail);
    head_prepends(p, k + tail);
    assert(w =~= (h + k) + tail);
    let front = (h + k).len() as int;
    let end = w.len() - p.signature.len();
    the_address_stands_in_order(p);
    assert(w.skip(end) =~= tail.skip(115));
    assert(w.subrange(end - 10, end - 2) =~= tail.subrange(105, 113));
    assert(w.subrange(end - 42, end - 10) =~= tail.subrange(73, 105));
    assert(w.subrange(end - 76, end - 44) =~= tail.subrange(39, 71));
    assert(w.subrange(end - 113, end - 78) =~= tail.subrange(2, 37));
}

proof fn the_address_stands_in_order(p: Payload)
    requires
        layout::fits_wire(p),
    ensures
        ({
            let tail = layout::address_bytes(p, layout::lp(p.signature));
            &&& tail.len() == 115 + p.signature.len()
            &&& tail.skip(115) == p.signature
            &&& tail.subrange(105, 113) == bytes::be64(p.expires_at)
            &&& tail.subrange(73, 105) == p.nonce
            &&& tail.subrange(39, 71) == p.client_auth_public
            &&& tail.subrange(2, 37) == p.onion
        }),
{
    reveal(layout::lp);
    let tail = layout::address_bytes(p, layout::lp(p.signature));
    assert(tail.skip(115) =~= p.signature);
    assert(tail.subrange(105, 113) =~= bytes::be64(p.expires_at));
    assert(tail.subrange(73, 105) =~= p.nonce);
    assert(tail.subrange(39, 71) =~= p.client_auth_public);
    assert(tail.subrange(2, 37) =~= p.onion);
}

/// Three things are to be signed: everything in front of the payload's signature,
/// and the two pre-keys, each with the signature that the payload gives for it.
pub proof fn body_and_pre_keys_are_signed(p: Payload)
    requires
        p.signature.len() <= layout::MAX_KEY,
    ensures
        to_be_signed(p).len() == 3,
        to_be_signed(p)[0].1 == p.signature,
        to_be_signed(p)[0].0 == layout::wire_bytes(p).take(
            layout::wire_bytes(p).len() - 2 - p.signature.len(),
        ),
        to_be_signed(p)[1] == (p.signed_pre_key_public, p.signed_pre_key_signature),
        to_be_signed(p)[2] == (p.kyber_pre_key_public, p.kyber_pre_key_signature),
{
    the_signature_ends_the_payload(p);
    assert(to_be_signed(p)[0].0 =~= layout::wire_bytes(p).take(
        layout::wire_bytes(p).len() - 2 - p.signature.len(),
    ));
}

} // verus!
