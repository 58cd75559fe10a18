//! Pairing and frame ingest as a client sees them.

use vstd::prelude::*;

use crate::ffi::{CoreError, CoreFault};
use crate::pairing;
use crate::pairing::accept::Accepted;
use crate::pairing::ingest::Ingest;
use crate::pairing::offer::Offer;
use crate::pairing::qr;
use crate::pairing::requests::RequestInfo;

verus! {

/// An offer for a client.
#[derive(Clone, Debug)]
pub struct PairingOfferFfi {
    /// The signed payload, to be drawn.
    pub qr_bytes: Vec<u8>,
    /// The same payload as text.
    pub code: String,
    pub onion: String,
    pub expires_at: u64,
}

/// A QR code for a client.
#[derive(Clone, Debug)]
pub struct QrMatrixFfi {
    pub size: u32,
    /// Row by row, 1 for a dark module.
    pub modules: Vec<u8>,
}

/// An accepted offer for a client.
#[derive(Clone, Debug)]
pub struct AcceptedFfi {
    pub rel_id: String,
    /// The safety code.
    pub sas: String,
    pub peer_onion: String,
    pub onion: String,
}

/// A request for a client.
#[derive(Clone, Debug)]
pub struct RequestInfoFfi {
    pub rel_id: String,
    pub sas: String,
    pub peer_onion: String,
    pub created_at: u64,
}

/// The state of a session for a client.
#[derive(Clone, Copy, Debug, PartialEq, Eq, Structural)]
pub enum SessionStateFfi {
    Missing,
    Active,
    Broken,
}

/// What became of a frame, for a client.
#[derive(Clone, Debug)]
pub enum IngestFfi {
    RequestReceived { rel_id: String, sas: String, plaintext: Vec<u8> },
    Message { rel_id: String, plaintext: Vec<u8> },
    Duplicate,
    SessionBroken { rel_id: String, reason: String },
    Dropped,
    /// The vault is locked: the frame waits.
    Queued,
}

/// Draws a payload.
pub fn render_qr_matrix(payload: &[u8]) -> (r: Result<QrMatrixFfi, CoreError>)
    ensures
        match qr::qr_code_of(payload@) {
            Ok((width, dark)) => r is Ok && r->Ok_0.size == width && r->Ok_0.modules@
                == qr::module_bytes(dark),
            Err(why) => r is Err && r->Err_0@ == CoreFault::Other(
                "invalid pairing payload: "@ + ("qr encode: "@ + why),
            ),
        },
{
    match qr::render_qr_matrix(payload) {
        Ok(m) => Ok(QrMatrixFfi { size: m.size, modules: m.modules }),
        Err(e) => Err(CoreError::Other(e.message())),
    }
}

/// An offer for a client. The service stays inside.
pub fn offer_ffi(offer: Offer) -> (out: PairingOfferFfi)
    ensures
        out.qr_bytes == offer.qr_bytes,
        out.code == offer.code,
        out.onion == offer.onion,
        out.expires_at == offer.expires_at,
{
    PairingOfferFfi {
        qr_bytes: offer.qr_bytes,
        code: offer.code,
        onion: offer.onion,
        expires_at: offer.expires_at,
    }
}

/// An accepted offer for a client.
pub fn accepted_ffi(accepted: Accepted) -> (out: AcceptedFfi)
    ensures
        out.rel_id == accepted.rel_id,
        out.sas == accepted.sas,
        out.peer_onion == accepted.peer_onion,
        out.onion == accepted.onion,
{
    AcceptedFfi {
        rel_id: accepted.rel_id,
        sas: accepted.sas,
        peer_onion: accepted.peer_onion,
        onion: accepted.onion,
    }
}

/// A request for a client.
pub fn request_ffi(r: RequestInfo) -> (out: RequestInfoFfi)
    ensures
        out.rel_id == r.rel_id,
        out.sas == r.sas,
        out.peer_onion == r.peer_onion,
        out.created_at == r.created_at,
{
    RequestInfoFfi {
        rel_id: r.rel_id,
        sas: r.sas,
        peer_onion: r.peer_onion,
        created_at: r.created_at,
    }
}

/// What became of a frame, for a client: `None` stands for a frame that came
/// while the vault was locked.
pub fn ingest_ffi(outcome: Option<Ingest>) -> (out: IngestFfi)
    ensures
        match outcome {
            None => out is Queued,
            Some(Ingest::RequestReceived { rel_id, sas, plaintext }) => out
                == (IngestFfi::RequestReceived { rel_id, sas, plaintext }),
            Some(Ingest::Message { rel_id, plaintext }) => out == (IngestFfi::Message {
                rel_id,
                plaintext,
            }),
            Some(Ingest::Duplicate) => out is Duplicate,
            Some(Ingest::SessionBroken { rel_id, reason }) => out == (IngestFfi::SessionBroken {
                rel_id,
                reason,
            }),
            Some(Ingest::Dropped) => out is Dropped,
        },
{
    match outcome {
        None => IngestFfi::Queued,
        Some(Ingest::RequestReceived { rel_id, sas, plaintext }) => {
            IngestFfi::RequestReceived { rel_id, sas, plaintext }
        },
        Some(Ingest::Message { rel_id, plaintext }) => IngestFfi::Message { rel_id, plaintext },
        Some(Ingest::Duplicate) => IngestFfi::Duplicate,
        Some(Ingest::SessionBroken { rel_id, reason }) => {
            IngestFfi::SessionBroken { rel_id, reason }
        },
        Some(Ingest::Dropped) => IngestFfi::Dropped,
    }
}

} // verus!
