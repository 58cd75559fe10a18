//! Core of a two-party messenger: pairing, policy, media, attachments and
//! the decisions of the messaging engine, each stated in a contract.

use vstd::prelude::*;

pub mod attach;
pub mod bytes;
pub mod caps;
pub mod cli;
pub mod close;
pub mod engine;
pub mod ffi;
pub mod limits;
pub mod media;
pub mod messages;
pub mod pairing;
pub mod policy;
pub mod presence;
pub mod profile;
pub mod ratelimit;
pub mod store;
pub mod text;
pub mod transport;
pub mod util;
pub mod wire;

pub use crate::ffi::features::{
    AttachmentSpecFfi, PackCreatedFfi, PackInfoFfi, PolicyFfi, ProfilePairFfi,
};
pub use crate::ffi::messaging::{EngineEventFfi, MessageRowFfi, PresenceFfi};
pub use crate::ffi::pairing::{
    render_qr_matrix, AcceptedFfi, IngestFfi, PairingOfferFfi, QrMatrixFfi, RequestInfoFfi,
    SessionStateFfi,
};
pub use crate::ffi::{CoreError, SchatEvent, SchatEventListener};

verus! {

/// Liveness probe.
pub fn ping() -> (reply: String)
    ensures
        reply@ == "pong"@,
{
    "pong".to_owned()
}

} // verus!
