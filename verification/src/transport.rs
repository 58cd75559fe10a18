//! The transport's status as values.

use vstd::prelude::*;

verus! {

/// What the Tor daemon is doing.
#[derive(Clone, Debug, PartialEq, Eq)]
pub enum TorState {
    Off,
    Starting,
    Bootstrapping { pct: u8 },
    Online,
    Degraded { reason: String },
    Dead { reason: String },
}

/// A hosted service.
#[derive(Clone, Debug, PartialEq, Eq)]
pub struct ServiceStatus {
    pub service_id: String,
    /// The name of its state.
    pub state: String,
    pub onion: Option<String>,
}

/// The status of the transport.
#[derive(Clone, Debug, PartialEq, Eq)]
pub struct TransportStatus {
    pub tor: TorState,
    pub kill_switch: bool,
    /// The name of the onion mode.
    pub mode: String,
    /// Records that wait to be sent.
    pub outbox: u64,
    /// Frames that wait to be read.
    pub inbox: u64,
    pub last_error: Option<String>,
    pub services: Vec<ServiceStatus>,
}

} // verus!
