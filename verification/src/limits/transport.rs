//! Transport ingress and egress budgets.

use vstd::prelude::*;

verus! {

/// Simultaneous inbound connections per hosted service.
pub const MAX_CONNECTIONS: usize = 32;

/// Listen backlog per hosted service.
pub const ACCEPT_BACKLOG: u32 = 50;

/// Per-connection reassembly buffer while a record is in flight.
pub const RECV_BUFFER_BYTES: usize = 524_288;

/// Ceiling of an intro (a pairing payload) on the wire.
pub const MAX_INTRO_BYTES: usize = 8192;

/// A connection that sends more packets than this is closed.
pub const MAX_CONN_PACKETS: u32 = 1025;

/// A connection that sends more bytes than this is closed: 44 MiB and one
/// intro.
pub const MAX_CONN_BYTES: u64 = 46_145_536;

} // verus!
