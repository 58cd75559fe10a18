//! Static operational bounds.
//!
//! Every numeric cap on data that a peer or a caller supplies is declared
//! here and nowhere else. Temporal knobs and structural constants stay with
//! their modules.

pub mod attach;
pub mod drain;
pub mod ffi;
pub mod media;
pub mod orphan;
pub mod pairing;
pub mod queue;
pub mod rate;
pub mod store;
pub mod tombstones;
pub mod transport;
