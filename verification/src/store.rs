//! Ledger rows as values.

use vstd::prelude::*;

use crate::text::{self, hex_bytes};

verus! {

/// What is stored cannot be what was written.
#[derive(Debug)]
pub enum StoreError {
    Corrupt(String),
}

/// Reads hexadecimal text.
pub fn hex_decode(s: &str) -> (r: Result<Vec<u8>, StoreError>)
    ensures
        r is Ok <==> text::is_hex(s@),
        r matches Ok(b) ==> b@ == text::unhex(s@),
        r matches Err(StoreError::Corrupt(why)) ==> why@ == "invalid hex"@,
{
    match hex_bytes(s) {
        Some(b) => Ok(b),
        None => Err(StoreError::Corrupt("invalid hex".to_owned())),
    }
}

/// Who wrote a message.
#[derive(Clone, Copy, Debug, PartialEq, Eq, Structural)]
pub enum Direction {
    In,
    Out,
}

/// How far a message has come.
#[derive(Clone, Copy, Debug, PartialEq, Eq, Structural)]
pub enum DeliveryState {
    Queued,
    Transmitted,
    Acknowledged,
    Failed,
    Received,
}

impl DeliveryState {
    /// The state's name.
    pub open spec fn name(self) -> Seq<char> {
        match self {
            DeliveryState::Queued => "queued"@,
            DeliveryState::Transmitted => "transmitted"@,
            DeliveryState::Acknowledged => "acknowledged"@,
            DeliveryState::Failed => "failed"@,
            DeliveryState::Received => "received"@,
        }
    }

    /// The state's name.
    pub fn as_str(self) -> (name: &'static str)
        ensures
            name@ == self.name(),
    {
        match self {
            DeliveryState::Queued => "queued",
            DeliveryState::Transmitted => "transmitted",
            DeliveryState::Acknowledged => "acknowledged",
            DeliveryState::Failed => "failed",
            DeliveryState::Received => "received",
        }
    }
}

/// A message as the ledger holds it.
#[derive(Clone, Debug)]
pub struct MessageRow {
    pub msg_id: [u8; 16],
    pub rel_id: String,
    pub direction: Direction,
    pub app_seq: u64,
    pub sent_at: u64,
    pub received_at: Option<u64>,
    pub env_type: u8,
    pub ref_id: Option<[u8; 16]>,
    pub payload: Vec<u8>,
    pub state: DeliveryState,
    pub expires_at: Option<u64>,
    pub created_at: u64,
    pub edited: bool,
    pub tombstone: bool,
    pub read_at: Option<u64>,
    pub edit_count: u32,
    pub last_edit_seq: u64,
}

} // verus!
