//! The client interface: flat errors, events, and values without keys or
//! handles.

use vstd::prelude::*;

use crate::bytes::to_array;
use crate::engine::{self, EngineError};
use crate::pairing::PairingFailure;
use crate::store::{hex_decode, StoreError};
use crate::text;
use crate::transport::TransportStatus;

pub mod features;
pub mod messaging;
pub mod pairing;

verus! {

/// An error for a client: its message.
#[derive(Debug)]
pub enum CoreError {
    Transport(String),
    Other(String),
}

/// What a `CoreError` says.
pub enum CoreFault {
    Transport(Seq<char>),
    Other(Seq<char>),
}

impl View for CoreError {
    type V = CoreFault;

    open spec fn view(&self) -> CoreFault {
        match self {
            CoreError::Transport(why) => CoreFault::Transport(why@),
            CoreError::Other(why) => CoreFault::Other(why@),
        }
    }
}

impl CoreError {
    /// The message for a person.
    pub fn message(&self) -> (text: String)
        ensures
            text@ == match self@ {
                CoreFault::Transport(why) => "transport: "@ + why,
                CoreFault::Other(why) => why,
            },
    {
        match self {
            CoreError::Transport(why) => "transport: ".to_owned().concat(why.as_str()),
            CoreError::Other(why) => why.clone(),
        }
    }

    /// An engine error for a client.
    pub fn of_engine(e: &EngineError) -> (out: CoreError)
        ensures
            out@ == CoreFault::Other(engine::error_text(e@)),
    {
        CoreError::Other(e.message())
    }

    /// A pairing failure for a client.
    pub fn of_pairing(e: &PairingFailure) -> (out: CoreError)
        ensures
            out@ == CoreFault::Other(crate::pairing::failure_text(e@)),
    {
        CoreError::Other(e.message())
    }
}

/// What the library tells a client unasked.
#[derive(Clone, Debug)]
pub enum SchatEvent {
    Transport(TransportStatus),
    /// A frame that asks for attention has arrived. It says no more.
    Arrival { service_id: String },
}

/// Who takes the events.
pub trait SchatEventListener {
    fn on_event(&self, event: SchatEvent);
}

/// Refuses while the vault is locked.
pub fn unlocked(locked: bool) -> (r: Result<(), CoreError>)
    ensures
        r is Ok <==> !locked,
        r matches Err(e) ==> e@ == CoreFault::Other("vault is locked"@),
{
    if locked {
        return Err(CoreError::Other("vault is locked".to_owned()));
    }
    Ok(())
}

/// Reads an id of `N` bytes; `wrong` is the message for another length.
fn hex_id_of<const N: usize>(s: &str, wrong: &str) -> (r: Result<[u8; N], CoreError>)
    ensures
        r is Ok <==> text::is_hex(s@) && s@.len() == 2 * N,
        r matches Ok(id) ==> id@ == text::unhex(s@),
        r matches Err(e) ==> e@ == CoreFault::Other(
            if text::is_hex(s@) {
                wrong@
            } else {
                "invalid hex"@
            },
        ),
{
    let v: Vec<u8> = match hex_decode(s) {
        Ok(v) => v,
        Err(StoreError::Corrupt(why)) => {
            return Err(CoreError::Other(why));
        },
    };
    match to_array::<N>(v.as_slice()) {
        Some(id) => Ok(id),
        None => Err(CoreError::Other(wrong.to_owned())),
    }
}

/// Reads an id of 16 bytes.
pub fn hex_id16(s: &str) -> (r: Result<[u8; 16], CoreError>)
    ensures
        r is Ok <==> text::is_hex(s@) && s@.len() == 32,
        r matches Ok(id) ==> id@ == text::unhex(s@),
        r matches Err(e) ==> e@ == CoreFault::Other(
            if text::is_hex(s@) {
                "expected a 16-byte hex id"@
            } else {
                "invalid hex"@
            },
        ),
{
    hex_id_of::<16>(s, "expected a 16-byte hex id")
}

/// Reads an id of 32 bytes.
pub fn hex_id32(s: &str) -> (r: Result<[u8; 32], CoreError>)
    ensures
        r is Ok <==> text::is_hex(s@) && s@.len() == 64,
        r matches Ok(id) ==> id@ == text::unhex(s@),
        r matches Err(e) ==> e@ == CoreFault::Other(
            if text::is_hex(s@) {
                "expected a 32-byte hex id"@
            } else {
                "invalid hex"@
            },
        ),
{
    hex_id_of::<32>(s, "expected a 32-byte hex id")
}

/// An id that a client was shown can be handed back: it reads as the same id.
pub proof fn shown_ids_read_back(id: Seq<u8>)
    requires
        id.len() == 16,
    ensures
        text::is_hex(text::hex(id)),
        text::hex(id).len() == 32,
        text::unhex(text::hex(id)) == id,
{
    text::hex_reads_back(id);
}

/// Takes a key from a client.
pub fn unlock_key(dek: &[u8]) -> (r: Result<[u8; 32], CoreError>)
    ensures
        r is Ok <==> dek@.len() == 32,
        r matches Ok(key) ==> key@ == dek@,
        r matches Err(e) ==> e@ == CoreFault::Other("DEK must be 32 bytes"@),
{
    match to_array::<32>(dek) {
        Some(key) => Ok(key),
        None => Err(CoreError::Other("DEK must be 32 bytes".to_owned())),
    }
}

} // verus!
