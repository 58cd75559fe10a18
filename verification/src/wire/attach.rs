//! Attachment payloads.

use vstd::prelude::*;

verus! {

pub const CLASS_IMAGE: u8 = 1;

pub const CLASS_VIDEO: u8 = 2;

/// The receiver may look at it once.
pub const FLAG_VIEW_ONCE: u8 = 1;

/// Bytes of an attachment.
pub const MAX_ATTACH: u32 = 26_214_400;

/// Bytes of data in one chunk.
pub const CHUNK_DATA_MAX: usize = 27_000;

/// The head of a transfer. The id of its envelope is the transfer's id.
#[derive(Clone, Debug)]
pub struct AttachHead {
    pub media_class: u8,
    pub mime_hint: String,
    pub orig_ext: String,
    pub uncompressed_n: u32,
    pub chunk_count: u16,
    pub chunk_bucket: u16,
    pub content_sha256: [u8; 32],
    pub caption: String,
    pub flags: u8,
}

/// A head, and the bytes where they ride along.
#[derive(Clone, Debug)]
pub struct AttachHeadPayload {
    pub head: AttachHead,
    pub inline: Option<Vec<u8>>,
}

/// One chunk of a transfer, or a pad that hides how many there are.
#[derive(Clone, Debug)]
pub struct AttachChunk {
    pub head_id: [u8; 16],
    pub index: u16,
    pub pad: bool,
    pub data: Vec<u8>,
}

} // verus!
