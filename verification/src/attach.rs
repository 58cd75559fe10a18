//! Attachments: planning a transfer, putting it together again, and the caps
//! on chunks that arrive before their head.

use vstd::prelude::*;
use vstd::slice::{slice_subrange, slice_to_vec};

use crate::bytes::{append_bytes, same_bytes};
use crate::engine::{EngineError, EngineEvent, EngineFault, EventView};
use crate::limits::attach::{BUCKET_GRANULARITY, INLINE_MAX};
use crate::limits::orphan::{
    MAX_ORPHAN_BYTES_PER_HEAD, MAX_ORPHAN_BYTES_PER_REL, MAX_ORPHAN_CHUNKS_PER_HEAD,
    MAX_ORPHAN_CHUNKS_PER_REL,
};
use crate::media::{self, MediaError, MediaFault};
use crate::media::photo::{self, strip_and_reencode_image};
use crate::media::sniff::{sniff, MediaKind};
use crate::store::Direction;
use crate::util::{self, sha256};
use crate::wire::attach::{
    AttachChunk, AttachHead, AttachHeadPayload, CHUNK_DATA_MAX, CLASS_IMAGE, CLASS_VIDEO,
    FLAG_VIEW_ONCE, MAX_ATTACH,
};

verus! {

/// One outbound chunk: data, or a pad that fills the bucket.
#[derive(Clone, Debug, PartialEq, Eq)]
pub enum ChunkOut {
    Data(Vec<u8>),
    Pad,
}

/// The data of a chunk; `None` for a pad.
pub open spec fn chunk_data(c: ChunkOut) -> Option<Seq<u8>> {
    match c {
        ChunkOut::Data(d) => Some(d@),
        ChunkOut::Pad => None,
    }
}

/// A planned transfer.
#[derive(Clone, Debug)]
pub struct AttachPlan {
    pub head: AttachHead,
    pub chunks: Vec<ChunkOut>,
}

/// What is to be sent.
#[derive(Clone, Debug)]
pub struct AttachmentSpec {
    pub media_class: u8,
    pub mime_hint: String,
    pub orig_ext: String,
    pub bytes: Vec<u8>,
    pub caption: String,
    pub view_once: bool,
}

// ---------------------------------------------------------------------------
// Planning

/// How many chunks so many bytes take.
pub open spec fn piece_count(len: nat) -> nat {
    ((len + CHUNK_DATA_MAX - 1) / CHUNK_DATA_MAX as int) as nat
}

/// The data of chunk `i`: all chunks are full but the last.
pub open spec fn piece(bytes: Seq<u8>, i: int) -> Seq<u8> {
    let from = i * CHUNK_DATA_MAX;
    let to = (i + 1) * CHUNK_DATA_MAX;
    bytes.subrange(
        from,
        if to <= bytes.len() {
            to
        } else {
            bytes.len() as int
        },
    )
}

/// The count rounded up to a whole bucket.
pub open spec fn bucket_of(count: nat) -> nat {
    ((count + BUCKET_GRANULARITY - 1) / BUCKET_GRANULARITY as int * BUCKET_GRANULARITY) as nat
}

/// Whether an attachment of this size rides in its head.
pub open spec fn rides_inline(len: nat) -> bool {
    len <= INLINE_MAX
}

/// The plan for an attachment: the head describes the bytes, the chunks hold
/// them in order, and pads fill the bucket.
pub open spec fn planned(
    plan: AttachPlan,
    media_class: u8,
    mime_hint: Seq<char>,
    orig_ext: Seq<char>,
    bytes: Seq<u8>,
    caption: Seq<char>,
    view_once: bool,
) -> bool {
    let count = if rides_inline(bytes.len()) {
        0
    } else {
        piece_count(bytes.len())
    };
    &&& plan.head.media_class == media_class
    &&& plan.head.mime_hint@ == mime_hint
    &&& plan.head.orig_ext@ == orig_ext
    &&& plan.head.uncompressed_n == bytes.len()
    &&& plan.head.chunk_count == count
    &&& plan.head.chunk_bucket == bucket_of(count)
    &&& plan.head.content_sha256@ == util::sha256_of(bytes)
    &&& plan.head.caption@ == caption
    &&& plan.head.flags == (if view_once {
        FLAG_VIEW_ONCE
    } else {
        0
    })
    &&& plan.chunks@.len() == bucket_of(count)
    &&& forall|i: int|
        0 <= i < plan.chunks@.len() ==> #[trigger] chunk_data(plan.chunks@[i]) == (if i < count {
            Some(piece(bytes, i))
        } else {
            None
        })
}

/// Plans the transfer of an attachment. It is refused where it is empty or
/// over the cap.
pub fn plan_transfer(
    media_class: u8,
    mime_hint: &str,
    orig_ext: &str,
    bytes: &[u8],
    caption: &str,
    view_once: bool,
) -> (r: Result<AttachPlan, EngineError>)
    ensures
        r is Ok <==> 0 < bytes@.len() <= MAX_ATTACH,
        r matches Ok(plan) ==> planned(
            plan,
            media_class,
            mime_hint@,
            orig_ext@,
            bytes@,
            caption@,
            view_once,
        ),
        r matches Err(e) ==> e@ == EngineFault::EditDenied("attachment size out of range"@),
{
    if bytes.len() == 0 || bytes.len() > MAX_ATTACH as usize {
        return Err(EngineError::EditDenied("attachment size out of range"));
    }
    let inline: bool = bytes.len() <= INLINE_MAX;
    let chunk_count: u16 = if inline {
        0
    } else {
        ((bytes.len() + (CHUNK_DATA_MAX - 1)) / CHUNK_DATA_MAX) as u16
    };
    let chunk_bucket: u16 = if inline {
        0
    } else {
        (chunk_count + (BUCKET_GRANULARITY - 1)) / BUCKET_GRANULARITY * BUCKET_GRANULARITY
    };
    let mut chunks: Vec<ChunkOut> = Vec::new();
    if !inline {
        let mut i: usize = 0;
        while i < chunk_count as usize
            invariant
                i <= chunk_count,
                chunk_count == piece_count(bytes@.len()),
                bytes.len() <= MAX_ATTACH,
                chunks@.len() == i,
                forall|k: int|
                    0 <= k < i ==> #[trigger] chunk_data(chunks@[k]) == Some(piece(bytes@, k)),
            decreases chunk_count - i,
        {
            let from: usize = i * CHUNK_DATA_MAX;
            let to: usize = if bytes.len() - from <= CHUNK_DATA_MAX {
                bytes.len()
            } else {
                from + CHUNK_DATA_MAX
            };
            let data: Vec<u8> = slice_to_vec(slice_subrange(bytes, from, to));
            assert(data@ =~= piece(bytes@, i as int));
            chunks.push(ChunkOut::Data(data));
            i = i + 1;
        }
        while chunks.len() < chunk_bucket as usize
            invariant
                chunk_count <= chunks@.len() <= chunk_bucket,
                forall|k: int|
                    0 <= k < chunks@.len() ==> #[trigger] chunk_data(chunks@[k]) == (if k
                        < chunk_count {
                        Some(piece(bytes@, k))
                    } else {
                        None
                    }),
            decreases chunk_bucket - chunks.len(),
        {
            chunks.push(ChunkOut::Pad);
        }
    }
    let flags: u8 = if view_once {
        FLAG_VIEW_ONCE
    } else {
        0
    };
    Ok(
        AttachPlan {
            head: AttachHead {
                media_class,
                mime_hint: mime_hint.to_owned(),
                orig_ext: orig_ext.to_owned(),
                uncompressed_n: bytes.len() as u32,
                chunk_count,
                chunk_bucket,
                content_sha256: sha256(bytes),
                caption: caption.to_owned(),
                flags,
            },
            chunks,
        },
    )
}

/// The first `n` chunks' data, one after the other.
pub open spec fn joined(pieces: Seq<Seq<u8>>, n: nat) -> Seq<u8>
    decreases n,
{
    if n == 0 {
        Seq::empty()
    } else {
        joined(pieces, (n - 1) as nat) + pieces[n - 1]
    }
}

/// The pieces of an attachment, in order.
pub open spec fn pieces_of(bytes: Seq<u8>) -> Seq<Seq<u8>> {
    Seq::new(piece_count(bytes.len()), |i: int| piece(bytes, i))
}

proof fn joined_prefix(bytes: Seq<u8>, n: nat)
    requires
        n <= piece_count(bytes.len()),
    ensures
        joined(pieces_of(bytes), n) == bytes.take(
            if n * CHUNK_DATA_MAX <= bytes.len() {
                n * CHUNK_DATA_MAX
            } else {
                bytes.len() as int
            },
        ),
    decreases n,
{
    if n == 0 {
        assert(bytes.take(0) =~= Seq::<u8>::empty());
    } else {
        joined_prefix(bytes, (n - 1) as nat);
        assert((n - 1) * CHUNK_DATA_MAX < bytes.len());
        assert(joined(pieces_of(bytes), n) =~= bytes.take(
            if n * CHUNK_DATA_MAX <= bytes.len() {
                n * CHUNK_DATA_MAX
            } else {
                bytes.len() as int
            },
        ));
    }
}

/// The pieces of an attachment, one after the other, are the attachment.
pub proof fn pieces_join_to_the_whole(bytes: Seq<u8>)
    ensures
        joined(pieces_of(bytes), piece_count(bytes.len())) == bytes,
{
    joined_prefix(bytes, piece_count(bytes.len()));
    assert(bytes.take(bytes.len() as int) =~= bytes);
    if piece_count(bytes.len()) * CHUNK_DATA_MAX <= bytes.len() {
        assert(piece_count(bytes.len()) * CHUNK_DATA_MAX == bytes.len());
    }
}

/// The number of chunks on the wire is a multiple of the bucket, and by less
/// than a bucket more than the data needs: it tells the size only so far.
pub proof fn bucket_hides_the_count(count: nat)
    ensures
        bucket_of(count) % (BUCKET_GRANULARITY as nat) == 0,
        count <= bucket_of(count) < count + BUCKET_GRANULARITY,
{
}

/// No chunk carries more than a chunk may, and none is empty.
pub proof fn pieces_fit_their_chunks(bytes: Seq<u8>, i: int)
    requires
        0 <= i < piece_count(bytes.len()),
    ensures
        0 < piece(bytes, i).len() <= CHUNK_DATA_MAX,
{
}

// ---------------------------------------------------------------------------
// Preparing

/// Whether a blob starts with the first two bytes of a JPEG.
pub open spec fn starts_as_jpeg(b: Seq<u8>) -> bool {
    b.len() >= 2 && b[0] == 0xff && b[1] == 0xd8
}

/// The values of a spec.
pub struct Attachment {
    pub media_class: u8,
    pub mime_hint: Seq<char>,
    pub orig_ext: Seq<char>,
    pub bytes: Seq<u8>,
    pub caption: Seq<char>,
    pub view_once: bool,
}

impl View for AttachmentSpec {
    type V = Attachment;

    open spec fn view(&self) -> Attachment {
        Attachment {
            media_class: self.media_class,
            mime_hint: self.mime_hint@,
            orig_ext: self.orig_ext@,
            bytes: self.bytes@,
            caption: self.caption@,
            view_once: self.view_once,
        }
    }
}

/// The spec of an image after stripping: the bytes decide its type.
pub open spec fn stripped_spec(a: Attachment, bytes: Seq<u8>) -> Attachment {
    Attachment {
        mime_hint: if starts_as_jpeg(bytes) {
            "image/jpeg"@
        } else {
            "image/png"@
        },
        orig_ext: if starts_as_jpeg(bytes) {
            "jpg"@
        } else {
            "png"@
        },
        bytes,
        ..a
    }
}

/// Whether a blob is a still image that can be stripped.
pub open spec fn still(kind: MediaKind) -> bool {
    kind == MediaKind::Jpeg || kind == MediaKind::Png || kind == MediaKind::Webp
}

/// What preparing a spec can give. A still image is stripped, whatever it is
/// claimed to be, and refused where it cannot be; an animation and a video pass;
/// what is claimed to be an image and is none is refused.
pub open spec fn prepare_gives(a: Attachment, r: Result<Attachment, EngineFault>) -> bool {
    let kind = media::sniff::kind_of(a.bytes);
    if still(kind) {
        exists|s: Result<Seq<u8>, MediaFault>|
            #![trigger photo::strip_gives(a.bytes, s)]
            photo::strip_gives(a.bytes, s) && (match s {
                Ok(bytes) => r == Ok::<Attachment, EngineFault>(stripped_spec(a, bytes)),
                Err(e) => r == Err::<Attachment, EngineFault>(EngineFault::Media(e)),
            })
    } else if a.media_class == CLASS_IMAGE || kind == MediaKind::Heic {
        if kind == MediaKind::Gif {
            r == Ok::<Attachment, EngineFault>(
                Attachment { mime_hint: "image/gif"@, orig_ext: "gif"@, ..a },
            )
        } else {
            r == Err::<Attachment, EngineFault>(
                EngineFault::Media(MediaFault::Unsupported(kind.name())),
            )
        }
    } else if a.media_class == CLASS_VIDEO {
        r == Ok::<Attachment, EngineFault>(Attachment { orig_ext: "mp4"@, ..a })
    } else {
        r == Ok::<Attachment, EngineFault>(a)
    }
}

pub open spec fn spec_result(r: Result<AttachmentSpec, EngineError>) -> Result<
    Attachment,
    EngineFault,
> {
    match r {
        Ok(spec) => Ok(spec@),
        Err(e) => Err(e@),
    }
}

fn same_spec(spec: &AttachmentSpec) -> (copy: AttachmentSpec)
    ensures
        copy@ == spec@,
{
    AttachmentSpec {
        media_class: spec.media_class,
        mime_hint: spec.mime_hint.clone(),
        orig_ext: spec.orig_ext.clone(),
        bytes: slice_to_vec(spec.bytes.as_slice()),
        caption: spec.caption.clone(),
        view_once: spec.view_once,
    }
}

/// The spec of an image whose stripping gave these bytes.
pub fn stripped(spec: &AttachmentSpec, bytes: Vec<u8>) -> (r: AttachmentSpec)
    ensures
        r@ == stripped_spec(spec@, bytes@),
{
    let jpeg: bool = bytes.len() >= 2 && bytes[0] == 0xff && bytes[1] == 0xd8;
    let mime_hint: String = if jpeg {
        "image/jpeg".to_owned()
    } else {
        "image/png".to_owned()
    };
    let orig_ext: String = if jpeg {
        "jpg".to_owned()
    } else {
        "png".to_owned()
    };
    AttachmentSpec {
        media_class: spec.media_class,
        mime_hint,
        orig_ext,
        bytes,
        caption: spec.caption.clone(),
        view_once: spec.view_once,
    }
}

/// Prepares what is to be sent. The type on the wire comes from the prepared
/// bytes, never from what the client claims.
pub fn prepare_spec(spec: &AttachmentSpec) -> (r: Result<AttachmentSpec, EngineError>)
    ensures
        prepare_gives(spec@, spec_result(r)),
{
    let kind: MediaKind = sniff(spec.bytes.as_slice());
    if kind == MediaKind::Jpeg || kind == MediaKind::Png || kind == MediaKind::Webp {
        let out: Result<Vec<u8>, MediaError> = strip_and_reencode_image(spec.bytes.as_slice());
        let ghost s = photo::blob_result(out);
        assert(photo::strip_gives(spec@.bytes, s));
        return match out {
            Ok(bytes) => Ok(stripped(spec, bytes)),
            Err(e) => Err(EngineError::Media(e)),
        };
    }
    if spec.media_class == CLASS_IMAGE || kind == MediaKind::Heic {
        if kind == MediaKind::Gif {
            let mut copy: AttachmentSpec = same_spec(spec);
            copy.mime_hint = "image/gif".to_owned();
            copy.orig_ext = "gif".to_owned();
            return Ok(copy);
        }
        return Err(EngineError::Media(MediaError::Unsupported(kind.as_str())));
    }
    let mut copy: AttachmentSpec = same_spec(spec);
    if spec.media_class == CLASS_VIDEO {
        copy.orig_ext = "mp4".to_owned();
    }
    Ok(copy)
}

/// A still image never leaves as it came, whatever it is claimed to be: what is
/// sent is the output of stripping, and what is sent as an image is that or an
/// animation.
pub proof fn no_image_bypasses_stripping(a: Attachment, r: Result<Attachment, EngineFault>)
    requires
        prepare_gives(a, r),
        r is Ok,
    ensures
        still(media::sniff::kind_of(a.bytes)) ==> photo::strip_gives(
            a.bytes,
            Ok::<Seq<u8>, MediaFault>(r->Ok_0.bytes),
        ),
        media::sniff::kind_of(a.bytes) != MediaKind::Heic,
        a.media_class == CLASS_IMAGE ==> still(media::sniff::kind_of(a.bytes))
            || media::sniff::kind_of(a.bytes) == MediaKind::Gif,
{
}

// ---------------------------------------------------------------------------
// Sending

/// What goes out for an attachment: the head, with the bytes where they ride
/// along, then the chunks.
#[derive(Clone, Debug)]
pub struct OutgoingAttachment {
    pub head: AttachHeadPayload,
    pub chunks: Vec<ChunkOut>,
    /// The bytes to keep as the only chunk where they ride along.
    pub stash: Option<Vec<u8>>,
}

/// Whether `out` sends the prepared attachment `a`.
pub open spec fn sends(out: OutgoingAttachment, a: Attachment) -> bool {
    let inline = rides_inline(a.bytes.len());
    &&& planned(
        AttachPlan { head: out.head.head, chunks: out.chunks },
        a.media_class,
        a.mime_hint,
        a.orig_ext,
        a.bytes,
        a.caption,
        a.view_once,
    )
    &&& out.head.inline is Some <==> inline
    &&& out.stash is Some <==> inline
    &&& out.head.inline matches Some(b) ==> b@ == a.bytes
    &&& out.stash matches Some(b) ==> b@ == a.bytes
}

/// The head, chunks and stash for a prepared attachment. It is refused where
/// it is empty or over the cap.
pub fn outgoing(spec: &AttachmentSpec) -> (r: Result<OutgoingAttachment, EngineError>)
    ensures
        r is Ok <==> 0 < spec@.bytes.len() <= MAX_ATTACH,
        r matches Ok(out) ==> sends(out, spec@),
        r matches Err(e) ==> e@ == EngineFault::EditDenied("attachment size out of range"@),
{
    let plan: AttachPlan = match plan_transfer(
        spec.media_class,
        spec.mime_hint.as_str(),
        spec.orig_ext.as_str(),
        spec.bytes.as_slice(),
        spec.caption.as_str(),
        spec.view_once,
    ) {
        Ok(plan) => plan,
        Err(e) => {
            return Err(e);
        },
    };
    let inline: bool = spec.bytes.len() <= INLINE_MAX;
    let head: AttachHeadPayload = AttachHeadPayload {
        head: plan.head,
        inline: if inline {
            Some(slice_to_vec(spec.bytes.as_slice()))
        } else {
            None
        },
    };
    let stash: Option<Vec<u8>> = if inline {
        Some(slice_to_vec(spec.bytes.as_slice()))
    } else {
        None
    };
    Ok(OutgoingAttachment { head, chunks: plan.chunks, stash })
}

/// What sending an attachment can give: what it becomes is laid out, where it can be
/// prepared and is of a size that is sent.
pub open spec fn send_gives(a: Attachment, r: Result<OutgoingAttachment, EngineError>) -> bool {
    exists|p: Result<Attachment, EngineFault>|
        #![trigger prepare_gives(a, p)]
        prepare_gives(a, p) && (match p {
            Err(e) => r is Err && r->Err_0@ == e,
            Ok(b) => if 0 < b.bytes.len() <= MAX_ATTACH {
                r is Ok && sends(r->Ok_0, b)
            } else {
                r is Err && r->Err_0@ == EngineFault::EditDenied("attachment size out of range"@)
            },
        })
}

/// Prepares an attachment and lays out everything that goes out for it.
pub fn send_attachment(spec: &AttachmentSpec) -> (r: Result<OutgoingAttachment, EngineError>)
    ensures
        send_gives(spec@, r),
{
    let prepared: Result<AttachmentSpec, EngineError> = prepare_spec(spec);
    let ghost p = spec_result(prepared);
    assert(prepare_gives(spec@, p));
    match prepared {
        Ok(spec) => outgoing(&spec),
        Err(e) => Err(e),
    }
}

/// Whether a payload is of chunk `index` of a transfer.
pub open spec fn payload_of(p: AttachChunk, head_id: [u8; 16], index: u16, chunk: ChunkOut) -> bool {
    &&& p.head_id == head_id
    &&& p.index == index
    &&& p.pad == (chunk_data(chunk) is None)
    &&& p.data@ == match chunk_data(chunk) {
        Some(d) => d,
        None => Seq::empty(),
    }
}

/// The payload of chunk `index` of a transfer.
pub fn chunk_payload(head_id: [u8; 16], index: u16, chunk: &ChunkOut) -> (p: AttachChunk)
    ensures
        payload_of(p, head_id, index, *chunk),
{
    match chunk {
        ChunkOut::Data(d) => AttachChunk {
            head_id,
            index,
            pad: false,
            data: slice_to_vec(d.as_slice()),
        },
        ChunkOut::Pad => AttachChunk { head_id, index, pad: true, data: Vec::new() },
    }
}

/// A transfer's row.
#[derive(Clone, Debug)]
pub struct AttachmentRow {
    pub head_id: [u8; 16],
    pub rel_id: String,
    pub msg_id: [u8; 16],
    pub direction: Direction,
    pub media_class: u8,
    pub mime_hint: String,
    pub uncompressed_n: u32,
    pub chunk_count: u16,
    pub chunk_bucket: u16,
    pub content_sha256: [u8; 32],
    pub caption: String,
    pub flags: u8,
    pub orig_ext: String,
    pub expires_at: Option<u64>,
    /// Which chunks have come, one bit each.
    pub chunks: Vec<u8>,
    pub complete: bool,
    /// Whether a view-once attachment was looked at.
    pub consumed: bool,
}

/// Whether `row` tracks the transfer of a head.
pub open spec fn tracks(
    row: AttachmentRow,
    head_id: [u8; 16],
    rel_id: Seq<char>,
    direction: Direction,
    head: AttachHead,
    expires_at: Option<u64>,
) -> bool {
    &&& row.head_id == head_id
    &&& row.rel_id@ == rel_id
    &&& row.msg_id == head_id
    &&& row.direction == direction
    &&& row.media_class == head.media_class
    &&& row.mime_hint@ == head.mime_hint@
    &&& row.uncompressed_n == head.uncompressed_n
    &&& row.chunk_count == head.chunk_count
    &&& row.chunk_bucket == head.chunk_bucket
    &&& row.content_sha256 == head.content_sha256
    &&& row.caption@ == head.caption@
    &&& row.flags == head.flags
    &&& row.orig_ext@ == head.orig_ext@
    &&& row.expires_at == expires_at
}

/// The row of a transfer that has just begun. A head without chunks is
/// complete with its inline bytes.
pub fn tracking_row(
    head_id: [u8; 16],
    rel_id: &str,
    direction: Direction,
    head: &AttachHead,
    expires_at: Option<u64>,
    complete: bool,
) -> (row: AttachmentRow)
    ensures
        tracks(row, head_id, rel_id@, direction, *head, expires_at),
        row.chunks@.len() == 0,
        row.complete == complete,
        !row.consumed,
{
    AttachmentRow {
        head_id,
        rel_id: rel_id.to_owned(),
        msg_id: head_id,
        direction,
        media_class: head.media_class,
        mime_hint: head.mime_hint.clone(),
        uncompressed_n: head.uncompressed_n,
        chunk_count: head.chunk_count,
        chunk_bucket: head.chunk_bucket,
        content_sha256: head.content_sha256,
        caption: head.caption.clone(),
        flags: head.flags,
        orig_ext: head.orig_ext.clone(),
        expires_at,
        chunks: Vec::new(),
        complete,
        consumed: false,
    }
}

// ---------------------------------------------------------------------------
// Receiving

/// What becomes of an inbound head.
#[derive(Clone, Copy, Debug, PartialEq, Eq, Structural)]
pub enum HeadStep {
    /// Attachments are off: nothing beyond the ledger row.
    PolicyOff,
    /// The transfer is known already.
    Replay,
    /// The inline bytes are not those that the head announces: the transfer
    /// has failed.
    InlineCorrupt,
    /// The inline bytes are the whole attachment.
    InlineComplete,
    /// The chunks are to come, or have come before.
    AwaitChunks,
}

/// The step for an inbound head.
pub open spec fn head_step(allowed: bool, known: bool, payload: AttachHeadPayload) -> HeadStep {
    if !allowed {
        HeadStep::PolicyOff
    } else if known {
        HeadStep::Replay
    } else {
        match payload.inline {
            Some(bytes) => if util::sha256_of(bytes@) == payload.head.content_sha256@ {
                HeadStep::InlineComplete
            } else {
                HeadStep::InlineCorrupt
            },
            None => HeadStep::AwaitChunks,
        }
    }
}

/// Decides on an inbound head: whether attachments are allowed, whether the
/// transfer is known, and whether inline bytes match their digest.
pub fn on_attach_head(allowed: bool, known: bool, payload: &AttachHeadPayload) -> (step: HeadStep)
    ensures
        step == head_step(allowed, known, *payload),
{
    if !allowed {
        return HeadStep::PolicyOff;
    }
    if known {
        return HeadStep::Replay;
    }
    match &payload.inline {
        Some(bytes) => {
            let digest: [u8; 32] = sha256(bytes.as_slice());
            if same_bytes(&digest, &payload.head.content_sha256) {
                HeadStep::InlineComplete
            } else {
                HeadStep::InlineCorrupt
            }
        },
        None => HeadStep::AwaitChunks,
    }
}

/// What is stored of chunks without a head: for one head and for the whole
/// relationship.
#[derive(Clone, Copy, Debug)]
pub struct OrphanStats {
    pub head_chunks: u32,
    pub head_bytes: u64,
    pub rel_chunks: u32,
    pub rel_bytes: u64,
}

/// What becomes of an inbound chunk.
#[derive(Clone, Copy, Debug, PartialEq, Eq, Structural)]
pub enum ChunkStep {
    /// A pad carries nothing.
    Ignore,
    /// Over a cap, or beyond the transfer's chunks: dropped, and said so.
    Drop,
    Store,
}

/// Whether one more chunk of `len` bytes stays within the orphan caps.
pub open spec fn orphan_fits(stats: OrphanStats, len: nat) -> bool {
    &&& stats.head_chunks < MAX_ORPHAN_CHUNKS_PER_HEAD
    &&& stats.head_bytes + len <= MAX_ORPHAN_BYTES_PER_HEAD
    &&& stats.rel_chunks < MAX_ORPHAN_CHUNKS_PER_REL
    &&& stats.rel_bytes + len <= MAX_ORPHAN_BYTES_PER_REL
}

/// The step for an inbound chunk, given the chunk count of its head where the
/// head is known.
pub open spec fn chunk_step(
    pad: bool,
    index: u16,
    len: nat,
    head_count: Option<u16>,
    stats: OrphanStats,
) -> ChunkStep {
    if pad {
        ChunkStep::Ignore
    } else {
        match head_count {
            None => if orphan_fits(stats, len) {
                ChunkStep::Store
            } else {
                ChunkStep::Drop
            },
            Some(count) => if index < count {
                ChunkStep::Store
            } else {
                ChunkStep::Drop
            },
        }
    }
}

/// Decides on an inbound chunk. While its head is unknown the orphan caps
/// bound what is stored; then the head's own count does.
pub fn on_attach_chunk(chunk: &AttachChunk, head_count: Option<u16>, stats: &OrphanStats) -> (step:
    ChunkStep)
    ensures
        step == chunk_step(chunk.pad, chunk.index, chunk.data@.len(), head_count, *stats),
{
    if chunk.pad {
        return ChunkStep::Ignore;
    }
    match head_count {
        None => {
            let len: u64 = chunk.data.len() as u64;
            if stats.head_chunks >= MAX_ORPHAN_CHUNKS_PER_HEAD || len > MAX_ORPHAN_BYTES_PER_HEAD
                || stats.head_bytes > MAX_ORPHAN_BYTES_PER_HEAD - len || stats.rel_chunks
                >= MAX_ORPHAN_CHUNKS_PER_REL || len > MAX_ORPHAN_BYTES_PER_REL || stats.rel_bytes
                > MAX_ORPHAN_BYTES_PER_REL - len {
                ChunkStep::Drop
            } else {
                ChunkStep::Store
            }
        },
        Some(count) => {
            if chunk.index >= count {
                ChunkStep::Drop
            } else {
                ChunkStep::Store
            }
        },
    }
}

/// Storing what is let through never takes the orphans over a cap.
pub proof fn orphans_stay_capped(stats: OrphanStats, index: u16, len: nat)
    requires
        chunk_step(false, index, len, None, stats) == ChunkStep::Store,
    ensures
        stats.head_chunks + 1 <= MAX_ORPHAN_CHUNKS_PER_HEAD,
        stats.head_bytes + len <= MAX_ORPHAN_BYTES_PER_HEAD,
        stats.rel_chunks + 1 <= MAX_ORPHAN_CHUNKS_PER_REL,
        stats.rel_bytes + len <= MAX_ORPHAN_BYTES_PER_REL,
{
}

/// The ones in a byte.
pub open spec fn ones(b: int) -> nat
    decreases b,
{
    if b <= 0 {
        0
    } else {
        (b % 2) as nat + ones(b / 2)
    }
}

/// The ones in the first `n` bytes.
pub open spec fn ones_in(bitmap: Seq<u8>, n: nat) -> nat
    decreases n,
{
    if n == 0 {
        0
    } else {
        ones_in(bitmap, (n - 1) as nat) + ones(bitmap[n - 1] as int)
    }
}

fn ones_of(b: u8) -> (n: u32)
    ensures
        n == ones(b as int),
        n <= b,
    decreases b,
{
    if b == 0 {
        0
    } else {
        (b % 2) as u32 + ones_of(b / 2)
    }
}

proof fn ones_grow(bitmap: Seq<u8>, n: nat, m: nat)
    requires
        n <= m,
    ensures
        ones_in(bitmap, n) <= ones_in(bitmap, m),
    decreases m,
{
    if n < m {
        ones_grow(bitmap, n, (m - 1) as nat);
    }
}

/// How many chunks a bitmap says have come.
pub fn received_count(bitmap: &[u8]) -> (n: u32)
    requires
        ones_in(bitmap@, bitmap@.len()) <= u32::MAX,
    ensures
        n == ones_in(bitmap@, bitmap@.len()),
{
    let mut n: u32 = 0;
    let mut i: usize = 0;
    while i < bitmap.len()
        invariant
            i <= bitmap@.len(),
            ones_in(bitmap@, bitmap@.len()) <= u32::MAX,
            n == ones_in(bitmap@, i as nat),
        decreases bitmap.len() - i,
    {
        proof {
            ones_grow(bitmap@, (i + 1) as nat, bitmap@.len());
        }
        n = n + ones_of(bitmap[i]);
        i = i + 1;
    }
    n
}

/// How a transfer stands.
#[derive(Clone, Debug)]
pub enum Completion {
    /// It is complete already.
    Done,
    /// Pieces are missing.
    Missing,
    /// The pieces are not the attachment: everything is erased.
    Corrupt,
    /// All pieces are in, and this is the full bitmap.
    Complete(Vec<u8>),
}

/// The lowest `n` bits of a byte.
pub open spec fn low_bits(n: int) -> u8 {
    if n <= 0 {
        0
    } else if n == 1 {
        1
    } else if n == 2 {
        3
    } else if n == 3 {
        7
    } else if n == 4 {
        15
    } else if n == 5 {
        31
    } else if n == 6 {
        63
    } else if n == 7 {
        127
    } else {
        255
    }
}

/// One bit per chunk, all set.
pub open spec fn full_bitmap(count: u16) -> Seq<u8> {
    Seq::new(((count + 7) / 8) as nat, |i: int| low_bits(count - 8 * i))
}

fn fill_bitmap(count: u16) -> (bitmap: Vec<u8>)
    ensures
        bitmap@ == full_bitmap(count),
{
    let need: usize = (count as usize + 7) / 8;
    let mut bitmap: Vec<u8> = Vec::new();
    let mut i: usize = 0;
    while i < need
        invariant
            i <= need,
            need == (count + 7) / 8,
            bitmap@.len() == i,
            forall|k: int| 0 <= k < i ==> #[trigger] bitmap@[k] == low_bits(count - 8 * k),
        decreases need - i,
    {
        let left: usize = count as usize - 8 * i;
        let byte: u8 = if left >= 8 {
            255
        } else if left == 7 {
            127
        } else if left == 6 {
            63
        } else if left == 5 {
            31
        } else if left == 4 {
            15
        } else if left == 3 {
            7
        } else if left == 2 {
            3
        } else {
            1
        };
        bitmap.push(byte);
        i = i + 1;
    }
    assert(bitmap@ =~= full_bitmap(count));
    bitmap
}

/// The stored pieces as values.
pub open spec fn piece_views(stored: Seq<Vec<u8>>) -> Seq<Seq<u8>> {
    Seq::new(stored.len(), |i: int| stored[i]@)
}

/// The bytes that stored pieces make.
pub open spec fn assembled(stored: Seq<Vec<u8>>) -> Seq<u8> {
    joined(piece_views(stored), stored.len())
}

fn assemble(stored: &Vec<Vec<u8>>) -> (bytes: Vec<u8>)
    ensures
        bytes@ == assembled(stored@),
{
    let mut bytes: Vec<u8> = Vec::new();
    let mut i: usize = 0;
    while i < stored.len()
        invariant
            i <= stored@.len(),
            bytes@ == joined(piece_views(stored@), i as nat),
        decreases stored.len() - i,
    {
        append_bytes(&mut bytes, stored[i].as_slice());
        i = i + 1;
    }
    bytes
}

/// Whether the pieces are what the head announced.
pub open spec fn intact(row: AttachmentRow, stored: Seq<Vec<u8>>) -> bool {
    &&& assembled(stored).len() == row.uncompressed_n
    &&& util::sha256_of(assembled(stored)) == row.content_sha256@
}

/// Whether pieces of a transfer are missing, of which `stored` are in.
pub open spec fn lacks_pieces(row: AttachmentRow, stored: nat) -> bool {
    !row.complete && stored < row.chunk_count
}

/// What follows on a stored chunk.
#[derive(Clone, Copy, Debug, PartialEq, Eq, Structural)]
pub enum StoredStep {
    /// Its head has not come: it waits.
    Wait,
    /// Pieces are missing: the client is told how far the transfer is.
    Progress,
    /// Every piece is in: the transfer is put together.
    Complete,
}

/// The step on a stored chunk, given its transfer where the head has come, and
/// how many chunks of it are stored. Chunks that came before their head count.
pub open spec fn stored_step(row: Option<AttachmentRow>, stored: nat) -> StoredStep {
    match row {
        None => StoredStep::Wait,
        Some(row) => if lacks_pieces(row, stored) {
            StoredStep::Progress
        } else {
            StoredStep::Complete
        },
    }
}

/// Decides on what follows on a stored chunk.
pub fn on_chunk_stored(row: Option<&AttachmentRow>, stored: usize) -> (step: StoredStep)
    ensures
        step == stored_step(
            match row {
                Some(row) => Some(*row),
                None => None,
            },
            stored as nat,
        ),
{
    match row {
        None => StoredStep::Wait,
        Some(row) => {
            if !row.complete && stored < row.chunk_count as usize {
                StoredStep::Progress
            } else {
                StoredStep::Complete
            }
        },
    }
}

/// With the last missing chunk the transfer is put together, in whichever order
/// head and chunks came: `indices` are those of the chunks that are stored.
pub proof fn the_last_chunk_completes(row: AttachmentRow, indices: Set<int>)
    requires
        indices.finite(),
        forall|i: int| 0 <= i < row.chunk_count ==> #[trigger] indices.contains(i),
    ensures
        stored_step(Some(row), indices.len()) == StoredStep::Complete,
        !lacks_pieces(row, indices.len()),
{
    let all = vstd::set_lib::set_int_range(0, row.chunk_count as int);
    vstd::set_lib::lemma_int_range(0, row.chunk_count as int);
    assert(all.subset_of(indices));
    vstd::set_lib::lemma_len_subset(all, indices);
}

/// How a transfer with these stored pieces stands.
pub open spec fn stands(c: Completion, row: AttachmentRow, stored: Seq<Vec<u8>>) -> bool {
    &&& c is Done <==> row.complete
    &&& c is Missing <==> lacks_pieces(row, stored.len())
    &&& c is Corrupt <==> !row.complete && stored.len() >= row.chunk_count && !intact(row, stored)
    &&& c is Complete <==> !row.complete && stored.len() >= row.chunk_count && intact(row, stored)
    &&& c matches Completion::Complete(bitmap) ==> bitmap@ == full_bitmap(row.chunk_count)
}

/// Puts a transfer together once every piece is in, and checks it against
/// what its head announced.
pub fn try_complete(row: &AttachmentRow, stored: &Vec<Vec<u8>>) -> (c: Completion)
    ensures
        stands(c, *row, stored@),
{
    if row.complete {
        return Completion::Done;
    }
    if stored.len() < row.chunk_count as usize {
        return Completion::Missing;
    }
    let bytes: Vec<u8> = assemble(stored);
    if bytes.len() as u64 != row.uncompressed_n as u64 {
        return Completion::Corrupt;
    }
    let digest: [u8; 32] = sha256(bytes.as_slice());
    if !same_bytes(&digest, &row.content_sha256) {
        return Completion::Corrupt;
    }
    Completion::Complete(fill_bitmap(row.chunk_count))
}

/// What was planned and has all arrived is complete, and gives back the
/// bytes that were sent.
pub proof fn transfers_give_back_what_was_sent(
    plan: AttachPlan,
    media_class: u8,
    mime_hint: Seq<char>,
    orig_ext: Seq<char>,
    bytes: Seq<u8>,
    caption: Seq<char>,
    view_once: bool,
    row: AttachmentRow,
    stored: Seq<Vec<u8>>,
)
    requires
        planned(plan, media_class, mime_hint, orig_ext, bytes, caption, view_once),
        !rides_inline(bytes.len()),
        row.chunk_count == plan.head.chunk_count,
        row.uncompressed_n == plan.head.uncompressed_n,
        row.content_sha256 == plan.head.content_sha256,
        stored.len() == plan.head.chunk_count,
        forall|i: int|
            0 <= i < stored.len() ==> chunk_data(plan.chunks@[i]) == Some(
                (#[trigger] stored[i])@,
            ),
    ensures
        intact(row, stored),
        assembled(stored) == bytes,
{
    assert forall|i: int| 0 <= i < stored.len() implies #[trigger] piece_views(stored)[i]
        == pieces_of(bytes)[i] by {
        assert(chunk_data(plan.chunks@[i]) == Some(stored[i]@));
    }
    assert(piece_views(stored) =~= pieces_of(bytes));
    pieces_join_to_the_whole(bytes);
}

/// What rides inside its head is complete with the head, and gives back the
/// bytes that were sent.
pub proof fn small_transfers_give_back_what_was_sent(
    out: OutgoingAttachment,
    a: Attachment,
    stored: Seq<Vec<u8>>,
)
    requires
        sends(out, a),
        rides_inline(a.bytes.len()),
        stored.len() == 1,
        stored[0]@ == out.head.inline->0@,
    ensures
        head_step(true, false, out.head) == HeadStep::InlineComplete,
        assembled(stored) == a.bytes,
{
    let pieces = piece_views(stored);
    assert(joined(pieces, 0) =~= Seq::empty());
    assert(joined(pieces, 1) =~= a.bytes);
}

// ---------------------------------------------------------------------------
// Reading

/// Whether the bytes of a transfer can be read: it is complete, has not been
/// consumed and has pieces.
pub open spec fn readable(row: AttachmentRow, pieces: nat) -> bool {
    row.complete && !row.consumed && pieces > 0
}

/// What is read of a transfer: its pieces put together, where it can be read.
pub open spec fn read_of(row: Option<AttachmentRow>, stored: Seq<Vec<u8>>) -> Option<Seq<u8>> {
    match row {
        Some(row) => if readable(row, stored.len()) {
            Some(assembled(stored))
        } else {
            None
        },
        None => None,
    }
}

/// The bytes of a finished transfer; `None` where they cannot be read.
pub fn attachment_bytes(row: Option<&AttachmentRow>, stored: &Vec<Vec<u8>>) -> (bytes: Option<
    Vec<u8>,
>)
    ensures
        read_of(
            match row {
                Some(row) => Some(*row),
                None => None,
            },
            stored@,
        ) == (match bytes {
            Some(b) => Some(b@),
            None => None,
        }),
{
    match row {
        Some(row) => {
            if !row.complete || row.consumed || stored.len() == 0 {
                None
            } else {
                Some(assemble(stored))
            }
        },
        None => None,
    }
}

/// Whether a transfer is for one look.
pub open spec fn view_once(row: AttachmentRow) -> bool {
    row.flags & FLAG_VIEW_ONCE != 0
}

/// The row of a transfer that was looked at for the one time.
pub open spec fn viewed(row: AttachmentRow) -> AttachmentRow {
    AttachmentRow { consumed: true, ..row }
}

/// The row of a transfer after it was looked at, as it was before unless the
/// transfer is for one look.
pub open spec fn after_viewing(row: AttachmentRow) -> AttachmentRow {
    if view_once(row) {
        viewed(row)
    } else {
        row
    }
}

/// The row to keep once an attachment was looked at, where it changes.
pub open spec fn kept_after(row: Option<AttachmentRow>) -> Option<AttachmentRow> {
    match row {
        Some(row) => if view_once(row) && !row.consumed {
            Some(after_viewing(row))
        } else {
            None
        },
        None => None,
    }
}

/// Looking at an attachment: where it is view-once and has not been consumed,
/// the row to keep from now on. Its pieces are to be erased.
pub fn attachment_viewed(row: Option<AttachmentRow>) -> (after: Option<AttachmentRow>)
    ensures
        after == kept_after(row),
{
    match row {
        Some(mut row) => {
            if row.flags & FLAG_VIEW_ONCE != 0 && !row.consumed {
                row.consumed = true;
                Some(row)
            } else {
                None
            }
        },
        None => None,
    }
}

/// A view-once attachment can be looked at once: from then on nothing is read
/// of it, whatever pieces are stored, and looking again changes nothing. Any
/// other attachment is read as before.
pub proof fn view_once_reads_once(row: AttachmentRow, pieces: nat)
    ensures
        view_once(row) ==> !readable(after_viewing(row), pieces),
        !view_once(row) ==> readable(after_viewing(row), pieces) == readable(row, pieces),
        after_viewing(after_viewing(row)) == after_viewing(row),
{
}

// ---------------------------------------------------------------------------
// Events

/// What a client is told of an inbound head, as values.
pub open spec fn head_told(step: HeadStep, rel: Seq<char>, head: Seq<u8>) -> Option<EventView> {
    match step {
        HeadStep::InlineCorrupt => Some(
            EventView::AttachmentFailed { rel_id: rel, head_id: head },
        ),
        HeadStep::InlineComplete => Some(
            EventView::AttachmentComplete { rel_id: rel, head_id: head, msg_id: head },
        ),
        _ => None,
    }
}

/// What a client is told of an inbound chunk, as values.
pub open spec fn chunk_told(step: ChunkStep, rel: Seq<char>, head: Seq<u8>) -> Option<EventView> {
    if step == ChunkStep::Drop {
        Some(EventView::AttachmentChunkDropped { rel_id: rel, head_id: head })
    } else {
        None
    }
}

/// What a client is told of how far a transfer is, as values.
pub open spec fn progress_told(
    rel: Seq<char>,
    head: Seq<u8>,
    row: Option<AttachmentRow>,
) -> EventView {
    EventView::AttachmentProgress {
        rel_id: rel,
        head_id: head,
        received: match row {
            Some(row) => ones_in(row.chunks@, row.chunks@.len()) as u32,
            None => 0,
        },
        total: match row {
            Some(row) => row.chunk_count as u32,
            None => 0,
        },
    }
}

/// What a client is told of how a transfer ended, as values.
pub open spec fn completion_told(
    c: Completion,
    rel: Seq<char>,
    head: Seq<u8>,
    msg: Seq<u8>,
) -> Option<EventView> {
    match c {
        Completion::Corrupt => Some(EventView::AttachmentFailed { rel_id: rel, head_id: head }),
        Completion::Complete(_) => Some(
            EventView::AttachmentComplete { rel_id: rel, head_id: head, msg_id: msg },
        ),
        _ => None,
    }
}

/// An event that there is or is not, as values.
pub open spec fn event_view(e: Option<EngineEvent>) -> Option<EventView> {
    match e {
        Some(e) => Some(e@),
        None => None,
    }
}

/// What a client is told of an inbound head. Where chunks are to come, that
/// is up to them.
pub fn head_event(step: HeadStep, rel_id: &str, head_id: [u8; 16]) -> (e: Option<EngineEvent>)
    ensures
        event_view(e) == head_told(step, rel_id@, head_id@),
{
    match step {
        HeadStep::InlineCorrupt => Some(
            EngineEvent::AttachmentFailed { rel_id: rel_id.to_owned(), head_id },
        ),
        HeadStep::InlineComplete => Some(
            EngineEvent::AttachmentComplete { rel_id: rel_id.to_owned(), head_id, msg_id: head_id },
        ),
        _ => None,
    }
}

/// What a client is told of an inbound chunk that is not stored.
pub fn chunk_event(step: ChunkStep, rel_id: &str, head_id: [u8; 16]) -> (e: Option<EngineEvent>)
    ensures
        event_view(e) == chunk_told(step, rel_id@, head_id@),
{
    match step {
        ChunkStep::Drop => Some(
            EngineEvent::AttachmentChunkDropped { rel_id: rel_id.to_owned(), head_id },
        ),
        _ => None,
    }
}

/// What a client is told of a stored chunk that does not complete its
/// transfer.
pub fn progress_event(rel_id: &str, head_id: [u8; 16], row: Option<&AttachmentRow>) -> (e:
    EngineEvent)
    requires
        row matches Some(row) ==> ones_in(row.chunks@, row.chunks@.len()) <= u32::MAX,
    ensures
        e@ == progress_told(
            rel_id@,
            head_id@,
            match row {
                Some(row) => Some(*row),
                None => None,
            },
        ),
{
    let (received, total): (u32, u32) = match row {
        Some(row) => (received_count(row.chunks.as_slice()), row.chunk_count as u32),
        None => (0, 0),
    };
    EngineEvent::AttachmentProgress { rel_id: rel_id.to_owned(), head_id, received, total }
}

/// What a client is told of how a transfer stands.
pub fn completion_event(c: &Completion, rel_id: &str, head_id: [u8; 16], msg_id: [u8; 16]) -> (e:
    Option<EngineEvent>)
    ensures
        event_view(e) == completion_told(*c, rel_id@, head_id@, msg_id@),
{
    match c {
        Completion::Corrupt => Some(
            EngineEvent::AttachmentFailed { rel_id: rel_id.to_owned(), head_id },
        ),
        Completion::Complete(_) => Some(
            EngineEvent::AttachmentComplete { rel_id: rel_id.to_owned(), head_id, msg_id },
        ),
        _ => None,
    }
}

/// The class for a media type: a video, or else an image.
pub open spec fn class_of(mime: Seq<char>) -> u8 {
    if mime.len() >= 6 && mime.take(6) == "video/"@ {
        CLASS_VIDEO
    } else {
        CLASS_IMAGE
    }
}

/// The class for a media type: a video, or else an image.
pub fn class_for_mime(mime: &str) -> (class: u8)
    ensures
        class == class_of(mime@),
{
    proof {
        reveal_strlit("video/");
    }
    if mime.unicode_len() >= 6 {
        let head: &str = mime.substring_char(0, 6);
        assert(head@ =~= mime@.take(6));
        if crate::text::same_text(head, "video/") {
            return CLASS_VIDEO;
        }
    }
    CLASS_IMAGE
}

// ---------------------------------------------------------------------------
// Laws

/// What the sender gives is what the receiver's row holds: the class, the media
/// type, the extension, the caption, the size, the digest and whether it is for
/// one look, under the head's id and in the relationship that it came in.
pub proof fn the_receiver_holds_what_the_sender_gave(
    out: OutgoingAttachment,
    a: Attachment,
    row: AttachmentRow,
    head_id: [u8; 16],
    rel_id: Seq<char>,
    direction: Direction,
    expires_at: Option<u64>,
)
    requires
        sends(out, a),
        tracks(row, head_id, rel_id, direction, out.head.head, expires_at),
    ensures
        row.media_class == a.media_class,
        row.mime_hint@ == a.mime_hint,
        row.orig_ext@ == a.orig_ext,
        row.caption@ == a.caption,
        row.flags & FLAG_VIEW_ONCE != 0 <==> a.view_once,
        view_once(row) <==> a.view_once,
        row.flags & !FLAG_VIEW_ONCE == 0,
        row.uncompressed_n == a.bytes.len(),
        row.content_sha256@ == util::sha256_of(a.bytes),
        row.head_id == head_id,
        row.msg_id == head_id,
        row.rel_id@ == rel_id,
        row.direction == direction,
        row.expires_at == expires_at,
        row.chunk_count == out.head.head.chunk_count,
        row.chunk_bucket == out.head.head.chunk_bucket,
{
    assert(1u8 & 1 != 0 && 0u8 & 1 == 0 && 1u8 & !1u8 == 0 && 0u8 & !1u8 == 0) by (bit_vector);
}

/// Preparing keeps what the user said: the class, the caption and whether it is
/// for one look. What goes out under the name of a JPEG, a PNG or a GIF is one by
/// its first bytes. Only a still image has its bytes changed.
pub proof fn preparing_keeps_what_was_said(a: Attachment, r: Result<Attachment, EngineFault>)
    requires
        prepare_gives(a, r),
        r is Ok,
    ensures
        ({
            let b = r->Ok_0;
            let still = media::sniff::is_jpeg(a.bytes) || media::sniff::is_png(a.bytes)
                || media::sniff::is_webp(a.bytes);
            &&& b.media_class == a.media_class
            &&& b.caption == a.caption
            &&& b.view_once == a.view_once
            &&& !still ==> b.bytes == a.bytes
            &&& still ==> (media::sniff::is_jpeg(b.bytes) && b.mime_hint == "image/jpeg"@
                && b.orig_ext == "jpg"@) || (media::sniff::is_png(b.bytes) && b.mime_hint
                == "image/png"@ && b.orig_ext == "png"@)
            &&& a.media_class == CLASS_IMAGE ==> still || (media::sniff::is_gif(a.bytes)
                && b.mime_hint == "image/gif"@ && b.orig_ext == "gif"@)
            &&& !still && a.media_class == CLASS_VIDEO ==> b.mime_hint == a.mime_hint && b.orig_ext
                == "mp4"@
        }),
{
    media::sniff::magic_bytes_decide(a.bytes);
    media::sniff::magic_bytes_decide(r->Ok_0.bytes);
    if still(media::sniff::kind_of(a.bytes)) {
        let s = choose|s: Result<Seq<u8>, MediaFault>|
            #![trigger photo::strip_gives(a.bytes, s)]
            photo::strip_gives(a.bytes, s) && (match s {
                Ok(bytes) => r == Ok::<Attachment, EngineFault>(stripped_spec(a, bytes)),
                Err(e) => r == Err::<Attachment, EngineFault>(EngineFault::Media(e)),
            });
        photo::stripped_photos_fit_the_target(a.bytes, s);
        let b = s->Ok_0;
        let jpeg = seq![0xffu8, 0xd8, 0xff];
        let png = seq![0x89u8, 0x50, 0x4e, 0x47];
        assert(media::sniff::is_jpeg(b) ==> jpeg[0] == b[0] && jpeg[1] == b[1]);
        assert(media::sniff::is_png(b) ==> png[0] == b[0]);
    }
}

/// An attachment of up to 27,000 bytes rides in its head and has no chunks.
/// A larger one is cut into chunks in order: all are full but the last, which is
/// not empty. Pads follow up to a multiple of eight, and fewer than eight of them.
pub proof fn plans_cut_into_full_chunks(
    plan: AttachPlan,
    media_class: u8,
    mime_hint: Seq<char>,
    orig_ext: Seq<char>,
    bytes: Seq<u8>,
    caption: Seq<char>,
    view_once: bool,
    i: int,
    j: int,
)
    requires
        planned(plan, media_class, mime_hint, orig_ext, bytes, caption, view_once),
        0 < bytes.len() <= MAX_ATTACH,
    ensures
        ({
            let count = plan.head.chunk_count as int;
            let all = plan.chunks@.len() as int;
            &&& plan.head.chunk_bucket == all
            &&& all % 8 == 0
            &&& count <= all < count + 8
            &&& bytes.len() <= 27_000 <==> count == 0
            &&& bytes.len() > 27_000 ==> (count - 1) * 27_000 < bytes.len() <= count * 27_000
            &&& 0 <= i < count ==> {
                &&& chunk_data(plan.chunks@[i]) is Some
                &&& chunk_data(plan.chunks@[i])->0.len() == (if i < count - 1 {
                    27_000
                } else {
                    bytes.len() - (count - 1) * 27_000
                })
                &&& 0 <= j < chunk_data(plan.chunks@[i])->0.len() ==> chunk_data(
                    plan.chunks@[i],
                )->0[j] == bytes[27_000 * i + j]
            }
            &&& count <= i < all ==> chunk_data(plan.chunks@[i]) is None
        }),
{
    if 0 <= i < plan.chunks@.len() {
        assert(chunk_data(plan.chunks@[i]) == chunk_data(plan.chunks@[i]));
    }
}

/// The bytes ride in the head, and are kept as the only chunk, exactly if there
/// are no more than 27,000.
pub proof fn small_attachments_ride_along(out: OutgoingAttachment, a: Attachment)
    requires
        sends(out, a),
    ensures
        out.head.inline is Some <==> a.bytes.len() <= 27_000,
        out.stash is Some <==> a.bytes.len() <= 27_000,
        out.head.inline matches Some(b) ==> b@ == a.bytes,
        out.stash matches Some(b) ==> b@ == a.bytes,
{
}

/// What an inbound head leads to. While attachments are off or where the transfer
/// is known, nothing. Inline bytes complete it exactly if they have the digest
/// that the head announces; without them the chunks are awaited.
pub proof fn a_head_is_held_to_its_digest(allowed: bool, known: bool, payload: AttachHeadPayload)
    ensures
        ({
            let step = head_step(allowed, known, payload);
            &&& !allowed <==> step == HeadStep::PolicyOff
            &&& allowed && known <==> step == HeadStep::Replay
            &&& allowed && !known && payload.inline is None <==> step == HeadStep::AwaitChunks
            &&& step == HeadStep::InlineComplete <==> allowed && !known && payload.inline is Some
                && util::sha256_of(payload.inline->0@) == payload.head.content_sha256@
        }),
{
}

/// What an inbound chunk leads to. A pad is nothing. With its head there, it is
/// stored exactly if it is one of the head's chunks; before that, exactly if it
/// stays within all four caps on chunks without a head.
pub proof fn chunks_are_stored_within_bounds(
    pad: bool,
    index: u16,
    len: nat,
    head_count: Option<u16>,
    stats: OrphanStats,
)
    ensures
        ({
            let step = chunk_step(pad, index, len, head_count, stats);
            &&& step == ChunkStep::Ignore <==> pad
            &&& head_count matches Some(count) ==> (step == ChunkStep::Store <==> !pad && index
                < count)
            &&& head_count is None ==> (step == ChunkStep::Store <==> !pad && stats.head_chunks + 1
                <= MAX_ORPHAN_CHUNKS_PER_HEAD && stats.head_bytes + len <= MAX_ORPHAN_BYTES_PER_HEAD
                && stats.rel_chunks + 1 <= MAX_ORPHAN_CHUNKS_PER_REL && stats.rel_bytes + len
                <= MAX_ORPHAN_BYTES_PER_REL)
        }),
{
}

/// A transfer is put together exactly if as many chunks are stored as its head
/// announces, or it was complete before; until then the client hears of progress.
/// Without a head it waits.
pub proof fn transfers_wait_for_every_chunk(row: AttachmentRow, stored: nat)
    ensures
        stored_step(Some(row), stored) == StoredStep::Complete <==> row.complete || stored
            >= row.chunk_count,
        stored_step(Some(row), stored) == StoredStep::Progress <==> !row.complete && stored
            < row.chunk_count,
        stored_step(None, stored) == StoredStep::Wait,
        lacks_pieces(row, stored) <==> !row.complete && stored < row.chunk_count,
{
}

/// Only the bytes that the head announced pass for the attachment: as many as it
/// says, with the digest that it says.
pub proof fn only_the_announced_bytes_pass(row: AttachmentRow, stored: Seq<Vec<u8>>)
    ensures
        intact(row, stored) <==> assembled(stored).len() == row.uncompressed_n && util::sha256_of(
            assembled(stored),
        ) == row.content_sha256@,
{
}

/// Stored pieces are put together in order: one more piece goes to the end.
pub proof fn pieces_are_put_together_in_order(stored: Seq<Vec<u8>>, next: Vec<u8>)
    ensures
        assembled(Seq::empty()) == Seq::<u8>::empty(),
        assembled(stored.push(next)) == assembled(stored) + next@,
{
    let all = stored.push(next);
    joined_agrees(piece_views(stored), piece_views(all), stored.len());
    assert(piece_views(all)[stored.len() as int] == next@);
}

proof fn joined_agrees(a: Seq<Seq<u8>>, b: Seq<Seq<u8>>, n: nat)
    requires
        n <= a.len(),
        n <= b.len(),
        forall|i: int| 0 <= i < n ==> #[trigger] a[i] == b[i],
    ensures
        joined(a, n) == joined(b, n),
    decreases n,
{
    if n > 0 {
        joined_agrees(a, b, (n - 1) as nat);
    }
}

/// Bit `k` of byte `i` of a full bitmap is set exactly if there is a chunk
/// `8 * i + k`.
pub proof fn a_full_bitmap_has_a_bit_per_chunk(count: u16, i: int)
    requires
        0 <= i < full_bitmap(count).len(),
    ensures
        full_bitmap(count).len() == (count + 7) / 8,
        full_bitmap(count)[i] % 2 == 1 <==> 8 * i < count,
        full_bitmap(count)[i] / 2 % 2 == 1 <==> 8 * i + 1 < count,
        full_bitmap(count)[i] / 4 % 2 == 1 <==> 8 * i + 2 < count,
        full_bitmap(count)[i] / 8 % 2 == 1 <==> 8 * i + 3 < count,
        full_bitmap(count)[i] / 16 % 2 == 1 <==> 8 * i + 4 < count,
        full_bitmap(count)[i] / 32 % 2 == 1 <==> 8 * i + 5 < count,
        full_bitmap(count)[i] / 64 % 2 == 1 <==> 8 * i + 6 < count,
        full_bitmap(count)[i] / 128 % 2 == 1 <==> 8 * i + 7 < count,
{
}

/// A full bitmap counts as many chunks as there are.
pub proof fn a_full_bitmap_counts_every_chunk(count: u16)
    ensures
        ones_in(full_bitmap(count), full_bitmap(count).len()) == count,
{
    full_bytes_count(count, full_bitmap(count).len());
}

proof fn full_bytes_count(count: u16, n: nat)
    requires
        n <= full_bitmap(count).len(),
    ensures
        ones_in(full_bitmap(count), n) == (if 8 * n <= count {
            (8 * n) as int
        } else {
            count as int
        }),
    decreases n,
{
    if n > 0 {
        full_bytes_count(count, (n - 1) as nat);
        reveal_with_fuel(ones, 9);
    }
}

/// A byte counts as many chunks as it has bits set.
pub proof fn a_byte_counts_its_bits(b: u8)
    ensures
        ones(b as int) == b % 2 + b / 2 % 2 + b / 4 % 2 + b / 8 % 2 + b / 16 % 2 + b / 32 % 2 + b
            / 64 % 2 + b / 128 % 2,
{
    let n = b as int;
    assert(ones(n) == n % 2 + ones(n / 2));
    assert(n / 2 / 2 == n / 4 && n / 4 / 2 == n / 8 && n / 8 / 2 == n / 16 && n / 16 / 2 == n / 32);
    assert(n / 32 / 2 == n / 64 && n / 64 / 2 == n / 128 && n / 128 / 2 == 0);
    assert(ones(n / 2) == n / 2 % 2 + ones(n / 4));
    assert(ones(n / 4) == n / 4 % 2 + ones(n / 8));
    assert(ones(n / 8) == n / 8 % 2 + ones(n / 16));
    assert(ones(n / 16) == n / 16 % 2 + ones(n / 32));
    assert(ones(n / 32) == n / 32 % 2 + ones(n / 64));
    assert(ones(n / 64) == n / 64 % 2 + ones(n / 128));
    assert(ones(n / 128) == n / 128 % 2 + ones(0));
}

/// A finished transfer that was not consumed and has pieces is read. Looking at
/// one that is for one look marks it as consumed and changes nothing else of it;
/// looking at any other changes nothing.
pub proof fn finished_transfers_are_read(row: AttachmentRow, pieces: nat)
    ensures
        row.complete && !row.consumed && pieces > 0 <==> readable(row, pieces),
        view_once(row) <==> row.flags & 1 != 0,
        row.flags & 1 != 0 ==> after_viewing(row) == (AttachmentRow { consumed: true, ..row }),
        row.flags & 1 == 0 ==> after_viewing(row) == row,
{
}

/// A chunk travels under its head and its place. A pad is marked as one and is
/// empty; any other chunk carries its bytes.
pub proof fn chunks_travel_under_their_head(
    p: AttachChunk,
    head_id: [u8; 16],
    index: u16,
    chunk: ChunkOut,
)
    requires
        payload_of(p, head_id, index, chunk),
    ensures
        p.head_id == head_id,
        p.index == index,
        p.pad <==> chunk is Pad,
        chunk matches ChunkOut::Data(d) ==> p.data@ == d@,
        p.pad ==> p.data@.len() == 0,
{
}

/// A client hears of a transfer that is complete and of one that is corrupt, once
/// each and by the transfer's own ids, however the bytes came; of a chunk, only
/// where it is dropped.
pub proof fn clients_hear_of_the_end(
    step: HeadStep,
    chunk: ChunkStep,
    c: Completion,
    rel: Seq<char>,
    head: Seq<u8>,
    msg: Seq<u8>,
)
    ensures
        head_told(step, rel, head) is Some <==> step == HeadStep::InlineCorrupt || step
            == HeadStep::InlineComplete,
        step == HeadStep::InlineCorrupt <==> head_told(step, rel, head) == Some(
            EventView::AttachmentFailed { rel_id: rel, head_id: head },
        ),
        step == HeadStep::InlineComplete <==> head_told(step, rel, head) == Some(
            EventView::AttachmentComplete { rel_id: rel, head_id: head, msg_id: head },
        ),
        completion_told(c, rel, head, msg) is Some <==> c is Corrupt || c is Complete,
        c is Corrupt <==> completion_told(c, rel, head, msg) == Some(
            EventView::AttachmentFailed { rel_id: rel, head_id: head },
        ),
        c is Complete <==> completion_told(c, rel, head, msg) == Some(
            EventView::AttachmentComplete { rel_id: rel, head_id: head, msg_id: msg },
        ),
        chunk_told(chunk, rel, head) is Some <==> chunk == ChunkStep::Drop,
        chunk_told(chunk, rel, head) matches Some(e) ==> e is AttachmentChunkDropped
            && e->AttachmentChunkDropped_rel_id == rel && e->AttachmentChunkDropped_head_id == head,
{
}

/// Progress is the number of chunks that are there out of those that the head
/// announced; of a full transfer it is all of them.
pub proof fn progress_counts_chunks(rel: Seq<char>, head: Seq<u8>, row: AttachmentRow)
    requires
        row.chunks@ == full_bitmap(row.chunk_count),
    ensures
        progress_told(rel, head, Some(row)) == (EventView::AttachmentProgress {
            rel_id: rel,
            head_id: head,
            received: row.chunk_count as u32,
            total: row.chunk_count as u32,
        }),
        progress_told(rel, head, None) == (EventView::AttachmentProgress {
            rel_id: rel,
            head_id: head,
            received: 0,
            total: 0,
        }),
{
    a_full_bitmap_counts_every_chunk(row.chunk_count);
}

/// A transfer is complete exactly if it was not before, all its chunks are there,
/// and together they have the length and the digest that the head announced. Its
/// bitmap then counts them all.
pub proof fn transfers_complete_when_intact(c: Completion, row: AttachmentRow, stored: Seq<Vec<u8>>)
    requires
        stands(c, row, stored),
    ensures
        c is Complete <==> !row.complete && stored.len() >= row.chunk_count && assembled(stored).len()
            == row.uncompressed_n && util::sha256_of(assembled(stored)) == row.content_sha256@,
        c is Missing <==> !row.complete && stored.len() < row.chunk_count,
        c is Done <==> row.complete,
        c matches Completion::Complete(bitmap) ==> ones_in(bitmap@, bitmap@.len())
            == row.chunk_count,
{
    a_full_bitmap_counts_every_chunk(row.chunk_count);
}

/// What is read of a finished transfer is its stored pieces in order, and nothing is
/// read of any other. Looking at one that is for one look uses it up: the second
/// look finds nothing.
pub proof fn one_look_is_one_look(row: AttachmentRow, stored: Seq<Vec<u8>>)
    ensures
        read_of(None, stored) is None,
        read_of(Some(row), stored) is Some <==> row.complete && !row.consumed && stored.len() > 0,
        read_of(Some(row), stored) matches Some(b) ==> b == assembled(stored),
        kept_after(None) is None,
        kept_after(Some(row)) is Some <==> row.flags & 1 != 0 && !row.consumed,
        kept_after(Some(row)) matches Some(after) ==> {
            &&& after == (AttachmentRow { consumed: true, ..row })
            &&& read_of(Some(after), stored) is None
            &&& kept_after(Some(after)) is None
        },
{
}

/// The class of a media type is a video's exactly if the type says so.
pub proof fn videos_say_so(rest: Seq<char>, mime: Seq<char>)
    ensures
        class_of("video/"@ + rest) == CLASS_VIDEO,
        mime.len() < 6 ==> class_of(mime) == CLASS_IMAGE,
        mime.len() >= 6 && mime.take(6) != "video/"@ ==> class_of(mime) == CLASS_IMAGE,
        CLASS_VIDEO != CLASS_IMAGE,
{
    reveal_strlit("video/");
    assert(("video/"@ + rest).take(6) =~= "video/"@);
}

/// What a person attaches is what the peer's row holds: of whatever goes out, the row
/// that tracks its head has the class, the caption and the one look that were asked
/// for, and the size and digest of bytes that are those of the file unless it is a
/// still image.
pub proof fn what_is_attached_is_what_arrives(
    a: Attachment,
    r: Result<OutgoingAttachment, EngineError>,
    row: AttachmentRow,
    head_id: [u8; 16],
    rel_id: Seq<char>,
    direction: Direction,
    expires_at: Option<u64>,
)
    requires
        send_gives(a, r),
        r is Ok,
        tracks(row, head_id, rel_id, direction, r->Ok_0.head.head, expires_at),
    ensures
        row.media_class == a.media_class,
        row.caption@ == a.caption,
        view_once(row) <==> a.view_once,
        !media::sniff::is_jpeg(a.bytes) && !media::sniff::is_png(a.bytes) && !media::sniff::is_webp(
            a.bytes,
        ) ==> row.uncompressed_n == a.bytes.len() && row.content_sha256@ == util::sha256_of(
            a.bytes,
        ),
{
    let p = choose|p: Result<Attachment, EngineFault>|
        #![trigger prepare_gives(a, p)]
        prepare_gives(a, p) && (match p {
            Err(e) => r is Err && r->Err_0@ == e,
            Ok(b) => if 0 < b.bytes.len() <= MAX_ATTACH {
                r is Ok && sends(r->Ok_0, b)
            } else {
                r is Err && r->Err_0@ == EngineFault::EditDenied("attachment size out of range"@)
            },
        });
    preparing_keeps_what_was_said(a, p);
    the_receiver_holds_what_the_sender_gave(
        r->Ok_0,
        p->Ok_0,
        row,
        head_id,
        rel_id,
        direction,
        expires_at,
    );
}

} // verus!
