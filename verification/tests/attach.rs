use std::io::Cursor;

use schat::attach::{
    attachment_bytes, attachment_viewed, chunk_event, chunk_payload, class_for_mime,
    completion_event, head_event, on_attach_chunk, on_attach_head, on_chunk_stored, plan_transfer,
    prepare_spec, progress_event, received_count, send_attachment, tracking_row, try_complete,
    AttachmentSpec, ChunkOut, ChunkStep, Completion, HeadStep, OrphanStats, StoredStep,
};
use schat::engine::{EngineError, EngineEvent};
use schat::limits::attach::INLINE_MAX;
use schat::limits::orphan::{MAX_ORPHAN_CHUNKS_PER_HEAD, MAX_ORPHAN_CHUNKS_PER_REL};
use schat::media::sniff::{sniff, MediaKind};
use schat::store::Direction;
use schat::wire::attach::{
    AttachChunk, AttachHeadPayload, CHUNK_DATA_MAX, CLASS_IMAGE, CLASS_VIDEO, FLAG_VIEW_ONCE,
    MAX_ATTACH,
};

fn spec(bytes: Vec<u8>, view_once: bool) -> AttachmentSpec {
    AttachmentSpec {
        media_class: CLASS_VIDEO,
        mime_hint: "video/mp4".into(),
        orig_ext: "mp4".into(),
        bytes,
        caption: "pic".into(),
        view_once,
    }
}

const NONE: OrphanStats = OrphanStats {
    head_chunks: 0,
    head_bytes: 0,
    rel_chunks: 0,
    rel_bytes: 0,
};

#[test]
fn inline_transfers_complete_at_once() {
    let small = vec![7u8; 1_000];
    let out = send_attachment(&spec(small.clone(), false)).unwrap();
    assert!(out.chunks.is_empty());
    assert_eq!(out.head.inline, Some(small.clone()));
    assert_eq!(out.stash, Some(small.clone()));
    assert_eq!(out.head.head.chunk_count, 0);
    let step = on_attach_head(true, false, &out.head);
    assert_eq!(step, HeadStep::InlineComplete);
    assert_eq!(
        head_event(step, "rel", [1u8; 16]),
        Some(EngineEvent::AttachmentComplete {
            rel_id: "rel".into(),
            head_id: [1u8; 16],
            msg_id: [1u8; 16]
        })
    );
    // The bytes are held to their digest.
    let bad = AttachHeadPayload {
        inline: Some(vec![8u8; 1_000]),
        ..out.head.clone()
    };
    let step = on_attach_head(true, false, &bad);
    assert_eq!(step, HeadStep::InlineCorrupt);
    assert!(matches!(
        head_event(step, "rel", [1u8; 16]),
        Some(EngineEvent::AttachmentFailed { .. })
    ));
    assert_eq!(on_attach_head(true, true, &out.head), HeadStep::Replay);
    assert_eq!(on_attach_head(false, true, &out.head), HeadStep::PolicyOff);
    assert!(head_event(HeadStep::Replay, "rel", [1u8; 16]).is_none());
}

#[test]
fn small_transfers_give_back_what_was_sent() {
    for len in [1usize, 500, INLINE_MAX] {
        let small: Vec<u8> = (0..len).map(|i| (i % 251) as u8).collect();
        let out = send_attachment(&spec(small.clone(), false)).unwrap();
        assert!(out.chunks.is_empty());
        assert_eq!(on_attach_head(true, false, &out.head), HeadStep::InlineComplete);
        let row = tracking_row([1u8; 16], "rel", Direction::In, &out.head.head, None, true);
        let stored = vec![out.head.inline.unwrap()];
        assert_eq!(attachment_bytes(Some(&row), &stored).unwrap(), small);
    }
}

#[test]
fn chunked_transfers_give_back_what_was_sent() {
    let big: Vec<u8> = (0..60_000u32).map(|i| (i % 251) as u8).collect();
    let out = send_attachment(&spec(big.clone(), false)).unwrap();
    assert!(out.head.inline.is_none());
    assert_eq!(out.head.head.chunk_count, 3);
    assert_eq!(out.head.head.chunk_bucket, 8);
    assert_eq!(out.chunks.len(), 8, "pads hide the count");
    let step = on_attach_head(true, false, &out.head);
    assert_eq!(step, HeadStep::AwaitChunks);

    let mut row = tracking_row([1u8; 16], "rel", Direction::In, &out.head.head, None, false);
    let mut stored: Vec<Vec<u8>> = Vec::new();
    for (i, chunk) in out.chunks.iter().enumerate() {
        let p = chunk_payload([1u8; 16], i as u16, chunk);
        match on_attach_chunk(&p, Some(row.chunk_count), &NONE) {
            ChunkStep::Store => {
                assert!(matches!(try_complete(&row, &stored), Completion::Missing));
                assert!(p.data.len() <= CHUNK_DATA_MAX);
                stored.push(p.data);
            }
            step => {
                assert_eq!(step, ChunkStep::Ignore);
                assert!(p.pad);
            }
        }
    }
    let done = try_complete(&row, &stored);
    let Completion::Complete(ref bitmap) = done else {
        panic!("all pieces are in")
    };
    assert_eq!(bitmap, &vec![0b111u8]);
    assert!(matches!(
        completion_event(&done, "rel", [1u8; 16], [1u8; 16]),
        Some(EngineEvent::AttachmentComplete { .. })
    ));
    row.chunks = bitmap.clone();
    row.complete = true;
    assert!(matches!(try_complete(&row, &stored), Completion::Done));
    assert_eq!(attachment_bytes(Some(&row), &stored).unwrap(), big);

    // A swapped piece is noticed.
    row.complete = false;
    stored.swap(0, 1);
    let corrupt = try_complete(&row, &stored);
    assert!(matches!(corrupt, Completion::Corrupt));
    assert!(matches!(
        completion_event(&corrupt, "rel", [1u8; 16], [1u8; 16]),
        Some(EngineEvent::AttachmentFailed { .. })
    ));
    assert!(completion_event(&Completion::Missing, "rel", [1u8; 16], [1u8; 16]).is_none());
}

#[test]
fn view_once_is_looked_at_once() {
    let out = send_attachment(&spec(vec![3u8; 500], true)).unwrap();
    assert_eq!(out.head.head.flags & FLAG_VIEW_ONCE, FLAG_VIEW_ONCE);
    let row = tracking_row([1u8; 16], "rel", Direction::In, &out.head.head, None, true);
    let stored = vec![vec![3u8; 500]];
    assert!(attachment_bytes(Some(&row), &stored).is_some());
    let after = attachment_viewed(Some(row)).unwrap();
    assert!(after.consumed && after.complete);
    assert_eq!((after.head_id, after.rel_id.as_str()), ([1u8; 16], "rel"));
    assert!(attachment_bytes(Some(&after), &stored).is_none());
    assert!(attachment_viewed(Some(after)).is_none());
    assert!(attachment_viewed(None).is_none());
    assert!(attachment_bytes(None, &stored).is_none());

    // Any other attachment is left as it is.
    let out = send_attachment(&spec(vec![3u8; 500], false)).unwrap();
    let row = tracking_row([1u8; 16], "rel", Direction::In, &out.head.head, None, true);
    assert!(attachment_viewed(Some(row)).is_none());
}

#[test]
fn orphan_chunks_are_capped() {
    let chunk = AttachChunk {
        head_id: [1u8; 16],
        index: 0,
        pad: false,
        data: vec![0x55u8; 100],
    };
    let mut stats = NONE;
    stats.head_chunks = MAX_ORPHAN_CHUNKS_PER_HEAD - 1;
    assert_eq!(on_attach_chunk(&chunk, None, &stats), ChunkStep::Store);
    stats.head_chunks = MAX_ORPHAN_CHUNKS_PER_HEAD;
    let step = on_attach_chunk(&chunk, None, &stats);
    assert_eq!(step, ChunkStep::Drop);
    assert!(matches!(
        chunk_event(step, "rel", [1u8; 16]),
        Some(EngineEvent::AttachmentChunkDropped { .. })
    ));
    assert!(chunk_event(ChunkStep::Store, "rel", [1u8; 16]).is_none());
    stats = NONE;
    stats.rel_chunks = MAX_ORPHAN_CHUNKS_PER_REL;
    assert_eq!(on_attach_chunk(&chunk, None, &stats), ChunkStep::Drop);
    // Once the head is there, its own count governs.
    assert_eq!(on_attach_chunk(&chunk, Some(1), &stats), ChunkStep::Store);
    assert_eq!(on_attach_chunk(&chunk, Some(0), &stats), ChunkStep::Drop);
}

#[test]
fn the_last_chunk_leads_to_completion() {
    let out = send_attachment(&spec(vec![1u8; 60_000], false)).unwrap();
    let mut row = tracking_row([1u8; 16], "rel", Direction::In, &out.head.head, None, false);
    assert_eq!(on_chunk_stored(None, 3), StoredStep::Wait);
    assert_eq!(on_chunk_stored(Some(&row), 2), StoredStep::Progress);
    assert_eq!(on_chunk_stored(Some(&row), 3), StoredStep::Complete);
    row.complete = true;
    assert_eq!(on_chunk_stored(Some(&row), 0), StoredStep::Complete);
    assert!(matches!(try_complete(&row, &Vec::new()), Completion::Done));
}

#[test]
fn progress_counts_bits() {
    let out = send_attachment(&spec(vec![1u8; 60_000], false)).unwrap();
    let mut row = tracking_row([1u8; 16], "rel", Direction::In, &out.head.head, None, false);
    row.chunks = vec![0b101];
    assert_eq!(
        progress_event("rel", [1u8; 16], Some(&row)),
        EngineEvent::AttachmentProgress {
            rel_id: "rel".into(),
            head_id: [1u8; 16],
            received: 2,
            total: 3
        }
    );
    assert_eq!(received_count(&[0xff, 0x01, 0x80]), 10);
    assert!(matches!(
        progress_event("rel", [1u8; 16], None),
        EngineEvent::AttachmentProgress {
            received: 0,
            total: 0,
            ..
        }
    ));
}

#[test]
fn sizes_out_of_range_are_refused() {
    for bytes in [vec![], vec![0u8; MAX_ATTACH as usize + 1]] {
        assert!(matches!(
            send_attachment(&spec(bytes, false)),
            Err(EngineError::EditDenied("attachment size out of range"))
        ));
    }
    assert!(plan_transfer(CLASS_VIDEO, "video/mp4", "mp4", &[1], "", false).is_ok());
}

fn jpeg_with_exif() -> Vec<u8> {
    let img = image::DynamicImage::new_rgb8(120, 90);
    let mut out = Cursor::new(Vec::new());
    img.write_to(&mut out, image::ImageFormat::Jpeg).unwrap();
    let mut jpeg = out.into_inner();
    let payload = b"Exif\0\0II*\0 GPS: 48.8584 N, 2.2945 E";
    let app1_len = (payload.len() + 2) as u16;
    let mut seg = vec![0xff, 0xe1];
    seg.extend_from_slice(&app1_len.to_be_bytes());
    seg.extend_from_slice(payload);
    jpeg.splice(2..2, seg);
    jpeg
}

#[test]
fn images_are_stripped_and_renamed() {
    let jpeg = jpeg_with_exif();
    let sent = prepare_spec(&AttachmentSpec {
        media_class: CLASS_IMAGE,
        mime_hint: "image/jpeg".into(),
        orig_ext: "beach-2024".into(),
        bytes: jpeg.clone(),
        caption: String::new(),
        view_once: false,
    })
    .unwrap();
    assert_eq!(sent.orig_ext, "jpg", "the claimed name goes nowhere");
    assert_eq!(sent.mime_hint, "image/jpeg");
    assert_ne!(sent.bytes, jpeg);
    assert!(!sent.bytes.windows(4).any(|w| w == b"Exif"));
    assert!(!sent.bytes.windows(3).any(|w| w == b"GPS"));
    assert_eq!(sniff(&sent.bytes), MediaKind::Jpeg);

    // The claimed class bypasses nothing.
    let as_video = prepare_spec(&spec(jpeg.clone(), true)).unwrap();
    assert_eq!(as_video.bytes, sent.bytes);
    assert_eq!(as_video.orig_ext, "jpg");
    assert_eq!((as_video.caption.as_str(), as_video.view_once), ("pic", true));

    // A still image that cannot be stripped is not sent at all.
    assert!(matches!(
        prepare_spec(&spec(b"....ftypheic....".to_vec(), false)),
        Err(EngineError::Media(_))
    ));
    // What is no still image passes as a video.
    let video = prepare_spec(&spec(b"....ftypmp42....".to_vec(), false)).unwrap();
    assert_eq!((video.bytes.len(), video.orig_ext.as_str()), (16, "mp4"));

    let refused = send_attachment(&AttachmentSpec {
        media_class: CLASS_IMAGE,
        mime_hint: "image/jpeg".into(),
        orig_ext: "jpg".into(),
        bytes: b"definitely not an image".to_vec(),
        caption: String::new(),
        view_once: false,
    });
    assert!(refused.is_err(), "what is no image is not sent as one");
}

#[test]
fn classes_follow_the_type() {
    assert_eq!(class_for_mime("video/webm"), CLASS_VIDEO);
    assert_eq!(class_for_mime("image/png"), CLASS_IMAGE);
    assert_eq!(class_for_mime("video"), CLASS_IMAGE);
    assert!(matches!(
        chunk_payload([1u8; 16], 2, &ChunkOut::Pad),
        AttachChunk { pad: true, index: 2, .. }
    ));
}
