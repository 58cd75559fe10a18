use std::io::Cursor;

use schat::engine::{EngineError, EngineEvent};
use schat::ffi::features::{
    attachment_spec, item_from, pack_created, pack_info, pack_item, pack_items, policy_show,
    profile_show, PackInfo,
};
use schat::ffi::messaging::{
    engine_event_ffi, engine_events_ffi, presence_ffi, presence_state, thread,
};
use schat::ffi::{hex_id16, hex_id32, unlock_key, unlocked};
use schat::limits::ffi::clamp_thread_page;
use schat::media::sticker::prepare_sticker;
use schat::pairing::PairingFailure;
use schat::policy::{PendingProposal, PolicyState};
use schat::presence::{PeerPresence, Presence, PresenceTable};
use schat::profile::{
    apply_inbound, broadcast_profile, our_profile, send_prefs, send_profile, send_profile_req,
    set_our_profile, Profile,
};
use schat::store::{hex_decode, DeliveryState, Direction, MessageRow};
use schat::wire::envelope::EnvelopeType;
use schat::wire::sticker::{KIND_EMOJI, KIND_STICKER};
use schat::{ping, AttachmentSpecFfi, CoreError, EngineEventFfi, SchatEvent, SchatEventListener};

#[test]
fn ping_returns_pong() {
    assert_eq!(ping(), "pong");
}

#[test]
fn ids_are_hexadecimal_both_ways() {
    let id = [0x0fu8; 16];
    let EngineEventFfi::Message { rel_id, msg_id } = engine_event_ffi(&EngineEvent::Message {
        rel_id: "rel".into(),
        msg_id: id,
    }) else {
        panic!("a message stays one")
    };
    assert_eq!(rel_id, "rel");
    assert_eq!(msg_id, "0f".repeat(16));
    assert_eq!(hex_id16(&msg_id).unwrap(), id);
    assert_eq!(hex_id16(&msg_id.to_uppercase()).unwrap(), id);
    assert_eq!(hex_id32(&"ab".repeat(32)).unwrap(), [0xab; 32]);
    let Err(e) = hex_id16("0f") else {
        panic!("one byte is no id")
    };
    assert_eq!(e.message(), "expected a 16-byte hex id");
    let Err(e) = hex_id32("0f") else {
        panic!("one byte is no id")
    };
    assert_eq!(e.message(), "expected a 32-byte hex id");
    assert!(hex_id16("zz").is_err());
    assert!(hex_decode("abc").is_err());
    assert!(hex_decode("é1").is_err());
    assert_eq!(hex_decode("00ffAb").unwrap(), vec![0, 255, 0xab]);
}

#[test]
fn every_event_has_its_shape() {
    let rel = || "rel".to_string();
    let id = [1u8; 16];
    let hex = "01".repeat(16);
    let events = vec![
        EngineEvent::Edited {
            rel_id: rel(),
            msg_id: id,
        },
        EngineEvent::StickerPackRefused {
            pack_id: id,
            reason: 3,
        },
        EngineEvent::StickerThumbs {
            pack_id: id,
            doc: vec![1, 2],
        },
        EngineEvent::AttachmentProgress {
            rel_id: rel(),
            head_id: id,
            received: 1,
            total: 2,
        },
        EngineEvent::GapDetected { rel_id: rel() },
    ];
    let out = engine_events_ffi(&events);
    assert_eq!(out.len(), 5);
    assert!(matches!(&out[0], EngineEventFfi::Edited { msg_id, .. } if *msg_id == hex));
    assert!(
        matches!(&out[1], EngineEventFfi::StickerPackRefused { pack_id, reason: 3 } if *pack_id == hex)
    );
    assert!(
        matches!(&out[2], EngineEventFfi::StickerThumbs { doc_bytes, .. } if *doc_bytes == [1, 2])
    );
    assert!(matches!(
        &out[3],
        EngineEventFfi::AttachmentProgress {
            received: 1,
            total: 2,
            ..
        }
    ));
    assert!(matches!(&out[4], EngineEventFfi::GapDetected { .. }));
}

#[test]
fn threads_are_paged_and_shown() {
    assert_eq!(clamp_thread_page(0), 0);
    assert_eq!(clamp_thread_page(200), 200);
    assert_eq!(clamp_thread_page(u32::MAX), 200);
    let row = MessageRow {
        msg_id: [2u8; 16],
        rel_id: "rel".into(),
        direction: Direction::Out,
        app_seq: 4,
        sent_at: 900,
        received_at: None,
        env_type: 1,
        ref_id: None,
        payload: b"hello".to_vec(),
        state: DeliveryState::Acknowledged,
        expires_at: Some(7),
        created_at: 900,
        edited: true,
        tombstone: false,
        read_at: Some(8),
        edit_count: 1,
        last_edit_seq: 0,
    };
    let out = thread(&vec![row]);
    assert_eq!(out.len(), 1);
    assert!(out[0].outgoing && out[0].edited);
    assert_eq!(out[0].delivery, "acknowledged");
    assert_eq!(out[0].payload, b"hello");
    assert_eq!((out[0].read_at, out[0].expires_at), (Some(8), Some(7)));
}

#[test]
fn the_vault_refuses_while_locked() {
    assert!(unlocked(false).is_ok());
    let Err(e) = unlocked(true) else {
        panic!("locked")
    };
    assert_eq!(e.message(), "vault is locked");
    assert_eq!(unlock_key(&[4u8; 32]).unwrap(), [4u8; 32]);
    let Err(e) = unlock_key(&[4u8; 31]) else {
        panic!("a short key")
    };
    assert_eq!(e.message(), "DEK must be 32 bytes");
}

#[test]
fn errors_become_messages() {
    assert_eq!(
        CoreError::Transport("down".into()).message(),
        "transport: down"
    );
    assert_eq!(
        CoreError::of_engine(&EngineError::NotFound).message(),
        "target message not found"
    );
    assert_eq!(
        CoreError::of_pairing(&PairingFailure::SelfPairing).message(),
        "cannot pair with our own offer"
    );
}

struct Last(std::sync::Mutex<Option<String>>);

impl SchatEventListener for Last {
    fn on_event(&self, event: SchatEvent) {
        if let SchatEvent::Arrival { service_id } = event {
            *self.0.lock().unwrap() = Some(service_id);
        }
    }
}

#[test]
fn listeners_hear_of_arrivals() {
    let last = Last(std::sync::Mutex::new(None));
    last.on_event(SchatEvent::Arrival {
        service_id: "svc".into(),
    });
    assert_eq!(last.0.lock().unwrap().as_deref(), Some("svc"));
}

#[test]
fn policies_profiles_and_presence_are_shown() {
    let mut s = PolicyState::default();
    assert!(!policy_show(&s).pending);
    s.pending = Some(PendingProposal {
        ttl_sec: 0,
        screenshot: true,
        attach_download: true,
        inbound: true,
        propose_id: [0u8; 16],
    });
    let shown = policy_show(&s);
    assert!(shown.pending && shown.pending_inbound);
    assert_eq!((shown.ttl_sec, shown.local_want), (86_400, 31));
    let us = Profile {
        name: "us".into(),
        jpeg: vec![1],
    };
    let pair = profile_show(us.clone(), None);
    assert_eq!((pair.local_name.as_str(), pair.peer_name), ("us", None));
    let p = presence_ffi(&PeerPresence {
        in_app: true,
        do_not_disturb: false,
    });
    assert!(p.in_app && !p.do_not_disturb);
    let spec = attachment_spec(AttachmentSpecFfi {
        media_class: 2,
        mime_hint: "video/mp4".into(),
        orig_ext: "mp4".into(),
        bytes: vec![1],
        caption: "c".into(),
        view_once: true,
    });
    assert_eq!((spec.caption.as_str(), spec.view_once), ("c", true));
}

#[test]
fn unseen_peers_have_no_presence() {
    let mut table = PresenceTable::new();
    assert!(presence_state(&table, false, "rel", 100).is_none());
    let here = Presence {
        in_app: true,
        do_not_disturb: true,
    };
    table.note("rel", here, 100);
    let p = presence_state(&table, false, "rel", 101).unwrap();
    assert!(p.in_app && p.do_not_disturb);
    let p = presence_state(&table, false, "rel", 145).unwrap();
    assert!(!p.in_app && !p.do_not_disturb, "stale reads as offline");
    assert!(presence_state(&table, true, "rel", 101).is_none(), "locked");
}

#[test]
fn profiles_change_when_they_differ() {
    let a = Profile {
        name: "a".into(),
        jpeg: vec![1],
    };
    let mut b = a.clone();
    assert!(apply_inbound(None, &a));
    assert!(!apply_inbound(Some(&a), &b));
    b.jpeg.push(2);
    assert!(apply_inbound(Some(&a), &b));
    b = a.clone();
    b.name.push('x');
    assert!(apply_inbound(Some(&a), &b));

    assert_eq!(our_profile(Some(b"me".to_vec()), None).name, "me");
    assert_eq!(our_profile(Some(vec![0xff]), Some(vec![3])).name, "");
    assert_eq!(our_profile(None, Some(vec![3])).jpeg, vec![3]);
    assert_eq!(send_profile(&a).unwrap().t, EnvelopeType::Profile);
    assert_eq!(send_profile_req().t, EnvelopeType::ProfileReq);
    assert_eq!(send_prefs().t, EnvelopeType::Pref);
    assert!(send_profile(&our_profile(None, None)).is_none());
    let mut jpeg = vec![0u8; 24_576];
    assert!(matches!(
        set_our_profile(Some("a"), &jpeg),
        Err(EngineError::EditDenied("profile picture is no jpeg"))
    ));
    jpeg[..3].copy_from_slice(&[0xff, 0xd8, 0xff]);
    assert!(set_our_profile(Some("a"), &jpeg).is_ok());
    assert!(set_our_profile(Some("a"), &[]).is_ok(), "without a picture");
    jpeg.push(0);
    assert!(matches!(
        set_our_profile(Some("a"), &jpeg),
        Err(EngineError::EditDenied("profile jpeg over 24 KiB"))
    ));
    assert!(matches!(
        set_our_profile(None, &[]),
        Err(EngineError::EditDenied(
            "profile name fails nfc/length/control rules"
        ))
    ));
    assert!(broadcast_profile(&Vec::new()).is_empty());
}

fn png(w: u32, h: u32) -> Vec<u8> {
    let img = image::DynamicImage::new_rgba8(w, h);
    let mut out = Cursor::new(Vec::new());
    img.write_to(&mut out, image::ImageFormat::Png).unwrap();
    out.into_inner()
}

#[test]
fn packs_are_numbered_from_one() {
    let items = pack_items(&vec![png(40, 40), png(64, 32)], KIND_STICKER).unwrap();
    assert_eq!(items.len(), 2);
    assert_eq!((items[0].item_id, items[0].w, items[0].h), (1, 40, 40));
    assert_eq!((items[1].item_id, items[1].w, items[1].h), (2, 64, 32));
    let p = prepare_sticker(&png(40, 40), KIND_STICKER).unwrap();
    let item = item_from(6, p.clone());
    assert_eq!(item.item_id, 7);
    assert_eq!(item.bytes, p.bytes);
    let Err(e) = pack_items(&vec![png(40, 40), b"no".to_vec()], KIND_STICKER) else {
        panic!("the second is no image")
    };
    assert!(e.message().starts_with("unsupported media: "));
    assert!(pack_item(&png(10, 20), KIND_EMOJI, 0).is_err());
    let Err(e) = pack_items(&vec![png(10, 20), b"no".to_vec()], KIND_EMOJI) else {
        panic!("neither can be prepared")
    };
    assert!(!e.message().starts_with("unsupported media: jpeg"), "the first decides");
}

#[test]
fn item_digests_are_sha256() {
    let p = schat::media::sticker::PreparedSticker {
        bytes: b"abc".to_vec(),
        width: 3,
        height: 4,
        thumb: vec![],
    };
    let item = item_from(0, p);
    assert_eq!(
        item.sha256[..4],
        [0xba, 0x78, 0x16, 0xbf],
        "the digest of abc"
    );
    assert_eq!((item.w, item.h), (3, 4));
}

#[test]
fn packs_are_shown_with_their_keys() {
    let info = pack_info(PackInfo {
        pack_id: [1u8; 16],
        pack_pk: [2u8; 32],
        title: "t".into(),
        kind: KIND_EMOJI,
        visibility: 0,
        item_count: 3,
        icon_item_id: 1,
        ours: true,
        cached: false,
    });
    assert_eq!(info.pack_id, "01".repeat(16));
    assert_eq!(info.pack_pk, "02".repeat(32));
    let created = pack_created(&[1u8; 16], &[2u8; 32]);
    assert_eq!(created.pack_id, info.pack_id);
    assert_eq!(created.pack_pk, info.pack_pk);
}
