use schat::bytes::{read_be16, read_be32, read_be64};
use schat::close::{close_contact, close_cut};
use schat::engine::burn::BurnStep;
use schat::engine::dispatch::{maybe_request_resync, Content, Effect};
use schat::engine::drain::{
    backoff_secs, close_due, enter_closing, ClosingRow, DrainPass, DrainStep, CLOSE_SETTLE_SECS,
};
use schat::engine::inbound::{
    handle_plaintext, implied_caps, Admission, EnvelopeHead, FreshPlan, InboundFacts, LedgerEntry,
};
use schat::engine::lifecycle::{activation_sync, on_relationship_active};
use schat::engine::send::{
    after_send, gate_outbound, local_echo, send_delete, send_delete_all, send_edit, send_envelope,
    send_presence, send_read, send_text, send_typing, Outgoing, Sent, MESSAGE_TTL_SECS,
};
use schat::engine::{Engine, EngineError, EngineEvent};
use schat::pairing::relationship::Relationship;
use schat::policy::machine::build_propose;
use schat::policy::PolicyState;
use schat::presence::Presence;
use schat::ratelimit::{limited, Surface};
use schat::store::{DeliveryState, Direction, MessageRow};
use schat::wire::caps;
use schat::wire::envelope::EnvelopeType;
use schat::wire::policy::{
    ChatPolicy, CAP_ID_ATTACH, OP_CAP_SET, OP_RULE_PROPOSE, OP_SYNC, TTL_1H,
};

fn env(kind: EnvelopeType) -> EnvelopeHead {
    EnvelopeHead {
        msg_id: [1u8; 16],
        app_seq: 5,
        sent_at: 1000,
        ref_id: Some([2u8; 16]),
        kind,
    }
}

fn facts() -> InboundFacts {
    InboundFacts {
        peer_caps: caps::LOCAL,
        closing: false,
        sent_at: Some(1000),
        in_ledger: false,
        seq_seen: false,
        opens_gap: false,
        accepter: false,
        activation_sent: true,
        history_cut: 0,
        tombstoned: false,
        expires_at: Some(2000),
    }
}

// Inbound

fn admitted(env: &EnvelopeHead, facts: &InboundFacts) -> Admission {
    handle_plaintext(env, Some(facts)).unwrap()
}

#[test]
fn an_unknown_relationship_is_refused() {
    assert!(matches!(
        handle_plaintext(&env(EnvelopeType::Msg), None),
        Err(EngineError::UnknownRelationship)
    ));
}

#[test]
fn a_new_message_is_stored_and_handled() {
    assert_eq!(
        admitted(&env(EnvelopeType::Msg), &facts()),
        Admission::Fresh(FreshPlan {
            activate: false,
            ledger: Some(LedgerEntry {
                sent_at: 1000,
                expires_at: Some(2000)
            }),
            handle: true,
            gap: false,
        })
    );
}

#[test]
fn gates_come_in_order() {
    let mut f = facts();
    f.in_ledger = true;
    assert_eq!(
        admitted(&env(EnvelopeType::Msg), &f),
        Admission::Duplicate
    );
    f.in_ledger = false;
    f.seq_seen = true;
    assert_eq!(
        admitted(&env(EnvelopeType::Msg), &f),
        Admission::Duplicate
    );
    f.sent_at = None;
    assert_eq!(
        admitted(&env(EnvelopeType::Msg), &f),
        Admission::Skewed
    );
    f.closing = true;
    assert_eq!(
        admitted(&env(EnvelopeType::Msg), &f),
        Admission::Settling
    );
    f.peer_caps = 0;
    assert_eq!(
        admitted(&env(EnvelopeType::Typing), &f),
        Admission::CapGated
    );
    // Resync requests still come through while closing.
    let mut f = facts();
    f.closing = true;
    assert!(matches!(
        admitted(&env(EnvelopeType::ResyncReq), &f),
        Admission::Fresh(_)
    ));
}

#[test]
fn nothing_is_asked_of_a_closed_contact() {
    let mut f = facts();
    f.opens_gap = true;
    for (kind, asks) in [
        (EnvelopeType::Msg, true),
        (EnvelopeType::ContactClose, false),
    ] {
        let Admission::Fresh(plan) = admitted(&env(kind), &f) else {
            panic!("fresh")
        };
        assert!(plan.handle && plan.gap == asks);
    }
}

#[test]
fn the_deleted_keeps_its_number_only() {
    let mut f = facts();
    f.tombstoned = true;
    f.opens_gap = true;
    f.accepter = true;
    f.activation_sent = false;
    assert_eq!(
        admitted(&env(EnvelopeType::Msg), &f),
        Admission::Fresh(FreshPlan {
            activate: true,
            ledger: None,
            handle: false,
            gap: true,
        })
    );
}

#[test]
fn ephemeral_types_are_not_stored() {
    for t in [EnvelopeType::Typing, EnvelopeType::Presence] {
        let Admission::Fresh(plan) = admitted(&env(t), &facts()) else {
            panic!("it is new")
        };
        assert!(plan.handle);
        assert_eq!(plan.ledger, None);
    }
}

#[test]
fn a_received_type_shows_its_cap() {
    assert_eq!(
        implied_caps(1, EnvelopeType::Typing),
        Some(1 | caps::CAP_TYPING)
    );
    assert_eq!(implied_caps(caps::LOCAL, EnvelopeType::Typing), None);
    assert_eq!(implied_caps(0, EnvelopeType::Msg), None);
}

fn row() -> MessageRow {
    MessageRow {
        msg_id: [2u8; 16],
        rel_id: "rel".into(),
        direction: Direction::In,
        app_seq: 4,
        sent_at: 900,
        received_at: Some(900),
        env_type: EnvelopeType::Msg.code(),
        ref_id: None,
        payload: b"hello".to_vec(),
        state: DeliveryState::Received,
        expires_at: None,
        created_at: 900,
        edited: false,
        tombstone: false,
        read_at: None,
        edit_count: 0,
        last_edit_seq: 0,
    }
}

#[test]
fn messages_edits_and_deletions() {
    let mut e = Engine::new();
    let d = e.dispatch("rel", &env(EnvelopeType::Msg), &Content::Msg, 1000);
    assert!(matches!(d.effects[..], [Effect::FetchEmoji]));
    assert_eq!(
        d.events,
        vec![EngineEvent::Message {
            rel_id: "rel".into(),
            msg_id: [1u8; 16]
        }]
    );

    let target = row();
    let edit = Content::Edit {
        body_bytes: 10,
        target: Some(&target),
        tombstoned: false,
        history_cut: 0,
    };
    let d = e.dispatch("rel", &env(EnvelopeType::Edit), &edit, 1000);
    assert!(matches!(
        d.effects[..],
        [Effect::MarkEdited { target, app_seq: 5 }] if target == [2u8; 16]
    ));
    let missing = Content::Edit {
        body_bytes: 10,
        target: None,
        tombstoned: false,
        history_cut: 0,
    };
    let d = e.dispatch("rel", &env(EnvelopeType::Edit), &missing, 1000);
    assert!(d.effects.is_empty() && d.events.is_empty());

    let d = e.dispatch(
        "rel",
        &env(EnvelopeType::Delete),
        &Content::Delete { marks: false },
        1000,
    );
    assert_eq!(d.effects.len(), 3, "a tombstone is set also for the unknown");
    assert!(d.events.is_empty());
    let mut aimless = env(EnvelopeType::Delete);
    aimless.ref_id = None;
    let d = e.dispatch("rel", &aimless, &Content::Delete { marks: true }, 1000);
    assert!(d.effects.is_empty() && d.events.is_empty());

    let d = e.dispatch("rel", &env(EnvelopeType::DeleteAll), &Content::DeleteAll, 1000);
    assert!(
        matches!(d.effects[..], [Effect::RaiseCut(5), Effect::EraseHistory(keep)] if keep == [1u8; 16])
    );
    let d = e.dispatch(
        "rel",
        &env(EnvelopeType::ContactClose),
        &Content::ContactClose,
        1000,
    );
    assert!(matches!(d.effects[..], [Effect::Burn]));
}

#[test]
fn receipts_obey_the_policy() {
    let mut e = Engine::new();
    let on = PolicyState::default();
    let mut off = on;
    off.peer_want = 0;
    let read = env(EnvelopeType::Read);
    let d = e.dispatch("rel", &read, &Content::Read { marks: true, policy: on }, 1000);
    assert_eq!(
        d.events,
        vec![EngineEvent::Read {
            rel_id: "rel".into(),
            msg_id: [2u8; 16]
        }]
    );
    let d = e.dispatch("rel", &read, &Content::Read { marks: true, policy: off }, 1000);
    assert!(d.effects.is_empty() && d.events.is_empty());
    let d = e.dispatch("rel", &read, &Content::Read { marks: false, policy: on }, 1000);
    assert_eq!(d.effects.len(), 1);
    assert!(d.events.is_empty());
}

#[test]
fn presence_floods_are_dropped() {
    let mut e = Engine::new();
    let policy = PolicyState::default();
    let beat = |in_app: bool| Content::Presence {
        presence: Presence {
            in_app,
            do_not_disturb: false,
        },
        policy,
    };
    let head = env(EnvelopeType::Presence);
    let (cap, _) = Surface::Ephemeral.bucket_params();
    for i in 0..cap {
        let d = e.dispatch("rel", &head, &beat(i % 2 == 0), 1000);
        assert_eq!(d.events.len(), 1, "each beat is a change");
    }
    let d = e.dispatch("rel", &head, &beat(cap % 2 == 0), 1000);
    assert!(d.events.is_empty());
    assert_eq!(limited(&e.limited, Surface::Ephemeral), 1);
    // Typing shares the bucket.
    let d = e.dispatch(
        "rel",
        &env(EnvelopeType::Typing),
        &Content::Typing {
            typing: true,
            policy,
        },
        1000,
    );
    assert!(d.effects.is_empty());
    // Where presence is off, nothing is counted.
    let mut off = policy;
    off.local_want = 0;
    e.dispatch(
        "rel",
        &head,
        &Content::Presence {
            presence: Presence {
                in_app: true,
                do_not_disturb: false,
            },
            policy: off,
        },
        1000,
    );
    assert_eq!(limited(&e.limited, Surface::Ephemeral), 2);
}

fn sync(want_typing: bool) -> ChatPolicy {
    ChatPolicy {
        op: OP_SYNC,
        ttl_sec: 86_400,
        screenshot: true,
        attach_download: true,
        want_attach: true,
        want_emoji: true,
        want_presence: true,
        want_typing,
        want_receipts: true,
        cap_id: 0,
        cap_on: false,
        propose_id: [0u8; 16],
    }
}

#[test]
fn a_sync_is_answered_once() {
    let mut e = Engine::new();
    let head = env(EnvelopeType::ChatPolicy);
    let state = PolicyState::default();
    let op = sync(false);
    let d = e.dispatch("rel", &head, &Content::ChatPolicy { op, policy: state }, 1000);
    assert_eq!(d.effects.len(), 3);
    let Effect::SavePolicy(saved) = d.effects[1] else {
        panic!("the reply is remembered")
    };
    assert_eq!(saved.last_sync_at, 1000);
    assert!(matches!(d.effects[2], Effect::SendPolicy(p) if p.op == OP_SYNC && p.want_typing));
    assert_eq!(d.events.len(), 1);
    // Right after, no reply is due.
    let d = e.dispatch("rel", &head, &Content::ChatPolicy { op, policy: saved }, 1029);
    assert_eq!(d.effects.len(), 1);
    assert!(d.events.is_empty());
    let d = e.dispatch("rel", &head, &Content::ChatPolicy { op, policy: saved }, 1030);
    assert_eq!(d.effects.len(), 3);
}

#[test]
fn policy_operations_take_effect_in_order() {
    let mut e = Engine::new();
    let head = env(EnvelopeType::ChatPolicy);
    let state = PolicyState::default();
    let mut op = sync(true);
    op.op = OP_CAP_SET;
    op.cap_id = CAP_ID_ATTACH;
    let d = e.dispatch("rel", &head, &Content::ChatPolicy { op, policy: state }, 1000);
    assert!(matches!(
        d.effects[..],
        [Effect::SavePolicy(_), Effect::EraseAttachments]
    ));
    op.op = OP_RULE_PROPOSE;
    let d = e.dispatch("rel", &head, &Content::ChatPolicy { op, policy: state }, 1000);
    assert!(
        matches!(d.effects[..], [Effect::SavePolicy(s)] if s.pending.is_some_and(|p| p.inbound && p.propose_id == [1u8; 16]))
    );
    assert_eq!(d.events.len(), 1);
    op.ttl_sec = 61;
    let d = e.dispatch("rel", &head, &Content::ChatPolicy { op, policy: state }, 1000);
    assert!(d.effects.is_empty() && d.events.is_empty(), "no such lifetime");
    op.ttl_sec = TTL_1H;
    op.op = 99;
    let d = e.dispatch("rel", &head, &Content::ChatPolicy { op, policy: state }, 1000);
    assert!(d.effects.is_empty() && d.events.is_empty());
}

#[test]
fn resync_requests_are_throttled() {
    let mut e = Engine::new();
    let head = env(EnvelopeType::ResyncReq);
    let mut policy = PolicyState::default();
    policy.last_sync_at = 1000;
    let content = Content::ResyncReq { caps: 3, policy };
    let (cap, _) = Surface::ResyncReq.bucket_params();
    for _ in 0..cap {
        let d = e.dispatch("rel", &head, &content, 1000);
        assert!(matches!(
            d.effects[..],
            [Effect::NoteCaps(3), Effect::Retransmit]
        ));
    }
    let d = e.dispatch("rel", &head, &content, 1000);
    assert!(d.effects.is_empty());
    // A gap leads to one request per interval.
    let stamp = maybe_request_resync(None, 1000).unwrap();
    assert_eq!(read_be64(&stamp, 0), 1000);
    assert!(maybe_request_resync(Some(&stamp), 1009).is_none());
    assert!(maybe_request_resync(Some(&stamp), 1010).is_some());
}

#[test]
fn other_contents_are_passed_on() {
    let mut e = Engine::new();
    let head = env(EnvelopeType::Profile);
    let d = e.dispatch("rel", &head, &Content::Profile { changed: false }, 1);
    assert!(d.effects.is_empty() && d.events.is_empty());
    let d = e.dispatch("rel", &head, &Content::Profile { changed: true }, 1);
    assert!(matches!(d.effects[..], [Effect::PutProfile]));
    let d = e.dispatch("rel", &head, &Content::ProfileReq, 1);
    assert_eq!(
        d.events,
        vec![EngineEvent::ProfileRequested {
            rel_id: "rel".into()
        }]
    );
    let d = e.dispatch("rel", &head, &Content::Pref, 1);
    assert!(matches!(d.effects[..], [Effect::PutPrefs]));
    let d = e.dispatch("rel", &head, &Content::AttachHead, 1);
    assert!(matches!(d.effects[..], [Effect::AttachHead]));
    let d = e.dispatch("rel", &head, &Content::AttachChunk, 1);
    assert!(matches!(d.effects[..], [Effect::AttachChunk]));
    let d = e.dispatch("rel", &head, &Content::Sticker, 1);
    assert!(matches!(d.effects[..], [Effect::Sticker]));
    let d = e.dispatch("rel", &head, &Content::StickerCtrl, 1);
    assert!(matches!(d.effects[..], [Effect::StickerCtrl]));
}

// Outbound

fn relationship(role: &str, state: &str) -> Relationship {
    Relationship {
        rel_id: "rel".into(),
        role: role.into(),
        state: state.into(),
        service_id: "svc".into(),
        onion: "a.onion".into(),
        peer_onion: "b.onion".into(),
        peer_identity_key: vec![1],
        peer_client_auth_public: "pub".into(),
        our_client_auth_private: "priv".into(),
        our_nonce: [0u8; 32],
        peer_nonce: [0u8; 32],
        our_qr_bytes: vec![9, 9],
        intro_pending: true,
        session_state: "active".into(),
        created_at: 1,
    }
}

#[test]
fn outbound_refusals_come_in_order() {
    let policy = PolicyState::default();
    let mut r = relationship("accepter", "active");
    let ok = |r: &Relationship, closing, caps, t| gate_outbound(r, closing, caps, &policy, t);
    assert!(ok(&r, false, caps::LOCAL, EnvelopeType::Msg).is_ok());
    assert!(matches!(
        ok(&r, false, 0, EnvelopeType::Typing),
        Err(EngineError::CapGated(EnvelopeType::Typing))
    ));
    assert!(matches!(
        ok(&r, true, 0, EnvelopeType::Typing),
        Err(EngineError::Closing)
    ));
    for t in [
        EnvelopeType::DeleteAll,
        EnvelopeType::ContactClose,
        EnvelopeType::ResyncReq,
    ] {
        assert!(ok(&r, true, 0, t).is_ok());
    }
    assert!(matches!(
        ok(&relationship("inviter", "request"), false, 0, EnvelopeType::Msg),
        Err(EngineError::NotActive)
    ));
    assert!(ok(&relationship("accepter", "request"), false, 0, EnvelopeType::Msg).is_ok());
    assert!(matches!(
        ok(&relationship("accepter", "closed"), false, 0, EnvelopeType::Msg),
        Err(EngineError::NotActive)
    ));
    r.session_state = "broken".into();
    assert!(matches!(
        ok(&r, true, 0, EnvelopeType::Msg),
        Err(EngineError::SessionBroken)
    ));
}

#[test]
fn the_policy_denies_what_is_off() {
    let mut policy = PolicyState::default();
    policy.peer_want = 0;
    let r = relationship("accepter", "active");
    for t in [
        EnvelopeType::Typing,
        EnvelopeType::Presence,
        EnvelopeType::Read,
        EnvelopeType::Sticker,
        EnvelopeType::StickerCtrl,
        EnvelopeType::AttachHead,
        EnvelopeType::AttachChunk,
    ] {
        let Err(e) = gate_outbound(&r, false, caps::LOCAL, &policy, t) else {
            panic!("{t:?} is off")
        };
        assert_eq!(e.message(), format!("chat policy denies {t:?}"));
    }
    assert!(gate_outbound(&r, false, caps::LOCAL, &policy, EnvelopeType::Msg).is_ok());
}

#[test]
fn what_leaves_is_planned() {
    let policy = PolicyState::default();
    let r = relationship("accepter", "active");
    let text = send_text("hello", None).unwrap();
    let plan = send_envelope(
        Some(&r),
        false,
        caps::LOCAL,
        &policy,
        &text,
        17,
        1000,
    )
    .unwrap();
    assert_eq!(plan.sent.app_seq, 17);
    assert_eq!(plan.head.msg_id, plan.sent.msg_id);
    assert_eq!((plan.head.app_seq, plan.head.sent_at), (17, 1000));
    assert_eq!((plan.head.ref_id, plan.head.kind), (None, EnvelopeType::Msg));
    assert_eq!(plan.row.msg_id, plan.sent.msg_id);
    assert_eq!((plan.row.direction, plan.row.app_seq), (Direction::Out, 17));
    assert_eq!((plan.row.sent_at, plan.row.received_at), (1000, None));
    assert_eq!(plan.row.env_type, EnvelopeType::Msg.code());
    assert_eq!(plan.row.expires_at, Some(1000 + 86_400));
    assert_eq!(plan.row.state, DeliveryState::Queued);
    assert_eq!(plan.queue_secs, MESSAGE_TTL_SECS);
    assert_eq!(plan.intro, Some(vec![9, 9]));
    let again = send_envelope(
        Some(&r),
        false,
        caps::LOCAL,
        &policy,
        &text,
        18,
        1000,
    )
    .unwrap();
    assert_ne!(plan.sent.msg_id, again.sent.msg_id);
    assert!(matches!(
        send_envelope(None, false, 0, &policy, &text, 1, 1),
        Err(EngineError::UnknownRelationship)
    ));
    assert_eq!(after_send(true), DeliveryState::Transmitted);
    assert_eq!(after_send(false), DeliveryState::Queued);
    assert!(text.alert && !send_read([1u8; 16]).alert);
}

#[test]
fn bodies_and_edits_are_checked() {
    assert!(send_text(&"x".repeat(16_384), None).is_ok());
    assert!(matches!(
        send_text(&"x".repeat(16_385), None),
        Err(EngineError::EditDenied("body too large"))
    ));
    // The limit is on bytes.
    assert!(send_text(&"é".repeat(8_193), None).is_err());
    let reply = send_text("yes", Some([3u8; 16])).unwrap();
    assert_eq!(
        (reply.t, reply.ref_id, reply.alert),
        (EnvelopeType::Msg, Some([3u8; 16]), true)
    );
    let mut mine = row();
    mine.direction = Direction::Out;
    let edit = send_edit(Some(&mine), "rel", [1u8; 16], 1000).unwrap();
    assert_eq!(
        (edit.t, edit.ref_id, edit.alert),
        (EnvelopeType::Edit, Some([1u8; 16]), false)
    );
    assert!(matches!(
        send_edit(Some(&mine), "other", [1u8; 16], 1000),
        Err(EngineError::NotFound)
    ));
    assert!(matches!(
        send_edit(None, "rel", [1u8; 16], 1000),
        Err(EngineError::NotFound)
    ));
    assert!(matches!(
        send_edit(Some(&row()), "rel", [1u8; 16], 1000),
        Err(EngineError::EditDenied(_))
    ));
}

#[test]
fn stops_are_always_told() {
    assert!(send_typing(true, false).is_none());
    for (typing, due) in [(true, true), (false, true), (false, false)] {
        let out = send_typing(typing, due).unwrap();
        assert_eq!((out.t, out.ref_id), (EnvelopeType::Typing, None));
    }
    assert_eq!(send_presence().t, EnvelopeType::Presence);
    assert_eq!(send_read([1u8; 16]).ref_id, Some([1u8; 16]));
}

#[test]
fn the_ledger_follows_what_was_sent() {
    let sent = Sent {
        msg_id: [7u8; 16],
        app_seq: 9,
    };
    let edit = Outgoing {
        t: EnvelopeType::Edit,
        ref_id: Some([2u8; 16]),
        alert: false,
    };
    assert!(matches!(
        local_echo(&edit, &sent)[..],
        [Effect::MarkEdited { app_seq: 9, .. }]
    ));
    assert!(
        matches!(local_echo(&send_delete([2u8; 16]), &sent)[..], [Effect::MarkTombstoned(a), Effect::AddTombstone(b)] if a == [2u8; 16] && b == a)
    );
    assert!(
        matches!(local_echo(&send_delete_all(), &sent)[..], [Effect::RaiseCut(9), Effect::EraseHistory(id)] if id == [7u8; 16])
    );
    assert!(local_echo(&send_read([2u8; 16]), &sent).is_empty());
}

// Draining, closing, burning

#[test]
fn backoff_doubles_to_five_minutes() {
    let waits: Vec<u64> = (0..9).map(backoff_secs).collect();
    assert_eq!(waits, vec![5, 10, 20, 40, 80, 160, 300, 300, 300]);
    assert_eq!(backoff_secs(u32::MAX), 300);
}

#[test]
fn a_failed_peer_is_not_tried_again() {
    let mut pass = DrainPass::new();
    assert_eq!(pass.next(Some("a.onion"), 0), DrainStep::Attempt);
    assert_eq!(pass.note_failed("a.onion", 2), 20);
    assert_eq!(pass.next(Some("a.onion"), 1), DrainStep::Backoff(10));
    assert_eq!(pass.next(Some("b.onion"), 1), DrainStep::Attempt);
    pass.note_sent();
    assert_eq!(pass.next(None, 0), DrainStep::Drop);
    assert_eq!(pass.sent(), 1);
}

#[test]
fn closing_waits_for_the_outbox_or_a_minute() {
    let stamp = enter_closing(false, 1000).unwrap();
    assert!(enter_closing(true, 1000).is_none());
    let mut row = ClosingRow {
        rel_id: "rel".into(),
        created_at: 1,
        started: Some(stamp),
        outbox: 2,
    };
    assert!(!close_due(&row, 1000 + CLOSE_SETTLE_SECS - 1));
    assert!(close_due(&row, 1000 + CLOSE_SETTLE_SECS));
    row.outbox = 0;
    assert!(close_due(&row, 1000));
    row.outbox = 1;
    row.started = Some(vec![1]);
    assert!(!close_due(&row, 60));
    assert!(close_due(&row, 61), "since the relationship was made");
}

#[test]
fn sweeping_burns_and_reports() {
    let mut e = Engine::new();
    let here = Presence {
        in_app: true,
        do_not_disturb: false,
    };
    e.presence.note("a", here, 100);
    e.presence.note("b", here, 100);
    let closing = vec![ClosingRow {
        rel_id: "a".into(),
        created_at: 0,
        started: None,
        outbox: 0,
    }];
    let typing = vec!["a".to_string(), "c".to_string()];
    let r = e.sweep(&closing, &typing, 1_000_000);
    assert_eq!(r.burn, vec!["a".to_string()]);
    assert_eq!(
        r.events,
        vec![
            EngineEvent::ContactClosed { rel_id: "a".into() },
            EngineEvent::Presence {
                rel_id: "b".into(),
                in_app: false,
                do_not_disturb: false
            },
            EngineEvent::Typing {
                rel_id: "c".into(),
                typing: false
            },
        ]
    );
    assert_eq!(r.typing_at, 2, "the burned relationship types no more");
    let none: Vec<ClosingRow> = Vec::new();
    assert!(e.sweep(&none, &Vec::new(), 1_000_001).events.is_empty());
}

#[test]
fn burning_erases_chunks_before_attachments() {
    let mut e = Engine::new();
    let steps = e.burn_relationship("rel", true);
    let at = |s: BurnStep| steps.iter().position(|x| *x == s).unwrap();
    assert_eq!(at(BurnStep::RemoveService), 0);
    assert!(at(BurnStep::Chunks) < at(BurnStep::Attachments));
    assert!(at(BurnStep::Attachments) < at(BurnStep::Relationship));
    for kept_before in [
        BurnStep::OrphanChunks,
        BurnStep::ActivationSent,
        BurnStep::IntroSeen,
        BurnStep::Typing,
        BurnStep::StickerBuffers,
    ] {
        assert_eq!(steps.iter().filter(|s| **s == kept_before).count(), 1);
    }
    assert_eq!(steps.len(), 18);
    assert!(e.burn_relationship("rel", false).is_empty());
}

#[test]
fn closing_sends_two_frames() {
    let plan = close_contact(false, 1000).unwrap();
    assert_eq!(
        plan.frames,
        [EnvelopeType::DeleteAll, EnvelopeType::ContactClose]
    );
    assert_eq!(read_be64(&plan.stamp, 0), 1000);
    assert!(close_contact(true, 1000).is_none());
    let da = Sent {
        msg_id: [1u8; 16],
        app_seq: 8,
    };
    let cc = Sent {
        msg_id: [2u8; 16],
        app_seq: 9,
    };
    assert_eq!(close_cut(&da, &cc), (9, [[1u8; 16], [2u8; 16]]));
}

#[test]
fn activation_tolerates_a_missing_cap() {
    let (next, p) = activation_sync(PolicyState::default(), 77);
    assert_eq!(next.last_sync_at, 77);
    assert_eq!(p.op, OP_SYNC);
    assert!(matches!(on_relationship_active(Ok(())), Ok(true)));
    assert!(matches!(
        on_relationship_active(Err(EngineError::CapGated(EnvelopeType::ChatPolicy))),
        Ok(false)
    ));
    assert!(matches!(
        on_relationship_active(Err(EngineError::Closing)),
        Err(EngineError::Closing)
    ));
}

#[test]
fn errors_have_their_messages() {
    let say = |e: EngineError| e.message();
    assert_eq!(say(EngineError::UnknownRelationship), "unknown relationship");
    assert_eq!(
        say(EngineError::NotActive),
        "relationship not active (request pending or closed)"
    );
    assert_eq!(
        say(EngineError::CapGated(EnvelopeType::Read)),
        "peer never advertised the capability for Read"
    );
    assert_eq!(
        say(EngineError::EditDenied("anything")),
        "edit window closed or edit cap reached"
    );
    assert_eq!(say(EngineError::NotFound), "target message not found");
    assert_eq!(
        say(EngineError::SessionBroken),
        "session broken; re-pair required"
    );
}

#[test]
fn numbers_are_big_endian() {
    assert_eq!(read_be16(&[1, 2], 0), 0x0102);
    assert_eq!(read_be32(&[0, 1, 2, 3, 4], 1), 0x0102_0304);
    assert_eq!(read_be64(&[0, 0, 0, 0, 0, 0, 1, 0], 0), 256);
}

#[test]
fn proposals_of_both_sides_meet() {
    let (ours, asked) = build_propose(PolicyState::default(), TTL_1H, true, true, [9u8; 16]).unwrap();
    let mut e = Engine::new();
    let head = env(EnvelopeType::ChatPolicy);
    let d = e.dispatch(
        "rel",
        &head,
        &Content::ChatPolicy {
            op: asked,
            policy: PolicyState::default(),
        },
        1000,
    );
    let Effect::SavePolicy(theirs) = d.effects[0] else {
        panic!("saved")
    };
    let d = schat::policy::engine::accept_rules("rel", theirs, 1000).unwrap();
    let Effect::SendPolicy(answer) = d.effects[2] else {
        panic!("answered")
    };
    let d = e.dispatch(
        "rel",
        &head,
        &Content::ChatPolicy {
            op: answer,
            policy: ours,
        },
        1000,
    );
    assert!(
        matches!(d.effects[..], [Effect::SavePolicy(s), Effect::ClampExpiry(4600)] if s.ttl_sec == TTL_1H && s.pending.is_none())
    );
}
