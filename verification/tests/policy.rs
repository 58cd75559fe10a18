use schat::engine::dispatch::Effect;
use schat::engine::{EngineError, EngineEvent};
use schat::pairing::relationship::Relationship;
use schat::policy::engine::{
    accept_rules, decline_rules, proposal_of, propose_rules, set_capability, Proposal,
};
use schat::policy::machine::{
    apply_accept, apply_cap_set, apply_propose, apply_rules, apply_sync, build_accept,
    build_cap_set, build_propose, build_sync,
};
use schat::policy::store::{
    clamp_message_expiry, decode_pending, encode_pending, erase_attach_messages, load_policy,
    save_policy,
};
use schat::policy::{PendingProposal, PolicyState};
use schat::store::{DeliveryState, Direction, MessageRow, StoreError};
use schat::wire::caps;
use schat::wire::envelope::EnvelopeType;
use schat::wire::policy::{
    ChatPolicy, CAP_ID_ATTACH, CAP_ID_TYPING, FLAG_WANT_TYPING, OP_CAP_SET, OP_RULE_ACCEPT,
    OP_RULE_PROPOSE, TTL_14D, TTL_1H, TTL_24H, TTL_7D, TTL_NEVER,
};

// The machine

#[test]
fn propose_accept_round_trip() {
    let a = PolicyState::default(); // us
    let b = PolicyState::default(); // peer
    let id = [7u8; 16];

    // We propose 1h TTL, no screenshots.
    let (a1, prop) = build_propose(a, TTL_1H, false, true, id).unwrap();
    assert!(a1.pending.is_some_and(|p| !p.inbound && p.propose_id == id));

    // Peer records the inbound proposal, then accepts.
    let b1 = apply_propose(b, &prop, id);
    let (b2, accept, b_out) = build_accept(b1, 1000).unwrap();
    assert!(b_out.changed);
    assert_eq!(b2.ttl_sec, TTL_1H);
    assert!(!b2.screenshot);
    assert!(b2.pending.is_none());
    // TTL shrank from 24h to 1h: clamp.
    assert_eq!(b_out.clamp_expiry_to, Some(1000 + 3600));

    // We apply their accept (must match our pending id).
    let wrong = ChatPolicy {
        propose_id: [9u8; 16],
        ..accept
    };
    assert!(
        apply_accept(a1, &wrong, 1000).is_none(),
        "forged id dropped"
    );
    let (a2, a_out) = apply_accept(a1, &accept, 1000).unwrap();
    assert_eq!(a2.ttl_sec, TTL_1H);
    assert!(a2.pending.is_none());
    assert_eq!(a_out.clamp_expiry_to, Some(1000 + 3600));
}

#[test]
fn accept_without_pending_is_dropped() {
    let s = PolicyState::default();
    let p = ChatPolicy {
        op: OP_RULE_ACCEPT,
        ttl_sec: TTL_1H,
        screenshot: true,
        attach_download: true,
        want_attach: true,
        want_emoji: true,
        want_presence: true,
        want_typing: true,
        want_receipts: true,
        cap_id: 0,
        cap_on: false,
        propose_id: [1u8; 16],
    };
    assert!(apply_accept(s, &p, 0).is_none());
}

#[test]
fn cap_set_one_to_disable_two_to_enable() {
    let s = PolicyState::default();
    assert!(s.typing());

    // Peer disables typing: BOTH wants clear locally.
    let (s1, out) = apply_cap_set(&s, CAP_ID_TYPING, false);
    assert!(!s1.typing());
    assert!(
        s1.local_want & FLAG_WANT_TYPING == 0,
        "our want cleared too"
    );
    assert!(out.changed);

    // Peer re-enables: only THEIR want returns; still off for us.
    let (s2, _) = apply_cap_set(&s1, CAP_ID_TYPING, true);
    assert!(!s2.typing(), "two-to-enable: our want still cleared");

    // We re-enable too: now it's on.
    let (s3, _, _) = build_cap_set(&s2, CAP_ID_TYPING, true).unwrap();
    assert!(s3.typing());
}

#[test]
fn cap_set_attach_disable_erases() {
    let s = PolicyState::default();
    let (_, out) = apply_cap_set(&s, CAP_ID_ATTACH, false);
    assert!(out.erase_attachments);
    // Re-disable when already off: no erase (was not enforced).
    let (s1, _) = apply_cap_set(&s, CAP_ID_ATTACH, false);
    let (_, out2) = apply_cap_set(&s1, CAP_ID_ATTACH, false);
    assert!(!out2.erase_attachments);
}

#[test]
fn sync_replaces_peer_wants() {
    let s = PolicyState::default();
    let mut p = build_sync(s, 0).1;
    p.want_typing = false;
    p.want_receipts = false;
    let (s1, out) = apply_sync(&s, &p);
    assert!(out.changed);
    assert!(!s1.typing() && !s1.receipts());
    assert!(s1.presence() && s1.attachments() && s1.emoji());
    // Identical sync: no change.
    let (_, out2) = apply_sync(&s1, &p);
    assert!(!out2.changed);
}

#[test]
fn ttl_never_then_shrink_clamps() {
    let s = PolicyState {
        ttl_sec: TTL_NEVER,
        ..PolicyState::default()
    };
    let (s1, out) = apply_rules(s, TTL_7D, true, true, 5000);
    assert_eq!(
        out.clamp_expiry_to,
        Some(5000 + 604_800),
        "never → 7d clamps"
    );
    let (s2, out2) = apply_rules(s1, TTL_14D, true, true, 6000);
    assert_eq!(out2.clamp_expiry_to, None, "growing the TTL never clamps");
    assert_eq!(s2.ttl_sec, TTL_14D);
}

#[test]
fn expiry_follows_the_lifetime() {
    let mut s = PolicyState::default();
    assert_eq!(s.expiry_at(1_000), Some(1_000 + 86_400));
    s.ttl_sec = TTL_NEVER;
    assert_eq!(s.expiry_at(1_000), None);
}

// The columns

fn default_row() -> schat::policy::store::PolicyRow {
    save_policy(&PolicyState::default())
}

#[test]
fn policy_roundtrip_with_pending() {
    let row = default_row();
    let def = load_policy(Some(&row), "rel").unwrap();
    assert_eq!(def, PolicyState::default());

    let mut state = def;
    state.ttl_sec = TTL_7D;
    state.screenshot = false;
    state.local_want &= !FLAG_WANT_TYPING;
    state.pending = Some(PendingProposal {
        ttl_sec: TTL_1H,
        screenshot: true,
        attach_download: false,
        inbound: true,
        propose_id: [3u8; 16],
    });
    let row = save_policy(&state);
    assert_eq!(load_policy(Some(&row), "rel").unwrap(), state);
}

fn row(id: u8, env_type: u8, expires_at: Option<u64>) -> MessageRow {
    MessageRow {
        msg_id: [id; 16],
        rel_id: "rel".into(),
        direction: Direction::In,
        app_seq: u64::from(id),
        sent_at: 1,
        received_at: Some(1),
        env_type,
        ref_id: None,
        payload: vec![],
        state: DeliveryState::Received,
        expires_at,
        created_at: 1,
        edited: false,
        tombstone: false,
        read_at: None,
        edit_count: 0,
        last_edit_seq: 0,
    }
}

#[test]
fn clamp_only_shrinks() {
    let mut rows = vec![
        row(1, 1, Some(10_000)),
        row(2, 1, None),
        row(3, 1, Some(5_000)),
    ];
    let n = clamp_message_expiry(&mut rows, "rel", 8_000);
    assert_eq!(n, 2, "10k clamped, NULL clamped, 5k untouched");
    assert_eq!(rows[0].expires_at, Some(8_000));
    assert_eq!(rows[1].expires_at, Some(8_000));
    assert_eq!(rows[2].expires_at, Some(5_000));
}

#[test]
fn missing_and_corrupt_rows_are_errors() {
    assert!(load_policy(None, "rel").is_err());
    let Err(StoreError::Corrupt(why)) = decode_pending(&[1, 2, 3]) else {
        panic!("three bytes are no proposal")
    };
    assert!(why.starts_with("policy_pending: 3"), "{why}");
    let p = PendingProposal {
        ttl_sec: TTL_24H,
        screenshot: false,
        attach_download: true,
        inbound: false,
        propose_id: [8u8; 16],
    };
    assert_eq!(decode_pending(&encode_pending(&p)).unwrap(), p);
}

#[test]
fn erasing_finds_live_heads_only() {
    let head = EnvelopeType::AttachHead.code();
    let mut gone = row(2, head, None);
    gone.tombstone = true;
    let mut other = row(3, head, None);
    other.rel_id = "other".into();
    let rows = vec![row(1, head, None), gone, other, row(4, 1, None)];
    assert_eq!(erase_attach_messages(&rows, "rel"), vec![[1u8; 16]]);
}

// What a client does

fn relationship() -> Relationship {
    Relationship {
        rel_id: "rel".into(),
        role: "accepter".into(),
        state: "active".into(),
        service_id: "svc".into(),
        onion: "a.onion".into(),
        peer_onion: "b.onion".into(),
        peer_identity_key: vec![1],
        peer_client_auth_public: "pub".into(),
        our_client_auth_private: "priv".into(),
        our_nonce: [0u8; 32],
        peer_nonce: [0u8; 32],
        our_qr_bytes: vec![9, 9],
        intro_pending: false,
        session_state: "active".into(),
        created_at: 1,
    }
}

#[test]
fn proposals_go_by_their_envelope() {
    let s = PolicyState::default();
    let row = relationship();
    let propose = |row, closing, ttl| {
        propose_rules(row, closing, caps::LOCAL, s, ttl, true, false, 7, 1000)
    };
    let Proposal { next: a, sending } = propose(Some(&row), false, TTL_1H).unwrap();
    let (plan, pa) = sending.unwrap();
    let b = propose(Some(&row), false, TTL_1H).unwrap().next;
    let open = a.pending.unwrap();
    assert!(!open.inbound);
    assert_eq!((open.ttl_sec, open.screenshot, open.attach_download), (TTL_1H, true, false));
    assert_eq!(open.propose_id, plan.head.msg_id);
    assert_eq!(pa.propose_id, plan.head.msg_id);
    assert_eq!(plan.row.env_type, EnvelopeType::ChatPolicy.code());
    assert_eq!((plan.sent.app_seq, plan.head.sent_at), (7, 1000));
    assert_eq!(pa.op, OP_RULE_PROPOSE);
    assert_eq!((a.ttl_sec, a.screenshot, a.attach_download), (TTL_24H, true, true));
    assert_ne!(open.propose_id, b.pending.unwrap().propose_id, "each is fresh");
    assert!(matches!(
        propose(Some(&row), false, 61),
        Err(EngineError::EditDenied("disallowed TTL"))
    ));
    // A proposal that may not leave is open all the same.
    let held = propose(Some(&row), true, TTL_1H).unwrap();
    assert!(matches!(held.sending, Err(EngineError::Closing)));
    let open = held.next.pending.unwrap();
    assert!(!open.inbound);
    assert_eq!((open.ttl_sec, open.screenshot, open.attach_download), (TTL_1H, true, false));
    assert!(matches!(
        propose(None, false, TTL_1H),
        Err(EngineError::UnknownRelationship)
    ));
}

#[test]
fn what_stays_is_no_change() {
    let s = PolicyState::default();
    let (off, out) = apply_cap_set(&s, CAP_ID_TYPING, false);
    assert!(out.changed);
    let (_, out) = apply_cap_set(&off, CAP_ID_TYPING, false);
    assert!(!out.changed, "it was off");
    let (_, out) = apply_cap_set(&off, CAP_ID_TYPING, true);
    assert!(!out.changed, "this side keeps it off");
    let (same, out) = apply_rules(s, TTL_24H, true, true, 1000);
    assert!(!out.changed && same == s);
    let (_, out) = apply_rules(s, TTL_24H, false, true, 1000);
    assert!(out.changed);
    // A peer's wants count where this side wants the same.
    let mut p = build_sync(s, 0).1;
    p.want_typing = false;
    let (_, out) = apply_sync(&off, &p);
    assert!(!out.changed, "typing was not in force");
}

#[test]
fn what_is_not_proposed_stays() {
    let s = PolicyState::default();
    assert_eq!(proposal_of(&s, None, Some(false), None), (TTL_24H, false, true));
    assert_eq!(proposal_of(&s, Some(TTL_1H), None, Some(false)), (TTL_1H, true, false));
}

#[test]
fn accepting_saves_then_clamps_then_sends() {
    let s = PolicyState::default();
    assert!(matches!(
        accept_rules("rel", s, 1000),
        Err(EngineError::EditDenied("no inbound proposal pending"))
    ));
    let (_, prop) = build_propose(s, TTL_1H, false, true, [7u8; 16]).unwrap();
    let waiting = apply_propose(s, &prop, [1u8; 16]);
    let d = accept_rules("rel", waiting, 1000).unwrap();
    assert_eq!(d.effects.len(), 3);
    assert!(matches!(d.effects[0], Effect::SavePolicy(n) if n.ttl_sec == TTL_1H));
    assert!(matches!(d.effects[1], Effect::ClampExpiry(4600)));
    assert!(
        matches!(d.effects[2], Effect::SendPolicy(p) if p.op == OP_RULE_ACCEPT && p.propose_id == [7u8; 16])
    );
    assert_eq!(
        d.events,
        vec![EngineEvent::PolicyChanged {
            rel_id: "rel".into()
        }]
    );
}

#[test]
fn declining_is_local() {
    let s = PolicyState::default();
    let (_, prop) = build_propose(s, TTL_1H, false, true, [7u8; 16]).unwrap();
    let waiting = apply_propose(s, &prop, [1u8; 16]);
    assert!(waiting.pending.is_some());
    assert_eq!(decline_rules(waiting), s);
}

#[test]
fn setting_a_capability_twice_does_nothing() {
    let s = PolicyState::default();
    assert!(set_capability("rel", &s, CAP_ID_TYPING, true).effects.is_empty());
    assert!(set_capability("rel", &s, 77, false).effects.is_empty());
    let d = set_capability("rel", &s, CAP_ID_ATTACH, false);
    assert_eq!(d.effects.len(), 3);
    assert!(matches!(d.effects[1], Effect::EraseAttachments));
    assert!(
        matches!(d.effects[2], Effect::SendPolicy(p) if p.op == OP_CAP_SET && p.cap_id == CAP_ID_ATTACH && !p.cap_on)
    );
    assert_eq!(d.events.len(), 1);
}
