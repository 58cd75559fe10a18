use schat::ffi::pairing as client;
use schat::limits::pairing::{MAX_PENDING_REQUESTS, MAX_QR_PAYLOAD_BYTES, MAX_RELATIONSHIPS};
use schat::pairing::accept::{accept, accept_code, accept_inner, check_new_contact, rel_id_for};
use schat::pairing::ingest::{
    decode_intro, gate_intro, ingest_frame, ingest_intro, intro_is_bound, intro_throttled,
    read_time, request_bucket_full, route_frame, time_setting, Ingest, IntroGate, IntroStep, Opened,
    Route,
};
use schat::pairing::messaging::{restore_services, send_message};
use schat::pairing::offer::{draft_offer, draft_with, offer, sweep_expired};
use schat::pairing::qr::{
    decode_code, encode_code, render_qr_matrix, BundleParts, PairingError, PairingPayload,
    PayloadChecks, OFFER_TTL_SECONDS,
};
use schat::pairing::relationship::nonce_column;
use schat::pairing::requests::{accept_request, pending_requests, sas_for, Contact};
use schat::pairing::sas::{relationship_id, sas};
use schat::pairing::{b32, service_id_for, PairingFailure};

fn bundle(seed: u8) -> BundleParts {
    BundleParts {
        identity_key: vec![seed; 33],
        registration_id: 4711,
        device_id: 1,
        pre_key_id: Some(3),
        pre_key_public: Some(vec![seed ^ 1; 33]),
        signed_pre_key_id: 5,
        signed_pre_key_public: vec![seed ^ 2; 33],
        signed_pre_key_signature: vec![seed ^ 3; 64],
        kyber_pre_key_id: 7,
        kyber_pre_key_public: vec![seed ^ 4; 1569],
        kyber_pre_key_signature: vec![seed ^ 5; 64],
    }
}

fn payload_of(seed: u8, now: u64) -> PairingPayload {
    PairingPayload::from_bundle(bundle(seed), [seed; 35], [9u8; 32], [7u8; 32], now + 300)
        .sign(vec![6u8; 64])
}

fn payload(now: u64) -> PairingPayload {
    payload_of(5, now)
}

/// The key library's findings on `p`, where `signed` is what was signed.
fn checks(p: &PairingPayload, signed: &PairingPayload) -> PayloadChecks {
    PayloadChecks {
        identity: Ok(()),
        signature: p.signed_body() == signed.signed_body(),
        signed_pre_key: true,
        kyber_pre_key: true,
        onion: Ok(()),
    }
}

// The payload

#[test]
fn roundtrip_and_verify() {
    let now = 1_800_000_000u64;
    let p = payload(now);
    let bytes = p.encode();
    let back = PairingPayload::decode(&bytes).unwrap();
    back.verify(now, true, &checks(&back, &p)).unwrap();
    assert_eq!(back.identity_key, p.identity_key);
    assert_eq!(back.nonce, p.nonce);
    assert_eq!(back.onion, p.onion);
    // The bundle survives the round trip.
    let b = back.to_bundle();
    assert_eq!(b.kyber_pre_key_public, vec![5 ^ 4; 1569]);
    assert_eq!(b.pre_key_id, Some(3));
}

#[test]
fn expired_rejected_only_when_enforced() {
    let now = 1_800_000_000u64;
    let p = payload(now);
    let c = checks(&p, &p);
    let later = now + OFFER_TTL_SECONDS + 1;
    assert_eq!(p.verify(later, true, &c), Err(PairingError::Expired));
    // Intro receive path does not enforce expiry.
    p.verify(later, false, &c).unwrap();
}

#[test]
fn tampered_signature_rejected() {
    let now = 1_800_000_000u64;
    let p = payload(now);
    let mut bytes = p.encode();
    // Flip a byte inside the signed body.
    let mid = bytes.len() / 2;
    bytes[mid] ^= 0x01;
    let back = PairingPayload::decode(&bytes).unwrap();
    assert_eq!(
        back.verify(now, true, &checks(&back, &p)),
        Err(PairingError::BadSignature)
    );
}

#[test]
fn truncated_and_trailing_rejected() {
    let now = 1_800_000_000u64;
    let bytes = payload(now).encode();
    assert!(PairingPayload::decode(&bytes[..bytes.len() - 3]).is_err());
    let mut longer = bytes.clone();
    longer.push(0);
    assert!(PairingPayload::decode(&longer).is_err());
    assert!(PairingPayload::decode(b"wrong-label-payload").is_err());
}

#[test]
fn total_payload_cap_enforced() {
    let now = 1_800_000_000u64;
    let bytes = payload(now).encode();
    assert!(bytes.len() <= MAX_QR_PAYLOAD_BYTES);
    assert!(PairingPayload::decode(&bytes).is_ok());
    // Anything over the cap is refused before parsing.
    let huge = vec![0u8; MAX_QR_PAYLOAD_BYTES + 1];
    assert!(matches!(
        PairingPayload::decode(&huge),
        Err(PairingError::Invalid(_))
    ));
}

#[test]
fn code_roundtrip() {
    let now = 1_800_000_000u64;
    let bytes = payload(now).encode();
    let code = encode_code(&bytes);
    assert_eq!(decode_code(&code).unwrap(), bytes);
    assert!(decode_code("not base58 !!!").is_err());
}

#[test]
fn qr_matrix_is_square() {
    let now = 1_800_000_000u64;
    let bytes = payload(now).encode();
    let matrix = render_qr_matrix(&bytes).unwrap();
    assert_eq!(matrix.modules.len() as u32, matrix.size * matrix.size);
}

#[test]
fn codes_are_base58() {
    assert_eq!(encode_code(b"Hello World!"), "2NEpo7TZRRrLZSi2U");
    assert_eq!(decode_code("  2NEpo7TZRRrLZSi2U\n").unwrap(), b"Hello World!");
    let Err(e) = decode_code("0") else {
        panic!("zero is no Base58 digit")
    };
    assert!(e.message().starts_with("invalid pairing payload: base58: "));
}

#[test]
fn matrices_hold_zeros_and_ones() {
    let m = client::render_qr_matrix(b"x").unwrap();
    assert_eq!(m.size, 21);
    assert!(m.modules.iter().all(|b| *b <= 1));
    assert_eq!(m.modules[0], 1, "the corner of a finder is dark");
    let Err(e) = client::render_qr_matrix(&[0u8; 4000]) else {
        panic!("too much for a code")
    };
    assert!(e.message().starts_with("invalid pairing payload: qr encode: "));
}

#[test]
fn payloads_are_checked_in_order() {
    let p = payload(1000);
    let mut c = checks(&p, &p);
    c.onion = Err("bad checksum".into());
    assert!(matches!(p.verify(1000, true, &c), Err(PairingError::Invalid(_))));
    c.kyber_pre_key = false;
    assert_eq!(p.verify(1000, true, &c), Err(PairingError::BadSignature));
    c.signed_pre_key = false;
    c.signature = false;
    assert_eq!(p.verify(1000, true, &c), Err(PairingError::BadSignature));
    c.identity = Err("short".into());
    assert!(matches!(p.verify(1000, true, &c), Err(PairingError::Invalid(_))));
    assert_eq!(p.verify(2000, true, &c), Err(PairingError::Expired));
}

// Safety codes

#[test]
fn relationship_id_is_order_independent() {
    let a = [1u8; 33];
    let b = [2u8; 33];
    assert_eq!(relationship_id(&a, &b), relationship_id(&b, &a));
    assert_ne!(relationship_id(&a, &b), relationship_id(&a, &a));
}

#[test]
fn sas_is_symmetric_and_8_digits() {
    let a = [3u8; 33];
    let b = [4u8; 33];
    let na = [5u8; 32];
    let nb = [6u8; 32];
    let forward = sas(&a, &na, &b, &nb);
    let reverse = sas(&b, &nb, &a, &na);
    assert_eq!(forward, reverse);
    assert_eq!(forward.len(), 8);
    assert!(forward.chars().all(|c| c.is_ascii_digit()));
    // Different nonces → different SAS.
    assert_ne!(forward, sas(&a, &na, &b, &[9u8; 32]));
}

// The ceremony

fn pending_row(now: u64) -> (schat::pairing::offer::Offer, schat::pairing::offer::PendingRow) {
    offer(&payload_of(5, now), "inviter.onion", "PRIVATE")
}

#[test]
fn drafts_expire_and_carry_their_nonce() {
    let a = draft_offer(bundle(5), [1u8; 35], [2u8; 32], 1000);
    let b = draft_offer(bundle(5), [1u8; 35], [2u8; 32], 1000);
    assert_eq!(a.expires_at, 1300);
    assert_ne!(a.nonce, b.nonce, "each draft has a fresh nonce");
    let c = draft_with(bundle(5), [1u8; 35], [2u8; 32], [4u8; 32], 1000);
    assert_eq!(c.nonce, [4u8; 32]);
    assert!(c.signature.is_empty());
}

#[test]
fn an_offer_is_its_payload() {
    let (shown, row) = pending_row(1000);
    assert_eq!(decode_code(&shown.code).unwrap(), shown.qr_bytes);
    assert_eq!(shown.service_id, "05".repeat(33));
    assert_eq!(row.qr_bytes, shown.qr_bytes);
    assert!(!sweep_expired(Some(&row), 1299));
    assert!(sweep_expired(Some(&row), 1300));
    assert!(!sweep_expired(None, 1300));
    let ffi = client::offer_ffi(shown);
    assert_eq!(ffi.expires_at, 1300);
}

#[test]
fn a_code_is_accepted_like_its_payload() {
    let (shown, row) = pending_row(1000);
    let p = accept_code(&shown.code).unwrap();
    assert_eq!(p.encode(), shown.qr_bytes);
    let c = checks(&p, &p);
    accept(&p, 1000, &c, None).unwrap();
    assert!(matches!(
        accept(&p, 1000, &c, Some(&row)),
        Err(PairingFailure::SelfPairing)
    ));
    assert!(matches!(
        accept(&p, 9000, &c, None),
        Err(PairingFailure::Payload(PairingError::Expired))
    ));
    assert!(matches!(
        accept_code("0OIl"),
        Err(PairingFailure::Payload(PairingError::Invalid(_)))
    ));
    check_new_contact(false).unwrap();
    assert!(matches!(
        check_new_contact(true),
        Err(PairingFailure::ContactExists)
    ));
}

#[test]
fn both_sides_compute_the_same() {
    let theirs = payload_of(5, 1000);
    let ours = payload_of(8, 1000);
    let (row, done) = accept_inner(
        &ours,
        &theirs,
        "accepter.onion",
        "inviter.onion",
        "KEY",
        0,
        1000,
    )
    .unwrap();
    assert_eq!(row.state, "active");
    assert!(row.intro_pending);
    assert_eq!(row.rel_id, rel_id_for(&theirs.identity_key, &ours.identity_key));
    assert_eq!(row.peer_client_auth_public, b32(&[9u8; 32]));

    let (_, pending) = pending_row(1000);
    let intro = decode_intro(Some(&row.our_qr_bytes)).unwrap();
    assert!(intro_is_bound(
        &intro,
        &checks(&intro, &ours),
        5000,
        Some(&ours.identity_key)
    ));
    assert!(!intro_is_bound(
        &intro,
        &checks(&intro, &ours),
        5000,
        Some(&theirs.identity_key)
    ));
    let (plan, seen) = ingest_intro(
        &pending,
        &intro,
        &theirs.identity_key,
        "accepter.onion",
        Some(b"hi".to_vec()),
        0,
        1000,
    )
    .unwrap();
    assert_eq!(
        plan.steps,
        [IntroStep::Insert, IntroStep::CloseOffer, IntroStep::SignIn]
    );
    let request = plan.row.unwrap();
    assert_eq!(request.rel_id, row.rel_id);
    assert_eq!(request.state, "request");
    let Ingest::RequestReceived { rel_id, sas, plaintext } = seen else {
        panic!("a request")
    };
    assert_eq!((rel_id, sas), (done.rel_id.clone(), done.sas.clone()));
    assert_eq!(plaintext, b"hi");

    // The inviter cannot send before accepting, the accepter can.
    assert!(matches!(
        send_message(Some(&request)),
        Err(PairingFailure::NotARequest)
    ));
    assert_eq!(send_message(Some(&row)).unwrap().unwrap(), row.our_qr_bytes);
    assert!(matches!(send_message(None), Err(PairingFailure::NotFound)));
    let mut broken = row.clone();
    broken.session_state = "broken".into();
    assert!(matches!(send_message(Some(&broken)), Err(PairingFailure::Broken)));

    // Requests.
    assert_eq!(sas_for(Some(&row), &ours.identity_key).unwrap(), done.sas);
    let contacts = vec![
        Contact {
            row: row.clone(),
            our_identity_key: ours.identity_key.clone(),
        },
        Contact {
            row: request.clone(),
            our_identity_key: theirs.identity_key.clone(),
        },
    ];
    let pending = pending_requests(&contacts);
    assert_eq!(pending.len(), 1);
    assert_eq!(pending[0].sas, done.sas);
    // Oldest first; of the same age, as they came.
    let contact = |rel_id: &str, created_at| {
        let mut row = request.clone();
        row.rel_id = rel_id.into();
        row.created_at = created_at;
        Contact {
            row,
            our_identity_key: theirs.identity_key.clone(),
        }
    };
    let listed: Vec<String> = pending_requests(&vec![
        contact("c", 30),
        contact("a", 10),
        contact("b", 20),
        contact("a2", 10),
    ])
    .into_iter()
    .map(|r| r.rel_id)
    .collect();
    assert_eq!(listed, ["a", "a2", "b", "c"]);
    assert_eq!(accept_request(Some(&request)).unwrap(), b32(&[9u8; 32]));
    assert!(matches!(
        accept_request(Some(&row)),
        Err(PairingFailure::NotARequest)
    ));
    assert!(matches!(accept_request(None), Err(PairingFailure::NotFound)));

    // Services: an open invitation has no authorised client.
    assert!(restore_services(&request).is_empty());
    assert_eq!(restore_services(&row), vec![b32(&[9u8; 32])]);
}

#[test]
fn relationships_are_capped() {
    let theirs = payload_of(5, 1000);
    let ours = payload_of(8, 1000);
    let Err(e) = accept_inner(&ours, &theirs, "a", "b", "k", MAX_RELATIONSHIPS, 1000) else {
        panic!("the cap is reached")
    };
    assert_eq!(
        e.message(),
        "pairing cap reached: relationships (1024)"
    );
}

#[test]
fn frames_are_routed_by_service() {
    let (_, row) = pending_row(1000);
    assert_eq!(route_frame(Some(&row), &row.service_id, true), Route::Intro);
    assert_eq!(route_frame(Some(&row), "other", true), Route::Relationship);
    assert_eq!(route_frame(None, "other", false), Route::Unknown);
    assert!(matches!(
        ingest_frame("rel", Opened::Plaintext(vec![1])),
        Ingest::Message { .. }
    ));
    assert!(matches!(ingest_frame("rel", Opened::Duplicate), Ingest::Duplicate));
    assert!(matches!(
        ingest_frame("rel", Opened::Broken("mac".into())),
        Ingest::SessionBroken { .. }
    ));
    assert!(matches!(ingest_frame("rel", Opened::Failed), Ingest::Dropped));
}

#[test]
fn a_failed_intro_leaves_the_offer() {
    let theirs = payload_of(8, 1000);
    let (_, pending) = pending_row(1000);
    let ours = vec![5u8; 33];
    for total in [0, MAX_RELATIONSHIPS] {
        let (plan, seen) =
            ingest_intro(&pending, &theirs, &ours, "p.onion", None, total, 1000).unwrap();
        assert!(matches!(seen, Ingest::Dropped));
        assert!(plan.row.is_none());
        assert_eq!(
            plan.steps,
            [IntroStep::RestorePersona, IntroStep::DeleteNamespace]
        );
    }
    // A valid intro still finds the offer, after the interval.
    let stamp = time_setting(1000);
    assert!(matches!(
        gate_intro(&ours, &theirs.identity_key, Some(&stamp), 1001, 0, false),
        IntroGate::Open { .. }
    ));
    let (plan, seen) =
        ingest_intro(&pending, &theirs, &ours, "p.onion", Some(vec![1]), 0, 1001).unwrap();
    assert!(matches!(seen, Ingest::RequestReceived { .. }));
    assert!(plan.row.is_some());
    assert!(matches!(
        ingest_intro(&pending, &theirs, &ours, "p.onion", Some(vec![1]), MAX_RELATIONSHIPS, 1001),
        Err(PairingFailure::CapReached(_))
    ));
}

#[test]
fn signatures_are_over_the_body_and_both_keys() {
    let p = payload(1000);
    let pairs = p.signatures();
    assert_eq!(pairs.len(), 3);
    assert_eq!(pairs[0].message, p.signed_body());
    assert_eq!(pairs[0].signature, vec![6u8; 64]);
    assert_eq!(pairs[1].message, vec![5 ^ 2; 33]);
    assert_eq!(pairs[1].signature, vec![5 ^ 3; 64]);
    assert_eq!(pairs[2].message, vec![5 ^ 4; 1569]);
    assert_eq!(pairs[2].signature, vec![5 ^ 5; 64]);
}

#[test]
fn intros_are_paced_and_capped() {
    let a = [1u8; 33];
    let b = [2u8; 33];
    assert!(matches!(
        gate_intro(&a, &a, None, 50, 0, false),
        IntroGate::Own
    ));
    let IntroGate::Open { stamp, rel_id, first } = gate_intro(&a, &b, None, 50, 0, false) else {
        panic!("the first intro is read")
    };
    assert_eq!(first, IntroStep::MovePersona);
    assert_eq!(read_time(Some(&stamp)), 50);
    assert_eq!(rel_id, rel_id_for(&a, &b));
    assert!(matches!(
        gate_intro(&a, &b, Some(&stamp), 50, 0, false),
        IntroGate::Throttled
    ));
    assert!(matches!(
        gate_intro(&a, &b, None, 50, MAX_PENDING_REQUESTS, false),
        IntroGate::Full { .. }
    ));
    assert!(request_bucket_full(MAX_PENDING_REQUESTS, false));
    assert!(!request_bucket_full(MAX_PENDING_REQUESTS, true));
    assert!(intro_throttled(Some(&time_setting(50)), 51).is_some());
    assert!(intro_throttled(Some(&time_setting(50)), 50).is_none());
    assert_eq!(read_time(Some(&[1, 2])), 0);
    assert!(decode_intro(None).is_none());
    assert!(decode_intro(Some(b"junk")).is_none());
}

#[test]
fn clients_see_requests_and_locked_frames() {
    assert!(matches!(client::ingest_ffi(None), schat::IngestFfi::Queued));
    assert!(matches!(
        client::ingest_ffi(Some(Ingest::Dropped)),
        schat::IngestFfi::Dropped
    ));
    let out = client::ingest_ffi(Some(Ingest::Message {
        rel_id: "rel".into(),
        plaintext: vec![1],
    }));
    assert!(matches!(out, schat::IngestFfi::Message { plaintext, .. } if plaintext == [1]));
}

#[test]
fn base32_is_lower_case_and_unpadded() {
    assert_eq!(b32(&[0u8; 32]), "a".repeat(52));
    assert_eq!(b32(&[0xffu8; 32]), "7".repeat(51) + "q");
    assert_eq!(service_id_for(&[0xab, 0x01]), "ab01");
    assert_eq!(nonce_column(&[3u8; 32]), [3u8; 32]);
    assert_eq!(nonce_column(&[3u8; 31]), [0u8; 32]);
}
