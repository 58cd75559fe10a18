use schat::messages::delete::{is_history_type, should_drop_inbound};
use schat::messages::edit::{can_offer_edit, edit_decision, EditDecision};
use schat::messages::{is_thread_row, EDIT_MAX_EDITS, EDIT_WINDOW_SEC};
use schat::store::{DeliveryState, Direction, MessageRow};
use schat::wire::envelope::EnvelopeType;

fn target() -> MessageRow {
    MessageRow {
        msg_id: [1u8; 16],
        rel_id: "rel".into(),
        direction: Direction::In,
        app_seq: 5,
        sent_at: 100,
        received_at: Some(200),
        env_type: EnvelopeType::Msg.code(),
        ref_id: None,
        payload: b"hello".to_vec(),
        state: DeliveryState::Received,
        expires_at: None,
        created_at: 200,
        edited: false,
        tombstone: false,
        read_at: None,
        edit_count: 0,
        last_edit_seq: 0,
    }
}

#[test]
fn happy_path_and_window_anchor() {
    let t = target();
    // Inside the receiver-local window (received at 200 + 3600).
    assert_eq!(
        edit_decision(Some(&t), 300, 6, 10, 16 * 1024, false, 0),
        EditDecision::Apply
    );
    // Past it.
    assert_eq!(
        edit_decision(Some(&t), 200 + EDIT_WINDOW_SEC, 6, 10, 16 * 1024, false, 0),
        EditDecision::DropWindow
    );
}

#[test]
fn check_order_matches_spec() {
    let t = target();
    // History cut beats tombstone beats everything.
    assert_eq!(
        edit_decision(Some(&t), 300, 6, 10, 16 * 1024, true, 7),
        EditDecision::DropHistoryCut
    );
    assert_eq!(
        edit_decision(Some(&t), 300, 6, 10, 16 * 1024, true, 0),
        EditDecision::DropTombstone
    );
    assert_eq!(
        edit_decision(None, 300, 6, 10, 16 * 1024, false, 0),
        EditDecision::DropMissing
    );
    // Authorship: our own outbound row.
    let mut out = t.clone();
    out.direction = Direction::Out;
    assert_eq!(
        edit_decision(Some(&out), 300, 6, 10, 16 * 1024, false, 0),
        EditDecision::DropAuthorship
    );
    // Kind: attachments are not editable.
    let mut att = t.clone();
    att.env_type = EnvelopeType::AttachHead.code();
    assert_eq!(
        edit_decision(Some(&att), 300, 6, 10, 16 * 1024, false, 0),
        EditDecision::DropKind
    );
    // Expiry.
    let mut exp = t.clone();
    exp.expires_at = Some(250);
    assert_eq!(
        edit_decision(Some(&exp), 300, 6, 10, 16 * 1024, false, 0),
        EditDecision::DropExpired
    );
    // Cap.
    let mut capped = t.clone();
    capped.edit_count = EDIT_MAX_EDITS;
    assert_eq!(
        edit_decision(Some(&capped), 300, 6, 10, 16 * 1024, false, 0),
        EditDecision::DropCap
    );
    // Stale seq.
    let mut edited = t.clone();
    edited.last_edit_seq = 6;
    assert_eq!(
        edit_decision(Some(&edited), 300, 6, 10, 16 * 1024, false, 0),
        EditDecision::DropStaleSeq
    );
    assert_eq!(
        edit_decision(Some(&edited), 300, 7, 10, 16 * 1024, false, 0),
        EditDecision::Apply
    );
    // Too large.
    assert_eq!(
        edit_decision(Some(&t), 300, 6, 20_000, 16 * 1024, false, 0),
        EditDecision::DropTooLarge
    );
}

#[test]
fn offer_gate() {
    let mut row = target();
    row.direction = Direction::Out;
    assert!(can_offer_edit(&row, 200));
    assert!(
        !can_offer_edit(&row, 100 + EDIT_WINDOW_SEC),
        "window from sent_at"
    );
    let mut inbound = row.clone();
    inbound.direction = Direction::In;
    assert!(!can_offer_edit(&inbound, 200), "only our own messages");
    let mut tomb = row.clone();
    tomb.tombstone = true;
    assert!(!can_offer_edit(&tomb, 200));
}

#[test]
fn history_types_match_spec() {
    for t in [
        EnvelopeType::Msg,
        EnvelopeType::Edit,
        EnvelopeType::AttachHead,
        EnvelopeType::AttachChunk,
        EnvelopeType::Sticker,
    ] {
        assert!(is_history_type(t), "{t:?}");
    }
    for t in [
        EnvelopeType::Delete,
        EnvelopeType::DeleteAll,
        EnvelopeType::ContactClose,
        EnvelopeType::ResyncReq,
        EnvelopeType::Profile,
        EnvelopeType::Pref,
        EnvelopeType::ProfileReq,
        EnvelopeType::StickerCtrl,
        EnvelopeType::Presence,
        EnvelopeType::ChatPolicy,
        EnvelopeType::Typing,
        EnvelopeType::Read,
    ] {
        assert!(!is_history_type(t), "{t:?}");
    }
}

#[test]
fn drop_rule() {
    // Control types: never dropped.
    assert!(!should_drop_inbound(EnvelopeType::Typing, 1, 100, true));
    // History: tombstone or cut.
    assert!(should_drop_inbound(EnvelopeType::Msg, 5, 0, true));
    assert!(should_drop_inbound(EnvelopeType::Msg, 5, 6, false));
    assert!(
        !should_drop_inbound(EnvelopeType::Msg, 6, 6, false),
        "cut is exclusive"
    );
    assert!(!should_drop_inbound(EnvelopeType::Msg, 5, 0, false));
}

#[test]
fn an_applied_edit_is_stale_the_second_time() {
    let mut t = target();
    assert_eq!(
        edit_decision(Some(&t), 300, 6, 10, 16 * 1024, false, 0),
        EditDecision::Apply
    );
    t.last_edit_seq = 6;
    t.edit_count = 1;
    assert_eq!(
        edit_decision(Some(&t), 300, 6, 10, 16 * 1024, false, 0),
        EditDecision::DropStaleSeq
    );
}

#[test]
fn raising_the_cut_drops_no_less() {
    for seq in 0..10 {
        if should_drop_inbound(EnvelopeType::Msg, seq, 4, false) {
            assert!(should_drop_inbound(EnvelopeType::Msg, seq, 9, false));
        }
    }
}

#[test]
fn threads_show_content_only() {
    assert!(is_thread_row(EnvelopeType::Msg.code()));
    assert!(is_thread_row(EnvelopeType::AttachHead.code()));
    assert!(!is_thread_row(EnvelopeType::AttachChunk.code()));
    assert!(!is_thread_row(EnvelopeType::ResyncReq.code()));
    assert!(!is_thread_row(200));
}
