use schat::caps::{
    allows, check_inbound, check_outbound, gated_drops, local_caps, note_peer_caps, peer_caps,
    required_cap, GateCount,
};
use schat::wire::caps;
use schat::wire::envelope::EnvelopeType;

#[test]
fn baseline_always_allowed_gated_needs_bit() {
    assert!(allows(0, EnvelopeType::Msg));
    assert!(allows(0, EnvelopeType::AttachHead));
    assert!(!allows(0, EnvelopeType::Typing));
    assert!(!allows(0, EnvelopeType::Sticker));
    assert!(allows(caps::CAP_TYPING, EnvelopeType::Typing));
    assert!(allows(caps::LOCAL, EnvelopeType::Read));
    // No downgrade: a stripped bit stays off.
    assert!(!allows(
        caps::LOCAL & !caps::CAP_PRESENCE,
        EnvelopeType::Presence
    ));
}

#[test]
fn inbound_gate_drops_and_counts() {
    let mut gate = GateCount { drops: 0 };
    let mut column = Some(note_peer_caps(0));
    let before = gated_drops(&gate);
    assert!(check_inbound(&mut gate, peer_caps(column), EnvelopeType::Msg));
    assert!(!check_inbound(&mut gate, peer_caps(column), EnvelopeType::Typing));
    assert_eq!(gated_drops(&gate), before + 1);

    column = Some(note_peer_caps(caps::CAP_TYPING));
    assert!(check_inbound(&mut gate, peer_caps(column), EnvelopeType::Typing));
    assert_eq!(gated_drops(&gate), before + 1);
}

#[test]
fn unknown_relationship_has_no_caps() {
    assert_eq!(peer_caps(None), 0);
}

#[test]
fn caps_survive_their_column() {
    for bits in [0, 1, caps::LOCAL, u32::MAX] {
        assert_eq!(peer_caps(Some(note_peer_caps(bits))), bits);
    }
    assert_eq!(local_caps(), caps::LOCAL);
}

#[test]
fn a_full_peer_takes_everything() {
    for t in [
        EnvelopeType::Msg,
        EnvelopeType::Sticker,
        EnvelopeType::StickerCtrl,
        EnvelopeType::Presence,
        EnvelopeType::ChatPolicy,
        EnvelopeType::Typing,
        EnvelopeType::Read,
    ] {
        assert!(check_outbound(caps::LOCAL, t), "{t:?}");
    }
    assert_eq!(required_cap(EnvelopeType::Msg), None);
    assert_eq!(required_cap(EnvelopeType::Typing), Some(caps::CAP_TYPING));
}
