use schat::presence::{PeerPresence, Presence, PresenceTable, PRESENCE_TTL_SECS};

fn p(in_app: bool, dnd: bool) -> Presence {
    Presence {
        in_app,
        do_not_disturb: dnd,
    }
}

#[test]
fn transitions_only() {
    let mut t = PresenceTable::new();
    assert!(t.note("rel", p(true, false), 100).is_some());
    assert_eq!(
        t.note("rel", p(true, false), 110),
        None,
        "repeat is not an event"
    );
    assert!(
        t.note("rel", p(true, true), 120).is_some(),
        "dnd flip is a transition"
    );
    assert_eq!(
        t.state("rel", 121),
        PeerPresence {
            in_app: true,
            do_not_disturb: true
        }
    );
    assert!(!t.state("unknown", 121).in_app);
}

#[test]
fn ttl_decay_reports_transition_once() {
    let mut t = PresenceTable::new();
    t.note("rel", p(true, false), 100);
    assert!(
        t.sweep(100 + PRESENCE_TTL_SECS - 1).is_empty(),
        "still fresh"
    );
    assert_eq!(t.sweep(100 + PRESENCE_TTL_SECS), vec!["rel".to_string()]);
    assert!(
        t.sweep(100 + PRESENCE_TTL_SECS + 10).is_empty(),
        "already decayed"
    );
    assert!(!t.state("rel", 100 + PRESENCE_TTL_SECS).in_app);
}

#[test]
fn explicit_not_in_app_is_a_transition() {
    let mut t = PresenceTable::new();
    t.note("rel", p(true, false), 100);
    assert!(t.note("rel", p(false, false), 101).is_some());
    assert!(!t.state("rel", 102).in_app);
}

#[test]
fn forgotten_peers_are_unknown() {
    let mut t = PresenceTable::new();
    t.note("a", p(true, false), 100);
    t.note("b", p(true, false), 100);
    t.forget("a");
    assert!(!t.state("a", 100).in_app);
    assert!(t.state("b", 100).in_app);
    assert_eq!(t.sweep(1_000_000), vec!["b".to_string()]);
}
