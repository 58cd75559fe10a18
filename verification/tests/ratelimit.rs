use schat::engine::Engine;
use schat::ratelimit::{
    limited, note_limited, rate_limited, DropCounts, RateTables, Surface, TokenBucket,
};

#[test]
fn bucket_starts_full_and_refills() {
    let mut b = TokenBucket::new(4, 2, 1000);
    for _ in 0..4 {
        assert!(b.check(1000));
    }
    assert!(!b.check(1000), "empty after the burst");
    assert!(b.check(1001), "2 tokens refilled after 1 s");
    assert!(b.check(1001));
    assert!(!b.check(1001));
    // Long idle caps at capacity, never accumulates beyond it.
    for _ in 0..4 {
        assert!(b.check(2000));
    }
    assert!(!b.check(2000));
}

#[test]
fn clock_rollback_never_refills() {
    let mut b = TokenBucket::new(1, 1000, 1000);
    assert!(b.check(1000));
    assert!(!b.check(500), "backwards clock grants nothing");
    assert!(!b.check(999));
    assert!(b.check(1001));
}

#[test]
fn tables_count_and_log_drops() {
    let mut tables = RateTables::new();
    let mut counts = DropCounts::new();
    let before = limited(&counts, Surface::ResyncReq);
    let (cap, _) = Surface::ResyncReq.bucket_params();
    for i in 0..cap {
        assert!(
            tables.check(&mut counts, Surface::ResyncReq, "rel", 1000),
            "burst token {i} passes"
        );
    }
    assert!(!tables.check(&mut counts, Surface::ResyncReq, "rel", 1000));
    assert_eq!(limited(&counts, Surface::ResyncReq), before + 1);
    // A different relationship has its own bucket.
    assert!(tables.check(&mut counts, Surface::ResyncReq, "other-rel", 1000));
}

#[test]
fn surfaces_are_counted_apart() {
    let mut counts = DropCounts::new();
    assert_eq!(note_limited(&mut counts, Surface::Intro), 1);
    assert_eq!(note_limited(&mut counts, Surface::Intro), 2);
    assert_eq!(note_limited(&mut counts, Surface::StickerServe), 1);
    assert_eq!(limited(&counts, Surface::Intro), 2);
    assert_eq!(limited(&counts, Surface::Ephemeral), 0);
    assert_eq!(rate_limited(&counts), 3);
    assert_eq!(Surface::ControlCmd.name(), "control_cmd");
}

#[test]
fn engine_drops_what_is_over_the_rate() {
    let mut engine = Engine::new();
    let (cap, _) = Surface::Ephemeral.bucket_params();
    for _ in 0..cap {
        assert!(engine.rate_allow(Surface::Ephemeral, "rel", 7));
    }
    assert!(!engine.rate_allow(Surface::Ephemeral, "rel", 7));
    assert_eq!(limited(&engine.limited, Surface::Ephemeral), 1);
    assert!(engine.rate_allow(Surface::Ephemeral, "other", 7));
}
