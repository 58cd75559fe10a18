use schat::cli::daemon::{
    drained_line, drop_line, observe_lock_marker, unlock_line, Action, Daemon, DropOutcome,
    Happening, LockStep, Phase, UnlockReport,
};
use schat::engine::EngineEvent;

fn cleared() -> EngineEvent {
    EngineEvent::HistoryCleared { rel_id: "r".into() }
}

/// The actions, each by its name and its text.
fn step(d: &mut Daemon, e: Happening) -> Vec<String> {
    d.step(&e)
        .into_iter()
        .map(|a| match a {
            Action::Say(line) => line,
            Action::Complain(line) => format!("! {line}"),
            Action::Unlock(key) => format!("Unlock {}", key[0]),
            other => format!("{other:?}"),
        })
        .collect()
}

fn running(locked: bool) -> Daemon {
    Daemon {
        phase: Phase::Running,
        locked,
        code: 0,
    }
}

fn report(drained: u32, errors: u32) -> UnlockReport {
    UnlockReport {
        drained,
        errors,
        events: vec![cleared()],
    }
}

#[test]
fn a_daemon_starts_and_stops() {
    let mut d = Daemon::new();
    assert_eq!(step(&mut d, Happening::Launched), ["StartTransport"]);
    assert_eq!(step(&mut d, Happening::TransportStarted(Ok(()))), ["HostInbox"]);
    assert_eq!(
        step(&mut d, Happening::Hosted(Ok("a.onion".into()))),
        ["onion: a.onion", "FindVault"]
    );
    let found = Happening::VaultFound {
        found: Ok(()),
        marker: false,
    };
    assert_eq!(step(&mut d, found), ["LoadKey"]);
    assert_eq!(step(&mut d, Happening::KeyLoaded(Ok([4u8; 32]))), ["Unlock 4"]);
    assert_eq!(step(&mut d, Happening::Unlocked(Ok(report(0, 0)))), ["unlocked"]);
    assert_eq!(d, running(false));
    assert_eq!(step(&mut d, Happening::Interrupted), ["StopTransport"]);
    assert_eq!((d.phase, d.code), (Phase::Stopped, 0));
    assert!(step(&mut d, Happening::Arrived).is_empty());
}

#[test]
fn a_daemon_that_cannot_start_gives_up() {
    let why = || "down".to_string();
    for (e, line) in [
        (Happening::TransportStarted(Err(why())), "! error: start: down"),
        (Happening::Hosted(Err(why())), "! error: host service: down"),
        (
            Happening::VaultFound {
                found: Err(why()),
                marker: true,
            },
            "! error: vault: down",
        ),
    ] {
        let mut d = Daemon::new();
        assert_eq!(step(&mut d, e), [line]);
        assert_eq!((d.phase, d.code), (Phase::Stopped, 1));
    }
}

#[test]
fn a_vault_that_does_not_open_stays_locked() {
    let why = || "bad".to_string();
    let mut d = Daemon::new();
    assert_eq!(
        step(&mut d, Happening::KeyLoaded(Err(why()))),
        ["! error: bad (staying locked)"]
    );
    assert_eq!(d, running(true));
    let mut d = Daemon::new();
    assert_eq!(
        step(&mut d, Happening::Unlocked(Err(why()))),
        ["! error: unlock: bad (staying locked)"]
    );
    assert_eq!(
        step(&mut d, Happening::Unlocked(Err(why()))),
        ["! unlock failed: bad (staying locked)"]
    );
    assert_eq!(
        step(&mut d, Happening::KeyLoaded(Err(why()))),
        ["! unlock failed: bad (staying locked)"]
    );
    assert_eq!(d, running(true));
    let mut d = Daemon::new();
    let found = Happening::VaultFound {
        found: Ok(()),
        marker: true,
    };
    assert_eq!(
        step(&mut d, found),
        ["locked: inbound frames queue at rest until `schat-cli unlock`"]
    );
    assert_eq!(d, running(true));
}

#[test]
fn ticks_follow_the_marker() {
    let mut d = running(false);
    let tick = |marker| Happening::Tick { marker };
    assert_eq!(step(&mut d, tick(false)), ["DrainOutbox", "Sweep"]);
    assert_eq!(
        step(&mut d, tick(true)),
        [
            "Lock",
            "locked: store closed, session state dropped; inbound queues at rest"
        ]
    );
    assert!(d.locked);
    assert!(step(&mut d, tick(true)).is_empty());
    assert_eq!(step(&mut d, tick(false)), ["LoadKey"]);
    assert!(d.locked);
    // The waiting frames are told of, and the tick goes on.
    assert_eq!(
        step(&mut d, Happening::Unlocked(Ok(report(2, 1)))),
        [
            "unlocked: drained 2 queued frame(s), 1 error(s)",
            "history-cleared: rel=r",
            "DrainOutbox",
            "Sweep"
        ]
    );
    assert!(!d.locked);
    assert_eq!(observe_lock_marker(true, false), LockStep::Lock);
    assert_eq!(observe_lock_marker(false, true), LockStep::Unlock);
    assert_eq!(observe_lock_marker(true, true), LockStep::Stay);
    assert_eq!(observe_lock_marker(false, false), LockStep::Stay);
}

#[test]
fn frames_are_taken_in() {
    let mut d = running(true);
    assert_eq!(step(&mut d, Happening::Arrived), ["Ingest"]);
    let queued = Happening::Ingested {
        outcome: Ok(DropOutcome::Queued),
        waiting: 3,
    };
    assert_eq!(step(&mut d, queued), ["queued: locked, 3 at rest", "NoteDrained"]);
    d.locked = false;
    assert_eq!(step(&mut d, Happening::Arrived), ["SweepOffers", "Ingest"]);
    let request = Happening::Ingested {
        outcome: Ok(DropOutcome::Request {
            rel_id: "r".into(),
            sas: "12345678".into(),
            events: vec![cleared()],
        }),
        waiting: 0,
    };
    assert_eq!(
        step(&mut d, request),
        ["request: rel=r sas=12345678", "history-cleared: rel=r", "NoteDrained"]
    );
    let message = Happening::Ingested {
        outcome: Ok(DropOutcome::Message {
            events: vec![cleared(), cleared()],
        }),
        waiting: 0,
    };
    assert_eq!(step(&mut d, message).len(), 3);
    let broken = Happening::Ingested {
        outcome: Err("disk".into()),
        waiting: 0,
    };
    assert_eq!(step(&mut d, broken), ["! ingest error: disk", "NoteDrained"]);
    assert_eq!(step(&mut d, Happening::Lagged(12)), ["! drop log lagged by 12"]);
    assert_eq!(step(&mut d, Happening::Closed), ["StopTransport"]);
}

#[test]
fn upkeep_is_reported() {
    let mut d = running(false);
    assert!(step(&mut d, Happening::Drained(Ok(0))).is_empty());
    assert_eq!(step(&mut d, Happening::Drained(Ok(4))), ["outbox: drained 4"]);
    assert_eq!(step(&mut d, Happening::Drained(Err("e".into()))), ["! drain error: e"]);
    assert_eq!(
        step(&mut d, Happening::Swept(Ok(vec![cleared()]))),
        ["history-cleared: rel=r"]
    );
    assert_eq!(step(&mut d, Happening::Swept(Err("e".into()))), ["! sweep error: e"]);
    assert_eq!(d, running(false));
}

#[test]
fn lines_of_the_daemon() {
    assert_eq!(unlock_line(0, 0), "unlocked");
    assert_eq!(unlock_line(0, 1), "unlocked: drained 0 queued frame(s), 1 error(s)");
    assert_eq!(drained_line(0), None);
    assert_eq!(drained_line(4).as_deref(), Some("outbox: drained 4"));
    assert_eq!(drop_line(&DropOutcome::Duplicate, 0), None);
    assert_eq!(drop_line(&DropOutcome::Dropped, 0), None);
    let broken = DropOutcome::SessionBroken {
        rel_id: "r".into(),
        reason: "mac".into(),
    };
    assert_eq!(
        drop_line(&broken, 0).as_deref(),
        Some("session-broken: rel=r reason=mac")
    );
}
