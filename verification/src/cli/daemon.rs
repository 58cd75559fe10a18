//! The daemon: it brings the transport up, hosts the inbox, and takes frames
//! in, behind a vault that may be locked. What it does next follows from where
//! it stands and from what happened.

use vstd::prelude::*;

use crate::cli::util::{self, render_event};
use crate::engine::EngineEvent;
use crate::text::{self, push_decimal};

verus! {

/// What the daemon does about the lock marker.
#[derive(Clone, Copy, Debug, PartialEq, Eq, Structural)]
pub enum LockStep {
    Lock,
    Unlock,
    Stay,
}

/// What the daemon does about the lock marker: it follows it.
pub open spec fn lock_step(marker: bool, locked: bool) -> LockStep {
    if marker && !locked {
        LockStep::Lock
    } else if !marker && locked {
        LockStep::Unlock
    } else {
        LockStep::Stay
    }
}

/// What the daemon does about the lock marker.
pub fn observe_lock_marker(marker: bool, locked: bool) -> (step: LockStep)
    ensures
        step == lock_step(marker, locked),
{
    if marker && !locked {
        LockStep::Lock
    } else if !marker && locked {
        LockStep::Unlock
    } else {
        LockStep::Stay
    }
}

/// The line for a vault that was opened.
pub open spec fn unlock_text(drained: u32, errors: u32) -> Seq<char> {
    if drained > 0 || errors > 0 {
        "unlocked: drained "@ + text::decimal(drained as nat) + " queued frame(s), "@
            + text::decimal(errors as nat) + " error(s)"@
    } else {
        "unlocked"@
    }
}

/// The line for a vault that was opened.
pub fn unlock_line(drained: u32, errors: u32) -> (line: String)
    ensures
        line@ == unlock_text(drained, errors),
{
    if drained > 0 || errors > 0 {
        let mut line: String = "unlocked: drained ".to_owned();
        push_decimal(&mut line, drained as u64);
        line.append(" queued frame(s), ");
        push_decimal(&mut line, errors as u64);
        line.append(" error(s)");
        line
    } else {
        "unlocked".to_owned()
    }
}

/// What became of an inbound frame.
#[derive(Clone, Debug)]
pub enum DropOutcome {
    /// The vault is locked: the frame waits.
    Queued,
    Request { rel_id: String, sas: String, events: Vec<EngineEvent> },
    Message { events: Vec<EngineEvent> },
    Duplicate,
    Dropped,
    SessionBroken { rel_id: String, reason: String },
}

/// The line for an inbound frame, where it gets one. `waiting` is how many
/// frames wait.
pub open spec fn drop_text(outcome: DropOutcome, waiting: u32) -> Option<Seq<char>> {
    match outcome {
        DropOutcome::Queued => Some(
            "queued: locked, "@ + text::decimal(waiting as nat) + " at rest"@,
        ),
        DropOutcome::Request { rel_id, sas, .. } => Some(
            "request: rel="@ + rel_id@ + " sas="@ + sas@,
        ),
        DropOutcome::SessionBroken { rel_id, reason } => Some(
            "session-broken: rel="@ + rel_id@ + " reason="@ + reason@,
        ),
        _ => None,
    }
}

/// The line for an inbound frame, where it gets one.
pub fn drop_line(outcome: &DropOutcome, waiting: u32) -> (line: Option<String>)
    ensures
        match drop_text(*outcome, waiting) {
            Some(l) => line is Some && line->0@ == l,
            None => line is None,
        },
{
    match outcome {
        DropOutcome::Queued => {
            let mut line: String = "queued: locked, ".to_owned();
            push_decimal(&mut line, waiting as u64);
            Some(line.concat(" at rest"))
        },
        DropOutcome::Request { rel_id, sas, .. } => {
            Some("request: rel=".to_owned().concat(rel_id.as_str()).concat(" sas=").concat(
                sas.as_str(),
            ))
        },
        DropOutcome::SessionBroken { rel_id, reason } => {
            Some("session-broken: rel=".to_owned().concat(rel_id.as_str()).concat(" reason=").concat(
                reason.as_str(),
            ))
        },
        _ => None,
    }
}

/// The line for a drained outbox, where anything went out.
pub fn drained_line(sent: u32) -> (line: Option<String>)
    ensures
        line is Some <==> sent > 0,
        line matches Some(l) ==> l@ == "outbox: drained "@ + text::decimal(sent as nat),
{
    if sent == 0 {
        return None;
    }
    let mut line: String = "outbox: drained ".to_owned();
    push_decimal(&mut line, sent as u64);
    Some(line)
}

/// What the opening of the vault found.
#[derive(Clone, Debug)]
pub struct UnlockReport {
    /// How many waiting frames were taken in.
    pub drained: u32,
    pub errors: u32,
    pub events: Vec<EngineEvent>,
}

/// How far the daemon is.
#[derive(Clone, Copy, Debug, PartialEq, Eq, Structural)]
pub enum Phase {
    Starting,
    Running,
    Stopped,
}

/// Where the daemon stands.
#[derive(Clone, Copy, Debug, PartialEq, Eq, Structural)]
pub struct Daemon {
    pub phase: Phase,
    /// Whether the vault is locked.
    pub locked: bool,
    /// The exit code, once it has stopped.
    pub code: i32,
}

/// What happened.
#[derive(Debug)]
pub enum Happening {
    Launched,
    TransportStarted(Result<(), String>),
    /// The inbox is hosted, under an onion address.
    Hosted(Result<String, String>),
    /// The vault is there, locked; `marker` is whether the lock marker stands.
    VaultFound { found: Result<(), String>, marker: bool },
    KeyLoaded(Result<[u8; 32], String>),
    Unlocked(Result<UnlockReport, String>),
    /// A frame arrived.
    Arrived,
    /// The frame was taken in; `waiting` is how many wait at rest.
    Ingested { outcome: Result<DropOutcome, String>, waiting: u32 },
    /// Frames were lost between the transport and the daemon.
    Lagged(u64),
    Tick { marker: bool },
    Drained(Result<u32, String>),
    Swept(Result<Vec<EngineEvent>, String>),
    /// The transport is gone.
    Closed,
    Interrupted,
}

/// What the daemon does next.
#[derive(Clone, Debug)]
pub enum Action {
    StartTransport,
    HostInbox,
    FindVault,
    LoadKey,
    Unlock([u8; 32]),
    Lock,
    SweepOffers,
    Ingest,
    /// Tell the transport that a frame was taken in.
    NoteDrained,
    DrainOutbox,
    Sweep,
    /// Print a line.
    Say(String),
    /// Print a line among the errors.
    Complain(String),
    StopTransport,
}

/// An action, its text by value.
pub enum Deed {
    StartTransport,
    HostInbox,
    FindVault,
    LoadKey,
    Unlock([u8; 32]),
    Lock,
    SweepOffers,
    Ingest,
    NoteDrained,
    DrainOutbox,
    Sweep,
    Say(Seq<char>),
    Complain(Seq<char>),
    StopTransport,
}

impl View for Action {
    type V = Deed;

    open spec fn view(&self) -> Deed {
        match *self {
            Action::StartTransport => Deed::StartTransport,
            Action::HostInbox => Deed::HostInbox,
            Action::FindVault => Deed::FindVault,
            Action::LoadKey => Deed::LoadKey,
            Action::Unlock(key) => Deed::Unlock(key),
            Action::Lock => Deed::Lock,
            Action::SweepOffers => Deed::SweepOffers,
            Action::Ingest => Deed::Ingest,
            Action::NoteDrained => Deed::NoteDrained,
            Action::DrainOutbox => Deed::DrainOutbox,
            Action::Sweep => Deed::Sweep,
            Action::Say(line) => Deed::Say(line@),
            Action::Complain(line) => Deed::Complain(line@),
            Action::StopTransport => Deed::StopTransport,
        }
    }
}

/// The deeds that actions are.
pub open spec fn deeds(actions: Seq<Action>) -> Seq<Deed> {
    Seq::new(actions.len(), |i: int| actions[i]@)
}

/// A line for each event.
pub open spec fn told(events: Seq<EngineEvent>) -> Seq<Deed> {
    Seq::new(events.len(), |i: int| Deed::Say(util::event_line(events[i]@)))
}

/// What is said of an opened vault. Events are told with the frames that were
/// taken in.
pub open spec fn opened(report: UnlockReport) -> Seq<Deed> {
    seq![Deed::Say(unlock_text(report.drained, report.errors))] + if report.drained > 0
        || report.errors > 0 {
        told(report.events@)
    } else {
        Seq::empty()
    }
}

/// What is said of an inbound frame.
pub open spec fn ingested(outcome: DropOutcome, waiting: u32) -> Seq<Deed> {
    let line = match drop_text(outcome, waiting) {
        Some(l) => seq![Deed::Say(l)],
        None => Seq::empty(),
    };
    match outcome {
        DropOutcome::Request { events, .. } => line + told(events@),
        DropOutcome::Message { events } => line + told(events@),
        _ => line,
    }
}

/// What the upkeep of an open vault is.
pub open spec fn upkeep() -> Seq<Deed> {
    seq![Deed::DrainOutbox, Deed::Sweep]
}

/// Where the daemon stands once it gave up at the start.
pub open spec fn failed(d: Daemon) -> Daemon {
    Daemon { phase: Phase::Stopped, code: 1, ..d }
}

/// Where the daemon stands once it runs.
pub open spec fn running(d: Daemon, locked: bool) -> Daemon {
    Daemon { phase: Phase::Running, locked, ..d }
}

/// What the daemon does about a key or a vault that failed it: it stays
/// locked.
pub open spec fn stays_locked(d: Daemon, what: Seq<char>, why: Seq<char>) -> (Daemon, Seq<Deed>) {
    let head = if d.phase == Phase::Starting {
        "error: "@ + what
    } else {
        "unlock failed: "@
    };
    (running(d, true), seq![Deed::Complain(head + why + " (staying locked)"@)])
}

/// Where the daemon stands after something happened, and what it does.
pub open spec fn reaction(d: Daemon, e: Happening) -> (Daemon, Seq<Deed>) {
    if d.phase == Phase::Stopped {
        (d, Seq::empty())
    } else {
        match e {
            Happening::Launched => (d, seq![Deed::StartTransport]),
            Happening::TransportStarted(Ok(_)) => (d, seq![Deed::HostInbox]),
            Happening::TransportStarted(Err(why)) => (
                failed(d),
                seq![Deed::Complain("error: start: "@ + why@)],
            ),
            Happening::Hosted(Ok(onion)) => (
                d,
                seq![Deed::Say("onion: "@ + onion@), Deed::FindVault],
            ),
            Happening::Hosted(Err(why)) => (
                failed(d),
                seq![Deed::Complain("error: host service: "@ + why@)],
            ),
            Happening::VaultFound { found: Err(why), .. } => (
                failed(d),
                seq![Deed::Complain("error: vault: "@ + why@)],
            ),
            Happening::VaultFound { found: Ok(_), marker } => if marker {
                (
                    running(d, true),
                    seq![
                        Deed::Say(
                            "locked: inbound frames queue at rest until `schat-cli unlock`"@,
                        ),
                    ],
                )
            } else {
                (d, seq![Deed::LoadKey])
            },
            Happening::KeyLoaded(Ok(key)) => (d, seq![Deed::Unlock(key)]),
            Happening::KeyLoaded(Err(why)) => stays_locked(d, ""@, why@),
            Happening::Unlocked(Ok(report)) => (
                running(d, false),
                opened(report) + if d.phase == Phase::Starting {
                    Seq::empty()
                } else {
                    upkeep()
                },
            ),
            Happening::Unlocked(Err(why)) => stays_locked(d, "unlock: "@, why@),
            Happening::Arrived => (
                d,
                if d.locked {
                    seq![Deed::Ingest]
                } else {
                    seq![Deed::SweepOffers, Deed::Ingest]
                },
            ),
            Happening::Ingested { outcome: Ok(outcome), waiting } => (
                d,
                ingested(outcome, waiting).push(Deed::NoteDrained),
            ),
            Happening::Ingested { outcome: Err(why), .. } => (
                d,
                seq![Deed::Complain("ingest error: "@ + why@), Deed::NoteDrained],
            ),
            Happening::Lagged(n) => (
                d,
                seq![Deed::Complain("drop log lagged by "@ + text::decimal(n as nat))],
            ),
            Happening::Tick { marker } => match lock_step(marker, d.locked) {
                LockStep::Lock => (
                    Daemon { locked: true, ..d },
                    seq![
                        Deed::Lock,
                        Deed::Say(
                            "locked: store closed, session state dropped; inbound queues at rest"@,
                        ),
                    ],
                ),
                LockStep::Unlock => (d, seq![Deed::LoadKey]),
                LockStep::Stay => (
                    d,
                    if d.locked {
                        Seq::empty()
                    } else {
                        upkeep()
                    },
                ),
            },
            Happening::Drained(Ok(n)) => (
                d,
                if n > 0 {
                    seq![Deed::Say("outbox: drained "@ + text::decimal(n as nat))]
                } else {
                    Seq::empty()
                },
            ),
            Happening::Drained(Err(why)) => (d, seq![Deed::Complain("drain error: "@ + why@)]),
            Happening::Swept(Ok(events)) => (d, told(events@)),
            Happening::Swept(Err(why)) => (d, seq![Deed::Complain("sweep error: "@ + why@)]),
            Happening::Closed => (
                Daemon { phase: Phase::Stopped, code: 0, ..d },
                seq![Deed::StopTransport],
            ),
            Happening::Interrupted => (
                Daemon { phase: Phase::Stopped, code: 0, ..d },
                seq![Deed::StopTransport],
            ),
        }
    }
}

fn act(out: &mut Vec<Action>, a: Action)
    ensures
        deeds(final(out)@) == deeds(old(out)@).push(a@),
{
    out.push(a);
    assert(deeds(out@) =~= deeds(old(out)@).push(a@));
}

fn tell(out: &mut Vec<Action>, events: &Vec<EngineEvent>)
    ensures
        deeds(final(out)@) == deeds(old(out)@) + told(events@),
{
    let ghost before = deeds(out@);
    let mut i: usize = 0;
    assert(before =~= before + told(events@).take(0));
    while i < events.len()
        invariant
            i <= events@.len(),
            deeds(out@) == before + told(events@).take(i as int),
        decreases events.len() - i,
    {
        act(out, Action::Say(render_event(&events[i])));
        assert(before + told(events@).take(i + 1) =~= (before + told(events@).take(i as int)).push(
            Deed::Say(util::event_line(events@[i as int]@)),
        ));
        i = i + 1;
    }
    assert(told(events@).take(events@.len() as int) =~= told(events@));
}

impl Daemon {
    /// A daemon before its start. The vault is locked.
    pub fn new() -> (d: Daemon)
        ensures
            d == (Daemon { phase: Phase::Starting, locked: true, code: 0 }),
    {
        Daemon { phase: Phase::Starting, locked: true, code: 0 }
    }

    fn stay_locked(&mut self, what: &str, why: &str, out: &mut Vec<Action>)
        requires
            old(out)@.len() == 0,
        ensures
            (*final(self), deeds(final(out)@)) == stays_locked(*old(self), what@, why@),
    {
        let head: String = match self.phase {
            Phase::Starting => "error: ".to_owned().concat(what),
            _ => "unlock failed: ".to_owned(),
        };
        act(out, Action::Complain(head.concat(why).concat(" (staying locked)")));
        self.phase = Phase::Running;
        self.locked = true;
        assert(deeds(out@) =~= stays_locked(*old(self), what@, why@).1);
    }

    fn unlocked(&mut self, report: &UnlockReport, out: &mut Vec<Action>)
        requires
            old(out)@.len() == 0,
            old(self).phase != Phase::Stopped,
        ensures
            (*final(self), deeds(final(out)@)) == reaction(
                *old(self),
                Happening::Unlocked(Ok(*report)),
            ),
    {
        act(out, Action::Say(unlock_line(report.drained, report.errors)));
        if report.drained > 0 || report.errors > 0 {
            tell(out, &report.events);
        }
        assert(deeds(out@) =~= opened(*report));
        if self.phase == Phase::Running {
            act(out, Action::DrainOutbox);
            act(out, Action::Sweep);
        }
        self.phase = Phase::Running;
        self.locked = false;
        assert(deeds(out@) =~= reaction(*old(self), Happening::Unlocked(Ok(*report))).1);
    }

    fn ingested(&self, outcome: &DropOutcome, waiting: u32, out: &mut Vec<Action>)
        requires
            old(out)@.len() == 0,
        ensures
            deeds(final(out)@) == ingested(*outcome, waiting).push(Deed::NoteDrained),
    {
        if let Some(line) = drop_line(outcome, waiting) {
            act(out, Action::Say(line));
        }
        match outcome {
            DropOutcome::Request { events, .. } => tell(out, events),
            DropOutcome::Message { events } => tell(out, events),
            _ => {},
        }
        assert(deeds(out@) =~= ingested(*outcome, waiting));
        act(out, Action::NoteDrained);
    }

    fn tick(&mut self, marker: bool, out: &mut Vec<Action>)
        requires
            old(out)@.len() == 0,
            old(self).phase != Phase::Stopped,
        ensures
            (*final(self), deeds(final(out)@)) == reaction(*old(self), Happening::Tick { marker }),
    {
        match observe_lock_marker(marker, self.locked) {
            LockStep::Lock => {
                self.locked = true;
                act(out, Action::Lock);
                act(
                    out,
                    Action::Say(
                        "locked: store closed, session state dropped; inbound queues at rest".to_owned(),
                    ),
                );
            },
            LockStep::Unlock => act(out, Action::LoadKey),
            LockStep::Stay => {
                if !self.locked {
                    act(out, Action::DrainOutbox);
                    act(out, Action::Sweep);
                }
            },
        }
        assert(deeds(out@) =~= reaction(*old(self), Happening::Tick { marker }).1);
    }

    fn fail(&mut self, what: &str, why: &str, out: &mut Vec<Action>)
        requires
            old(out)@.len() == 0,
        ensures
            *final(self) == failed(*old(self)),
            deeds(final(out)@) == seq![Deed::Complain(what@ + why@)],
    {
        act(out, Action::Complain(what.to_owned().concat(why)));
        self.phase = Phase::Stopped;
        self.code = 1;
        assert(deeds(out@) =~= seq![Deed::Complain(what@ + why@)]);
    }

    /// Takes in what happened, and says what to do.
    pub fn step(&mut self, e: &Happening) -> (actions: Vec<Action>)
        ensures
            (*final(self), deeds(actions@)) == reaction(*old(self), *e),
    {
        let mut out: Vec<Action> = Vec::new();
        assert(deeds(out@) =~= Seq::empty());
        if self.phase == Phase::Stopped {
            return out;
        }
        match e {
            Happening::Launched => act(&mut out, Action::StartTransport),
            Happening::TransportStarted(Ok(_)) => act(&mut out, Action::HostInbox),
            Happening::TransportStarted(Err(why)) => self.fail(
                "error: start: ",
                why.as_str(),
                &mut out,
            ),
            Happening::Hosted(Ok(onion)) => {
                act(&mut out, Action::Say("onion: ".to_owned().concat(onion.as_str())));
                act(&mut out, Action::FindVault);
            },
            Happening::Hosted(Err(why)) => self.fail(
                "error: host service: ",
                why.as_str(),
                &mut out,
            ),
            Happening::VaultFound { found: Err(why), .. } => self.fail(
                "error: vault: ",
                why.as_str(),
                &mut out,
            ),
            Happening::VaultFound { found: Ok(_), marker } => {
                if *marker {
                    self.phase = Phase::Running;
                    self.locked = true;
                    act(
                        &mut out,
                        Action::Say(
                            "locked: inbound frames queue at rest until `schat-cli unlock`".to_owned(),
                        ),
                    );
                } else {
                    act(&mut out, Action::LoadKey);
                }
            },
            Happening::KeyLoaded(Ok(key)) => act(&mut out, Action::Unlock(*key)),
            Happening::KeyLoaded(Err(why)) => self.stay_locked("", why.as_str(), &mut out),
            Happening::Unlocked(Ok(report)) => self.unlocked(report, &mut out),
            Happening::Unlocked(Err(why)) => self.stay_locked("unlock: ", why.as_str(), &mut out),
            Happening::Arrived => {
                if !self.locked {
                    act(&mut out, Action::SweepOffers);
                }
                act(&mut out, Action::Ingest);
            },
            Happening::Ingested { outcome: Ok(outcome), waiting } => self.ingested(
                outcome,
                *waiting,
                &mut out,
            ),
            Happening::Ingested { outcome: Err(why), .. } => {
                act(&mut out, Action::Complain("ingest error: ".to_owned().concat(why.as_str())));
                act(&mut out, Action::NoteDrained);
            },
            Happening::Lagged(n) => {
                let mut line: String = "drop log lagged by ".to_owned();
                push_decimal(&mut line, *n);
                act(&mut out, Action::Complain(line));
            },
            Happening::Tick { marker } => self.tick(*marker, &mut out),
            Happening::Drained(Ok(n)) => {
                if let Some(line) = drained_line(*n) {
                    act(&mut out, Action::Say(line));
                }
            },
            Happening::Drained(Err(why)) => act(
                &mut out,
                Action::Complain("drain error: ".to_owned().concat(why.as_str())),
            ),
            Happening::Swept(Ok(events)) => tell(&mut out, events),
            Happening::Swept(Err(why)) => act(
                &mut out,
                Action::Complain("sweep error: ".to_owned().concat(why.as_str())),
            ),
            Happening::Closed => {
                self.phase = Phase::Stopped;
                self.code = 0;
                act(&mut out, Action::StopTransport);
            },
            Happening::Interrupted => {
                self.phase = Phase::Stopped;
                self.code = 0;
                act(&mut out, Action::StopTransport);
            },
        }
        assert(deeds(out@) =~= reaction(*old(self), *e).1);
        out
    }
}

// ---------------------------------------------------------------------------
// Laws

/// Whether an action works on the open store.
pub open spec fn touches_store(a: Deed) -> bool {
    a is SweepOffers || a is DrainOutbox || a is Sweep
}

/// A locked vault is left alone: nothing works on the store unless the vault
/// is open when it does.
pub proof fn a_locked_vault_is_left_alone(d: Daemon, e: Happening, i: int)
    requires
        0 <= i < reaction(d, e).1.len(),
        touches_store(reaction(d, e).1[i]),
    ensures
        !reaction(d, e).0.locked,
{
}

/// Only a key that fits opens the vault.
pub proof fn only_a_key_opens(d: Daemon, e: Happening)
    requires
        d.locked,
        !reaction(d, e).0.locked,
    ensures
        e matches Happening::Unlocked(r) && r is Ok,
{
}

/// A running daemon takes every frame in, locked or not, and reports it to
/// the transport once.
pub proof fn every_frame_is_taken_in(d: Daemon, outcome: Result<DropOutcome, String>, waiting: u32)
    requires
        d.phase == Phase::Running,
    ensures
        reaction(d, Happening::Arrived).1.last() == Deed::Ingest,
        reaction(d, Happening::Ingested { outcome, waiting }).1.last() == Deed::NoteDrained,
        forall|i: int|
            0 <= i < reaction(d, Happening::Ingested { outcome, waiting }).1.len() - 1 ==> !(
            #[trigger] reaction(d, Happening::Ingested { outcome, waiting }).1[i] is NoteDrained),
{
}

/// A running daemon follows the lock marker: where it stands, the vault is
/// locked after a tick; where it does not, a locked vault is opened, and an
/// open one is kept up.
pub proof fn the_daemon_follows_the_marker(d: Daemon, marker: bool)
    requires
        d.phase == Phase::Running,
    ensures
        marker ==> reaction(d, Happening::Tick { marker }).0.locked,
        marker && !d.locked ==> reaction(d, Happening::Tick { marker }).1[0] == Deed::Lock,
        marker && d.locked ==> reaction(d, Happening::Tick { marker }).1.len() == 0,
        reaction(d, Happening::Tick { marker }).0.phase == Phase::Running,
        !marker && d.locked ==> reaction(d, Happening::Tick { marker }).1 == seq![Deed::LoadKey],
        !marker && !d.locked ==> reaction(d, Happening::Tick { marker }).1 == seq![
            Deed::DrainOutbox,
            Deed::Sweep,
        ],
{
}

/// A stopped daemon does nothing more.
pub proof fn stopping_is_final(d: Daemon, e: Happening)
    requires
        d.phase == Phase::Stopped,
    ensures
        reaction(d, e) == (d, Seq::<Deed>::empty()),
{
}

/// A start that fails ends with exit code 1 and one complaint, which gives the
/// reason; nothing else ends with that code.
pub proof fn failed_starts_end_with_one(d: Daemon, e: Happening)
    requires
        d.phase != Phase::Stopped,
        d.code == 0,
    ensures
        ({
            let (next, acts) = reaction(d, e);
            let why = match e {
                Happening::TransportStarted(Err(why)) => Some(why@),
                Happening::Hosted(Err(why)) => Some(why@),
                Happening::VaultFound { found: Err(why), .. } => Some(why@),
                _ => None,
            };
            &&& next.code == 1 <==> why is Some
            &&& why is Some ==> next.phase == Phase::Stopped && acts.len() == 1
                && acts[0] is Complain && acts[0]->Complain_0.skip(
                acts[0]->Complain_0.len() - why->0.len(),
            ) == why->0
            &&& next.phase == Phase::Stopped <==> why is Some || e is Closed || e is Interrupted
            &&& e is Closed || e is Interrupted ==> next.code == 0 && acts
                == seq![Deed::StopTransport]
        }),
{
    let acts = reaction(d, e).1;
    match e {
        Happening::TransportStarted(Err(why)) => {
            let line = "error: start: "@ + why@;
            assert(line.skip(line.len() - why@.len()) =~= why@);
        },
        Happening::Hosted(Err(why)) => {
            let line = "error: host service: "@ + why@;
            assert(line.skip(line.len() - why@.len()) =~= why@);
        },
        Happening::VaultFound { found: Err(why), .. } => {
            let line = "error: vault: "@ + why@;
            assert(line.skip(line.len() - why@.len()) =~= why@);
        },
        _ => {},
    }
}

/// A start in which all goes well: the transport, the inbox, the vault, and its
/// key, one after the other. In the end the daemon runs with the vault open.
pub proof fn a_good_start_opens_the_vault(
    d: Daemon,
    onion: String,
    key: [u8; 32],
    report: UnlockReport,
)
    requires
        d.phase == Phase::Starting,
    ensures
        reaction(d, Happening::Launched) == (d, seq![Deed::StartTransport]),
        reaction(d, Happening::TransportStarted(Ok(()))) == (d, seq![Deed::HostInbox]),
        reaction(d, Happening::Hosted(Ok(onion))).0 == d,
        reaction(d, Happening::Hosted(Ok(onion))).1.last() == Deed::FindVault,
        reaction(d, Happening::VaultFound { found: Ok(()), marker: false }) == (
            d,
            seq![Deed::LoadKey],
        ),
        reaction(d, Happening::KeyLoaded(Ok(key))) == (d, seq![Deed::Unlock(key)]),
        reaction(d, Happening::Unlocked(Ok(report))).0.phase == Phase::Running,
        !reaction(d, Happening::Unlocked(Ok(report))).0.locked,
        reaction(d, Happening::Unlocked(Ok(report))).0.code == d.code,
        forall|i: int|
            0 <= i < reaction(d, Happening::Unlocked(Ok(report))).1.len() ==> (
            #[trigger] reaction(d, Happening::Unlocked(Ok(report))).1[i]) is Say,
{
}

/// A vault that is to stay locked, whose key does not load or does not fit, leaves
/// the daemon running and locked; a key or vault that failed is complained of once.
pub proof fn without_a_key_the_daemon_runs_locked(d: Daemon, why: String)
    requires
        d.phase != Phase::Stopped,
    ensures
        reaction(d, Happening::VaultFound { found: Ok(()), marker: true }).0 == (Daemon {
            phase: Phase::Running,
            locked: true,
            code: d.code,
        }),
        reaction(d, Happening::KeyLoaded(Err(why))).0 == (Daemon {
            phase: Phase::Running,
            locked: true,
            code: d.code,
        }),
        reaction(d, Happening::Unlocked(Err(why))).0 == (Daemon {
            phase: Phase::Running,
            locked: true,
            code: d.code,
        }),
        reaction(d, Happening::KeyLoaded(Err(why))).1.len() == 1,
        reaction(d, Happening::KeyLoaded(Err(why))).1[0] is Complain,
        reaction(d, Happening::Unlocked(Err(why))).1.len() == 1,
        reaction(d, Happening::Unlocked(Err(why))).1[0] is Complain,
{
}

/// Every event is told once, in order, with the line that it has.
pub proof fn every_event_is_told_in_order(d: Daemon, events: Vec<EngineEvent>, waiting: u32, i: int)
    requires
        d.phase != Phase::Stopped,
        0 <= i < events@.len(),
    ensures
        ({
            let swept = reaction(d, Happening::Swept(Ok(events))).1;
            let message = reaction(
                d,
                Happening::Ingested { outcome: Ok(DropOutcome::Message { events }), waiting },
            ).1;
            &&& swept.len() == events@.len()
            &&& swept[i] == Deed::Say(util::event_line(events@[i]@))
            &&& message.len() == events@.len() + 1
            &&& message[i] == Deed::Say(util::event_line(events@[i]@))
        }),
{
}

/// A new request is told before its events, with the relationship and its code.
pub proof fn a_request_is_told_first(
    d: Daemon,
    rel_id: String,
    sas: String,
    events: Vec<EngineEvent>,
    waiting: u32,
    i: int,
)
    requires
        d.phase != Phase::Stopped,
        0 <= i < events@.len(),
    ensures
        ({
            let acts = reaction(
                d,
                Happening::Ingested {
                    outcome: Ok(DropOutcome::Request { rel_id, sas, events }),
                    waiting,
                },
            ).1;
            &&& acts.len() == events@.len() + 2
            &&& acts[0] is Say
            &&& acts[0]->Say_0.skip(acts[0]->Say_0.len() - sas@.len()) == sas@
            &&& acts[0]->Say_0.subrange(13, 13 + rel_id@.len() as int) == rel_id@
            &&& acts[1 + i] == Deed::Say(util::event_line(events@[i]@))
        }),
{
    reveal_strlit("request: rel=");
    let line = "request: rel="@ + rel_id@ + " sas="@ + sas@;
    assert(line.skip(line.len() - sas@.len()) =~= sas@);
    assert(line.subrange(13, 13 + rel_id@.len() as int) =~= rel_id@);
}

/// What an opened vault took in is told, and where the daemon was running the
/// outbox and the sweep follow at once.
pub proof fn an_opened_vault_is_told_and_kept_up(d: Daemon, report: UnlockReport, i: int)
    requires
        d.phase != Phase::Stopped,
        0 <= i < report.events@.len(),
    ensures
        ({
            let acts = reaction(d, Happening::Unlocked(Ok(report))).1;
            let events = if report.drained > 0 || report.errors > 0 {
                report.events@.len() as int
            } else {
                0
            };
            &&& acts[0] is Say
            &&& events > 0 ==> acts[1 + i] == Deed::Say(util::event_line(report.events@[i]@))
            &&& d.phase == Phase::Starting ==> acts.len() == 1 + events
            &&& d.phase == Phase::Running ==> acts.len() == 3 + events && acts[1 + events]
                == Deed::DrainOutbox && acts[2 + events] == Deed::Sweep
        }),
{
}

/// Only what is new to the user is told of a frame: that it waits, that it is a
/// request, that it broke the session, or what its message brought.
pub proof fn repeated_frames_are_silent(d: Daemon, waiting: u32)
    requires
        d.phase != Phase::Stopped,
    ensures
        reaction(d, Happening::Ingested { outcome: Ok(DropOutcome::Duplicate), waiting }).1
            == seq![Deed::NoteDrained],
        reaction(d, Happening::Ingested { outcome: Ok(DropOutcome::Dropped), waiting }).1
            == seq![Deed::NoteDrained],
        reaction(d, Happening::Ingested { outcome: Ok(DropOutcome::Queued), waiting }).1.len() == 2,
{
    let acts = reaction(d, Happening::Ingested { outcome: Ok(DropOutcome::Duplicate), waiting }).1;
    assert(acts =~= seq![Deed::NoteDrained]);
    let acts = reaction(d, Happening::Ingested { outcome: Ok(DropOutcome::Dropped), waiting }).1;
    assert(acts =~= seq![Deed::NoteDrained]);
}

/// The line for an opened vault gives the counts exactly if there is anything to
/// count.
pub proof fn counts_are_told_where_there_are_any(drained: u32, errors: u32)
    ensures
        drained == 0 && errors == 0 ==> unlock_text(drained, errors) == "unlocked"@,
        drained > 0 || errors > 0 ==> unlock_text(drained, errors) == "unlocked: drained "@
            + text::decimal(drained as nat) + " queued frame(s), "@ + text::decimal(errors as nat)
            + " error(s)"@,
{
}

/// A frame gets a line exactly if it waits, is a request, or broke a session. The
/// line ends in what there is to know: how many wait, the code to compare, or why the
/// session broke.
pub proof fn frames_get_a_line_where_they_matter(outcome: DropOutcome, waiting: u32)
    ensures
        drop_text(outcome, waiting) is Some <==> outcome is Queued || outcome is Request
            || outcome is SessionBroken,
        outcome is Queued ==> drop_text(outcome, waiting)->0 == "queued: locked, "@
            + text::decimal(waiting as nat) + " at rest"@,
        outcome matches DropOutcome::Request { rel_id, sas, .. } ==> drop_text(outcome, waiting)->0
            == "request: rel="@ + rel_id@ + " sas="@ + sas@,
        outcome matches DropOutcome::SessionBroken { rel_id, reason } ==> drop_text(
            outcome,
            waiting,
        )->0 == "session-broken: rel="@ + rel_id@ + " reason="@ + reason@,
{
}

} // verus!
