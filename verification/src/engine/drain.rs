//! Draining the outbox, and the periodic sweep.

use vstd::prelude::*;

use crate::bytes::{self, read_be64};
use crate::engine::{Engine, EngineEvent, EventView};
use crate::engine::dispatch;
use crate::pairing::ingest::time_setting;
use crate::presence::{self, Presence};
use crate::text::same_text;

verus! {

/// A settling relationship is burned when its outbox is empty, or after this.
pub const CLOSE_SETTLE_SECS: u64 = 60;

/// Five seconds, doubled with each attempt, and no more than five minutes.
pub open spec fn backoff(attempts: u32) -> u64 {
    if attempts == 0 {
        5
    } else if attempts == 1 {
        10
    } else if attempts == 2 {
        20
    } else if attempts == 3 {
        40
    } else if attempts == 4 {
        80
    } else if attempts == 5 {
        160
    } else {
        300
    }
}

/// How long to wait before the next attempt.
pub fn backoff_secs(attempts: u32) -> (secs: u64)
    ensures
        secs == backoff(attempts),
{
    let mut secs: u64 = 5;
    let mut i: u32 = 0;
    while i < attempts && i < 6
        invariant
            i <= 6,
            i <= attempts,
            secs == (if i < 6 {
                backoff(i)
            } else {
                320
            }),
        decreases 6 - i,
    {
        secs = secs * 2;
        i = i + 1;
    }
    if secs <= 300 {
        secs
    } else {
        300
    }
}

/// The wait never gets shorter, and is between five seconds and five minutes.
pub proof fn backoff_grows(a: u32, b: u32)
    requires
        a <= b,
    ensures
        5 <= backoff(a) <= backoff(b) <= 300,
{
}

/// What to do with a record that is due.
#[derive(Clone, Copy, Debug, PartialEq, Eq, Structural)]
pub enum DrainStep {
    /// Its relationship is gone: take it off the queue.
    Drop,
    /// Its peer failed in this pass: wait, without another attempt.
    Backoff(u64),
    /// Send it.
    Attempt,
}

/// One pass over the outbox.
pub struct DrainPass {
    failed: Vec<String>,
    sent: u32,
}

impl DrainPass {
    /// Whether sending to a peer has failed in this pass.
    pub closed spec fn has_failed(&self, onion: Seq<char>) -> bool {
        exists|i: int| 0 <= i < self.failed@.len() && #[trigger] self.failed@[i]@ == onion
    }

    /// How many records went out.
    pub closed spec fn count(&self) -> nat {
        self.sent as nat
    }

    /// What becomes of the next record.
    pub open spec fn step(&self, peer_onion: Option<Seq<char>>, attempts: u32) -> DrainStep {
        match peer_onion {
            None => DrainStep::Drop,
            Some(onion) => if self.has_failed(onion) {
                DrainStep::Backoff(backoff(attempts))
            } else {
                DrainStep::Attempt
            },
        }
    }

    /// A pass that has not begun.
    pub fn new() -> (p: DrainPass)
        ensures
            p.count() == 0,
            forall|onion: Seq<char>| !#[trigger] p.has_failed(onion),
    {
        DrainPass { failed: Vec::new(), sent: 0 }
    }

    /// Decides on the next record, given its peer's address where the
    /// relationship still exists. A peer that failed is not tried again, so
    /// that it does not hold up the others.
    pub fn next(&self, peer_onion: Option<&str>, attempts: u32) -> (step: DrainStep)
        ensures
            step == self.step(
                match peer_onion {
                    Some(onion) => Some(onion@),
                    None => None,
                },
                attempts,
            ),
    {
        match peer_onion {
            Some(onion) => {
                let mut i: usize = 0;
                while i < self.failed.len()
                    invariant
                        peer_onion == Some(onion),
                        i <= self.failed@.len(),
                        forall|k: int| 0 <= k < i ==> #[trigger] self.failed@[k]@ != onion@,
                    decreases self.failed.len() - i,
                {
                    if same_text(self.failed[i].as_str(), onion) {
                        assert(self.failed@[i as int]@ == onion@);
                        return DrainStep::Backoff(backoff_secs(attempts));
                    }
                    i = i + 1;
                }
                DrainStep::Attempt
            },
            None => DrainStep::Drop,
        }
    }

    /// How many records went out.
    pub fn sent(&self) -> (n: u32)
        ensures
            n == self.count(),
    {
        self.sent
    }

    /// A record went out.
    pub fn note_sent(&mut self)
        requires
            old(self).count() < u32::MAX,
        ensures
            final(self).count() == old(self).count() + 1,
            forall|onion: Seq<char>|
                #[trigger] final(self).has_failed(onion) == old(self).has_failed(onion),
    {
        self.sent = self.sent + 1;
        assert forall|onion: Seq<char>|
            #[trigger] self.has_failed(onion) == old(self).has_failed(onion) by {
            assert(self.failed@ == old(self).failed@);
        }
    }

    /// Sending to a peer failed. Returns how long the record waits.
    pub fn note_failed(&mut self, peer_onion: &str, attempts: u32) -> (wait: u64)
        ensures
            wait == backoff(attempts),
            final(self).count() == old(self).count(),
            forall|onion: Seq<char>|
                #[trigger] final(self).has_failed(onion) == (onion == peer_onion@ || old(
                    self,
                ).has_failed(onion)),
    {
        self.failed.push(peer_onion.to_owned());
        proof {
            let n = old(self).failed@.len() as int;
            assert(self.failed@[n]@ == peer_onion@);
            assert forall|onion: Seq<char>|
                #[trigger] self.has_failed(onion) == (onion == peer_onion@ || old(self).has_failed(
                    onion,
                )) by {
                if old(self).has_failed(onion) {
                    let i = choose|i: int|
                        0 <= i < old(self).failed@.len() && #[trigger] old(self).failed@[i]@
                            == onion;
                    assert(self.failed@[i]@ == onion);
                }
                if self.has_failed(onion) && onion != peer_onion@ {
                    let i = choose|i: int|
                        0 <= i < self.failed@.len() && #[trigger] self.failed@[i]@ == onion;
                    assert(old(self).failed@[i]@ == onion);
                }
            }
        }
        backoff_secs(attempts)
    }
}

// ---------------------------------------------------------------------------
// Closing

/// A relationship that is settling.
#[derive(Clone, Debug)]
pub struct ClosingRow {
    pub rel_id: String,
    pub created_at: i64,
    /// The setting that remembers when closing began.
    pub started: Option<Vec<u8>>,
    /// How many records wait in its outbox.
    pub outbox: u64,
}

/// When closing began: the setting, or where it is not a time, when the
/// relationship was made.
pub open spec fn closing_since(setting: Option<Seq<u8>>, created_at: i64) -> int {
    match setting {
        Some(b) => if b.len() == 8 {
            bytes::of_be64(b, 0)
        } else {
            created_at as u64 as int
        },
        None => created_at as u64 as int,
    }
}

impl ClosingRow {
    /// Whether the relationship is burned at `now`: its outbox is empty, or
    /// the time to settle is over.
    pub open spec fn due(self, now: u64) -> bool {
        self.outbox == 0 || now >= closing_since(
            match self.started {
                Some(b) => Some(b@),
                None => None,
            },
            self.created_at,
        ) + CLOSE_SETTLE_SECS
    }
}

/// Whether a settling relationship is burned now.
pub fn close_due(row: &ClosingRow, now: u64) -> (due: bool)
    ensures
        due == row.due(now),
{
    let started: u64 = match &row.started {
        Some(b) => {
            if b.len() == 8 {
                read_be64(b.as_slice(), 0)
            } else {
                row.created_at as u64
            }
        },
        None => row.created_at as u64,
    };
    row.outbox == 0 || (now >= started && now - started >= CLOSE_SETTLE_SECS)
}

/// The setting that remembers when closing began, where it begins now.
pub open spec fn closing_stamp(closing: bool, now: u64) -> Option<Seq<u8>> {
    if closing {
        None
    } else {
        Some(bytes::be64(now))
    }
}

/// Enters the closing state. Returns the setting that remembers when, or
/// `None` where the relationship is settling already.
pub fn enter_closing(closing: bool, now: u64) -> (stamp: Option<Vec<u8>>)
    ensures
        closing_stamp(closing, now) == (match stamp {
            Some(b) => Some(b@),
            None => None,
        }),
{
    if closing {
        None
    } else {
        Some(time_setting(now))
    }
}

/// A settling relationship is burned a minute after closing began at the
/// latest.
pub proof fn closing_settles(now: u64, later: u64)
    requires
        later >= now + CLOSE_SETTLE_SECS,
    ensures
        later >= closing_since(Some(bytes::be64(now)), 0) + CLOSE_SETTLE_SECS,
{
    bytes::be64_reads_back(now);
}

/// The relationships that are burned, in order.
pub open spec fn burned(rows: Seq<ClosingRow>, now: u64) -> Seq<Seq<char>>
    decreases rows.len(),
{
    if rows.len() == 0 {
        Seq::empty()
    } else if rows.last().due(now) {
        burned(rows.drop_last(), now).push(rows.last().rel_id@)
    } else {
        burned(rows.drop_last(), now)
    }
}

/// What a sweep decides.
pub struct Sweep {
    /// The relationships to burn, in order.
    pub burn: Vec<String>,
    pub events: Vec<EngineEvent>,
    /// Where the events of typing that ran out begin.
    pub typing_at: usize,
}

/// The event of a burned relationship.
pub open spec fn closed(rel: Seq<char>) -> EventView {
    EventView::ContactClosed { rel_id: rel }
}

/// The events of burned relationships.
pub open spec fn closings(gone: Seq<Seq<char>>) -> Seq<EventView> {
    gone.map_values(|rel: Seq<char>| closed(rel))
}

/// The event of a peer that went offline.
pub open spec fn offline(rel: Seq<char>) -> EventView {
    EventView::Presence { rel_id: rel, in_app: false, do_not_disturb: false }
}

/// The event of a peer that stopped typing.
pub open spec fn stopped(rel: Seq<char>) -> EventView {
    EventView::Typing { rel_id: rel, typing: false }
}

/// The peers whose typing ran out, in order, but for burned relationships.
pub open spec fn lapsed(typing: Seq<String>, gone: Seq<Seq<char>>) -> Seq<Seq<char>>
    decreases typing.len(),
{
    if typing.len() == 0 {
        Seq::empty()
    } else if gone.contains(typing.last()@) {
        lapsed(typing.drop_last(), gone)
    } else {
        lapsed(typing.drop_last(), gone).push(typing.last()@)
    }
}

/// Whether a text is one of some.
fn is_listed(list: &Vec<String>, s: &str) -> (yes: bool)
    ensures
        yes == list@.map_values(|t: String| t@).contains(s@),
{
    let ghost views = list@.map_values(|t: String| t@);
    let mut i: usize = 0;
    while i < list.len()
        invariant
            i <= list@.len(),
            views == list@.map_values(|t: String| t@),
            forall|k: int| 0 <= k < i ==> #[trigger] views[k] != s@,
        decreases list.len() - i,
    {
        if same_text(list[i].as_str(), s) {
            assert(views[i as int] == s@);
            return true;
        }
        i = i + 1;
    }
    false
}

/// What presence holds of a relationship after a sweep that burns some.
pub open spec fn after_sweep(
    entry: Option<(Presence, u64)>,
    rel: Seq<char>,
    gone: Seq<Seq<char>>,
    now: u64,
) -> Option<(Presence, u64)> {
    if gone.contains(rel) {
        None
    } else {
        presence::swept(entry, now)
    }
}

impl Engine {
    /// Burns what is due, and forgets its presence.
    fn sweep_closing(&mut self, closing: &Vec<ClosingRow>, now: u64) -> (r: Sweep)
        requires
            old(self).wf(),
        ensures
            final(self).wf(),
            r.burn@.map_values(|s: String| s@) == burned(closing@, now),
            dispatch::events_of(r.events@) == closings(burned(closing@, now)),
            forall|rel: Seq<char>| #[trigger]
                final(self).presence.entry(rel) == (if burned(closing@, now).contains(rel) {
                    None
                } else {
                    old(self).presence.entry(rel)
                }),
            final(self).rate == old(self).rate,
            final(self).limited == old(self).limited,
    {
        let mut r: Sweep = Sweep { burn: Vec::new(), events: Vec::new(), typing_at: 0 };
        let mut i: usize = 0;
        assert(closing@.take(0) =~= Seq::empty());
        while i < closing.len()
            invariant
                i <= closing@.len(),
                self.wf(),
                r.burn@.map_values(|s: String| s@) == burned(closing@.take(i as int), now),
                dispatch::events_of(r.events@) == closings(burned(closing@.take(i as int), now)),
                forall|rel: Seq<char>| #[trigger]
                    self.presence.entry(rel) == (if burned(closing@.take(i as int), now).contains(
                        rel,
                    ) {
                        None
                    } else {
                        old(self).presence.entry(rel)
                    }),
                self.rate == old(self).rate,
                self.limited == old(self).limited,
            decreases closing.len() - i,
        {
            let ghost before = burned(closing@.take(i as int), now);
            let ghost burn0 = r.burn@;
            let ghost events0 = r.events@;
            assert(closing@.take(i + 1).drop_last() =~= closing@.take(i as int));
            if close_due(&closing[i], now) {
                let ghost rel0 = closing@[i as int].rel_id@;
                self.presence.forget(closing[i].rel_id.as_str());
                r.burn.push(closing[i].rel_id.clone());
                r.events.push(EngineEvent::ContactClosed { rel_id: closing[i].rel_id.clone() });
                assert(r.burn@.map_values(|s: String| s@) =~= before.push(rel0));
                assert(dispatch::events_of(r.events@) =~= dispatch::events_of(events0).push(
                    closed(rel0),
                ));
                assert(dispatch::events_of(r.events@) =~= closings(before.push(rel0)));
                assert forall|rel: Seq<char>|
                    before.push(rel0).contains(rel) == (rel == rel0 || before.contains(rel)) by {
                    let all = before.push(rel0);
                    assert(all[before.len() as int] == rel0);
                    if before.contains(rel) {
                        let k = choose|k: int| 0 <= k < before.len() && before[k] == rel;
                        assert(all[k] == rel);
                    }
                    if all.contains(rel) && rel != rel0 {
                        let k = choose|k: int| 0 <= k < all.len() && all[k] == rel;
                        assert(before[k] == rel);
                    }
                }
            }
            i = i + 1;
        }
        assert(closing@.take(closing@.len() as int) =~= closing@);
        r
    }

    /// Burns what is due, and reports each peer whose presence ran out.
    fn sweep_presence(&mut self, closing: &Vec<ClosingRow>, now: u64) -> (r: Sweep)
        requires
            old(self).wf(),
        ensures
            final(self).wf(),
            r.burn@.map_values(|s: String| s@) == burned(closing@, now),
            forall|rel: Seq<char>| #[trigger]
                final(self).presence.entry(rel) == after_sweep(
                    old(self).presence.entry(rel),
                    rel,
                    burned(closing@, now),
                    now,
                ),
            final(self).rate == old(self).rate,
            final(self).limited == old(self).limited,
            r.events@.len() >= r.burn@.len(),
            r.typing_at == r.events@.len(),
            forall|i: int|
                0 <= i < r.burn@.len() ==> (#[trigger] r.events@[i])@ == closed(
                    burned(closing@, now)[i],
                ),
            forall|i: int|
                r.burn@.len() <= i < r.events@.len() ==> (#[trigger] r.events@[i])@ is Presence
                    && r.events@[i]@ == offline(r.events@[i]@->Presence_rel_id) && !burned(
                    closing@,
                    now,
                ).contains(r.events@[i]@->Presence_rel_id) && presence::decays(
                    old(self).presence.entry(r.events@[i]@->Presence_rel_id),
                    now,
                ),
            forall|rel: Seq<char>|
                presence::decays(#[trigger] old(self).presence.entry(rel), now) && !burned(
                    closing@,
                    now,
                ).contains(rel) ==> exists|i: int|
                    r.burn@.len() <= i < r.events@.len() && (#[trigger] r.events@[i])@ == offline(
                        rel,
                    ),
            forall|i: int, j: int|
                #![trigger r.events@[i], r.events@[j]]
                r.burn@.len() <= i < j < r.events@.len() ==> r.events@[i]@ != r.events@[j]@,
    {
        let mut r: Sweep = self.sweep_closing(closing, now);
        let ghost gone = burned(closing@, now);
        let ghost mid = *self;
        let ghost n = r.burn@.len();
        let ghost first = r.events@;
        assert(first.len() == n) by {
            assert(r.burn@.map_values(|s: String| s@).len() == n);
            assert(dispatch::events_of(first).len() == first.len());
        }
        assert forall|i: int| 0 <= i < n implies (#[trigger] first[i])@ == closed(gone[i]) by {
            assert(dispatch::events_of(first)[i] == first[i]@);
        }
        let decayed: Vec<String> = self.presence.sweep(now);
        let mut i: usize = 0;
        while i < decayed.len()
            invariant
                i <= decayed@.len(),
                n == first.len(),
                r.burn@.len() == n,
                r.burn@.map_values(|s: String| s@) == burned(closing@, now),
                r.events@.len() == n + i,
                forall|k: int| 0 <= k < n ==> #[trigger] r.events@[k] == first[k],
                forall|k: int|
                    n <= k < n + i ==> (#[trigger] r.events@[k])@ == offline(decayed@[k - n]@),
            decreases decayed.len() - i,
        {
            r.events.push(
                EngineEvent::Presence {
                    rel_id: decayed[i].clone(),
                    in_app: false,
                    do_not_disturb: false,
                },
            );
            i = i + 1;
        }
        proof {
            assert forall|k: int| n <= k < r.events@.len() implies {
                &&& (#[trigger] r.events@[k])@ is Presence
                &&& r.events@[k]@ == offline(r.events@[k]@->Presence_rel_id)
                &&& !gone.contains(r.events@[k]@->Presence_rel_id)
                &&& presence::decays(
                    old(self).presence.entry(r.events@[k]@->Presence_rel_id),
                    now,
                )
            } by {
                let rel = decayed@[k - n]@;
                assert(presence::decays(mid.presence.entry(rel), now));
            }
            assert forall|rel: Seq<char>|
                presence::decays(#[trigger] old(self).presence.entry(rel), now) && !gone.contains(
                    rel,
                ) implies exists|k: int|
                n <= k < r.events@.len() && (#[trigger] r.events@[k])@ == offline(rel) by {
                assert(presence::decays(mid.presence.entry(rel), now));
                let k = choose|k: int| 0 <= k < decayed@.len() && #[trigger] decayed@[k]@ == rel;
                assert(r.events@[n + k]@ == offline(decayed@[k]@));
            }
            assert forall|k: int, l: int|
                #![trigger r.events@[k], r.events@[l]]
                n <= k < l < r.events@.len() implies r.events@[k]@ != r.events@[l]@ by {
                if decayed@[k - n]@ == decayed@[l - n]@ {
                    assert(k == l);
                }
            }
        }
        r.typing_at = r.events.len();
        r
    }

    /// Sweeps: settling relationships that are due are burned, then each peer
    /// whose presence ran out is reported offline, once, and then each of `typing`,
    /// the peers whose typing ran out, as no longer typing.
    pub fn sweep(&mut self, closing: &Vec<ClosingRow>, typing: &Vec<String>, now: u64) -> (r: Sweep)
        requires
            old(self).wf(),
        ensures
            final(self).wf(),
            r.burn@.map_values(|s: String| s@) == burned(closing@, now),
            forall|rel: Seq<char>| #[trigger]
                final(self).presence.entry(rel) == after_sweep(
                    old(self).presence.entry(rel),
                    rel,
                    burned(closing@, now),
                    now,
                ),
            final(self).rate == old(self).rate,
            final(self).limited == old(self).limited,
            r.burn@.len() <= r.typing_at <= r.events@.len(),
            forall|i: int|
                0 <= i < r.burn@.len() ==> (#[trigger] r.events@[i])@ == closed(
                    burned(closing@, now)[i],
                ),
            forall|i: int|
                r.burn@.len() <= i < r.typing_at ==> (#[trigger] r.events@[i])@ is Presence
                    && r.events@[i]@ == offline(r.events@[i]@->Presence_rel_id) && !burned(
                    closing@,
                    now,
                ).contains(r.events@[i]@->Presence_rel_id) && presence::decays(
                    old(self).presence.entry(r.events@[i]@->Presence_rel_id),
                    now,
                ),
            forall|rel: Seq<char>|
                presence::decays(#[trigger] old(self).presence.entry(rel), now) && !burned(
                    closing@,
                    now,
                ).contains(rel) ==> exists|i: int|
                    r.burn@.len() <= i < r.typing_at && (#[trigger] r.events@[i])@ == offline(rel),
            forall|i: int, j: int|
                #![trigger r.events@[i], r.events@[j]]
                r.burn@.len() <= i < j < r.typing_at ==> r.events@[i]@ != r.events@[j]@,
            r.events@.len() == r.typing_at + lapsed(typing@, burned(closing@, now)).len(),
            forall|i: int|
                r.typing_at <= i < r.events@.len() ==> (#[trigger] r.events@[i])@ == stopped(
                    lapsed(typing@, burned(closing@, now))[i - r.typing_at],
                ),
    {
        let mut r: Sweep = self.sweep_presence(closing, now);
        let ghost gone = burned(closing@, now);
        let ghost first = r.events@;
        let mut i: usize = 0;
        assert(typing@.take(0) =~= Seq::empty());
        while i < typing.len()
            invariant
                i <= typing@.len(),
                gone == burned(closing@, now),
                r.burn@.map_values(|s: String| s@) == gone,
                r.typing_at == first.len(),
                r.events@.len() == first.len() + lapsed(typing@.take(i as int), gone).len(),
                forall|k: int| 0 <= k < first.len() ==> #[trigger] r.events@[k] == first[k],
                forall|k: int|
                    first.len() <= k < r.events@.len() ==> (#[trigger] r.events@[k])@ == stopped(
                        lapsed(typing@.take(i as int), gone)[k - first.len()],
                    ),
            decreases typing.len() - i,
        {
            assert(typing@.take(i + 1).drop_last() =~= typing@.take(i as int));
            if !is_listed(&r.burn, typing[i].as_str()) {
                r.events.push(EngineEvent::Typing { rel_id: typing[i].clone(), typing: false });
            }
            i = i + 1;
        }
        assert(typing@.take(typing@.len() as int) =~= typing@);
        proof {
            assert forall|rel: Seq<char>|
                presence::decays(#[trigger] old(self).presence.entry(rel), now) && !gone.contains(
                    rel,
                ) implies exists|k: int|
                r.burn@.len() <= k < r.typing_at && (#[trigger] r.events@[k])@ == offline(rel) by {
                let k = choose|k: int|
                    r.burn@.len() <= k < first.len() && (#[trigger] first[k])@ == offline(rel);
                assert(r.events@[k] == first[k]);
            }
        }
        r
    }
}

// ---------------------------------------------------------------------------
// Laws

/// The first wait is five seconds; each later one is twice the one before it, and
/// none is over five minutes.
pub proof fn waits_double(attempts: u32)
    requires
        attempts < u32::MAX,
    ensures
        backoff(0) == 5,
        2 * backoff(attempts) <= 300 ==> backoff((attempts + 1) as u32) == 2 * backoff(attempts),
        2 * backoff(attempts) > 300 ==> backoff((attempts + 1) as u32) == 300,
{
}

/// A settling relationship is burned exactly if its outbox is empty or a minute
/// has gone by since closing began. Where that was not written down, it counts
/// from when the relationship was made.
pub proof fn settling_takes_a_minute_at_most(row: ClosingRow, began: u64, now: u64)
    requires
        row.started matches Some(b) ==> b@ == bytes::be64(began),
        row.started is None ==> row.created_at == began,
    ensures
        row.due(now) <==> row.outbox == 0 || now >= began + 60,
{
    bytes::be64_reads_back(began);
}

/// A relationship is among the burned exactly if it is settling and due, and the
/// burned keep the order of the settling.
pub proof fn what_is_due_is_burned(rows: Seq<ClosingRow>, now: u64)
    ensures
        burned(rows, now).len() == rows.filter(|r: ClosingRow| r.due(now)).len(),
        forall|k: int|
            0 <= k < burned(rows, now).len() ==> #[trigger] burned(rows, now)[k] == rows.filter(
                |r: ClosingRow| r.due(now),
            )[k].rel_id@,
    decreases rows.len(),
{
    reveal(Seq::filter);
    if rows.len() > 0 {
        what_is_due_is_burned(rows.drop_last(), now);
    }
}

/// A relationship is burned exactly if it is settling and due.
pub proof fn only_what_is_due_is_burned(rows: Seq<ClosingRow>, now: u64, rel: Seq<char>)
    ensures
        burned(rows, now).contains(rel) <==> exists|i: int|
            #![trigger rows[i]]
            0 <= i < rows.len() && rows[i].rel_id@ == rel && rows[i].due(now),
    decreases rows.len(),
{
    if rows.len() > 0 {
        let rest = rows.drop_last();
        let before = burned(rest, now);
        let all = burned(rows, now);
        only_what_is_due_is_burned(rest, now, rel);
        if before.contains(rel) {
            let k = choose|k: int| 0 <= k < before.len() && before[k] == rel;
            assert(all[k] == rel);
            let i = choose|i: int|
                #![trigger rest[i]]
                0 <= i < rest.len() && rest[i].rel_id@ == rel && rest[i].due(now);
            assert(rows[i] == rest[i]);
        } else {
            if all.contains(rel) {
                let k = choose|k: int| 0 <= k < all.len() && all[k] == rel;
                if k < before.len() {
                    assert(before[k] == rel);
                }
                assert(rows[rows.len() - 1].rel_id@ == rel);
            }
            if exists|i: int|
                #![trigger rows[i]]
                0 <= i < rows.len() && rows[i].rel_id@ == rel && rows[i].due(now) {
                let i = choose|i: int|
                    #![trigger rows[i]]
                    0 <= i < rows.len() && rows[i].rel_id@ == rel && rows[i].due(now);
                if i < rest.len() {
                    assert(rest[i] == rows[i]);
                }
                assert(i == rows.len() - 1);
                assert(all[all.len() - 1] == rel);
            }
        }
    }
}

/// A peer is reported as no longer typing exactly if its typing ran out and its
/// relationship was not burned.
pub proof fn typing_of_the_burned_is_not_reported(
    typing: Seq<String>,
    gone: Seq<Seq<char>>,
    rel: Seq<char>,
)
    ensures
        lapsed(typing, gone).contains(rel) <==> !gone.contains(rel) && exists|i: int|
            #![trigger typing[i]]
            0 <= i < typing.len() && typing[i]@ == rel,
    decreases typing.len(),
{
    if typing.len() > 0 {
        let rest = typing.drop_last();
        let before = lapsed(rest, gone);
        let all = lapsed(typing, gone);
        typing_of_the_burned_is_not_reported(rest, gone, rel);
        if before.contains(rel) {
            let k = choose|k: int| 0 <= k < before.len() && before[k] == rel;
            assert(all[k] == rel);
            let i = choose|i: int| #![trigger rest[i]] 0 <= i < rest.len() && rest[i]@ == rel;
            assert(typing[i] == rest[i]);
        } else {
            if all.contains(rel) {
                let k = choose|k: int| 0 <= k < all.len() && all[k] == rel;
                if k < before.len() {
                    assert(before[k] == rel);
                }
                assert(typing[typing.len() - 1]@ == rel);
            }
            if !gone.contains(rel) && exists|i: int|
                #![trigger typing[i]]
                0 <= i < typing.len() && typing[i]@ == rel {
                let i = choose|i: int|
                    #![trigger typing[i]]
                    0 <= i < typing.len() && typing[i]@ == rel;
                if i < rest.len() {
                    assert(rest[i] == typing[i]);
                }
                assert(i == typing.len() - 1);
                assert(all[all.len() - 1] == rel);
            }
        }
    }
}

/// A sweep forgets the presence of what it burns and of peers that have not
/// advertised for 45 seconds, and leaves all other presence as it was. What it
/// reports of a peer is that it is closed, not in the app, or not typing.
pub proof fn a_sweep_forgets_the_gone_and_the_stale(
    entry: Option<(Presence, u64)>,
    rel: Seq<char>,
    gone: Seq<Seq<char>>,
    now: u64,
)
    ensures
        gone.contains(rel) ==> after_sweep(entry, rel, gone, now) is None,
        !gone.contains(rel) ==> (entry matches Some((_, at)) ==> after_sweep(entry, rel, gone, now)
            == (if now < at + 45 {
            entry
        } else {
            None
        })),
        entry is None ==> after_sweep(entry, rel, gone, now) is None,
        closed(rel) matches EventView::ContactClosed { rel_id } && rel_id == rel,
        offline(rel) matches EventView::Presence { rel_id, in_app, do_not_disturb } && rel_id == rel
            && !in_app && !do_not_disturb,
        stopped(rel) matches EventView::Typing { rel_id, typing } && rel_id == rel && !typing,
        forall|k: int|
            0 <= k < gone.len() ==> #[trigger] closings(gone)[k] == closed(gone[k]),
        closings(gone).len() == gone.len(),
{
}

/// A record is tried exactly if its relationship is there and its peer has not
/// failed in this pass; one whose relationship is gone is dropped, and any other
/// waits as long as its attempts say.
pub proof fn failed_peers_do_not_hold_up_others(
    pass: DrainPass,
    onion: Seq<char>,
    attempts: u32,
)
    ensures
        pass.step(None, attempts) == DrainStep::Drop,
        pass.step(Some(onion), attempts) == DrainStep::Attempt <==> !pass.has_failed(onion),
        pass.has_failed(onion) <==> pass.step(Some(onion), attempts) == DrainStep::Backoff(
            backoff(attempts),
        ),
{
}

/// Closing begins once, and from the time that it began a minute is counted.
pub proof fn closing_begins_once(row: ClosingRow, closing: bool, now: u64, later: u64)
    requires
        row.outbox > 0,
        row.started is Some,
        closing_stamp(closing, now) == Some(row.started->0@),
    ensures
        !closing,
        row.due(later) <==> later >= now + 60,
        closing_stamp(true, later) is None,
{
    bytes::be64_reads_back(now);
}

} // verus!
