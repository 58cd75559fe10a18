//! Temporal limits against floods: token buckets on what a peer can make this
//! side do, never on what the user sends. Every drop is counted.

use vstd::prelude::*;

use crate::limits::rate;
use crate::text::same_text;

verus! {

/// The surfaces that carry temporal limits.
#[derive(Clone, Copy, Debug, PartialEq, Eq, Structural, Hash)]
pub enum Surface {
    /// Frames at a hosted service's listener, dropped before decryption.
    InboundFrame,
    /// Answering a resync request.
    ResyncReq,
    /// Inbound typing and presence envelopes.
    Ephemeral,
    /// Pairing intros, bounded by an interval that is kept on disk and not
    /// by a bucket.
    Intro,
    /// Control-port commands.
    ControlCmd,
    /// Sticker fetches that inbound content triggers.
    StickerFetch,
    /// Answering sticker requests.
    StickerServe,
}

impl Surface {
    /// Burst capacity and refill per second of a surface with a bucket.
    pub open spec fn params(self) -> (u32, u32) {
        match self {
            Surface::InboundFrame => (rate::INBOUND_FRAME_BURST, rate::INBOUND_FRAME_PER_SEC),
            Surface::ResyncReq => (rate::RESYNC_REQ_BURST, rate::RESYNC_REQ_PER_SEC),
            Surface::Ephemeral => (rate::EPHEMERAL_BURST, rate::EPHEMERAL_PER_SEC),
            Surface::ControlCmd => (rate::CONTROL_CMD_BURST, rate::CONTROL_CMD_PER_SEC),
            Surface::StickerFetch => (rate::STICKER_FETCH_BURST, rate::STICKER_FETCH_PER_SEC),
            Surface::StickerServe => (rate::STICKER_SERVE_BURST, rate::STICKER_SERVE_PER_SEC),
            Surface::Intro => (0, 0),
        }
    }

    /// Burst capacity and refill per second. Intros have no bucket.
    pub fn bucket_params(self) -> (params: (u32, u32))
        requires
            self != Surface::Intro,
        ensures
            params == self.params(),
    {
        match self {
            Surface::InboundFrame => (rate::INBOUND_FRAME_BURST, rate::INBOUND_FRAME_PER_SEC),
            Surface::ResyncReq => (rate::RESYNC_REQ_BURST, rate::RESYNC_REQ_PER_SEC),
            Surface::Ephemeral => (rate::EPHEMERAL_BURST, rate::EPHEMERAL_PER_SEC),
            Surface::ControlCmd => (rate::CONTROL_CMD_BURST, rate::CONTROL_CMD_PER_SEC),
            Surface::StickerFetch => (rate::STICKER_FETCH_BURST, rate::STICKER_FETCH_PER_SEC),
            Surface::StickerServe => (rate::STICKER_SERVE_BURST, rate::STICKER_SERVE_PER_SEC),
            Surface::Intro => (0, 0),
        }
    }

    /// The name that log lines use.
    pub fn name(self) -> (name: &'static str)
        ensures
            name@ == match self {
                Surface::InboundFrame => "inbound_frame"@,
                Surface::ResyncReq => "resync_req"@,
                Surface::Ephemeral => "ephemeral"@,
                Surface::Intro => "intro"@,
                Surface::ControlCmd => "control_cmd"@,
                Surface::StickerFetch => "sticker_fetch"@,
                Surface::StickerServe => "sticker_serve"@,
            },
    {
        match self {
            Surface::InboundFrame => "inbound_frame",
            Surface::ResyncReq => "resync_req",
            Surface::Ephemeral => "ephemeral",
            Surface::Intro => "intro",
            Surface::ControlCmd => "control_cmd",
            Surface::StickerFetch => "sticker_fetch",
            Surface::StickerServe => "sticker_serve",
        }
    }
}

/// Drops per surface since the process started.
#[derive(Clone, Copy, Debug)]
pub struct DropCounts {
    pub inbound_frame: u64,
    pub resync_req: u64,
    pub ephemeral: u64,
    pub intro: u64,
    pub control_cmd: u64,
    pub sticker_fetch: u64,
    pub sticker_serve: u64,
}

impl DropCounts {
    /// The count of one surface.
    pub open spec fn of(self, surface: Surface) -> u64 {
        match surface {
            Surface::InboundFrame => self.inbound_frame,
            Surface::ResyncReq => self.resync_req,
            Surface::Ephemeral => self.ephemeral,
            Surface::Intro => self.intro,
            Surface::ControlCmd => self.control_cmd,
            Surface::StickerFetch => self.sticker_fetch,
            Surface::StickerServe => self.sticker_serve,
        }
    }

    /// The counts with one more drop on `surface`.
    pub open spec fn bumped(self, surface: Surface) -> DropCounts {
        match surface {
            Surface::InboundFrame => DropCounts {
                inbound_frame: self.inbound_frame.wrapping_add(1),
                ..self
            },
            Surface::ResyncReq => DropCounts { resync_req: self.resync_req.wrapping_add(1), ..self },
            Surface::Ephemeral => DropCounts { ephemeral: self.ephemeral.wrapping_add(1), ..self },
            Surface::Intro => DropCounts { intro: self.intro.wrapping_add(1), ..self },
            Surface::ControlCmd => DropCounts {
                control_cmd: self.control_cmd.wrapping_add(1),
                ..self
            },
            Surface::StickerFetch => DropCounts {
                sticker_fetch: self.sticker_fetch.wrapping_add(1),
                ..self
            },
            Surface::StickerServe => DropCounts {
                sticker_serve: self.sticker_serve.wrapping_add(1),
                ..self
            },
        }
    }

    /// Nothing dropped yet.
    pub fn new() -> (counts: DropCounts)
        ensures
            forall|s: Surface| #[trigger] counts.of(s) == 0,
    {
        DropCounts {
            inbound_frame: 0,
            resync_req: 0,
            ephemeral: 0,
            intro: 0,
            control_cmd: 0,
            sticker_fetch: 0,
            sticker_serve: 0,
        }
    }
}

/// Counts one drop and returns the surface's new total, for the log.
pub fn note_limited(counts: &mut DropCounts, surface: Surface) -> (total: u64)
    ensures
        *final(counts) == old(counts).bumped(surface),
        total == final(counts).of(surface),
{
    match surface {
        Surface::InboundFrame => {
            counts.inbound_frame = counts.inbound_frame.wrapping_add(1);
        },
        Surface::ResyncReq => {
            counts.resync_req = counts.resync_req.wrapping_add(1);
        },
        Surface::Ephemeral => {
            counts.ephemeral = counts.ephemeral.wrapping_add(1);
        },
        Surface::Intro => {
            counts.intro = counts.intro.wrapping_add(1);
        },
        Surface::ControlCmd => {
            counts.control_cmd = counts.control_cmd.wrapping_add(1);
        },
        Surface::StickerFetch => {
            counts.sticker_fetch = counts.sticker_fetch.wrapping_add(1);
        },
        Surface::StickerServe => {
            counts.sticker_serve = counts.sticker_serve.wrapping_add(1);
        },
    }
    limited(counts, surface)
}

/// Drops on one surface.
pub fn limited(counts: &DropCounts, surface: Surface) -> (n: u64)
    ensures
        n == counts.of(surface),
{
    match surface {
        Surface::InboundFrame => counts.inbound_frame,
        Surface::ResyncReq => counts.resync_req,
        Surface::Ephemeral => counts.ephemeral,
        Surface::Intro => counts.intro,
        Surface::ControlCmd => counts.control_cmd,
        Surface::StickerFetch => counts.sticker_fetch,
        Surface::StickerServe => counts.sticker_serve,
    }
}

/// Drops on all surfaces. Honest use leaves this at zero.
pub fn rate_limited(counts: &DropCounts) -> (n: u64)
    requires
        counts.inbound_frame + counts.resync_req + counts.ephemeral + counts.intro
            + counts.control_cmd + counts.sticker_fetch + counts.sticker_serve <= u64::MAX,
    ensures
        n == counts.inbound_frame + counts.resync_req + counts.ephemeral + counts.intro
            + counts.control_cmd + counts.sticker_fetch + counts.sticker_serve,
{
    counts.inbound_frame + counts.resync_req + counts.ephemeral + counts.intro + counts.control_cmd
        + counts.sticker_fetch + counts.sticker_serve
}

// ---------------------------------------------------------------------------
// Buckets

/// A token bucket that refills when it is asked. The caller supplies the
/// clock, in seconds.
#[derive(Clone, Copy, Debug)]
pub struct TokenBucket {
    capacity: u32,
    tokens: u32,
    refill_per_sec: u32,
    last_refill: u64,
}

/// The state of a bucket.
pub struct Bucket {
    pub capacity: nat,
    pub tokens: nat,
    pub refill_per_sec: nat,
    pub last_refill: nat,
}

impl Bucket {
    /// A bucket never holds more than its capacity.
    pub open spec fn wf(self) -> bool {
        self.tokens <= self.capacity
    }

    /// The bucket after the refill that is due at `now`. A clock that went
    /// back refills nothing.
    pub open spec fn refilled(self, now: nat) -> Bucket {
        if now > self.last_refill {
            let full = self.tokens + (now - self.last_refill) * self.refill_per_sec;
            Bucket {
                tokens: if full <= self.capacity {
                    full as nat
                } else {
                    self.capacity
                },
                last_refill: now,
                ..self
            }
        } else {
            self
        }
    }

    /// Whether a token is granted at `now`.
    pub open spec fn grants(self, now: nat) -> bool {
        self.refilled(now).tokens > 0
    }

    /// The bucket after a request at `now`.
    pub open spec fn asked(self, now: nat) -> Bucket {
        let r = self.refilled(now);
        if r.tokens > 0 {
            Bucket { tokens: (r.tokens - 1) as nat, ..r }
        } else {
            r
        }
    }

    /// A full bucket.
    pub open spec fn full(capacity: nat, refill_per_sec: nat, now: nat) -> Bucket {
        Bucket { capacity, tokens: capacity, refill_per_sec, last_refill: now }
    }
}

impl View for TokenBucket {
    type V = Bucket;

    closed spec fn view(&self) -> Bucket {
        Bucket {
            capacity: self.capacity as nat,
            tokens: self.tokens as nat,
            refill_per_sec: self.refill_per_sec as nat,
            last_refill: self.last_refill as nat,
        }
    }
}

impl TokenBucket {
    /// A full bucket, so that the first honest burst passes.
    pub fn new(capacity: u32, refill_per_sec: u32, now: u64) -> (b: TokenBucket)
        ensures
            b@ == Bucket::full(capacity as nat, refill_per_sec as nat, now as nat),
            b@.wf(),
    {
        TokenBucket { capacity, tokens: capacity, refill_per_sec, last_refill: now }
    }

    /// Takes one token; `false` where there is none.
    pub fn check(&mut self, now: u64) -> (granted: bool)
        requires
            old(self)@.wf(),
        ensures
            granted == old(self)@.grants(now as nat),
            final(self)@ == old(self)@.asked(now as nat),
            final(self)@.wf(),
    {
        if now > self.last_refill {
            let elapsed: u64 = now - self.last_refill;
            assert(elapsed * self.refill_per_sec <= 0xffff_ffff_ffff_ffff * 0xffff_ffff)
                by (nonlinear_arith)
                requires
                    elapsed <= 0xffff_ffff_ffff_ffff,
                    self.refill_per_sec <= 0xffff_ffff,
            ;
            assert(elapsed * self.refill_per_sec >= 0) by (nonlinear_arith);
            let due: u128 = elapsed as u128 * self.refill_per_sec as u128;
            let room: u32 = self.capacity - self.tokens;
            if due <= room as u128 {
                self.tokens = self.tokens + due as u32;
            } else {
                self.tokens = self.capacity;
            }
            self.last_refill = now;
        }
        if self.tokens > 0 {
            self.tokens = self.tokens - 1;
            true
        } else {
            false
        }
    }
}

// ---------------------------------------------------------------------------
// Laws of the bucket

/// A request at `now` leaves a bucket that holds no more than its capacity.
pub proof fn bucket_stays_within_capacity(b: Bucket, now: nat)
    requires
        b.wf(),
    ensures
        b.asked(now).wf(),
        b.asked(now).capacity == b.capacity,
        b.asked(now).refill_per_sec == b.refill_per_sec,
{
}

/// A clock that stands still or goes back refills nothing: the bucket only
/// loses the token that it grants, if it has one.
pub proof fn rollback_refills_nothing(b: Bucket, now: nat)
    requires
        now <= b.last_refill,
    ensures
        b.grants(now) == (b.tokens > 0),
        b.asked(now).tokens == (if b.tokens > 0 {
            (b.tokens - 1) as nat
        } else {
            0
        }),
        b.asked(now).last_refill == b.last_refill,
{
}

/// The bucket after `n` requests at one instant.
pub open spec fn asked_times(b: Bucket, now: nat, n: nat) -> Bucket
    decreases n,
{
    if n == 0 {
        b
    } else {
        asked_times(b, now, (n - 1) as nat).asked(now)
    }
}

/// At one instant a fresh bucket grants exactly as many requests as it has
/// room for: the first `capacity` pass, the others do not.
pub proof fn fresh_bucket_grants_its_capacity(capacity: nat, refill: nat, now: nat, n: nat)
    ensures
        asked_times(Bucket::full(capacity, refill, now), now, n).grants(now) == (n < capacity),
{
    drained(Bucket::full(capacity, refill, now), now, n);
}

proof fn drained(b: Bucket, now: nat, n: nat)
    requires
        now <= b.last_refill,
    ensures
        asked_times(b, now, n) == (Bucket {
            tokens: if n <= b.tokens {
                (b.tokens - n) as nat
            } else {
                0
            },
            ..b
        }),
    decreases n,
{
    if n > 0 {
        drained(b, now, (n - 1) as nat);
    }
}

/// How many of a series of requests a bucket grants.
pub open spec fn granted_of(b: Bucket, times: Seq<nat>) -> nat
    decreases times.len(),
{
    if times.len() == 0 {
        0
    } else {
        (if b.grants(times[0]) {
            1nat
        } else {
            0
        }) + granted_of(b.asked(times[0]), times.drop_first())
    }
}

/// Whatever the order and the clock of the requests, up to time `latest` a
/// bucket grants no more than it held plus what was refilled in the meantime.
pub proof fn grants_are_bounded(b: Bucket, times: Seq<nat>, latest: nat)
    requires
        b.wf(),
        b.last_refill <= latest,
        forall|i: int| 0 <= i < times.len() ==> #[trigger] times[i] <= latest,
    ensures
        granted_of(b, times) <= b.tokens + (latest - b.last_refill) * b.refill_per_sec,
    decreases times.len(),
{
    if times.len() == 0 {
        assert((latest - b.last_refill) * b.refill_per_sec >= 0) by (nonlinear_arith)
            requires
                latest >= b.last_refill,
        ;
    } else {
        let now = times[0];
        let c = b.asked(now);
        assert forall|i: int| 0 <= i < times.drop_first().len() implies #[trigger]
            times.drop_first()[i] <= latest by {
            assert(times.drop_first()[i] == times[i + 1]);
        }
        grants_are_bounded(c, times.drop_first(), latest);
        if now > b.last_refill {
            assert((latest - now) * b.refill_per_sec + (now - b.last_refill) * b.refill_per_sec == (
            latest - b.last_refill) * b.refill_per_sec) by (nonlinear_arith);
        }
    }
}

// ---------------------------------------------------------------------------
// Tables

struct Entry {
    surface: Surface,
    key: String,
    bucket: TokenBucket,
}

/// One bucket per surface and key.
pub struct RateTables {
    entries: Vec<Entry>,
}

impl RateTables {
    /// The bucket's slot is the only one with its surface and key, and no
    /// bucket is overfull.
    pub closed spec fn wf(&self) -> bool {
        &&& forall|i: int, j: int|
            #![trigger self.entries@[i], self.entries@[j]]
            0 <= i < self.entries@.len() && 0 <= j < self.entries@.len() && self.entries@[i].surface
                == self.entries@[j].surface && self.entries@[i].key@ == self.entries@[j].key@ ==> i
                == j
        &&& forall|i: int|
            0 <= i < self.entries@.len() ==> (#[trigger] self.entries@[i]).bucket@.wf()
    }

    spec fn slot(&self, i: int, surface: Surface, key: Seq<char>) -> bool {
        &&& 0 <= i < self.entries@.len()
        &&& self.entries@[i].surface == surface
        &&& self.entries@[i].key@ == key
    }

    /// The bucket of a surface and key, if there is one yet.
    pub closed spec fn bucket(&self, surface: Surface, key: Seq<char>) -> Option<Bucket> {
        if exists|i: int| self.slot(i, surface, key) {
            Some(self.entries@[choose|i: int| self.slot(i, surface, key)].bucket@)
        } else {
            None
        }
    }

    /// The bucket of a surface and key, or the full one that a first request
    /// at `now` gets.
    pub open spec fn bucket_at(&self, surface: Surface, key: Seq<char>, now: nat) -> Bucket {
        match self.bucket(surface, key) {
            Some(b) => b,
            None => Bucket::full(surface.params().0 as nat, surface.params().1 as nat, now),
        }
    }

    proof fn slot_gives_bucket(&self, i: int, surface: Surface, key: Seq<char>)
        requires
            self.wf(),
            self.slot(i, surface, key),
        ensures
            self.bucket(surface, key) == Some(self.entries@[i].bucket@),
    {
        let k = choose|k: int| self.slot(k, surface, key);
        assert(self.slot(k, surface, key));
        assert(self.entries@[k].surface == self.entries@[i].surface);
    }

    /// No buckets yet.
    pub fn new() -> (t: RateTables)
        ensures
            t.wf(),
            forall|s: Surface, k: Seq<char>| #[trigger] t.bucket(s, k) is None,
    {
        RateTables { entries: Vec::new() }
    }

    /// Takes one token for a surface and key. Where there is none the drop is
    /// counted, and the caller drops the work. All other buckets stay as they
    /// are.
    pub fn check(&mut self, counts: &mut DropCounts, surface: Surface, key: &str, now: u64) -> (ok:
        bool)
        requires
            old(self).wf(),
            surface != Surface::Intro,
        ensures
            final(self).wf(),
            ok == old(self).bucket_at(surface, key@, now as nat).grants(now as nat),
            final(self).bucket(surface, key@) == Some(
                old(self).bucket_at(surface, key@, now as nat).asked(now as nat),
            ),
            forall|s: Surface, k: Seq<char>|
                s != surface || k != key@ ==> #[trigger] final(self).bucket(s, k) == old(
                    self,
                ).bucket(s, k),
            *final(counts) == (if ok {
                *old(counts)
            } else {
                old(counts).bumped(surface)
            }),
    {
        let mut at: usize = 0;
        while at < self.entries.len() && !(self.entries[at].surface == surface && same_text(
            self.entries[at].key.as_str(),
            key,
        ))
            invariant
                at <= self.entries@.len(),
                *self == *old(self),
                forall|i: int| 0 <= i < at ==> !self.slot(i, surface, key@),
            decreases self.entries.len() - at,
        {
            at = at + 1;
        }
        if at == self.entries.len() {
            let (capacity, refill) = surface.bucket_params();
            self.entries.push(
                Entry { surface, key: key.to_owned(), bucket: TokenBucket::new(
                    capacity,
                    refill,
                    now,
                ) },
            );
            assert(old(self).bucket(surface, key@) is None);
        } else {
            proof {
                old(self).slot_gives_bucket(at as int, surface, key@);
            }
        }
        let ghost mid = self.entries@;
        let mut bucket: TokenBucket = self.entries[at].bucket;
        let ok: bool = bucket.check(now);
        let entry: Entry = Entry { surface, key: key.to_owned(), bucket };
        self.entries.set(at, entry);
        proof {
            assert forall|i: int, j: int|
                #![trigger self.entries@[i], self.entries@[j]]
                0 <= i < self.entries@.len() && 0 <= j < self.entries@.len()
                    && self.entries@[i].surface == self.entries@[j].surface && self.entries@[i].key@
                    == self.entries@[j].key@ implies i == j by {
                assert(mid[i].surface == self.entries@[i].surface && mid[i].key@
                    == self.entries@[i].key@);
                assert(mid[j].surface == self.entries@[j].surface && mid[j].key@
                    == self.entries@[j].key@);
                if i < old(self).entries@.len() && j < old(self).entries@.len() {
                    assert(mid[i] == old(self).entries@[i]);
                    assert(mid[j] == old(self).entries@[j]);
                } else if i < old(self).entries@.len() {
                    assert(!old(self).slot(i, surface, key@));
                } else if j < old(self).entries@.len() {
                    assert(!old(self).slot(j, surface, key@));
                }
            }
            assert forall|i: int| 0 <= i < self.entries@.len() implies (
            #[trigger] self.entries@[i]).bucket@.wf() by {
                if i != at {
                    assert(self.entries@[i] == old(self).entries@[i]);
                }
            }
            assert(self.slot(at as int, surface, key@));
            self.slot_gives_bucket(at as int, surface, key@);
            assert forall|s: Surface, k: Seq<char>| s != surface || k != key@ implies #[trigger]
                self.bucket(s, k) == old(self).bucket(s, k) by {
                if exists|i: int| old(self).slot(i, s, k) {
                    let i = choose|i: int| old(self).slot(i, s, k);
                    assert(old(self).slot(i, s, k));
                    old(self).slot_gives_bucket(i, s, k);
                    assert(self.slot(i, s, k));
                    self.slot_gives_bucket(i, s, k);
                } else {
                    if exists|i: int| self.slot(i, s, k) {
                        let i = choose|i: int| self.slot(i, s, k);
                        assert(self.slot(i, s, k));
                        assert(old(self).slot(i, s, k));
                    }
                }
            }
        }
        if !ok {
            note_limited(counts, surface);
        }
        ok
    }
}

/// A bucket gains its refill for every second gone by, up to its capacity and no
/// further, and a request takes one token of that. Waiting in two steps is as good
/// as waiting in one, unless the bucket was full in between.
pub proof fn seconds_refill(b: Bucket, now: nat, wait: nat)
    requires
        b.wf(),
        now >= b.last_refill,
    ensures
        b.tokens + (now - b.last_refill) * b.refill_per_sec <= b.capacity ==> b.refilled(now).tokens
            == b.tokens + (now - b.last_refill) * b.refill_per_sec,
        b.tokens + (now - b.last_refill) * b.refill_per_sec >= b.capacity ==> b.refilled(now).tokens
            == b.capacity,
        b.refilled(now).refilled(now + wait) == b.refilled(now + wait),
        b.grants(now) <==> b.tokens > 0 || (b.capacity > 0 && b.refill_per_sec > 0 && now
            > b.last_refill),
        b.grants(now) ==> b.asked(now).tokens + 1 == b.refilled(now).tokens,
        !b.grants(now) ==> b.asked(now).tokens == 0,
        b.asked(now).last_refill == now,
{
    let gained = (now - b.last_refill) * b.refill_per_sec;
    let later = wait * b.refill_per_sec;
    assert(gained >= 0) by (nonlinear_arith)
        requires
            gained == (now - b.last_refill) * b.refill_per_sec,
            now >= b.last_refill,
    ;
    assert(later >= 0) by (nonlinear_arith)
        requires
            later == wait * b.refill_per_sec,
    ;
    assert((now + wait - b.last_refill) * b.refill_per_sec == gained + later) by (nonlinear_arith)
        requires
            gained == (now - b.last_refill) * b.refill_per_sec,
            later == wait * b.refill_per_sec,
    ;
    assert(gained > 0 <==> now > b.last_refill && b.refill_per_sec > 0) by (nonlinear_arith)
        requires
            gained == (now - b.last_refill) * b.refill_per_sec,
            now >= b.last_refill,
    ;
    if now == b.last_refill {
        assert(gained == 0) by (nonlinear_arith)
            requires
                gained == (now - b.last_refill) * b.refill_per_sec,
                now == b.last_refill,
        ;
    }
    if wait == 0 {
        assert(later == 0) by (nonlinear_arith)
            requires
                later == wait * b.refill_per_sec,
                wait == 0,
        ;
    }
    assert((now + wait - now) * b.refill_per_sec == later) by (nonlinear_arith)
        requires
            later == wait * b.refill_per_sec,
    ;
}

/// A first burst passes whole, and refills within sixteen seconds at the latest.
/// Intros have no bucket.
pub proof fn bursts_are_bounded(surface: Surface)
    ensures
        surface != Surface::Intro ==> surface.params().0 > 0 && surface.params().1 > 0
            && surface.params().0 <= 16 * surface.params().1,
        surface == Surface::InboundFrame <==> surface.params() == (4096u32, 256u32),
        surface == Surface::ResyncReq <==> surface.params() == (8u32, 1u32),
        surface == Surface::Ephemeral <==> surface.params() == (16u32, 4u32),
        surface == Surface::ControlCmd <==> surface.params() == (64u32, 8u32),
        surface == Surface::StickerFetch <==> surface.params() == (32u32, 8u32),
        surface == Surface::StickerServe <==> surface.params() == (128u32, 16u32),
{
}

/// A drop is counted once, on its own surface and on no other.
pub proof fn drops_are_counted_where_they_happen(counts: DropCounts, surface: Surface, other: Surface)
    ensures
        counts.of(surface) < u64::MAX ==> counts.bumped(surface).of(surface) == counts.of(surface)
            + 1,
        other != surface ==> counts.bumped(surface).of(other) == counts.of(other),
{
}

} // verus!
