//! Presence dots. They live in memory only, and only transitions are
//! reported: a repeated advertisement is no event. A peer that stops
//! advertising decays to offline.

use vstd::prelude::*;

use crate::text::same_text;

verus! {

/// How long an advertisement counts, in seconds of the receiver's clock.
pub const PRESENCE_TTL_SECS: u64 = 45;

/// A presence advertisement.
#[derive(Clone, Copy, Debug, PartialEq, Eq, Structural)]
pub struct Presence {
    pub in_app: bool,
    pub do_not_disturb: bool,
}

/// What a client shows for a peer.
#[derive(Clone, Copy, Debug, PartialEq, Eq, Structural)]
pub struct PeerPresence {
    pub in_app: bool,
    pub do_not_disturb: bool,
}

pub open spec fn shown(p: Presence) -> PeerPresence {
    PeerPresence { in_app: p.in_app, do_not_disturb: p.do_not_disturb }
}

pub open spec fn offline() -> PeerPresence {
    PeerPresence { in_app: false, do_not_disturb: false }
}

/// Whether an advertisement of time `at` still counts at `now`.
pub open spec fn fresh(at: u64, now: u64) -> bool {
    now < at + PRESENCE_TTL_SECS
}

/// Whether a peer with this last advertisement goes offline at `now`: it was
/// in the app, and the advertisement is stale.
pub open spec fn decays(entry: Option<(Presence, u64)>, now: u64) -> bool {
    match entry {
        Some((p, at)) => p.in_app && !fresh(at, now),
        None => false,
    }
}

/// What a sweep at `now` leaves of an advertisement.
pub open spec fn swept(entry: Option<(Presence, u64)>, now: u64) -> Option<(Presence, u64)> {
    match entry {
        Some((p, at)) => if fresh(at, now) {
            Some((p, at))
        } else {
            None
        },
        None => None,
    }
}

/// A peer that a sweep reports as gone is not reported again by later sweeps,
/// unless it advertises anew.
pub proof fn decay_is_reported_once(entry: Option<(Presence, u64)>, now: u64, later: u64)
    requires
        decays(entry, now),
    ensures
        !decays(swept(entry, now), later),
        swept(swept(entry, now), later) is None,
{
}

/// A sweep changes nothing of what a client shows at that time.
pub proof fn sweep_shows_the_same(entry: Option<(Presence, u64)>, now: u64)
    ensures
        entry matches Some((_, at)) && fresh(at, now) ==> swept(entry, now) == entry,
        entry matches Some((_, at)) && !fresh(at, now) ==> swept(entry, now) is None,
{
}

fn is_fresh(at: u64, now: u64) -> (f: bool)
    ensures
        f == fresh(at, now),
{
    now < at || now - at < PRESENCE_TTL_SECS
}

struct Peer {
    rel_id: String,
    presence: Presence,
    at: u64,
}

/// The last advertisement of each peer and when it came.
pub struct PresenceTable {
    peers: Vec<Peer>,
}

impl PresenceTable {
    /// Each relationship has one slot at most.
    pub closed spec fn wf(&self) -> bool {
        forall|i: int, j: int|
            #![trigger self.peers@[i], self.peers@[j]]
            0 <= i < self.peers@.len() && 0 <= j < self.peers@.len() && self.peers@[i].rel_id@
                == self.peers@[j].rel_id@ ==> i == j
    }

    spec fn slot(&self, i: int, rel: Seq<char>) -> bool {
        0 <= i < self.peers@.len() && self.peers@[i].rel_id@ == rel
    }

    /// What is remembered of a relationship's peer.
    pub closed spec fn entry(&self, rel: Seq<char>) -> Option<(Presence, u64)> {
        if exists|i: int| self.slot(i, rel) {
            let p = self.peers@[choose|i: int| self.slot(i, rel)];
            Some((p.presence, p.at))
        } else {
            None
        }
    }

    /// What a client shows for a relationship at `now`.
    pub open spec fn shown_at(&self, rel: Seq<char>, now: u64) -> PeerPresence {
        match self.entry(rel) {
            Some((p, at)) => if fresh(at, now) {
                shown(p)
            } else {
                offline()
            },
            None => offline(),
        }
    }

    proof fn slot_gives_entry(&self, i: int, rel: Seq<char>)
        requires
            self.wf(),
            self.slot(i, rel),
        ensures
            self.entry(rel) == Some((self.peers@[i].presence, self.peers@[i].at)),
    {
        let k = choose|k: int| self.slot(k, rel);
        assert(self.slot(k, rel));
        assert(self.peers@[k].rel_id@ == self.peers@[i].rel_id@);
    }

    fn find(&self, rel_id: &str) -> (at: Option<usize>)
        ensures
            match at {
                Some(i) => self.slot(i as int, rel_id@),
                None => forall|i: int| !self.slot(i, rel_id@),
            },
    {
        let mut i: usize = 0;
        while i < self.peers.len()
            invariant
                i <= self.peers@.len(),
                forall|k: int| 0 <= k < i ==> !self.slot(k, rel_id@),
            decreases self.peers.len() - i,
        {
            if same_text(self.peers[i].rel_id.as_str(), rel_id) {
                return Some(i);
            }
            i = i + 1;
        }
        None
    }

    /// Nothing remembered.
    pub fn new() -> (t: PresenceTable)
        ensures
            t.wf(),
            forall|rel: Seq<char>| #[trigger] t.entry(rel) is None,
    {
        PresenceTable { peers: Vec::new() }
    }

    /// Remembers an advertisement. Returns it only where it differs from the
    /// last one.
    pub fn note(&mut self, rel_id: &str, p: Presence, now: u64) -> (change: Option<PeerPresence>)
        requires
            old(self).wf(),
        ensures
            final(self).wf(),
            final(self).entry(rel_id@) == Some((p, now)),
            forall|rel: Seq<char>|
                rel != rel_id@ ==> #[trigger] final(self).entry(rel) == old(self).entry(rel),
            change == match old(self).entry(rel_id@) {
                Some((last, _)) => if last == p {
                    None
                } else {
                    Some(shown(p))
                },
                None => Some(shown(p)),
            },
    {
        let slot: Peer = Peer { rel_id: rel_id.to_owned(), presence: p, at: now };
        let found: Option<usize> = self.find(rel_id);
        let mut same: bool = false;
        match found {
            Some(i) => {
                proof {
                    old(self).slot_gives_entry(i as int, rel_id@);
                }
                same = self.peers[i].presence == p;
                self.peers.set(i, slot);
            },
            None => {
                self.peers.push(slot);
            },
        }
        proof {
            let at: int = match found {
                Some(i) => i as int,
                None => old(self).peers@.len() as int,
            };
            assert forall|i: int, j: int|
                #![trigger self.peers@[i], self.peers@[j]]
                0 <= i < self.peers@.len() && 0 <= j < self.peers@.len() && self.peers@[i].rel_id@
                    == self.peers@[j].rel_id@ implies i == j by {
                if i != at {
                    assert(self.peers@[i] == old(self).peers@[i]);
                    assert(found is None ==> !old(self).slot(i, rel_id@));
                }
                if j != at {
                    assert(self.peers@[j] == old(self).peers@[j]);
                    assert(found is None ==> !old(self).slot(j, rel_id@));
                }
                if found is Some {
                    assert(old(self).peers@[at].rel_id@ == rel_id@);
                    assert(old(self).peers@[i].rel_id@ == self.peers@[i].rel_id@);
                    assert(old(self).peers@[j].rel_id@ == self.peers@[j].rel_id@);
                }
            }
            assert(self.slot(at, rel_id@));
            self.slot_gives_entry(at, rel_id@);
            assert forall|rel: Seq<char>| rel != rel_id@ implies #[trigger] self.entry(rel) == old(
                self,
            ).entry(rel) by {
                if exists|i: int| old(self).slot(i, rel) {
                    let i = choose|i: int| old(self).slot(i, rel);
                    assert(old(self).slot(i, rel));
                    old(self).slot_gives_entry(i, rel);
                    assert(self.slot(i, rel));
                    self.slot_gives_entry(i, rel);
                } else if exists|i: int| self.slot(i, rel) {
                    let i = choose|i: int| self.slot(i, rel);
                    assert(self.slot(i, rel));
                    assert(old(self).slot(i, rel));
                }
            }
        }
        if same {
            None
        } else {
            Some(PeerPresence { in_app: p.in_app, do_not_disturb: p.do_not_disturb })
        }
    }

    /// Whether there is an advertisement of a peer.
    pub fn has_seen(&self, rel_id: &str) -> (seen: bool)
        requires
            self.wf(),
        ensures
            seen == self.entry(rel_id@) is Some,
    {
        match self.find(rel_id) {
            Some(i) => {
                proof {
                    self.slot_gives_entry(i as int, rel_id@);
                }
                true
            },
            None => false,
        }
    }

    /// What a client shows now; a stale advertisement reads as offline.
    pub fn state(&self, rel_id: &str, now: u64) -> (p: PeerPresence)
        requires
            self.wf(),
        ensures
            p == self.shown_at(rel_id@, now),
    {
        match self.find(rel_id) {
            Some(i) => {
                proof {
                    self.slot_gives_entry(i as int, rel_id@);
                }
                let p: Presence = self.peers[i].presence;
                if is_fresh(self.peers[i].at, now) {
                    PeerPresence { in_app: p.in_app, do_not_disturb: p.do_not_disturb }
                } else {
                    PeerPresence { in_app: false, do_not_disturb: false }
                }
            },
            None => PeerPresence { in_app: false, do_not_disturb: false },
        }
    }

    /// Forgets what is stale. Returns the peers that went offline by it:
    /// those that were in the app, each once.
    pub fn sweep(&mut self, now: u64) -> (decayed: Vec<String>)
        requires
            old(self).wf(),
        ensures
            final(self).wf(),
            forall|rel: Seq<char>|
                #[trigger] final(self).entry(rel) == swept(old(self).entry(rel), now),
            forall|rel: Seq<char>|
                (exists|k: int| 0 <= k < decayed@.len() && #[trigger] decayed@[k]@ == rel)
                    <==> decays(#[trigger] old(self).entry(rel), now),
            forall|k: int, l: int|
                #![trigger decayed@[k], decayed@[l]]
                0 <= k < decayed@.len() && 0 <= l < decayed@.len() && decayed@[k]@ == decayed@[l]@
                    ==> k == l,
    {
        let mut kept: Vec<Peer> = Vec::new();
        let mut decayed: Vec<String> = Vec::new();
        let ghost mut from: Seq<int> = Seq::empty();
        let ghost mut gone: Seq<int> = Seq::empty();
        let mut i: usize = 0;
        while i < self.peers.len()
            invariant
                i <= self.peers@.len(),
                *self == *old(self),
                self.wf(),
                from.len() == kept@.len(),
                gone.len() == decayed@.len(),
                forall|k: int|
                    0 <= k < from.len() ==> 0 <= #[trigger] from[k] < i && kept@[k].rel_id@
                        == self.peers@[from[k]].rel_id@ && kept@[k].presence
                        == self.peers@[from[k]].presence && kept@[k].at == self.peers@[from[k]].at
                        && fresh(kept@[k].at, now),
                forall|k: int, l: int|
                    #![trigger from[k], from[l]]
                    0 <= k < l < from.len() ==> from[k] < from[l],
                forall|k: int|
                    0 <= k < gone.len() ==> 0 <= #[trigger] gone[k] < i && decayed@[k]@
                        == self.peers@[gone[k]].rel_id@ && !fresh(self.peers@[gone[k]].at, now)
                        && self.peers@[gone[k]].presence.in_app,
                forall|k: int, l: int|
                    #![trigger gone[k], gone[l]]
                    0 <= k < l < gone.len() ==> gone[k] < gone[l],
                forall|m: int|
                    0 <= m < i && fresh((#[trigger] self.peers@[m]).at, now) ==> exists|k: int|
                        0 <= k < from.len() && #[trigger] from[k] == m,
                forall|m: int|
                    0 <= m < i && !fresh((#[trigger] self.peers@[m]).at, now)
                        && self.peers@[m].presence.in_app ==> exists|k: int|
                        0 <= k < gone.len() && #[trigger] gone[k] == m,
            decreases self.peers.len() - i,
        {
            let ghost old_from = from;
            let ghost old_gone = gone;
            let p: Presence = self.peers[i].presence;
            let at: u64 = self.peers[i].at;
            if is_fresh(at, now) {
                kept.push(Peer { rel_id: self.peers[i].rel_id.clone(), presence: p, at });
                proof {
                    from = from.push(i as int);
                    assert(from[from.len() - 1] == i);
                }
            } else if p.in_app {
                decayed.push(self.peers[i].rel_id.clone());
                proof {
                    gone = gone.push(i as int);
                    assert(gone[gone.len() - 1] == i);
                }
            }
            proof {
                assert forall|m: int|
                    0 <= m < i + 1 && fresh((#[trigger] self.peers@[m]).at, now) implies exists|
                    k: int,
                |
                    0 <= k < from.len() && #[trigger] from[k] == m by {
                    if m < i {
                        let k = choose|k: int| 0 <= k < old_from.len() && #[trigger] old_from[k] == m;
                        assert(from[k] == m);
                    }
                }
                assert forall|m: int|
                    0 <= m < i + 1 && !fresh((#[trigger] self.peers@[m]).at, now)
                        && self.peers@[m].presence.in_app implies exists|k: int|
                    0 <= k < gone.len() && #[trigger] gone[k] == m by {
                    if m < i {
                        let k = choose|k: int| 0 <= k < old_gone.len() && #[trigger] old_gone[k] == m;
                        assert(gone[k] == m);
                    }
                }
            }
            i = i + 1;
        }
        self.peers = kept;
        proof {
            let was = *old(self);
            assert forall|a: int, b: int|
                #![trigger self.peers@[a], self.peers@[b]]
                0 <= a < self.peers@.len() && 0 <= b < self.peers@.len() && self.peers@[a].rel_id@
                    == self.peers@[b].rel_id@ implies a == b by {
                assert(was.peers@[from[a]].rel_id@ == was.peers@[from[b]].rel_id@);
                assert(from[a] == from[b]);
                if a < b {
                    assert(from[a] < from[b]);
                } else if b < a {
                    assert(from[b] < from[a]);
                }
            }
            assert forall|rel: Seq<char>|
                #[trigger] self.entry(rel) == swept(was.entry(rel), now) by {
                if exists|k: int| self.slot(k, rel) {
                    let k = choose|k: int| self.slot(k, rel);
                    assert(self.slot(k, rel));
                    self.slot_gives_entry(k, rel);
                    assert(was.slot(from[k], rel));
                    was.slot_gives_entry(from[k], rel);
                } else if exists|m: int| was.slot(m, rel) {
                    let m = choose|m: int| was.slot(m, rel);
                    assert(was.slot(m, rel));
                    was.slot_gives_entry(m, rel);
                    if fresh(was.peers@[m].at, now) {
                        let k = choose|k: int| 0 <= k < from.len() && #[trigger] from[k] == m;
                        assert(self.slot(k, rel));
                    }
                }
            }
            assert forall|rel: Seq<char>|
                (exists|k: int| 0 <= k < decayed@.len() && #[trigger] decayed@[k]@ == rel)
                    <==> decays(#[trigger] was.entry(rel), now) by {
                if exists|k: int| 0 <= k < decayed@.len() && #[trigger] decayed@[k]@ == rel {
                    let k = choose|k: int| 0 <= k < decayed@.len() && #[trigger] decayed@[k]@ == rel;
                    assert(was.slot(gone[k], rel));
                    was.slot_gives_entry(gone[k], rel);
                }
                if decays(was.entry(rel), now) {
                    let m = choose|m: int| was.slot(m, rel);
                    assert(was.slot(m, rel));
                    was.slot_gives_entry(m, rel);
                    let k = choose|k: int| 0 <= k < gone.len() && #[trigger] gone[k] == m;
                    assert(decayed@[k]@ == rel);
                }
            }
            assert forall|k: int, l: int|
                #![trigger decayed@[k], decayed@[l]]
                0 <= k < decayed@.len() && 0 <= l < decayed@.len() && decayed@[k]@
                    == decayed@[l]@ implies k == l by {
                assert(was.peers@[gone[k]].rel_id@ == was.peers@[gone[l]].rel_id@);
                assert(gone[k] == gone[l]);
                if k < l {
                    assert(gone[k] < gone[l]);
                } else if l < k {
                    assert(gone[l] < gone[k]);
                }
            }
        }
        decayed
    }

    /// Forgets a relationship.
    pub fn forget(&mut self, rel_id: &str)
        requires
            old(self).wf(),
        ensures
            final(self).wf(),
            final(self).entry(rel_id@) is None,
            forall|rel: Seq<char>|
                rel != rel_id@ ==> #[trigger] final(self).entry(rel) == old(self).entry(rel),
    {
        if let Some(at) = self.find(rel_id) {
            self.peers.remove(at);
            proof {
                let was = *old(self);
                assert(self.peers@ =~= was.peers@.remove(at as int));
                assert forall|i: int, j: int|
                    #![trigger self.peers@[i], self.peers@[j]]
                    0 <= i < self.peers@.len() && 0 <= j < self.peers@.len()
                        && self.peers@[i].rel_id@ == self.peers@[j].rel_id@ implies i == j by {
                    let wi = if i < at {
                        i
                    } else {
                        i + 1
                    };
                    let wj = if j < at {
                        j
                    } else {
                        j + 1
                    };
                    assert(was.peers@[wi].rel_id@ == was.peers@[wj].rel_id@);
                }
                assert forall|rel: Seq<char>| true implies #[trigger] self.entry(rel) == (if rel
                    == rel_id@ {
                    None
                } else {
                    was.entry(rel)
                }) by {
                    if exists|i: int| self.slot(i, rel) {
                        let i = choose|i: int| self.slot(i, rel);
                        assert(self.slot(i, rel));
                        self.slot_gives_entry(i, rel);
                        let wi = if i < at {
                            i
                        } else {
                            i + 1
                        };
                        assert(was.slot(wi, rel));
                        was.slot_gives_entry(wi, rel);
                        assert(was.peers@[wi].rel_id@ == rel && was.peers@[at as int].rel_id@
                            == rel_id@);
                    } else if exists|m: int| was.slot(m, rel) {
                        let m = choose|m: int| was.slot(m, rel);
                        assert(was.slot(m, rel));
                        if m != at {
                            let i = if m < at {
                                m
                            } else {
                                m - 1
                            };
                            assert(self.slot(i, rel));
                        }
                    }
                }
            }
        }
    }
}

/// An advertisement counts for 45 seconds. A peer that was in the app goes offline
/// then; one that was not has nothing to lose. What is shown is what was said, and
/// a peer of whom nothing counts is shown as away and not to be left alone.
pub proof fn advertisements_count_for_a_while(p: Presence, at: u64, now: u64)
    ensures
        fresh(at, now) <==> now < at + 45,
        decays(Some((p, at)), now) <==> p.in_app && now >= at + 45,
        !decays(None, now),
        swept(Some((p, at)), now) is Some <==> now < at + 45,
        swept(Some((p, at)), now) matches Some(kept) ==> kept == (p, at),
        shown(p).in_app == p.in_app,
        shown(p).do_not_disturb == p.do_not_disturb,
        !offline().in_app && !offline().do_not_disturb,
{
}

/// What a client shows for a peer is what it said last, for 45 seconds.
pub proof fn the_last_advertisement_is_shown(table: PresenceTable, rel: Seq<char>, now: u64)
    ensures
        table.entry(rel) matches Some((p, at)) ==> {
            &&& now < at + 45 ==> table.shown_at(rel, now).in_app == p.in_app && table.shown_at(
                rel,
                now,
            ).do_not_disturb == p.do_not_disturb
            &&& now >= at + 45 ==> !table.shown_at(rel, now).in_app && !table.shown_at(
                rel,
                now,
            ).do_not_disturb
        },
        table.entry(rel) is None ==> !table.shown_at(rel, now).in_app && !table.shown_at(
            rel,
            now,
        ).do_not_disturb,
{
}

} // verus!
