//! What the client does with the rules: propose, accept, decline, and set a
//! capability.

use vstd::prelude::*;

use crate::engine::{EngineError, EngineEvent, EngineFault};
use crate::engine::dispatch::{self, apply_outcome, Dispatched, Effect};
use crate::engine::send::{self, send_envelope, Outgoing, SendPlan};
use crate::pairing::relationship::{Relation, Relationship};
use crate::policy::{PendingProposal, PolicyState};
use crate::policy::machine::{self, build_accept, build_cap_set, build_propose};
use crate::util::random_bytes;
use crate::wire::envelope::EnvelopeType;
use crate::wire::policy::{self, ChatPolicy, OP_CAP_SET, OP_RULE_ACCEPT, OP_RULE_PROPOSE};

verus! {

/// The envelope that carries a policy operation.
pub open spec fn carrier() -> Outgoing {
    Outgoing::quiet(EnvelopeType::ChatPolicy, None)
}

/// This side's open proposal.
pub open spec fn own_proposal(
    ttl_sec: u32,
    screenshot: bool,
    attach_download: bool,
    propose_id: [u8; 16],
) -> PendingProposal {
    PendingProposal { ttl_sec, screenshot, attach_download, inbound: false, propose_id }
}

/// A proposal of this side.
#[derive(Debug)]
pub struct Proposal {
    /// The state to save, whether or not the proposal may leave.
    pub next: PolicyState,
    /// The envelope that carries the proposal, and the payload; or why it may not
    /// leave.
    pub sending: Result<(SendPlan, ChatPolicy), EngineError>,
}

/// What proposing rules gives: the proposal is open under the id of the envelope
/// that carries it, where one may leave.
pub open spec fn proposes(
    r: Result<Proposal, EngineError>,
    row: Option<Relation>,
    closing: bool,
    peer_caps: u32,
    state: PolicyState,
    rules: (u32, bool, bool),
    app_seq: u64,
    now: u64,
) -> bool {
    match row {
        None => r is Err && r->Err_0@ == EngineFault::UnknownRelationship,
        Some(row) => if !policy::allowed_ttl(rules.0) {
            r is Err && r->Err_0@ == EngineFault::EditDenied("disallowed TTL"@)
        } else {
            &&& r matches Ok(proposal)
            &&& proposal.next.pending matches Some(open)
            &&& open == own_proposal(rules.0, rules.1, rules.2, open.propose_id)
            &&& proposal.next == (PolicyState { pending: Some(open), ..state })
            &&& match send::refusal(row, closing, peer_caps, state, EnvelopeType::ChatPolicy) {
                Some(why) => proposal.sending is Err && proposal.sending->Err_0@ == why,
                None => {
                    &&& proposal.sending matches Ok((plan, p))
                    &&& plan.is_for(row, state, carrier(), app_seq, now)
                    &&& open.propose_id == plan.head.msg_id
                    &&& machine::carries(
                        p,
                        OP_RULE_PROPOSE,
                        machine::with_rules(state, rules.0, rules.1, rules.2),
                        0,
                        false,
                        plan.head.msg_id@,
                    )
                },
            }
        },
    }
}

/// Proposes rules. The proposal is open from now on, under the id of the
/// envelope that carries it where one may leave.
pub fn propose_rules(
    row: Option<&Relationship>,
    closing: bool,
    peer_caps: u32,
    state: PolicyState,
    ttl_sec: u32,
    screenshot: bool,
    attach_download: bool,
    app_seq: u64,
    now: u64,
) -> (r: Result<Proposal, EngineError>)
    requires
        now + state.ttl_sec <= u64::MAX,
    ensures
        proposes(
            r,
            match row {
                Some(row) => Some(row@),
                None => None,
            },
            closing,
            peer_caps,
            state,
            (ttl_sec, screenshot, attach_download),
            app_seq,
            now,
        ),
{
    if row.is_none() {
        return Err(EngineError::UnknownRelationship);
    }
    let out: Outgoing = Outgoing { t: EnvelopeType::ChatPolicy, ref_id: None, alert: false };
    let plan: Result<SendPlan, EngineError> = send_envelope(
        row,
        closing,
        peer_caps,
        &state,
        &out,
        app_seq,
        now,
    );
    let propose_id: [u8; 16] = match &plan {
        Ok(plan) => plan.head.msg_id,
        Err(_) => random_bytes::<16>(),
    };
    match build_propose(state, ttl_sec, screenshot, attach_download, propose_id) {
        Some((next, p)) => {
            let sending: Result<(SendPlan, ChatPolicy), EngineError> = match plan {
                Ok(plan) => Ok((plan, p)),
                Err(e) => Err(e),
            };
            Ok(Proposal { next, sending })
        },
        None => Err(EngineError::EditDenied("disallowed TTL")),
    }
}

/// The rules to propose: what is given, else what is agreed.
pub open spec fn rules_for(
    state: PolicyState,
    ttl_sec: Option<u32>,
    screenshot: Option<bool>,
    attach_download: Option<bool>,
) -> (u32, bool, bool) {
    (
        match ttl_sec {
            Some(t) => t,
            None => state.ttl_sec,
        },
        match screenshot {
            Some(s) => s,
            None => state.screenshot,
        },
        match attach_download {
            Some(d) => d,
            None => state.attach_download,
        },
    )
}

/// The rules to propose: what is not given stays as agreed.
pub fn proposal_of(
    state: &PolicyState,
    ttl_sec: Option<u32>,
    screenshot: Option<bool>,
    attach_download: Option<bool>,
) -> (rules: (u32, bool, bool))
    ensures
        rules == rules_for(*state, ttl_sec, screenshot, attach_download),
{
    (
        match ttl_sec {
            Some(t) => t,
            None => state.ttl_sec,
        },
        match screenshot {
            Some(s) => s,
            None => state.screenshot,
        },
        match attach_download {
            Some(d) => d,
            None => state.attach_download,
        },
    )
}

/// The effects of an operation of this side: the state is saved, its outcome
/// carried out, and then the payload goes out.
pub open spec fn operates(
    d: Dispatched,
    rel: Seq<char>,
    next: PolicyState,
    outcome: machine::ApplyOutcome,
    op: u8,
    cap_id: u8,
    cap_on: bool,
    propose_id: Seq<u8>,
) -> bool {
    let first = seq![Effect::SavePolicy(next)] + dispatch::outcome_effects(outcome);
    &&& d.effects@.len() == first.len() + 1
    &&& d.effects@.drop_last() == first
    &&& d.effects@.last() matches Effect::SendPolicy(p) && machine::carries(
        p,
        op,
        next,
        cap_id,
        cap_on,
        propose_id,
    )
    &&& dispatch::events_of(d.events@) == dispatch::outcome_events(rel, outcome)
}

fn operation(rel_id: &str, next: PolicyState, p: ChatPolicy, outcome: &machine::ApplyOutcome) -> (d:
    Dispatched)
    ensures
        d.effects@ == seq![Effect::SavePolicy(next)] + dispatch::outcome_effects(*outcome) + seq![
            Effect::SendPolicy(p),
        ],
        dispatch::events_of(d.events@) == dispatch::outcome_events(rel_id@, *outcome),
{
    let mut effects: Vec<Effect> = vec![Effect::SavePolicy(next)];
    assert(effects@ =~= seq![Effect::SavePolicy(next)]);
    let events: Vec<EngineEvent> = apply_outcome(rel_id, outcome, &mut effects);
    let ghost first = effects@;
    effects.push(Effect::SendPolicy(p));
    assert(effects@ =~= first + seq![Effect::SendPolicy(p)]);
    Dispatched { effects, events }
}

/// What accepting the peer's open proposal does, where there is one.
pub open spec fn accepts(d: Dispatched, rel: Seq<char>, state: PolicyState, now: u64) -> bool {
    let p = state.pending->0;
    operates(
        d,
        rel,
        machine::with_rules(state, p.ttl_sec, p.screenshot, p.attach_download),
        machine::rules_outcome(state, p.ttl_sec, p.screenshot, p.attach_download, now),
        OP_RULE_ACCEPT,
        0,
        false,
        p.propose_id@,
    )
}

/// Whether there is a proposal of the peer to accept.
pub open spec fn acceptable(state: PolicyState) -> bool {
    state.pending is Some && state.pending->0.inbound
}

/// Accepts the peer's open proposal: the rules apply here first, then the
/// acceptance goes out.
pub fn accept_rules(rel_id: &str, state: PolicyState, now: u64) -> (r: Result<
    Dispatched,
    EngineError,
>)
    requires
        state.pending matches Some(p) ==> p.inbound ==> machine::clamp_fits(state, p.ttl_sec, now),
    ensures
        r is Ok <==> acceptable(state),
        r matches Err(e) ==> e@ == EngineFault::EditDenied("no inbound proposal pending"@),
        r matches Ok(d) ==> accepts(d, rel_id@, state, now),
{
    match build_accept(state, now) {
        Some((next, p, outcome)) => {
            let d: Dispatched = operation(rel_id, next, p, &outcome);
            assert(d.effects@.drop_last() =~= seq![Effect::SavePolicy(next)]
                + dispatch::outcome_effects(outcome));
            Ok(d)
        },
        None => Err(EngineError::EditDenied("no inbound proposal pending")),
    }
}

/// The state without an open proposal.
pub open spec fn declined(state: PolicyState) -> PolicyState {
    PolicyState { pending: None, ..state }
}

/// Declines the peer's open proposal. The peer is not told.
pub fn decline_rules(state: PolicyState) -> (next: PolicyState)
    ensures
        next == declined(state),
{
    let mut next: PolicyState = state;
    next.pending = None;
    next
}

/// What setting a capability of this side does.
pub open spec fn sets(d: Dispatched, rel: Seq<char>, state: PolicyState, cap_id: u8, on: bool) -> bool {
    let bit = policy::bit_of(cap_id);
    if bit == 0 || on == (state.local_want & bit != 0) {
        d.is(Seq::empty(), Seq::empty())
    } else {
        let next = machine::local_set(state, bit, on);
        operates(
            d,
            rel,
            next,
            machine::cap_outcome(state, next, bit, on),
            OP_CAP_SET,
            cap_id,
            on,
            machine::no_id(),
        )
    }
}

/// Sets a capability of this side. An unknown one, and one that is set so
/// already, does nothing.
pub fn set_capability(rel_id: &str, state: &PolicyState, cap_id: u8, on: bool) -> (d: Dispatched)
    ensures
        sets(d, rel_id@, *state, cap_id, on),
{
    match build_cap_set(state, cap_id, on) {
        Some((next, p, outcome)) => {
            let d: Dispatched = operation(rel_id, next, p, &outcome);
            assert(d.effects@.drop_last() =~= seq![Effect::SavePolicy(next)]
                + dispatch::outcome_effects(outcome));
            d
        },
        None => {
            let d: Dispatched = Dispatched { effects: Vec::new(), events: Vec::new() };
            assert(dispatch::events_of(d.events@) =~= Seq::empty());
            d
        },
    }
}

/// A proposal that is made here, is accepted there and is answered here leaves
/// both sides under the same rules. The id is that of the envelope which
/// carried the proposal.
pub proof fn both_sides_agree_on_rules(
    ours: PolicyState,
    theirs: PolicyState,
    ttl_sec: u32,
    screenshot: bool,
    attach_download: bool,
    id: [u8; 16],
    asked: ChatPolicy,
    answer: ChatPolicy,
)
    requires
        machine::carries(
            asked,
            OP_RULE_PROPOSE,
            machine::with_rules(ours, ttl_sec, screenshot, attach_download),
            0,
            false,
            id@,
        ),
        answer.propose_id@ == machine::proposed(asked, id).propose_id@,
    ensures
        ({
            let open = own_proposal(ttl_sec, screenshot, attach_download, id);
            let waiting = PolicyState { pending: Some(open), ..ours };
            let p = machine::proposed(asked, id);
            let there = machine::with_rules(theirs, p.ttl_sec, p.screenshot, p.attach_download);
            let here = machine::with_rules(
                waiting,
                open.ttl_sec,
                open.screenshot,
                open.attach_download,
            );
            &&& p.inbound
            &&& machine::answers(waiting, answer)
            &&& here.ttl_sec == there.ttl_sec
            &&& here.screenshot == there.screenshot
            &&& here.attach_download == there.attach_download
        }),
{
}

/// What is given is proposed, and what is not stays as agreed: with nothing given,
/// the rules in force are proposed again.
pub proof fn what_is_not_given_stays(
    state: PolicyState,
    ttl_sec: u32,
    screenshot: bool,
    attach_download: bool,
)
    ensures
        rules_for(state, None, None, None) == (
            state.ttl_sec,
            state.screenshot,
            state.attach_download,
        ),
        rules_for(state, Some(ttl_sec), None, None) == (
            ttl_sec,
            state.screenshot,
            state.attach_download,
        ),
        rules_for(state, None, Some(screenshot), None) == (
            state.ttl_sec,
            screenshot,
            state.attach_download,
        ),
        rules_for(state, None, None, Some(attach_download)) == (
            state.ttl_sec,
            state.screenshot,
            attach_download,
        ),
        rules_for(state, Some(ttl_sec), Some(screenshot), Some(attach_download)) == (
            ttl_sec,
            screenshot,
            attach_download,
        ),
{
}

/// A proposal is open here exactly if the relationship is known and the lifetime is
/// one that can be agreed on. It holds the rules that were asked for, as this side's;
/// nothing is in force yet. Where it leaves, the peer gets the same rules, under the
/// same id.
pub proof fn a_proposal_is_open_on_both_sides(
    r: Result<Proposal, EngineError>,
    row: Option<Relation>,
    closing: bool,
    peer_caps: u32,
    state: PolicyState,
    rules: (u32, bool, bool),
    app_seq: u64,
    now: u64,
)
    requires
        proposes(r, row, closing, peer_caps, state, rules, app_seq, now),
    ensures
        r is Ok <==> row is Some && policy::allowed_ttl(rules.0),
        r matches Ok(made) ==> {
            &&& made.next.pending is Some
            &&& made.next.pending->0.ttl_sec == rules.0
            &&& made.next.pending->0.screenshot == rules.1
            &&& made.next.pending->0.attach_download == rules.2
            &&& !made.next.pending->0.inbound
            &&& made.next == (PolicyState { pending: made.next.pending, ..state })
            &&& made.sending is Ok <==> send::refusal(
                row->0,
                closing,
                peer_caps,
                state,
                EnvelopeType::ChatPolicy,
            ) is None
            &&& made.sending matches Ok((plan, p)) ==> {
                let there = machine::proposed(p, plan.head.msg_id);
                &&& p.op == OP_RULE_PROPOSE
                &&& plan.head.kind == EnvelopeType::ChatPolicy
                &&& plan.head.ref_id is None
                &&& plan.head.app_seq == app_seq
                &&& plan.head.sent_at == now
                &&& plan.row.msg_id == plan.head.msg_id
                &&& there.ttl_sec == rules.0
                &&& there.screenshot == rules.1
                &&& there.attach_download == rules.2
                &&& there.inbound
                &&& there.propose_id@ == made.next.pending->0.propose_id@
            }
        },
{
}

/// Declining closes the proposal and changes nothing else.
pub proof fn declining_closes_the_proposal(state: PolicyState)
    ensures
        declined(state).pending is None,
        state == (PolicyState { pending: state.pending, ..declined(state) }),
        acceptable(state) <==> (state.pending matches Some(p) && p.inbound),
        !acceptable(declined(state)),
{
}

/// Setting a capability as it is set already, or one that does not exist, does
/// nothing; setting one anew saves it and tells the peer.
pub proof fn only_changes_are_told(
    d: Dispatched,
    rel: Seq<char>,
    state: PolicyState,
    cap_id: u8,
    on: bool,
)
    requires
        sets(d, rel, state, cap_id, on),
    ensures
        ({
            let bit = policy::bit_of(cap_id);
            let wanted = state.local_want & bit != 0;
            &&& bit == 0 || on == wanted ==> d.effects@.len() == 0 && d.events@.len() == 0
            &&& bit != 0 && on != wanted ==> d.effects@.len() >= 2 && d.effects@.last()
                is SendPolicy
        }),
{
    if policy::bit_of(cap_id) == 0 || on == (state.local_want & policy::bit_of(cap_id) != 0) {
        assert(dispatch::events_of(d.events@).len() == d.events@.len());
    }
}

} // verus!
