//! A relationship becomes active: caps, profile and wants go out.

use vstd::prelude::*;

use crate::engine::{EngineError, EngineFault};
use crate::policy::PolicyState;
use crate::policy::machine::{self, build_sync};
use crate::wire::policy::{ChatPolicy, OP_SYNC};

verus! {

/// The last part of the activation burst: the wants to send, and the state to
/// save once they are sent.
pub fn activation_sync(state: PolicyState, now: u64) -> (r: (PolicyState, ChatPolicy))
    ensures
        r.0 == (PolicyState { last_sync_at: now, ..state }),
        machine::carries(r.1, OP_SYNC, r.0, 0, false, machine::no_id()),
{
    build_sync(state, now)
}

/// What the outcome of sending the wants means for the burst, as values.
pub open spec fn burst_result(sent: Result<(), EngineError>) -> Result<bool, EngineFault> {
    match sent {
        Ok(_) => Ok(true),
        Err(EngineError::CapGated(_)) => Ok(false),
        Err(e) => Err(e@),
    }
}

/// What the outcome of sending the wants means for the burst: whether the
/// state is saved, or the error. A peer that has not advertised the policy
/// capability yet is no error; its resync request follows and is answered.
pub fn on_relationship_active(sent: Result<(), EngineError>) -> (r: Result<bool, EngineError>)
    ensures
        match r {
            Ok(save) => burst_result(sent) == Ok::<bool, EngineFault>(save),
            Err(e) => burst_result(sent) == Err::<bool, EngineFault>(e@),
        },
{
    match sent {
        Ok(_) => Ok(true),
        Err(EngineError::CapGated(_)) => Ok(false),
        Err(e) => Err(e),
    }
}

/// The state is saved exactly if the wants went out. Only a peer without the
/// policy capability is waited for; every other failure is reported as it is.
pub proof fn unsent_wants_are_not_saved(sent: Result<(), EngineError>)
    ensures
        burst_result(sent) == Ok::<bool, EngineFault>(true) <==> sent is Ok,
        burst_result(sent) == Ok::<bool, EngineFault>(false) <==> sent is Err && sent->Err_0@
            is CapGated,
        burst_result(sent) is Err ==> sent is Err && burst_result(sent)->Err_0 == sent->Err_0@,
{
}

} // verus!
