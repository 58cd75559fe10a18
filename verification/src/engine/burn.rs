//! Burning a relationship: every byte of it is erased.

use vstd::prelude::*;

use crate::engine::Engine;

verus! {

/// One step of a burn.
#[derive(Clone, Copy, Debug, PartialEq, Eq, Structural)]
pub enum BurnStep {
    /// Take the service down, so that nothing new arrives. A failure is
    /// logged, and the burn goes on.
    RemoveService,
    /// Wipe the session's keys. A failure is logged, and the burn goes on.
    WipeSession,
    /// Delete the chunks of the relationship's attachments. They are found
    /// through the attachments, so they go before them.
    Chunks,
    /// Delete the chunks that the peer sent and whose head never came.
    OrphanChunks,
    Messages,
    Outbox,
    Attachments,
    Profiles,
    Tombstones,
    InboundSeqs,
    StickerServes,
    /// Delete the relationship itself.
    Relationship,
    /// Forget when closing began.
    CloseStarted,
    /// Forget the last resync request.
    ResyncAsked,
    /// Forget that the activation burst went out.
    ActivationSent,
    /// Forget when the last intro came to the service.
    IntroSeen,
    /// Forget the typing indicator, which is in memory.
    Typing,
    /// Forget the sticker packs under way, which are in memory.
    StickerBuffers,
}

/// The steps of a burn, in order.
pub open spec fn burn_steps() -> Seq<BurnStep> {
    seq![
        BurnStep::RemoveService,
        BurnStep::WipeSession,
        BurnStep::Chunks,
        BurnStep::OrphanChunks,
        BurnStep::Messages,
        BurnStep::Outbox,
        BurnStep::Attachments,
        BurnStep::Profiles,
        BurnStep::Tombstones,
        BurnStep::InboundSeqs,
        BurnStep::StickerServes,
        BurnStep::Relationship,
        BurnStep::CloseStarted,
        BurnStep::ResyncAsked,
        BurnStep::ActivationSent,
        BurnStep::IntroSeen,
        BurnStep::Typing,
        BurnStep::StickerBuffers,
    ]
}

impl Engine {
    /// Burns a relationship: what is in memory is forgotten here, and the
    /// steps erase the rest. Where there is no such relationship nothing is
    /// left to do.
    pub fn burn_relationship(&mut self, rel_id: &str, known: bool) -> (steps: Vec<BurnStep>)
        requires
            old(self).wf(),
        ensures
            final(self).wf(),
            !known ==> steps@.len() == 0 && *final(self) == *old(self),
            known ==> {
                &&& steps@ == burn_steps()
                &&& final(self).presence.entry(rel_id@) is None
                &&& forall|rel: Seq<char>|
                    rel != rel_id@ ==> #[trigger] final(self).presence.entry(rel) == old(
                        self,
                    ).presence.entry(rel)
                &&& final(self).rate == old(self).rate
                &&& final(self).limited == old(self).limited
            },
    {
        let mut steps: Vec<BurnStep> = Vec::new();
        if !known {
            return steps;
        }
        steps.push(BurnStep::RemoveService);
        steps.push(BurnStep::WipeSession);
        steps.push(BurnStep::Chunks);
        steps.push(BurnStep::OrphanChunks);
        steps.push(BurnStep::Messages);
        steps.push(BurnStep::Outbox);
        steps.push(BurnStep::Attachments);
        steps.push(BurnStep::Profiles);
        steps.push(BurnStep::Tombstones);
        steps.push(BurnStep::InboundSeqs);
        steps.push(BurnStep::StickerServes);
        steps.push(BurnStep::Relationship);
        steps.push(BurnStep::CloseStarted);
        steps.push(BurnStep::ResyncAsked);
        steps.push(BurnStep::ActivationSent);
        steps.push(BurnStep::IntroSeen);
        steps.push(BurnStep::Typing);
        steps.push(BurnStep::StickerBuffers);
        self.presence.forget(rel_id);
        assert(steps@ =~= burn_steps());
        steps
    }
}

// ---------------------------------------------------------------------------
// Laws

/// What there can be of a relationship outside the presence table.
pub enum Trace {
    Service,
    SessionKey,
    /// A chunk of an attachment that is on record.
    Chunk,
    OrphanChunk,
    Message,
    OutboxRecord,
    Attachment,
    Profile,
    Tombstone,
    InboundSeq,
    StickerServe,
    Row,
    CloseStarted,
    ResyncAsked,
    ActivationSent,
    IntroSeen,
    Typing,
    StickerBuffer,
}

/// What a step erases.
pub open spec fn erased_by(step: BurnStep) -> Trace {
    match step {
        BurnStep::RemoveService => Trace::Service,
        BurnStep::WipeSession => Trace::SessionKey,
        BurnStep::Chunks => Trace::Chunk,
        BurnStep::OrphanChunks => Trace::OrphanChunk,
        BurnStep::Messages => Trace::Message,
        BurnStep::Outbox => Trace::OutboxRecord,
        BurnStep::Attachments => Trace::Attachment,
        BurnStep::Profiles => Trace::Profile,
        BurnStep::Tombstones => Trace::Tombstone,
        BurnStep::InboundSeqs => Trace::InboundSeq,
        BurnStep::StickerServes => Trace::StickerServe,
        BurnStep::Relationship => Trace::Row,
        BurnStep::CloseStarted => Trace::CloseStarted,
        BurnStep::ResyncAsked => Trace::ResyncAsked,
        BurnStep::ActivationSent => Trace::ActivationSent,
        BurnStep::IntroSeen => Trace::IntroSeen,
        BurnStep::Typing => Trace::Typing,
        BurnStep::StickerBuffers => Trace::StickerBuffer,
    }
}

/// What is left after the first `n` steps. The chunks of attachments are found
/// only as long as the attachments are there.
pub open spec fn left_after(left: Set<Trace>, steps: Seq<BurnStep>, n: nat) -> Set<Trace>
    decreases n,
{
    if n == 0 {
        left
    } else {
        let before = left_after(left, steps, (n - 1) as nat);
        let step = steps[n - 1];
        if step == BurnStep::Chunks && !before.contains(Trace::Attachment) {
            before
        } else {
            before.remove(erased_by(step))
        }
    }
}

/// A burn leaves nothing of a relationship.
pub proof fn a_burn_leaves_nothing(left: Set<Trace>)
    requires
        left.contains(Trace::Chunk) ==> left.contains(Trace::Attachment),
    ensures
        left_after(left, burn_steps(), burn_steps().len()) == Set::<Trace>::empty(),
{
    reveal_with_fuel(left_after, 19);
    let rest = left_after(left, burn_steps(), burn_steps().len());
    assert forall|t: Trace| !rest.contains(t) by {
        match t {
            Trace::Service => {},
            Trace::SessionKey => {},
            Trace::Chunk => {},
            Trace::OrphanChunk => {},
            Trace::Message => {},
            Trace::OutboxRecord => {},
            Trace::Attachment => {},
            Trace::Profile => {},
            Trace::Tombstone => {},
            Trace::InboundSeq => {},
            Trace::StickerServe => {},
            Trace::Row => {},
            Trace::CloseStarted => {},
            Trace::ResyncAsked => {},
            Trace::ActivationSent => {},
            Trace::IntroSeen => {},
            Trace::Typing => {},
            Trace::StickerBuffer => {},
        }
    }
    assert(rest =~= Set::empty());
}

} // verus!
