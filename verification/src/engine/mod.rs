//! The messaging engine: what to do with an envelope, as decisions over what
//! the store holds. The engine has the state that lives in memory only.

use vstd::prelude::*;

use crate::media::{MediaError, MediaFault};
use crate::presence::PresenceTable;
use crate::ratelimit::{DropCounts, RateTables, Surface};
use crate::text;
use crate::wire::envelope::{self, EnvelopeType};

pub mod burn;
pub mod dispatch;
pub mod drain;
pub mod inbound;
pub mod ledger;
pub mod lifecycle;
pub mod send;

verus! {

/// What happened, for the client.
#[derive(Clone, Debug, PartialEq, Eq)]
pub enum EngineEvent {
    /// A new inbound message.
    Message { rel_id: String, msg_id: [u8; 16] },
    Edited { rel_id: String, msg_id: [u8; 16] },
    Deleted { rel_id: String, msg_id: [u8; 16] },
    /// The thread was wiped.
    HistoryCleared { rel_id: String },
    /// The peer has read our message.
    Read { rel_id: String, msg_id: [u8; 16] },
    Typing { rel_id: String, typing: bool },
    Presence { rel_id: String, in_app: bool, do_not_disturb: bool },
    ProfileUpdated { rel_id: String },
    /// The peer asks for our profile.
    ProfileRequested { rel_id: String },
    /// The peer's receive preferences changed.
    PeerPrefs { rel_id: String },
    /// An inbound sticker; `ready` if its bytes are here.
    Sticker { rel_id: String, msg_id: [u8; 16], ready: bool },
    StickerPackInstalled { pack_id: [u8; 16] },
    StickerPackRefused { pack_id: [u8; 16], reason: u8 },
    /// The encoded preview of a pack.
    StickerThumbs { pack_id: [u8; 16], doc: Vec<u8> },
    AttachmentProgress { rel_id: String, head_id: [u8; 16], received: u32, total: u32 },
    AttachmentComplete { rel_id: String, head_id: [u8; 16], msg_id: [u8; 16] },
    AttachmentFailed { rel_id: String, head_id: [u8; 16] },
    /// A chunk without a head was refused by the storage caps.
    AttachmentChunkDropped { rel_id: String, head_id: [u8; 16] },
    PolicyChanged { rel_id: String },
    /// The peer closed the contact; the relationship is gone.
    ContactClosed { rel_id: String },
    /// A gap in the sequence numbers: a resync request went out.
    GapDetected { rel_id: String },
}

/// What an `EngineEvent` says.
pub enum EventView {
    Message { rel_id: Seq<char>, msg_id: Seq<u8> },
    Edited { rel_id: Seq<char>, msg_id: Seq<u8> },
    Deleted { rel_id: Seq<char>, msg_id: Seq<u8> },
    HistoryCleared { rel_id: Seq<char> },
    Read { rel_id: Seq<char>, msg_id: Seq<u8> },
    Typing { rel_id: Seq<char>, typing: bool },
    Presence { rel_id: Seq<char>, in_app: bool, do_not_disturb: bool },
    ProfileUpdated { rel_id: Seq<char> },
    ProfileRequested { rel_id: Seq<char> },
    PeerPrefs { rel_id: Seq<char> },
    Sticker { rel_id: Seq<char>, msg_id: Seq<u8>, ready: bool },
    StickerPackInstalled { pack_id: Seq<u8> },
    StickerPackRefused { pack_id: Seq<u8>, reason: u8 },
    StickerThumbs { pack_id: Seq<u8>, doc: Seq<u8> },
    AttachmentProgress { rel_id: Seq<char>, head_id: Seq<u8>, received: u32, total: u32 },
    AttachmentComplete { rel_id: Seq<char>, head_id: Seq<u8>, msg_id: Seq<u8> },
    AttachmentFailed { rel_id: Seq<char>, head_id: Seq<u8> },
    AttachmentChunkDropped { rel_id: Seq<char>, head_id: Seq<u8> },
    PolicyChanged { rel_id: Seq<char> },
    ContactClosed { rel_id: Seq<char> },
    GapDetected { rel_id: Seq<char> },
}

impl View for EngineEvent {
    type V = EventView;

    open spec fn view(&self) -> EventView {
        match self {
            EngineEvent::Message { rel_id, msg_id } => EventView::Message {
                rel_id: rel_id@,
                msg_id: msg_id@,
            },
            EngineEvent::Edited { rel_id, msg_id } => EventView::Edited {
                rel_id: rel_id@,
                msg_id: msg_id@,
            },
            EngineEvent::Deleted { rel_id, msg_id } => EventView::Deleted {
                rel_id: rel_id@,
                msg_id: msg_id@,
            },
            EngineEvent::HistoryCleared { rel_id } => EventView::HistoryCleared {
                rel_id: rel_id@,
            },
            EngineEvent::Read { rel_id, msg_id } => EventView::Read {
                rel_id: rel_id@,
                msg_id: msg_id@,
            },
            EngineEvent::Typing { rel_id, typing } => EventView::Typing {
                rel_id: rel_id@,
                typing: *typing,
            },
            EngineEvent::Presence { rel_id, in_app, do_not_disturb } => EventView::Presence {
                rel_id: rel_id@,
                in_app: *in_app,
                do_not_disturb: *do_not_disturb,
            },
            EngineEvent::ProfileUpdated { rel_id } => EventView::ProfileUpdated {
                rel_id: rel_id@,
            },
            EngineEvent::ProfileRequested { rel_id } => EventView::ProfileRequested {
                rel_id: rel_id@,
            },
            EngineEvent::PeerPrefs { rel_id } => EventView::PeerPrefs {
                rel_id: rel_id@,
            },
            EngineEvent::Sticker { rel_id, msg_id, ready } => EventView::Sticker {
                rel_id: rel_id@,
                msg_id: msg_id@,
                ready: *ready,
            },
            EngineEvent::StickerPackInstalled { pack_id } => EventView::StickerPackInstalled {
                pack_id: pack_id@,
            },
            EngineEvent::StickerPackRefused { pack_id, reason } => EventView::StickerPackRefused {
                pack_id: pack_id@,
                reason: *reason,
            },
            EngineEvent::StickerThumbs { pack_id, doc } => EventView::StickerThumbs {
                pack_id: pack_id@,
                doc: doc@,
            },
            EngineEvent::AttachmentProgress { rel_id, head_id, received, total } => EventView::AttachmentProgress {
                rel_id: rel_id@,
                head_id: head_id@,
                received: *received,
                total: *total,
            },
            EngineEvent::AttachmentComplete { rel_id, head_id, msg_id } => EventView::AttachmentComplete {
                rel_id: rel_id@,
                head_id: head_id@,
                msg_id: msg_id@,
            },
            EngineEvent::AttachmentFailed { rel_id, head_id } => EventView::AttachmentFailed {
                rel_id: rel_id@,
                head_id: head_id@,
            },
            EngineEvent::AttachmentChunkDropped { rel_id, head_id } => EventView::AttachmentChunkDropped {
                rel_id: rel_id@,
                head_id: head_id@,
            },
            EngineEvent::PolicyChanged { rel_id } => EventView::PolicyChanged {
                rel_id: rel_id@,
            },
            EngineEvent::ContactClosed { rel_id } => EventView::ContactClosed {
                rel_id: rel_id@,
            },
            EngineEvent::GapDetected { rel_id } => EventView::GapDetected {
                rel_id: rel_id@,
            },
        }
    }
}

/// Why the engine refuses an operation.
#[derive(Debug)]
pub enum EngineError {
    UnknownRelationship,
    /// The request is pending, or the relationship is closed.
    NotActive,
    /// The relationship is settling.
    Closing,
    /// The session is broken; the two sides have to pair again.
    SessionBroken,
    /// The peer never advertised the capability.
    CapGated(EnvelopeType),
    /// The chat's policy denies the type.
    PolicyDenied(EnvelopeType),
    NotFound,
    EditDenied(&'static str),
    Media(MediaError),
}

/// What an `EngineError` says.
pub enum EngineFault {
    UnknownRelationship,
    NotActive,
    Closing,
    SessionBroken,
    CapGated(EnvelopeType),
    PolicyDenied(EnvelopeType),
    NotFound,
    EditDenied(Seq<char>),
    Media(MediaFault),
}

impl View for EngineError {
    type V = EngineFault;

    open spec fn view(&self) -> EngineFault {
        match self {
            EngineError::UnknownRelationship => EngineFault::UnknownRelationship,
            EngineError::NotActive => EngineFault::NotActive,
            EngineError::Closing => EngineFault::Closing,
            EngineError::SessionBroken => EngineFault::SessionBroken,
            EngineError::CapGated(t) => EngineFault::CapGated(*t),
            EngineError::PolicyDenied(t) => EngineFault::PolicyDenied(*t),
            EngineError::NotFound => EngineFault::NotFound,
            EngineError::EditDenied(why) => EngineFault::EditDenied(why@),
            EngineError::Media(e) => EngineFault::Media(e@),
        }
    }
}

/// The message of a media error.
pub open spec fn media_text(e: MediaFault) -> Seq<char> {
    match e {
        MediaFault::Unsupported(what) => "unsupported media: "@ + what,
        MediaFault::Decode(why) => "decode: "@ + why,
        MediaFault::Encode(why) => "encode: "@ + why,
        MediaFault::TooLarge { size, max } => "too large: "@ + text::decimal(size as nat)
            + " bytes (max "@ + text::decimal(max as nat) + ")"@,
    }
}

/// The message of an error. Whatever the edit, its refusal reads the same.
pub open spec fn error_text(e: EngineFault) -> Seq<char> {
    match e {
        EngineFault::UnknownRelationship => "unknown relationship"@,
        EngineFault::NotActive => "relationship not active (request pending or closed)"@,
        EngineFault::Closing => "close in flight; the relationship is settling"@,
        EngineFault::SessionBroken => "session broken; re-pair required"@,
        EngineFault::CapGated(t) => "peer never advertised the capability for "@
            + envelope::name_of(t),
        EngineFault::PolicyDenied(t) => "chat policy denies "@ + envelope::name_of(t),
        EngineFault::NotFound => "target message not found"@,
        EngineFault::EditDenied(_) => "edit window closed or edit cap reached"@,
        EngineFault::Media(e) => "media: "@ + media_text(e),
    }
}

impl EngineError {
    /// The message for a person.
    pub fn message(&self) -> (text: String)
        ensures
            text@ == error_text(self@),
    {
        match self {
            EngineError::UnknownRelationship => "unknown relationship".to_owned(),
            EngineError::NotActive => {
                "relationship not active (request pending or closed)".to_owned()
            },
            EngineError::Closing => "close in flight; the relationship is settling".to_owned(),
            EngineError::SessionBroken => "session broken; re-pair required".to_owned(),
            EngineError::CapGated(t) => {
                "peer never advertised the capability for ".to_owned().concat(t.name())
            },
            EngineError::PolicyDenied(t) => "chat policy denies ".to_owned().concat(t.name()),
            EngineError::NotFound => "target message not found".to_owned(),
            EngineError::EditDenied(_) => "edit window closed or edit cap reached".to_owned(),
            EngineError::Media(e) => "media: ".to_owned().concat(e.message().as_str()),
        }
    }
}

/// The state that the engine keeps in memory only.
pub struct Engine {
    /// Presence dots.
    pub presence: PresenceTable,
    /// Buckets against floods, per relationship.
    pub rate: RateTables,
    /// What the buckets have dropped.
    pub limited: DropCounts,
}

impl Engine {
    pub open spec fn wf(&self) -> bool {
        self.presence.wf() && self.rate.wf()
    }

    /// An engine that has seen nothing.
    pub fn new() -> (e: Engine)
        ensures
            e.wf(),
            forall|rel: Seq<char>| #[trigger] e.presence.entry(rel) is None,
            forall|s: Surface, k: Seq<char>| #[trigger] e.rate.bucket(s, k) is None,
            forall|s: Surface| #[trigger] e.limited.of(s) == 0,
    {
        Engine {
            presence: PresenceTable::new(),
            rate: RateTables::new(),
            limited: DropCounts::new(),
        }
    }

    /// Takes a token for a surface and relationship; `false` where the work
    /// is to be dropped.
    pub fn rate_allow(&mut self, surface: Surface, rel_id: &str, now: u64) -> (ok: bool)
        requires
            old(self).wf(),
            surface != Surface::Intro,
        ensures
            final(self).wf(),
            ok == old(self).rate.bucket_at(surface, rel_id@, now as nat).grants(now as nat),
            final(self).rate.bucket(surface, rel_id@) == Some(
                old(self).rate.bucket_at(surface, rel_id@, now as nat).asked(now as nat),
            ),
            forall|s: Surface, k: Seq<char>|
                s != surface || k != rel_id@ ==> #[trigger] final(self).rate.bucket(s, k) == old(
                    self,
                ).rate.bucket(s, k),
            final(self).limited == (if ok {
                old(self).limited
            } else {
                old(self).limited.bumped(surface)
            }),
            final(self).presence == old(self).presence,
    {
        self.rate.check(&mut self.limited, surface, rel_id, now)
    }
}

/// Each error says what was refused, and one of a type names the type. Whatever the
/// edit, its refusal reads the same.
pub proof fn errors_say_what_was_refused(e: EngineFault)
    ensures
        e is UnknownRelationship ==> error_text(e) == "unknown relationship"@,
        e is NotActive ==> error_text(e) == "relationship not active (request pending or closed)"@,
        e is Closing ==> error_text(e) == "close in flight; the relationship is settling"@,
        e is SessionBroken ==> error_text(e) == "session broken; re-pair required"@,
        e is NotFound ==> error_text(e) == "target message not found"@,
        e is EditDenied ==> error_text(e) == "edit window closed or edit cap reached"@,
        e matches EngineFault::CapGated(t) ==> error_text(e)
            == "peer never advertised the capability for "@ + envelope::name_of(t),
        e matches EngineFault::PolicyDenied(t) ==> error_text(e) == "chat policy denies "@
            + envelope::name_of(t),
        e matches EngineFault::Media(f) ==> error_text(e) == "media: "@ + media_text(f),
{
}

} // verus!
