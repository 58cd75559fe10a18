//! Messages and events as a client sees them: ids in hexadecimal.

use vstd::prelude::*;
use vstd::slice::slice_to_vec;

use crate::engine::{EngineEvent, EventView};
use crate::presence::{PeerPresence, PresenceTable};
use crate::store::{Direction, MessageRow};
use crate::text::{self, hex_text};

verus! {

/// A message for a client.
#[derive(Clone, Debug)]
pub struct MessageRowFfi {
    pub msg_id: String,
    pub rel_id: String,
    pub outgoing: bool,
    pub app_seq: u64,
    pub sent_at: u64,
    pub env_type: u8,
    pub payload: Vec<u8>,
    /// The name of the delivery state.
    pub delivery: String,
    pub edited: bool,
    pub read_at: Option<u64>,
    pub expires_at: Option<u64>,
}

/// A peer's presence for a client.
#[derive(Clone, Copy, Debug)]
pub struct PresenceFfi {
    pub in_app: bool,
    pub do_not_disturb: bool,
}

/// An event for a client: ids in hexadecimal, documents as bytes.
#[derive(Clone, Debug)]
pub enum EngineEventFfi {
    Message { rel_id: String, msg_id: String },
    Edited { rel_id: String, msg_id: String },
    Deleted { rel_id: String, msg_id: String },
    HistoryCleared { rel_id: String },
    Read { rel_id: String, msg_id: String },
    Typing { rel_id: String, typing: bool },
    Presence { rel_id: String, in_app: bool, do_not_disturb: bool },
    ProfileUpdated { rel_id: String },
    ProfileRequested { rel_id: String },
    PeerPrefs { rel_id: String },
    Sticker { rel_id: String, msg_id: String, ready: bool },
    StickerPackInstalled { pack_id: String },
    StickerPackRefused { pack_id: String, reason: u8 },
    StickerThumbs { pack_id: String, doc_bytes: Vec<u8> },
    AttachmentProgress { rel_id: String, head_id: String, received: u32, total: u32 },
    AttachmentComplete { rel_id: String, head_id: String, msg_id: String },
    AttachmentFailed { rel_id: String, head_id: String },
    AttachmentChunkDropped { rel_id: String, head_id: String },
    PolicyChanged { rel_id: String },
    ContactClosed { rel_id: String },
    GapDetected { rel_id: String },
}

/// What an `EngineEventFfi` says.
pub enum EventText {
    Message { rel_id: Seq<char>, msg_id: Seq<char> },
    Edited { rel_id: Seq<char>, msg_id: Seq<char> },
    Deleted { rel_id: Seq<char>, msg_id: Seq<char> },
    HistoryCleared { rel_id: Seq<char> },
    Read { rel_id: Seq<char>, msg_id: Seq<char> },
    Typing { rel_id: Seq<char>, typing: bool },
    Presence { rel_id: Seq<char>, in_app: bool, do_not_disturb: bool },
    ProfileUpdated { rel_id: Seq<char> },
    ProfileRequested { rel_id: Seq<char> },
    PeerPrefs { rel_id: Seq<char> },
    Sticker { rel_id: Seq<char>, msg_id: Seq<char>, ready: bool },
    StickerPackInstalled { pack_id: Seq<char> },
    StickerPackRefused { pack_id: Seq<char>, reason: u8 },
    StickerThumbs { pack_id: Seq<char>, doc_bytes: Seq<u8> },
    AttachmentProgress { rel_id: Seq<char>, head_id: Seq<char>, received: u32, total: u32 },
    AttachmentComplete { rel_id: Seq<char>, head_id: Seq<char>, msg_id: Seq<char> },
    AttachmentFailed { rel_id: Seq<char>, head_id: Seq<char> },
    AttachmentChunkDropped { rel_id: Seq<char>, head_id: Seq<char> },
    PolicyChanged { rel_id: Seq<char> },
    ContactClosed { rel_id: Seq<char> },
    GapDetected { rel_id: Seq<char> },
}

impl View for EngineEventFfi {
    type V = EventText;

    open spec fn view(&self) -> EventText {
        match self {
            EngineEventFfi::Message { rel_id, msg_id } => EventText::Message {
                rel_id: rel_id@,
                msg_id: msg_id@,
            },
            EngineEventFfi::Edited { rel_id, msg_id } => EventText::Edited {
                rel_id: rel_id@,
                msg_id: msg_id@,
            },
            EngineEventFfi::Deleted { rel_id, msg_id } => EventText::Deleted {
                rel_id: rel_id@,
                msg_id: msg_id@,
            },
            EngineEventFfi::HistoryCleared { rel_id } => EventText::HistoryCleared {
                rel_id: rel_id@,
            },
            EngineEventFfi::Read { rel_id, msg_id } => EventText::Read {
                rel_id: rel_id@,
                msg_id: msg_id@,
            },
            EngineEventFfi::Typing { rel_id, typing } => EventText::Typing {
                rel_id: rel_id@,
                typing: *typing,
            },
            EngineEventFfi::Presence { rel_id, in_app, do_not_disturb } => EventText::Presence {
                rel_id: rel_id@,
                in_app: *in_app,
                do_not_disturb: *do_not_disturb,
            },
            EngineEventFfi::ProfileUpdated { rel_id } => EventText::ProfileUpdated {
                rel_id: rel_id@,
            },
            EngineEventFfi::ProfileRequested { rel_id } => EventText::ProfileRequested {
                rel_id: rel_id@,
            },
            EngineEventFfi::PeerPrefs { rel_id } => EventText::PeerPrefs {
                rel_id: rel_id@,
            },
            EngineEventFfi::Sticker { rel_id, msg_id, ready } => EventText::Sticker {
                rel_id: rel_id@,
                msg_id: msg_id@,
                ready: *ready,
            },
            EngineEventFfi::StickerPackInstalled { pack_id } => EventText::StickerPackInstalled {
                pack_id: pack_id@,
            },
            EngineEventFfi::StickerPackRefused { pack_id, reason } => EventText::StickerPackRefused {
                pack_id: pack_id@,
                reason: *reason,
            },
            EngineEventFfi::StickerThumbs { pack_id, doc_bytes } => EventText::StickerThumbs {
                pack_id: pack_id@,
                doc_bytes: doc_bytes@,
            },
            EngineEventFfi::AttachmentProgress { rel_id, head_id, received, total } => EventText::AttachmentProgress {
                rel_id: rel_id@,
                head_id: head_id@,
                received: *received,
                total: *total,
            },
            EngineEventFfi::AttachmentComplete { rel_id, head_id, msg_id } => EventText::AttachmentComplete {
                rel_id: rel_id@,
                head_id: head_id@,
                msg_id: msg_id@,
            },
            EngineEventFfi::AttachmentFailed { rel_id, head_id } => EventText::AttachmentFailed {
                rel_id: rel_id@,
                head_id: head_id@,
            },
            EngineEventFfi::AttachmentChunkDropped { rel_id, head_id } => EventText::AttachmentChunkDropped {
                rel_id: rel_id@,
                head_id: head_id@,
            },
            EngineEventFfi::PolicyChanged { rel_id } => EventText::PolicyChanged {
                rel_id: rel_id@,
            },
            EngineEventFfi::ContactClosed { rel_id } => EventText::ContactClosed {
                rel_id: rel_id@,
            },
            EngineEventFfi::GapDetected { rel_id } => EventText::GapDetected {
                rel_id: rel_id@,
            },
        }
    }
}

/// An event with its ids in hexadecimal.
pub open spec fn event_text(e: EventView) -> EventText {
    match e {
        EventView::Message { rel_id, msg_id } => EventText::Message {
            rel_id,
            msg_id: text::hex(msg_id),
        },
        EventView::Edited { rel_id, msg_id } => EventText::Edited {
            rel_id,
            msg_id: text::hex(msg_id),
        },
        EventView::Deleted { rel_id, msg_id } => EventText::Deleted {
            rel_id,
            msg_id: text::hex(msg_id),
        },
        EventView::HistoryCleared { rel_id } => EventText::HistoryCleared {
            rel_id,
        },
        EventView::Read { rel_id, msg_id } => EventText::Read {
            rel_id,
            msg_id: text::hex(msg_id),
        },
        EventView::Typing { rel_id, typing } => EventText::Typing {
            rel_id,
            typing,
        },
        EventView::Presence { rel_id, in_app, do_not_disturb } => EventText::Presence {
            rel_id,
            in_app,
            do_not_disturb,
        },
        EventView::ProfileUpdated { rel_id } => EventText::ProfileUpdated {
            rel_id,
        },
        EventView::ProfileRequested { rel_id } => EventText::ProfileRequested {
            rel_id,
        },
        EventView::PeerPrefs { rel_id } => EventText::PeerPrefs {
            rel_id,
        },
        EventView::Sticker { rel_id, msg_id, ready } => EventText::Sticker {
            rel_id,
            msg_id: text::hex(msg_id),
            ready,
        },
        EventView::StickerPackInstalled { pack_id } => EventText::StickerPackInstalled {
            pack_id: text::hex(pack_id),
        },
        EventView::StickerPackRefused { pack_id, reason } => EventText::StickerPackRefused {
            pack_id: text::hex(pack_id),
            reason,
        },
        EventView::StickerThumbs { pack_id, doc } => EventText::StickerThumbs {
            pack_id: text::hex(pack_id),
            doc_bytes: doc,
        },
        EventView::AttachmentProgress { rel_id, head_id, received, total } => EventText::AttachmentProgress {
            rel_id,
            head_id: text::hex(head_id),
            received,
            total,
        },
        EventView::AttachmentComplete { rel_id, head_id, msg_id } => EventText::AttachmentComplete {
            rel_id,
            head_id: text::hex(head_id),
            msg_id: text::hex(msg_id),
        },
        EventView::AttachmentFailed { rel_id, head_id } => EventText::AttachmentFailed {
            rel_id,
            head_id: text::hex(head_id),
        },
        EventView::AttachmentChunkDropped { rel_id, head_id } => EventText::AttachmentChunkDropped {
            rel_id,
            head_id: text::hex(head_id),
        },
        EventView::PolicyChanged { rel_id } => EventText::PolicyChanged {
            rel_id,
        },
        EventView::ContactClosed { rel_id } => EventText::ContactClosed {
            rel_id,
        },
        EventView::GapDetected { rel_id } => EventText::GapDetected {
            rel_id,
        },
    }
}

/// An event for a client.
pub fn engine_event_ffi(e: &EngineEvent) -> (out: EngineEventFfi)
    ensures
        out@ == event_text(e@),
{
    match e {
        EngineEvent::Message { rel_id, msg_id } => EngineEventFfi::Message {
            rel_id: rel_id.clone(),
            msg_id: hex_text(msg_id),
        },
        EngineEvent::Edited { rel_id, msg_id } => EngineEventFfi::Edited {
            rel_id: rel_id.clone(),
            msg_id: hex_text(msg_id),
        },
        EngineEvent::Deleted { rel_id, msg_id } => EngineEventFfi::Deleted {
            rel_id: rel_id.clone(),
            msg_id: hex_text(msg_id),
        },
        EngineEvent::HistoryCleared { rel_id } => EngineEventFfi::HistoryCleared {
            rel_id: rel_id.clone(),
        },
        EngineEvent::Read { rel_id, msg_id } => EngineEventFfi::Read {
            rel_id: rel_id.clone(),
            msg_id: hex_text(msg_id),
        },
        EngineEvent::Typing { rel_id, typing } => EngineEventFfi::Typing {
            rel_id: rel_id.clone(),
            typing: *typing,
        },
        EngineEvent::Presence { rel_id, in_app, do_not_disturb } => EngineEventFfi::Presence {
            rel_id: rel_id.clone(),
            in_app: *in_app,
            do_not_disturb: *do_not_disturb,
        },
        EngineEvent::ProfileUpdated { rel_id } => EngineEventFfi::ProfileUpdated {
            rel_id: rel_id.clone(),
        },
        EngineEvent::ProfileRequested { rel_id } => EngineEventFfi::ProfileRequested {
            rel_id: rel_id.clone(),
        },
        EngineEvent::PeerPrefs { rel_id } => EngineEventFfi::PeerPrefs {
            rel_id: rel_id.clone(),
        },
        EngineEvent::Sticker { rel_id, msg_id, ready } => EngineEventFfi::Sticker {
            rel_id: rel_id.clone(),
            msg_id: hex_text(msg_id),
            ready: *ready,
        },
        EngineEvent::StickerPackInstalled { pack_id } => EngineEventFfi::StickerPackInstalled {
            pack_id: hex_text(pack_id),
        },
        EngineEvent::StickerPackRefused { pack_id, reason } => EngineEventFfi::StickerPackRefused {
            pack_id: hex_text(pack_id),
            reason: *reason,
        },
        EngineEvent::StickerThumbs { pack_id, doc } => EngineEventFfi::StickerThumbs {
            pack_id: hex_text(pack_id),
            doc_bytes: slice_to_vec(doc.as_slice()),
        },
        EngineEvent::AttachmentProgress { rel_id, head_id, received, total } => EngineEventFfi::AttachmentProgress {
            rel_id: rel_id.clone(),
            head_id: hex_text(head_id),
            received: *received,
            total: *total,
        },
        EngineEvent::AttachmentComplete { rel_id, head_id, msg_id } => EngineEventFfi::AttachmentComplete {
            rel_id: rel_id.clone(),
            head_id: hex_text(head_id),
            msg_id: hex_text(msg_id),
        },
        EngineEvent::AttachmentFailed { rel_id, head_id } => EngineEventFfi::AttachmentFailed {
            rel_id: rel_id.clone(),
            head_id: hex_text(head_id),
        },
        EngineEvent::AttachmentChunkDropped { rel_id, head_id } => EngineEventFfi::AttachmentChunkDropped {
            rel_id: rel_id.clone(),
            head_id: hex_text(head_id),
        },
        EngineEvent::PolicyChanged { rel_id } => EngineEventFfi::PolicyChanged {
            rel_id: rel_id.clone(),
        },
        EngineEvent::ContactClosed { rel_id } => EngineEventFfi::ContactClosed {
            rel_id: rel_id.clone(),
        },
        EngineEvent::GapDetected { rel_id } => EngineEventFfi::GapDetected {
            rel_id: rel_id.clone(),
        },
    }
}

/// Events for a client, in order.
pub fn engine_events_ffi(events: &Vec<EngineEvent>) -> (out: Vec<EngineEventFfi>)
    ensures
        out@.len() == events@.len(),
        forall|i: int| 0 <= i < out@.len() ==> (#[trigger] out@[i])@ == event_text(events@[i]@),
{
    let mut out: Vec<EngineEventFfi> = Vec::new();
    let mut i: usize = 0;
    while i < events.len()
        invariant
            i <= events@.len(),
            out@.len() == i,
            forall|k: int| 0 <= k < i ==> (#[trigger] out@[k])@ == event_text(events@[k]@),
        decreases events.len() - i,
    {
        out.push(engine_event_ffi(&events[i]));
        i = i + 1;
    }
    out
}

/// No two different events look the same to a client.
pub proof fn events_stay_apart(a: EventView, b: EventView)
    requires
        event_text(a) == event_text(b),
    ensures
        a == b,
{
    match (a, b) {
        (EventView::Message { msg_id: a1, .. }, EventView::Message { msg_id: b1, .. }) => {
            text::hex_reads_back(a1);
            text::hex_reads_back(b1);
        },
        (EventView::Edited { msg_id: a1, .. }, EventView::Edited { msg_id: b1, .. }) => {
            text::hex_reads_back(a1);
            text::hex_reads_back(b1);
        },
        (EventView::Deleted { msg_id: a1, .. }, EventView::Deleted { msg_id: b1, .. }) => {
            text::hex_reads_back(a1);
            text::hex_reads_back(b1);
        },
        (EventView::Read { msg_id: a1, .. }, EventView::Read { msg_id: b1, .. }) => {
            text::hex_reads_back(a1);
            text::hex_reads_back(b1);
        },
        (EventView::Sticker { msg_id: a1, .. }, EventView::Sticker { msg_id: b1, .. }) => {
            text::hex_reads_back(a1);
            text::hex_reads_back(b1);
        },
        (EventView::StickerPackInstalled { pack_id: a0, .. }, EventView::StickerPackInstalled { pack_id: b0, .. }) => {
            text::hex_reads_back(a0);
            text::hex_reads_back(b0);
        },
        (EventView::StickerPackRefused { pack_id: a0, .. }, EventView::StickerPackRefused { pack_id: b0, .. }) => {
            text::hex_reads_back(a0);
            text::hex_reads_back(b0);
        },
        (EventView::StickerThumbs { pack_id: a0, .. }, EventView::StickerThumbs { pack_id: b0, .. }) => {
            text::hex_reads_back(a0);
            text::hex_reads_back(b0);
        },
        (EventView::AttachmentProgress { head_id: a1, .. }, EventView::AttachmentProgress { head_id: b1, .. }) => {
            text::hex_reads_back(a1);
            text::hex_reads_back(b1);
        },
        (EventView::AttachmentComplete { head_id: a1, msg_id: a2, .. }, EventView::AttachmentComplete { head_id: b1, msg_id: b2, .. }) => {
            text::hex_reads_back(a1);
            text::hex_reads_back(b1);
            text::hex_reads_back(a2);
            text::hex_reads_back(b2);
        },
        (EventView::AttachmentFailed { head_id: a1, .. }, EventView::AttachmentFailed { head_id: b1, .. }) => {
            text::hex_reads_back(a1);
            text::hex_reads_back(b1);
        },
        (EventView::AttachmentChunkDropped { head_id: a1, .. }, EventView::AttachmentChunkDropped { head_id: b1, .. }) => {
            text::hex_reads_back(a1);
            text::hex_reads_back(b1);
        },
        _ => {},
    }
}

/// A message of the ledger for a client.
pub open spec fn shows(out: MessageRowFfi, row: MessageRow) -> bool {
    &&& out.msg_id@ == text::hex(row.msg_id@)
    &&& out.rel_id@ == row.rel_id@
    &&& out.outgoing == (row.direction == Direction::Out)
    &&& out.app_seq == row.app_seq
    &&& out.sent_at == row.sent_at
    &&& out.env_type == row.env_type
    &&& out.payload@ == row.payload@
    &&& out.delivery@ == row.state.name()
    &&& out.edited == row.edited
    &&& out.read_at == row.read_at
    &&& out.expires_at == row.expires_at
}

/// A message of the ledger for a client.
pub fn message_row_ffi(row: &MessageRow) -> (out: MessageRowFfi)
    ensures
        shows(out, *row),
{
    MessageRowFfi {
        msg_id: hex_text(&row.msg_id),
        rel_id: row.rel_id.clone(),
        outgoing: row.direction == Direction::Out,
        app_seq: row.app_seq,
        sent_at: row.sent_at,
        env_type: row.env_type,
        payload: slice_to_vec(row.payload.as_slice()),
        delivery: row.state.as_str().to_owned(),
        edited: row.edited,
        read_at: row.read_at,
        expires_at: row.expires_at,
    }
}

/// A page of a thread for a client.
pub fn thread(rows: &Vec<MessageRow>) -> (out: Vec<MessageRowFfi>)
    ensures
        out@.len() == rows@.len(),
        forall|i: int| 0 <= i < out@.len() ==> shows(#[trigger] out@[i], rows@[i]),
{
    let mut out: Vec<MessageRowFfi> = Vec::new();
    let mut i: usize = 0;
    while i < rows.len()
        invariant
            i <= rows@.len(),
            out@.len() == i,
            forall|k: int| 0 <= k < i ==> shows(#[trigger] out@[k], rows@[k]),
        decreases rows.len() - i,
    {
        out.push(message_row_ffi(&rows[i]));
        i = i + 1;
    }
    out
}

/// A peer's presence for a client.
pub fn presence_ffi(p: &PeerPresence) -> (out: PresenceFfi)
    ensures
        out.in_app == p.in_app,
        out.do_not_disturb == p.do_not_disturb,
{
    PresenceFfi { in_app: p.in_app, do_not_disturb: p.do_not_disturb }
}

/// A peer's presence for a client; `None` for a peer that was never seen, and
/// while the vault is locked.
pub fn presence_state(table: &PresenceTable, locked: bool, rel_id: &str, now: u64) -> (out: Option<
    PresenceFfi,
>)
    requires
        table.wf(),
    ensures
        out is Some <==> !locked && table.entry(rel_id@) is Some,
        out matches Some(p) ==> p.in_app == table.shown_at(rel_id@, now).in_app && p.do_not_disturb
            == table.shown_at(rel_id@, now).do_not_disturb,
{
    if locked || !table.has_seen(rel_id) {
        None
    } else {
        Some(presence_ffi(&table.state(rel_id, now)))
    }
}

/// The event that a client was told of.
pub open spec fn event_told(t: EventText) -> EventView {
    match t {
        EventText::Message { rel_id, msg_id } => EventView::Message { rel_id, msg_id: text::unhex(msg_id) },
        EventText::Edited { rel_id, msg_id } => EventView::Edited { rel_id, msg_id: text::unhex(msg_id) },
        EventText::Deleted { rel_id, msg_id } => EventView::Deleted { rel_id, msg_id: text::unhex(msg_id) },
        EventText::HistoryCleared { rel_id } => EventView::HistoryCleared { rel_id },
        EventText::Read { rel_id, msg_id } => EventView::Read { rel_id, msg_id: text::unhex(msg_id) },
        EventText::Typing { rel_id, typing } => EventView::Typing { rel_id, typing },
        EventText::Presence { rel_id, in_app, do_not_disturb } => EventView::Presence { rel_id, in_app, do_not_disturb },
        EventText::ProfileUpdated { rel_id } => EventView::ProfileUpdated { rel_id },
        EventText::ProfileRequested { rel_id } => EventView::ProfileRequested { rel_id },
        EventText::PeerPrefs { rel_id } => EventView::PeerPrefs { rel_id },
        EventText::Sticker { rel_id, msg_id, ready } => EventView::Sticker { rel_id, msg_id: text::unhex(msg_id), ready },
        EventText::StickerPackInstalled { pack_id } => EventView::StickerPackInstalled { pack_id: text::unhex(pack_id) },
        EventText::StickerPackRefused { pack_id, reason } => EventView::StickerPackRefused { pack_id: text::unhex(pack_id), reason },
        EventText::StickerThumbs { pack_id, doc_bytes } => EventView::StickerThumbs { pack_id: text::unhex(pack_id), doc: doc_bytes },
        EventText::AttachmentProgress { rel_id, head_id, received, total } => EventView::AttachmentProgress { rel_id, head_id: text::unhex(head_id), received, total },
        EventText::AttachmentComplete { rel_id, head_id, msg_id } => EventView::AttachmentComplete { rel_id, head_id: text::unhex(head_id), msg_id: text::unhex(msg_id) },
        EventText::AttachmentFailed { rel_id, head_id } => EventView::AttachmentFailed { rel_id, head_id: text::unhex(head_id) },
        EventText::AttachmentChunkDropped { rel_id, head_id } => EventView::AttachmentChunkDropped { rel_id, head_id: text::unhex(head_id) },
        EventText::PolicyChanged { rel_id } => EventView::PolicyChanged { rel_id },
        EventText::ContactClosed { rel_id } => EventView::ContactClosed { rel_id },
        EventText::GapDetected { rel_id } => EventView::GapDetected { rel_id },
    }
}

/// What a client is told is what happened: the same kind of event, of the same
/// relationship, with every id and value that it has.
pub proof fn clients_are_told_what_happened(e: EventView)
    ensures
        event_told(event_text(e)) == e,
{
    match e {
        EventView::Message { msg_id, .. } => {
            text::hex_reads_back(msg_id);
        },
        EventView::Edited { msg_id, .. } => {
            text::hex_reads_back(msg_id);
        },
        EventView::Deleted { msg_id, .. } => {
            text::hex_reads_back(msg_id);
        },
        EventView::Read { msg_id, .. } => {
            text::hex_reads_back(msg_id);
        },
        EventView::Sticker { msg_id, .. } => {
            text::hex_reads_back(msg_id);
        },
        EventView::StickerPackInstalled { pack_id } => {
            text::hex_reads_back(pack_id);
        },
        EventView::StickerPackRefused { pack_id, .. } => {
            text::hex_reads_back(pack_id);
        },
        EventView::StickerThumbs { pack_id, .. } => {
            text::hex_reads_back(pack_id);
        },
        EventView::AttachmentProgress { head_id, .. } => {
            text::hex_reads_back(head_id);
        },
        EventView::AttachmentComplete { head_id, msg_id, .. } => {
            text::hex_reads_back(head_id);
            text::hex_reads_back(msg_id);
        },
        EventView::AttachmentFailed { head_id, .. } => {
            text::hex_reads_back(head_id);
        },
        EventView::AttachmentChunkDropped { head_id, .. } => {
            text::hex_reads_back(head_id);
        },
        _ => {},
    }
}

/// A client sees of a message what the ledger holds.
pub proof fn clients_see_the_row(out: MessageRowFfi, row: MessageRow)
    requires
        shows(out, row),
    ensures
        text::unhex(out.msg_id@) == row.msg_id@,
        out.rel_id@ == row.rel_id@,
        out.outgoing <==> row.direction == Direction::Out,
        !out.outgoing <==> row.direction == Direction::In,
        out.app_seq == row.app_seq,
        out.sent_at == row.sent_at,
        out.env_type == row.env_type,
        out.payload@ == row.payload@,
        out.delivery@ == row.state.name(),
        out.edited <==> row.edited,
        out.read_at == row.read_at,
        out.expires_at == row.expires_at,
{
    text::hex_reads_back(row.msg_id@);
}

} // verus!
