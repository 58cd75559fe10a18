//! What the commands print and wait for, and the plain text record.

use vstd::prelude::*;
use vstd::slice::slice_subrange;
use vstd::utf8::{decode_utf8, encode_utf8, valid_utf8};

use crate::bytes::{self, append_bytes, push_be16, to_array};
use crate::engine::{EngineEvent, EventView};
use crate::policy::PolicyState;
use crate::store::{Direction, MessageRow};
use crate::text::{self, hex_text, push_decimal};
use crate::transport::{ServiceStatus, TorState, TransportStatus};
use crate::util::random_bytes;
use crate::wire::policy::{
    FLAG_WANT_ATTACH, FLAG_WANT_EMOJI, FLAG_WANT_PRESENCE, FLAG_WANT_RECEIPTS, FLAG_WANT_TYPING,
};

verus! {

/// `true` or `false`.
pub open spec fn bool_text(b: bool) -> Seq<char> {
    if b {
        "true"@
    } else {
        "false"@
    }
}

fn bool_str(b: bool) -> (t: &'static str)
    ensures
        t@ == bool_text(b),
{
    if b {
        "true"
    } else {
        "false"
    }
}

// ---------------------------------------------------------------------------
// Events

/// An event in one line.
pub open spec fn event_line(e: EventView) -> Seq<char> {
    match e {
        EventView::Message { rel_id, msg_id } => "message: rel="@ + rel_id + " id="@ + text::hex(
            msg_id,
        ),
        EventView::Edited { rel_id, msg_id } => "edited: rel="@ + rel_id + " id="@ + text::hex(
            msg_id,
        ),
        EventView::Deleted { rel_id, msg_id } => "deleted: rel="@ + rel_id + " id="@ + text::hex(
            msg_id,
        ),
        EventView::HistoryCleared { rel_id } => "history-cleared: rel="@ + rel_id,
        EventView::Read { rel_id, msg_id } => "read: rel="@ + rel_id + " id="@ + text::hex(msg_id),
        EventView::Typing { rel_id, typing } => "typing: rel="@ + rel_id + " typing="@ + bool_text(
            typing,
        ),
        EventView::Presence { rel_id, in_app, do_not_disturb } => "presence: rel="@ + rel_id
            + " in_app="@ + bool_text(in_app) + " dnd="@ + bool_text(do_not_disturb),
        EventView::ProfileUpdated { rel_id } => "profile-updated: rel="@ + rel_id,
        EventView::ProfileRequested { rel_id } => "profile-requested: rel="@ + rel_id,
        EventView::PeerPrefs { rel_id } => "peer-prefs: rel="@ + rel_id,
        EventView::Sticker { rel_id, msg_id, ready } => "sticker: rel="@ + rel_id + " id="@
            + text::hex(msg_id) + " ready="@ + bool_text(ready),
        EventView::StickerPackInstalled { pack_id } => "pack-installed: pack="@ + text::hex(
            pack_id,
        ),
        EventView::StickerPackRefused { pack_id, reason } => "pack-refused: pack="@ + text::hex(
            pack_id,
        ) + " reason="@ + text::decimal(reason as nat),
        EventView::StickerThumbs { pack_id, .. } => "pack-thumbs: pack="@ + text::hex(pack_id),
        EventView::AttachmentProgress { rel_id, head_id, received, total } =>
            "attach-progress: rel="@ + rel_id + " head="@ + text::hex(head_id) + " "@
            + text::decimal(received as nat) + "/"@ + text::decimal(total as nat),
        EventView::AttachmentComplete { rel_id, head_id, msg_id } => "attach-complete: rel="@
            + rel_id + " head="@ + text::hex(head_id) + " msg="@ + text::hex(msg_id),
        EventView::AttachmentFailed { rel_id, head_id } => "attach-failed: rel="@ + rel_id
            + " head="@ + text::hex(head_id),
        EventView::AttachmentChunkDropped { rel_id, head_id } => "attach-chunk-dropped: rel="@
            + rel_id + " head="@ + text::hex(head_id),
        EventView::PolicyChanged { rel_id } => "policy-changed: rel="@ + rel_id,
        EventView::ContactClosed { rel_id } => "contact-closed: rel="@ + rel_id,
        EventView::GapDetected { rel_id } => "gap-detected: rel="@ + rel_id
            + " (resync requested)"@,
    }
}

fn rel_line(head: &str, rel_id: &str) -> (s: String)
    ensures
        s@ == head@ + rel_id@,
{
    head.to_owned().concat(rel_id)
}

fn id_line(head: &str, rel_id: &str, mid: &str, id: &[u8]) -> (s: String)
    ensures
        s@ == head@ + rel_id@ + mid@ + text::hex(id@),
{
    head.to_owned().concat(rel_id).concat(mid).concat(hex_text(id).as_str())
}

/// An event in one line.
pub fn render_event(e: &EngineEvent) -> (line: String)
    ensures
        line@ == event_line(e@),
{
    match e {
        EngineEvent::Message { rel_id, msg_id } => id_line("message: rel=", rel_id, " id=", msg_id),
        EngineEvent::Edited { rel_id, msg_id } => id_line("edited: rel=", rel_id, " id=", msg_id),
        EngineEvent::Deleted { rel_id, msg_id } => id_line("deleted: rel=", rel_id, " id=", msg_id),
        EngineEvent::HistoryCleared { rel_id } => rel_line("history-cleared: rel=", rel_id),
        EngineEvent::Read { rel_id, msg_id } => id_line("read: rel=", rel_id, " id=", msg_id),
        EngineEvent::Typing { rel_id, typing } => {
            rel_line("typing: rel=", rel_id).concat(" typing=").concat(bool_str(*typing))
        },
        EngineEvent::Presence { rel_id, in_app, do_not_disturb } => {
            rel_line("presence: rel=", rel_id).concat(" in_app=").concat(bool_str(*in_app)).concat(
                " dnd=",
            ).concat(bool_str(*do_not_disturb))
        },
        EngineEvent::ProfileUpdated { rel_id } => rel_line("profile-updated: rel=", rel_id),
        EngineEvent::ProfileRequested { rel_id } => rel_line("profile-requested: rel=", rel_id),
        EngineEvent::PeerPrefs { rel_id } => rel_line("peer-prefs: rel=", rel_id),
        EngineEvent::Sticker { rel_id, msg_id, ready } => {
            id_line("sticker: rel=", rel_id, " id=", msg_id).concat(" ready=").concat(
                bool_str(*ready),
            )
        },
        EngineEvent::StickerPackInstalled { pack_id } => {
            rel_line("pack-installed: pack=", hex_text(pack_id).as_str())
        },
        EngineEvent::StickerPackRefused { pack_id, reason } => {
            let mut line: String = rel_line(
                "pack-refused: pack=",
                hex_text(pack_id).as_str(),
            ).concat(" reason=");
            push_decimal(&mut line, *reason as u64);
            line
        },
        EngineEvent::StickerThumbs { pack_id, .. } => {
            rel_line("pack-thumbs: pack=", hex_text(pack_id).as_str())
        },
        EngineEvent::AttachmentProgress { rel_id, head_id, received, total } => {
            let mut line: String = id_line(
                "attach-progress: rel=",
                rel_id,
                " head=",
                head_id,
            ).concat(" ");
            push_decimal(&mut line, *received as u64);
            line.append("/");
            push_decimal(&mut line, *total as u64);
            line
        },
        EngineEvent::AttachmentComplete { rel_id, head_id, msg_id } => {
            id_line("attach-complete: rel=", rel_id, " head=", head_id).concat(" msg=").concat(
                hex_text(msg_id).as_str(),
            )
        },
        EngineEvent::AttachmentFailed { rel_id, head_id } => {
            id_line("attach-failed: rel=", rel_id, " head=", head_id)
        },
        EngineEvent::AttachmentChunkDropped { rel_id, head_id } => {
            id_line("attach-chunk-dropped: rel=", rel_id, " head=", head_id)
        },
        EngineEvent::PolicyChanged { rel_id } => rel_line("policy-changed: rel=", rel_id),
        EngineEvent::ContactClosed { rel_id } => rel_line("contact-closed: rel=", rel_id),
        EngineEvent::GapDetected { rel_id } => {
            rel_line("gap-detected: rel=", rel_id).concat(" (resync requested)")
        },
    }
}

// ---------------------------------------------------------------------------
// Status

/// What the Tor daemon is doing.
pub open spec fn tor_text(t: TorState) -> Seq<char> {
    match t {
        TorState::Off => "off"@,
        TorState::Starting => "starting"@,
        TorState::Bootstrapping { pct } => "bootstrapping "@ + text::decimal(pct as nat) + "%"@,
        TorState::Online => "online"@,
        TorState::Degraded { reason } => "degraded: "@ + reason@,
        TorState::Dead { reason } => "dead: "@ + reason@,
    }
}

fn render_tor(t: &TorState) -> (s: String)
    ensures
        s@ == tor_text(*t),
{
    match t {
        TorState::Off => "off".to_owned(),
        TorState::Starting => "starting".to_owned(),
        TorState::Bootstrapping { pct } => {
            let mut s: String = "bootstrapping ".to_owned();
            push_decimal(&mut s, *pct as u64);
            s.concat("%")
        },
        TorState::Online => "online".to_owned(),
        TorState::Degraded { reason } => rel_line("degraded: ", reason),
        TorState::Dead { reason } => rel_line("dead: ", reason),
    }
}

/// A hosted service.
pub open spec fn service_text(s: ServiceStatus) -> Seq<char> {
    s.service_id@ + "="@ + s.state@ + "("@ + (match s.onion {
        Some(onion) => onion@,
        None => ""@,
    }) + ")"@
}

/// Hosted services, with spaces between them.
pub open spec fn services_text(services: Seq<ServiceStatus>) -> Seq<char>
    decreases services.len(),
{
    if services.len() == 0 {
        Seq::empty()
    } else if services.len() == 1 {
        service_text(services[0])
    } else {
        services_text(services.drop_last()) + " "@ + service_text(services.last())
    }
}

fn render_service(s: &ServiceStatus) -> (t: String)
    ensures
        t@ == service_text(*s),
{
    let onion: &str = match &s.onion {
        Some(onion) => onion.as_str(),
        None => "",
    };
    s.service_id.clone().concat("=").concat(s.state.as_str()).concat("(").concat(onion).concat(")")
}

fn render_services(services: &Vec<ServiceStatus>) -> (t: String)
    ensures
        t@ == services_text(services@),
{
    let mut t: String = String::new();
    let mut i: usize = 0;
    assert(services@.take(0) =~= Seq::empty());
    assert(t@ =~= services_text(services@.take(0)));
    while i < services.len()
        invariant
            i <= services@.len(),
            t@ == services_text(services@.take(i as int)),
        decreases services.len() - i,
    {
        let ghost before = t@;
        assert(services@.take(i + 1).drop_last() =~= services@.take(i as int));
        if i > 0 {
            t.append(" ");
        }
        t.append(render_service(&services[i]).as_str());
        proof {
            if i == 0 {
                assert(t@ =~= service_text(services@[0]));
            }
        }
        i = i + 1;
    }
    assert(services@.take(services@.len() as int) =~= services@);
    t
}

/// The transport's status in one line.
pub open spec fn status_line(s: TransportStatus) -> Seq<char> {
    "tor="@ + tor_text(s.tor) + " kill_switch="@ + bool_text(s.kill_switch) + " mode="@ + s.mode@
        + " outbox="@ + text::decimal(s.outbox as nat) + " inbox="@ + text::decimal(s.inbox as nat)
        + " last_error="@ + (match s.last_error {
        Some(e) => e@,
        None => "-"@,
    }) + " services=["@ + services_text(s.services@) + "]"@
}

/// The transport's status in one line.
pub fn render_status(s: &TransportStatus) -> (line: String)
    ensures
        line@ == status_line(*s),
{
    let mut line: String = rel_line("tor=", render_tor(&s.tor).as_str());
    line.append(" kill_switch=");
    line.append(bool_str(s.kill_switch));
    line.append(" mode=");
    line.append(s.mode.as_str());
    line.append(" outbox=");
    push_decimal(&mut line, s.outbox);
    line.append(" inbox=");
    push_decimal(&mut line, s.inbox);
    line.append(" last_error=");
    match &s.last_error {
        Some(e) => {
            line.append(e.as_str());
        },
        None => {
            line.append("-");
        },
    }
    line.append(" services=[");
    line.append(render_services(&s.services).as_str());
    line.append("]");
    line
}

// ---------------------------------------------------------------------------
// The text record

/// Bytes of the smallest record.
pub const RECORD_BYTES: usize = 256;

/// The version byte of a record.
pub const RECORD_VERSION: u8 = 2;

/// Bytes of text that go into a record.
pub const RECORD_TEXT_MAX: usize = 250;

/// As much of a text as goes into a record.
pub open spec fn record_text(text: Seq<u8>) -> Seq<u8> {
    if text.len() <= RECORD_TEXT_MAX {
        text
    } else {
        text.take(RECORD_TEXT_MAX as int)
    }
}

/// A record that holds a text: the version, the length, the text, and zeros
/// to the end.
pub open spec fn record_of(text: Seq<u8>) -> Seq<u8> {
    let t = record_text(text);
    seq![RECORD_VERSION] + bytes::be16(t.len() as u16) + t + Seq::new(
        (RECORD_BYTES - 3 - t.len()) as nat,
        |i: int| 0u8,
    )
}

/// A record that holds a text. What does not fit is cut off.
pub fn text_record(text: &str) -> (rec: Vec<u8>)
    ensures
        rec@ == record_of(encode_utf8(text@)),
        rec@.len() == RECORD_BYTES,
{
    let b: &[u8] = text.as_bytes();
    let len: usize = if b.len() <= RECORD_TEXT_MAX {
        b.len()
    } else {
        RECORD_TEXT_MAX
    };
    let mut rec: Vec<u8> = vec![RECORD_VERSION];
    push_be16(&mut rec, len as u16);
    append_bytes(&mut rec, slice_subrange(b, 0, len));
    let ghost head = rec@;
    let ghost t = record_text(b@);
    assert(b@.subrange(0, len as int) =~= t);
    assert(head =~= seq![RECORD_VERSION] + bytes::be16(t.len() as u16) + t);
    while rec.len() < RECORD_BYTES
        invariant
            head.len() <= rec@.len() <= RECORD_BYTES,
            rec@.take(head.len() as int) == head,
            forall|i: int| head.len() <= i < rec@.len() ==> #[trigger] rec@[i] == 0,
        decreases RECORD_BYTES - rec.len(),
    {
        let ghost before = rec@;
        rec.push(0);
        assert(rec@.take(head.len() as int) =~= before.take(head.len() as int));
    }
    assert(rec@ =~= head + rec@.skip(head.len() as int)) by {
        assert forall|i: int| 0 <= i < head.len() implies rec@[i] == head[i] by {
            assert(rec@.take(head.len() as int)[i] == rec@[i]);
        }
    }
    assert(rec@ =~= record_of(b@));
    rec
}

/// A text that fits is read back from its record.
pub proof fn records_read_back(text: Seq<u8>)
    requires
        text.len() <= RECORD_TEXT_MAX,
    ensures
        bytes::of_be16(record_of(text), 1) == text.len(),
        record_of(text).subrange(3, 3 + text.len() as int) == text,
{
    bytes::be16_reads_back(text.len() as u16);
    let rec = record_of(text);
    let head = bytes::be16(text.len() as u16);
    assert(rec[1] == head[0] && rec[2] == head[1]);
    assert(rec.subrange(3, 3 + text.len() as int) =~= text);
}

// ---------------------------------------------------------------------------
// Policy

/// A policy in one line.
pub open spec fn policy_line(s: PolicyState) -> Seq<char> {
    "ttl="@ + text::decimal(s.ttl_sec as nat) + " screenshot="@ + bool_text(s.screenshot)
        + " attach_download="@ + bool_text(s.attach_download) + " enforced[attach="@ + bool_text(
        s.on(FLAG_WANT_ATTACH),
    ) + " emoji="@ + bool_text(s.on(FLAG_WANT_EMOJI)) + " presence="@ + bool_text(
        s.on(FLAG_WANT_PRESENCE),
    ) + " typing="@ + bool_text(s.on(FLAG_WANT_TYPING)) + " receipts="@ + bool_text(
        s.on(FLAG_WANT_RECEIPTS),
    ) + "] "@ + (match s.pending {
        Some(p) => "pending("@ + (if p.inbound {
            "theirs"@
        } else {
            "ours"@
        }) + " ttl="@ + text::decimal(p.ttl_sec as nat) + " screenshot="@ + bool_text(p.screenshot)
            + " attach_download="@ + bool_text(p.attach_download) + ")"@,
        None => "none"@,
    })
}

/// A policy in one line.
pub fn render_policy(s: &PolicyState) -> (line: String)
    ensures
        line@ == policy_line(*s),
{
    let pending: String = match s.pending {
        Some(p) => {
            let mut t: String = rel_line(
                "pending(",
                if p.inbound {
                    "theirs"
                } else {
                    "ours"
                },
            ).concat(" ttl=");
            push_decimal(&mut t, p.ttl_sec as u64);
            t.concat(" screenshot=").concat(bool_str(p.screenshot)).concat(
                " attach_download=",
            ).concat(bool_str(p.attach_download)).concat(")")
        },
        None => "none".to_owned(),
    };
    let mut line: String = "ttl=".to_owned();
    push_decimal(&mut line, s.ttl_sec as u64);
    line.concat(" screenshot=").concat(bool_str(s.screenshot)).concat(" attach_download=").concat(
        bool_str(s.attach_download),
    ).concat(" enforced[attach=").concat(bool_str(s.attachments())).concat(" emoji=").concat(
        bool_str(s.emoji()),
    ).concat(" presence=").concat(bool_str(s.presence())).concat(" typing=").concat(
        bool_str(s.typing()),
    ).concat(" receipts=").concat(bool_str(s.receipts())).concat("] ").concat(pending.as_str())
}

// ---------------------------------------------------------------------------
// Threads

/// What `String::from_utf8_lossy` makes of bytes.
pub uninterp spec fn lossy_of(bytes: Seq<u8>) -> Seq<char>;

/// `String::from_utf8_lossy`: the text that bytes encode, with replacement
/// characters for what is not UTF-8.
#[verifier::external_body]
fn lossy_text(bytes: &[u8]) -> (text: String)
    ensures
        text@ == lossy_of(bytes@),
        valid_utf8(bytes@) ==> text@ == decode_utf8(bytes@),
{
    String::from_utf8_lossy(bytes).into_owned()
}

/// The marks of a message, with commas between them.
pub open spec fn marks(edited: bool, tombstone: bool, read: bool) -> Seq<char> {
    let first = if edited {
        "edited"@
    } else {
        ""@
    };
    let second = if !tombstone {
        first
    } else if edited {
        first + ",tombstone"@
    } else {
        "tombstone"@
    };
    if !read {
        second
    } else if edited || tombstone {
        second + ",read"@
    } else {
        "read"@
    }
}

/// A message in one line, with its body as text.
pub open spec fn message_line(row: MessageRow, body: Seq<char>) -> Seq<char> {
    let line = (if row.direction == Direction::Out {
        "→"@
    } else {
        "←"@
    }) + " seq="@ + text::decimal(row.app_seq as nat) + " id="@ + text::hex(row.msg_id@)
        + " type="@ + text::decimal(row.env_type as nat) + " state="@ + row.state.name() + " "@
        + body;
    if row.edited || row.tombstone || row.read_at is Some {
        line + " ["@ + marks(row.edited, row.tombstone, row.read_at is Some) + "]"@
    } else {
        line
    }
}

/// A message in one line, with its body as text.
pub fn message_with(row: &MessageRow, body: &str) -> (line: String)
    ensures
        line@ == message_line(*row, body@),
{
    let mut line: String = if row.direction == Direction::Out {
        "→".to_owned()
    } else {
        "←".to_owned()
    };
    line.append(" seq=");
    push_decimal(&mut line, row.app_seq);
    line.append(" id=");
    line.append(hex_text(&row.msg_id).as_str());
    line.append(" type=");
    push_decimal(&mut line, row.env_type as u64);
    line.append(" state=");
    line.append(row.state.as_str());
    line.append(" ");
    line.append(body);
    let read: bool = row.read_at.is_some();
    if row.edited || row.tombstone || read {
        let mut flags: String = if row.edited {
            "edited".to_owned()
        } else {
            "".to_owned()
        };
        if row.tombstone {
            if row.edited {
                flags.append(",tombstone");
            } else {
                flags = "tombstone".to_owned();
            }
        }
        if read {
            if row.edited || row.tombstone {
                flags.append(",read");
            } else {
                flags = "read".to_owned();
            }
        }
        line.append(" [");
        line.append(flags.as_str());
        line.append("]");
    }
    line
}

/// A message in one line.
pub fn render_message(row: &MessageRow) -> (line: String)
    ensures
        line@ == message_line(*row, lossy_of(row.payload@)),
{
    message_with(row, lossy_text(row.payload.as_slice()).as_str())
}

/// A thread in lines, the oldest message first. The rows come newest first.
pub fn render_thread(rows: &Vec<MessageRow>) -> (lines: Vec<String>)
    ensures
        lines@.len() == rows@.len(),
        forall|i: int|
            0 <= i < lines@.len() ==> (#[trigger] lines@[i])@ == message_line(
                rows@[rows@.len() - 1 - i],
                lossy_of(rows@[rows@.len() - 1 - i].payload@),
            ),
{
    let mut lines: Vec<String> = Vec::new();
    let mut i: usize = rows.len();
    while i > 0
        invariant
            i <= rows@.len(),
            lines@.len() == rows@.len() - i,
            forall|k: int|
                0 <= k < lines@.len() ==> (#[trigger] lines@[k])@ == message_line(
                    rows@[rows@.len() - 1 - k],
                    lossy_of(rows@[rows@.len() - 1 - k].payload@),
                ),
        decreases i,
    {
        i = i - 1;
        lines.push(render_message(&rows[i]));
    }
    lines
}

// ---------------------------------------------------------------------------
// Lines that name an id

/// A line with an id in it.
pub fn line_with_id(before: &str, id: &[u8], after: &str) -> (line: String)
    ensures
        line@ == before@ + text::hex(id@) + after@,
{
    before.to_owned().concat(hex_text(id).as_str()).concat(after)
}

/// The line for a message that was sent.
pub fn text_sent_line(rel_id: &str, msg_id: &[u8; 16]) -> (line: String)
    ensures
        line@ == "sent to relationship "@ + rel_id@ + " (msg_id "@ + text::hex(msg_id@) + ")"@,
{
    id_line("sent to relationship ", rel_id, " (msg_id ", msg_id).concat(")")
}

/// The line for an attachment that was sent.
pub fn attach_sent_line(head_id: &[u8; 16], size: usize, view_once: bool) -> (line: String)
    ensures
        line@ == "attachment sent (head "@ + text::hex(head_id@) + ", "@ + text::decimal(
            size as nat,
        ) + " bytes, view_once="@ + bool_text(view_once) + ")"@,
{
    let mut line: String = line_with_id("attachment sent (head ", head_id, ", ");
    push_decimal(&mut line, size as u64);
    line.concat(" bytes, view_once=").concat(bool_str(view_once)).concat(")")
}

// ---------------------------------------------------------------------------
// The developer's key

/// What to do about the developer's key.
#[derive(Clone, Debug)]
pub enum DevKey {
    /// It is on file.
    Use([u8; 32]),
    /// There was none: this one is new, and is to be written.
    Write([u8; 32]),
}

/// Takes the developer's key from its file, or makes one where there is no
/// file. The error is the file's path with what is wrong.
pub fn load_or_generate_dek(file: Option<&[u8]>, path: &str) -> (r: Result<DevKey, String>)
    ensures
        match file {
            Some(b) => if b@.len() == 32 {
                r matches Ok(DevKey::Use(key)) && key@ == b@
            } else {
                r is Err && r->Err_0@ == path@ + ": dev DEK is not 32 bytes"@
            },
            None => r matches Ok(DevKey::Write(_)),
        },
{
    match file {
        Some(b) => match to_array::<32>(b) {
            Some(key) => Ok(DevKey::Use(key)),
            None => Err(path.to_owned().concat(": dev DEK is not 32 bytes")),
        },
        None => Ok(DevKey::Write(random_bytes::<32>())),
    }
}

/// Refuses the store while the instance is locked.
pub fn check_unlocked(locked: bool) -> (r: Result<(), String>)
    ensures
        r is Ok <==> !locked,
        r matches Err(why) ==> why@ == "instance is locked (run `schat-cli unlock`)"@,
{
    if locked {
        return Err("instance is locked (run `schat-cli unlock`)".to_owned());
    }
    Ok(())
}

// ---------------------------------------------------------------------------
// Waiting for the transport

/// How long a command waits for the transport to come on line, in seconds.
pub const ONLINE_TIMEOUT_SECS: u64 = 120;

/// How long it waits for a new status before it looks again, in seconds.
pub const ONLINE_RECHECK_SECS: u64 = 5;

/// What a command that needs the transport does next.
#[derive(Clone, Copy, Debug, PartialEq, Eq, Structural)]
pub enum WaitStep {
    Ready,
    GiveUp,
    /// Wait for a new status, but not for longer than the recheck, and look
    /// again.
    Wait,
}

/// The next step of waiting.
pub open spec fn waits(online: bool, late: bool) -> WaitStep {
    if online {
        WaitStep::Ready
    } else if late {
        WaitStep::GiveUp
    } else {
        WaitStep::Wait
    }
}

/// The next step of waiting for the transport, given whether the deadline has
/// passed. A transport that is on line is taken also past the deadline.
pub fn wait_step(tor: &TorState, late: bool) -> (step: WaitStep)
    ensures
        step == waits(tor is Online, late),
{
    match tor {
        TorState::Online => WaitStep::Ready,
        _ => {
            if late {
                WaitStep::GiveUp
            } else {
                WaitStep::Wait
            }
        },
    }
}

// ---------------------------------------------------------------------------
// Laws

/// The word for what happened.
pub open spec fn event_word(e: EventView) -> Seq<char> {
    match e {
        EventView::Message { .. } => "message"@,
        EventView::Edited { .. } => "edited"@,
        EventView::Deleted { .. } => "deleted"@,
        EventView::HistoryCleared { .. } => "history-cleared"@,
        EventView::Read { .. } => "read"@,
        EventView::Typing { .. } => "typing"@,
        EventView::Presence { .. } => "presence"@,
        EventView::ProfileUpdated { .. } => "profile-updated"@,
        EventView::ProfileRequested { .. } => "profile-requested"@,
        EventView::PeerPrefs { .. } => "peer-prefs"@,
        EventView::Sticker { .. } => "sticker"@,
        EventView::StickerPackInstalled { .. } => "pack-installed"@,
        EventView::StickerPackRefused { .. } => "pack-refused"@,
        EventView::StickerThumbs { .. } => "pack-thumbs"@,
        EventView::AttachmentProgress { .. } => "attach-progress"@,
        EventView::AttachmentComplete { .. } => "attach-complete"@,
        EventView::AttachmentFailed { .. } => "attach-failed"@,
        EventView::AttachmentChunkDropped { .. } => "attach-chunk-dropped"@,
        EventView::PolicyChanged { .. } => "policy-changed"@,
        EventView::ContactClosed { .. } => "contact-closed"@,
        EventView::GapDetected { .. } => "gap-detected"@,
    }
}

/// The relationship or the pack that an event is about.
pub open spec fn about(e: EventView) -> Seq<char> {
    match e {
        EventView::Message { rel_id, .. } => rel_id,
        EventView::Edited { rel_id, .. } => rel_id,
        EventView::Deleted { rel_id, .. } => rel_id,
        EventView::HistoryCleared { rel_id } => rel_id,
        EventView::Read { rel_id, .. } => rel_id,
        EventView::Typing { rel_id, .. } => rel_id,
        EventView::Presence { rel_id, .. } => rel_id,
        EventView::ProfileUpdated { rel_id } => rel_id,
        EventView::ProfileRequested { rel_id } => rel_id,
        EventView::PeerPrefs { rel_id } => rel_id,
        EventView::Sticker { rel_id, .. } => rel_id,
        EventView::StickerPackInstalled { pack_id } => text::hex(pack_id),
        EventView::StickerPackRefused { pack_id, .. } => text::hex(pack_id),
        EventView::StickerThumbs { pack_id, .. } => text::hex(pack_id),
        EventView::AttachmentProgress { rel_id, .. } => rel_id,
        EventView::AttachmentComplete { rel_id, .. } => rel_id,
        EventView::AttachmentFailed { rel_id, .. } => rel_id,
        EventView::AttachmentChunkDropped { rel_id, .. } => rel_id,
        EventView::PolicyChanged { rel_id } => rel_id,
        EventView::ContactClosed { rel_id } => rel_id,
        EventView::GapDetected { rel_id } => rel_id,
    }
}

/// What an event says last.
pub open spec fn event_end(e: EventView) -> Seq<char> {
    match e {
        EventView::Message { msg_id, .. } => text::hex(msg_id),
        EventView::Edited { msg_id, .. } => text::hex(msg_id),
        EventView::Deleted { msg_id, .. } => text::hex(msg_id),
        EventView::HistoryCleared { rel_id } => rel_id,
        EventView::Read { msg_id, .. } => text::hex(msg_id),
        EventView::Typing { typing, .. } => if typing {
            "true"@
        } else {
            "false"@
        },
        EventView::Presence { do_not_disturb, .. } => if do_not_disturb {
            "true"@
        } else {
            "false"@
        },
        EventView::ProfileUpdated { rel_id } => rel_id,
        EventView::ProfileRequested { rel_id } => rel_id,
        EventView::PeerPrefs { rel_id } => rel_id,
        EventView::Sticker { ready, .. } => if ready {
            "true"@
        } else {
            "false"@
        },
        EventView::StickerPackInstalled { pack_id } => text::hex(pack_id),
        EventView::StickerPackRefused { reason, .. } => text::decimal(reason as nat),
        EventView::StickerThumbs { pack_id, .. } => text::hex(pack_id),
        EventView::AttachmentProgress { total, .. } => text::decimal(total as nat),
        EventView::AttachmentComplete { msg_id, .. } => text::hex(msg_id),
        EventView::AttachmentFailed { head_id, .. } => text::hex(head_id),
        EventView::AttachmentChunkDropped { head_id, .. } => text::hex(head_id),
        EventView::PolicyChanged { rel_id } => rel_id,
        EventView::ContactClosed { rel_id } => rel_id,
        EventView::GapDetected { .. } => "(resync requested)"@,
    }
}

/// The line of an event starts with the word for it and what it is about, and
/// ends with what it says last.
pub proof fn lines_tell_what_happened(e: EventView)
    ensures
        ({
            let line = event_line(e);
            let word = event_word(e);
            let at = word.len() + (if about_a_pack(e) {
                7int
            } else {
                6
            });
            &&& line.len() >= at + about(e).len()
            &&& line.take(word.len() as int) == word
            &&& line[word.len() as int] == ':'
            &&& line.subrange(at, at + about(e).len()) == about(e)
            &&& line.skip(line.len() - event_end(e).len()) == event_end(e)
        }),
{
    let line = event_line(e);
    lines_end_with_what_is_said(e);
    match e {
        EventView::Message { .. } => {
            reveal_strlit("message");
            reveal_strlit("message: rel=");
            assert("message: rel="@.take(7) =~= "message"@);
            starts_with(line, "message: rel="@, about(e), "message"@);
        },
        EventView::Edited { .. } => {
            reveal_strlit("edited");
            reveal_strlit("edited: rel=");
            assert("edited: rel="@.take(6) =~= "edited"@);
            starts_with(line, "edited: rel="@, about(e), "edited"@);
        },
        EventView::Deleted { .. } => {
            reveal_strlit("deleted");
            reveal_strlit("deleted: rel=");
            assert("deleted: rel="@.take(7) =~= "deleted"@);
            starts_with(line, "deleted: rel="@, about(e), "deleted"@);
        },
        EventView::HistoryCleared { .. } => {
            reveal_strlit("history-cleared");
            reveal_strlit("history-cleared: rel=");
            assert("history-cleared: rel="@.take(15) =~= "history-cleared"@);
            starts_with(line, "history-cleared: rel="@, about(e), "history-cleared"@);
        },
        EventView::Read { .. } => {
            reveal_strlit("read");
            reveal_strlit("read: rel=");
            assert("read: rel="@.take(4) =~= "read"@);
            starts_with(line, "read: rel="@, about(e), "read"@);
        },
        EventView::Typing { .. } => {
            reveal_strlit("typing");
            reveal_strlit("typing: rel=");
            assert("typing: rel="@.take(6) =~= "typing"@);
            starts_with(line, "typing: rel="@, about(e), "typing"@);
        },
        EventView::Presence { .. } => {
            reveal_strlit("presence");
            reveal_strlit("presence: rel=");
            assert("presence: rel="@.take(8) =~= "presence"@);
            starts_with(line, "presence: rel="@, about(e), "presence"@);
        },
        EventView::ProfileUpdated { .. } => {
            reveal_strlit("profile-updated");
            reveal_strlit("profile-updated: rel=");
            assert("profile-updated: rel="@.take(15) =~= "profile-updated"@);
            starts_with(line, "profile-updated: rel="@, about(e), "profile-updated"@);
        },
        EventView::ProfileRequested { .. } => {
            reveal_strlit("profile-requested");
            reveal_strlit("profile-requested: rel=");
            assert("profile-requested: rel="@.take(17) =~= "profile-requested"@);
            starts_with(line, "profile-requested: rel="@, about(e), "profile-requested"@);
        },
        EventView::PeerPrefs { .. } => {
            reveal_strlit("peer-prefs");
            reveal_strlit("peer-prefs: rel=");
            assert("peer-prefs: rel="@.take(10) =~= "peer-prefs"@);
            starts_with(line, "peer-prefs: rel="@, about(e), "peer-prefs"@);
        },
        EventView::Sticker { .. } => {
            reveal_strlit("sticker");
            reveal_strlit("sticker: rel=");
            assert("sticker: rel="@.take(7) =~= "sticker"@);
            starts_with(line, "sticker: rel="@, about(e), "sticker"@);
        },
        EventView::StickerPackInstalled { .. } => {
            reveal_strlit("pack-installed");
            reveal_strlit("pack-installed: pack=");
            assert("pack-installed: pack="@.take(14) =~= "pack-installed"@);
            starts_with(line, "pack-installed: pack="@, about(e), "pack-installed"@);
        },
        EventView::StickerPackRefused { .. } => {
            reveal_strlit("pack-refused");
            reveal_strlit("pack-refused: pack=");
            assert("pack-refused: pack="@.take(12) =~= "pack-refused"@);
            starts_with(line, "pack-refused: pack="@, about(e), "pack-refused"@);
        },
        EventView::StickerThumbs { .. } => {
            reveal_strlit("pack-thumbs");
            reveal_strlit("pack-thumbs: pack=");
            assert("pack-thumbs: pack="@.take(11) =~= "pack-thumbs"@);
            starts_with(line, "pack-thumbs: pack="@, about(e), "pack-thumbs"@);
        },
        EventView::AttachmentProgress { .. } => {
            reveal_strlit("attach-progress");
            reveal_strlit("attach-progress: rel=");
            assert("attach-progress: rel="@.take(15) =~= "attach-progress"@);
            starts_with(line, "attach-progress: rel="@, about(e), "attach-progress"@);
        },
        EventView::AttachmentComplete { .. } => {
            reveal_strlit("attach-complete");
            reveal_strlit("attach-complete: rel=");
            assert("attach-complete: rel="@.take(15) =~= "attach-complete"@);
            starts_with(line, "attach-complete: rel="@, about(e), "attach-complete"@);
        },
        EventView::AttachmentFailed { .. } => {
            reveal_strlit("attach-failed");
            reveal_strlit("attach-failed: rel=");
            assert("attach-failed: rel="@.take(13) =~= "attach-failed"@);
            starts_with(line, "attach-failed: rel="@, about(e), "attach-failed"@);
        },
        EventView::AttachmentChunkDropped { .. } => {
            reveal_strlit("attach-chunk-dropped");
            reveal_strlit("attach-chunk-dropped: rel=");
            assert("attach-chunk-dropped: rel="@.take(20) =~= "attach-chunk-dropped"@);
            starts_with(line, "attach-chunk-dropped: rel="@, about(e), "attach-chunk-dropped"@);
        },
        EventView::PolicyChanged { .. } => {
            reveal_strlit("policy-changed");
            reveal_strlit("policy-changed: rel=");
            assert("policy-changed: rel="@.take(14) =~= "policy-changed"@);
            starts_with(line, "policy-changed: rel="@, about(e), "policy-changed"@);
        },
        EventView::ContactClosed { .. } => {
            reveal_strlit("contact-closed");
            reveal_strlit("contact-closed: rel=");
            assert("contact-closed: rel="@.take(14) =~= "contact-closed"@);
            starts_with(line, "contact-closed: rel="@, about(e), "contact-closed"@);
        },
        EventView::GapDetected { .. } => {
            reveal_strlit("gap-detected");
            reveal_strlit("gap-detected: rel=");
            assert("gap-detected: rel="@.take(12) =~= "gap-detected"@);
            starts_with(line, "gap-detected: rel="@, about(e), "gap-detected"@);
        },
    }
}

proof fn lines_end_with_what_is_said(e: EventView)
    ensures
        event_line(e).len() >= event_end(e).len(),
        event_line(e).skip(event_line(e).len() - event_end(e).len()) == event_end(e),
{
    reveal_strlit(" (resync requested)");
    reveal_strlit("(resync requested)");
    let line = event_line(e);
    assert(line.skip(line.len() - event_end(e).len()) =~= event_end(e));
}

/// A line that starts with a head and then `what` has the front of the head in
/// front, and `what` behind the head.
proof fn starts_with(line: Seq<char>, head: Seq<char>, what: Seq<char>, word: Seq<char>)
    requires
        line.len() >= head.len() + what.len(),
        forall|i: int| 0 <= i < head.len() ==> #[trigger] line[i] == head[i],
        forall|i: int| 0 <= i < what.len() ==> line[head.len() + i] == #[trigger] what[i],
        word.len() < head.len(),
        head.take(word.len() as int) == word,
    ensures
        line.take(word.len() as int) == word,
        line[word.len() as int] == head[word.len() as int],
        line.subrange(head.len() as int, (head.len() + what.len()) as int) == what,
{
    assert(line.take(word.len() as int) =~= head.take(word.len() as int));
    assert(line.subrange(head.len() as int, (head.len() + what.len()) as int) =~= what);
}

/// Whether an event is about a pack and not about a relationship.
pub open spec fn about_a_pack(e: EventView) -> bool {
    e is StickerPackInstalled || e is StickerPackRefused || e is StickerThumbs
}

/// The marks of a message are the words for those that hold, with commas between
/// them.
pub proof fn marks_are_listed(edited: bool, tombstone: bool, read: bool)
    ensures
        ({
            let none = Seq::<Seq<char>>::empty();
            let a = if edited {
                none.push("edited"@)
            } else {
                none
            };
            let b = if tombstone {
                a.push("tombstone"@)
            } else {
                a
            };
            let c = if read {
                b.push("read"@)
            } else {
                b
            };
            marks(edited, tombstone, read) == text::with_commas(c)
        }),
{
    reveal_with_fuel(text::with_commas, 4);
    reveal_strlit("");
    reveal_strlit("edited");
    reveal_strlit("tombstone");
    reveal_strlit("read");
    reveal_strlit(",tombstone");
    reveal_strlit(",read");
    let none = Seq::<Seq<char>>::empty();
    let a = if edited {
        none.push("edited"@)
    } else {
        none
    };
    let b = if tombstone {
        a.push("tombstone"@)
    } else {
        a
    };
    let c = if read {
        b.push("read"@)
    } else {
        b
    };
    assert(none.push("edited"@).push("tombstone"@).drop_last() =~= none.push("edited"@));
    assert(b.push("read"@).drop_last() =~= b);
    assert(a.push("tombstone"@).drop_last() =~= a);
    assert(marks(edited, tombstone, read) =~= text::with_commas(c));
}

/// A message without marks ends in its body; one with marks ends in them, behind
/// its body.
pub proof fn messages_end_in_their_body_and_marks(row: MessageRow, body: Seq<char>)
    ensures
        ({
            let line = message_line(row, body);
            let m = marks(row.edited, row.tombstone, row.read_at is Some);
            let bare = !row.edited && !row.tombstone && row.read_at is None;
            &&& bare ==> line.skip(line.len() - body.len()) == body
            &&& !bare ==> line.skip(line.len() - body.len() - m.len() - 3) == body + " ["@ + m + "]"@
        }),
{
    reveal_strlit(" [");
    reveal_strlit("]");
    let line = message_line(row, body);
    let m = marks(row.edited, row.tombstone, row.read_at is Some);
    if !row.edited && !row.tombstone && row.read_at is None {
        assert(line.skip(line.len() - body.len()) =~= body);
    } else {
        assert(line.skip(line.len() - body.len() - m.len() - 3) =~= body + " ["@ + m + "]"@);
    }
}

/// A record has 256 bytes whatever the text: the version first, and zeros behind
/// the text. Of a longer text the first 250 bytes are kept.
pub proof fn records_are_of_one_size(text: Seq<u8>, i: int)
    ensures
        record_of(text).len() == 256,
        record_of(text)[0] == 2,
        text.len() > 250 ==> record_of(text) == record_of(text.take(250)),
        3 + text.len() <= i < 256 ==> record_of(text)[i] == 0,
        253 <= i < 256 ==> record_of(text)[i] == 0,
{
    if text.len() > 250 {
        assert(record_text(text.take(250)) =~= record_text(text));
    }
}

/// One more service goes to the end of the list, behind a space.
pub proof fn services_are_listed_in_order(services: Seq<ServiceStatus>, s: ServiceStatus)
    ensures
        services.len() > 0 ==> services_text(services.push(s)) == services_text(services) + " "@
            + service_text(s),
        services_text(seq![s]) == service_text(s),
{
    assert(services.push(s).drop_last() =~= services);
}

/// A transport that is on line ends the wait, however late; one that is not ends it
/// at the deadline and not before.
pub proof fn waiting_ends_on_line_or_late(online: bool, late: bool)
    ensures
        waits(online, late) == WaitStep::Ready <==> online,
        waits(online, late) == WaitStep::GiveUp <==> !online && late,
        waits(online, late) == WaitStep::Wait <==> !online && !late,
{
}

/// A policy is shown by its lifetime, its two rules and, for each capability, whether
/// both sides want it; then comes the open proposal, and whose it is.
pub proof fn a_policy_is_shown_as_it_is(s: PolicyState)
    ensures
        ({
            let both = s.local_want & s.peer_want;
            let open = match s.pending {
                Some(p) => "pending("@ + whose(p.inbound) + " ttl="@ + text::decimal(
                    p.ttl_sec as nat,
                ) + " screenshot="@ + word(p.screenshot) + " attach_download="@ + word(
                    p.attach_download,
                ) + ")"@,
                None => "none"@,
            };
            policy_line(s) == "ttl="@ + text::decimal(s.ttl_sec as nat) + " screenshot="@ + word(
                s.screenshot,
            ) + " attach_download="@ + word(s.attach_download) + " enforced[attach="@ + word(
                both & FLAG_WANT_ATTACH != 0,
            ) + " emoji="@ + word(both & FLAG_WANT_EMOJI != 0) + " presence="@ + word(
                both & FLAG_WANT_PRESENCE != 0,
            ) + " typing="@ + word(both & FLAG_WANT_TYPING != 0) + " receipts="@ + word(
                both & FLAG_WANT_RECEIPTS != 0,
            ) + "] "@ + open
        }),
{
}

/// The word for a switch.
pub open spec fn word(on: bool) -> Seq<char> {
    if on {
        "true"@
    } else {
        "false"@
    }
}

/// Whose a proposal is.
pub open spec fn whose(inbound: bool) -> Seq<char> {
    if inbound {
        "theirs"@
    } else {
        "ours"@
    }
}

/// The states of the transport have texts of their own; what has a reason or a
/// percentage gives it.
pub proof fn transport_states_are_told_apart(t: TorState)
    ensures
        t is Off ==> tor_text(t) == "off"@,
        t is Starting ==> tor_text(t) == "starting"@,
        t is Online ==> tor_text(t) == "online"@,
        t matches TorState::Bootstrapping { pct } ==> tor_text(t) == "bootstrapping "@
            + text::decimal(pct as nat) + "%"@,
        t matches TorState::Degraded { reason } ==> tor_text(t) == "degraded: "@ + reason@,
        t matches TorState::Dead { reason } ==> tor_text(t) == "dead: "@ + reason@,
{
}

} // verus!
