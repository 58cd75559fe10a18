//! What the commands decide: which operation the flags ask for, and what is
//! missing.

use vstd::prelude::*;

use crate::attach::{class_for_mime, AttachmentSpec};
use crate::cli::args::{usage_msg, Args, CommandLine, Complaint, Flag, Usage};
use crate::media::sniff::{self, sniff, MediaKind};
use crate::media::sticker::PreparedSticker;
use crate::pairing::requests::RequestInfo;
use crate::text::{self, push_decimal, same_text, split_at_commas};
use crate::wire::attach::{CLASS_IMAGE, CLASS_VIDEO};
use crate::wire::policy::{
    CAP_ID_ATTACH, CAP_ID_EMOJI, CAP_ID_PRESENCE, CAP_ID_RECEIPTS, CAP_ID_TYPING,
};
use crate::wire::sticker::{KIND_EMOJI, KIND_STICKER, VISIBILITY_PRIVATE, VISIBILITY_PUBLIC};

verus! {

// ---------------------------------------------------------------------------
// Commands

/// A command.
#[derive(Clone, Copy, Debug, PartialEq, Eq, Structural)]
pub enum Command {
    Ping,
    Daemon,
    Send,
    Status,
    Pair,
    Edit,
    Delete,
    Read,
    Typing,
    Presence,
    Thread,
    Attach,
    AttachSave,
    Profile,
    Policy,
    Sticker,
    Close,
    Lock,
    Unlock,
    PanicWipe,
    SweepExpired,
    MediaSniff,
    MediaStrip,
    MediaPrepareSticker,
}

/// The command that a word is.
pub open spec fn command_of(word: Seq<char>) -> Option<Command> {
    if word == "ping"@ {
        Some(Command::Ping)
    } else if word == "daemon"@ {
        Some(Command::Daemon)
    } else if word == "send"@ {
        Some(Command::Send)
    } else if word == "status"@ {
        Some(Command::Status)
    } else if word == "pair"@ {
        Some(Command::Pair)
    } else if word == "edit"@ {
        Some(Command::Edit)
    } else if word == "delete"@ {
        Some(Command::Delete)
    } else if word == "read"@ {
        Some(Command::Read)
    } else if word == "typing"@ {
        Some(Command::Typing)
    } else if word == "presence"@ {
        Some(Command::Presence)
    } else if word == "thread"@ {
        Some(Command::Thread)
    } else if word == "attach"@ {
        Some(Command::Attach)
    } else if word == "attach-save"@ {
        Some(Command::AttachSave)
    } else if word == "profile"@ {
        Some(Command::Profile)
    } else if word == "policy"@ {
        Some(Command::Policy)
    } else if word == "sticker"@ {
        Some(Command::Sticker)
    } else if word == "close"@ {
        Some(Command::Close)
    } else if word == "lock"@ {
        Some(Command::Lock)
    } else if word == "unlock"@ {
        Some(Command::Unlock)
    } else if word == "panic-wipe"@ {
        Some(Command::PanicWipe)
    } else if word == "sweep-expired"@ {
        Some(Command::SweepExpired)
    } else if word == "media-sniff"@ {
        Some(Command::MediaSniff)
    } else if word == "media-strip"@ {
        Some(Command::MediaStrip)
    } else if word == "media-prepare-sticker"@ {
        Some(Command::MediaPrepareSticker)
    } else {
        None
    }
}

/// The command that a word is.
pub fn command(word: &str) -> (c: Option<Command>)
    ensures
        c == command_of(word@),
{
    if same_text(word, "ping") {
        Some(Command::Ping)
    } else if same_text(word, "daemon") {
        Some(Command::Daemon)
    } else if same_text(word, "send") {
        Some(Command::Send)
    } else if same_text(word, "status") {
        Some(Command::Status)
    } else if same_text(word, "pair") {
        Some(Command::Pair)
    } else if same_text(word, "edit") {
        Some(Command::Edit)
    } else if same_text(word, "delete") {
        Some(Command::Delete)
    } else if same_text(word, "read") {
        Some(Command::Read)
    } else if same_text(word, "typing") {
        Some(Command::Typing)
    } else if same_text(word, "presence") {
        Some(Command::Presence)
    } else if same_text(word, "thread") {
        Some(Command::Thread)
    } else if same_text(word, "attach") {
        Some(Command::Attach)
    } else if same_text(word, "attach-save") {
        Some(Command::AttachSave)
    } else if same_text(word, "profile") {
        Some(Command::Profile)
    } else if same_text(word, "policy") {
        Some(Command::Policy)
    } else if same_text(word, "sticker") {
        Some(Command::Sticker)
    } else if same_text(word, "close") {
        Some(Command::Close)
    } else if same_text(word, "lock") {
        Some(Command::Lock)
    } else if same_text(word, "unlock") {
        Some(Command::Unlock)
    } else if same_text(word, "panic-wipe") {
        Some(Command::PanicWipe)
    } else if same_text(word, "sweep-expired") {
        Some(Command::SweepExpired)
    } else if same_text(word, "media-sniff") {
        Some(Command::MediaSniff)
    } else if same_text(word, "media-strip") {
        Some(Command::MediaStrip)
    } else if same_text(word, "media-prepare-sticker") {
        Some(Command::MediaPrepareSticker)
    } else {
        None
    }
}

// ---------------------------------------------------------------------------
// Needed flags

/// The text after a flag that has to be there.
pub fn needed<'a>(a: &'a Args, f: Flag, missing: &str) -> (r: Result<&'a str, Usage>)
    ensures
        match a@.text(f) {
            Some(t) => r is Ok && r->Ok_0@ == t,
            None => r is Err && r->Err_0@ == Complaint::Because(missing@),
        },
{
    match a.text(f) {
        Some(t) => Ok(t),
        None => Err(usage_msg(missing)),
    }
}

/// On or off: exactly one of the two flags has to be there.
pub fn on_off(a: &Args, missing: &str) -> (r: Result<bool, Usage>)
    ensures
        if a@.has(Flag::On) != a@.has(Flag::Off) {
            r is Ok && r->Ok_0 == a@.has(Flag::On)
        } else {
            r is Err && r->Err_0@ == Complaint::Because(missing@)
        },
{
    let on: bool = a.has(Flag::On);
    if on != a.has(Flag::Off) {
        Ok(on)
    } else {
        Err(usage_msg(missing))
    }
}

// ---------------------------------------------------------------------------
// Pairing

/// What `pair` does.
#[derive(Clone, Copy, Debug, PartialEq, Eq, Structural)]
pub enum PairChoice {
    Offer,
    /// Accept the payload of a file.
    AcceptFile,
    /// Accept a code.
    AcceptCode,
    Requests,
    AcceptRequest,
    Abort,
}

/// What `pair` does; of several operations, the first of this list.
pub open spec fn pairs(c: CommandLine) -> Result<PairChoice, Seq<char>> {
    if c.has(Flag::Offer) {
        Ok(PairChoice::Offer)
    } else if c.text(Flag::Accept) is Some && c.text(Flag::Code) is Some {
        Err("use either --accept FILE or --code CODE, not both"@)
    } else if c.text(Flag::Accept) is Some {
        Ok(PairChoice::AcceptFile)
    } else if c.text(Flag::Code) is Some {
        Ok(PairChoice::AcceptCode)
    } else if c.has(Flag::Requests) {
        Ok(PairChoice::Requests)
    } else if c.has(Flag::AcceptRequest) {
        Ok(PairChoice::AcceptRequest)
    } else if c.has(Flag::Abort) {
        Ok(PairChoice::Abort)
    } else {
        Err(
            "pair needs one of --offer / --accept / --code / --accept-request / --requests / --abort"@,
        )
    }
}

/// What `pair` does.
pub fn pair_choice(a: &Args) -> (r: Result<PairChoice, Usage>)
    ensures
        match pairs(a@) {
            Ok(choice) => r is Ok && r->Ok_0 == choice,
            Err(why) => r is Err && r->Err_0@ == Complaint::Because(why),
        },
{
    if a.has(Flag::Offer) {
        return Ok(PairChoice::Offer);
    }
    let file: bool = a.text(Flag::Accept).is_some();
    let code: bool = a.text(Flag::Code).is_some();
    if file && code {
        return Err(usage_msg("use either --accept FILE or --code CODE, not both"));
    }
    if file {
        return Ok(PairChoice::AcceptFile);
    }
    if code {
        return Ok(PairChoice::AcceptCode);
    }
    if a.has(Flag::Requests) {
        return Ok(PairChoice::Requests);
    }
    if a.has(Flag::AcceptRequest) {
        return Ok(PairChoice::AcceptRequest);
    }
    if a.has(Flag::Abort) {
        return Ok(PairChoice::Abort);
    }
    Err(
        usage_msg(
            "pair needs one of --offer / --accept / --code / --accept-request / --requests / --abort",
        ),
    )
}

/// The only pending request; `None` where there is none, or more than one.
pub fn only_request(requests: &Vec<RequestInfo>) -> (rel_id: Option<String>)
    ensures
        rel_id is Some <==> requests@.len() == 1,
        rel_id matches Some(id) ==> id@ == requests@[0].rel_id@,
{
    if requests.len() == 1 {
        Some(requests[0].rel_id.clone())
    } else {
        None
    }
}

/// A request in one line.
pub fn request_line(r: &RequestInfo) -> (line: String)
    ensures
        line@ == "request: rel_id="@ + r.rel_id@ + " safety="@ + r.sas@ + " peer="@ + r.peer_onion@
            + " created_at="@ + text::decimal(r.created_at as nat),
{
    let mut line: String = "request: rel_id=".to_owned();
    line.append(r.rel_id.as_str());
    line.append(" safety=");
    line.append(r.sas.as_str());
    line.append(" peer=");
    line.append(r.peer_onion.as_str());
    line.append(" created_at=");
    push_decimal(&mut line, r.created_at);
    line
}

// ---------------------------------------------------------------------------
// Policy

/// The capability of a name.
pub open spec fn named_cap(name: Seq<char>) -> Option<u8> {
    if name == "attach"@ || name == "attachments"@ {
        Some(CAP_ID_ATTACH)
    } else if name == "emoji"@ {
        Some(CAP_ID_EMOJI)
    } else if name == "presence"@ {
        Some(CAP_ID_PRESENCE)
    } else if name == "typing"@ {
        Some(CAP_ID_TYPING)
    } else if name == "receipts"@ || name == "read"@ {
        Some(CAP_ID_RECEIPTS)
    } else {
        None
    }
}

/// The capability of a name.
pub fn cap_id(name: &str) -> (r: Result<u8, Usage>)
    ensures
        match named_cap(name@) {
            Some(id) => r is Ok && r->Ok_0 == id,
            None => r is Err && r->Err_0@ == Complaint::Because(
                "unknown cap (attach|emoji|presence|typing|receipts)"@,
            ),
        },
{
    if same_text(name, "attach") || same_text(name, "attachments") {
        Ok(CAP_ID_ATTACH)
    } else if same_text(name, "emoji") {
        Ok(CAP_ID_EMOJI)
    } else if same_text(name, "presence") {
        Ok(CAP_ID_PRESENCE)
    } else if same_text(name, "typing") {
        Ok(CAP_ID_TYPING)
    } else if same_text(name, "receipts") || same_text(name, "read") {
        Ok(CAP_ID_RECEIPTS)
    } else {
        Err(usage_msg("unknown cap (attach|emoji|presence|typing|receipts)"))
    }
}

/// What `policy` does on the wire.
#[derive(Clone, Copy, Debug, PartialEq, Eq, Structural)]
pub enum PolicyChoice {
    Propose { ttl_sec: u32, screenshot: bool, attach_download: bool },
    AcceptRules,
    Decline,
    Cap { cap_id: u8, on: bool },
}

/// What `policy` does on the wire; of several operations, the first of this
/// list.
pub open spec fn governs(c: CommandLine) -> Result<PolicyChoice, Seq<char>> {
    if c.has(Flag::Propose) {
        if c.number(Flag::Ttl) is None {
            Err("--propose needs --ttl SEC"@)
        } else if c.switch(Flag::Screenshot) is None {
            Err("--propose needs --screenshot on|off"@)
        } else if c.switch(Flag::AttachDownload) is None {
            Err("--propose needs --attach-download on|off"@)
        } else {
            Ok(
                PolicyChoice::Propose {
                    ttl_sec: c.number(Flag::Ttl)->0 as u32,
                    screenshot: c.switch(Flag::Screenshot)->0,
                    attach_download: c.switch(Flag::AttachDownload)->0,
                },
            )
        }
    } else if c.has(Flag::AcceptRules) {
        Ok(PolicyChoice::AcceptRules)
    } else if c.has(Flag::Decline) {
        Ok(PolicyChoice::Decline)
    } else {
        match c.text(Flag::Cap) {
            None => Err(
                "policy needs --show / --propose / --accept-rules / --decline / --cap"@,
            ),
            Some(name) => if c.has(Flag::On) == c.has(Flag::Off) {
                Err("--cap needs --on or --off"@)
            } else {
                match named_cap(name) {
                    Some(cap_id) => Ok(PolicyChoice::Cap { cap_id, on: c.has(Flag::On) }),
                    None => Err("unknown cap (attach|emoji|presence|typing|receipts)"@),
                }
            },
        }
    }
}

/// What `policy` does on the wire.
pub fn policy_choice(a: &Args) -> (r: Result<PolicyChoice, Usage>)
    ensures
        match governs(a@) {
            Ok(choice) => r is Ok && r->Ok_0 == choice,
            Err(why) => r is Err && r->Err_0@ == Complaint::Because(why),
        },
{
    if a.has(Flag::Propose) {
        let ttl_sec: u32 = match a.number(Flag::Ttl) {
            Some(n) => n,
            None => {
                return Err(usage_msg("--propose needs --ttl SEC"));
            },
        };
        let screenshot: bool = match a.switch(Flag::Screenshot) {
            Some(on) => on,
            None => {
                return Err(usage_msg("--propose needs --screenshot on|off"));
            },
        };
        let attach_download: bool = match a.switch(Flag::AttachDownload) {
            Some(on) => on,
            None => {
                return Err(usage_msg("--propose needs --attach-download on|off"));
            },
        };
        return Ok(PolicyChoice::Propose { ttl_sec, screenshot, attach_download });
    }
    if a.has(Flag::AcceptRules) {
        return Ok(PolicyChoice::AcceptRules);
    }
    if a.has(Flag::Decline) {
        return Ok(PolicyChoice::Decline);
    }
    let name: &str = match a.text(Flag::Cap) {
        Some(name) => name,
        None => {
            return Err(
                usage_msg("policy needs --show / --propose / --accept-rules / --decline / --cap"),
            );
        },
    };
    let on: bool = match on_off(a, "--cap needs --on or --off") {
        Ok(on) => on,
        Err(u) => {
            return Err(u);
        },
    };
    match cap_id(name) {
        Ok(cap_id) => Ok(PolicyChoice::Cap { cap_id, on }),
        Err(u) => Err(u),
    }
}

// ---------------------------------------------------------------------------
// Profiles

/// What `profile` does.
#[derive(Clone, Copy, Debug, PartialEq, Eq, Structural)]
pub enum ProfileChoice {
    Store,
    Show,
    Broadcast,
    Request,
}

/// What `profile` does; of several operations, the first of this list.
pub open spec fn profiles(c: CommandLine) -> Option<ProfileChoice> {
    if c.has(Flag::SetProfile) {
        Some(ProfileChoice::Store)
    } else if c.has(Flag::Show) {
        Some(ProfileChoice::Show)
    } else if c.has(Flag::Broadcast) {
        Some(ProfileChoice::Broadcast)
    } else if c.has(Flag::Request) {
        Some(ProfileChoice::Request)
    } else {
        None
    }
}

/// What `profile` does.
pub fn profile_choice(a: &Args) -> (r: Result<ProfileChoice, Usage>)
    ensures
        match profiles(a@) {
            Some(choice) => r is Ok && r->Ok_0 == choice,
            None => r is Err && r->Err_0@ == Complaint::Because(
                "profile needs one of --set / --show / --broadcast / --request"@,
            ),
        },
{
    if a.has(Flag::SetProfile) {
        Ok(ProfileChoice::Store)
    } else if a.has(Flag::Show) {
        Ok(ProfileChoice::Show)
    } else if a.has(Flag::Broadcast) {
        Ok(ProfileChoice::Broadcast)
    } else if a.has(Flag::Request) {
        Ok(ProfileChoice::Request)
    } else {
        Err(usage_msg("profile needs one of --set / --show / --broadcast / --request"))
    }
}

// ---------------------------------------------------------------------------
// Stickers

/// What `sticker` does.
#[derive(Clone, Copy, Debug, PartialEq, Eq, Structural)]
pub enum StickerChoice {
    Create,
    List,
    Remove,
    Send,
    Fetch,
}

/// What `sticker` does; of several operations, the first of this list.
pub open spec fn stickers(c: CommandLine) -> Option<StickerChoice> {
    if c.has(Flag::Create) {
        Some(StickerChoice::Create)
    } else if c.has(Flag::List) {
        Some(StickerChoice::List)
    } else if c.has(Flag::Remove) {
        Some(StickerChoice::Remove)
    } else if c.has(Flag::Send) {
        Some(StickerChoice::Send)
    } else if c.has(Flag::Fetch) {
        Some(StickerChoice::Fetch)
    } else {
        None
    }
}

/// What `sticker` does.
pub fn sticker_choice(a: &Args) -> (r: Result<StickerChoice, Usage>)
    ensures
        match stickers(a@) {
            Some(choice) => r is Ok && r->Ok_0 == choice,
            None => r is Err && r->Err_0@ == Complaint::Because(
                "sticker needs --create / --list / --send / --fetch / --remove"@,
            ),
        },
{
    if a.has(Flag::Create) {
        Ok(StickerChoice::Create)
    } else if a.has(Flag::List) {
        Ok(StickerChoice::List)
    } else if a.has(Flag::Remove) {
        Ok(StickerChoice::Remove)
    } else if a.has(Flag::Send) {
        Ok(StickerChoice::Send)
    } else if a.has(Flag::Fetch) {
        Ok(StickerChoice::Fetch)
    } else {
        Err(usage_msg("sticker needs --create / --list / --send / --fetch / --remove"))
    }
}

/// The kind of a pack: emoji unless it says otherwise.
pub open spec fn pack_kind(v: Option<Seq<char>>) -> Option<u8> {
    match v {
        None => Some(KIND_EMOJI),
        Some(v) => if v == "emoji"@ {
            Some(KIND_EMOJI)
        } else if v == "sticker"@ {
            Some(KIND_STICKER)
        } else {
            None
        },
    }
}

/// A text that is there or not.
pub open spec fn said(v: Option<&str>) -> Option<Seq<char>> {
    match v {
        Some(v) => Some(v@),
        None => None,
    }
}

/// The kind of a pack.
pub fn parse_kind(v: Option<&str>) -> (r: Result<u8, Usage>)
    ensures
        match pack_kind(said(v)) {
            Some(kind) => r is Ok && r->Ok_0 == kind,
            None => r is Err && r->Err_0@ == Complaint::Because("--kind emoji|sticker"@),
        },
{
    match v {
        None => Ok(KIND_EMOJI),
        Some(v) => if same_text(v, "emoji") {
            Ok(KIND_EMOJI)
        } else if same_text(v, "sticker") {
            Ok(KIND_STICKER)
        } else {
            Err(usage_msg("--kind emoji|sticker"))
        },
    }
}

/// The kind of an image: a sticker unless it says otherwise.
pub open spec fn item_kind(v: Option<Seq<char>>) -> Option<u8> {
    match v {
        None => Some(KIND_STICKER),
        Some(v) => if v == "sticker"@ {
            Some(KIND_STICKER)
        } else if v == "emoji"@ {
            Some(KIND_EMOJI)
        } else {
            None
        },
    }
}

/// The kind of an image to prepare: a sticker unless it says otherwise.
pub fn parse_item_kind(v: Option<&str>) -> (r: Result<u8, Usage>)
    ensures
        match item_kind(said(v)) {
            Some(kind) => r is Ok && r->Ok_0 == kind,
            None => r is Err && r->Err_0@ == Complaint::Because("--kind sticker|emoji"@),
        },
{
    match v {
        None => Ok(KIND_STICKER),
        Some(v) => if same_text(v, "sticker") {
            Ok(KIND_STICKER)
        } else if same_text(v, "emoji") {
            Ok(KIND_EMOJI)
        } else {
            Err(usage_msg("--kind sticker|emoji"))
        },
    }
}

/// The visibility of a pack: public unless it says otherwise.
pub open spec fn pack_visibility(v: Option<Seq<char>>) -> Option<u8> {
    match v {
        None => Some(VISIBILITY_PUBLIC),
        Some(v) => if v == "public"@ {
            Some(VISIBILITY_PUBLIC)
        } else if v == "private"@ {
            Some(VISIBILITY_PRIVATE)
        } else {
            None
        },
    }
}

/// The visibility of a pack.
pub fn parse_visibility(v: Option<&str>) -> (r: Result<u8, Usage>)
    ensures
        match pack_visibility(said(v)) {
            Some(visibility) => r is Ok && r->Ok_0 == visibility,
            None => r is Err && r->Err_0@ == Complaint::Because("--visibility public|private"@),
        },
{
    match v {
        None => Ok(VISIBILITY_PUBLIC),
        Some(v) => if same_text(v, "public") {
            Ok(VISIBILITY_PUBLIC)
        } else if same_text(v, "private") {
            Ok(VISIBILITY_PRIVATE)
        } else {
            Err(usage_msg("--visibility public|private"))
        },
    }
}

/// A pack to make.
#[derive(Clone, Debug)]
pub struct NewPack {
    pub title: String,
    /// The image files, in order.
    pub files: Vec<String>,
    pub kind: u8,
    pub visibility: u8,
}

/// The first complaint about a pack to make, if there is one.
pub open spec fn pack_complaint(c: CommandLine) -> Option<Seq<char>> {
    if c.text(Flag::Title) is None {
        Some("--create needs --title T"@)
    } else if c.text(Flag::Files) is None {
        Some("--create needs --files A,B,.."@)
    } else if pack_kind(c.text(Flag::Kind)) is None {
        Some("--kind emoji|sticker"@)
    } else if pack_visibility(c.text(Flag::Visibility)) is None {
        Some("--visibility public|private"@)
    } else {
        None
    }
}

/// The pack that `sticker --create` makes.
pub fn create(a: &Args) -> (r: Result<NewPack, Usage>)
    ensures
        match pack_complaint(a@) {
            Some(why) => r is Err && r->Err_0@ == Complaint::Because(why),
            None => {
                &&& r is Ok
                &&& r->Ok_0.title@ == a@.text(Flag::Title)->0
                &&& r->Ok_0.files@.map_values(|p: String| p@) == text::split_commas(
                    a@.text(Flag::Files)->0,
                )
                &&& r->Ok_0.kind == pack_kind(a@.text(Flag::Kind))->0
                &&& r->Ok_0.visibility == pack_visibility(a@.text(Flag::Visibility))->0
            },
        },
{
    let title: &str = match needed(a, Flag::Title, "--create needs --title T") {
        Ok(t) => t,
        Err(u) => {
            return Err(u);
        },
    };
    let files: &str = match needed(a, Flag::Files, "--create needs --files A,B,..") {
        Ok(t) => t,
        Err(u) => {
            return Err(u);
        },
    };
    let kind: u8 = match parse_kind(a.text(Flag::Kind)) {
        Ok(k) => k,
        Err(u) => {
            return Err(u);
        },
    };
    let visibility: u8 = match parse_visibility(a.text(Flag::Visibility)) {
        Ok(v) => v,
        Err(u) => {
            return Err(u);
        },
    };
    Ok(NewPack { title: title.to_owned(), files: split_at_commas(files), kind, visibility })
}

// ---------------------------------------------------------------------------
// Attachments

/// The media type of a kind.
pub open spec fn mime_of(kind: MediaKind) -> Seq<char> {
    (if kind == MediaKind::Mp4 || kind == MediaKind::Webm {
        "video"@
    } else {
        "image"@
    }) + "/"@ + kind.name()
}

/// The media type of a kind.
pub fn mime_for(kind: MediaKind) -> (mime: String)
    ensures
        mime@ == mime_of(kind),
{
    let class: &str = if kind == MediaKind::Mp4 || kind == MediaKind::Webm {
        "video"
    } else {
        "image"
    };
    class.to_owned().concat("/").concat(kind.as_str())
}

/// Whether what `attach` sends is of a file's bytes, with what was said of it.
pub open spec fn attaches(
    spec: AttachmentSpec,
    bytes: Seq<u8>,
    ext: Seq<char>,
    caption: Option<Seq<char>>,
    view_once: bool,
) -> bool {
    let kind = sniff::kind_of(bytes);
    &&& spec.media_class == (if kind == MediaKind::Mp4 || kind == MediaKind::Webm {
        CLASS_VIDEO
    } else {
        CLASS_IMAGE
    })
    &&& spec.mime_hint@ == mime_of(kind)
    &&& spec.orig_ext@ == ext
    &&& spec.bytes@ == bytes
    &&& spec.caption@ == (match caption {
        Some(c) => c,
        None => Seq::empty(),
    })
    &&& spec.view_once == view_once
}

/// What `attach` sends: the class and type are those of the bytes, whatever
/// the file is called.
pub fn send(path: &str, bytes: Vec<u8>, ext: &str, caption: Option<&str>, view_once: bool) -> (r:
    Result<AttachmentSpec, String>)
    ensures
        ({
            let kind = sniff::kind_of(bytes@);
            if kind == MediaKind::Reject {
                r is Err && r->Err_0@ == path@ + ": unrecognized or disallowed media type"@
            } else {
                &&& r is Ok
                &&& attaches(r->Ok_0, bytes@, ext@, said(caption), view_once)
            }
        }),
{
    let kind: MediaKind = sniff(bytes.as_slice());
    if kind == MediaKind::Reject {
        return Err(path.to_owned().concat(": unrecognized or disallowed media type"));
    }
    let mime: String = mime_for(kind);
    let media_class: u8 = class_for_mime(mime.as_str());
    proof {
        reveal_strlit("video");
        reveal_strlit("image");
        reveal_strlit("/");
        reveal_strlit("video/");
        if kind == MediaKind::Mp4 || kind == MediaKind::Webm {
            assert(mime@.take(6) =~= "video/"@);
        } else {
            assert(mime@[0] == 'i');
            assert("video/"@[0] == 'v');
        }
    }
    let caption: String = match caption {
        Some(c) => c.to_owned(),
        None => String::new(),
    };
    Ok(
        AttachmentSpec {
            media_class,
            mime_hint: mime,
            orig_ext: ext.to_owned(),
            bytes,
            caption,
            view_once,
        },
    )
}

/// What is found of a file.
pub fn sniff_line(path: &str, bytes: &[u8]) -> (line: String)
    ensures
        line@ == path@ + ": "@ + sniff::kind_of(bytes@).name() + " ("@ + text::decimal(bytes@.len())
            + " bytes)"@,
{
    let mut line: String = path.to_owned().concat(": ").concat(sniff(bytes).as_str()).concat(" (");
    push_decimal(&mut line, bytes.len() as u64);
    line.concat(" bytes)")
}

/// The line for a file that was written.
pub fn wrote_line(size: usize, out: &str) -> (line: String)
    ensures
        line@ == "wrote "@ + text::decimal(size as nat) + " bytes to "@ + out@,
{
    let mut line: String = "wrote ".to_owned();
    push_decimal(&mut line, size as u64);
    line.concat(" bytes to ").concat(out)
}

/// The line for a stripped image.
pub fn strip_line(path: &str, before: usize, after: usize, out: &str) -> (line: String)
    ensures
        line@ == path@ + ": stripped + re-encoded "@ + text::decimal(before as nat) + " → "@
            + text::decimal(after as nat) + " bytes → "@ + out@,
{
    let mut line: String = path.to_owned().concat(": stripped + re-encoded ");
    push_decimal(&mut line, before as u64);
    line.append(" → ");
    push_decimal(&mut line, after as u64);
    line.concat(" bytes → ").concat(out)
}

/// The line for a prepared sticker.
pub fn prepared_line(path: &str, p: &PreparedSticker) -> (line: String)
    ensures
        line@ == path@ + ": prepared "@ + text::decimal(p.width as nat) + "x"@ + text::decimal(
            p.height as nat,
        ) + " item="@ + text::decimal(p.bytes@.len()) + " bytes thumb="@ + text::decimal(
            p.thumb@.len(),
        ) + " bytes"@,
{
    let mut line: String = path.to_owned().concat(": prepared ");
    push_decimal(&mut line, p.width as u64);
    line.append("x");
    push_decimal(&mut line, p.height as u64);
    line.append(" item=");
    push_decimal(&mut line, p.bytes.len() as u64);
    line.append(" bytes thumb=");
    push_decimal(&mut line, p.thumb.len() as u64);
    line.concat(" bytes")
}

/// Checks a key file.
pub fn check_key_file(path: &str, bytes: &[u8]) -> (r: Result<(), String>)
    ensures
        r is Ok <==> bytes@.len() == 32,
        r matches Err(why) ==> why@ == path@ + ": DEK must be 32 bytes"@,
{
    if bytes.len() != 32 {
        return Err(path.to_owned().concat(": DEK must be 32 bytes"));
    }
    Ok(())
}

// ---------------------------------------------------------------------------
// Laws

/// How a command is written.
pub open spec fn written(c: Command) -> Seq<char> {
    match c {
        Command::Ping => "ping"@,
        Command::Daemon => "daemon"@,
        Command::Send => "send"@,
        Command::Status => "status"@,
        Command::Pair => "pair"@,
        Command::Edit => "edit"@,
        Command::Delete => "delete"@,
        Command::Read => "read"@,
        Command::Typing => "typing"@,
        Command::Presence => "presence"@,
        Command::Thread => "thread"@,
        Command::Attach => "attach"@,
        Command::AttachSave => "attach-save"@,
        Command::Profile => "profile"@,
        Command::Policy => "policy"@,
        Command::Sticker => "sticker"@,
        Command::Close => "close"@,
        Command::Lock => "lock"@,
        Command::Unlock => "unlock"@,
        Command::PanicWipe => "panic-wipe"@,
        Command::SweepExpired => "sweep-expired"@,
        Command::MediaSniff => "media-sniff"@,
        Command::MediaStrip => "media-strip"@,
        Command::MediaPrepareSticker => "media-prepare-sticker"@,
    }
}

/// Each command is known by its word, and a word is no command but the one that is
/// written so.
pub proof fn commands_are_known_by_their_words(word: Seq<char>, c: Command)
    ensures
        command_of(word) matches Some(d) ==> word == written(d),
        command_of(written(c)) is Some,
        command_of(word) is None ==> word != written(c),
{
}

/// `pair` does only what was asked for. A file and a code at once are refused
/// unless an offer is asked for, which comes first.
pub proof fn pair_does_what_was_asked(c: CommandLine)
    ensures
        ({
            let file = c.text(Flag::Accept) is Some;
            let code = c.text(Flag::Code) is Some;
            let offer = c.has(Flag::Offer);
            &&& offer <==> pairs(c) == Ok::<PairChoice, Seq<char>>(PairChoice::Offer)
            &&& !offer && file && !code <==> pairs(c) == Ok::<PairChoice, Seq<char>>(
                PairChoice::AcceptFile,
            )
            &&& !offer && code && !file <==> pairs(c) == Ok::<PairChoice, Seq<char>>(
                PairChoice::AcceptCode,
            )
            &&& !offer && !file && !code && c.has(Flag::Requests) <==> pairs(c) == Ok::<
                PairChoice,
                Seq<char>,
            >(PairChoice::Requests)
            &&& !offer && !file && !code && !c.has(Flag::Requests) && c.has(Flag::AcceptRequest)
                <==> pairs(c) == Ok::<PairChoice, Seq<char>>(PairChoice::AcceptRequest)
            &&& !offer && !file && !code && !c.has(Flag::Requests) && !c.has(Flag::AcceptRequest)
                && c.has(Flag::Abort) <==> pairs(c) == Ok::<PairChoice, Seq<char>>(
                PairChoice::Abort,
            )
        }),
{
}

/// `policy` proposes only with all three rules given, and as given. A capability
/// is set only by its name, and only where exactly one of on and off is given.
pub proof fn policy_does_what_was_asked(c: CommandLine)
    ensures
        governs(c) matches Ok(PolicyChoice::Propose { ttl_sec, screenshot, attach_download }) ==> {
            &&& c.has(Flag::Propose)
            &&& c.number(Flag::Ttl) matches Some(n) && ttl_sec == n as u32
            &&& c.switch(Flag::Screenshot) == Some(screenshot)
            &&& c.switch(Flag::AttachDownload) == Some(attach_download)
        },
        c.has(Flag::Propose) && c.number(Flag::Ttl) is Some && c.switch(Flag::Screenshot) is Some
            && c.switch(Flag::AttachDownload) is Some ==> governs(c) is Ok && governs(
            c,
        )->Ok_0 is Propose,
        c.has(Flag::Propose) && governs(c) is Ok ==> governs(c)->Ok_0 is Propose,
        !c.has(Flag::Propose) && c.has(Flag::AcceptRules) <==> governs(c) == Ok::<
            PolicyChoice,
            Seq<char>,
        >(PolicyChoice::AcceptRules),
        !c.has(Flag::Propose) && !c.has(Flag::AcceptRules) && c.has(Flag::Decline) <==> governs(c)
            == Ok::<PolicyChoice, Seq<char>>(PolicyChoice::Decline),
        governs(c) matches Ok(PolicyChoice::Cap { cap_id, on }) ==> {
            &&& c.text(Flag::Cap) is Some
            &&& named_cap(c.text(Flag::Cap)->0) == Some(cap_id)
            &&& on ==> c.has(Flag::On) && !c.has(Flag::Off)
            &&& !on ==> c.has(Flag::Off) && !c.has(Flag::On)
        },
        !c.has(Flag::Propose) && !c.has(Flag::AcceptRules) && !c.has(Flag::Decline) && c.text(
            Flag::Cap,
        ) is Some && named_cap(c.text(Flag::Cap)->0) is Some && c.has(Flag::On) != c.has(Flag::Off)
            ==> governs(c) is Ok && governs(c)->Ok_0 is Cap,
{
}

/// Each capability has its names.
pub proof fn capabilities_have_their_names(name: Seq<char>)
    ensures
        named_cap(name) matches Some(id) ==> {
            &&& id == CAP_ID_ATTACH ==> name == "attach"@ || name == "attachments"@
            &&& id == CAP_ID_EMOJI ==> name == "emoji"@
            &&& id == CAP_ID_PRESENCE ==> name == "presence"@
            &&& id == CAP_ID_TYPING ==> name == "typing"@
            &&& id == CAP_ID_RECEIPTS ==> name == "receipts"@ || name == "read"@
            &&& id == CAP_ID_ATTACH || id == CAP_ID_EMOJI || id == CAP_ID_PRESENCE || id
                == CAP_ID_TYPING || id == CAP_ID_RECEIPTS
        },
        named_cap(name) is None ==> name != "attach"@ && name != "attachments"@ && name != "emoji"@
            && name != "presence"@ && name != "typing"@ && name != "receipts"@ && name != "read"@,
{
}

/// `profile` does only what was asked for; of several, the first counts.
pub proof fn profile_does_what_was_asked(c: CommandLine)
    ensures
        profiles(c) == Some(ProfileChoice::Store) <==> c.has(Flag::SetProfile),
        profiles(c) == Some(ProfileChoice::Show) <==> !c.has(Flag::SetProfile) && c.has(Flag::Show),
        profiles(c) == Some(ProfileChoice::Broadcast) <==> !c.has(Flag::SetProfile) && !c.has(Flag::Show) && c.has(Flag::Broadcast),
        profiles(c) == Some(ProfileChoice::Request) <==> !c.has(Flag::SetProfile) && !c.has(Flag::Show) && !c.has(Flag::Broadcast) && c.has(Flag::Request),
        profiles(c) is None <==> !c.has(Flag::SetProfile) && !c.has(Flag::Show) && !c.has(Flag::Broadcast) && !c.has(Flag::Request),
{
}

/// `sticker` does only what was asked for; of several, the first counts.
pub proof fn sticker_does_what_was_asked(c: CommandLine)
    ensures
        stickers(c) == Some(StickerChoice::Create) <==> c.has(Flag::Create),
        stickers(c) == Some(StickerChoice::List) <==> !c.has(Flag::Create) && c.has(Flag::List),
        stickers(c) == Some(StickerChoice::Remove) <==> !c.has(Flag::Create) && !c.has(Flag::List) && c.has(Flag::Remove),
        stickers(c) == Some(StickerChoice::Send) <==> !c.has(Flag::Create) && !c.has(Flag::List) && !c.has(Flag::Remove) && c.has(Flag::Send),
        stickers(c) == Some(StickerChoice::Fetch) <==> !c.has(Flag::Create) && !c.has(Flag::List) && !c.has(Flag::Remove) && !c.has(Flag::Send) && c.has(Flag::Fetch),
        stickers(c) is None <==> !c.has(Flag::Create) && !c.has(Flag::List) && !c.has(Flag::Remove) && !c.has(Flag::Send) && !c.has(Flag::Fetch),
{
}

/// A pack is of emoji and public unless it says otherwise, and what it says is a
/// word for one or the other.
pub proof fn packs_say_what_they_are(v: Seq<char>)
    ensures
        pack_kind(None) == Some(KIND_EMOJI),
        pack_kind(Some(v)) == Some(KIND_EMOJI) <==> v == "emoji"@,
        pack_kind(Some(v)) == Some(KIND_STICKER) <==> v == "sticker"@,
        pack_kind(Some(v)) is Some ==> v == "emoji"@ || v == "sticker"@,
        pack_visibility(None) == Some(VISIBILITY_PUBLIC),
        pack_visibility(Some(v)) == Some(VISIBILITY_PUBLIC) <==> v == "public"@,
        pack_visibility(Some(v)) == Some(VISIBILITY_PRIVATE) <==> v == "private"@,
        pack_visibility(Some(v)) is Some ==> v == "public"@ || v == "private"@,
{
    reveal_strlit("emoji");
    reveal_strlit("sticker");
    reveal_strlit("public");
    reveal_strlit("private");
    assert("emoji"@.len() != "sticker"@.len());
    assert("public"@.len() != "private"@.len());
}

/// A pack is made exactly if it has a title and files, and what it says of its
/// kind and visibility can be read.
pub proof fn packs_need_a_title_and_files(c: CommandLine)
    ensures
        pack_complaint(c) is None <==> c.text(Flag::Title) is Some && c.text(Flag::Files) is Some
            && pack_kind(c.text(Flag::Kind)) is Some && pack_visibility(
            c.text(Flag::Visibility),
        ) is Some,
{
}

/// A media type is of a video exactly if the bytes are.
pub proof fn media_types_name_their_class(kind: MediaKind)
    ensures
        mime_of(kind).take(6) == "video/"@ <==> kind == MediaKind::Mp4 || kind == MediaKind::Webm,
        mime_of(kind).take(6) == "image/"@ <==> kind != MediaKind::Mp4 && kind != MediaKind::Webm,
        mime_of(kind).skip(6) == kind.name(),
{
    reveal_strlit("video");
    reveal_strlit("image");
    reveal_strlit("/");
    reveal_strlit("video/");
    reveal_strlit("image/");
    assert("video/"@[0] != "image/"@[0]);
    assert(mime_of(kind).skip(6) =~= kind.name());
    if kind == MediaKind::Mp4 || kind == MediaKind::Webm {
        assert(mime_of(kind).take(6) =~= "video/"@);
    } else {
        assert(mime_of(kind).take(6) =~= "image/"@);
    }
}

/// What is said of a kind is taken alike for a pack and for an image. Where nothing
/// is said, a pack is of emoji and an image is a sticker.
pub proof fn packs_and_images_differ_by_default(v: Seq<char>)
    ensures
        item_kind(Some(v)) == pack_kind(Some(v)),
        item_kind(None) == Some(KIND_STICKER),
        pack_kind(None) == Some(KIND_EMOJI),
        KIND_STICKER != KIND_EMOJI,
{
    packs_say_what_they_are(v);
}

/// A file goes out as it is, with what was said of it, and as what its first bytes
/// say that it is. The class agrees with the media type.
pub proof fn files_are_attached_as_they_are(
    spec: AttachmentSpec,
    bytes: Seq<u8>,
    ext: Seq<char>,
    caption: Option<Seq<char>>,
    view_once: bool,
)
    requires
        attaches(spec, bytes, ext, caption, view_once),
    ensures
        spec.bytes@ == bytes,
        spec.orig_ext@ == ext,
        caption is Some ==> spec.caption@ == caption->0,
        caption is None ==> spec.caption@.len() == 0,
        spec.view_once == view_once,
        spec.media_class == CLASS_VIDEO <==> sniff::kind_of(bytes) == MediaKind::Mp4
            || sniff::kind_of(bytes) == MediaKind::Webm,
        spec.media_class == crate::attach::class_of(spec.mime_hint@),
{
    media_types_name_their_class(sniff::kind_of(bytes));
    reveal_strlit("video");
    reveal_strlit("image");
    reveal_strlit("/");
}

} // verus!
