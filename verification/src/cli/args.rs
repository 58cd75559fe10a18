//! Reading the command line.

use vstd::prelude::*;

use crate::bytes::to_array;
use crate::text::{self, hex_bytes, read_number, same_text};

verus! {

/// Why the command line is refused.
#[derive(Debug)]
pub enum Usage {
    /// There is no command.
    Bare,
    Because(String),
}

/// What a `Usage` says.
pub enum Complaint {
    Bare,
    Because(Seq<char>),
}

impl View for Usage {
    type V = Complaint;

    open spec fn view(&self) -> Complaint {
        match self {
            Usage::Bare => Complaint::Bare,
            Usage::Because(why) => Complaint::Because(why@),
        }
    }
}

/// Refuses the command line.
pub fn usage_msg(msg: &str) -> (u: Usage)
    ensures
        u@ == Complaint::Because(msg@),
{
    Usage::Because(msg.to_owned())
}

/// A flag.
#[derive(Clone, Copy, Debug, PartialEq, Eq, Structural)]
pub enum Flag {
    DataDir,
    ChutneyNodes,
    To,
    Text,
    Mode,
    Accept,
    Code,
    Out,
    Rel,
    MsgId,
    File,
    Caption,
    Name,
    Jpeg,
    Cap,
    Pack,
    Pk,
    Title,
    Files,
    Kind,
    Visibility,
    DekFile,
    Ttl,
    Item,
    Screenshot,
    AttachDownload,
    Alert,
    Once,
    Flap,
    Restricted,
    Offer,
    AcceptRequest,
    Requests,
    Abort,
    ViewOnce,
    On,
    Off,
    Dnd,
    Remove,
    List,
    Show,
    Broadcast,
    Request,
    Propose,
    Decline,
    SetProfile,
    Create,
    Send,
    Fetch,
    AcceptRules,
}

/// The flag that a word is.
pub open spec fn flag_of(word: Seq<char>) -> Option<Flag> {
    if word == "--data-dir"@ {
        Some(Flag::DataDir)
    } else if word == "--chutney-nodes"@ {
        Some(Flag::ChutneyNodes)
    } else if word == "--to"@ {
        Some(Flag::To)
    } else if word == "--text"@ {
        Some(Flag::Text)
    } else if word == "--mode"@ {
        Some(Flag::Mode)
    } else if word == "--accept"@ {
        Some(Flag::Accept)
    } else if word == "--code"@ {
        Some(Flag::Code)
    } else if word == "--out"@ {
        Some(Flag::Out)
    } else if word == "--rel"@ {
        Some(Flag::Rel)
    } else if word == "--msg-id"@ {
        Some(Flag::MsgId)
    } else if word == "--file"@ {
        Some(Flag::File)
    } else if word == "--caption"@ {
        Some(Flag::Caption)
    } else if word == "--name"@ {
        Some(Flag::Name)
    } else if word == "--jpeg"@ {
        Some(Flag::Jpeg)
    } else if word == "--cap"@ {
        Some(Flag::Cap)
    } else if word == "--pack"@ {
        Some(Flag::Pack)
    } else if word == "--pk"@ {
        Some(Flag::Pk)
    } else if word == "--title"@ {
        Some(Flag::Title)
    } else if word == "--files"@ {
        Some(Flag::Files)
    } else if word == "--kind"@ {
        Some(Flag::Kind)
    } else if word == "--visibility"@ {
        Some(Flag::Visibility)
    } else if word == "--dek-file"@ {
        Some(Flag::DekFile)
    } else if word == "--ttl"@ {
        Some(Flag::Ttl)
    } else if word == "--item"@ {
        Some(Flag::Item)
    } else if word == "--screenshot"@ {
        Some(Flag::Screenshot)
    } else if word == "--attach-download"@ {
        Some(Flag::AttachDownload)
    } else if word == "--alert"@ {
        Some(Flag::Alert)
    } else if word == "--once"@ {
        Some(Flag::Once)
    } else if word == "--simulate-network-flap"@ {
        Some(Flag::Flap)
    } else if word == "--restricted"@ {
        Some(Flag::Restricted)
    } else if word == "--offer"@ {
        Some(Flag::Offer)
    } else if word == "--accept-request"@ {
        Some(Flag::AcceptRequest)
    } else if word == "--requests"@ {
        Some(Flag::Requests)
    } else if word == "--abort"@ {
        Some(Flag::Abort)
    } else if word == "--view-once"@ {
        Some(Flag::ViewOnce)
    } else if word == "--on"@ {
        Some(Flag::On)
    } else if word == "--off"@ {
        Some(Flag::Off)
    } else if word == "--dnd"@ {
        Some(Flag::Dnd)
    } else if word == "--remove"@ {
        Some(Flag::Remove)
    } else if word == "--list"@ {
        Some(Flag::List)
    } else if word == "--show"@ {
        Some(Flag::Show)
    } else if word == "--broadcast"@ {
        Some(Flag::Broadcast)
    } else if word == "--request"@ {
        Some(Flag::Request)
    } else if word == "--propose"@ {
        Some(Flag::Propose)
    } else if word == "--decline"@ {
        Some(Flag::Decline)
    } else if word == "--set"@ {
        Some(Flag::SetProfile)
    } else if word == "--create"@ {
        Some(Flag::Create)
    } else if word == "--send"@ {
        Some(Flag::Send)
    } else if word == "--fetch"@ {
        Some(Flag::Fetch)
    } else if word == "--accept-rules"@ {
        Some(Flag::AcceptRules)
    } else {
        None
    }
}

/// The flag that a word is.
fn flag(word: &str) -> (f: Option<Flag>)
    ensures
        f == flag_of(word@),
{
    if same_text(word, "--data-dir") {
        Some(Flag::DataDir)
    } else if same_text(word, "--chutney-nodes") {
        Some(Flag::ChutneyNodes)
    } else if same_text(word, "--to") {
        Some(Flag::To)
    } else if same_text(word, "--text") {
        Some(Flag::Text)
    } else if same_text(word, "--mode") {
        Some(Flag::Mode)
    } else if same_text(word, "--accept") {
        Some(Flag::Accept)
    } else if same_text(word, "--code") {
        Some(Flag::Code)
    } else if same_text(word, "--out") {
        Some(Flag::Out)
    } else if same_text(word, "--rel") {
        Some(Flag::Rel)
    } else if same_text(word, "--msg-id") {
        Some(Flag::MsgId)
    } else if same_text(word, "--file") {
        Some(Flag::File)
    } else if same_text(word, "--caption") {
        Some(Flag::Caption)
    } else if same_text(word, "--name") {
        Some(Flag::Name)
    } else if same_text(word, "--jpeg") {
        Some(Flag::Jpeg)
    } else if same_text(word, "--cap") {
        Some(Flag::Cap)
    } else if same_text(word, "--pack") {
        Some(Flag::Pack)
    } else if same_text(word, "--pk") {
        Some(Flag::Pk)
    } else if same_text(word, "--title") {
        Some(Flag::Title)
    } else if same_text(word, "--files") {
        Some(Flag::Files)
    } else if same_text(word, "--kind") {
        Some(Flag::Kind)
    } else if same_text(word, "--visibility") {
        Some(Flag::Visibility)
    } else if same_text(word, "--dek-file") {
        Some(Flag::DekFile)
    } else if same_text(word, "--ttl") {
        Some(Flag::Ttl)
    } else if same_text(word, "--item") {
        Some(Flag::Item)
    } else if same_text(word, "--screenshot") {
        Some(Flag::Screenshot)
    } else if same_text(word, "--attach-download") {
        Some(Flag::AttachDownload)
    } else if same_text(word, "--alert") {
        Some(Flag::Alert)
    } else if same_text(word, "--once") {
        Some(Flag::Once)
    } else if same_text(word, "--simulate-network-flap") {
        Some(Flag::Flap)
    } else if same_text(word, "--restricted") {
        Some(Flag::Restricted)
    } else if same_text(word, "--offer") {
        Some(Flag::Offer)
    } else if same_text(word, "--accept-request") {
        Some(Flag::AcceptRequest)
    } else if same_text(word, "--requests") {
        Some(Flag::Requests)
    } else if same_text(word, "--abort") {
        Some(Flag::Abort)
    } else if same_text(word, "--view-once") {
        Some(Flag::ViewOnce)
    } else if same_text(word, "--on") {
        Some(Flag::On)
    } else if same_text(word, "--off") {
        Some(Flag::Off)
    } else if same_text(word, "--dnd") {
        Some(Flag::Dnd)
    } else if same_text(word, "--remove") {
        Some(Flag::Remove)
    } else if same_text(word, "--list") {
        Some(Flag::List)
    } else if same_text(word, "--show") {
        Some(Flag::Show)
    } else if same_text(word, "--broadcast") {
        Some(Flag::Broadcast)
    } else if same_text(word, "--request") {
        Some(Flag::Request)
    } else if same_text(word, "--propose") {
        Some(Flag::Propose)
    } else if same_text(word, "--decline") {
        Some(Flag::Decline)
    } else if same_text(word, "--set") {
        Some(Flag::SetProfile)
    } else if same_text(word, "--create") {
        Some(Flag::Create)
    } else if same_text(word, "--send") {
        Some(Flag::Send)
    } else if same_text(word, "--fetch") {
        Some(Flag::Fetch)
    } else if same_text(word, "--accept-rules") {
        Some(Flag::AcceptRules)
    } else {
        None
    }
}

/// How a flag is used.
#[derive(Clone, Copy, Debug, PartialEq, Eq, Structural)]
pub enum Shape {
    /// It stands alone.
    Switch,
    /// A text follows.
    Text,
    /// A number follows.
    Number,
    /// `on` or `off` follows.
    OnOff,
}

/// How a flag is used.
pub open spec fn shape_of(f: Flag) -> Shape {
    match f {
        Flag::Alert => Shape::Switch,
        Flag::Once => Shape::Switch,
        Flag::Flap => Shape::Switch,
        Flag::Restricted => Shape::Switch,
        Flag::Offer => Shape::Switch,
        Flag::AcceptRequest => Shape::Switch,
        Flag::Requests => Shape::Switch,
        Flag::Abort => Shape::Switch,
        Flag::ViewOnce => Shape::Switch,
        Flag::On => Shape::Switch,
        Flag::Off => Shape::Switch,
        Flag::Dnd => Shape::Switch,
        Flag::Remove => Shape::Switch,
        Flag::List => Shape::Switch,
        Flag::Show => Shape::Switch,
        Flag::Broadcast => Shape::Switch,
        Flag::Request => Shape::Switch,
        Flag::Propose => Shape::Switch,
        Flag::Decline => Shape::Switch,
        Flag::SetProfile => Shape::Switch,
        Flag::Create => Shape::Switch,
        Flag::Send => Shape::Switch,
        Flag::Fetch => Shape::Switch,
        Flag::AcceptRules => Shape::Switch,
        Flag::Ttl => Shape::Number,
        Flag::Item => Shape::Number,
        Flag::Screenshot => Shape::OnOff,
        Flag::AttachDownload => Shape::OnOff,
        _ => Shape::Text,
    }
}

/// How a flag is used.
fn shape(f: Flag) -> (s: Shape)
    ensures
        s == shape_of(f),
{
    match f {
        Flag::Alert => Shape::Switch,
        Flag::Once => Shape::Switch,
        Flag::Flap => Shape::Switch,
        Flag::Restricted => Shape::Switch,
        Flag::Offer => Shape::Switch,
        Flag::AcceptRequest => Shape::Switch,
        Flag::Requests => Shape::Switch,
        Flag::Abort => Shape::Switch,
        Flag::ViewOnce => Shape::Switch,
        Flag::On => Shape::Switch,
        Flag::Off => Shape::Switch,
        Flag::Dnd => Shape::Switch,
        Flag::Remove => Shape::Switch,
        Flag::List => Shape::Switch,
        Flag::Show => Shape::Switch,
        Flag::Broadcast => Shape::Switch,
        Flag::Request => Shape::Switch,
        Flag::Propose => Shape::Switch,
        Flag::Decline => Shape::Switch,
        Flag::SetProfile => Shape::Switch,
        Flag::Create => Shape::Switch,
        Flag::Send => Shape::Switch,
        Flag::Fetch => Shape::Switch,
        Flag::AcceptRules => Shape::Switch,
        Flag::Ttl => Shape::Number,
        Flag::Item => Shape::Number,
        Flag::Screenshot => Shape::OnOff,
        Flag::AttachDownload => Shape::OnOff,
        _ => Shape::Text,
    }
}

/// What is said of a flag.
pub enum Value {
    /// It is there.
    Switch,
    Text(Seq<char>),
    Number(nat),
    OnOff(bool),
}

/// A command line as it was read.
pub struct CommandLine {
    pub cmd: Seq<char>,
    /// The flags that are there, with what follows them.
    pub flags: Map<Flag, Value>,
}

impl CommandLine {
    /// With a flag, in place of any earlier one of its kind.
    pub open spec fn with(self, f: Flag, v: Value) -> CommandLine {
        CommandLine { flags: self.flags.insert(f, v), ..self }
    }

    /// Whether a flag is there.
    pub open spec fn has(self, f: Flag) -> bool {
        self.flags.dom().contains(f)
    }

    /// The text after a flag.
    pub open spec fn text(self, f: Flag) -> Option<Seq<char>> {
        if self.has(f) {
            match self.flags[f] {
                Value::Text(t) => Some(t),
                _ => None,
            }
        } else {
            None
        }
    }

    /// The number after a flag.
    pub open spec fn number(self, f: Flag) -> Option<nat> {
        if self.has(f) {
            match self.flags[f] {
                Value::Number(n) => Some(n),
                _ => None,
            }
        } else {
            None
        }
    }

    /// `on` or `off` after a flag.
    pub open spec fn switch(self, f: Flag) -> Option<bool> {
        if self.has(f) {
            match self.flags[f] {
                Value::OnOff(on) => Some(on),
                _ => None,
            }
        } else {
            None
        }
    }
}

/// `on` or `off`, in any of its spellings.
pub open spec fn on_off(v: Seq<char>) -> Option<bool> {
    if v == "on"@ || v == "true"@ || v == "1"@ || v == "yes"@ {
        Some(true)
    } else if v == "off"@ || v == "false"@ || v == "0"@ || v == "no"@ {
        Some(false)
    } else {
        None
    }
}

/// What a word is as the value of a flag, if it is one.
pub open spec fn value_of(f: Flag, word: Seq<char>) -> Option<Value> {
    match shape_of(f) {
        Shape::Number => match text::number(
            word,
            if f == Flag::Ttl {
                u32::MAX as nat
            } else {
                u16::MAX as nat
            },
        ) {
            Some(n) => Some(Value::Number(n)),
            None => None,
        },
        Shape::OnOff => match on_off(word) {
            Some(on) => Some(Value::OnOff(on)),
            None => None,
        },
        _ => Some(Value::Text(word)),
    }
}

/// The complaint about a value.
pub open spec fn value_complaint(f: Flag) -> Seq<char> {
    if f == Flag::Ttl {
        "--ttl needs seconds (0 = never)"@
    } else if f == Flag::Item {
        "--item needs a number"@
    } else {
        "expected on|off"@
    }
}

/// The flag that `on` or `off` after a capability stands for.
pub open spec fn cap_switch(word: Seq<char>) -> Option<Flag> {
    if word == "on"@ {
        Some(Flag::On)
    } else if word == "off"@ {
        Some(Flag::Off)
    } else {
        None
    }
}

/// The flag that follows the name of a capability without dashes, if one does.
pub open spec fn cap_follows(f: Flag, words: Seq<Seq<char>>) -> Option<Flag> {
    if f == Flag::Cap && words.len() >= 3 {
        cap_switch(words[2])
    } else {
        None
    }
}

/// Reads words, from the first on: each is a flag, or the value of the one
/// before it. After `--cap NAME` a bare `on` or `off` is the flag of that name.
pub open spec fn read(words: Seq<Seq<char>>, so_far: CommandLine) -> Result<CommandLine, Complaint>
    decreases words.len(),
{
    if words.len() == 0 {
        Ok(so_far)
    } else {
        match flag_of(words[0]) {
            None => Err(Complaint::Because("unknown flag "@ + words[0])),
            Some(f) => if shape_of(f) == Shape::Switch {
                read(words.skip(1), so_far.with(f, Value::Switch))
            } else if words.len() == 1 {
                Err(Complaint::Because(words[0] + " needs a value"@))
            } else {
                match value_of(f, words[1]) {
                    None => Err(Complaint::Because(value_complaint(f))),
                    Some(v) => match cap_follows(f, words) {
                        Some(g) => read(
                            words.skip(3),
                            so_far.with(f, v).with(g, Value::Switch),
                        ),
                        None => read(words.skip(2), so_far.with(f, v)),
                    },
                }
            },
        }
    }
}

/// A command line: the command, then flags.
pub open spec fn command_line(words: Seq<Seq<char>>) -> Result<CommandLine, Complaint> {
    if words.len() == 0 {
        Err(Complaint::Bare)
    } else {
        read(words.skip(1), CommandLine { cmd: words[0], flags: Map::empty() })
    }
}

/// What is said of a flag.
#[derive(Clone, Debug)]
pub enum Given {
    Switch,
    Text(String),
    Number(u32),
    OnOff(bool),
}

impl View for Given {
    type V = Value;

    open spec fn view(&self) -> Value {
        match self {
            Given::Switch => Value::Switch,
            Given::Text(t) => Value::Text(t@),
            Given::Number(n) => Value::Number(*n as nat),
            Given::OnOff(on) => Value::OnOff(*on),
        }
    }
}

/// The command line.
#[derive(Clone, Debug)]
pub struct Args {
    pub cmd: String,
    /// The flags, in order.
    pub given: Vec<(Flag, Given)>,
}

/// What a list of flags says: of two of a kind, the later one counts.
pub open spec fn flags_of(given: Seq<(Flag, Given)>) -> Map<Flag, Value>
    decreases given.len(),
{
    if given.len() == 0 {
        Map::empty()
    } else {
        flags_of(given.drop_last()).insert(given.last().0, given.last().1@)
    }
}

impl View for Args {
    type V = CommandLine;

    open spec fn view(&self) -> CommandLine {
        CommandLine { cmd: self.cmd@, flags: flags_of(self.given@) }
    }
}

impl Args {
    fn put(&mut self, f: Flag, v: Given)
        ensures
            final(self)@ == old(self)@.with(f, v@),
    {
        self.given.push((f, v));
        assert(self.given@.drop_last() =~= old(self).given@);
    }

    /// What is said of a flag.
    pub fn get(&self, f: Flag) -> (v: Option<&Given>)
        ensures
            v is Some <==> self@.has(f),
            v matches Some(v) ==> v@ == self@.flags[f],
    {
        let mut i: usize = self.given.len();
        assert(self.given@.take(i as int) =~= self.given@);
        while i > 0
            invariant
                i <= self.given@.len(),
                self@.has(f) == flags_of(self.given@.take(i as int)).dom().contains(f),
                self@.has(f) ==> self@.flags[f] == flags_of(self.given@.take(i as int))[f],
            decreases i,
        {
            i = i - 1;
            assert(self.given@.take(i + 1).drop_last() =~= self.given@.take(i as int));
            if self.given[i].0 == f {
                return Some(&self.given[i].1);
            }
        }
        None
    }

    /// Whether a flag is there.
    pub fn has(&self, f: Flag) -> (yes: bool)
        ensures
            yes == self@.has(f),
    {
        self.get(f).is_some()
    }

    /// The text after a flag.
    pub fn text(&self, f: Flag) -> (t: Option<&str>)
        ensures
            match t {
                Some(t) => self@.text(f) == Some(t@),
                None => self@.text(f) is None,
            },
    {
        match self.get(f) {
            Some(Given::Text(t)) => Some(t.as_str()),
            _ => None,
        }
    }

    /// The number after a flag.
    pub fn number(&self, f: Flag) -> (n: Option<u32>)
        ensures
            match n {
                Some(n) => self@.number(f) == Some(n as nat),
                None => self@.number(f) is None,
            },
    {
        match self.get(f) {
            Some(Given::Number(n)) => Some(*n),
            _ => None,
        }
    }

    /// `on` or `off` after a flag.
    pub fn switch(&self, f: Flag) -> (on: Option<bool>)
        ensures
            on == self@.switch(f),
    {
        match self.get(f) {
            Some(Given::OnOff(on)) => Some(*on),
            _ => None,
        }
    }

    /// The instance's directory: `./schat-data` unless another is named.
    pub fn data_dir(&self) -> (dir: &str)
        ensures
            dir@ == match self@.text(Flag::DataDir) {
                Some(dir) => dir,
                None => "./schat-data"@,
            },
    {
        match self.text(Flag::DataDir) {
            Some(dir) => dir,
            None => "./schat-data",
        }
    }
}

/// What words say.
pub open spec fn texts(words: Seq<String>) -> Seq<Seq<char>> {
    words.map_values(|w: String| w@)
}

/// What came of reading a command line.
pub open spec fn args_result(r: Result<Args, Usage>) -> Result<CommandLine, Complaint> {
    match r {
        Ok(a) => Ok(a@),
        Err(u) => Err(u@),
    }
}

/// The flag that `on` or `off` after a capability stands for.
fn cap_flag(word: &str) -> (f: Option<Flag>)
    ensures
        f == cap_switch(word@),
{
    if same_text(word, "on") {
        Some(Flag::On)
    } else if same_text(word, "off") {
        Some(Flag::Off)
    } else {
        None
    }
}

/// Reads the command line: the words after the program's name.
pub fn parse_args(words: &Vec<String>) -> (r: Result<Args, Usage>)
    ensures
        args_result(r) == command_line(texts(words@)),
{
    if words.len() == 0 {
        return Err(Usage::Bare);
    }
    let mut a: Args = Args { cmd: words[0].clone(), given: Vec::new() };
    let mut i: usize = 1;
    let ghost all = texts(words@);
    assert(all[0] == words@[0]@);
    while i < words.len()
        invariant
            1 <= i <= words@.len(),
            all == texts(words@),
            read(all.skip(i as int), a@) == command_line(all),
        decreases words.len() - i,
    {
        let ghost rest = all.skip(i as int);
        assert(rest[0] == words@[i as int]@);
        let f: Flag = match flag(words[i].as_str()) {
            Some(f) => f,
            None => {
                return Err(Usage::Because("unknown flag ".to_owned().concat(words[i].as_str())));
            },
        };
        let shape: Shape = shape(f);
        if shape == Shape::Switch {
            a.put(f, Given::Switch);
            assert(rest.skip(1) =~= all.skip(i + 1));
            i = i + 1;
            continue ;
        }
        if i + 1 == words.len() {
            return Err(Usage::Because(words[i].clone().concat(" needs a value")));
        }
        assert(rest[1] == words@[i + 1]@);
        assert(rest.skip(2) =~= all.skip(i + 2));
        let word: &str = words[i + 1].as_str();
        if shape == Shape::Text {
            a.put(f, Given::Text(word.to_owned()));
            if f == Flag::Cap && words.len() - i >= 3 {
                assert(rest[2] == words@[i + 2]@);
                assert(rest.skip(3) =~= all.skip(i + 3));
                if let Some(g) = cap_flag(words[i + 2].as_str()) {
                    a.put(g, Given::Switch);
                    i = i + 3;
                    continue ;
                }
            }
        } else if shape == Shape::Number {
            let max: u32 = if f == Flag::Ttl {
                u32::MAX
            } else {
                u16::MAX as u32
            };
            match read_number(word, max) {
                Some(n) => {
                    a.put(f, Given::Number(n));
                },
                None => {
                    return Err(
                        usage_msg(
                            if f == Flag::Ttl {
                                "--ttl needs seconds (0 = never)"
                            } else {
                                "--item needs a number"
                            },
                        ),
                    );
                },
            }
        } else {
            match parse_on_off(word) {
                Ok(on) => {
                    a.put(f, Given::OnOff(on));
                },
                Err(u) => {
                    return Err(u);
                },
            }
        }
        i = i + 2;
    }
    assert(all.skip(i as int) =~= Seq::empty());
    Ok(a)
}

/// Reads `on` or `off`.
pub fn parse_on_off(v: &str) -> (r: Result<bool, Usage>)
    ensures
        match on_off(v@) {
            Some(on) => r is Ok && r->Ok_0 == on,
            None => r is Err && r->Err_0@ == Complaint::Because("expected on|off"@),
        },
{
    if same_text(v, "on") || same_text(v, "true") || same_text(v, "1") || same_text(v, "yes") {
        Ok(true)
    } else if same_text(v, "off") || same_text(v, "false") || same_text(v, "0") || same_text(
        v,
        "no",
    ) {
        Ok(false)
    } else {
        Err(usage_msg("expected on|off"))
    }
}

// ---------------------------------------------------------------------------
// Ids

/// Reads an id of `N` bytes: twice as many hexadecimal digits, in either case.
pub fn hex_id<const N: usize>(s: &str) -> (r: Result<[u8; N], Usage>)
    ensures
        r is Ok <==> s@.len() == 2 * N && text::is_hex(s@),
        match r {
            Ok(id) => id@ == text::unhex(s@),
            Err(u) => u@ == Complaint::Because(
                if text::is_hex(s@) {
                    "hex id has the wrong length"@
                } else {
                    "invalid hex id"@
                },
            ),
        },
{
    match hex_bytes(s) {
        Some(b) => match to_array::<N>(b.as_slice()) {
            Some(id) => Ok(id),
            None => Err(usage_msg("hex id has the wrong length")),
        },
        None => Err(usage_msg("invalid hex id")),
    }
}

// ---------------------------------------------------------------------------
// Laws

/// Of two values for a flag, the later one counts.
pub proof fn later_values_win(f: Flag, first: Value, second: Value, so_far: CommandLine)
    ensures
        so_far.with(f, first).with(f, second) == so_far.with(f, second),
{
    assert(so_far.with(f, first).with(f, second).flags =~= so_far.with(f, second).flags);
}

/// Flags of different kinds may stand in either order.
pub proof fn flags_commute(f: Flag, v: Value, g: Flag, w: Value, so_far: CommandLine)
    requires
        f != g,
    ensures
        so_far.with(f, v).with(g, w) == so_far.with(g, w).with(f, v),
{
    assert(so_far.with(f, v).with(g, w).flags =~= so_far.with(g, w).with(f, v).flags);
}

/// Whether words end in `--cap NAME`, to which an `on` or `off` would still
/// belong.
pub open spec fn ends_in_cap(words: Seq<Seq<char>>) -> bool
    decreases words.len(),
{
    if words.len() == 0 {
        false
    } else {
        match flag_of(words[0]) {
            None => false,
            Some(f) => if shape_of(f) == Shape::Switch {
                ends_in_cap(words.skip(1))
            } else if words.len() < 2 {
                false
            } else if words.len() == 2 {
                f == Flag::Cap
            } else if cap_follows(f, words) is Some {
                ends_in_cap(words.skip(3))
            } else {
                ends_in_cap(words.skip(2))
            },
        }
    }
}

/// Reading in two steps is reading at once, unless the cut parts a capability
/// from its `on` or `off`: what stands before does not change how the rest is
/// read, but for what it says.
pub proof fn reading_goes_on(front: Seq<Seq<char>>, back: Seq<Seq<char>>, so_far: CommandLine)
    requires
        read(front, so_far) is Ok,
        ends_in_cap(front) && back.len() > 0 ==> cap_switch(back[0]) is None,
    ensures
        read(front + back, so_far) == read(back, read(front, so_far)->Ok_0),
    decreases front.len(),
{
    if front.len() == 0 {
        assert(front + back =~= back);
    } else {
        let all = front + back;
        assert(all[0] == front[0]);
        let f = flag_of(front[0])->0;
        if shape_of(f) == Shape::Switch {
            reading_goes_on(front.skip(1), back, so_far.with(f, Value::Switch));
            assert(all.skip(1) =~= front.skip(1) + back);
        } else {
            let v = value_of(f, front[1])->0;
            assert(all[1] == front[1]);
            if front.len() >= 3 {
                assert(all[2] == front[2]);
            } else if back.len() > 0 {
                assert(all[2] == back[0]);
            }
            match cap_follows(f, front) {
                Some(g) => {
                    reading_goes_on(
                        front.skip(3),
                        back,
                        so_far.with(f, v).with(g, Value::Switch),
                    );
                    assert(all.skip(3) =~= front.skip(3) + back);
                },
                None => {
                    reading_goes_on(front.skip(2), back, so_far.with(f, v));
                    assert(all.skip(2) =~= front.skip(2) + back);
                },
            }
        }
    }
}

/// How a flag is written.
pub open spec fn word_of(f: Flag) -> Seq<char> {
    match f {
        Flag::DataDir => "--data-dir"@,
        Flag::ChutneyNodes => "--chutney-nodes"@,
        Flag::To => "--to"@,
        Flag::Text => "--text"@,
        Flag::Mode => "--mode"@,
        Flag::Accept => "--accept"@,
        Flag::Code => "--code"@,
        Flag::Out => "--out"@,
        Flag::Rel => "--rel"@,
        Flag::MsgId => "--msg-id"@,
        Flag::File => "--file"@,
        Flag::Caption => "--caption"@,
        Flag::Name => "--name"@,
        Flag::Jpeg => "--jpeg"@,
        Flag::Cap => "--cap"@,
        Flag::Pack => "--pack"@,
        Flag::Pk => "--pk"@,
        Flag::Title => "--title"@,
        Flag::Files => "--files"@,
        Flag::Kind => "--kind"@,
        Flag::Visibility => "--visibility"@,
        Flag::DekFile => "--dek-file"@,
        Flag::Ttl => "--ttl"@,
        Flag::Item => "--item"@,
        Flag::Screenshot => "--screenshot"@,
        Flag::AttachDownload => "--attach-download"@,
        Flag::Alert => "--alert"@,
        Flag::Once => "--once"@,
        Flag::Flap => "--simulate-network-flap"@,
        Flag::Restricted => "--restricted"@,
        Flag::Offer => "--offer"@,
        Flag::AcceptRequest => "--accept-request"@,
        Flag::Requests => "--requests"@,
        Flag::Abort => "--abort"@,
        Flag::ViewOnce => "--view-once"@,
        Flag::On => "--on"@,
        Flag::Off => "--off"@,
        Flag::Dnd => "--dnd"@,
        Flag::Remove => "--remove"@,
        Flag::List => "--list"@,
        Flag::Show => "--show"@,
        Flag::Broadcast => "--broadcast"@,
        Flag::Request => "--request"@,
        Flag::Propose => "--propose"@,
        Flag::Decline => "--decline"@,
        Flag::SetProfile => "--set"@,
        Flag::Create => "--create"@,
        Flag::Send => "--send"@,
        Flag::Fetch => "--fetch"@,
        Flag::AcceptRules => "--accept-rules"@,
    }
}

/// Each flag is known by its word, and a word is no flag but the one that is
/// written so.
pub proof fn flags_are_known_by_their_words(word: Seq<char>, f: Flag)
    ensures
        flag_of(word) matches Some(g) ==> word == word_of(g),
        flag_of(word_of(f)) is Some,
        flag_of(word) is None ==> word != word_of(f),
{
}

/// A flag is followed by a number, by `on` or `off`, by a text, or by nothing of
/// its own.
pub proof fn flags_take_what_they_say(f: Flag)
    ensures
        shape_of(f) == Shape::Number <==> f == Flag::Ttl || f == Flag::Item,
        shape_of(f) == Shape::OnOff <==> f == Flag::Screenshot || f == Flag::AttachDownload,
        shape_of(f) == Shape::Text <==> f == Flag::DataDir || f == Flag::ChutneyNodes || f
            == Flag::To || f == Flag::Text || f == Flag::Mode || f == Flag::Accept || f == Flag::Code
            || f == Flag::Out || f == Flag::Rel || f == Flag::MsgId || f == Flag::File || f
            == Flag::Caption || f == Flag::Name || f == Flag::Jpeg || f == Flag::Cap || f
            == Flag::Pack || f == Flag::Pk || f == Flag::Title || f == Flag::Files || f == Flag::Kind
            || f == Flag::Visibility || f == Flag::DekFile,
{
}

/// Whether two command lines say the same but of one flag.
pub open spec fn same_but(a: CommandLine, b: CommandLine, f: Flag) -> bool {
    &&& a.cmd == b.cmd
    &&& forall|g: Flag|
        g != f ==> #[trigger] a.has(g) == b.has(g) && a.text(g) == b.text(g) && a.number(g)
            == b.number(g) && a.switch(g) == b.switch(g)
}

/// What a flag and the word after it say: the flag is there from then on, with the
/// text, the number or the `on` or `off` that follows it, and nothing else changes.
/// A value that is none, and a word that is no flag, are refused.
pub proof fn a_flag_says_what_follows_it(word: Seq<char>, value: Seq<char>, so_far: CommandLine)
    ensures
        flag_of(word) is None ==> read(seq![word], so_far) is Err,
        flag_of(word) matches Some(f) ==> {
            let bare = read(seq![word], so_far);
            let said = read(seq![word, value], so_far);
            &&& shape_of(f) == Shape::Switch <==> bare is Ok
            &&& shape_of(f) == Shape::Switch ==> bare->Ok_0.has(f) && same_but(
                bare->Ok_0,
                so_far,
                f,
            )
            &&& shape_of(f) != Shape::Switch && said is Ok ==> said->Ok_0.has(f) && same_but(
                said->Ok_0,
                so_far,
                f,
            )
            &&& shape_of(f) == Shape::Text ==> said is Ok && said->Ok_0.text(f) == Some(value)
            &&& f == Flag::Ttl ==> (said is Ok <==> text::number(value, 4_294_967_295) is Some)
            &&& f == Flag::Item ==> (said is Ok <==> text::number(value, 65_535) is Some)
            &&& f == Flag::Ttl && said is Ok ==> said->Ok_0.number(f) == text::number(
                value,
                4_294_967_295,
            )
            &&& f == Flag::Item && said is Ok ==> said->Ok_0.number(f) == text::number(
                value,
                65_535,
            )
            &&& shape_of(f) == Shape::OnOff ==> (said is Ok <==> is_on(value) || is_off(value))
            &&& shape_of(f) == Shape::OnOff && is_on(value) ==> said->Ok_0.switch(f) == Some(true)
            &&& shape_of(f) == Shape::OnOff && is_off(value) ==> said->Ok_0.switch(f) == Some(
                false,
            )
        },
{
    reveal_with_fuel(read, 3);
    let one = seq![word];
    let two = seq![word, value];
    assert(one.skip(1) =~= Seq::empty());
    assert(two.skip(2) =~= Seq::empty());
    on_is_not_off(value);
}

/// The words for `on`.
pub open spec fn is_on(v: Seq<char>) -> bool {
    v == "on"@ || v == "true"@ || v == "1"@ || v == "yes"@
}

/// The words for `off`.
pub open spec fn is_off(v: Seq<char>) -> bool {
    v == "off"@ || v == "false"@ || v == "0"@ || v == "no"@
}

proof fn on_is_not_off(v: Seq<char>)
    ensures
        !(is_on(v) && is_off(v)),
{
    reveal_strlit("on");
    reveal_strlit("true");
    reveal_strlit("1");
    reveal_strlit("yes");
    reveal_strlit("off");
    reveal_strlit("false");
    reveal_strlit("0");
    reveal_strlit("no");
    assert("on"@.len() != "off"@.len());
    assert("on"@[0] == 'o' && "true"@[0] == 't' && "1"@[0] == '1' && "yes"@[0] == 'y');
    assert("off"@[0] == 'o' && "false"@[0] == 'f' && "0"@[0] == '0' && "no"@[0] == 'n');
}

/// `--cap NAME on` and `--cap NAME off` say what `--on` and `--off` would.
pub proof fn a_capability_is_switched_by_the_next_word(
    word: Seq<char>,
    name: Seq<char>,
    so_far: CommandLine,
)
    requires
        flag_of(word) == Some(Flag::Cap),
    ensures
        ({
            let on = read(seq![word, name, "on"@], so_far);
            let off = read(seq![word, name, "off"@], so_far);
            &&& on is Ok && on->Ok_0.text(Flag::Cap) == Some(name) && on->Ok_0.has(Flag::On)
            &&& off is Ok && off->Ok_0.text(Flag::Cap) == Some(name) && off->Ok_0.has(Flag::Off)
            &&& on->Ok_0.has(Flag::Off) == so_far.has(Flag::Off)
            &&& off->Ok_0.has(Flag::On) == so_far.has(Flag::On)
        }),
{
    reveal_with_fuel(read, 3);
    reveal_strlit("on");
    reveal_strlit("off");
    let on = seq![word, name, "on"@];
    let off = seq![word, name, "off"@];
    assert("on"@.len() != "off"@.len());
    assert(on.skip(3) =~= Seq::empty());
    assert(off.skip(3) =~= Seq::empty());
}

/// The first word is the command, and nothing is said before the second.
pub proof fn the_first_word_is_the_command(words: Seq<Seq<char>>)
    ensures
        words.len() == 0 ==> command_line(words) is Err,
        words.len() == 1 ==> {
            &&& command_line(words) is Ok
            &&& command_line(words)->Ok_0.cmd == words[0]
            &&& forall|f: Flag| !(#[trigger] command_line(words)->Ok_0.has(f))
        },
{
}

} // verus!
