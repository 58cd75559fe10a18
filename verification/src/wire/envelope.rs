//! Envelope types.

use vstd::prelude::*;

verus! {

/// What an envelope carries.
#[derive(Clone, Copy, Debug, PartialEq, Eq, Structural, Hash)]
pub enum EnvelopeType {
    Msg,
    Edit,
    Delete,
    DeleteAll,
    ResyncReq,
    AttachHead,
    AttachChunk,
    ContactClose,
    Profile,
    Pref,
    ProfileReq,
    Sticker,
    StickerCtrl,
    Presence,
    ChatPolicy,
    Typing,
    Read,
}

/// The type's code on the wire and in the ledger.
pub open spec fn type_code(t: EnvelopeType) -> u8 {
    match t {
        EnvelopeType::Msg => 1,
        EnvelopeType::Edit => 2,
        EnvelopeType::Delete => 3,
        EnvelopeType::DeleteAll => 4,
        EnvelopeType::ResyncReq => 5,
        EnvelopeType::AttachHead => 6,
        EnvelopeType::AttachChunk => 7,
        EnvelopeType::ContactClose => 8,
        EnvelopeType::Profile => 9,
        EnvelopeType::Pref => 10,
        EnvelopeType::ProfileReq => 11,
        EnvelopeType::Sticker => 12,
        EnvelopeType::StickerCtrl => 13,
        EnvelopeType::Presence => 14,
        EnvelopeType::ChatPolicy => 15,
        EnvelopeType::Typing => 16,
        EnvelopeType::Read => 17,
    }
}

/// The type's name.
pub open spec fn name_of(t: EnvelopeType) -> Seq<char> {
    match t {
        EnvelopeType::Msg => "Msg"@,
        EnvelopeType::Edit => "Edit"@,
        EnvelopeType::Delete => "Delete"@,
        EnvelopeType::DeleteAll => "DeleteAll"@,
        EnvelopeType::ResyncReq => "ResyncReq"@,
        EnvelopeType::AttachHead => "AttachHead"@,
        EnvelopeType::AttachChunk => "AttachChunk"@,
        EnvelopeType::ContactClose => "ContactClose"@,
        EnvelopeType::Profile => "Profile"@,
        EnvelopeType::Pref => "Pref"@,
        EnvelopeType::ProfileReq => "ProfileReq"@,
        EnvelopeType::Sticker => "Sticker"@,
        EnvelopeType::StickerCtrl => "StickerCtrl"@,
        EnvelopeType::Presence => "Presence"@,
        EnvelopeType::ChatPolicy => "ChatPolicy"@,
        EnvelopeType::Typing => "Typing"@,
        EnvelopeType::Read => "Read"@,
    }
}

impl EnvelopeType {
    /// The type's name.
    pub fn name(self) -> (name: &'static str)
        ensures
            name@ == name_of(self),
    {
        match self {
            EnvelopeType::Msg => "Msg",
            EnvelopeType::Edit => "Edit",
            EnvelopeType::Delete => "Delete",
            EnvelopeType::DeleteAll => "DeleteAll",
            EnvelopeType::ResyncReq => "ResyncReq",
            EnvelopeType::AttachHead => "AttachHead",
            EnvelopeType::AttachChunk => "AttachChunk",
            EnvelopeType::ContactClose => "ContactClose",
            EnvelopeType::Profile => "Profile",
            EnvelopeType::Pref => "Pref",
            EnvelopeType::ProfileReq => "ProfileReq",
            EnvelopeType::Sticker => "Sticker",
            EnvelopeType::StickerCtrl => "StickerCtrl",
            EnvelopeType::Presence => "Presence",
            EnvelopeType::ChatPolicy => "ChatPolicy",
            EnvelopeType::Typing => "Typing",
            EnvelopeType::Read => "Read",
        }
    }

    /// The type's code.
    pub fn code(self) -> (code: u8)
        ensures
            code == type_code(self),
    {
        match self {
            EnvelopeType::Msg => 1,
            EnvelopeType::Edit => 2,
            EnvelopeType::Delete => 3,
            EnvelopeType::DeleteAll => 4,
            EnvelopeType::ResyncReq => 5,
            EnvelopeType::AttachHead => 6,
            EnvelopeType::AttachChunk => 7,
            EnvelopeType::ContactClose => 8,
            EnvelopeType::Profile => 9,
            EnvelopeType::Pref => 10,
            EnvelopeType::ProfileReq => 11,
            EnvelopeType::Sticker => 12,
            EnvelopeType::StickerCtrl => 13,
            EnvelopeType::Presence => 14,
            EnvelopeType::ChatPolicy => 15,
            EnvelopeType::Typing => 16,
            EnvelopeType::Read => 17,
        }
    }

    /// The type with a code, or `None` where no type has it.
    pub fn from_code(code: u8) -> (t: Option<EnvelopeType>)
        ensures
            match t {
                Some(t) => type_code(t) == code,
                None => forall|t: EnvelopeType| #[trigger] type_code(t) != code,
            },
    {
        match code {
            1 => Some(EnvelopeType::Msg),
            2 => Some(EnvelopeType::Edit),
            3 => Some(EnvelopeType::Delete),
            4 => Some(EnvelopeType::DeleteAll),
            5 => Some(EnvelopeType::ResyncReq),
            6 => Some(EnvelopeType::AttachHead),
            7 => Some(EnvelopeType::AttachChunk),
            8 => Some(EnvelopeType::ContactClose),
            9 => Some(EnvelopeType::Profile),
            10 => Some(EnvelopeType::Pref),
            11 => Some(EnvelopeType::ProfileReq),
            12 => Some(EnvelopeType::Sticker),
            13 => Some(EnvelopeType::StickerCtrl),
            14 => Some(EnvelopeType::Presence),
            15 => Some(EnvelopeType::ChatPolicy),
            16 => Some(EnvelopeType::Typing),
            17 => Some(EnvelopeType::Read),
            _ => None,
        }
    }
}

/// No two types share a code.
pub proof fn type_codes_differ(a: EnvelopeType, b: EnvelopeType)
    requires
        type_code(a) == type_code(b),
    ensures
        a == b,
{
}

/// The codes count from one, without gaps, in the order of the types.
pub proof fn codes_count_from_one(t: EnvelopeType)
    ensures
        1 <= type_code(t) <= 17,
        type_code(t) == 1 <==> t == EnvelopeType::Msg,
        type_code(EnvelopeType::Edit) == type_code(EnvelopeType::Msg) + 1,
        type_code(EnvelopeType::Delete) == type_code(EnvelopeType::Edit) + 1,
        type_code(EnvelopeType::DeleteAll) == type_code(EnvelopeType::Delete) + 1,
        type_code(EnvelopeType::ResyncReq) == type_code(EnvelopeType::DeleteAll) + 1,
        type_code(EnvelopeType::AttachHead) == type_code(EnvelopeType::ResyncReq) + 1,
        type_code(EnvelopeType::AttachChunk) == type_code(EnvelopeType::AttachHead) + 1,
        type_code(EnvelopeType::ContactClose) == type_code(EnvelopeType::AttachChunk) + 1,
        type_code(EnvelopeType::Profile) == type_code(EnvelopeType::ContactClose) + 1,
        type_code(EnvelopeType::Pref) == type_code(EnvelopeType::Profile) + 1,
        type_code(EnvelopeType::ProfileReq) == type_code(EnvelopeType::Pref) + 1,
        type_code(EnvelopeType::Sticker) == type_code(EnvelopeType::ProfileReq) + 1,
        type_code(EnvelopeType::StickerCtrl) == type_code(EnvelopeType::Sticker) + 1,
        type_code(EnvelopeType::Presence) == type_code(EnvelopeType::StickerCtrl) + 1,
        type_code(EnvelopeType::ChatPolicy) == type_code(EnvelopeType::Presence) + 1,
        type_code(EnvelopeType::Typing) == type_code(EnvelopeType::ChatPolicy) + 1,
        type_code(EnvelopeType::Read) == type_code(EnvelopeType::Typing) + 1,
{
}

} // verus!
