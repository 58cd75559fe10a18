//! Media: sniffing, stripping, stickers and animations. Everything here is
//! bytes in, bytes out.

use vstd::prelude::*;

use crate::text;

pub mod gifenc;
pub mod photo;
pub mod sniff;
pub mod sticker;

verus! {

/// Why a blob could not be prepared.
#[derive(Debug)]
pub enum MediaError {
    /// Not a kind that the operation takes.
    Unsupported(&'static str),
    Decode(String),
    Encode(String),
    TooLarge { size: usize, max: usize },
}

/// What a `MediaError` says.
pub enum MediaFault {
    Unsupported(Seq<char>),
    Decode(Seq<char>),
    Encode(Seq<char>),
    TooLarge { size: usize, max: usize },
}

impl View for MediaError {
    type V = MediaFault;

    open spec fn view(&self) -> MediaFault {
        match self {
            MediaError::Unsupported(what) => MediaFault::Unsupported(what@),
            MediaError::Decode(why) => MediaFault::Decode(why@),
            MediaError::Encode(why) => MediaFault::Encode(why@),
            MediaError::TooLarge { size, max } => MediaFault::TooLarge { size: *size, max: *max },
        }
    }
}

impl MediaError {
    /// The message for a person.
    pub fn message(&self) -> (text: String)
        ensures
            text@ == match self@ {
                MediaFault::Unsupported(what) => "unsupported media: "@ + what,
                MediaFault::Decode(why) => "decode: "@ + why,
                MediaFault::Encode(why) => "encode: "@ + why,
                MediaFault::TooLarge { size, max } => "too large: "@ + text::decimal(
                    size as nat,
                ) + " bytes (max "@ + text::decimal(max as nat) + ")"@,
            },
    {
        match self {
            MediaError::Unsupported(what) => "unsupported media: ".to_owned().concat(what),
            MediaError::Decode(why) => "decode: ".to_owned().concat(why.as_str()),
            MediaError::Encode(why) => "encode: ".to_owned().concat(why.as_str()),
            MediaError::TooLarge { size, max } => {
                let mut text: String = "too large: ".to_owned();
                crate::text::push_decimal(&mut text, *size as u64);
                text.append(" bytes (max ");
                crate::text::push_decimal(&mut text, *max as u64);
                text.append(")");
                text
            },
        }
    }
}

} // verus!
