//! Profiles: the name and picture that the two sides share.

use vstd::prelude::*;
use vstd::utf8::{decode_utf8, valid_utf8};

use crate::bytes::same_bytes;
use crate::engine::{EngineError, EngineFault};
use crate::engine::send::Outgoing;
use crate::media::photo::MAX_PROFILE_JPEG;
use crate::media::sniff::{self, has_tag};
use crate::pairing::STATE_ACTIVE;
use crate::pairing::relationship::Relationship;
use crate::text::same_text;
use crate::wire::envelope::EnvelopeType;

verus! {

/// A name and a picture, either of which may be empty.
#[derive(Clone, Debug, PartialEq, Eq)]
pub struct Profile {
    pub name: String,
    pub jpeg: Vec<u8>,
}

/// Whether a profile is another than the one on record.
pub open spec fn differs(prev: Option<Profile>, p: Profile) -> bool {
    match prev {
        Some(on_record) => on_record.name@ != p.name@ || on_record.jpeg@ != p.jpeg@,
        None => true,
    }
}

/// Takes an inbound profile: whether it differs from the one on record, and
/// so replaces it.
pub fn apply_inbound(prev: Option<&Profile>, p: &Profile) -> (changed: bool)
    ensures
        changed == differs(
            match prev {
                Some(on_record) => Some(*on_record),
                None => None,
            },
            *p,
        ),
{
    match prev {
        Some(old_profile) => {
            !same_text(old_profile.name.as_str(), p.name.as_str()) || !same_bytes(
                old_profile.jpeg.as_slice(),
                p.jpeg.as_slice(),
            )
        },
        None => true,
    }
}

/// `String::from_utf8`: the text that bytes encode; `None` where they are not
/// UTF-8.
#[verifier::external_body]
fn text_of(bytes: Vec<u8>) -> (text: Option<String>)
    ensures
        text is Some <==> valid_utf8(bytes@),
        text matches Some(t) ==> t@ == decode_utf8(bytes@),
{
    String::from_utf8(bytes).ok()
}

/// This side's profile, from its two settings. What is not set, or is not
/// text, is empty.
pub fn our_profile(name: Option<Vec<u8>>, jpeg: Option<Vec<u8>>) -> (p: Profile)
    ensures
        p.name@ == match name {
            Some(b) => if valid_utf8(b@) {
                decode_utf8(b@)
            } else {
                Seq::empty()
            },
            None => Seq::empty(),
        },
        p.jpeg@ == match jpeg {
            Some(b) => b@,
            None => Seq::empty(),
        },
{
    let name: String = match name {
        Some(b) => match text_of(b) {
            Some(t) => t,
            None => String::new(),
        },
        None => String::new(),
    };
    let jpeg: Vec<u8> = match jpeg {
        Some(b) => b,
        None => Vec::new(),
    };
    Profile { name, jpeg }
}

/// Why a profile of this side is refused, if it is.
pub open spec fn profile_refusal(named: bool, jpeg: Seq<u8>) -> Option<Seq<char>> {
    if !named {
        Some("profile name fails nfc/length/control rules"@)
    } else if jpeg.len() > MAX_PROFILE_JPEG {
        Some("profile jpeg over 24 KiB"@)
    } else if jpeg.len() > 0 && !sniff::tagged(jpeg, 0, seq![0xffu8, 0xd8, 0xff]) {
        Some("profile picture is no jpeg"@)
    } else {
        None
    }
}

/// Checks a profile of this side: the name as it was normalised, `None` where
/// it breaks the rules for names, and the picture, which is empty or a JPEG that
/// fits the wire.
pub fn set_our_profile(normalized: Option<&str>, jpeg: &[u8]) -> (r: Result<(), EngineError>)
    ensures
        match profile_refusal(normalized is Some, jpeg@) {
            Some(why) => r is Err && r->Err_0@ == EngineFault::EditDenied(why),
            None => r is Ok,
        },
{
    if normalized.is_none() {
        return Err(EngineError::EditDenied("profile name fails nfc/length/control rules"));
    }
    if jpeg.len() > MAX_PROFILE_JPEG {
        return Err(EngineError::EditDenied("profile jpeg over 24 KiB"));
    }
    let magic: [u8; 3] = [0xff, 0xd8, 0xff];
    assert(magic@ =~= seq![0xffu8, 0xd8, 0xff]);
    if jpeg.len() > 0 && !has_tag(jpeg, 0, &magic) {
        return Err(EngineError::EditDenied("profile picture is no jpeg"));
    }
    Ok(())
}

/// The envelope of a profile; none without a name.
pub open spec fn profile_envelope(name: Seq<char>) -> Option<Outgoing> {
    if name.len() == 0 {
        None
    } else {
        Some(Outgoing::quiet(EnvelopeType::Profile, None))
    }
}

/// This side's profile, to share with a peer; `None` where it has no name.
pub fn send_profile(p: &Profile) -> (out: Option<Outgoing>)
    ensures
        out == profile_envelope(p.name@),
{
    proof {
        reveal_strlit("");
        if p.name@.len() == 0 {
            assert(p.name@ =~= ""@);
        }
    }
    if same_text(p.name.as_str(), "") {
        return None;
    }
    Some(Outgoing { t: EnvelopeType::Profile, ref_id: None, alert: false })
}

/// A request for the peer's profile.
pub fn send_profile_req() -> (out: Outgoing)
    ensures
        out == Outgoing::quiet(EnvelopeType::ProfileReq, None),
{
    Outgoing { t: EnvelopeType::ProfileReq, ref_id: None, alert: false }
}

/// This side's receive preferences, for a peer.
pub fn send_prefs() -> (out: Outgoing)
    ensures
        out == Outgoing::quiet(EnvelopeType::Pref, None),
{
    Outgoing { t: EnvelopeType::Pref, ref_id: None, alert: false }
}

/// The relationships that are active, in order.
pub open spec fn active(rels: Seq<Relationship>) -> Seq<Seq<char>>
    decreases rels.len(),
{
    if rels.len() == 0 {
        Seq::empty()
    } else if rels.last()@.state == STATE_ACTIVE@ {
        active(rels.drop_last()).push(rels.last()@.rel_id)
    } else {
        active(rels.drop_last())
    }
}

/// The relationships that a broadcast goes to: the active ones, in order.
pub fn broadcast_profile(rels: &Vec<Relationship>) -> (ids: Vec<String>)
    ensures
        ids@.map_values(|s: String| s@) == active(rels@),
{
    let mut ids: Vec<String> = Vec::new();
    let mut i: usize = 0;
    assert(rels@.take(0) =~= Seq::empty());
    assert(ids@.map_values(|s: String| s@) =~= active(rels@.take(0)));
    while i < rels.len()
        invariant
            i <= rels@.len(),
            ids@.map_values(|s: String| s@) == active(rels@.take(i as int)),
        decreases rels.len() - i,
    {
        let ghost before = ids@;
        assert(rels@.take(i + 1).drop_last() =~= rels@.take(i as int));
        if same_text(rels[i].state.as_str(), STATE_ACTIVE) {
            ids.push(rels[i].rel_id.clone());
            assert(ids@.map_values(|s: String| s@) =~= before.map_values(|s: String| s@).push(
                rels@[i as int]@.rel_id,
            ));
        }
        i = i + 1;
    }
    assert(rels@.take(rels@.len() as int) =~= rels@);
    ids
}

/// The active relationships are those whose state says so, each by its id.
pub proof fn only_the_active_are_listed(rels: Seq<Relationship>)
    ensures
        active(rels).len() == rels.filter(|r: Relationship| r@.state == "active"@).len(),
        forall|k: int|
            0 <= k < active(rels).len() ==> #[trigger] active(rels)[k] == rels.filter(
                |r: Relationship| r@.state == "active"@,
            )[k]@.rel_id,
    decreases rels.len(),
{
    reveal(Seq::filter);
    if rels.len() > 0 {
        only_the_active_are_listed(rels.drop_last());
    }
}

/// A profile replaces the one on record exactly if its name or its picture is
/// another; the first always does.
pub proof fn only_new_profiles_replace(prev: Profile, p: Profile)
    ensures
        differs(None, p),
        differs(Some(prev), p) <==> !(prev.name@ == p.name@ && prev.jpeg@ == p.jpeg@),
        !differs(Some(p), p),
        differs(Some(prev), p) == differs(Some(p), prev),
{
}

/// A profile passes exactly if its name does and its picture is empty or a JPEG of
/// no more than 24,576 bytes, which fits what a peer takes.
pub proof fn profile_pictures_are_small_jpegs(named: bool, jpeg: Seq<u8>)
    ensures
        profile_refusal(named, jpeg) is None <==> named && (jpeg.len() == 0 || jpeg.len() <= 24_576
            && sniff::is_jpeg(jpeg)),
{
    sniff::tag_stands(jpeg, 0, seq![0xffu8, 0xd8, 0xff]);
}

/// A profile is shared exactly if it has a name.
pub proof fn nameless_profiles_are_not_shared(name: Seq<char>)
    ensures
        profile_envelope(name) is Some <==> name.len() > 0,
        profile_envelope(name) matches Some(out) ==> out.t == EnvelopeType::Profile && out.ref_id
            is None && !out.alert,
{
}

} // verus!
