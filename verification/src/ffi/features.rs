//! Attachments, profiles, policy and sticker packs as a client sees them.

use vstd::prelude::*;

use crate::attach::AttachmentSpec;
use crate::engine;
use crate::ffi::{CoreError, CoreFault};
use crate::media::MediaError;
use crate::media::sticker::{self, prepare_sticker, PreparedSticker};
use crate::policy::PolicyState;
use crate::profile::Profile;
use crate::text::{self, hex_text};
use crate::util::{self, sha256};

verus! {

/// What a client sends.
#[derive(Clone, Debug)]
pub struct AttachmentSpecFfi {
    pub media_class: u8,
    pub mime_hint: String,
    pub orig_ext: String,
    pub bytes: Vec<u8>,
    pub caption: String,
    pub view_once: bool,
}

/// The two profiles of a relationship for a client.
#[derive(Clone, Debug)]
pub struct ProfilePairFfi {
    pub local_name: String,
    pub local_jpeg: Vec<u8>,
    pub peer_name: Option<String>,
    pub peer_jpeg: Option<Vec<u8>>,
}

/// The policy of a relationship for a client.
#[derive(Clone, Debug)]
pub struct PolicyFfi {
    pub ttl_sec: u32,
    pub screenshot: bool,
    pub attach_download: bool,
    pub local_want: u32,
    pub peer_want: u32,
    pub pending: bool,
    pub pending_inbound: bool,
}

/// A sticker pack for a client.
#[derive(Clone, Debug)]
pub struct PackInfoFfi {
    pub pack_id: String,
    pub pack_pk: String,
    pub title: String,
    pub kind: u8,
    pub visibility: u8,
    pub item_count: u32,
    pub icon_item_id: u16,
    pub ours: bool,
    pub cached: bool,
}

/// A new sticker pack for a client.
#[derive(Clone, Debug)]
pub struct PackCreatedFfi {
    pub pack_id: String,
    pub pack_pk: String,
}

/// A sticker pack as the store lists it.
#[derive(Clone, Debug)]
pub struct PackInfo {
    pub pack_id: [u8; 16],
    pub pack_pk: [u8; 32],
    pub title: String,
    pub kind: u8,
    pub visibility: u8,
    pub item_count: u32,
    pub icon_item_id: u16,
    pub ours: bool,
    pub cached: bool,
}

/// An item of a pack.
#[derive(Clone, Debug)]
pub struct PackDocItem {
    pub item_id: u16,
    pub w: u16,
    pub h: u16,
    pub sha256: [u8; 32],
    pub bytes: Vec<u8>,
}

/// What a client sends, as the engine takes it.
pub fn attachment_spec(spec: AttachmentSpecFfi) -> (out: AttachmentSpec)
    ensures
        out.media_class == spec.media_class,
        out.mime_hint == spec.mime_hint,
        out.orig_ext == spec.orig_ext,
        out.bytes == spec.bytes,
        out.caption == spec.caption,
        out.view_once == spec.view_once,
{
    AttachmentSpec {
        media_class: spec.media_class,
        mime_hint: spec.mime_hint,
        orig_ext: spec.orig_ext,
        bytes: spec.bytes,
        caption: spec.caption,
        view_once: spec.view_once,
    }
}

/// The two profiles of a relationship for a client.
pub fn profile_show(local: Profile, peer: Option<Profile>) -> (out: ProfilePairFfi)
    ensures
        out.local_name == local.name,
        out.local_jpeg == local.jpeg,
        match peer {
            Some(p) => out.peer_name == Some(p.name) && out.peer_jpeg == Some(p.jpeg),
            None => out.peer_name is None && out.peer_jpeg is None,
        },
{
    let (peer_name, peer_jpeg): (Option<String>, Option<Vec<u8>>) = match peer {
        Some(p) => (Some(p.name), Some(p.jpeg)),
        None => (None, None),
    };
    ProfilePairFfi { local_name: local.name, local_jpeg: local.jpeg, peer_name, peer_jpeg }
}

/// Whether a client is shown a policy.
pub open spec fn policy_shown(out: PolicyFfi, s: PolicyState) -> bool {
    &&& out.ttl_sec == s.ttl_sec
    &&& out.screenshot == s.screenshot
    &&& out.attach_download == s.attach_download
    &&& out.local_want == s.local_want
    &&& out.peer_want == s.peer_want
    &&& out.pending == (s.pending is Some)
    &&& out.pending_inbound == (s.pending is Some && s.pending->0.inbound)
}

/// The policy of a relationship for a client.
pub fn policy_show(s: &PolicyState) -> (out: PolicyFfi)
    ensures
        policy_shown(out, *s),
{
    let pending_inbound: bool = match s.pending {
        Some(p) => p.inbound,
        None => false,
    };
    PolicyFfi {
        ttl_sec: s.ttl_sec,
        screenshot: s.screenshot,
        attach_download: s.attach_download,
        local_want: s.local_want,
        peer_want: s.peer_want,
        pending: s.pending.is_some(),
        pending_inbound,
    }
}

/// A sticker pack for a client.
pub fn pack_info(p: PackInfo) -> (out: PackInfoFfi)
    ensures
        out.pack_id@ == text::hex(p.pack_id@),
        out.pack_pk@ == text::hex(p.pack_pk@),
        out.title == p.title,
        out.kind == p.kind,
        out.visibility == p.visibility,
        out.item_count == p.item_count,
        out.icon_item_id == p.icon_item_id,
        out.ours == p.ours,
        out.cached == p.cached,
{
    PackInfoFfi {
        pack_id: hex_text(&p.pack_id),
        pack_pk: hex_text(&p.pack_pk),
        title: p.title,
        kind: p.kind,
        visibility: p.visibility,
        item_count: p.item_count,
        icon_item_id: p.icon_item_id,
        ours: p.ours,
        cached: p.cached,
    }
}

/// A new sticker pack for a client.
pub fn pack_created(pack_id: &[u8; 16], pack_pk: &[u8; 32]) -> (out: PackCreatedFfi)
    ensures
        out.pack_id@ == text::hex(pack_id@),
        out.pack_pk@ == text::hex(pack_pk@),
{
    PackCreatedFfi { pack_id: hex_text(pack_id), pack_pk: hex_text(pack_pk) }
}

/// The item at a position, from its prepared image. Ids count from one.
pub open spec fn item_of(item: PackDocItem, position: int, p: PreparedSticker) -> bool {
    &&& item.item_id == (position + 1) as u16
    &&& item.w == p.width as u16
    &&& item.h == p.height as u16
    &&& item.sha256@ == util::sha256_of(p.bytes@)
    &&& item.bytes@ == p.bytes@
}

/// The item at a position, from its prepared image.
pub fn item_from(position: usize, p: PreparedSticker) -> (item: PackDocItem)
    requires
        position < usize::MAX,
    ensures
        item_of(item, position as int, p),
{
    PackDocItem {
        item_id: (position + 1) as u16,
        w: p.width as u16,
        h: p.height as u16,
        sha256: sha256(p.bytes.as_slice()),
        bytes: p.bytes,
    }
}

/// Whether an item can come of preparing an image for a position.
pub open spec fn item_gives(
    raw: Seq<u8>,
    kind: u8,
    position: int,
    r: Result<PackDocItem, MediaError>,
) -> bool {
    exists|p: Result<PreparedSticker, MediaError>|
        #![trigger sticker::sticker_gives(raw, kind, sticker::sticker_result(p))]
        sticker::sticker_gives(raw, kind, sticker::sticker_result(p)) && (match p {
            Ok(p) => r is Ok && item_of(r->Ok_0, position, p),
            Err(e) => r == Err::<PackDocItem, MediaError>(e),
        })
}

/// Whether an image can be prepared for a position.
pub open spec fn prepares(raw: Seq<u8>, kind: u8, position: int) -> bool {
    exists|item: PackDocItem|
        #[trigger] item_gives(raw, kind, position, Ok::<PackDocItem, MediaError>(item))
}

/// Prepares an image for a position of a pack.
pub fn pack_item(raw: &[u8], kind: u8, position: usize) -> (r: Result<PackDocItem, MediaError>)
    requires
        position < usize::MAX,
    ensures
        item_gives(raw@, kind, position as int, r),
{
    let prepared: Result<PreparedSticker, MediaError> = prepare_sticker(raw, kind);
    let ghost p0 = prepared;
    assert(sticker::sticker_gives(raw@, kind, sticker::sticker_result(p0)));
    match prepared {
        Ok(p) => Ok(item_from(position, p)),
        Err(e) => Err(e),
    }
}

/// Prepares the images of a pack, in order. The first that cannot be prepared
/// fails the whole.
pub fn pack_items(items: &Vec<Vec<u8>>, kind: u8) -> (r: Result<Vec<PackDocItem>, CoreError>)
    ensures
        r matches Ok(out) ==> out@.len() == items@.len() && forall|i: int|
            0 <= i < out@.len() ==> item_gives(
                items@[i]@,
                kind,
                i,
                Ok::<PackDocItem, MediaError>(#[trigger] out@[i]),
            ),
        r is Err ==> exists|i: int, e: MediaError|
            0 <= i < items@.len() && #[trigger] item_gives(
                items@[i]@,
                kind,
                i,
                Err::<PackDocItem, MediaError>(e),
            ) && r->Err_0@ == CoreFault::Other(engine::media_text(e@)) && forall|k: int|
                0 <= k < i ==> #[trigger] prepares(items@[k]@, kind, k),
{
    let mut out: Vec<PackDocItem> = Vec::new();
    let mut i: usize = 0;
    while i < items.len()
        invariant
            i <= items@.len(),
            out@.len() == i,
            forall|k: int|
                0 <= k < i ==> item_gives(
                    items@[k]@,
                    kind,
                    k,
                    Ok::<PackDocItem, MediaError>(#[trigger] out@[k]),
                ),
        decreases items.len() - i,
    {
        let r: Result<PackDocItem, MediaError> = pack_item(items[i].as_slice(), kind, i);
        let ghost r0 = r;
        assert(item_gives(items@[i as int]@, kind, i as int, r0));
        match r {
            Ok(item) => {
                out.push(item);
            },
            Err(e) => {
                assert forall|k: int| 0 <= k < i implies #[trigger] prepares(
                    items@[k]@,
                    kind,
                    k,
                ) by {
                    assert(item_gives(
                        items@[k]@,
                        kind,
                        k,
                        Ok::<PackDocItem, MediaError>(out@[k]),
                    ));
                }
                return Err(CoreError::Other(e.message()));
            },
        }
        i = i + 1;
    }
    Ok(out)
}

/// The items of a pack count from one, and each holds its image, with the size and
/// the digest of it.
pub proof fn items_count_from_one(a: PackDocItem, i: int, p: PreparedSticker, b: PackDocItem, j: int, q: PreparedSticker)
    requires
        item_of(a, i, p),
        item_of(b, j, q),
        0 <= i < 65_535,
        0 <= j < 65_535,
    ensures
        a.item_id >= 1,
        a.item_id - b.item_id == i - j,
        i == 0 ==> a.item_id == 1,
        p.width <= 65_535 ==> a.w == p.width,
        p.height <= 65_535 ==> a.h == p.height,
        a.bytes@ == p.bytes@,
        a.sha256@ == util::sha256_of(a.bytes@),
{
}

/// Two images for one place of a pack that are prepared to the same bytes have the
/// same digest; an image that cannot be prepared is no item.
pub proof fn items_are_prepared_images(
    raw: Seq<u8>,
    kind: u8,
    position: int,
    r: Result<PackDocItem, MediaError>,
) -> (p: Result<PreparedSticker, MediaError>)
    requires
        item_gives(raw, kind, position, r),
    ensures
        sticker::sticker_gives(raw, kind, sticker::sticker_result(p)),
        r is Ok <==> p is Ok,
        r is Ok ==> r->Ok_0.bytes@ == p->Ok_0.bytes@ && r->Ok_0.sha256@ == util::sha256_of(
            p->Ok_0.bytes@,
        ),
        r is Err ==> r->Err_0 == p->Err_0,
{
    choose|p: Result<PreparedSticker, MediaError>|
        #![trigger sticker::sticker_gives(raw, kind, sticker::sticker_result(p))]
        sticker::sticker_gives(raw, kind, sticker::sticker_result(p)) && (match p {
            Ok(p) => r is Ok && item_of(r->Ok_0, position, p),
            Err(e) => r == Err::<PackDocItem, MediaError>(e),
        })
}

/// What a client is shown of a policy is the policy, and a capability that is on for
/// both sides can be told from it. A proposal is the peer's exactly if it is open
/// and came from it.
pub proof fn clients_see_the_policy(out: PolicyFfi, s: PolicyState, bit: u32)
    requires
        policy_shown(out, s),
    ensures
        s.on(bit) <==> out.local_want & out.peer_want & bit != 0,
        out.ttl_sec == s.ttl_sec,
        out.screenshot <==> s.screenshot,
        out.attach_download <==> s.attach_download,
        out.local_want == s.local_want,
        out.pending <==> s.pending is Some,
        out.pending_inbound <==> (s.pending matches Some(p) && p.inbound),
        out.pending_inbound ==> out.pending,
{
}

} // verus!
