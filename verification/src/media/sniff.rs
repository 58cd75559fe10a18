//! Media sniffing by magic bytes: nothing is decoded.

use vstd::prelude::*;
use vstd::slice::slice_subrange;
use vstd::utf8::{encode_utf8, is_ascii_chars_encode_utf8};

use crate::bytes::same_bytes;

verus! {

/// What the first bytes of a blob claim to be.
#[derive(Clone, Copy, Debug, PartialEq, Eq, Structural)]
pub enum MediaKind {
    Jpeg,
    Png,
    Webp,
    Heic,
    Mp4,
    Webm,
    Gif,
    /// Unknown or not allowed.
    Reject,
}

impl MediaKind {
    /// The kind's name.
    pub open spec fn name(self) -> Seq<char> {
        match self {
            MediaKind::Jpeg => "jpeg"@,
            MediaKind::Png => "png"@,
            MediaKind::Webp => "webp"@,
            MediaKind::Heic => "heic"@,
            MediaKind::Mp4 => "mp4"@,
            MediaKind::Webm => "webm"@,
            MediaKind::Gif => "gif"@,
            MediaKind::Reject => "reject"@,
        }
    }

    /// The kind's name.
    pub fn as_str(self) -> (name: &'static str)
        ensures
            name@ == self.name(),
    {
        match self {
            MediaKind::Jpeg => "jpeg",
            MediaKind::Png => "png",
            MediaKind::Webp => "webp",
            MediaKind::Heic => "heic",
            MediaKind::Mp4 => "mp4",
            MediaKind::Webm => "webm",
            MediaKind::Gif => "gif",
            MediaKind::Reject => "reject",
        }
    }
}

/// Whether the bytes from `at` on start with `tag`.
pub open spec fn tagged(b: Seq<u8>, at: int, tag: Seq<u8>) -> bool {
    &&& b.len() >= at + tag.len()
    &&& b.subrange(at, at + tag.len()) == tag
}

/// Whether the bytes from `at` on start with the text of `tag`.
pub open spec fn marked(b: Seq<u8>, at: int, tag: Seq<char>) -> bool {
    tagged(b, at, encode_utf8(tag))
}

/// The brand of an ISO media file that marks a still image.
pub open spec fn heic_brand(b: Seq<u8>) -> bool {
    marked(b, 8, "heic"@) || marked(b, 8, "mif1"@) || marked(b, 8, "msf1"@) || marked(b, 8, "heif"@)
}

/// The kind that the magic bytes of a blob stand for. A PNG needs eight
/// bytes, a WebP or an ISO media file twelve.
pub open spec fn kind_of(b: Seq<u8>) -> MediaKind {
    if tagged(b, 0, seq![0xffu8, 0xd8, 0xff]) {
        MediaKind::Jpeg
    } else if marked(b, 0, "GIF87a"@) || marked(b, 0, "GIF89a"@) {
        MediaKind::Gif
    } else if b.len() >= 8 && tagged(b, 0, seq![0x89u8, 0x50, 0x4e, 0x47]) {
        MediaKind::Png
    } else if b.len() >= 12 && marked(b, 0, "RIFF"@) && marked(b, 8, "WEBP"@) {
        MediaKind::Webp
    } else if b.len() >= 12 && marked(b, 4, "ftyp"@) {
        if heic_brand(b) {
            MediaKind::Heic
        } else {
            MediaKind::Mp4
        }
    } else if tagged(b, 0, seq![0x1au8, 0x45, 0xdf, 0xa3]) {
        MediaKind::Webm
    } else {
        MediaKind::Reject
    }
}

pub fn has_tag(b: &[u8], at: usize, tag: &[u8]) -> (has: bool)
    ensures
        has == tagged(b@, at as int, tag@),
{
    if b.len() < at || b.len() - at < tag.len() {
        return false;
    }
    same_bytes(slice_subrange(b, at, at + tag.len()), tag)
}

/// The kind of a blob, from its first bytes. Thirty-two are plenty.
pub fn sniff(head: &[u8]) -> (kind: MediaKind)
    ensures
        kind == kind_of(head@),
{
    if has_tag(head, 0, &[0xffu8, 0xd8, 0xff]) {
        assert([0xffu8, 0xd8, 0xff]@ =~= seq![0xffu8, 0xd8, 0xff]);
        return MediaKind::Jpeg;
    }
    assert([0xffu8, 0xd8, 0xff]@ =~= seq![0xffu8, 0xd8, 0xff]);
    if has_tag(head, 0, "GIF87a".as_bytes()) || has_tag(head, 0, "GIF89a".as_bytes()) {
        return MediaKind::Gif;
    }
    assert([0x89u8, 0x50, 0x4e, 0x47]@ =~= seq![0x89u8, 0x50, 0x4e, 0x47]);
    if head.len() >= 8 && has_tag(head, 0, &[0x89u8, 0x50, 0x4e, 0x47]) {
        return MediaKind::Png;
    }
    if head.len() >= 12 && has_tag(head, 0, "RIFF".as_bytes()) && has_tag(
        head,
        8,
        "WEBP".as_bytes(),
    ) {
        return MediaKind::Webp;
    }
    if head.len() >= 12 && has_tag(head, 4, "ftyp".as_bytes()) {
        return if has_tag(head, 8, "heic".as_bytes()) || has_tag(head, 8, "mif1".as_bytes())
            || has_tag(head, 8, "msf1".as_bytes()) || has_tag(head, 8, "heif".as_bytes()) {
            MediaKind::Heic
        } else {
            MediaKind::Mp4
        };
    }
    assert([0x1au8, 0x45, 0xdf, 0xa3]@ =~= seq![0x1au8, 0x45, 0xdf, 0xa3]);
    if has_tag(head, 0, &[0x1au8, 0x45, 0xdf, 0xa3]) {
        return MediaKind::Webm;
    }
    MediaKind::Reject
}

/// Whether a kind is a still image.
pub open spec fn image_kind(kind: MediaKind) -> bool {
    kind == MediaKind::Jpeg || kind == MediaKind::Png || kind == MediaKind::Webp || kind
        == MediaKind::Heic
}

/// Whether a kind can be a sticker or an emoji.
pub open spec fn sticker_kind(kind: MediaKind) -> bool {
    kind == MediaKind::Png || kind == MediaKind::Webp || kind == MediaKind::Gif
}

/// Whether a kind is a video.
pub open spec fn video_kind(kind: MediaKind) -> bool {
    kind == MediaKind::Mp4 || kind == MediaKind::Webm
}

/// Whether a kind is a still image that attachments take.
pub fn is_image(kind: MediaKind) -> (yes: bool)
    ensures
        yes == image_kind(kind),
{
    kind == MediaKind::Jpeg || kind == MediaKind::Png || kind == MediaKind::Webp || kind
        == MediaKind::Heic
}

/// Whether a kind can be a sticker or an emoji: PNG, WebP or GIF. JPEG never
/// is, for the metadata it carries.
pub fn is_sticker_image(kind: MediaKind) -> (yes: bool)
    ensures
        yes == sticker_kind(kind),
{
    kind == MediaKind::Png || kind == MediaKind::Webp || kind == MediaKind::Gif
}

/// Whether a kind is a video.
pub fn is_video(kind: MediaKind) -> (video: bool)
    ensures
        video == video_kind(kind),
{
    kind == MediaKind::Mp4 || kind == MediaKind::Webm
}

/// The extended header of a WebP with the animation flag set.
pub open spec fn animated_webp(b: Seq<u8>) -> bool {
    &&& kind_of(b) == MediaKind::Webp
    &&& b.len() >= 21
    &&& marked(b, 12, "VP8X"@)
    &&& b[20] & 0x02 != 0
}

/// Whether a blob is an animated WebP.
pub fn is_animated_webp(bytes: &[u8]) -> (animated: bool)
    ensures
        animated == animated_webp(bytes@),
{
    if sniff(bytes) != MediaKind::Webp || bytes.len() < 21 {
        return false;
    }
    if !has_tag(bytes, 12, "VP8X".as_bytes()) {
        return false;
    }
    bytes[20] & 0x02 != 0
}

/// A blob whose first byte is not a `G` is no GIF.
pub proof fn not_a_gif(b: Seq<u8>)
    requires
        b.len() > 0,
        b[0] != 0x47,
    ensures
        !marked(b, 0, "GIF87a"@),
        !marked(b, 0, "GIF89a"@),
{
    reveal_strlit("GIF87a");
    reveal_strlit("GIF89a");
    is_ascii_chars_encode_utf8("GIF87a"@);
    is_ascii_chars_encode_utf8("GIF89a"@);
    if marked(b, 0, "GIF87a"@) {
        assert(b.subrange(0, 6)[0] == 0x47);
    }
    if marked(b, 0, "GIF89a"@) {
        assert(b.subrange(0, 6)[0] == 0x47);
    }
}

// ---------------------------------------------------------------------------
// Laws

/// Whether bytes stand in a blob from `at` on.
pub open spec fn stands_at(b: Seq<u8>, at: int, bytes: Seq<u8>) -> bool {
    &&& at + bytes.len() <= b.len()
    &&& forall|i: int| 0 <= i < bytes.len() ==> #[trigger] bytes[i] == b[at + i]
}

/// The first bytes of a JPEG.
pub open spec fn is_jpeg(b: Seq<u8>) -> bool {
    stands_at(b, 0, seq![0xffu8, 0xd8, 0xff])
}

/// `GIF87a` or `GIF89a`.
pub open spec fn is_gif(b: Seq<u8>) -> bool {
    stands_at(b, 0, seq![0x47u8, 0x49, 0x46, 0x38, 0x37, 0x61]) || stands_at(
        b,
        0,
        seq![0x47u8, 0x49, 0x46, 0x38, 0x39, 0x61],
    )
}

/// The first half of the PNG signature, with room for the second.
pub open spec fn is_png(b: Seq<u8>) -> bool {
    b.len() >= 8 && stands_at(b, 0, seq![0x89u8, 0x50, 0x4e, 0x47])
}

/// `RIFF`, a length, and `WEBP`.
pub open spec fn is_webp(b: Seq<u8>) -> bool {
    stands_at(b, 0, seq![0x52u8, 0x49, 0x46, 0x46]) && stands_at(
        b,
        8,
        seq![0x57u8, 0x45, 0x42, 0x50],
    )
}

/// A WebP whose extended header `VP8X` has the animation flag, which is bit one
/// of the byte behind the header's length.
pub open spec fn is_moving_webp(b: Seq<u8>) -> bool {
    &&& is_webp(b)
    &&& stands_at(b, 12, seq![0x56u8, 0x50, 0x38, 0x58])
    &&& b.len() > 20
    &&& b[20] & 2 != 0
}

/// A length, `ftyp` and a brand.
pub open spec fn is_iso(b: Seq<u8>) -> bool {
    b.len() >= 12 && stands_at(b, 4, seq![0x66u8, 0x74, 0x79, 0x70])
}

/// One of the brands `heic`, `mif1`, `msf1` and `heif`.
pub open spec fn is_still_brand(b: Seq<u8>) -> bool {
    ||| stands_at(b, 8, seq![0x68u8, 0x65, 0x69, 0x63])
    ||| stands_at(b, 8, seq![0x6du8, 0x69, 0x66, 0x31])
    ||| stands_at(b, 8, seq![0x6du8, 0x73, 0x66, 0x31])
    ||| stands_at(b, 8, seq![0x68u8, 0x65, 0x69, 0x66])
}

/// The first bytes of a Matroska file.
pub open spec fn is_matroska(b: Seq<u8>) -> bool {
    stands_at(b, 0, seq![0x1au8, 0x45, 0xdf, 0xa3])
}

/// A blob is tagged exactly if it has the bytes of the tag, one by one.
pub proof fn tag_stands(b: Seq<u8>, at: int, tag: Seq<u8>)
    requires
        0 <= at,
    ensures
        tagged(b, at, tag) == stands_at(b, at, tag),
{
    if b.len() >= at + tag.len() {
        let found = b.subrange(at, at + tag.len());
        if found == tag {
            assert forall|i: int| 0 <= i < tag.len() implies #[trigger] tag[i] == b[at + i] by {
                assert(found[i] == b[at + i]);
            }
        }
        if stands_at(b, at, tag) {
            assert(found =~= tag);
        }
    }
}

proof fn texts_are_bytes()
    ensures
        encode_utf8("GIF87a"@) == seq![0x47u8, 0x49, 0x46, 0x38, 0x37, 0x61],
        encode_utf8("GIF89a"@) == seq![0x47u8, 0x49, 0x46, 0x38, 0x39, 0x61],
        encode_utf8("RIFF"@) == seq![0x52u8, 0x49, 0x46, 0x46],
        encode_utf8("WEBP"@) == seq![0x57u8, 0x45, 0x42, 0x50],
        encode_utf8("VP8X"@) == seq![0x56u8, 0x50, 0x38, 0x58],
        encode_utf8("ftyp"@) == seq![0x66u8, 0x74, 0x79, 0x70],
        encode_utf8("heic"@) == seq![0x68u8, 0x65, 0x69, 0x63],
        encode_utf8("mif1"@) == seq![0x6du8, 0x69, 0x66, 0x31],
        encode_utf8("msf1"@) == seq![0x6du8, 0x73, 0x66, 0x31],
        encode_utf8("heif"@) == seq![0x68u8, 0x65, 0x69, 0x66],
{
    reveal_strlit("GIF87a");
    reveal_strlit("GIF89a");
    reveal_strlit("RIFF");
    reveal_strlit("WEBP");
    reveal_strlit("VP8X");
    reveal_strlit("ftyp");
    reveal_strlit("heic");
    reveal_strlit("mif1");
    reveal_strlit("msf1");
    reveal_strlit("heif");
    is_ascii_chars_encode_utf8("GIF87a"@);
    is_ascii_chars_encode_utf8("GIF89a"@);
    is_ascii_chars_encode_utf8("RIFF"@);
    is_ascii_chars_encode_utf8("WEBP"@);
    is_ascii_chars_encode_utf8("VP8X"@);
    is_ascii_chars_encode_utf8("ftyp"@);
    is_ascii_chars_encode_utf8("heic"@);
    is_ascii_chars_encode_utf8("mif1"@);
    is_ascii_chars_encode_utf8("msf1"@);
    is_ascii_chars_encode_utf8("heif"@);
    assert(encode_utf8("GIF87a"@) =~= seq![0x47u8, 0x49, 0x46, 0x38, 0x37, 0x61]);
    assert(encode_utf8("GIF89a"@) =~= seq![0x47u8, 0x49, 0x46, 0x38, 0x39, 0x61]);
    assert(encode_utf8("RIFF"@) =~= seq![0x52u8, 0x49, 0x46, 0x46]);
    assert(encode_utf8("WEBP"@) =~= seq![0x57u8, 0x45, 0x42, 0x50]);
    assert(encode_utf8("VP8X"@) =~= seq![0x56u8, 0x50, 0x38, 0x58]);
    assert(encode_utf8("ftyp"@) =~= seq![0x66u8, 0x74, 0x79, 0x70]);
    assert(encode_utf8("heic"@) =~= seq![0x68u8, 0x65, 0x69, 0x63]);
    assert(encode_utf8("mif1"@) =~= seq![0x6du8, 0x69, 0x66, 0x31]);
    assert(encode_utf8("msf1"@) =~= seq![0x6du8, 0x73, 0x66, 0x31]);
    assert(encode_utf8("heif"@) =~= seq![0x68u8, 0x65, 0x69, 0x66]);
}

/// The magic bytes of a blob decide its kind, and nothing else of it does. The
/// marks at its very start come before the `ftyp` of an ISO media file.
pub proof fn magic_bytes_decide(b: Seq<u8>)
    ensures
        kind_of(b) == MediaKind::Jpeg <==> is_jpeg(b),
        kind_of(b) == MediaKind::Gif <==> is_gif(b),
        kind_of(b) == MediaKind::Png <==> is_png(b),
        kind_of(b) == MediaKind::Webp <==> is_webp(b),
        kind_of(b) == MediaKind::Heic <==> is_iso(b) && is_still_brand(b) && !is_jpeg(b) && !is_png(
            b,
        ) && !is_webp(b),
        kind_of(b) == MediaKind::Mp4 <==> is_iso(b) && !is_still_brand(b) && !is_jpeg(b) && !is_png(
            b,
        ) && !is_webp(b),
        kind_of(b) == MediaKind::Webm <==> is_matroska(b) && !is_iso(b),
        animated_webp(b) <==> is_moving_webp(b),
{
    texts_are_bytes();
    let jpeg = seq![0xffu8, 0xd8, 0xff];
    let gif7 = seq![0x47u8, 0x49, 0x46, 0x38, 0x37, 0x61];
    let gif9 = seq![0x47u8, 0x49, 0x46, 0x38, 0x39, 0x61];
    let png = seq![0x89u8, 0x50, 0x4e, 0x47];
    let riff = seq![0x52u8, 0x49, 0x46, 0x46];
    let mkv = seq![0x1au8, 0x45, 0xdf, 0xa3];
    let ftyp = seq![0x66u8, 0x74, 0x79, 0x70];
    tag_stands(b, 0, jpeg);
    tag_stands(b, 0, gif7);
    tag_stands(b, 0, gif9);
    tag_stands(b, 0, png);
    tag_stands(b, 0, riff);
    tag_stands(b, 8, seq![0x57u8, 0x45, 0x42, 0x50]);
    tag_stands(b, 12, seq![0x56u8, 0x50, 0x38, 0x58]);
    tag_stands(b, 4, ftyp);
    tag_stands(b, 8, seq![0x68u8, 0x65, 0x69, 0x63]);
    tag_stands(b, 8, seq![0x6du8, 0x69, 0x66, 0x31]);
    tag_stands(b, 8, seq![0x6du8, 0x73, 0x66, 0x31]);
    tag_stands(b, 8, seq![0x68u8, 0x65, 0x69, 0x66]);
    tag_stands(b, 0, mkv);
    assert(stands_at(b, 0, jpeg) ==> jpeg[0] == b[0]);
    assert(stands_at(b, 0, gif7) ==> gif7[0] == b[0] && gif7[4] == b[4]);
    assert(stands_at(b, 0, gif9) ==> gif9[0] == b[0] && gif9[4] == b[4]);
    assert(stands_at(b, 0, png) ==> png[0] == b[0]);
    assert(stands_at(b, 0, riff) ==> riff[0] == b[0]);
    assert(stands_at(b, 0, mkv) ==> mkv[0] == b[0]);
    assert(stands_at(b, 4, ftyp) ==> ftyp[0] == b[4]);
}

/// A blob is a still image, a GIF, a video or nothing that is taken, and only one of
/// them. A JPEG is never a sticker, and a GIF is one though it is no still image.
pub proof fn kinds_fall_into_classes(b: Seq<u8>)
    ensures
        is_jpeg(b) ==> image_kind(kind_of(b)) && !sticker_kind(kind_of(b)),
        is_png(b) || is_webp(b) ==> image_kind(kind_of(b)) && sticker_kind(kind_of(b)),
        is_gif(b) ==> !image_kind(kind_of(b)) && sticker_kind(kind_of(b)),
        kind_of(b) == MediaKind::Heic ==> image_kind(kind_of(b)) && !sticker_kind(kind_of(b)),
        video_kind(kind_of(b)) ==> is_iso(b) || is_matroska(b),
        kind_of(b) == MediaKind::Mp4 || kind_of(b) == MediaKind::Webm ==> video_kind(kind_of(b)),
        video_kind(kind_of(b)) ==> !image_kind(kind_of(b)) && !sticker_kind(kind_of(b)),
        kind_of(b) == MediaKind::Reject ==> !image_kind(kind_of(b)) && !sticker_kind(kind_of(b))
            && !video_kind(kind_of(b)),
{
    magic_bytes_decide(b);
}

} // verus!
