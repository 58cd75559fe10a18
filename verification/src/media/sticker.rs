//! Preparing stickers and emoji.
//!
//! What counts is the decoded pixels. Static PNG and WebP are scaled down to
//! the edge cap and encoded anew; animations pass through if they fit. JPEG
//! is never taken.

use vstd::prelude::*;
use vstd::slice::slice_to_vec;

use crate::limits::media::MAX_DECODE_EDGE;
use crate::media::{self, MediaError, MediaFault};
use crate::media::photo::{self, decode_bounded, encode_png, fit_long_edge, Photo, Picture};
use crate::media::sniff::{is_animated_webp, is_sticker_image, sniff, MediaKind};
use crate::wire::sticker::{
    self, aspect_ok, max_bytes, max_edge, valid_kind, KIND_EMOJI, KIND_STICKER, MAX_THUMB_BYTES,
    THUMB_EDGE,
};

verus! {

/// An item ready to be sent, and its preview.
#[derive(Clone, Debug, PartialEq, Eq)]
pub struct PreparedSticker {
    pub bytes: Vec<u8>,
    pub width: u32,
    pub height: u32,
    pub thumb: Vec<u8>,
}

/// The values of a `PreparedSticker`.
pub struct StickerItem {
    pub bytes: Seq<u8>,
    pub width: nat,
    pub height: nat,
    pub thumb: Seq<u8>,
}

impl View for PreparedSticker {
    type V = StickerItem;

    open spec fn view(&self) -> StickerItem {
        StickerItem {
            bytes: self.bytes@,
            width: self.width as nat,
            height: self.height as nat,
            thumb: self.thumb@,
        }
    }
}

/// The long edges that a preview is tried at.
pub open spec fn thumb_edge(step: nat) -> u32 {
    if step == 0 {
        THUMB_EDGE
    } else if step == 1 {
        64
    } else if step == 2 {
        48
    } else {
        32
    }
}

/// What a preview from `step` on can be: the first PNG under the byte cap.
pub open spec fn thumb_gives(p: Picture, step: nat, r: Result<Seq<u8>, MediaFault>) -> bool
    decreases 4 - step,
{
    if step >= 4 {
        r == Err::<Seq<u8>, MediaFault>(
            MediaFault::TooLarge { size: usize::MAX, max: MAX_THUMB_BYTES },
        )
    } else {
        exists|q: Picture, s: Result<Seq<u8>, MediaFault>|
            #![trigger photo::fitted(p, thumb_edge(step), q), photo::png_result(q, s)]
            photo::fitted(p, thumb_edge(step), q) && photo::png_result(q, s) && (match s {
                Ok(out) => if out.len() <= MAX_THUMB_BYTES {
                    r == s
                } else {
                    thumb_gives(p, step + 1, r)
                },
                Err(_) => r == s,
            })
    }
}

fn thumb_ladder(img: &Photo, step: u8) -> (r: Result<Vec<u8>, MediaError>)
    ensures
        thumb_gives(img@, step as nat, photo::blob_result(r)),
    decreases 4 - step,
{
    if step >= 4 {
        return Err(MediaError::TooLarge { size: usize::MAX, max: MAX_THUMB_BYTES });
    }
    let edge: u32 = if step == 0 {
        THUMB_EDGE
    } else if step == 1 {
        64
    } else if step == 2 {
        48
    } else {
        32
    };
    let scaled: Photo = fit_long_edge(img, edge);
    let out: Result<Vec<u8>, MediaError> = encode_png(&scaled);
    assert(photo::fitted(img@, thumb_edge(step as nat), scaled@));
    assert(photo::png_result(scaled@, photo::blob_result(out)));
    match out {
        Ok(out) => {
            if out.len() <= MAX_THUMB_BYTES {
                return Ok(out);
            }
        },
        Err(e) => {
            return Err(e);
        },
    }
    thumb_ladder(img, step + 1)
}

/// A preview: a PNG of at most `MAX_THUMB_BYTES`.
pub fn make_thumb(img: &Photo) -> (r: Result<Vec<u8>, MediaError>)
    ensures
        thumb_gives(img@, 0, photo::blob_result(r)),
{
    thumb_ladder(img, 0)
}

/// Whether a blob is taken as an animation.
pub open spec fn animated(bytes: Seq<u8>) -> bool {
    media::sniff::kind_of(bytes) == MediaKind::Gif || media::sniff::animated_webp(bytes)
}

pub open spec fn sticker_result(r: Result<PreparedSticker, MediaError>) -> Result<
    StickerItem,
    MediaFault,
> {
    match r {
        Ok(item) => Ok(item@),
        Err(e) => Err(e@),
    }
}

/// An item with the preview that came of a picture, or that preview's error.
pub open spec fn with_thumb(
    bytes: Seq<u8>,
    shown: Picture,
    r: Result<StickerItem, MediaFault>,
) -> bool {
    exists|t: Result<Seq<u8>, MediaFault>|
        #![trigger thumb_gives(shown, 0, t)]
        thumb_gives(shown, 0, t) && (match t {
            Ok(thumb) => r == Ok::<StickerItem, MediaFault>(
                StickerItem { bytes, width: shown.width, height: shown.height, thumb },
            ),
            Err(e) => r == Err::<StickerItem, MediaFault>(e),
        })
}

/// What a decoded source can become: an animation passes through if it is
/// within the edge cap; anything else is fitted and becomes a PNG under the
/// byte cap.
pub open spec fn item_gives(
    bytes: Seq<u8>,
    kind: u8,
    p: Picture,
    r: Result<StickerItem, MediaFault>,
) -> bool {
    if !sticker::shape_fits(kind, p.width as int, p.height as int) {
        r == Err::<StickerItem, MediaFault>(MediaFault::Unsupported("aspect out of range"@))
    } else if animated(bytes) {
        if p.long_edge() > sticker::edge_cap(kind) {
            r == Err::<StickerItem, MediaFault>(
                MediaFault::Unsupported("animated source over edge cap"@),
            )
        } else {
            with_thumb(bytes, p, r)
        }
    } else {
        exists|q: Picture, s: Result<Seq<u8>, MediaFault>|
            #![trigger photo::fitted(p, sticker::edge_cap(kind), q), photo::png_result(q, s)]
            photo::fitted(p, sticker::edge_cap(kind), q) && photo::png_result(q, s) && (match photo::capped(s, sticker::byte_cap(kind)) {
                Ok(png) => with_thumb(png, q, r),
                Err(e) => r == Err::<StickerItem, MediaFault>(e),
            })
    }
}

/// What preparing a sticker can give.
pub open spec fn sticker_gives(bytes: Seq<u8>, kind: u8, r: Result<StickerItem, MediaFault>) -> bool {
    let sniffed = media::sniff::kind_of(bytes);
    if kind != KIND_EMOJI && kind != KIND_STICKER {
        r == Err::<StickerItem, MediaFault>(MediaFault::Unsupported("unknown sticker kind"@))
    } else if !(sniffed == MediaKind::Png || sniffed == MediaKind::Webp || sniffed
        == MediaKind::Gif) {
        r == Err::<StickerItem, MediaFault>(MediaFault::Unsupported(sniffed.name()))
    } else if bytes.len() > sticker::byte_cap(kind) {
        r == Err::<StickerItem, MediaFault>(
            MediaFault::TooLarge { size: bytes.len() as usize, max: sticker::byte_cap(kind) },
        )
    } else {
        exists|d: Result<Picture, MediaFault>|
            #![trigger photo::bounded_gives(bytes, d)]
            photo::bounded_gives(bytes, d) && (match d {
                Err(e) => r == Err::<StickerItem, MediaFault>(e),
                Ok(p) => item_gives(bytes, kind, p, r),
            })
    }
}

fn finish(bytes: Vec<u8>, shown: &Photo) -> (r: Result<PreparedSticker, MediaError>)
    ensures
        with_thumb(bytes@, shown@, sticker_result(r)),
{
    let thumb: Result<Vec<u8>, MediaError> = make_thumb(shown);
    assert(thumb_gives(shown@, 0, photo::blob_result(thumb)));
    match thumb {
        Ok(thumb) => Ok(
            PreparedSticker { bytes, width: shown.width(), height: shown.height(), thumb },
        ),
        Err(e) => Err(e),
    }
}

/// The item that a decoded source becomes.
pub fn sticker_from(bytes: &[u8], kind: u8, img: &Photo) -> (r: Result<
    PreparedSticker,
    MediaError,
>)
    ensures
        item_gives(bytes@, kind, img@, sticker_result(r)),
{
    let w: u32 = img.width();
    let h: u32 = img.height();
    if !aspect_ok(kind, w, h) {
        return Err(MediaError::Unsupported("aspect out of range"));
    }
    if sniff(bytes) == MediaKind::Gif || is_animated_webp(bytes) {
        let long: u32 = if w >= h {
            w
        } else {
            h
        };
        if long > max_edge(kind) {
            return Err(MediaError::Unsupported("animated source over edge cap"));
        }
        return finish(slice_to_vec(bytes), img);
    }
    let scaled: Photo = fit_long_edge(img, max_edge(kind));
    let out: Result<Vec<u8>, MediaError> = encode_png(&scaled);
    assert(photo::fitted(img@, sticker::edge_cap(kind), scaled@));
    assert(photo::png_result(scaled@, photo::blob_result(out)));
    match out {
        Ok(png) => {
            if png.len() > max_bytes(kind) {
                return Err(MediaError::TooLarge { size: png.len(), max: max_bytes(kind) });
            }
            finish(png, &scaled)
        },
        Err(e) => Err(e),
    }
}

/// Prepares a sticker or an emoji from its source.
pub fn prepare_sticker(bytes: &[u8], kind: u8) -> (r: Result<PreparedSticker, MediaError>)
    ensures
        sticker_gives(bytes@, kind, sticker_result(r)),
{
    if !valid_kind(kind) {
        return Err(MediaError::Unsupported("unknown sticker kind"));
    }
    let sniffed: MediaKind = sniff(bytes);
    if !is_sticker_image(sniffed) {
        return Err(MediaError::Unsupported(sniffed.as_str()));
    }
    if bytes.len() > max_bytes(kind) {
        return Err(MediaError::TooLarge { size: bytes.len(), max: max_bytes(kind) });
    }
    let decoded: Result<Photo, MediaError> = decode_bounded(bytes);
    let ghost d = photo::picture_result(decoded);
    assert(photo::bounded_gives(bytes@, d));
    match decoded {
        Ok(img) => sticker_from(bytes, kind, &img),
        Err(e) => Err(e),
    }
}

proof fn thumbs_fit(p: Picture, step: nat, r: Result<Seq<u8>, MediaFault>)
    requires
        thumb_gives(p, step, r),
        r is Ok,
    ensures
        r->Ok_0.len() <= MAX_THUMB_BYTES,
        p.width >= 1 && p.height >= 1 ==> exists|q: Picture| #[trigger]
            photo::png_result(q, r) && q.long_edge() <= THUMB_EDGE,
    decreases 4 - step,
{
    if step < 4 {
        let (q, s) = choose|q: Picture, s: Result<Seq<u8>, MediaFault>|
            #![trigger photo::fitted(p, thumb_edge(step), q), photo::png_result(q, s)]
            photo::fitted(p, thumb_edge(step), q) && photo::png_result(q, s) && (match s {
                Ok(out) => if out.len() <= MAX_THUMB_BYTES {
                    r == s
                } else {
                    thumb_gives(p, step + 1, r)
                },
                Err(_) => r == s,
            });
        if s is Ok && s->Ok_0.len() > MAX_THUMB_BYTES {
            thumbs_fit(p, step + 1, r);
        } else if p.width >= 1 && p.height >= 1 {
            photo::fitting_bounds_the_edge(p, thumb_edge(step), q);
            assert(photo::png_result(q, r));
        }
    }
}

/// A picture of a shape that a kind takes keeps such a shape when it is fitted
/// to the edge cap.
proof fn fitting_keeps_the_shape(p: Picture, kind: u8, q: Picture)
    requires
        p.long_edge() <= MAX_DECODE_EDGE,
        sticker::shape_fits(kind, p.width as int, p.height as int),
        photo::fitted(p, sticker::edge_cap(kind), q),
    ensures
        sticker::shape_fits(kind, q.width as int, q.height as int),
        q.long_edge() <= sticker::edge_cap(kind),
{
    let edge = sticker::edge_cap(kind) as nat;
    photo::fitting_bounds_the_edge(p, sticker::edge_cap(kind), q);
    if p.long_edge() > edge {
        let (long, side, n) = if p.width >= p.height {
            (p.width, p.height, q.height)
        } else {
            (p.height, p.width, q.width)
        };
        assert(photo::nearest(side, edge, long, n));
        if kind == KIND_EMOJI {
            assert(n >= edge) by (nonlinear_arith)
                requires
                    2 * long * edge <= 2 * long * n + long,
                    long >= 1,
            ;
        } else {
            assert(n >= 171) by (nonlinear_arith)
                requires
                    2 * side * 512 <= 2 * long * n + long,
                    long <= 3 * side,
                    long >= 1,
            ;
        }
    }
}

/// A prepared item has the shape of its kind and is within the edge cap and the
/// byte cap. It is the very source where that is an animation, else a PNG of a
/// picture of the stated size. Its preview is a PNG within the preview's edge
/// and byte caps.
pub proof fn prepared_items_fit(bytes: Seq<u8>, kind: u8, r: Result<StickerItem, MediaFault>)
    requires
        sticker_gives(bytes, kind, r),
        r is Ok,
    ensures
        kind == KIND_EMOJI || kind == KIND_STICKER,
        1 <= r->Ok_0.width <= sticker::edge_cap(kind),
        1 <= r->Ok_0.height <= sticker::edge_cap(kind),
        kind == KIND_EMOJI ==> r->Ok_0.width == r->Ok_0.height,
        r->Ok_0.width <= 3 * r->Ok_0.height && r->Ok_0.height <= 3 * r->Ok_0.width,
        r->Ok_0.bytes.len() <= sticker::byte_cap(kind),
        animated(bytes) ==> r->Ok_0.bytes == bytes,
        !animated(bytes) ==> exists|q: Picture| #[trigger]
            photo::png_result(q, Ok::<Seq<u8>, MediaFault>(r->Ok_0.bytes)) && q.width
                == r->Ok_0.width && q.height == r->Ok_0.height,
        r->Ok_0.thumb.len() <= MAX_THUMB_BYTES,
        exists|q: Picture| #[trigger]
            photo::png_result(q, Ok::<Seq<u8>, MediaFault>(r->Ok_0.thumb)) && q.long_edge()
                <= THUMB_EDGE,
{
    let d = choose|d: Result<Picture, MediaFault>|
        #![trigger photo::bounded_gives(bytes, d)]
        photo::bounded_gives(bytes, d) && (match d {
            Err(e) => r == Err::<StickerItem, MediaFault>(e),
            Ok(p) => item_gives(bytes, kind, p, r),
        });
    let p = d->Ok_0;
    if animated(bytes) {
        let t = choose|t: Result<Seq<u8>, MediaFault>|
            #![trigger thumb_gives(p, 0, t)]
            thumb_gives(p, 0, t) && (match t {
                Ok(thumb) => r == Ok::<StickerItem, MediaFault>(
                    StickerItem { bytes, width: p.width, height: p.height, thumb },
                ),
                Err(e) => r == Err::<StickerItem, MediaFault>(e),
            });
        thumbs_fit(p, 0, t);
    } else {
        let (q, s) = choose|q: Picture, s: Result<Seq<u8>, MediaFault>|
            #![trigger photo::fitted(p, sticker::edge_cap(kind), q), photo::png_result(q, s)]
            photo::fitted(p, sticker::edge_cap(kind), q) && photo::png_result(q, s) && (match photo::capped(s, sticker::byte_cap(kind)) {
                Ok(png) => with_thumb(png, q, r),
                Err(e) => r == Err::<StickerItem, MediaFault>(e),
            });
        fitting_keeps_the_shape(p, kind, q);
        let png = s->Ok_0;
        assert(photo::png_result(q, Ok::<Seq<u8>, MediaFault>(png)));
        let t = choose|t: Result<Seq<u8>, MediaFault>|
            #![trigger thumb_gives(q, 0, t)]
            thumb_gives(q, 0, t) && (match t {
                Ok(thumb) => r == Ok::<StickerItem, MediaFault>(
                    StickerItem { bytes: png, width: q.width, height: q.height, thumb },
                ),
                Err(e) => r == Err::<StickerItem, MediaFault>(e),
            });
        thumbs_fit(q, 0, t);
        assert(r->Ok_0.bytes == png && r->Ok_0.width == q.width && r->Ok_0.height == q.height);
        assert(photo::png_result(q, Ok::<Seq<u8>, MediaFault>(r->Ok_0.bytes)));
    }
}

/// An animation stays what it is: where the source is a GIF by its first bytes,
/// or a WebP whose extended header has the animation flag, the prepared item has
/// the very bytes of the source. Any other source becomes a PNG. A source that is
/// neither PNG nor WebP nor GIF by its first bytes becomes nothing.
pub proof fn animations_are_kept(bytes: Seq<u8>, kind: u8, r: Result<StickerItem, MediaFault>)
    requires
        sticker_gives(bytes, kind, r),
        r is Ok,
    ensures
        media::sniff::is_gif(bytes) || media::sniff::is_moving_webp(bytes) ==> r->Ok_0.bytes
            == bytes,
        !media::sniff::is_gif(bytes) && !media::sniff::is_moving_webp(bytes)
            ==> media::sniff::is_png(r->Ok_0.bytes),
        media::sniff::is_png(bytes) || media::sniff::is_webp(bytes) || media::sniff::is_gif(bytes),
{
    media::sniff::magic_bytes_decide(bytes);
    media::sniff::magic_bytes_decide(r->Ok_0.bytes);
    prepared_items_fit(bytes, kind, r);
}

/// What a decoded source becomes. An emoji is at most 160 pixels long and
/// square, a sticker at most 512 and within one to three. An animation over that
/// is refused and one within it keeps its size; a still picture over it is scaled
/// down until its long edge is the cap, and one within it keeps its size.
pub proof fn sizes_are_kept_or_cut_to_the_cap(
    bytes: Seq<u8>,
    kind: u8,
    p: Picture,
    r: Result<StickerItem, MediaFault>,
)
    requires
        kind == KIND_EMOJI || kind == KIND_STICKER,
        item_gives(bytes, kind, p, r),
    ensures
        ({
            let moving = media::sniff::is_gif(bytes) || media::sniff::is_moving_webp(bytes);
            let cap: nat = if kind == KIND_EMOJI {
                160
            } else {
                512
            };
            let long = if p.width >= p.height {
                p.width
            } else {
                p.height
            };
            let fits = p.width >= 1 && p.height >= 1 && (if kind == KIND_EMOJI {
                p.width == p.height
            } else {
                p.width <= 3 * p.height && p.height <= 3 * p.width
            });
            &&& !fits ==> r is Err
            &&& fits && moving && long > cap ==> r is Err
            &&& r matches Ok(item) ==> {
                &&& long <= cap ==> item.width == p.width && item.height == p.height
                &&& long > cap && p.width >= p.height ==> item.width == cap
                &&& long > cap && p.width < p.height ==> item.height == cap
            }
        }),
{
    media::sniff::magic_bytes_decide(bytes);
    if r is Ok {
        if animated(bytes) {
            let t = choose|t: Result<Seq<u8>, MediaFault>|
                #![trigger thumb_gives(p, 0, t)]
                thumb_gives(p, 0, t) && (match t {
                    Ok(thumb) => r == Ok::<StickerItem, MediaFault>(
                        StickerItem { bytes, width: p.width, height: p.height, thumb },
                    ),
                    Err(e) => r == Err::<StickerItem, MediaFault>(e),
                });
        } else {
            let (q, s) = choose|q: Picture, s: Result<Seq<u8>, MediaFault>|
                #![trigger photo::fitted(p, sticker::edge_cap(kind), q), photo::png_result(q, s)]
                photo::fitted(p, sticker::edge_cap(kind), q) && photo::png_result(q, s) && (
                match photo::capped(s, sticker::byte_cap(kind)) {
                    Ok(png) => with_thumb(png, q, r),
                    Err(e) => r == Err::<StickerItem, MediaFault>(e),
                });
            let png = s->Ok_0;
            let t = choose|t: Result<Seq<u8>, MediaFault>|
                #![trigger thumb_gives(q, 0, t)]
                thumb_gives(q, 0, t) && (match t {
                    Ok(thumb) => r == Ok::<StickerItem, MediaFault>(
                        StickerItem { bytes: png, width: q.width, height: q.height, thumb },
                    ),
                    Err(e) => r == Err::<StickerItem, MediaFault>(e),
                });
        }
    }
}

/// Nothing over the byte cap of its kind is taken or made: 64 KiB for an emoji,
/// 512 KiB for a sticker.
pub proof fn items_keep_to_their_bytes(bytes: Seq<u8>, kind: u8, r: Result<StickerItem, MediaFault>)
    requires
        sticker_gives(bytes, kind, r),
        r is Ok,
    ensures
        kind == KIND_EMOJI ==> bytes.len() <= 64 * 1024 && r->Ok_0.bytes.len() <= 64 * 1024,
        kind == KIND_STICKER ==> bytes.len() <= 512 * 1024 && r->Ok_0.bytes.len() <= 512 * 1024,
        r->Ok_0.thumb.len() <= 8 * 1024,
{
    prepared_items_fit(bytes, kind, r);
}

/// Whether a result is a preview on a long edge, within 8192 bytes, or the error of
/// its encoding.
pub open spec fn preview_on(p: Picture, edge: u32, r: Result<Seq<u8>, MediaFault>) -> bool {
    exists|q: Picture|
        #![trigger photo::fitted(p, edge, q)]
        photo::fitted(p, edge, q) && (match photo::png_of(q) {
            Ok(out) => r == Ok::<Seq<u8>, MediaFault>(out) && out.len() <= 8192,
            Err(_) => r is Err && r->Err_0 is Encode,
        })
}

/// Whether a preview on a long edge has over 8192 bytes.
pub open spec fn preview_is_over(p: Picture, edge: u32) -> bool {
    exists|q: Picture|
        #![trigger photo::fitted(p, edge, q)]
        photo::fitted(p, edge, q) && photo::png_of(q) is Ok && photo::png_of(q)->Ok_0.len() > 8192
}

proof fn preview_step(p: Picture, step: nat, edge: u32, r: Result<Seq<u8>, MediaFault>) -> (over: bool)
    requires
        step < 4,
        edge == thumb_edge(step),
        thumb_gives(p, step, r),
    ensures
        over ==> preview_is_over(p, edge) && thumb_gives(p, step + 1, r),
        !over ==> preview_on(p, edge, r),
{
    let (q, s) = choose|q: Picture, s: Result<Seq<u8>, MediaFault>|
        #![trigger photo::fitted(p, thumb_edge(step), q), photo::png_result(q, s)]
        photo::fitted(p, thumb_edge(step), q) && photo::png_result(q, s) && (match s {
            Ok(out) => if out.len() <= MAX_THUMB_BYTES {
                r == s
            } else {
                thumb_gives(p, step + 1, r)
            },
            Err(_) => r == s,
        });
    assert(photo::fitted(p, edge, q));
    s is Ok && s->Ok_0.len() > MAX_THUMB_BYTES
}

/// The preview is the largest of those on a long edge of 96, 64, 48 and 32 that has
/// no more than 8192 bytes: `k` of them are too large. It is refused where all four
/// are.
pub proof fn the_largest_preview_that_fits_is_kept(p: Picture, r: Result<Seq<u8>, MediaFault>) -> (k:
    int)
    requires
        thumb_gives(p, 0, r),
    ensures
        0 <= k <= 4,
        k > 0 ==> preview_is_over(p, 96),
        k > 1 ==> preview_is_over(p, 64),
        k > 2 ==> preview_is_over(p, 48),
        k > 3 ==> preview_is_over(p, 32),
        k == 0 ==> preview_on(p, 96, r),
        k == 1 ==> preview_on(p, 64, r),
        k == 2 ==> preview_on(p, 48, r),
        k == 3 ==> preview_on(p, 32, r),
        k == 4 ==> r is Err && r->Err_0 is TooLarge,
{
    if !preview_step(p, 0, 96, r) {
        0
    } else if !preview_step(p, 1, 64, r) {
        1
    } else if !preview_step(p, 2, 48, r) {
        2
    } else if !preview_step(p, 3, 32, r) {
        3
    } else {
        4
    }
}

/// A decoded source is refused for its shape or size exactly if it does not have the
/// shape of its kind, or is an animation over the edge cap. All else that can keep it
/// from being prepared is that it, or its preview, does not encode or gets too large.
pub proof fn what_fits_is_prepared(
    bytes: Seq<u8>,
    kind: u8,
    p: Picture,
    r: Result<StickerItem, MediaFault>,
)
    requires
        item_gives(bytes, kind, p, r),
    ensures
        ({
            let moving = media::sniff::is_gif(bytes) || media::sniff::is_moving_webp(bytes);
            let over = p.width > sticker::edge_cap(kind) || p.height > sticker::edge_cap(kind);
            &&& r is Err && r->Err_0 is Unsupported <==> !sticker::shape_fits(
                kind,
                p.width as int,
                p.height as int,
            ) || (moving && over)
            &&& r is Err ==> !(r->Err_0 is Decode)
        }),
{
    media::sniff::magic_bytes_decide(bytes);
    if sticker::shape_fits(kind, p.width as int, p.height as int) {
        if animated(bytes) {
            if p.long_edge() <= sticker::edge_cap(kind) {
                let t = choose|t: Result<Seq<u8>, MediaFault>|
                    #![trigger thumb_gives(p, 0, t)]
                    thumb_gives(p, 0, t) && (match t {
                        Ok(thumb) => r == Ok::<StickerItem, MediaFault>(
                            StickerItem { bytes, width: p.width, height: p.height, thumb },
                        ),
                        Err(e) => r == Err::<StickerItem, MediaFault>(e),
                    });
                let _ = the_largest_preview_that_fits_is_kept(p, t);
            }
        } else {
            let (q, s) = choose|q: Picture, s: Result<Seq<u8>, MediaFault>|
                #![trigger photo::fitted(p, sticker::edge_cap(kind), q), photo::png_result(q, s)]
                photo::fitted(p, sticker::edge_cap(kind), q) && photo::png_result(q, s) && (
                match photo::capped(s, sticker::byte_cap(kind)) {
                    Ok(png) => with_thumb(png, q, r),
                    Err(e) => r == Err::<StickerItem, MediaFault>(e),
                });
            if photo::capped(s, sticker::byte_cap(kind)) is Ok {
                let png = s->Ok_0;
                let t = choose|t: Result<Seq<u8>, MediaFault>|
                    #![trigger thumb_gives(q, 0, t)]
                    thumb_gives(q, 0, t) && (match t {
                        Ok(thumb) => r == Ok::<StickerItem, MediaFault>(
                            StickerItem { bytes: png, width: q.width, height: q.height, thumb },
                        ),
                        Err(e) => r == Err::<StickerItem, MediaFault>(e),
                    });
                let _ = the_largest_preview_that_fits_is_kept(q, t);
            }
        }
    }
}

/// A source is looked at only where its kind exists, its first bytes are those of a
/// PNG, a WebP or a GIF, and it is within the byte cap of its kind.
pub proof fn sources_are_checked_first(bytes: Seq<u8>, kind: u8, r: Result<StickerItem, MediaFault>)
    requires
        sticker_gives(bytes, kind, r),
    ensures
        ({
            let known = kind == KIND_EMOJI || kind == KIND_STICKER;
            let image = media::sniff::is_png(bytes) || media::sniff::is_webp(bytes)
                || media::sniff::is_gif(bytes);
            let cap: nat = if kind == KIND_EMOJI {
                65_536
            } else {
                524_288
            };
            &&& !known || !image ==> r is Err && r->Err_0 is Unsupported
            &&& known && image && bytes.len() > cap ==> r is Err && r->Err_0 is TooLarge
            &&& known && image && bytes.len() <= cap ==> exists|d: Result<Picture, MediaFault>|
                #![trigger photo::bounded_gives(bytes, d)]
                photo::bounded_gives(bytes, d) && (d is Err ==> r is Err && r->Err_0 == d->Err_0)
                    && (d is Ok ==> item_gives(bytes, kind, d->Ok_0, r))
        }),
{
    media::sniff::magic_bytes_decide(bytes);
}

} // verus!
