//! Decoding, cropping and re-encoding images. Encoding anew from pixels is
//! what strips metadata. Decoding is bounded in input bytes and in pixels.

use vstd::prelude::*;

use crate::limits::media::{
    JPEG_TARGET_BYTES, LONG_EDGE, MAX_DECODE_EDGE, MAX_INPUT_BYTES, PROFILE_EDGE_LARGE,
    PROFILE_EDGE_MEDIUM, PROFILE_EDGE_SMALL,
};
use crate::media::{self, MediaError, MediaFault};
use crate::media::sniff::{is_image, sniff, MediaKind};
use crate::text::{self, push_decimal};
use crate::wire::sticker::{MAX_THUMB_BYTES, THUMB_EDGE};

verus! {

/// Where the quality of a photo starts.
pub const JPEG_QUALITY: u8 = 40;

/// Where it ends.
pub const JPEG_QUALITY_MIN: u8 = 20;

/// The quality of a profile photo.
pub const PROFILE_JPEG_QUALITY: u8 = 40;

/// The quality of a pack preview.
pub const THUMB_JPEG_QUALITY: u8 = 80;

/// Bytes of a profile photo.
pub const MAX_PROFILE_JPEG: usize = 24_576;

/// The encodings that are decoded by name.
#[derive(Clone, Copy, Debug, PartialEq, Eq, Structural)]
pub enum Format {
    Jpeg,
    Png,
    WebP,
    Gif,
}

/// An image as values: its size, whether its pixels have an alpha channel,
/// and all else that it holds.
pub struct Picture {
    pub width: nat,
    pub height: nat,
    pub alpha: bool,
    pub content: Seq<u8>,
}

impl Picture {
    pub open spec fn long_edge(self) -> nat {
        if self.width >= self.height {
            self.width
        } else {
            self.height
        }
    }
}

#[verifier::external_type_specification]
#[verifier::external_body]
pub struct ExDynamicImage(image::DynamicImage);

/// The picture that an `image::DynamicImage` holds.
pub uninterp spec fn picture_of(img: image::DynamicImage) -> Picture;

/// What `image::ImageReader::decode` can make of a blob, given the format to
/// fall back on and the longest edge allowed: a picture, or an error's text.
pub uninterp spec fn decode_gives(
    bytes: Seq<u8>,
    format: Option<Format>,
    max_edge: u32,
    outcome: Result<Picture, Seq<char>>,
) -> bool;

/// What `image::DynamicImage::resize` can make of a picture.
pub uninterp spec fn resize_gives(p: Picture, edge: u32, outcome: Picture) -> bool;

/// What `image::DynamicImage::crop_imm` cuts out of a picture.
pub uninterp spec fn crop_of(p: Picture, x: u32, y: u32, w: u32, h: u32) -> Picture;

/// What `image::codecs::jpeg::JpegEncoder` makes of a picture.
pub uninterp spec fn jpeg_of(p: Picture, quality: u8) -> Result<Seq<u8>, Seq<char>>;

/// What `image::DynamicImage::write_to` makes of a picture as a PNG.
pub uninterp spec fn png_of(p: Picture) -> Result<Seq<u8>, Seq<char>>;

/// A decoded image.
pub struct Photo {
    img: image::DynamicImage,
}

impl View for Photo {
    type V = Picture;

    closed spec fn view(&self) -> Picture {
        picture_of(self.img)
    }
}

impl Photo {
    /// Pixels across.
    pub fn width(&self) -> (w: u32)
        ensures
            w == self@.width,
    {
        self.img.width()
    }

    /// Pixels down.
    pub fn height(&self) -> (h: u32)
        ensures
            h == self@.height,
    {
        self.img.height()
    }
}

/// An image or an error's text, as values.
pub open spec fn image_outcome(r: Result<image::DynamicImage, String>) -> Result<Picture, Seq<char>> {
    match r {
        Ok(img) => Ok(picture_of(img)),
        Err(why) => Err(why@),
    }
}

/// A blob or an error's text, as values.
pub open spec fn blob_outcome(r: Result<Vec<u8>, String>) -> Result<Seq<u8>, Seq<char>> {
    match r {
        Ok(bytes) => Ok(bytes@),
        Err(why) => Err(why@),
    }
}

/// `image::DynamicImage::width`.
pub assume_specification[ image::DynamicImage::width ](img: &image::DynamicImage) -> (w: u32)
    ensures
        w == picture_of(*img).width,
;

/// `image::DynamicImage::height`.
pub assume_specification[ image::DynamicImage::height ](img: &image::DynamicImage) -> (h: u32)
    ensures
        h == picture_of(*img).height,
;

/// `image::DynamicImage::clone`: the same image again.
pub assume_specification[ <image::DynamicImage as Clone>::clone ](img: &image::DynamicImage) -> (c:
    image::DynamicImage)
    ensures
        picture_of(c) == picture_of(*img),
;

/// `image::DynamicImage::color` and `image::ColorType::has_alpha`: whether
/// the pixels have an alpha channel.
#[verifier::external_body]
fn has_alpha(img: &image::DynamicImage) -> (alpha: bool)
    ensures
        alpha == picture_of(*img).alpha,
{
    img.color().has_alpha()
}

/// `image::ImageReader::decode` on bytes in memory, with the format guessed
/// from the content and `format` where nothing can be guessed. No edge of an
/// image that comes back is longer than `max_edge`. Which pixels come back is
/// not stated: decoders differ by machine.
#[verifier::external_body]
fn read_image(bytes: &[u8], format: Option<Format>, max_edge: u32) -> (r: Result<
    image::DynamicImage,
    String,
>)
    ensures
        decode_gives(bytes@, format, max_edge, image_outcome(r)),
        r matches Ok(img) ==> picture_of(img).long_edge() <= max_edge,
{
    let mut reader = image::ImageReader::new(std::io::Cursor::new(bytes));
    match format {
        Some(Format::Jpeg) => reader.set_format(image::ImageFormat::Jpeg),
        Some(Format::Png) => reader.set_format(image::ImageFormat::Png),
        Some(Format::WebP) => reader.set_format(image::ImageFormat::WebP),
        Some(Format::Gif) => reader.set_format(image::ImageFormat::Gif),
        None => {},
    }
    let mut limits = image::Limits::default();
    limits.max_image_width = Some(max_edge);
    limits.max_image_height = Some(max_edge);
    reader.limits(limits);
    reader.with_guessed_format().map_err(|e| e.to_string())?.decode().map_err(|e| e.to_string())
}

/// Whether `q` has the size that `p` shrinks to on a long edge of `edge`: the
/// other edge is scaled alike.
pub open spec fn scaled_size(p: Picture, edge: nat, q: Picture) -> bool {
    if p.width >= p.height {
        &&& q.width == edge
        &&& scaled_side(p.height, edge, p.width, q.height)
    } else {
        &&& q.height == edge
        &&& scaled_side(p.width, edge, p.height, q.width)
    }
}

/// Whether `n` is what a side shrinks to where `long` shrinks to `edge`: one at
/// least, no longer than the edge, within one of `side * edge / long`, and the
/// nearest to it on pictures of up to 65535 pixels a side.
pub open spec fn scaled_side(side: nat, edge: nat, long: nat, n: nat) -> bool {
    &&& 1 <= n <= edge
    &&& long * n - long <= side * edge <= long * n + long
    &&& long <= 65535 ==> nearest(side, edge, long, n)
}

/// Whether `n` is `side * edge / long` to the nearest integer, or one where
/// that is less than a half.
pub open spec fn nearest(side: nat, edge: nat, long: nat, n: nat) -> bool {
    &&& n >= 1
    &&& 2 * long * n - long <= 2 * side * edge || n == 1
    &&& 2 * side * edge <= 2 * long * n + long
}

/// `image::DynamicImage::resize` with the Lanczos filter into a square of
/// `edge`: the image keeps its shape and its alpha channel. The short side is
/// stated to the nearest pixel on images of up to 65535 pixels a side and to
/// within one beyond, where floating point may round either way. Which pixels
/// come back is not stated: they differ by machine.
#[verifier::external_body]
fn resize_image(img: &image::DynamicImage, edge: u32) -> (r: image::DynamicImage)
    requires
        edge < picture_of(*img).long_edge(),
    ensures
        resize_gives(picture_of(*img), edge, picture_of(r)),
        picture_of(r).alpha == picture_of(*img).alpha,
        edge >= 1 && picture_of(*img).width >= 1 && picture_of(*img).height >= 1 ==> scaled_size(
            picture_of(*img),
            edge as nat,
            picture_of(r),
        ),
{
    img.resize(edge, edge, image::imageops::FilterType::Lanczos3)
}

/// `image::DynamicImage::crop_imm`: the rectangle, which lies inside the
/// image.
#[verifier::external_body]
fn cut_image(img: &image::DynamicImage, x: u32, y: u32, w: u32, h: u32) -> (r: image::DynamicImage)
    requires
        x + w <= picture_of(*img).width,
        y + h <= picture_of(*img).height,
    ensures
        picture_of(r) == crop_of(picture_of(*img), x, y, w, h),
        picture_of(r).width == w,
        picture_of(r).height == h,
        picture_of(r).alpha == picture_of(*img).alpha,
{
    img.crop_imm(x, y, w, h)
}

/// Whether a picture has a size that the JPEG format can hold.
pub open spec fn jpeg_size(p: Picture) -> bool {
    1 <= p.width <= 65535 && 1 <= p.height <= 65535
}

/// `image::codecs::jpeg::JpegEncoder::write_image` on the image's RGB pixels:
/// a JPEG file, or an error where the format cannot hold the size. The file
/// starts with the JPEG magic bytes, and depends on the picture and the quality
/// alone.
#[verifier::external_body]
fn write_jpeg(img: &image::DynamicImage, quality: u8) -> (r: Result<Vec<u8>, String>)
    ensures
        blob_outcome(r) == jpeg_of(picture_of(*img), quality),
        r is Ok <==> jpeg_size(picture_of(*img)),
        r matches Ok(out) ==> media::sniff::tagged(out@, 0, seq![0xffu8, 0xd8, 0xff]),
{
    let rgb = img.to_rgb8();
    let mut out = std::io::Cursor::new(Vec::new());
    let encoder = image::codecs::jpeg::JpegEncoder::new_with_quality(&mut out, quality);
    let color = image::ExtendedColorType::Rgb8;
    image::ImageEncoder::write_image(encoder, rgb.as_raw(), rgb.width(), rgb.height(), color)
        .map_err(|e| e.to_string())?;
    Ok(out.into_inner())
}

/// `image::DynamicImage::write_to` with the PNG format: a PNG file, or an
/// error. The file starts with the eight bytes of the PNG signature, and
/// depends on the picture alone.
#[verifier::external_body]
fn write_png(img: &image::DynamicImage) -> (r: Result<Vec<u8>, String>)
    ensures
        blob_outcome(r) == png_of(picture_of(*img)),
        r matches Ok(out) ==> out@.len() >= 8 && media::sniff::tagged(out@, 0, seq![0x89u8, 0x50, 0x4e, 0x47]),
{
    let mut out = std::io::Cursor::new(Vec::new());
    img.write_to(&mut out, image::ImageFormat::Png).map_err(|e| e.to_string())?;
    Ok(out.into_inner())
}

// ---------------------------------------------------------------------------
// Decoding

/// The format that a blob's magic bytes name.
pub open spec fn format_of(kind: MediaKind) -> Option<Format> {
    match kind {
        MediaKind::Jpeg => Some(Format::Jpeg),
        MediaKind::Png => Some(Format::Png),
        MediaKind::Webp => Some(Format::WebP),
        MediaKind::Gif => Some(Format::Gif),
        _ => None,
    }
}

/// What bounded decoding can give.
pub open spec fn bounded_gives(bytes: Seq<u8>, r: Result<Picture, MediaFault>) -> bool {
    if bytes.len() == 0 {
        r == Err::<Picture, MediaFault>(MediaFault::Decode("empty input"@))
    } else if bytes.len() > MAX_INPUT_BYTES {
        r == Err::<Picture, MediaFault>(
            MediaFault::TooLarge { size: bytes.len() as usize, max: MAX_INPUT_BYTES },
        )
    } else {
        match r {
            Ok(p) => decode_gives(
                bytes,
                format_of(media::sniff::kind_of(bytes)),
                MAX_DECODE_EDGE,
                Ok(p),
            ) && p.long_edge() <= MAX_DECODE_EDGE,
            Err(MediaFault::Decode(why)) => decode_gives(
                bytes,
                format_of(media::sniff::kind_of(bytes)),
                MAX_DECODE_EDGE,
                Err(why),
            ),
            Err(_) => false,
        }
    }
}

pub open spec fn picture_result(r: Result<Photo, MediaError>) -> Result<
    Picture,
    MediaFault,
> {
    match r {
        Ok(img) => Ok(img@),
        Err(e) => Err(e@),
    }
}

pub open spec fn blob_result(r: Result<Vec<u8>, MediaError>) -> Result<Seq<u8>, MediaFault> {
    match r {
        Ok(out) => Ok(out@),
        Err(e) => Err(e@),
    }
}

/// Decodes a blob of at most `MAX_INPUT_BYTES` into an image with no edge
/// longer than `MAX_DECODE_EDGE`.
pub fn decode_bounded(bytes: &[u8]) -> (r: Result<Photo, MediaError>)
    ensures
        bounded_gives(bytes@, picture_result(r)),
{
    if bytes.len() == 0 {
        return Err(MediaError::Decode("empty input".to_owned()));
    }
    if bytes.len() > MAX_INPUT_BYTES {
        return Err(MediaError::TooLarge { size: bytes.len(), max: MAX_INPUT_BYTES });
    }
    let format: Option<Format> = match sniff(bytes) {
        MediaKind::Jpeg => Some(Format::Jpeg),
        MediaKind::Png => Some(Format::Png),
        MediaKind::Webp => Some(Format::WebP),
        MediaKind::Gif => Some(Format::Gif),
        _ => None,
    };
    match read_image(bytes, format, MAX_DECODE_EDGE) {
        Ok(img) => Ok(Photo { img }),
        Err(why) => Err(MediaError::Decode(why)),
    }
}

// ---------------------------------------------------------------------------
// Encoding

/// An encoder's outcome, its error named as one.
pub open spec fn encoded(outcome: Result<Seq<u8>, Seq<char>>) -> Result<Seq<u8>, MediaFault> {
    match outcome {
        Ok(out) => Ok(out),
        Err(why) => Err(MediaFault::Encode(why)),
    }
}

/// What encoding as a JPEG gives: a JPEG, where the format can hold the size.
pub open spec fn jpeg_result(p: Picture, quality: u8, r: Result<Seq<u8>, MediaFault>) -> bool {
    &&& r == encoded(jpeg_of(p, quality))
    &&& r is Ok <==> jpeg_size(p)
    &&& r matches Ok(out) ==> media::sniff::kind_of(out) == MediaKind::Jpeg
}

/// What encoding as a PNG gives: a PNG, or the encoder's error.
pub open spec fn png_result(p: Picture, r: Result<Seq<u8>, MediaFault>) -> bool {
    &&& r == encoded(png_of(p))
    &&& r matches Ok(out) ==> media::sniff::kind_of(out) == MediaKind::Png
}

/// A PNG signature makes a blob a PNG.
proof fn signature_is_png(b: Seq<u8>)
    requires
        b.len() >= 8,
        media::sniff::tagged(b, 0, seq![0x89u8, 0x50, 0x4e, 0x47]),
    ensures
        media::sniff::kind_of(b) == MediaKind::Png,
{
    let head = b.subrange(0, 4);
    assert(head[0] == 0x89);
    assert(b[0] == 0x89);
    assert(b.subrange(0, 3)[0] != seq![0xffu8, 0xd8, 0xff][0]);
    media::sniff::not_a_gif(b);
}

/// Encodes an image as a JPEG.
pub fn encode_jpeg(img: &Photo, quality: u8) -> (r: Result<Vec<u8>, MediaError>)
    ensures
        jpeg_result(img@, quality, blob_result(r)),
{
    match write_jpeg(&img.img, quality) {
        Ok(out) => Ok(out),
        Err(why) => Err(MediaError::Encode(why)),
    }
}

/// Encodes an image as a PNG.
pub fn encode_png(img: &Photo) -> (r: Result<Vec<u8>, MediaError>)
    ensures
        png_result(img@, blob_result(r)),
{
    match write_png(&img.img) {
        Ok(out) => {
            proof {
                signature_is_png(out@);
            }
            Ok(out)
        },
        Err(why) => Err(MediaError::Encode(why)),
    }
}

/// Whether `q` is `p` fitted to a long edge: `p` itself where it fits, else
/// `p` scaled down.
pub open spec fn fitted(p: Picture, edge: u32, q: Picture) -> bool {
    if p.long_edge() <= edge {
        q == p
    } else {
        &&& resize_gives(p, edge, q)
        &&& q.alpha == p.alpha
        &&& (edge >= 1 && p.width >= 1 && p.height >= 1 ==> scaled_size(p, edge as nat, q))
    }
}

/// Fits an image to a long edge. It is never scaled up.
pub fn fit_long_edge(img: &Photo, max_edge: u32) -> (r: Photo)
    ensures
        fitted(img@, max_edge, r@),
{
    let long: u32 = if img.width() >= img.height() {
        img.width()
    } else {
        img.height()
    };
    if long <= max_edge {
        return Photo { img: img.img.clone() };
    }
    Photo { img: resize_image(&img.img, max_edge) }
}

/// A fitted picture is no longer than the edge on either side and no larger
/// than it was, and no side of it is lost.
pub proof fn fitting_bounds_the_edge(p: Picture, edge: u32, q: Picture)
    requires
        fitted(p, edge, q),
        edge >= 1,
        p.width >= 1,
        p.height >= 1,
    ensures
        q.long_edge() <= edge,
        p.long_edge() > edge ==> q.long_edge() == edge,
        1 <= q.width <= p.width,
        1 <= q.height <= p.height,
        q.alpha == p.alpha,
{
    if p.long_edge() > edge {
        let (long, side, n) = if p.width >= p.height {
            (p.width, p.height, q.height)
        } else {
            (p.height, p.width, q.width)
        };
        let e = edge as nat;
        assert(n <= side) by (nonlinear_arith)
            requires
                long * n - long <= side * e,
                e + 1 <= long,
                side >= 1,
        ;
    }
}

/// What re-encoding a photo gives, from quality `quality` down in steps of
/// five: the first JPEG within the target. Where the one of the lowest quality
/// is over it, the photo is refused.
pub open spec fn ladder_gives(p: Picture, quality: u8, r: Result<Seq<u8>, MediaFault>) -> bool
    decreases quality,
{
    exists|step: Result<Seq<u8>, MediaFault>|
        #![trigger jpeg_result(p, quality, step)]
        jpeg_result(p, quality, step) && (match step {
            Ok(out) => if out.len() <= JPEG_TARGET_BYTES {
                r == step
            } else if quality <= JPEG_QUALITY_MIN {
                r == Err::<Seq<u8>, MediaFault>(
                    MediaFault::TooLarge { size: out.len() as usize, max: JPEG_TARGET_BYTES },
                )
            } else {
                ladder_gives(p, (quality - 5) as u8, r)
            },
            Err(_) => r == step,
        })
}

/// What re-encoding gives: a PNG where there is an alpha channel, else a
/// JPEG from the ladder.
pub open spec fn reencode_gives(p: Picture, r: Result<Seq<u8>, MediaFault>) -> bool {
    if p.alpha {
        png_result(p, r)
    } else {
        ladder_gives(p, JPEG_QUALITY, r)
    }
}

fn jpeg_ladder(img: &Photo, quality: u8) -> (r: Result<Vec<u8>, MediaError>)
    ensures
        ladder_gives(img@, quality, blob_result(r)),
    decreases quality,
{
    let out: Vec<u8> = match encode_jpeg(img, quality) {
        Ok(out) => out,
        Err(e) => {
            return Err(e);
        },
    };
    assert(jpeg_result(img@, quality, Ok(out@)));
    if out.len() <= JPEG_TARGET_BYTES {
        return Ok(out);
    }
    if quality <= JPEG_QUALITY_MIN {
        return Err(MediaError::TooLarge { size: out.len(), max: JPEG_TARGET_BYTES });
    }
    jpeg_ladder(img, quality - 5)
}

/// Encodes an image for sending: from its pixels alone, so that nothing else
/// of its source survives.
pub fn reencode(img: &Photo) -> (r: Result<Vec<u8>, MediaError>)
    ensures
        reencode_gives(img@, blob_result(r)),
{
    if has_alpha(&img.img) {
        return encode_png(img);
    }
    jpeg_ladder(img, JPEG_QUALITY)
}

/// What stripping can give of what a blob decodes to: the re-encoding of the
/// picture, fitted to the long edge.
pub open spec fn resent_gives(
    d: Result<Picture, MediaFault>,
    r: Result<Seq<u8>, MediaFault>,
) -> bool {
    match d {
        Err(e) => r == Err::<Seq<u8>, MediaFault>(e),
        Ok(p) => exists|q: Picture|
            #![trigger fitted(p, LONG_EDGE, q)]
            fitted(p, LONG_EDGE, q) && reencode_gives(q, r),
    }
}

/// Whether a blob is an image by its magic bytes and within the input bound.
pub open spec fn strippable(bytes: Seq<u8>) -> bool {
    let kind = media::sniff::kind_of(bytes);
    &&& bytes.len() <= MAX_INPUT_BYTES
    &&& kind != MediaKind::Mp4 && kind != MediaKind::Webm && kind != MediaKind::Reject
}

/// What stripping a blob can give: an error for one that is too large, is no
/// image or does not decode; else the re-encoding of the picture that it
/// decodes to, fitted to the long edge.
pub open spec fn strip_gives(bytes: Seq<u8>, r: Result<Seq<u8>, MediaFault>) -> bool {
    if bytes.len() > MAX_INPUT_BYTES {
        r == Err::<Seq<u8>, MediaFault>(
            MediaFault::TooLarge { size: bytes.len() as usize, max: MAX_INPUT_BYTES },
        )
    } else if !strippable(bytes) {
        r == Err::<Seq<u8>, MediaFault>(MediaFault::Unsupported(media::sniff::kind_of(bytes).name()))
    } else {
        exists|d: Result<Picture, MediaFault>|
            #![trigger bounded_gives(bytes, d)]
            bounded_gives(bytes, d) && resent_gives(d, r)
    }
}

/// Fits a decoded image to the long edge and encodes it anew: nothing but its
/// picture decides what comes out.
pub fn strip_photo(img: &Photo) -> (r: Result<Vec<u8>, MediaError>)
    ensures
        resent_gives(Ok(img@), blob_result(r)),
        img@.long_edge() <= LONG_EDGE ==> reencode_gives(img@, blob_result(r)),
{
    let fit: Photo = fit_long_edge(img, LONG_EDGE);
    let r: Result<Vec<u8>, MediaError> = reencode(&fit);
    proof {
        let d = Ok::<Picture, MediaFault>(img@);
        let p = d->Ok_0;
        assert(fitted(p, LONG_EDGE, fit@) && reencode_gives(fit@, blob_result(r)));
        assert(resent_gives(d, blob_result(r)));
    }
    r
}

/// Decodes and encodes an image anew, which strips its metadata. Photos come
/// back as JPEG within the byte target, images with an alpha channel as PNG.
pub fn strip_and_reencode_image(bytes: &[u8]) -> (r: Result<Vec<u8>, MediaError>)
    ensures
        strip_gives(bytes@, blob_result(r)),
        r matches Ok(out) ==> media::sniff::kind_of(out@) == MediaKind::Jpeg ==> out@.len()
            <= JPEG_TARGET_BYTES,
{
    if bytes.len() > MAX_INPUT_BYTES {
        return Err(MediaError::TooLarge { size: bytes.len(), max: MAX_INPUT_BYTES });
    }
    let kind: MediaKind = sniff(bytes);
    if !is_image(kind) && kind != MediaKind::Gif {
        return Err(MediaError::Unsupported(kind.as_str()));
    }
    let decoded: Result<Photo, MediaError> = decode_bounded(bytes);
    let ghost d = picture_result(decoded);
    assert(bounded_gives(bytes@, d));
    let r: Result<Vec<u8>, MediaError> = match decoded {
        Ok(img) => strip_photo(&img),
        Err(e) => Err(e),
    };
    assert(resent_gives(d, blob_result(r)));
    proof {
        if r is Ok {
            stripped_photos_fit_the_target(bytes@, blob_result(r));
        }
    }
    r
}

/// Whether a pack preview is of a picture: a PNG where that has an alpha channel,
/// else a JPEG.
pub open spec fn previews(q: Picture, r: Result<Seq<u8>, MediaFault>) -> bool {
    if q.alpha {
        png_result(q, r)
    } else {
        jpeg_result(q, THUMB_JPEG_QUALITY, r)
    }
}

/// What the pack preview of a picture can be: that of the picture fitted to the
/// thumbnail edge, refused over the byte cap.
pub open spec fn preview_gives(p: Picture, r: Result<Seq<u8>, MediaFault>) -> bool {
    exists|q: Picture, s: Result<Seq<u8>, MediaFault>|
        #![trigger fitted(p, THUMB_EDGE, q), capped(s, MAX_THUMB_BYTES)]
        fitted(p, THUMB_EDGE, q) && previews(q, s) && r == capped(s, MAX_THUMB_BYTES)
}

/// What the pack preview of a blob can be: that of the picture that it decodes
/// to.
pub open spec fn thumbnail_gives(bytes: Seq<u8>, r: Result<Seq<u8>, MediaFault>) -> bool {
    exists|d: Result<Picture, MediaFault>|
        #![trigger bounded_gives(bytes, d)]
        bounded_gives(bytes, d) && (match d {
            Err(e) => r == Err::<Seq<u8>, MediaFault>(e),
            Ok(p) => preview_gives(p, r),
        })
}

/// A blob, refused where it is over a cap.
pub open spec fn capped(s: Result<Seq<u8>, MediaFault>, max: usize) -> Result<Seq<u8>, MediaFault> {
    match s {
        Ok(out) => if out.len() > max {
            Err(MediaFault::TooLarge { size: out.len() as usize, max })
        } else {
            s
        },
        Err(_) => s,
    }
}

fn cap_blob(s: Result<Vec<u8>, MediaError>, max: usize) -> (r: Result<Vec<u8>, MediaError>)
    ensures
        blob_result(r) == capped(blob_result(s), max),
{
    match s {
        Ok(out) => {
            if out.len() > max {
                Err(MediaError::TooLarge { size: out.len(), max })
            } else {
                Ok(out)
            }
        },
        Err(e) => Err(e),
    }
}

/// The pack preview of a decoded image.
pub fn preview_photo(img: &Photo) -> (r: Result<Vec<u8>, MediaError>)
    ensures
        preview_gives(img@, blob_result(r)),
{
    let scaled: Photo = fit_long_edge(img, THUMB_EDGE);
    let out: Result<Vec<u8>, MediaError> = if has_alpha(&scaled.img) {
        encode_png(&scaled)
    } else {
        encode_jpeg(&scaled, THUMB_JPEG_QUALITY)
    };
    let ghost s = blob_result(out);
    let r: Result<Vec<u8>, MediaError> = cap_blob(out, MAX_THUMB_BYTES);
    assert(fitted(img@, THUMB_EDGE, scaled@));
    assert(blob_result(r) == capped(s, MAX_THUMB_BYTES));
    r
}

/// A pack preview.
pub fn make_thumbnail(bytes: &[u8]) -> (r: Result<Vec<u8>, MediaError>)
    ensures
        thumbnail_gives(bytes@, blob_result(r)),
{
    let decoded: Result<Photo, MediaError> = decode_bounded(bytes);
    let ghost d = picture_result(decoded);
    assert(bounded_gives(bytes@, d));
    match decoded {
        Ok(img) => preview_photo(&img),
        Err(e) => Err(e),
    }
}

/// The pack preview of a picture is within its byte cap, and is of a picture
/// within the thumbnail edge that has an alpha channel where the source has one.
pub proof fn previews_fit(p: Picture, r: Result<Seq<u8>, MediaFault>)
    requires
        p.width >= 1,
        p.height >= 1,
        preview_gives(p, r),
        r is Ok,
    ensures
        r->Ok_0.len() <= MAX_THUMB_BYTES,
        exists|q: Picture| #[trigger]
            previews(q, r) && q.long_edge() <= THUMB_EDGE && q.alpha == p.alpha,
{
    let (q, s) = choose|q: Picture, s: Result<Seq<u8>, MediaFault>|
        #![trigger fitted(p, THUMB_EDGE, q), capped(s, MAX_THUMB_BYTES)]
        fitted(p, THUMB_EDGE, q) && previews(q, s) && r == capped(s, MAX_THUMB_BYTES);
    fitting_bounds_the_edge(p, THUMB_EDGE, q);
    assert(previews(q, r));
}

/// The edge of each rendition of a profile photo.
pub open spec fn profile_edge(step: nat) -> u32 {
    if step == 0 {
        PROFILE_EDGE_LARGE
    } else if step == 1 {
        PROFILE_EDGE_MEDIUM
    } else {
        PROFILE_EDGE_SMALL
    }
}

/// What the renditions of a profile photo from `step` on can give: the first
/// that fits the wire, or an error.
pub open spec fn profile_gives(p: Picture, step: nat, r: Result<Seq<u8>, MediaFault>) -> bool
    decreases 3 - step,
{
    if step >= 3 {
        r == Err::<Seq<u8>, MediaFault>(
            MediaFault::TooLarge { size: usize::MAX, max: MAX_PROFILE_JPEG },
        )
    } else {
        exists|q: Picture, s: Result<Seq<u8>, MediaFault>|
            #![trigger fitted(p, profile_edge(step), q), jpeg_result(q, PROFILE_JPEG_QUALITY, s)]
            fitted(p, profile_edge(step), q) && jpeg_result(q, PROFILE_JPEG_QUALITY, s) && (
            match s {
                Ok(out) => if out.len() <= MAX_PROFILE_JPEG {
                    r == s
                } else {
                    profile_gives(p, step + 1, r)
                },
                Err(_) => r == s,
            })
    }
}

fn profile_ladder(img: &Photo, step: u8) -> (r: Result<Vec<u8>, MediaError>)
    ensures
        profile_gives(img@, step as nat, blob_result(r)),
    decreases 3 - step,
{
    if step >= 3 {
        return Err(MediaError::TooLarge { size: usize::MAX, max: MAX_PROFILE_JPEG });
    }
    let edge: u32 = if step == 0 {
        PROFILE_EDGE_LARGE
    } else if step == 1 {
        PROFILE_EDGE_MEDIUM
    } else {
        PROFILE_EDGE_SMALL
    };
    let scaled: Photo = fit_long_edge(img, edge);
    let out: Result<Vec<u8>, MediaError> = encode_jpeg(&scaled, PROFILE_JPEG_QUALITY);
    assert(fitted(img@, profile_edge(step as nat), scaled@));
    assert(jpeg_result(scaled@, PROFILE_JPEG_QUALITY, blob_result(out)));
    match out {
        Ok(out) => {
            if out.len() <= MAX_PROFILE_JPEG {
                return Ok(out);
            }
        },
        Err(e) => {
            return Err(e);
        },
    }
    profile_ladder(img, step + 1)
}

/// What preparing a profile photo can give.
pub open spec fn profile_photo_gives(bytes: Seq<u8>, r: Result<Seq<u8>, MediaFault>) -> bool {
    exists|d: Result<Picture, MediaFault>|
        #![trigger bounded_gives(bytes, d)]
        bounded_gives(bytes, d) && (match d {
            Err(e) => r == Err::<Seq<u8>, MediaFault>(e),
            Ok(p) => profile_gives(p, 0, r),
        })
}

/// The profile photo of a decoded image: its first rendition that fits the wire.
pub fn profile_photo(img: &Photo) -> (r: Result<Vec<u8>, MediaError>)
    ensures
        profile_gives(img@, 0, blob_result(r)),
{
    profile_ladder(img, 0)
}

/// A profile photo that fits the wire: smaller renditions are tried at one
/// quality, and where the smallest does not fit it is refused.
pub fn prepare_profile_jpeg(bytes: &[u8]) -> (r: Result<Vec<u8>, MediaError>)
    ensures
        profile_photo_gives(bytes@, blob_result(r)),
{
    let decoded: Result<Photo, MediaError> = decode_bounded(bytes);
    let ghost d = picture_result(decoded);
    assert(bounded_gives(bytes@, d));
    match decoded {
        Ok(img) => profile_photo(&img),
        Err(e) => Err(e),
    }
}

/// A prepared profile photo is a JPEG that fits the wire.
pub proof fn profile_photos_fit_the_wire(bytes: Seq<u8>, r: Result<Seq<u8>, MediaFault>)
    requires
        profile_photo_gives(bytes, r),
        r is Ok,
    ensures
        r->Ok_0.len() <= MAX_PROFILE_JPEG,
        media::sniff::kind_of(r->Ok_0) == MediaKind::Jpeg,
{
    let d = choose|d: Result<Picture, MediaFault>|
        #![trigger bounded_gives(bytes, d)]
        bounded_gives(bytes, d) && (match d {
            Err(e) => r == Err::<Seq<u8>, MediaFault>(e),
            Ok(p) => profile_gives(p, 0, r),
        });
    profile_step_fits(d->Ok_0, 0, r);
}

proof fn profile_step_fits(p: Picture, step: nat, r: Result<Seq<u8>, MediaFault>)
    requires
        profile_gives(p, step, r),
        r is Ok,
    ensures
        r->Ok_0.len() <= MAX_PROFILE_JPEG,
        media::sniff::kind_of(r->Ok_0) == MediaKind::Jpeg,
    decreases 3 - step,
{
    if step < 3 {
        let (q, s) = choose|q: Picture, s: Result<Seq<u8>, MediaFault>|
            #![trigger fitted(p, profile_edge(step), q), jpeg_result(q, PROFILE_JPEG_QUALITY, s)]
            fitted(p, profile_edge(step), q) && jpeg_result(q, PROFILE_JPEG_QUALITY, s) && (
            match s {
                Ok(out) => if out.len() <= MAX_PROFILE_JPEG {
                    r == s
                } else {
                    profile_gives(p, step + 1, r)
                },
                Err(_) => r == s,
            });
        if s is Ok && s->Ok_0.len() > MAX_PROFILE_JPEG {
            profile_step_fits(p, step + 1, r);
        }
    }
}

/// What stripping gives is a PNG where the picture has an alpha channel and
/// a JPEG where it has none.
pub proof fn stripped_kind_follows_alpha(p: Picture, r: Result<Seq<u8>, MediaFault>)
    requires
        reencode_gives(p, r),
        r is Ok,
    ensures
        media::sniff::kind_of(r->Ok_0) == (if p.alpha {
            MediaKind::Png
        } else {
            MediaKind::Jpeg
        }),
{
    if !p.alpha {
        ladder_gives_jpeg(p, JPEG_QUALITY, r);
    }
}

/// What a rung of the ladder makes of its JPEG.
proof fn ladder_step(p: Picture, quality: u8, r: Result<Seq<u8>, MediaFault>) -> (step: Result<
    Seq<u8>,
    MediaFault,
>)
    requires
        ladder_gives(p, quality, r),
    ensures
        jpeg_result(p, quality, step),
        match step {
            Ok(out) => if out.len() <= JPEG_TARGET_BYTES {
                r == step
            } else if quality <= JPEG_QUALITY_MIN {
                r == Err::<Seq<u8>, MediaFault>(
                    MediaFault::TooLarge { size: out.len() as usize, max: JPEG_TARGET_BYTES },
                )
            } else {
                ladder_gives(p, (quality - 5) as u8, r)
            },
            Err(_) => r == step,
        },
{
    encoded(jpeg_of(p, quality))
}

proof fn ladder_gives_jpeg(p: Picture, quality: u8, r: Result<Seq<u8>, MediaFault>)
    requires
        ladder_gives(p, quality, r),
        r is Ok,
    ensures
        media::sniff::kind_of(r->Ok_0) == MediaKind::Jpeg,
        r->Ok_0.len() <= JPEG_TARGET_BYTES,
    decreases quality,
{
    let step = ladder_step(p, quality, r);
    if step is Ok && step->Ok_0.len() > JPEG_TARGET_BYTES && quality > JPEG_QUALITY_MIN {
        ladder_gives_jpeg(p, (quality - 5) as u8, r);
    }
}

proof fn ladder_is_certain(
    p: Picture,
    quality: u8,
    a: Result<Seq<u8>, MediaFault>,
    b: Result<Seq<u8>, MediaFault>,
)
    requires
        ladder_gives(p, quality, a),
        ladder_gives(p, quality, b),
    ensures
        a == b,
    decreases quality,
{
    let step = ladder_step(p, quality, a);
    let _ = ladder_step(p, quality, b);
    if step is Ok && step->Ok_0.len() > JPEG_TARGET_BYTES && quality > JPEG_QUALITY_MIN {
        ladder_is_certain(p, (quality - 5) as u8, a, b);
    }
}

/// Re-encoding one picture always gives the same bytes.
pub proof fn reencoding_is_certain(
    p: Picture,
    a: Result<Seq<u8>, MediaFault>,
    b: Result<Seq<u8>, MediaFault>,
)
    requires
        reencode_gives(p, a),
        reencode_gives(p, b),
    ensures
        a == b,
{
    if !p.alpha {
        ladder_is_certain(p, JPEG_QUALITY, a, b);
    }
}

/// A stripped photo is within the byte target.
pub proof fn stripped_photos_fit_the_target(bytes: Seq<u8>, r: Result<Seq<u8>, MediaFault>)
    requires
        strip_gives(bytes, r),
        r is Ok,
    ensures
        media::sniff::kind_of(r->Ok_0) == MediaKind::Png || media::sniff::kind_of(r->Ok_0)
            == MediaKind::Jpeg && r->Ok_0.len() <= JPEG_TARGET_BYTES,
{
    let d = choose|d: Result<Picture, MediaFault>|
        #![trigger bounded_gives(bytes, d)]
        bounded_gives(bytes, d) && resent_gives(d, r);
    let p = d->Ok_0;
    let q = choose|q: Picture|
        #![trigger fitted(p, LONG_EDGE, q)]
        fitted(p, LONG_EDGE, q) && reencode_gives(q, r);
    if !q.alpha {
        ladder_gives_jpeg(q, JPEG_QUALITY, r);
    }
}

/// Two images that decode alike are stripped alike: nothing else of either file
/// has a part in what comes out.
pub proof fn only_the_picture_survives(a: Seq<u8>, b: Seq<u8>)
    requires
        strippable(a),
        strippable(b),
        forall|d: Result<Picture, MediaFault>|
            #[trigger] bounded_gives(a, d) <==> #[trigger] bounded_gives(b, d),
    ensures
        forall|r: Result<Seq<u8>, MediaFault>|
            #[trigger] strip_gives(a, r) <==> #[trigger] strip_gives(b, r),
{
    assert forall|r: Result<Seq<u8>, MediaFault>|
        #[trigger] strip_gives(a, r) == #[trigger] strip_gives(b, r) by {
        if strip_gives(a, r) {
            let d = choose|d: Result<Picture, MediaFault>|
                #![trigger bounded_gives(a, d)]
                bounded_gives(a, d) && resent_gives(d, r);
            assert(bounded_gives(b, d));
        }
        if strip_gives(b, r) {
            let d = choose|d: Result<Picture, MediaFault>|
                #![trigger bounded_gives(b, d)]
                bounded_gives(b, d) && resent_gives(d, r);
            assert(bounded_gives(a, d));
        }
    }
}

/// Two images that decode to one picture within the long edge come out of
/// stripping with the same bytes, whatever metadata either carried.
pub proof fn stripping_keeps_no_metadata(
    a: Seq<u8>,
    b: Seq<u8>,
    p: Picture,
    out_a: Result<Seq<u8>, MediaFault>,
    out_b: Result<Seq<u8>, MediaFault>,
)
    requires
        strippable(a),
        strippable(b),
        forall|d: Result<Picture, MediaFault>| #[trigger] bounded_gives(a, d) ==> d == Ok::<Picture, MediaFault>(p),
        forall|d: Result<Picture, MediaFault>| #[trigger] bounded_gives(b, d) ==> d == Ok::<Picture, MediaFault>(p),
        p.long_edge() <= LONG_EDGE,
        strip_gives(a, out_a),
        strip_gives(b, out_b),
    ensures
        out_a == out_b,
        reencode_gives(p, out_a),
{
    let da = choose|d: Result<Picture, MediaFault>|
        #![trigger bounded_gives(a, d)]
        bounded_gives(a, d) && resent_gives(d, out_a);
    let db = choose|d: Result<Picture, MediaFault>|
        #![trigger bounded_gives(b, d)]
        bounded_gives(b, d) && resent_gives(d, out_b);
    assert(da == Ok::<Picture, MediaFault>(p) && db == da);
    reencoding_is_certain(p, out_a, out_b);
}

/// Two images that decode to one picture, of whatever size, come out of
/// stripping with the same bytes wherever fitting that picture to the long edge
/// gives one picture.
pub proof fn one_fit_strips_to_the_same_bytes(
    a: Seq<u8>,
    b: Seq<u8>,
    p: Picture,
    fit: Picture,
    out_a: Result<Seq<u8>, MediaFault>,
    out_b: Result<Seq<u8>, MediaFault>,
)
    requires
        strippable(a),
        strippable(b),
        forall|d: Result<Picture, MediaFault>| #[trigger] bounded_gives(a, d) ==> d == Ok::<Picture, MediaFault>(p),
        forall|d: Result<Picture, MediaFault>| #[trigger] bounded_gives(b, d) ==> d == Ok::<Picture, MediaFault>(p),
        forall|q: Picture| #[trigger] fitted(p, LONG_EDGE, q) ==> q == fit,
        strip_gives(a, out_a),
        strip_gives(b, out_b),
    ensures
        out_a == out_b,
        reencode_gives(fit, out_a),
{
    let da = choose|d: Result<Picture, MediaFault>|
        #![trigger bounded_gives(a, d)]
        bounded_gives(a, d) && resent_gives(d, out_a);
    let db = choose|d: Result<Picture, MediaFault>|
        #![trigger bounded_gives(b, d)]
        bounded_gives(b, d) && resent_gives(d, out_b);
    assert(da == Ok::<Picture, MediaFault>(p) && db == da);
    reencoding_is_certain(fit, out_a, out_b);
}

// ---------------------------------------------------------------------------
// Cropping

/// Whether a rectangle has an area and lies inside a picture.
pub open spec fn crop_fits(p: Picture, x: u32, y: u32, w: u32, h: u32) -> bool {
    w > 0 && h > 0 && x + w <= p.width && y + h <= p.height
}

/// The text for a rectangle that does not fit.
pub open spec fn crop_text(p: Picture, x: u32, y: u32, w: u32, h: u32) -> Seq<char> {
    "crop "@ + text::decimal(x as nat) + ","@ + text::decimal(y as nat) + " "@ + text::decimal(w as nat) + "x"@
        + text::decimal(h as nat) + " outside "@ + text::decimal(p.width) + "x"@ + text::decimal(p.height)
}

/// What cropping a picture gives: the rectangle as a PNG, or an error where it
/// does not fit.
pub open spec fn cut_gives(
    p: Picture,
    x: u32,
    y: u32,
    w: u32,
    h: u32,
    r: Result<Seq<u8>, MediaFault>,
) -> bool {
    if crop_fits(p, x, y, w, h) {
        png_result(crop_of(p, x, y, w, h), r)
    } else {
        r == Err::<Seq<u8>, MediaFault>(MediaFault::Decode(crop_text(p, x, y, w, h)))
    }
}

/// What cropping a blob can give.
pub open spec fn crop_gives(
    bytes: Seq<u8>,
    x: u32,
    y: u32,
    w: u32,
    h: u32,
    r: Result<Seq<u8>, MediaFault>,
) -> bool {
    exists|d: Result<Picture, MediaFault>|
        #![trigger bounded_gives(bytes, d)]
        bounded_gives(bytes, d) && (match d {
            Err(e) => r == Err::<Seq<u8>, MediaFault>(e),
            Ok(p) => cut_gives(p, x, y, w, h, r),
        })
}

/// Crops a decoded image to a rectangle, as a PNG.
pub fn crop_photo(img: &Photo, x: u32, y: u32, w: u32, h: u32) -> (r: Result<Vec<u8>, MediaError>)
    ensures
        cut_gives(img@, x, y, w, h, blob_result(r)),
{
    let iw: u32 = img.width();
    let ih: u32 = img.height();
    if w == 0 || h == 0 || x as u64 + w as u64 > iw as u64 || y as u64 + h as u64 > ih as u64 {
        let mut why: String = "crop ".to_owned();
        push_decimal(&mut why, x as u64);
        why.append(",");
        push_decimal(&mut why, y as u64);
        why.append(" ");
        push_decimal(&mut why, w as u64);
        why.append("x");
        push_decimal(&mut why, h as u64);
        why.append(" outside ");
        push_decimal(&mut why, iw as u64);
        why.append("x");
        push_decimal(&mut why, ih as u64);
        return Err(MediaError::Decode(why));
    }
    let cut: Photo = Photo { img: cut_image(&img.img, x, y, w, h) };
    encode_png(&cut)
}

/// Crops an image to a rectangle, as a PNG.
pub fn crop_image(bytes: &[u8], x: u32, y: u32, w: u32, h: u32) -> (r: Result<Vec<u8>, MediaError>)
    ensures
        crop_gives(bytes@, x, y, w, h, blob_result(r)),
{
    let decoded: Result<Photo, MediaError> = decode_bounded(bytes);
    let ghost d = picture_result(decoded);
    assert(bounded_gives(bytes@, d));
    match decoded {
        Ok(img) => crop_photo(&img, x, y, w, h),
        Err(e) => Err(e),
    }
}

// ---------------------------------------------------------------------------
// Laws

/// A picture that fits is left as it is. One that does not gets the long edge that
/// was asked for, and keeps its alpha channel. None grows.
pub proof fn fitting_never_enlarges(p: Picture, edge: u32, q: Picture)
    requires
        fitted(p, edge, q),
        edge >= 1,
        p.width >= 1,
        p.height >= 1,
    ensures
        p.width <= edge && p.height <= edge ==> q == p,
        p.width > edge || p.height > edge ==> q.long_edge() == edge,
        p.width > edge && p.width >= p.height ==> q.width == edge,
        p.height > edge && p.height > p.width ==> q.height == edge,
        q.width <= edge && q.height <= edge,
        q.alpha == p.alpha,
{
}

/// A photo without an alpha channel is kept at the highest quality of 40, 35, 30,
/// 25 and 20 at which it has no more than 409,600 bytes: `k` steps below 40, all
/// before them too large. It is refused only where the last is too large as well.
pub proof fn the_best_quality_that_fits_is_kept(p: Picture, r: Result<Seq<u8>, MediaFault>) -> (k:
    int)
    requires
        reencode_gives(p, r),
        !p.alpha,
        jpeg_size(p),
    ensures
        0 <= k <= 4,
        forall|j: int|
            0 <= j < k ==> (#[trigger] jpeg_of(p, (40 - 5 * j) as u8)) is Ok && jpeg_of(
                p,
                (40 - 5 * j) as u8,
            )->Ok_0.len() > 409_600,
        jpeg_of(p, (40 - 5 * k) as u8) is Ok,
        r matches Ok(out) ==> out.len() <= 409_600 && out == jpeg_of(
            p,
            (40 - 5 * k) as u8,
        )->Ok_0,
        r is Err ==> k == 4 && r->Err_0 is TooLarge && jpeg_of(p, 20)->Ok_0.len() > 409_600,
{
    let a = ladder_step(p, 40, r);
    if a->Ok_0.len() <= JPEG_TARGET_BYTES {
        0
    } else {
        let b = ladder_step(p, 35, r);
        if b->Ok_0.len() <= JPEG_TARGET_BYTES {
            1
        } else {
            let c = ladder_step(p, 30, r);
            if c->Ok_0.len() <= JPEG_TARGET_BYTES {
                2
            } else {
                let d = ladder_step(p, 25, r);
                if d->Ok_0.len() <= JPEG_TARGET_BYTES {
                    3
                } else {
                    let _ = ladder_step(p, 20, r);
                    4
                }
            }
        }
    }
}

/// A picture with an alpha channel is kept as a PNG, whatever its size.
pub proof fn transparency_is_kept(p: Picture, r: Result<Seq<u8>, MediaFault>)
    requires
        reencode_gives(p, r),
        p.alpha,
    ensures
        r is Ok <==> png_of(p) is Ok,
        r matches Ok(out) ==> out == png_of(p)->Ok_0 && media::sniff::is_png(out),
{
    if r is Ok {
        media::sniff::magic_bytes_decide(r->Ok_0);
    }
}

/// A blob is decoded only where it is not empty, has no more than 26,214,400
/// bytes, and makes a picture of no more than 8192 pixels a side. Its magic bytes
/// name the format to fall back on.
pub proof fn decoding_is_bounded(bytes: Seq<u8>, r: Result<Picture, MediaFault>)
    requires
        bounded_gives(bytes, r),
    ensures
        r matches Ok(p) ==> {
            let format = if media::sniff::is_jpeg(bytes) {
                Some(Format::Jpeg)
            } else if media::sniff::is_png(bytes) {
                Some(Format::Png)
            } else if media::sniff::is_webp(bytes) {
                Some(Format::WebP)
            } else if media::sniff::is_gif(bytes) {
                Some(Format::Gif)
            } else {
                None
            };
            &&& 0 < bytes.len() <= 26_214_400
            &&& p.width <= 8192 && p.height <= 8192
            &&& decode_gives(bytes, format, 8192, Ok(p))
        },
        bytes.len() == 0 ==> r is Err && r->Err_0 is Decode,
        bytes.len() > 26_214_400 <==> r is Err && r->Err_0 is TooLarge,
{
    media::sniff::magic_bytes_decide(bytes);
}

/// A photo is stripped only where its magic bytes are those of an image, and what
/// comes out is the re-encoding of a picture that it decodes to, with no edge
/// over 1080 pixels.
pub proof fn only_images_are_stripped(bytes: Seq<u8>, r: Result<Seq<u8>, MediaFault>) -> (pq: (
    Picture,
    Picture,
))
    requires
        strip_gives(bytes, r),
        r is Ok,
    ensures
        ({
            let (p, q) = pq;
            &&& bytes.len() <= 26_214_400
            &&& media::sniff::is_jpeg(bytes) || media::sniff::is_png(bytes) || media::sniff::is_webp(
                bytes,
            ) || media::sniff::is_gif(bytes) || media::sniff::is_iso(bytes)
                && media::sniff::is_still_brand(bytes)
            &&& bounded_gives(bytes, Ok(p))
            &&& fitted(p, 1080, q)
            &&& reencode_gives(q, r)
        }),
{
    media::sniff::magic_bytes_decide(bytes);
    let d = choose|d: Result<Picture, MediaFault>|
        #![trigger bounded_gives(bytes, d)]
        bounded_gives(bytes, d) && resent_gives(d, r);
    let p = d->Ok_0;
    let q = choose|q: Picture|
        #![trigger fitted(p, LONG_EDGE, q)]
        fitted(p, LONG_EDGE, q) && reencode_gives(q, r);
    (p, q)
}

/// A profile photo is the largest of the renditions with a long edge of 512, 384
/// and 256 that has no more than 24,576 bytes at quality 40: `k` of them are too
/// large. It is refused where all three are.
pub proof fn the_largest_rendition_that_fits_is_kept(p: Picture, r: Result<Seq<u8>, MediaFault>) -> (k:
    int)
    requires
        profile_gives(p, 0, r),
    ensures
        0 <= k <= 3,
        k > 0 ==> rendition_is_over(p, 512),
        k > 1 ==> rendition_is_over(p, 384),
        k > 2 ==> rendition_is_over(p, 256),
        k == 0 ==> rendition_gives(p, 512, r),
        k == 1 ==> rendition_gives(p, 384, r),
        k == 2 ==> rendition_gives(p, 256, r),
        k == 3 ==> r is Err && r->Err_0 is TooLarge,
{
    let (q, s) = choose|q: Picture, s: Result<Seq<u8>, MediaFault>|
        #![trigger fitted(p, profile_edge(0), q), jpeg_result(q, PROFILE_JPEG_QUALITY, s)]
        fitted(p, profile_edge(0), q) && jpeg_result(q, PROFILE_JPEG_QUALITY, s) && (match s {
            Ok(out) => if out.len() <= MAX_PROFILE_JPEG {
                r == s
            } else {
                profile_gives(p, 1, r)
            },
            Err(_) => r == s,
        });
    assert(fitted(p, 512, q));
    if s is Err || s->Ok_0.len() <= MAX_PROFILE_JPEG {
        0
    } else {
        let (q, s) = choose|q: Picture, s: Result<Seq<u8>, MediaFault>|
            #![trigger fitted(p, profile_edge(1), q), jpeg_result(q, PROFILE_JPEG_QUALITY, s)]
            fitted(p, profile_edge(1), q) && jpeg_result(q, PROFILE_JPEG_QUALITY, s) && (match s {
                Ok(out) => if out.len() <= MAX_PROFILE_JPEG {
                    r == s
                } else {
                    profile_gives(p, 2, r)
                },
                Err(_) => r == s,
            });
        assert(fitted(p, 384, q));
        if s is Err || s->Ok_0.len() <= MAX_PROFILE_JPEG {
            1
        } else {
            let (q, s) = choose|q: Picture, s: Result<Seq<u8>, MediaFault>|
                #![trigger fitted(p, profile_edge(2), q), jpeg_result(q, PROFILE_JPEG_QUALITY, s)]
                fitted(p, profile_edge(2), q) && jpeg_result(q, PROFILE_JPEG_QUALITY, s) && (
                match s {
                    Ok(out) => if out.len() <= MAX_PROFILE_JPEG {
                        r == s
                    } else {
                        profile_gives(p, 3, r)
                    },
                    Err(_) => r == s,
                });
            assert(fitted(p, 256, q));
            if s is Err || s->Ok_0.len() <= MAX_PROFILE_JPEG {
                2
            } else {
                3
            }
        }
    }
}

/// Whether a rendition of a picture on a long edge has over 24,576 bytes.
pub open spec fn rendition_is_over(p: Picture, edge: u32) -> bool {
    exists|q: Picture|
        #![trigger fitted(p, edge, q)]
        fitted(p, edge, q) && jpeg_of(q, 40) is Ok && jpeg_of(q, 40)->Ok_0.len() > 24_576
}

/// Whether a result is a rendition of a picture on a long edge, within 24,576
/// bytes, or the error of its encoding.
pub open spec fn rendition_gives(p: Picture, edge: u32, r: Result<Seq<u8>, MediaFault>) -> bool {
    exists|q: Picture|
        #![trigger fitted(p, edge, q)]
        fitted(p, edge, q) && (match jpeg_of(q, 40) {
            Ok(out) => r == Ok::<Seq<u8>, MediaFault>(out) && out.len() <= 24_576,
            Err(_) => r is Err && r->Err_0 is Encode,
        })
}

/// A blob passes a cap exactly if it is no larger, and is not changed by it.
pub proof fn caps_refuse_only_what_is_over(s: Result<Seq<u8>, MediaFault>, max: usize)
    ensures
        capped(s, max) is Ok <==> s is Ok && s->Ok_0.len() <= max,
        capped(s, max) matches Ok(out) ==> s is Ok && out == s->Ok_0,
{
}

/// The preview of a picture is of the picture on a long edge of 96: a PNG where it
/// has an alpha channel, else a JPEG of quality 80. It has no more than 8192 bytes.
pub proof fn previews_are_small(p: Picture, r: Result<Seq<u8>, MediaFault>) -> (q: Picture)
    requires
        preview_gives(p, r),
        r is Ok,
    ensures
        fitted(p, 96, q),
        r->Ok_0.len() <= 8192,
        q.alpha ==> png_of(q) is Ok && r->Ok_0 == png_of(q)->Ok_0,
        !q.alpha ==> jpeg_of(q, 80) is Ok && r->Ok_0 == jpeg_of(q, 80)->Ok_0,
{
    let (q, s) = choose|q: Picture, s: Result<Seq<u8>, MediaFault>|
        #![trigger fitted(p, THUMB_EDGE, q), capped(s, MAX_THUMB_BYTES)]
        fitted(p, THUMB_EDGE, q) && previews(q, s) && r == capped(s, MAX_THUMB_BYTES);
    q
}

/// A crop that has an area and lies inside the picture is the rectangle as a PNG;
/// any other is refused before anything is encoded.
pub proof fn crops_stay_inside(
    p: Picture,
    x: u32,
    y: u32,
    w: u32,
    h: u32,
    r: Result<Seq<u8>, MediaFault>,
)
    requires
        cut_gives(p, x, y, w, h, r),
    ensures
        0 < w && 0 < h && x + w <= p.width && y + h <= p.height && png_of(
            crop_of(p, x, y, w, h),
        ) is Ok <==> r is Ok,
        r matches Ok(out) ==> out == png_of(crop_of(p, x, y, w, h))->Ok_0,
        w == 0 || h == 0 || x + w > p.width || y + h > p.height <==> r is Err
            && r->Err_0 is Decode,
{
}

} // verus!
