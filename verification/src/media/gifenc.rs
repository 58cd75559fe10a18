//! Encoding raw frames as an animated GIF.

use vstd::prelude::*;
use vstd::utf8::{encode_utf8, is_ascii_chars_encode_utf8};

use crate::media::{self, MediaError, MediaFault};
use crate::media::sniff::{sniff, MediaKind};
use crate::text::{self, push_decimal, push_wide};

verus! {

/// A frame of packed RGBA pixels, with its delay in hundredths of a second.
#[derive(Clone, Debug, PartialEq, Eq)]
pub struct GifFrame {
    pub rgba: Vec<u8>,
    pub width: u32,
    pub height: u32,
    pub delay_cs: u16,
}

/// The speed of the palette search.
pub const GIF_SPEED: i32 = 10;

/// Whether a frame has an area and as many bytes as pixels need.
pub open spec fn frame_ok(f: GifFrame) -> bool {
    f.width > 0 && f.height > 0 && f.rgba@.len() == f.width * f.height * 4
}

/// The text for a frame that is not well formed.
pub open spec fn frame_text(f: GifFrame) -> Seq<char> {
    "frame "@ + text::decimal(f.width as nat) + "x"@ + text::decimal(f.height as nat) + " wants "@ + text::decimal(
        (f.width * f.height * 4) as nat,
    ) + " rgba bytes, got "@ + text::decimal(f.rgba@.len())
}

impl GifFrame {
    /// Checks a frame's size.
    pub fn validate(&self) -> (r: Result<(), MediaError>)
        ensures
            r is Ok <==> frame_ok(*self),
            r matches Err(e) ==> e@ == MediaFault::Encode(frame_text(*self)),
    {
        assert(0 <= self.width * self.height <= 0xffff_ffff * 0xffff_ffff) by (nonlinear_arith)
            requires
                self.width <= 0xffff_ffff,
                self.height <= 0xffff_ffff,
        ;
        let want: u128 = self.width as u128 * self.height as u128 * 4;
        if self.width == 0 || self.height == 0 || self.rgba.len() as u128 != want {
            let mut why: String = "frame ".to_owned();
            push_decimal(&mut why, self.width as u64);
            why.append("x");
            push_decimal(&mut why, self.height as u64);
            why.append(" wants ");
            push_wide(&mut why, want);
            why.append(" rgba bytes, got ");
            push_decimal(&mut why, self.rgba.len() as u64);
            return Err(MediaError::Encode(why));
        }
        Ok(())
    }
}

// ---------------------------------------------------------------------------
// The encoder

/// A `gif::Encoder` that writes into memory.
#[verifier::external_body]
pub struct GifEncoder {
    inner: gif::Encoder<Vec<u8>>,
}

/// The bytes that the encoder has written.
pub uninterp spec fn gif_written(encoder: GifEncoder) -> Seq<u8>;

/// The blocks that `gif::Encoder::write_frame` writes for the frame that
/// `gif::Frame::from_rgba_speed` makes of these pixels.
pub uninterp spec fn gif_frame_blocks(
    width: u16,
    height: u16,
    rgba: Seq<u8>,
    speed: i32,
    delay: u16,
) -> Seq<u8>;

/// Signature, logical screen without a global palette, and the two unused
/// colors that stand for one.
pub open spec fn gif_head(width: u16, height: u16) -> Seq<u8> {
    encode_utf8("GIF89a"@) + seq![
        (width % 256) as u8,
        (width / 256) as u8,
        (height % 256) as u8,
        (height / 256) as u8,
        0x80u8,
        0,
        0,
    ] + seq![0u8, 0, 0, 0, 0, 0]
}

/// The application block that makes an animation loop for ever.
pub open spec fn gif_loop_block() -> Seq<u8> {
    seq![0x21u8, 0xff, 11] + encode_utf8("NETSCAPE2.0"@) + seq![3u8, 1, 0, 0, 0]
}

/// `gif::Encoder::new` into memory, with an empty global palette: it writes
/// the head of the file. Writing to a `Vec` does not fail.
#[verifier::external_body]
fn gif_open(width: u16, height: u16) -> (r: Result<GifEncoder, String>)
    ensures
        r is Ok,
        r matches Ok(encoder) ==> gif_written(encoder) == gif_head(width, height),
{
    let inner = gif::Encoder::new(Vec::new(), width, height, &[]).map_err(|e| e.to_string())?;
    Ok(GifEncoder { inner })
}

/// `gif::Encoder::set_repeat` without end: it writes the loop block. Writing to a
/// `Vec` does not fail.
#[verifier::external_body]
fn gif_loop(encoder: &mut GifEncoder) -> (r: Result<(), String>)
    ensures
        r is Ok,
        gif_written(*final(encoder)) == gif_written(*old(encoder)) + gif_loop_block(),
{
    encoder.inner.set_repeat(gif::Repeat::Infinite).map_err(|e| e.to_string())
}

/// `gif::Frame::from_rgba_speed` and `gif::Encoder::write_frame`: it writes
/// the blocks of one frame, which depend on nothing written before. A frame of
/// that many bytes, with a palette of its own, is never refused; memory is taken
/// to suffice, as for every `Vec`.
#[verifier::external_body]
fn gif_frame(
    encoder: &mut GifEncoder,
    width: u16,
    height: u16,
    rgba: &[u8],
    speed: i32,
    delay: u16,
) -> (r: Result<(), String>)
    requires
        rgba@.len() == width * height * 4,
        1 <= speed <= 30,
    ensures
        r is Ok,
        gif_written(*final(encoder)) == gif_written(*old(encoder)) + gif_frame_blocks(
            width,
            height,
            rgba@,
            speed,
            delay,
        ),
{
    let mut pixels = rgba.to_vec();
    let mut frame = gif::Frame::from_rgba_speed(width, height, &mut pixels, speed);
    frame.delay = delay;
    encoder.inner.write_frame(&frame).map_err(|e| e.to_string())
}

/// `gif::Encoder::into_inner`: it writes the trailer and hands out the bytes.
/// Writing to a `Vec` does not fail.
#[verifier::external_body]
fn gif_close(encoder: GifEncoder) -> (r: Result<Vec<u8>, String>)
    ensures
        r is Ok,
        r matches Ok(out) ==> out@ == gif_written(encoder) + seq![0x3bu8],
{
    encoder.inner.into_inner().map_err(|e| e.to_string())
}

// ---------------------------------------------------------------------------
// Encoding

/// The blocks of the first `n` frames.
pub open spec fn frames_blocks(frames: Seq<GifFrame>, n: nat) -> Seq<u8>
    decreases n,
{
    if n == 0 {
        Seq::empty()
    } else {
        let f = frames[n - 1];
        frames_blocks(frames, (n - 1) as nat) + gif_frame_blocks(
            f.width as u16,
            f.height as u16,
            f.rgba@,
            GIF_SPEED,
            f.delay_cs,
        )
    }
}

/// The file that frames make: it loops, and its screen is the first frame's.
pub open spec fn gif_file(frames: Seq<GifFrame>) -> Seq<u8> {
    gif_head(frames[0].width as u16, frames[0].height as u16) + gif_loop_block() + frames_blocks(
        frames,
        frames.len(),
    ) + seq![0x3bu8]
}

/// Whether a frame can go on the screen of the first.
pub open spec fn frame_fits(frames: Seq<GifFrame>, i: int) -> bool {
    &&& frame_ok(frames[i])
    &&& frames[i].width == frames[0].width
    &&& frames[i].height == frames[0].height
}

/// Whether frames can make a file at all.
pub open spec fn screen_ok(frames: Seq<GifFrame>) -> bool {
    &&& frames.len() > 0
    &&& frame_ok(frames[0])
    &&& frames[0].width <= u16::MAX
    &&& frames[0].height <= u16::MAX
}

/// The text for the first ground on which a screen is refused.
pub open spec fn screen_text(frames: Seq<GifFrame>) -> Seq<char> {
    if frames.len() == 0 {
        "no frames"@
    } else if !frame_ok(frames[0]) {
        frame_text(frames[0])
    } else {
        "gif dims "@ + text::decimal(frames[0].width as nat) + "x"@ + text::decimal(frames[0].height as nat)
            + " exceed u16"@
    }
}

/// The text for a frame that cannot go on the screen.
pub open spec fn misfit_text(frames: Seq<GifFrame>, i: int) -> Seq<char> {
    if !frame_ok(frames[i]) {
        frame_text(frames[i])
    } else {
        "frame "@ + text::decimal(frames[i].width as nat) + "x"@ + text::decimal(frames[i].height as nat)
            + " does not match logical screen "@ + text::decimal(frames[0].width as nat) + "x"@ + text::decimal(
            frames[0].height as nat,
        )
    }
}

/// The text for the first frame from `i` on that cannot go on the screen, if
/// there is one.
pub open spec fn misfit_from(frames: Seq<GifFrame>, i: int) -> Option<Seq<char>>
    decreases frames.len() - i,
{
    if i >= frames.len() {
        None
    } else if !frame_fits(frames, i) {
        Some(misfit_text(frames, i))
    } else {
        misfit_from(frames, i + 1)
    }
}

/// The text for the first ground on which frames are refused, if there is one.
pub open spec fn gif_refusal(frames: Seq<GifFrame>) -> Option<Seq<char>> {
    if !screen_ok(frames) {
        Some(screen_text(frames))
    } else {
        misfit_from(frames, 0)
    }
}

/// A file starts with its signature.
proof fn head_is_gif(width: u16, height: u16, rest: Seq<u8>)
    ensures
        media::sniff::kind_of(gif_head(width, height) + rest) == MediaKind::Gif,
{
    let b = gif_head(width, height) + rest;
    reveal_strlit("GIF89a");
    is_ascii_chars_encode_utf8("GIF89a"@);
    let sig = encode_utf8("GIF89a"@);
    assert(b.subrange(0, 6) =~= sig);
    assert(b.subrange(0, 3)[0] == 0x47);
    assert(!media::sniff::tagged(b, 0, seq![0xffu8, 0xd8, 0xff])) by {
        if media::sniff::tagged(b, 0, seq![0xffu8, 0xd8, 0xff]) {
            assert(b.subrange(0, 3)[0] == 0xff);
        }
    }
}

/// Encodes frames as a GIF that loops for ever. All frames share the size of
/// the first.
pub fn encode_gif(frames: &[GifFrame]) -> (r: Result<Vec<u8>, MediaError>)
    ensures
        match gif_refusal(frames@) {
            Some(why) => r is Err && r->Err_0@ == MediaFault::Encode(why),
            None => {
                &&& r is Ok
                &&& r->Ok_0@ == gif_file(frames@)
                &&& media::sniff::kind_of(r->Ok_0@) == MediaKind::Gif
            },
        },
{
    if frames.len() == 0 {
        return Err(MediaError::Encode("no frames".to_owned()));
    }
    let first: &GifFrame = &frames[0];
    if let Err(e) = first.validate() {
        return Err(e);
    }
    let w: u32 = first.width;
    let h: u32 = first.height;
    if w > u16::MAX as u32 || h > u16::MAX as u32 {
        let mut why: String = "gif dims ".to_owned();
        push_decimal(&mut why, w as u64);
        why.append("x");
        push_decimal(&mut why, h as u64);
        why.append(" exceed u16");
        return Err(MediaError::Encode(why));
    }
    let mut encoder: GifEncoder = match gif_open(w as u16, h as u16) {
        Ok(encoder) => encoder,
        Err(why) => {
            return Err(MediaError::Encode(why));
        },
    };
    if let Err(why) = gif_loop(&mut encoder) {
        return Err(MediaError::Encode(why));
    }
    let mut i: usize = 0;
    while i < frames.len()
        invariant
            i <= frames@.len(),
            screen_ok(frames@),
            w == frames@[0].width,
            h == frames@[0].height,
            gif_refusal(frames@) == misfit_from(frames@, i as int),
            gif_written(encoder) == gif_head(w as u16, h as u16) + gif_loop_block()
                + frames_blocks(frames@, i as nat),
        decreases frames.len() - i,
    {
        match check_frame(frames, i) {
            Ok(_) => {},
            Err(e) => {
                return Err(e);
            },
        }
        let f: &GifFrame = &frames[i];
        let ghost before = gif_written(encoder);
        match gif_frame(
            &mut encoder,
            w as u16,
            h as u16,
            f.rgba.as_slice(),
            GIF_SPEED,
            f.delay_cs,
        ) {
            Ok(_) => {},
            Err(why) => {
                return Err(MediaError::Encode(why));
            },
        }
        i = i + 1;
        assert(gif_written(encoder) =~= gif_head(w as u16, h as u16) + gif_loop_block()
            + frames_blocks(frames@, i as nat));
    }
    let out: Vec<u8> = match gif_close(encoder) {
        Ok(out) => out,
        Err(why) => {
            return Err(MediaError::Encode(why));
        },
    };
    assert(out@ =~= gif_head(w as u16, h as u16) + (gif_loop_block() + frames_blocks(
        frames@,
        frames@.len(),
    ) + seq![0x3bu8]));
    proof {
        head_is_gif(
            w as u16,
            h as u16,
            gif_loop_block() + frames_blocks(frames@, frames@.len()) + seq![0x3bu8],
        );
    }
    if sniff(out.as_slice()) != MediaKind::Gif {
        return Err(MediaError::Encode("encoder output failed sniff".to_owned()));
    }
    Ok(out)
}

/// Checks that a frame can go on the screen of the first.
pub fn check_frame(frames: &[GifFrame], i: usize) -> (r: Result<(), MediaError>)
    requires
        i < frames@.len(),
    ensures
        r is Ok <==> frame_fits(frames@, i as int),
        r matches Err(e) ==> e@ == MediaFault::Encode(misfit_text(frames@, i as int)),
{
    let f: &GifFrame = &frames[i];
    if let Err(e) = f.validate() {
        return Err(e);
    }
    let w: u32 = frames[0].width;
    let h: u32 = frames[0].height;
    if f.width != w || f.height != h {
        let mut why: String = "frame ".to_owned();
        push_decimal(&mut why, f.width as u64);
        why.append("x");
        push_decimal(&mut why, f.height as u64);
        why.append(" does not match logical screen ");
        push_decimal(&mut why, w as u64);
        why.append("x");
        push_decimal(&mut why, h as u64);
        return Err(MediaError::Encode(why));
    }
    Ok(())
}

// ---------------------------------------------------------------------------
// Laws

/// Frames make a file exactly if there are any, and each has an area, the bytes
/// that its pixels need and the size of the first, which fits the format.
pub proof fn well_formed_frames_are_encoded(frames: Seq<GifFrame>)
    ensures
        gif_refusal(frames) is None <==> screen_ok(frames) && forall|i: int|
            0 <= i < frames.len() ==> #[trigger] frame_fits(frames, i),
{
    misfits_are_found(frames, 0);
}

proof fn misfits_are_found(frames: Seq<GifFrame>, from: int)
    requires
        0 <= from,
    ensures
        misfit_from(frames, from) is None <==> forall|i: int|
            from <= i < frames.len() ==> #[trigger] frame_fits(frames, i),
    decreases frames.len() - from,
{
    if from < frames.len() && frame_fits(frames, from) {
        misfits_are_found(frames, from + 1);
    }
}

/// Frames are refused exactly if there are none, the first has an edge over 65535,
/// or one of them has no area, the wrong number of bytes or another size than the
/// first.
pub proof fn frames_are_of_one_size(frames: Seq<GifFrame>)
    ensures
        gif_refusal(frames) is None <==> {
            &&& frames.len() > 0
            &&& frames[0].width <= 65535 && frames[0].height <= 65535
            &&& forall|i: int|
                0 <= i < frames.len() ==> (#[trigger] frames[i]).width > 0 && frames[i].height > 0
                    && frames[i].rgba@.len() == 4 * frames[i].width * frames[i].height
                    && frames[i].width == frames[0].width && frames[i].height == frames[0].height
        },
{
    well_formed_frames_are_encoded(frames);
    assert forall|i: int| 0 <= i < frames.len() implies frame_fits(frames, i) == ({
        &&& (#[trigger] frames[i]).width > 0 && frames[i].height > 0
        &&& frames[i].rgba@.len() == 4 * frames[i].width * frames[i].height
        &&& frames[i].width == frames[0].width && frames[i].height == frames[0].height
    }) by {
        let w = frames[i].width;
        let h = frames[i].height;
        assert(w * h * 4 == 4 * w * h) by (nonlinear_arith);
    }
    if gif_refusal(frames) is None {
        assert(frame_fits(frames, 0));
        assert forall|i: int| 0 <= i < frames.len() implies (#[trigger] frames[i]).width > 0
            && frames[i].height > 0 && frames[i].rgba@.len() == 4 * frames[i].width
            * frames[i].height && frames[i].width == frames[0].width && frames[i].height
            == frames[0].height by {
            assert(frame_fits(frames, i));
        }
    }
}

/// One more frame goes in front of the trailer, with its own delay; nothing that
/// was there changes.
pub proof fn frames_are_appended(frames: Seq<GifFrame>, f: GifFrame)
    requires
        frames.len() > 0,
    ensures
        gif_file(frames.push(f)) == gif_file(frames).drop_last() + gif_frame_blocks(
            f.width as u16,
            f.height as u16,
            f.rgba@,
            10,
            f.delay_cs,
        ) + seq![0x3bu8],
        gif_file(frames).last() == 0x3b,
{
    let all = frames.push(f);
    blocks_agree(frames, all, frames.len());
    assert(all[frames.len() as int] == f);
    let head = gif_head(frames[0].width as u16, frames[0].height as u16) + gif_loop_block();
    let blocks = frames_blocks(frames, frames.len());
    assert(gif_file(frames).drop_last() =~= head + blocks);
    assert(gif_file(all) =~= head + blocks + gif_frame_blocks(
        f.width as u16,
        f.height as u16,
        f.rgba@,
        10,
        f.delay_cs,
    ) + seq![0x3bu8]);
}

proof fn blocks_agree(a: Seq<GifFrame>, b: Seq<GifFrame>, n: nat)
    requires
        n <= a.len(),
        n <= b.len(),
        forall|i: int| 0 <= i < n ==> #[trigger] a[i] == b[i],
    ensures
        frames_blocks(a, n) == frames_blocks(b, n),
    decreases n,
{
    if n > 0 {
        blocks_agree(a, b, (n - 1) as nat);
    }
}

/// A file starts with the size of its first frame, low byte first, and loops for
/// ever.
pub proof fn files_start_with_their_size(frames: Seq<GifFrame>)
    requires
        gif_refusal(frames) is None,
    ensures
        gif_file(frames)[6] + 256 * gif_file(frames)[7] == frames[0].width,
        gif_file(frames)[8] + 256 * gif_file(frames)[9] == frames[0].height,
        gif_file(frames).subrange(19, 22) == seq![0x21u8, 0xff, 11],
        gif_file(frames).subrange(33, 38) == seq![3u8, 1, 0, 0, 0],
{
    frames_are_of_one_size(frames);
    reveal_strlit("GIF89a");
    reveal_strlit("NETSCAPE2.0");
    is_ascii_chars_encode_utf8("GIF89a"@);
    is_ascii_chars_encode_utf8("NETSCAPE2.0"@);
    let f = gif_file(frames);
    let head = gif_head(frames[0].width as u16, frames[0].height as u16);
    assert(head.len() == 19);
    assert(f[6] == head[6] && f[7] == head[7] && f[8] == head[8] && f[9] == head[9]);
    assert(f.subrange(19, 22) =~= seq![0x21u8, 0xff, 11]);
    assert(f.subrange(33, 38) =~= seq![3u8, 1, 0, 0, 0]);
}

/// Frames are refused on the first ground that holds: that there are none, that the
/// first is not well formed, that the screen is too large, and then the first frame
/// that does not go on it.
pub proof fn frames_are_refused_on_the_first_ground(frames: Seq<GifFrame>, i: int)
    ensures
        frames.len() == 0 ==> gif_refusal(frames) == Some("no frames"@),
        frames.len() > 0 && !frame_ok(frames[0]) ==> gif_refusal(frames) == Some(
            frame_text(frames[0]),
        ),
        frames.len() > 0 && frame_ok(frames[0]) && (frames[0].width > 65535 || frames[0].height
            > 65535) ==> gif_refusal(frames) == Some(
            "gif dims "@ + text::decimal(frames[0].width as nat) + "x"@ + text::decimal(
                frames[0].height as nat,
            ) + " exceed u16"@,
        ),
        screen_ok(frames) && 0 <= i < frames.len() && !frame_fits(frames, i) && (forall|k: int|
            0 <= k < i ==> #[trigger] frame_fits(frames, k)) ==> gif_refusal(frames) == Some(
            misfit_text(frames, i),
        ),
{
    if screen_ok(frames) && 0 <= i < frames.len() && !frame_fits(frames, i) && (forall|k: int|
        0 <= k < i ==> #[trigger] frame_fits(frames, k)) {
        first_misfit_is_told(frames, 0, i);
    }
}

proof fn first_misfit_is_told(frames: Seq<GifFrame>, from: int, i: int)
    requires
        0 <= from <= i < frames.len(),
        !frame_fits(frames, i),
        forall|k: int| from <= k < i ==> #[trigger] frame_fits(frames, k),
    ensures
        misfit_from(frames, from) == Some(misfit_text(frames, i)),
    decreases i - from,
{
    if from < i {
        assert(frame_fits(frames, from));
        first_misfit_is_told(frames, from + 1, i);
    }
}

} // verus!
