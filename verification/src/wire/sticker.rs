//! Limits of sticker packs.

use vstd::prelude::*;

verus! {

pub const KIND_EMOJI: u8 = 1;

pub const KIND_STICKER: u8 = 2;

pub const VISIBILITY_PUBLIC: u8 = 0;

pub const VISIBILITY_PRIVATE: u8 = 1;

pub const MAX_EDGE_EMOJI: u32 = 160;

pub const MAX_EDGE_STICKER: u32 = 512;

pub const MAX_BYTES_EMOJI: usize = 65_536;

pub const MAX_BYTES_STICKER: usize = 524_288;

/// Long edge of a thumbnail.
pub const THUMB_EDGE: u32 = 96;

/// Bytes of a thumbnail.
pub const MAX_THUMB_BYTES: usize = 8_192;

/// Whether there is such a kind.
pub fn valid_kind(kind: u8) -> (valid: bool)
    ensures
        valid == (kind == KIND_EMOJI || kind == KIND_STICKER),
{
    kind == KIND_EMOJI || kind == KIND_STICKER
}

/// Long edge of an item.
pub open spec fn edge_cap(kind: u8) -> u32 {
    if kind == KIND_EMOJI {
        MAX_EDGE_EMOJI
    } else {
        MAX_EDGE_STICKER
    }
}

/// Bytes of an item.
pub open spec fn byte_cap(kind: u8) -> usize {
    if kind == KIND_EMOJI {
        MAX_BYTES_EMOJI
    } else {
        MAX_BYTES_STICKER
    }
}

/// The shapes that a kind takes: emoji are square, stickers at most three
/// times as long as wide.
pub open spec fn shape_fits(kind: u8, w: int, h: int) -> bool {
    if w == 0 || h == 0 {
        false
    } else if kind == KIND_EMOJI {
        w == h
    } else {
        w <= 3 * h && h <= 3 * w
    }
}

/// Long edge of an item.
pub fn max_edge(kind: u8) -> (edge: u32)
    ensures
        edge == edge_cap(kind),
{
    if kind == KIND_EMOJI {
        MAX_EDGE_EMOJI
    } else {
        MAX_EDGE_STICKER
    }
}

/// Bytes of an item.
pub fn max_bytes(kind: u8) -> (bytes: usize)
    ensures
        bytes == byte_cap(kind),
{
    if kind == KIND_EMOJI {
        MAX_BYTES_EMOJI
    } else {
        MAX_BYTES_STICKER
    }
}

/// Whether a kind takes this shape.
pub fn aspect_ok(kind: u8, w: u32, h: u32) -> (ok: bool)
    ensures
        ok == shape_fits(kind, w as int, h as int),
{
    if w == 0 || h == 0 {
        return false;
    }
    if kind == KIND_EMOJI {
        w == h
    } else {
        w as u64 <= 3 * h as u64 && h as u64 <= 3 * w as u64
    }
}

/// Emoji are square. Stickers are up to three times as long as wide, either way.
/// Neither kind takes a picture without an area, and turning one by a quarter does
/// not change whether it fits.
pub proof fn shapes_fit_either_way(kind: u8, w: int, h: int)
    requires
        w >= 0,
        h >= 0,
    ensures
        shape_fits(kind, w, h) == shape_fits(kind, h, w),
        shape_fits(kind, w, h) ==> w > 0 && h > 0,
        w > 0 && w == h ==> shape_fits(kind, w, h),
        kind == KIND_EMOJI && shape_fits(kind, w, h) ==> w == h,
        kind != KIND_EMOJI && w >= h > 0 ==> (shape_fits(kind, w, h) <==> w <= 3 * h),
{
}

} // verus!
