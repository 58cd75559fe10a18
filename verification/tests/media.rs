use std::io::Cursor;

use image::{AnimationDecoder, DynamicImage, ImageBuffer};
use schat::limits::media::{JPEG_TARGET_BYTES, LONG_EDGE, MAX_INPUT_BYTES, PROFILE_EDGE_LARGE};
use schat::media::gifenc::{check_frame, encode_gif, GifFrame};
use schat::media::photo::{
    crop_image, crop_photo, decode_bounded, encode_jpeg, fit_long_edge, make_thumbnail,
    prepare_profile_jpeg, preview_photo, profile_photo, strip_and_reencode_image, strip_photo,
    MAX_PROFILE_JPEG,
};
use schat::media::sniff::{
    is_animated_webp, is_image, is_sticker_image, is_video, sniff, MediaKind,
};
use schat::media::sticker::prepare_sticker;
use schat::media::MediaError;
use schat::wire::sticker::{
    KIND_EMOJI, KIND_STICKER, MAX_BYTES_STICKER, MAX_THUMB_BYTES, THUMB_EDGE,
};

// Sniffing

#[test]
fn magic_bytes() {
    assert_eq!(sniff(&[0xff, 0xd8, 0xff, 0xe0]), MediaKind::Jpeg);
    assert_eq!(sniff(b"GIF89a...."), MediaKind::Gif);
    assert_eq!(sniff(b"GIF87a...."), MediaKind::Gif);
    assert_eq!(sniff(&[0x89, 0x50, 0x4e, 0x47, 0, 0, 0, 0]), MediaKind::Png);
    assert_eq!(sniff(b"RIFFxxxxWEBP"), MediaKind::Webp);
    assert_eq!(sniff(b"....ftypheic"), MediaKind::Heic);
    assert_eq!(sniff(b"....ftypmp42"), MediaKind::Mp4);
    assert_eq!(sniff(&[0x1a, 0x45, 0xdf, 0xa3]), MediaKind::Webm);
    assert_eq!(sniff(b"plain text"), MediaKind::Reject);
    assert_eq!(sniff(&[]), MediaKind::Reject);
    assert!(is_sticker_image(MediaKind::Gif));
    assert!(!is_sticker_image(MediaKind::Jpeg));
    assert!(is_video(MediaKind::Webm));
}

#[test]
fn animated_webp_flag() {
    let mut bytes = b"RIFFxxxxWEBPVP8X".to_vec();
    bytes.extend_from_slice(&[0u8; 4]); // chunk size
    bytes.push(0x02); // animation flag at offset 20
    assert!(is_animated_webp(&bytes));
    bytes[20] = 0;
    assert!(!is_animated_webp(&bytes));
}

#[test]
fn short_heads_are_rejected() {
    assert_eq!(sniff(&[0x89, 0x50, 0x4e, 0x47]), MediaKind::Reject);
    assert_eq!(sniff(b"RIFFxxxxWEB"), MediaKind::Reject);
    assert_eq!(sniff(b"....ftyp"), MediaKind::Reject);
    assert!(is_image(MediaKind::Heic));
    assert!(!is_image(MediaKind::Mp4));
    assert_eq!(MediaKind::Webm.as_str(), "webm");
    assert_eq!(MediaKind::Jpeg.as_str(), "jpeg");
}

// Photos

/// CRC-32/ISO-HDLC (PNG chunk CRC), so that a valid tEXt chunk can be
/// spliced in.
fn crc32_png(data: &[u8]) -> u32 {
    let mut crc: u32 = 0xffff_ffff;
    for &b in data {
        crc ^= u32::from(b);
        for _ in 0..8 {
            crc = if crc & 1 != 0 {
                (crc >> 1) ^ 0xedb8_8320
            } else {
                crc >> 1
            };
        }
    }
    !crc
}

/// A tiny valid PNG with a tEXt chunk (stands in for EXIF metadata).
fn png_with_metadata() -> Vec<u8> {
    let img = DynamicImage::new_rgb8(64, 48);
    let mut out = Cursor::new(Vec::new());
    img.write_to(&mut out, image::ImageFormat::Png).unwrap();
    let mut bytes = out.into_inner();
    let text = b"tEXtComment\x00sensitive-metadata-here";
    let mut chunk = ((text.len() - 4) as u32).to_be_bytes().to_vec();
    chunk.extend_from_slice(text);
    chunk.extend_from_slice(&crc32_png(text).to_be_bytes());
    let ihdr_end = 8 + 12 + 13;
    bytes.splice(ihdr_end..ihdr_end, chunk);
    bytes
}

#[test]
fn strip_removes_metadata_chunks() {
    let input = png_with_metadata();
    assert!(
        input.windows(9).any(|w| w == b"sensitive"),
        "test input must carry the marker"
    );
    let out = strip_and_reencode_image(&input).unwrap();
    assert_eq!(sniff(&out), MediaKind::Jpeg, "RGB → JPEG");
    assert!(
        !out.windows(9).any(|w| w == b"sensitive"),
        "metadata must not survive decode+re-encode"
    );
    decode_bounded(&out).unwrap();
}

/// A real JPEG with an APP1 EXIF segment spliced in after the SOI.
fn jpeg_with_exif() -> Vec<u8> {
    let img = DynamicImage::new_rgb8(80, 60);
    let mut out = Cursor::new(Vec::new());
    img.write_to(&mut out, image::ImageFormat::Jpeg).unwrap();
    let mut bytes = out.into_inner();
    assert_eq!(&bytes[..2], &[0xff, 0xd8], "SOI");
    let payload = b"Exif\0\0II*\0 GPS: 48.8584 N, 2.2945 E - Eiffel";
    let app1_len = (payload.len() + 2) as u16;
    let mut seg = vec![0xff, 0xe1];
    seg.extend_from_slice(&app1_len.to_be_bytes());
    seg.extend_from_slice(payload);
    bytes.splice(2..2, seg);
    bytes
}

#[test]
fn strip_removes_exif_app1() {
    let input = jpeg_with_exif();
    assert!(
        input.windows(4).any(|w| w == b"Exif"),
        "fixture must carry the EXIF marker"
    );
    decode_bounded(&input).unwrap();
    let out = strip_and_reencode_image(&input).unwrap();
    assert_eq!(sniff(&out), MediaKind::Jpeg);
    assert!(
        !out.windows(4).any(|w| w == b"Exif") && !out.windows(3).any(|w| w == b"GPS"),
        "EXIF/GPS must not survive the pipeline"
    );
    assert_ne!(&out[2..4], &[0xff, 0xe1], "no APP1 in output");
    decode_bounded(&out).unwrap();
}

#[test]
fn alpha_stays_png() {
    let img = DynamicImage::new_rgba8(32, 32);
    let mut out = Cursor::new(Vec::new());
    img.write_to(&mut out, image::ImageFormat::Png).unwrap();
    let stripped = strip_and_reencode_image(&out.into_inner()).unwrap();
    assert_eq!(sniff(&stripped), MediaKind::Png);
}

#[test]
fn profile_jpeg_fits_wire_cap() {
    // 1024x768 noise-ish gradient: big enough to need the ladder.
    let mut img = image::RgbImage::new(1024, 768);
    for (x, y, p) in img.enumerate_pixels_mut() {
        *p = image::Rgb([(x % 251) as u8, (y % 239) as u8, ((x * y) % 233) as u8]);
    }
    let mut buf = Cursor::new(Vec::new());
    DynamicImage::ImageRgb8(img)
        .write_to(&mut buf, image::ImageFormat::Png)
        .unwrap();
    let jpeg = prepare_profile_jpeg(&buf.into_inner()).unwrap();
    assert_eq!(sniff(&jpeg), MediaKind::Jpeg);
    assert!(jpeg.len() <= MAX_PROFILE_JPEG);
    let decoded = decode_bounded(&jpeg).unwrap();
    assert!(decoded.width().max(decoded.height()) <= PROFILE_EDGE_LARGE);
}

#[test]
fn crop_bounds_checked() {
    let img = DynamicImage::new_rgb8(100, 80);
    let mut out = Cursor::new(Vec::new());
    img.write_to(&mut out, image::ImageFormat::Png).unwrap();
    let bytes = out.into_inner();
    let cropped = crop_image(&bytes, 10, 10, 40, 40).unwrap();
    let decoded = decode_bounded(&cropped).unwrap();
    assert_eq!((decoded.width(), decoded.height()), (40, 40));
    assert!(crop_image(&bytes, 90, 0, 20, 20).is_err());
    assert!(crop_image(&bytes, 0, 0, 0, 10).is_err());
}

#[test]
fn rejects_non_images_and_oversize() {
    assert!(strip_and_reencode_image(b"plain text").is_err());
    let huge = vec![0u8; MAX_INPUT_BYTES + 1];
    assert!(matches!(
        strip_and_reencode_image(&huge),
        Err(MediaError::TooLarge { .. })
    ));
}

#[test]
fn media_errors_say_what_is_wrong() {
    let Err(e) = decode_bounded(&[]) else {
        panic!("an empty blob is no image")
    };
    assert_eq!(e.message(), "decode: empty input");
    let huge = vec![0u8; MAX_INPUT_BYTES + 1];
    let Err(e) = strip_and_reencode_image(&huge) else {
        panic!("the blob is over the cap")
    };
    assert_eq!(
        e.message(),
        "too large: 26214401 bytes (max 26214400)"
    );
    assert!(matches!(
        prepare_sticker(b"x", 99),
        Err(MediaError::Unsupported("unknown sticker kind"))
    ));
}

#[test]
fn long_edges_are_fitted() {
    let fitted = |w, h, edge| {
        let img = decode_bounded(&opaque_png(w, h)).unwrap();
        let out = fit_long_edge(&img, edge);
        (out.width(), out.height())
    };
    assert_eq!(fitted(2160, 1080, LONG_EDGE), (1080, 540));
    assert_eq!(fitted(10, 20, LONG_EDGE), (10, 20));
    assert_eq!(fitted(30, 20, 10), (10, 7), "to the nearest pixel");
    assert_eq!(fitted(4000, 2, 100), (100, 1), "a side is never lost");
    assert_eq!(fitted(1, 3000, 100), (1, 100));
}

/// A black picture without an alpha channel.
fn opaque_png(w: u32, h: u32) -> Vec<u8> {
    let mut out = Cursor::new(Vec::new());
    DynamicImage::new_rgb8(w, h)
        .write_to(&mut out, image::ImageFormat::Png)
        .unwrap();
    out.into_inner()
}

/// Noise that no quality makes small.
fn noise(w: u32, h: u32) -> Vec<u8> {
    let mut seed = 1u32;
    let mut img = image::RgbImage::new(w, h);
    for p in img.pixels_mut() {
        for c in p.0.iter_mut() {
            seed = seed.wrapping_mul(1_664_525).wrapping_add(1_013_904_223);
            *c = if seed >> 31 == 0 { 0 } else { 255 };
        }
    }
    let mut out = Cursor::new(Vec::new());
    DynamicImage::ImageRgb8(img)
        .write_to(&mut out, image::ImageFormat::Png)
        .unwrap();
    out.into_inner()
}

#[test]
fn photos_keep_to_the_byte_target() {
    let out = strip_and_reencode_image(&noise(300, 300)).unwrap();
    assert_eq!(sniff(&out), MediaKind::Jpeg);
    assert!(out.len() <= JPEG_TARGET_BYTES);
    let Err(MediaError::TooLarge { size, max }) = strip_and_reencode_image(&noise(1080, 1080))
    else {
        panic!("the lowest quality is over the target")
    };
    assert!(size > JPEG_TARGET_BYTES);
    assert_eq!(max, 409_600);
}

#[test]
fn metadata_does_not_change_the_outcome() {
    let plain = opaque_png(64, 48);
    let marked = png_with_metadata();
    assert_ne!(plain, marked);
    let out = strip_and_reencode_image(&marked).unwrap();
    assert_eq!(out, strip_and_reencode_image(&plain).unwrap());
    assert_eq!(out, strip_photo(&decode_bounded(&plain).unwrap()).unwrap());
}

#[test]
fn jpegs_hold_sixteen_bit_sides() {
    let img = decode_bounded(&opaque_png(9, 5)).unwrap();
    assert_eq!((img.width(), img.height()), (9, 5));
    let jpeg = encode_jpeg(&img, 40).unwrap();
    assert_eq!(sniff(&jpeg), MediaKind::Jpeg);
    assert_eq!(jpeg, encode_jpeg(&img, 40).unwrap());
}

#[test]
fn thumbnails_keep_their_alpha() {
    let thumb = make_thumbnail(&png(600, 300)).unwrap();
    assert_eq!(sniff(&thumb), MediaKind::Png);
    let img = DynamicImage::new_rgb8(600, 300);
    let mut out = Cursor::new(Vec::new());
    img.write_to(&mut out, image::ImageFormat::Png).unwrap();
    let thumb = make_thumbnail(&out.into_inner()).unwrap();
    assert_eq!(sniff(&thumb), MediaKind::Jpeg);
}

#[test]
fn a_decoded_photo_gives_what_its_blob_gives() {
    let blob = opaque_png(640, 480);
    let img = decode_bounded(&blob).unwrap();
    let cut = crop_photo(&img, 10, 20, 40, 30).unwrap();
    assert_eq!(cut, crop_image(&blob, 10, 20, 40, 30).unwrap());
    let cut = decode_bounded(&cut).unwrap();
    assert_eq!((cut.width(), cut.height()), (40, 30));
    let outside = crop_photo(&img, 601, 0, 40, 30).unwrap_err();
    assert_eq!(outside.message(), "decode: crop 601,0 40x30 outside 640x480");

    let preview = preview_photo(&img).unwrap();
    assert_eq!(preview, make_thumbnail(&blob).unwrap());
    let preview = decode_bounded(&preview).unwrap();
    assert_eq!((preview.width(), preview.height()), (THUMB_EDGE, 72));

    let profile = profile_photo(&img).unwrap();
    assert_eq!(profile, prepare_profile_jpeg(&blob).unwrap());
    assert_eq!(sniff(&profile), MediaKind::Jpeg);
    assert!(profile.len() <= MAX_PROFILE_JPEG);
}

// Animations

fn solid(w: u32, h: u32, rgb: [u8; 3], delay_cs: u16) -> GifFrame {
    let mut rgba = Vec::with_capacity((w * h * 4) as usize);
    for _ in 0..w * h {
        rgba.extend_from_slice(&rgb);
        rgba.push(255);
    }
    GifFrame {
        rgba,
        width: w,
        height: h,
        delay_cs,
    }
}

#[test]
fn encode_roundtrip_decodes() {
    let frames = vec![
        solid(16, 16, [255, 0, 0], 10),
        solid(16, 16, [0, 0, 255], 10),
    ];
    let gif = encode_gif(&frames).unwrap();
    assert_eq!(sniff(&gif), MediaKind::Gif);
    let decoder = image::codecs::gif::GifDecoder::new(Cursor::new(&gif)).unwrap();
    let decoded: Vec<_> = decoder.into_frames().collect_frames().unwrap();
    assert_eq!(decoded.len(), 2);
    assert_eq!(decoded[0].buffer().width(), 16);
    assert_eq!(decoded[0].buffer().get_pixel(3, 3).0, [255, 0, 0, 255]);
    assert_eq!(decoded[1].buffer().get_pixel(3, 3).0, [0, 0, 255, 255]);
}

#[test]
fn rejects_bad_input() {
    assert!(encode_gif(&[]).is_err());
    let mut bad = solid(8, 8, [0, 0, 0], 10);
    bad.rgba.truncate(10);
    assert!(encode_gif(&[bad]).is_err());
    // Mismatched dims across frames.
    assert!(encode_gif(&[solid(8, 8, [0, 0, 0], 10), solid(4, 4, [0, 0, 0], 10)]).is_err());
}

#[test]
fn frames_are_named_in_errors() {
    let mut bad = solid(2, 2, [0, 0, 0], 10);
    bad.rgba.truncate(3);
    let Err(e) = bad.validate() else {
        panic!("a frame without its pixels")
    };
    assert_eq!(e.message(), "encode: frame 2x2 wants 16 rgba bytes, got 3");
    let frames = [solid(2, 2, [0, 0, 0], 10)];
    assert!(check_frame(&frames, 0).is_ok());
    let Err(e) = encode_gif(&[solid(2, 2, [0, 0, 0], 10), bad]) else {
        panic!("the second frame lacks pixels")
    };
    assert_eq!(e.message(), "encode: frame 2x2 wants 16 rgba bytes, got 3");
    let Err(e) = encode_gif(&[GifFrame {
        rgba: vec![0; 65_536 * 4],
        width: 65_536,
        height: 1,
        delay_cs: 10,
    }]) else {
        panic!("too wide for the format")
    };
    assert!(matches!(e, MediaError::Encode(_)));
}

#[test]
fn frames_beyond_memory_are_refused() {
    let vast = GifFrame {
        rgba: vec![],
        width: 0x8000_0000,
        height: 0x8000_0000,
        delay_cs: 10,
    };
    let Err(e) = vast.validate() else {
        panic!("it holds no byte of them")
    };
    assert_eq!(
        e.message(),
        "encode: frame 2147483648x2147483648 wants 18446744073709551616 rgba bytes, got 0"
    );
    assert!(matches!(encode_gif(&[vast]), Err(MediaError::Encode(_))));
}

// Stickers

fn png(w: u32, h: u32) -> Vec<u8> {
    let img: image::RgbaImage = ImageBuffer::from_fn(w, h, |x, y| {
        image::Rgba([(x % 256) as u8, (y % 256) as u8, 128, 255])
    });
    let mut out = Cursor::new(Vec::new());
    DynamicImage::ImageRgba8(img)
        .write_to(&mut out, image::ImageFormat::Png)
        .unwrap();
    out.into_inner()
}

#[test]
fn static_sticker_normalized_to_png() {
    let src = png(1024, 512); // 2:1, over the 512 edge cap
    let prep = prepare_sticker(&src, KIND_STICKER).unwrap();
    assert_eq!(sniff(&prep.bytes), MediaKind::Png);
    assert_eq!((prep.width, prep.height), (512, 256));
    assert!(prep.bytes.len() <= MAX_BYTES_STICKER);
    assert!(prep.thumb.len() <= MAX_THUMB_BYTES);
    let thumb = decode_bounded(&prep.thumb).unwrap();
    assert!(thumb.width().max(thumb.height()) <= THUMB_EDGE);
}

#[test]
fn long_stickers_keep_within_one_to_three() {
    // A third of the edge cap rounds up.
    for (w, h, fit) in [(1536, 512, (512, 171)), (512, 1536, (171, 512))] {
        let prep = prepare_sticker(&png(w, h), KIND_STICKER).unwrap();
        assert_eq!((prep.width, prep.height), fit);
    }
    assert!(prepare_sticker(&png(301, 100), KIND_STICKER).is_err());
}

#[test]
fn emoji_must_be_square() {
    assert!(prepare_sticker(&png(100, 100), KIND_EMOJI).is_ok());
    assert!(prepare_sticker(&png(100, 50), KIND_EMOJI).is_err());
    // And the edge cap shrinks to 160.
    let prep = prepare_sticker(&png(400, 400), KIND_EMOJI).unwrap();
    assert_eq!((prep.width, prep.height), (160, 160));
}

#[test]
fn jpeg_and_garbage_rejected() {
    // JPEG is never a sticker (EXIF).
    let img = DynamicImage::new_rgb8(32, 32);
    let mut out = Cursor::new(Vec::new());
    img.write_to(&mut out, image::ImageFormat::Jpeg).unwrap();
    assert!(prepare_sticker(&out.into_inner(), KIND_STICKER).is_err());
    assert!(prepare_sticker(b"not an image", KIND_STICKER).is_err());
    assert!(prepare_sticker(&png(32, 32), 99).is_err());
}

#[test]
fn animated_gif_passes_through() {
    let frames = vec![
        GifFrame {
            rgba: [255, 0, 0, 255].repeat((64 * 64) as usize),
            width: 64,
            height: 64,
            delay_cs: 10,
        },
        GifFrame {
            rgba: [0, 0, 255, 255].repeat((64 * 64) as usize),
            width: 64,
            height: 64,
            delay_cs: 10,
        },
    ];
    let gif = encode_gif(&frames).unwrap();
    let prep = prepare_sticker(&gif, KIND_STICKER).unwrap();
    assert_eq!(prep.bytes, gif, "animation preserved byte-for-byte");
    assert_eq!((prep.width, prep.height), (64, 64));
}
