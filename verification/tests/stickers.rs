use sticker_bot::error::ErrorKind;
use sticker_bot::stickers::{
    encode_sticker, gen_set_name, set_name_at, sticker_set_url, RemoteStickerHandle, Sticker,
    StickerError, MAX_STICKER_BYTES, STICKER_SIDE,
};

fn picture(width: u32, height: u32, format: image::ImageFormat) -> Vec<u8> {
    let mut pixels = image::RgbaImage::new(width, height);
    for (x, y, pixel) in pixels.enumerate_pixels_mut() {
        *pixel = image::Rgba([(x % 256) as u8, (y % 256) as u8, ((x + y) % 256) as u8, 255]);
    }
    let picture = image::DynamicImage::ImageRgba8(pixels);
    let picture = if format == image::ImageFormat::Jpeg {
        image::DynamicImage::ImageRgb8(picture.to_rgb8())
    } else {
        picture
    };
    let mut out = std::io::Cursor::new(Vec::new());
    picture.write_to(&mut out, format).unwrap();
    out.into_inner()
}

fn decoded(payload: &[u8]) -> image::DynamicImage {
    image::load_from_memory_with_format(payload, image::ImageFormat::WebP).unwrap()
}

#[test]
fn sticker_is_a_square_of_512_whatever_the_source() {
    assert_eq!(STICKER_SIDE, 512);
    for (width, height) in [(100, 40), (40, 100), (1, 1), (512, 3), (700, 512), (1024, 1024), (513, 511)] {
        let source = picture(width, height, image::ImageFormat::Png);
        let payload = encode_sticker("a.png", Some(&source), usize::MAX).unwrap();
        let sticker = decoded(&payload);
        assert_eq!((sticker.width(), sticker.height()), (512, 512));
    }
}

#[test]
fn sticker_is_written_as_webp() {
    let source = picture(64, 64, image::ImageFormat::Png);
    let payload = encode_sticker("a.png", Some(&source), usize::MAX).unwrap();
    assert_eq!(&payload[0..4], b"RIFF");
    assert_eq!(&payload[8..12], b"WEBP");
    assert_eq!(image::guess_format(&payload).unwrap(), image::ImageFormat::WebP);
}

#[test]
fn source_of_the_right_size_keeps_its_pixels() {
    let source = picture(512, 512, image::ImageFormat::Png);
    let payload = encode_sticker("board/a.png", Some(&source), usize::MAX).unwrap();
    let before = image::load_from_memory_with_format(&source, image::ImageFormat::Png).unwrap();
    assert_eq!(decoded(&payload).to_rgba8(), before.to_rgba8());
}

#[test]
fn resampling_takes_the_nearest_pixel() {
    // Two columns, one red and one blue, become two halves of the sticker.
    let mut pixels = image::RgbaImage::new(2, 1);
    pixels.put_pixel(0, 0, image::Rgba([255, 0, 0, 255]));
    pixels.put_pixel(1, 0, image::Rgba([0, 0, 255, 255]));
    let mut out = std::io::Cursor::new(Vec::new());
    image::DynamicImage::ImageRgba8(pixels).write_to(&mut out, image::ImageFormat::Png).unwrap();
    let payload = encode_sticker("two.png", Some(&out.into_inner()), usize::MAX).unwrap();
    let sticker = decoded(&payload).to_rgba8();
    assert_eq!(sticker.get_pixel(0, 0), &image::Rgba([255, 0, 0, 255]));
    assert_eq!(sticker.get_pixel(255, 511), &image::Rgba([255, 0, 0, 255]));
    assert_eq!(sticker.get_pixel(256, 0), &image::Rgba([0, 0, 255, 255]));
    assert_eq!(sticker.get_pixel(511, 511), &image::Rgba([0, 0, 255, 255]));
}

#[test]
fn encoding_is_reproducible() {
    let source = picture(90, 30, image::ImageFormat::Png);
    let first = encode_sticker("a.png", Some(&source), usize::MAX).unwrap();
    let second = encode_sticker("a.png", Some(&source), usize::MAX).unwrap();
    assert_eq!(first, second);
}

#[test]
fn format_is_told_by_the_extension() {
    let png = picture(20, 20, image::ImageFormat::Png);
    let jpeg = picture(20, 20, image::ImageFormat::Jpeg);
    assert!(encode_sticker("a.PNG", Some(&png), usize::MAX).is_ok());
    assert!(encode_sticker("data/alice_cats_1.jpg", Some(&jpeg), usize::MAX).is_ok());
    assert!(encode_sticker("a.jpeg", Some(&jpeg), usize::MAX).is_ok());
    // A PNG under a JPEG's name is not decoded.
    assert_eq!(encode_sticker("a.jpg", Some(&png), usize::MAX), Err(StickerError::Undecodable));
    assert_eq!(encode_sticker("a", Some(&png), usize::MAX), Err(StickerError::Undecodable));
    assert_eq!(encode_sticker("a.txt", Some(&png), usize::MAX), Err(StickerError::Undecodable));
}

#[test]
fn missing_and_broken_sources() {
    assert_eq!(encode_sticker("a.png", None, usize::MAX), Err(StickerError::NotFound));
    assert_eq!(encode_sticker("a.png", Some(b""), usize::MAX), Err(StickerError::Undecodable));
    assert_eq!(encode_sticker("a.png", Some(b"not a picture"), usize::MAX), Err(StickerError::Undecodable));
}

#[test]
fn payload_over_the_ceiling_is_refused() {
    assert_eq!(MAX_STICKER_BYTES, 512 * 1024);
    let source = picture(64, 64, image::ImageFormat::Png);
    let payload = encode_sticker("a.png", Some(&source), MAX_STICKER_BYTES).unwrap();
    assert!(payload.len() <= MAX_STICKER_BYTES);
    assert_eq!(encode_sticker("a.png", Some(&source), payload.len()), Ok(payload.clone()));
    assert_eq!(encode_sticker("a.png", Some(&source), payload.len() - 1), Err(StickerError::Oversized));
    assert_eq!(encode_sticker("a.png", Some(&source), 0), Err(StickerError::Oversized));
}

#[test]
fn sticker_errors_by_family() {
    assert_eq!(StickerError::NotFound.kind(), ErrorKind::Validation);
    assert_eq!(StickerError::Undecodable.kind(), ErrorKind::Validation);
    assert_eq!(StickerError::SourceTooLarge.kind(), ErrorKind::Validation);
    assert_eq!(StickerError::Unencodable.kind(), ErrorKind::Validation);
    assert_eq!(StickerError::Oversized.kind(), ErrorKind::Validation);
    assert_eq!(StickerError::EmptyHandle.kind(), ErrorKind::ExternalService);
}

#[test]
fn empty_handle_is_refused() {
    assert_eq!(RemoteStickerHandle::new(String::new()), Err(StickerError::EmptyHandle));
    let handle = RemoteStickerHandle::new("CAACAgIAAx".to_string()).unwrap();
    assert_eq!(handle.as_str(), "CAACAgIAAx");
    assert_eq!(handle.clone(), handle);
}

#[test]
fn sticker_keeps_the_first_twenty_tags() {
    let handle = RemoteStickerHandle::new("file-1".to_string()).unwrap();
    let tags: Vec<String> = (0..25).map(|i| format!("t{i}")).collect();
    let sticker = Sticker::new(handle.clone(), tags.clone());
    assert_eq!(sticker.handle(), &handle);
    assert_eq!(sticker.emoji_list(), &tags[..20].to_vec());
    let few = Sticker::new(handle.clone(), tags[..3].to_vec());
    assert_eq!(few.emoji_list(), &tags[..3].to_vec());
    let twenty = Sticker::new(handle.clone(), tags[..20].to_vec());
    assert_eq!(twenty.emoji_list(), &tags[..20].to_vec());
    let none = Sticker::new(handle.clone(), Vec::new());
    assert_eq!(none.emoji_list(), &Vec::<String>::new());
    assert_eq!(twenty.clone(), twenty);
    assert_eq!(twenty.into_parts(), (handle, tags[..20].to_vec()));
}

#[test]
fn set_name_is_owner_board_instant_and_bot() {
    assert_eq!(
        set_name_at("alice", "cats", 1_700_000_000_123, "stickerbot"),
        "alice_cats_1700000000123_by_stickerbot"
    );
    assert_eq!(set_name_at("a", "b", 0, ""), "a_b_0_by_");
    assert_eq!(set_name_at("", "", 7, "bot"), "__7_by_bot");
    assert_eq!(set_name_at("a", "b", -45, "c"), "a_b_-45_by_c");
    assert_eq!(set_name_at("a", "b", i64::MAX, "c"), "a_b_9223372036854775807_by_c");
    assert_eq!(set_name_at("a", "b", i64::MIN, "c"), "a_b_-9223372036854775808_by_c");
    assert_eq!(set_name_at("a", "b", 10, "c"), "a_b_10_by_c");
    assert_eq!(set_name_at("a", "b", 1_000_000, "c"), "a_b_1000000_by_c");
}

#[test]
fn names_made_at_different_instants_differ() {
    let first = set_name_at("alice", "cats", 1_700_000_000_123, "bot");
    let second = set_name_at("alice", "cats", 1_700_000_000_124, "bot");
    assert_ne!(first, second);
    assert_ne!(set_name_at("a", "b", 1, "c"), set_name_at("a", "b", -1, "c"));
    assert_ne!(set_name_at("a", "b", 1, "c"), set_name_at("a", "b", 10, "c"));
}

#[test]
fn name_made_now_carries_the_clock() {
    let before = chrono::Utc::now().timestamp_millis();
    let name = gen_set_name("alice", "cats", "stickerbot");
    let after = chrono::Utc::now().timestamp_millis();
    let middle = name.strip_prefix("alice_cats_").unwrap().strip_suffix("_by_stickerbot").unwrap();
    let instant: i64 = middle.parse().unwrap();
    assert!(before <= instant && instant <= after);
    assert_eq!(name, set_name_at("alice", "cats", instant, "stickerbot"));
}

#[test]
fn set_address_is_derived_from_the_name() {
    assert_eq!(sticker_set_url("alice_cats_1_by_bot"), "https://t.me/addstickers/alice_cats_1_by_bot");
}
