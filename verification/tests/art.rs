use embedded_graphics::pixelcolor::raw::RawU16;
use embedded_graphics::pixelcolor::Rgb565;
use embedded_graphics::prelude::{IntoStorage, RawData};
use std::time::Duration;
use waveshare28_panel::art::{
    blend_on_black, decode, join, looks_like_svg, premultiplied_to_565, retry_delay, svg_head,
    ArtError, Decoded, FetchGate,
};

fn ms(d: Duration) -> u64 {
    d.as_millis() as u64
}

#[test]
fn joins_relative_path() {
    assert_eq!(
        join("http://localhost:3000", "/albumart?x=1"),
        "http://localhost:3000/albumart?x=1"
    );
}

#[test]
fn tolerates_trailing_and_leading_slashes() {
    assert_eq!(join("http://h/", "/a"), "http://h/a");
    assert_eq!(join("http://h", "a"), "http://h/a");
}

#[test]
fn passes_absolute_urls_through() {
    assert_eq!(
        join("http://localhost:3000", "https://cdn.example/logo.png"),
        "https://cdn.example/logo.png"
    );
}

#[test]
fn pending_key_keeps_the_published_space() {
    assert_eq!(
        join(
            "http://localhost:3000",
            "https://radio-directory.firebaseapp.com/volumio/src/images/radio-thumbnails/Classic FM.jpg"
        ),
        "https://radio-directory.firebaseapp.com/volumio/src/images/radio-thumbnails/Classic FM.jpg"
    );
}

#[test]
fn first_path_is_sent() {
    let mut gate = FetchGate::new();
    let t0: u64 = 0;
    assert!(gate.should_send("/albumart", t0));
    assert!(!gate.should_send("/albumart", t0));
}

#[test]
fn success_does_not_refetch() {
    let mut gate = FetchGate::new();
    let t0: u64 = 1_000;
    assert!(gate.should_send("https://cdn.example/a.jpg", t0));
    gate.completed(true, t0);
    assert!(!gate.should_send("https://cdn.example/a.jpg", t0 + ms(Duration::from_secs(60))));
}

#[test]
fn failed_url_retries_after_backoff_not_before() {
    let mut gate = FetchGate::new();
    let t0: u64 = 1_000;
    assert!(gate.should_send("Classic FM.jpg", t0));
    gate.completed(false, t0);
    assert_eq!(gate.failures(), 1);
    assert!(!gate.should_send("Classic FM.jpg", t0 + ms(Duration::from_millis(1999))));
    assert!(gate.should_send("Classic FM.jpg", t0 + ms(Duration::from_secs(2))));
}

#[test]
fn in_flight_blocks_a_retry() {
    let mut gate = FetchGate::new();
    let t0: u64 = 1_000;
    assert!(gate.should_send("/a", t0));
    gate.completed(false, t0);
    assert!(gate.should_send("/a", t0 + ms(Duration::from_secs(2))));
    assert!(!gate.should_send("/a", t0 + ms(Duration::from_secs(30))));
}

#[test]
fn retrieving_is_the_gap_after_a_miss_until_the_cover_arrives() {
    let mut gate = FetchGate::new();
    let t0: u64 = 1_000;
    assert!(gate.should_send("/a.jpg", t0));
    assert!(!gate.retrieving(), "the first try is not a wait message");
    gate.completed(false, t0);
    assert!(gate.retrieving());
    assert!(!gate.should_send("/a.jpg", t0 + ms(Duration::from_secs(1))));
    assert!(gate.retrieving(), "backoff still owes the cover");
    gate.completed(true, t0 + ms(Duration::from_secs(2)));
    assert!(!gate.retrieving());
}

#[test]
fn new_path_sends_immediately_and_resets_failures() {
    let mut gate = FetchGate::new();
    let t0: u64 = 1_000;
    assert!(gate.should_send("/old", t0));
    gate.completed(false, t0);
    assert_eq!(gate.failures(), 1);
    assert!(gate.should_send("/new", t0));
    assert_eq!(gate.failures(), 0);
    assert!(!gate.retrieving());
}

#[test]
fn backoff_opens_then_caps() {
    assert_eq!(Duration::from_millis(retry_delay(1)), Duration::from_secs(2));
    assert_eq!(Duration::from_millis(retry_delay(2)), Duration::from_secs(8));
    assert_eq!(Duration::from_millis(retry_delay(3)), Duration::from_secs(30));
    assert_eq!(Duration::from_millis(retry_delay(9)), Duration::from_secs(30));
}

#[test]
fn recognises_svg() {
    assert!(looks_like_svg(b"<svg xmlns=\"http://www.w3.org/2000/svg\"/>"));
    assert!(looks_like_svg(b"  \n<?xml version=\"1.0\"?><svg/>"));
    assert!(looks_like_svg(&[0x1f, 0x8b, 0x08, 0x00]));
}

#[test]
fn rejects_non_svg_text() {
    assert!(!looks_like_svg(b"<html><body>404</body></html>"));
    assert!(!looks_like_svg(b"not markup at all"));
}

#[test]
fn blends_alpha_over_black() {
    assert_eq!(blend_on_black([255, 255, 255, 255]), Rgb565::new(31, 63, 31).into_storage());
    assert_eq!(blend_on_black([255, 255, 255, 0]), Rgb565::new(0, 0, 0).into_storage());
    assert_eq!(blend_on_black([255, 255, 255, 128]), Rgb565::new(16, 32, 16).into_storage());
}

#[test]
fn retry_count_keeps_counting_after_the_cap() {
    let mut gate = FetchGate::new();
    assert!(gate.should_send("/x", 0));
    gate.completed(false, 0);
    assert!(gate.should_send("/x", 2_000));
    gate.completed(false, 2_000);
    assert_eq!(gate.failures(), 2);
    assert!(!gate.should_send("/x", 9_999));
    assert!(gate.should_send("/x", 10_000));
    gate.completed(false, 10_000);
    assert_eq!(gate.failures(), 3);
    assert!(!gate.should_send("/x", 39_999));
    assert!(gate.should_send("/x", 40_000));
}

#[test]
fn svg_markup_is_found_after_whitespace_or_inside() {
    assert!(svg_head("\t\n <svg/>"));
    assert!(svg_head("<!-- x --><svg/>"));
    assert!(!svg_head("<SVG/>"));
    assert!(!svg_head(""));
}

#[test]
fn invalid_utf8_before_the_markup_does_not_hide_it() {
    let mut bytes = vec![0xff, 0xfe];
    bytes.extend_from_slice(b"<svg/>");
    assert!(looks_like_svg(&bytes));
}

#[test]
fn markup_past_512_bytes_is_not_looked_for() {
    let mut bytes = vec![b'a'; 600];
    bytes.extend_from_slice(b"<svg/>");
    assert!(!looks_like_svg(&bytes));
}

#[test]
fn decode_tells_svg_from_garbage() {
    assert!(matches!(decode(b"<svg/>", 100), Ok(Decoded::Svg)));
    assert!(matches!(decode(b"hello", 100), Err(ArtError::Unrecognised)));
}

#[test]
fn a_truncated_png_is_a_decode_error() {
    let png_magic = [0x89u8, b'P', b'N', b'G', 0x0d, 0x0a, 0x1a, 0x0a, 0, 0, 0];
    assert!(matches!(decode(&png_magic, 100), Err(ArtError::Decode)));
}

#[test]
fn premultiplied_pixels_take_the_channels_as_they_stand() {
    let px = premultiplied_to_565(&vec![255, 255, 255, 255, 8, 4, 8, 0]);
    assert_eq!(px, vec![0xffff, Rgb565::new(1, 1, 1).into_storage()]);
    let raw: RawU16 = Rgb565::new(1, 1, 1).into();
    assert_eq!(raw.into_inner(), 0x0821);
}

#[test]
fn a_png_decodes_scaled_to_fit_the_box() {
    let img = image::RgbaImage::from_raw(2, 1, vec![255, 0, 0, 255, 0, 0, 255, 255]).unwrap();
    let mut bytes: Vec<u8> = Vec::new();
    img.write_to(&mut std::io::Cursor::new(&mut bytes), image::ImageFormat::Png).unwrap();
    match decode(&bytes, 100) {
        Ok(Decoded::Raster(a)) => {
            assert_eq!((a.w, a.h), (100, 50));
            assert_eq!(a.px.len(), 100 * 50);
            assert_eq!(a.px[0], Rgb565::new(31, 0, 0).into_storage());
        }
        _ => panic!("raster expected"),
    }
}
