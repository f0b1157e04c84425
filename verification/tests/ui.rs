use embedded_graphics::pixelcolor::Rgb565;
use embedded_graphics::prelude::{IntoStorage, RgbColor, WebColors};
use waveshare28_panel::config::{BarGap, Config, StatusText, Strip, Theme};
use waveshare28_panel::face::{
    dock_glyph_center, dock_pause_bars, face_text_origin, face_text_slot, fmt_clock,
    info_ring_center, pane_texts, seek_chrome_cy, seek_fraction, speaker_colour, stream_cols, DOCK_GLYPH,
    INFO_RING, INFO_RING_LANDSCAPE_X, INFO_RING_PORTRAIT_X, INFO_RING_Y, SEEK_KNOB_H,
};
use waveshare28_panel::geom::{rect, Point, Rect, Size};
use waveshare28_panel::state::PlayerState;
use waveshare28_panel::touch::Touch;
use waveshare28_panel::ui::{
    face_hit, palette, word, wrap, Face, Hotspot, Layout, TextPane, ART_WAIT, HOLD_TICKS,
    PORTRAIT_ART_MAX,
};

fn origin(r: Rect) -> (i32, i32, u32, u32) {
    (r.top_left.x, r.top_left.y, r.size.width, r.size.height)
}

fn c565(c: Rgb565) -> u16 {
    c.into_storage()
}

#[test]
fn portrait_matches_adr0020_a1() {
    let l = Layout::for_rotation(0);
    assert_eq!(origin(l.art), (27, 0, 186, 186));
    assert_eq!(origin(l.text), (12, 196, 216, 40));
    assert_eq!(origin(l.info), (192, 0, 48, 48));
    assert_eq!(origin(l.dock), (0, 236, 240, 52));
    assert_eq!(origin(l.progress), (0, 288, 240, 32));
    assert_eq!(l.art.size.width, l.art.size.height);
    assert!(l.art.top_left.x + l.art.size.width as i32 <= INFO_RING_PORTRAIT_X);
    assert_eq!(l.theme, Theme::Ink);
}

#[test]
fn portrait_icon_to_seek_matches_divider_to_icon() {
    let l = Layout::for_rotation(0);
    let ring = Rect::with_center(
        dock_glyph_center(l.dock_cell(2)),
        Size::new(DOCK_GLYPH as u32, DOCK_GLYPH as u32),
    );
    let from_divider = ring.top_left.y - l.dock.top_left.y;
    let to_seek = l.progress.top_left.y - (ring.top_left.y + DOCK_GLYPH);
    assert_eq!(from_divider, to_seek);
    assert_eq!(seek_chrome_cy(l.progress, true), SEEK_KNOB_H / 2);
    assert!(seek_chrome_cy(l.progress, true) < seek_chrome_cy(l.progress, false));
}

#[test]
fn landscape_matches_adr0020_a2() {
    let l = Layout::for_rotation(270);
    assert_eq!(origin(l.art), (0, 0, 200, 200));
    assert_eq!(origin(l.info), (276, 0, 44, 44));
    assert_eq!(origin(l.dock), (200, 156, 120, 44));
    assert_eq!(origin(l.progress), (0, 200, 320, 40));
    assert_eq!(origin(l.dock_cell(0)), (200, 156, 40, 44));
    let a = l.dock_cell(0).center();
    let b = l.dock_cell(1).center();
    let c = l.dock_cell(2).center();
    assert_eq!(b.x - a.x, c.x - b.x);
    assert_eq!(a.y, b.y);
    assert_eq!(b.y, c.y);
    assert!(
        l.dock_cell(0).size.width as i32 >= DOCK_GLYPH + 8,
        "landscape cells must leave a gap around the glyph"
    );
}

#[test]
fn pause_bars_share_the_cell_center() {
    let c = Point::new(20, 22);
    let [a, b] = dock_pause_bars(c);
    let right = b.top_left.x + b.size.width as i32;
    let pair = Rect::new(a.top_left, Size::new((right - a.top_left.x) as u32, a.size.height));
    assert_eq!(pair.center(), c);
    assert_eq!(a.size, b.size);
    assert_eq!(a.top_left.y, b.top_left.y);
}

#[test]
fn landscape_title_starts_below_the_info_ring() {
    let l = Layout::for_rotation(270);
    let o = face_text_origin(&l);
    assert_eq!(o.x, 210);
    assert_eq!(o.y, 44);
    let p = Layout::for_rotation(0);
    assert_eq!(face_text_origin(&p), Point::new(12, 196));
    assert_eq!(origin(face_text_slot(&p)), (12, 196, 216, 40));
    assert_eq!(INFO_RING, 18);
    assert_eq!(Point::new(INFO_RING_PORTRAIT_X, INFO_RING_Y), Point::new(220, 2));
    assert_eq!(Point::new(INFO_RING_LANDSCAPE_X, INFO_RING_Y), Point::new(300, 2));
    assert_eq!(INFO_RING_PORTRAIT_X + INFO_RING as i32, 238, "2 px in from the portrait right edge");
    assert_eq!(INFO_RING_LANDSCAPE_X + INFO_RING as i32, 318, "2 px in from the landscape right edge");
    assert_eq!(
        info_ring_center(&p),
        Rect::new(Point::new(INFO_RING_PORTRAIT_X, INFO_RING_Y), Size::new(INFO_RING, INFO_RING)).center()
    );
    assert_eq!(
        info_ring_center(&l),
        Rect::new(Point::new(INFO_RING_LANDSCAPE_X, INFO_RING_Y), Size::new(INFO_RING, INFO_RING)).center()
    );
}

#[test]
fn long_title_scrolls_the_block_vertically() {
    let l = Layout::for_rotation(0);
    let slot = face_text_slot(&l);
    let mut pane = TextPane::default();
    pane.set(
        "A long title that must wrap more than twice so the block is taller than the slot",
        "",
        "",
        slot,
    );
    assert!(pane.over() > 0);
    let mut moved = false;
    for _ in 0..(HOLD_TICKS as usize + 3) {
        if pane.step() {
            moved = true;
        }
    }
    assert!(moved);
    assert!(pane.offset() > 0);
    pane.set(
        "A long title that must wrap more than twice so the block is taller than the slot",
        "",
        "",
        slot,
    );
    assert!(pane.offset() > 0, "same strings must not restart the scroll");
}

#[test]
fn portrait_scrolls_artist_and_album_through_the_title_slot() {
    let slot = face_text_slot(&Layout::for_rotation(0));
    assert_eq!(origin(slot), (12, 196, 216, 40));
    let mut bare = TextPane::default();
    bare.set("Drive Back.Flac", "", "", slot);
    assert_eq!(bare.over(), 0, "a title with no credits does not scroll");
    let mut pane = TextPane::default();
    pane.set("Drive Back.Flac", "Neil Young & Crazy Horse", "Zuma", slot);
    assert!(pane.over() > 0, "title plus artist plus album overflows 40 px");
    let mut moved = false;
    for _ in 0..(HOLD_TICKS as usize + pane.over() as usize + 2) {
        if pane.step() {
            moved = true;
        }
    }
    assert!(moved);
    assert!(pane.offset() > 0);
}

#[test]
fn landscape_short_credits_fit_the_column() {
    let l = Layout::for_rotation(270);
    let slot = face_text_slot(&l);
    assert_eq!(origin(slot), (210, 44, 100, 112));
    let mut pane = TextPane::default();
    pane.set("Drive Back.Flac", "Neil Young & Crazy Horse", "Zuma", slot);
    assert_eq!(pane.over(), 0, "landscape column still holds a short track");
}

#[test]
fn retrieving_artwork_fits_both_cover_boxes() {
    let cols = |rot| Layout::for_rotation(rot).art.size.width / Face::Meta.char_w();
    let n = ART_WAIT.chars().count() as u32;
    assert!(n <= cols(0), "portrait {}", cols(0));
    assert!(n <= cols(270), "landscape {}", cols(270));
    assert_eq!(wrap(ART_WAIT, cols(0) * Face::Meta.char_w(), Face::Meta).len(), 1);
}

#[test]
fn stream_line_is_twice_the_clock_face_and_fits_the_strip() {
    assert_eq!(Face::Large.char_h(), Face::Meta.char_h() * 2);
    let line = "flac  16 bit  44.1 kHz";
    for rot in [0u16, 270] {
        let bar = Layout::for_rotation(rot).progress;
        assert!(Face::Large.char_h() <= bar.size.height, "rot {rot}");
        assert!(
            line.chars().count() <= stream_cols(bar.size.width),
            "rot {rot} cols {}",
            stream_cols(bar.size.width)
        );
    }
}

#[test]
fn large_status_wraps_ipv6_instead_of_one_wide_line() {
    let v6 = "fd12:3456:789a:bcde:0123:4567:89ab:cdef";
    assert_eq!(v6.chars().count(), 39);
    let parts = wrap(v6, 240, Face::Large);
    assert!(parts.len() >= 2, "{parts:?}");
    assert!(parts.iter().all(|p| p.chars().count() * 10 <= 240));
}

#[test]
fn from_config_uses_the_orientation_keys() {
    let cfg = Config {
        rotation: 270,
        status_text_landscape: StatusText::Large,
        bar_gap_landscape: BarGap::Roomy,
        status_text_portrait: StatusText::Normal,
        bar_gap_portrait: BarGap::Tight,
        strip_landscape: Strip::Stream,
        strip_portrait: Strip::Off,
        theme: Theme::Studio,
        ..Config::default()
    };
    let l = Layout::from_config(&cfg);
    assert_eq!(l.status_text, StatusText::Large);
    assert_eq!(l.art.size.width, 200);
    assert_eq!(l.strip, Strip::Stream);
    assert_eq!(l.theme, Theme::Studio);
    assert_eq!(origin(l.progress), (0, 200, 320, 40));
}

#[test]
fn off_hides_seek_and_grows_art() {
    let p = Layout::compose(0, BarGap::Default, StatusText::Normal, Strip::Off, Theme::Ink);
    assert_eq!(p.progress.size.height, 0);
    assert_eq!(origin(p.dock), (0, 268, 240, 52));
    assert_eq!(p.art.size.width, p.art.size.height);
    assert!(p.art.size.height >= 186);
    assert!(p.art.size.height <= PORTRAIT_ART_MAX);
}

#[test]
fn seek_fraction_pads_twelve_pixels() {
    let slot = rect(0, 0, 240, 32);
    let f = |p| {
        let r = seek_fraction(slot, p);
        r.num as f32 / r.den as f32
    };
    assert_eq!(f(Point::new(12, 16)), 0.0);
    assert_eq!(f(Point::new(228, 16)), 1.0);
    let mid = f(Point::new(120, 16));
    assert!((mid - 0.5).abs() < 0.02, "{mid}");
}

#[test]
fn face_hit_prefers_the_info_ring() {
    let l = Layout::for_rotation(0);
    assert_eq!(face_hit(&l, Point::new(200, 10)), Some(Hotspot::Info));
    assert_eq!(face_hit(&l, Point::new(100, 40)), Some(Hotspot::Art));
    assert_eq!(face_hit(&l, Point::new(40, 250)), Some(Hotspot::DockControls));
    assert_eq!(face_hit(&l, Point::new(120, 300)), Some(Hotspot::Seek));
}

#[test]
fn clock_matches_the_web_player() {
    assert_eq!(fmt_clock(0), "0:00");
    assert_eq!(fmt_clock(323), "5:23");
    assert_eq!(fmt_clock(269), "4:29");
    assert_eq!(fmt_clock(3600), "1:00:00");
    assert_eq!(fmt_clock(3661), "1:01:01");
}

#[test]
fn speaker_is_red_when_silent() {
    let ink = palette(Theme::Ink);
    assert_eq!(speaker_colour(false, 48, ink), c565(Rgb565::WHITE));
    assert_eq!(speaker_colour(true, 48, ink), c565(Rgb565::CSS_RED));
    assert_eq!(speaker_colour(false, 0, ink), c565(Rgb565::CSS_RED));
    assert_eq!(speaker_colour(true, 0, ink), c565(Rgb565::CSS_RED));
}

#[test]
fn ink_matches_the_shipped_css() {
    let ink = palette(Theme::Ink);
    assert_eq!(ink.bg, c565(Rgb565::BLACK));
    assert_eq!(ink.title, c565(Rgb565::WHITE));
    assert_eq!(ink.meta, c565(Rgb565::CSS_LIGHT_GRAY));
    assert_eq!(ink.dim, c565(Rgb565::CSS_DIM_GRAY));
    assert_eq!(ink.accent, c565(Rgb565::CSS_ORANGE));
    assert_eq!(ink.danger, c565(Rgb565::CSS_RED));
}

#[test]
fn adr0020_roster_paints_the_table_words() {
    let ink = palette(Theme::Ink);
    let dusk = palette(Theme::Dusk);
    let studio = palette(Theme::Studio);
    let night = palette(Theme::Night);
    assert_eq!(ink.bg, word(0x0000));
    assert_eq!(ink.title, word(0xFFFF));
    assert_eq!(ink.meta, word(0xD69A));
    assert_eq!(ink.dim, word(0x6B4D));
    assert_eq!(ink.accent, word(0xFD20));
    assert_eq!(ink.danger, word(0xF800));
    assert_eq!(dusk.bg, word(0x30C1));
    assert_eq!(dusk.title, word(0xFEB5));
    assert_eq!(dusk.meta, word(0xD52E));
    assert_eq!(dusk.dim, word(0x9B07));
    assert_eq!(dusk.accent, word(0xFD85));
    assert_eq!(dusk.danger, word(0xFA87));
    assert_eq!(studio.bg, word(0x08C7));
    assert_eq!(studio.title, word(0xDF5F));
    assert_eq!(studio.meta, word(0x959A));
    assert_eq!(studio.dim, word(0x5352));
    assert_eq!(studio.accent, word(0x3DBF));
    assert_eq!(studio.danger, word(0xFA4A));
    assert_eq!(night.bg, word(0x1040));
    assert_eq!(night.title, word(0xFD89));
    assert_eq!(night.meta, word(0xCC67));
    assert_eq!(night.dim, word(0x7264));
    assert_eq!(night.accent, word(0xFF57));
    assert_eq!(night.danger, word(0xF944));
    assert_ne!(dusk.bg, ink.bg);
    assert_ne!(night.bg, ink.bg);
    assert_ne!(dusk.accent, studio.accent);
}

#[test]
fn touches_map_into_the_rotated_frame() {
    let t = Touch { x: 10, y: 20, pressure: 1, fingers: 1 };
    assert_eq!(Layout::for_rotation(0).map(t), Point::new(10, 20));
    assert_eq!(Layout::for_rotation(90).map(t), Point::new(20, 229));
    assert_eq!(Layout::for_rotation(180).map(t), Point::new(229, 299));
    assert_eq!(Layout::for_rotation(270).map(t), Point::new(299, 10));
}

#[test]
fn wrap_hard_splits_long_words() {
    assert_eq!(wrap("abcdefgh ij", 18, Face::Meta), vec!["abc", "def", "gh", "ij"]);
    assert_eq!(wrap("  ", 60, Face::Meta), Vec::<String>::new());
}

#[test]
fn portrait_pane_holds_the_title_alone() {
    let s = PlayerState {
        title: Some("Zuma".into()),
        artist: Some("Neil Young".into()),
        album: None,
        ..PlayerState::default()
    };
    let (t, a, b) = pane_texts(&Layout::for_rotation(0), &s);
    assert_eq!((t.as_str(), a.as_str(), b.as_str()), ("Zuma", "", ""));
    let (t, a, b) = pane_texts(&Layout::for_rotation(90), &s);
    assert_eq!((t.as_str(), a.as_str(), b.as_str()), ("Zuma", "Neil Young", ""));
    let (t, _, _) = pane_texts(&Layout::for_rotation(90), &PlayerState::default());
    assert_eq!(t, "");
}
