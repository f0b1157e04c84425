//! Screen layout, colours, hit regions and text fitting.
//!
//! Two layouts, selected from the configured rotation: portrait 240x320 and
//! landscape 320x240. Everything is a rectangle in a [`Layout`] so drawing
//! and hit testing cannot disagree about where anything is.
//!
//! Coordinates are in the rotated frame, the one the display driver
//! presents. Touch coordinates arrive from the controller unrotated, so
//! [`Layout::map`] is applied before hit testing.

use vstd::prelude::*;
use crate::config::{BarGap, Config, StatusText, Strip, Theme, is_landscape};
use crate::geom::{Point, Rect, Size, mk_rect, rect, center_off};
use crate::touch::Touch;
use crate::surface::fits;
use crate::text::{
    chars_of, next_word, push_slice, same_text, string_from, words, run_len, not_ws,
    lemma_run_len,
};

verus! {

/// Panel width in the controller's native frame.
pub const NATIVE_W: u16 = 240;
/// Panel height in the controller's native frame.
pub const NATIVE_H: u16 = 320;

/// Portrait dock and seek hits.
pub const PORTRAIT_DOCK_H: u32 = 52;
pub const PORTRAIT_SEEK_H: u32 = 32;
/// Two title lines (15 + 2 + 15) plus pad.
pub const PORTRAIT_TITLE_H: u32 = 40;
pub const PORTRAIT_ART_GAP: i32 = 10;
/// Square whose right edge stays off the IP ring.
pub const PORTRAIT_ART_MAX: u32 = 188;

/// The three stock monospaced faces the panel uses.
#[derive(Debug, Clone, Copy, PartialEq, Eq, Structural)]
pub enum Face {
    /// 9 by 15 bold: resting-face title, volume readout.
    Title,
    /// 6 by 10: clocks, headers, IP letters.
    Meta,
    /// 10 by 20, the largest stock face: surface bodies, large status text.
    Large,
}

impl Face {
    pub open spec fn w(self) -> u32 {
        match self {
            Face::Title => 9,
            Face::Meta => 6,
            Face::Large => 10,
        }
    }

    pub open spec fn h(self) -> u32 {
        match self {
            Face::Title => 15,
            Face::Meta => 10,
            Face::Large => 20,
        }
    }

    /// Character cell width in pixels.
    pub fn char_w(self) -> (w: u32)
        ensures
            w == self.w(),
    {
        match self {
            Face::Title => 9,
            Face::Meta => 6,
            Face::Large => 10,
        }
    }

    /// Character cell height in pixels.
    pub fn char_h(self) -> (h: u32)
        ensures
            h == self.h(),
    {
        match self {
            Face::Title => 15,
            Face::Meta => 10,
            Face::Large => 20,
        }
    }
}

/// Cover box text after the first miss, until the image arrives.
pub const ART_WAIT: &'static str = "Retrieving artwork";

/// An RGB565 colour word.
pub open spec fn rgb565_spec(r: u8, g: u8, b: u8) -> u16 {
    (((r % 32) as u16) * 2048 + ((g % 64) as u16) * 32 + ((b % 32) as u16)) as u16
}

/// The RGB565 word of three channels; bits above each channel's width are
/// dropped.
pub fn rgb565(r: u8, g: u8, b: u8) -> (c: u16)
    ensures
        c == rgb565_spec(r, g, b),
{
    let c = (((r & 0x1f) as u16) << 11) | (((g & 0x3f) as u16) << 5) | ((b & 0x1f) as u16);
    assert((((r & 0x1f) as u16) << 11) | (((g & 0x3f) as u16) << 5) | ((b & 0x1f) as u16) == (((r
        % 32) as u16) * 2048 + ((g % 64) as u16) * 32 + ((b % 32) as u16)) as u16) by (bit_vector);
    c
}

/// A table word split into its three channels and put back together.
pub fn word(w: u16) -> (c: u16)
    ensures
        c == w,
{
    let c = rgb565(((w >> 11) & 0x1f) as u8, ((w >> 5) & 0x3f) as u8, (w & 0x1f) as u8);
    assert(rgb565_spec(((w >> 11) & 0x1f) as u8, ((w >> 5) & 0x3f) as u8, (w & 0x1f) as u8)
        == w) by (bit_vector);
    c
}

/// Named colours for one theme, as RGB565 words.
#[derive(Debug, Clone, Copy, PartialEq, Eq, Structural)]
pub struct Palette {
    pub bg: u16,
    pub title: u16,
    pub meta: u16,
    pub dim: u16,
    pub accent: u16,
    pub danger: u16,
}

pub open spec fn pal(bg: u16, title: u16, meta: u16, dim: u16, accent: u16, danger: u16) -> Palette {
    Palette { bg, title, meta, dim, accent, danger }
}

/// The fixed six-token set of each theme. Ink is black, white, light grey,
/// dim grey, orange and red.
pub open spec fn palette_spec(theme: Theme) -> Palette {
    match theme {
        Theme::Ink => pal(0x0000, 0xFFFF, 0xD69A, 0x6B4D, 0xFD20, 0xF800),
        Theme::Dusk => pal(0x30C1, 0xFEB5, 0xD52E, 0x9B07, 0xFD85, 0xFA87),
        Theme::Studio => pal(0x08C7, 0xDF5F, 0x959A, 0x5352, 0x3DBF, 0xFA4A),
        Theme::Night => pal(0x1040, 0xFD89, 0xCC67, 0x7264, 0xFF57, 0xF944),
    }
}

pub fn palette(theme: Theme) -> (p: Palette)
    ensures
        p == palette_spec(theme),
{
    match theme {
        Theme::Ink => Palette {
            bg: 0x0000,
            title: 0xFFFF,
            meta: 0xD69A,
            dim: 0x6B4D,
            accent: 0xFD20,
            danger: 0xF800,
        },
        Theme::Dusk => Palette {
            bg: word(0x30C1),
            title: word(0xFEB5),
            meta: word(0xD52E),
            dim: word(0x9B07),
            accent: word(0xFD85),
            danger: word(0xFA87),
        },
        Theme::Studio => Palette {
            bg: word(0x08C7),
            title: word(0xDF5F),
            meta: word(0x959A),
            dim: word(0x5352),
            accent: word(0x3DBF),
            danger: word(0xFA4A),
        },
        Theme::Night => Palette {
            bg: word(0x1040),
            title: word(0xFD89),
            meta: word(0xCC67),
            dim: word(0x7264),
            accent: word(0xFF57),
            danger: word(0xF944),
        },
    }
}

/// Where everything sits, for one orientation.
#[derive(Debug, Clone, Copy, PartialEq, Eq, Structural)]
pub struct Layout {
    /// Rotation in degrees, needed to map touch coordinates back.
    pub rotation: u16,
    /// The whole rotated frame.
    pub frame: Rect,
    /// Album art.
    pub art: Rect,
    /// Title block; tap opens metadata.
    pub text: Rect,
    /// IP ring hit target.
    pub info: Rect,
    /// Three-slot glyph dock.
    pub dock: Rect,
    /// Seek / stream strip. Empty height when the strip is off.
    pub progress: Rect,
    /// Status-screen type for this orientation.
    pub status_text: StatusText,
    /// What occupies the strip.
    pub strip: Strip,
    /// Colour tokens for this paint.
    pub theme: Theme,
}

/// The portrait face. Dock 52 and seek 32 are the hit boxes; the art is the
/// leftover square above the title, capped at 188 and centred.
pub open spec fn portrait_spec(rotation: u16, status_text: StatusText, strip: Strip, theme: Theme) -> Layout {
    let seek_h: u32 = if strip != Strip::Off {
        32
    } else {
        0
    };
    let dock_y = 320 - seek_h - 52;
    let text_y = dock_y - 40;
    let budget = if text_y - 10 > 0 {
        text_y - 10
    } else {
        0
    };
    let side = if budget < 188 {
        budget
    } else {
        188
    };
    Layout {
        rotation,
        frame: mk_rect(0, 0, 240, 320),
        art: mk_rect(((240 - side) / 2) as i32, 0, side as u32, side as u32),
        text: mk_rect(12, text_y as i32, 216, 40),
        info: mk_rect(192, 0, 48, 48),
        dock: mk_rect(0, dock_y as i32, 240, 52),
        progress: mk_rect(0, (dock_y + 52) as i32, 240, seek_h),
        status_text,
        strip,
        theme,
    }
}

/// The landscape face: art 200 wide, a 120 wide text column, dock cells of
/// 40 by 44, and a 40 high seek strip across the bottom. With the strip off
/// the art, column and dock take its height.
pub open spec fn landscape_spec(rotation: u16, status_text: StatusText, strip: Strip, theme: Theme) -> Layout {
    let on = strip != Strip::Off;
    let art_h: u32 = if on {
        200
    } else {
        240
    };
    let dock_y: i32 = if on {
        156
    } else {
        196
    };
    let seek_y: i32 = if on {
        200
    } else {
        240
    };
    let seek_h: u32 = if on {
        40
    } else {
        0
    };
    Layout {
        rotation,
        frame: mk_rect(0, 0, 320, 240),
        art: mk_rect(0, 0, 200, art_h),
        text: mk_rect(200, 0, 120, (art_h - 44) as u32),
        info: mk_rect(276, 0, 44, 44),
        dock: mk_rect(200, dock_y, 120, 44),
        progress: mk_rect(0, seek_y, 320, seek_h),
        status_text,
        strip,
        theme,
    }
}

/// 90 and 270 are landscape; every other rotation is portrait.
pub open spec fn compose_spec(rotation: u16, status_text: StatusText, strip: Strip, theme: Theme) -> Layout {
    if is_landscape(rotation) {
        landscape_spec(rotation, status_text, strip, theme)
    } else {
        portrait_spec(rotation, status_text, strip, theme)
    }
}

/// Where a native-frame touch lands in the frame of `rotation`.
pub open spec fn map_spec(rotation: u16, x: int, y: int) -> Point {
    if rotation == 90 {
        Point { x: y as i32, y: (239 - x) as i32 }
    } else if rotation == 180 {
        Point { x: (239 - x) as i32, y: (319 - y) as i32 }
    } else if rotation == 270 {
        Point { x: (319 - y) as i32, y: x as i32 }
    } else {
        Point { x: x as i32, y: y as i32 }
    }
}

impl Layout {
    /// The palette of this layout's theme.
    pub fn pal(&self) -> (p: Palette)
        ensures
            p == palette_spec(self.theme),
    {
        palette(self.theme)
    }

    /// Layout for a rotation in degrees, with the default gap, status type,
    /// strip and theme.
    pub fn for_rotation(rotation: u16) -> (l: Layout)
        ensures
            l == compose_spec(rotation, StatusText::Normal, Strip::Progress, Theme::Ink),
            fits(l),
    {
        Self::compose(rotation, BarGap::Default, StatusText::Normal, Strip::Progress, Theme::Ink)
    }

    /// Layout for the configured rotation, status type, strip and theme.
    pub fn from_config(cfg: &Config) -> (l: Layout)
        ensures
            l == compose_spec(
                cfg.rotation,
                if is_landscape(cfg.rotation) {
                    cfg.status_text_landscape
                } else {
                    cfg.status_text_portrait
                },
                if is_landscape(cfg.rotation) {
                    cfg.strip_landscape
                } else {
                    cfg.strip_portrait
                },
                cfg.theme,
            ),
            fits(l),
    {
        Self::compose(cfg.rotation, cfg.bar_gap(), cfg.status_text(), cfg.strip(), cfg.theme)
    }

    /// The face boxes supersede the bar-gap geometry; the gap is accepted
    /// and has no effect.
    pub fn compose(
        rotation: u16,
        gap: BarGap,
        status_text: StatusText,
        strip: Strip,
        theme: Theme,
    ) -> (l: Layout)
        ensures
            l == compose_spec(rotation, status_text, strip, theme),
            fits(l),
    {
        if rotation == 90 || rotation == 270 {
            Self::landscape(rotation, status_text, strip, theme)
        } else {
            Self::portrait(rotation, status_text, strip, theme)
        }
    }

    fn portrait(rotation: u16, status_text: StatusText, strip: Strip, theme: Theme) -> (l: Layout)
        ensures
            l == portrait_spec(rotation, status_text, strip, theme),
    {
        let seek_h: u32 = if strip != Strip::Off {
            PORTRAIT_SEEK_H
        } else {
            0
        };
        let dock_y: i32 = 320 - seek_h as i32 - PORTRAIT_DOCK_H as i32;
        let text_y: i32 = dock_y - PORTRAIT_TITLE_H as i32;
        let art_budget: u32 = if text_y - PORTRAIT_ART_GAP > 0 {
            (text_y - PORTRAIT_ART_GAP) as u32
        } else {
            0
        };
        let art_side: u32 = if art_budget < PORTRAIT_ART_MAX {
            art_budget
        } else {
            PORTRAIT_ART_MAX
        };
        let art_x: i32 = (240 - art_side as i32) / 2;
        Layout {
            rotation,
            frame: rect(0, 0, 240, 320),
            art: rect(art_x, 0, art_side, art_side),
            text: rect(12, text_y, 216, PORTRAIT_TITLE_H),
            info: rect(192, 0, 48, 48),
            dock: rect(0, dock_y, 240, PORTRAIT_DOCK_H),
            progress: rect(0, dock_y + PORTRAIT_DOCK_H as i32, 240, seek_h),
            status_text,
            strip,
            theme,
        }
    }

    fn landscape(rotation: u16, status_text: StatusText, strip: Strip, theme: Theme) -> (l: Layout)
        ensures
            l == landscape_spec(rotation, status_text, strip, theme),
    {
        let seek_on = strip != Strip::Off;
        let (art_h, dock_y, seek_y, seek_h): (u32, i32, i32, u32) = if seek_on {
            (200, 156, 200, 40)
        } else {
            (240, 196, 240, 0)
        };
        Layout {
            rotation,
            frame: rect(0, 0, 320, 240),
            art: rect(0, 0, 200, art_h),
            text: rect(200, 0, 120, art_h - 44),
            info: rect(276, 0, 44, 44),
            dock: rect(200, dock_y, 120, 44),
            progress: rect(0, seek_y, 320, seek_h),
            status_text,
            strip,
            theme,
        }
    }

    pub open spec fn cell(self, i: u8) -> Rect {
        let w = self.dock.size.width / 3;
        mk_rect(
            (self.dock.top_left.x + w * i) as i32,
            self.dock.top_left.y,
            w as u32,
            self.dock.size.height,
        )
    }

    /// One of the three dock cells, 0 = controls, 1 = volume, 2 = metadata.
    pub fn dock_cell(&self, i: u8) -> (r: Rect)
        ensures
            r == self.cell(i),
    {
        let w = self.dock.size.width / 3;
        assert(0 <= (w as i64) * (i as i64) <= 0x1_0000_0000 * 256) by (nonlinear_arith)
            requires
                0 <= w <= 0xffff_ffff,
                0 <= i <= 255,
        ;
        rect(
            (self.dock.top_left.x as i64 + w as i64 * i as i64) as i32,
            self.dock.top_left.y,
            w,
            self.dock.size.height,
        )
    }

    /// Map a raw controller touch into this layout's frame. The controller
    /// reports in its native 240x320 portrait frame whatever the display
    /// was told, so rotating the panel does not rotate the input.
    pub fn map(&self, t: Touch) -> (p: Point)
        ensures
            p == map_spec(self.rotation, t.x as int, t.y as int),
    {
        let x = t.x as i32;
        let y = t.y as i32;
        let nw = NATIVE_W as i32;
        let nh = NATIVE_H as i32;
        match self.rotation {
            90 => Point { x: y, y: nw - 1 - x },
            180 => Point { x: nw - 1 - x, y: nh - 1 - y },
            270 => Point { x: nh - 1 - y, y: x },
            _ => Point { x, y },
        }
    }
}

/// A touch anywhere on the native panel lands inside the rotated frame.
pub proof fn mapped_touch_is_on_the_frame(
    rotation: u16,
    status_text: StatusText,
    strip: Strip,
    theme: Theme,
    x: u16,
    y: u16,
)
    requires
        x < NATIVE_W,
        y < NATIVE_H,
    ensures
        compose_spec(rotation, status_text, strip, theme).frame.has(
            map_spec(rotation, x as int, y as int),
        ),
{
}

/// Press / move / release after rotation mapping.
#[derive(Debug, Clone, Copy, PartialEq, Eq, Structural)]
pub enum TouchEv {
    Down(Point),
    Move(Point),
    Up(Point),
}

/// Face hotspot. Surfaces have their own hit map.
#[derive(Debug, Clone, Copy, PartialEq, Eq, Structural)]
pub enum Hotspot {
    Art,
    Info,
    Title,
    DockControls,
    DockVolume,
    DockMeta,
    Seek,
}

/// The hotspot under `p`: the IP ring first, then art, title, the dock by
/// thirds, and the seek strip when it has height.
pub open spec fn face_hit_spec(l: Layout, p: Point) -> Option<Hotspot> {
    if l.info.has(p) {
        Some(Hotspot::Info)
    } else if l.art.has(p) {
        Some(Hotspot::Art)
    } else if l.text.has(p) {
        Some(Hotspot::Title)
    } else if l.dock.has(p) {
        let dx = p.x - l.dock.top_left.x;
        let third = (l.dock.size.width as i32) / 3;
        if dx < third {
            Some(Hotspot::DockControls)
        } else if dx < 2 * third {
            Some(Hotspot::DockVolume)
        } else {
            Some(Hotspot::DockMeta)
        }
    } else if l.progress.size.height > 0 && l.progress.has(p) {
        Some(Hotspot::Seek)
    } else {
        None
    }
}

/// Map a point on the resting face to a hotspot.
pub fn face_hit(layout: &Layout, p: Point) -> (h: Option<Hotspot>)
    requires
        layout.dock.size.width <= 0x7fff_ffff,
    ensures
        h == face_hit_spec(*layout, p),
{
    if layout.info.contains(p) {
        return Some(Hotspot::Info);
    }
    if layout.art.contains(p) {
        return Some(Hotspot::Art);
    }
    if layout.text.contains(p) {
        return Some(Hotspot::Title);
    }
    if layout.dock.contains(p) {
        let dx: i64 = p.x as i64 - layout.dock.top_left.x as i64;
        let third: i64 = (layout.dock.size.width as i32 / 3) as i64;
        return Some(
            if dx < third {
                Hotspot::DockControls
            } else if dx < 2 * third {
                Hotspot::DockVolume
            } else {
                Hotspot::DockMeta
            },
        );
    }
    if layout.progress.size.height > 0 && layout.progress.contains(p) {
        return Some(Hotspot::Seek);
    }
    None
}

/// What the resting face draws answers a tap at its centre: the cover, the
/// title block, each dock cell, and the strip when it is shown.
pub proof fn face_targets_answer_at_their_centres(rotation: u16, st: StatusText, strip: Strip, theme: Theme)
    ensures
        ({
            let l = compose_spec(rotation, st, strip, theme);
            &&& face_hit_spec(l, l.art.mid()) == Some(Hotspot::Art)
            &&& face_hit_spec(l, l.text.mid()) == Some(Hotspot::Title)
            &&& face_hit_spec(l, l.cell(0).mid()) == Some(Hotspot::DockControls)
            &&& face_hit_spec(l, l.cell(1).mid()) == Some(Hotspot::DockVolume)
            &&& face_hit_spec(l, l.cell(2).mid()) == Some(Hotspot::DockMeta)
            &&& (strip != Strip::Off ==> face_hit_spec(l, l.progress.mid()) == Some(Hotspot::Seek))
        }),
{
}

/// Vertical gap between lines of the same field.
pub const LINE_GAP: i32 = 2;
/// Vertical gap between fields.
pub const FIELD_GAP: i32 = 8;
/// Pixels below the pinned `starting` footer.
pub const FOOTER_MARGIN: i32 = 16;

/// Columns of `face` that fit in `width_px`, at least one.
pub open spec fn cols_of(width_px: u32, face: Face) -> nat {
    let c = width_px / face.w();
    if c >= 1 {
        c as nat
    } else {
        1
    }
}

/// Greedy wrap, one word at a time. The state is the finished lines and
/// the line being filled. A word longer than a line is hard-split into
/// full-width pieces first, closing the open line; what is left of it then
/// joins the open line after a space if it fits, else starts a new one.
pub open spec fn wrap_word(out: Seq<Seq<char>>, line: Seq<char>, w: Seq<char>, cols: nat) -> (
    Seq<Seq<char>>,
    Seq<char>,
)
    decreases w.len(),
{
    if cols >= 1 && w.len() > cols {
        let out2 = if line.len() > 0 {
            out.push(line)
        } else {
            out
        };
        wrap_word(out2.push(w.take(cols as int)), seq![], w.skip(cols as int), cols)
    } else if line.len() == 0 {
        (out, w)
    } else if line.len() + 1 + w.len() <= cols {
        (out, line + seq![' '] + w)
    } else {
        (out.push(line), w)
    }
}

pub open spec fn wrap_words(ws: Seq<Seq<char>>, cols: nat) -> (Seq<Seq<char>>, Seq<char>)
    decreases ws.len(),
{
    if ws.len() == 0 {
        (seq![], seq![])
    } else {
        let st = wrap_words(ws.drop_last(), cols);
        wrap_word(st.0, st.1, ws.last(), cols)
    }
}

/// The lines of `text` wrapped greedily at `cols` columns, words taken as
/// `split_whitespace` gives them.
pub open spec fn wrapped(text: Seq<char>, cols: nat) -> Seq<Seq<char>> {
    let st = wrap_words(words(text), cols);
    if st.1.len() > 0 {
        st.0.push(st.1)
    } else {
        st.0
    }
}

pub open spec fn lines_fit(out: Seq<Seq<char>>, cols: nat) -> bool {
    forall|i: int| 0 <= i < out.len() ==> 1 <= #[trigger] out[i].len() <= cols
}

proof fn lemma_wrap_word_fits(out: Seq<Seq<char>>, line: Seq<char>, w: Seq<char>, cols: nat)
    requires
        cols >= 1,
        lines_fit(out, cols),
        line.len() <= cols,
        w.len() >= 1,
    ensures
        lines_fit(wrap_word(out, line, w, cols).0, cols),
        1 <= wrap_word(out, line, w, cols).1.len() <= cols,
    decreases w.len(),
{
    if w.len() > cols {
        let out2 = if line.len() > 0 {
            out.push(line)
        } else {
            out
        };
        assert(lines_fit(out2, cols));
        assert(lines_fit(out2.push(w.take(cols as int)), cols));
        lemma_wrap_word_fits(out2.push(w.take(cols as int)), seq![], w.skip(cols as int), cols);
    } else if line.len() == 0 {
    } else if line.len() + 1 + w.len() <= cols {
    } else {
        assert(lines_fit(out.push(line), cols));
    }
}

proof fn lemma_words_nonempty(s: Seq<char>)
    ensures
        forall|i: int| 0 <= i < words(s).len() ==> #[trigger] words(s)[i].len() >= 1,
    decreases s.len(),
{
    if s.len() == 0 {
    } else if crate::text::is_ws(s[0]) {
        lemma_words_nonempty(s.drop_first());
        assert(words(s) == words(s.drop_first()));
    } else {
        let n = run_len(s, not_ws());
        lemma_run_len(s, not_ws());
        assert((not_ws())(s[0]));
        assert(n >= 1);
        lemma_words_nonempty(s.skip(n as int));
        let ws = words(s);
        assert(ws == seq![s.take(n as int)] + words(s.skip(n as int)));
        assert(ws[0] == s.take(n as int));
        assert forall|i: int| 0 <= i < ws.len() implies #[trigger] ws[i].len() >= 1 by {
            if i > 0 {
                assert(ws[i] == words(s.skip(n as int))[i - 1]);
            }
        }
    }
}

proof fn lemma_wrap_words_fit(ws: Seq<Seq<char>>, cols: nat)
    requires
        cols >= 1,
        forall|i: int| 0 <= i < ws.len() ==> #[trigger] ws[i].len() >= 1,
    ensures
        lines_fit(wrap_words(ws, cols).0, cols),
        wrap_words(ws, cols).1.len() <= cols,
    decreases ws.len(),
{
    if ws.len() > 0 {
        let p = ws.drop_last();
        assert forall|i: int| 0 <= i < p.len() implies #[trigger] p[i].len() >= 1 by {
            assert(p[i] == ws[i]);
        }
        lemma_wrap_words_fit(p, cols);
        let st = wrap_words(p, cols);
        lemma_wrap_word_fits(st.0, st.1, ws.last(), cols);
    }
}

/// Every wrapped line holds at least one and at most `cols` characters.
pub proof fn wrapped_lines_fit_the_column(text: Seq<char>, cols: nat)
    requires
        cols >= 1,
    ensures
        lines_fit(wrapped(text, cols), cols),
{
    lemma_words_nonempty(text);
    lemma_wrap_words_fit(words(text), cols);
}

pub open spec fn views(v: Seq<String>) -> Seq<Seq<char>> {
    Seq::new(v.len(), |i: int| v[i]@)
}

/// Greedy word wrap to a pixel width, for a monospaced face. A word longer
/// than the line is hard-split rather than left to overflow.
pub fn wrap(text: &str, width_px: u32, face: Face) -> (r: Vec<String>)
    ensures
        views(r@) == wrapped(text@, cols_of(width_px, face)),
{
    let c = width_px / face.char_w();
    let cols: usize = if c >= 1 {
        c as usize
    } else {
        1
    };
    let ghost gcols = cols_of(width_px, face);
    assert(cols == gcols);
    let v = chars_of(text);
    let mut out: Vec<Vec<char>> = Vec::new();
    let mut line: Vec<char> = Vec::new();
    let mut pos: usize = 0;
    let ghost mut done: Seq<Seq<char>> = seq![];
    assert(v@.skip(0) =~= v@);
    loop
        invariant
            pos <= v@.len(),
            cols == gcols,
            cols >= 1,
            words(v@) == done + words(v@.skip(pos as int)),
            wrap_words(done, gcols) == (Seq::new(out@.len(), |i: int| out@[i]@), line@),
        ensures
            words(v@.skip(pos as int)).len() == 0,
            words(v@) == done + words(v@.skip(pos as int)),
            wrap_words(done, gcols) == (Seq::new(out@.len(), |i: int| out@[i]@), line@),
        decreases v@.len() - pos,
    {
        match next_word(&v, pos) {
            None => {
                break;
            },
            Some((a, b)) => {
                let ghost w = v@.subrange(a as int, b as int);
                let ghost out0 = Seq::new(out@.len(), |i: int| out@[i]@);
                let ghost line0 = line@;
                let mut ws = a;
                proof {
                    assert(v@.subrange(ws as int, b as int) == w);
                }
                while b - ws > cols
                    invariant
                        a <= ws <= b <= v@.len(),
                        cols == gcols,
                        cols >= 1,
                        wrap_word(out0, line0, w, gcols) == wrap_word(
                            Seq::new(out@.len(), |i: int| out@[i]@),
                            line@,
                            v@.subrange(ws as int, b as int),
                            gcols,
                        ),
                    decreases b - ws,
                {
                    let ghost cur = v@.subrange(ws as int, b as int);
                    let ghost o = Seq::new(out@.len(), |i: int| out@[i]@);
                    let ghost o2 = if line@.len() > 0 {
                        o.push(line@)
                    } else {
                        o
                    };
                    if line.len() > 0 {
                        let full = line;
                        line = Vec::new();
                        out.push(full);
                    }
                    assert(Seq::new(out@.len(), |i: int| out@[i]@) =~= o2);
                    let mut piece: Vec<char> = Vec::new();
                    push_slice(&mut piece, &v, ws, ws + cols);
                    assert(piece@ =~= cur.take(cols as int));
                    out.push(piece);
                    assert(Seq::new(out@.len(), |i: int| out@[i]@) =~= o2.push(
                        cur.take(cols as int),
                    ));
                    ws = ws + cols;
                    assert(cur.skip(cols as int) =~= v@.subrange(ws as int, b as int));
                    assert(line@ =~= Seq::<char>::empty());
                }
                let ghost cur = v@.subrange(ws as int, b as int);
                let ghost o = Seq::new(out@.len(), |i: int| out@[i]@);
                let ghost l0 = line@;
                if line.len() == 0 {
                    push_slice(&mut line, &v, ws, b);
                    assert(line@ =~= cur);
                } else if line.len() < cols && b - ws <= cols - line.len() - 1 {
                    line.push(' ');
                    push_slice(&mut line, &v, ws, b);
                    assert(line@ =~= l0 + seq![' '] + cur);
                } else {
                    let full = line;
                    line = Vec::new();
                    out.push(full);
                    push_slice(&mut line, &v, ws, b);
                    assert(line@ =~= cur);
                    assert(Seq::new(out@.len(), |i: int| out@[i]@) =~= o.push(l0));
                }
                assert(wrap_word(out0, line0, w, gcols) == (
                    Seq::new(out@.len(), |i: int| out@[i]@),
                    line@,
                ));
                proof {
                    assert(done.push(w).drop_last() =~= done);
                    assert(done.push(w).last() == w);
                    assert(words(v@) == done.push(w) + words(v@.skip(b as int)));
                    done = done.push(w);
                }
                pos = b;
            },
        }
    }
    assert(done =~= words(v@));
    let ghost st = wrap_words(done, gcols);
    if line.len() > 0 {
        out.push(line);
    }
    let mut r: Vec<String> = Vec::new();
    let mut i: usize = 0;
    while i < out.len()
        invariant
            i <= out@.len(),
            r@.len() == i,
            views(r@) == Seq::new(i as nat, |j: int| out@[j]@),
        decreases out@.len() - i,
    {
        let t = string_from(&out[i]);
        assert(t@ == out@[i as int]@);
        let ghost before = r@;
        r.push(t);
        i = i + 1;
        assert forall|j: int| 0 <= j < i implies #[trigger] views(r@)[j] == out@[j]@ by {
            if j < i - 1 {
                assert(r@[j] == before[j]);
                assert(views(before)[j] == out@[j]@);
            }
        }
        assert(views(r@) =~= Seq::new(i as nat, |j: int| out@[j]@));
    }
    assert(views(r@) =~= wrapped(text@, gcols));
    r
}

/// Pixel height of a field of `n` lines of `face`, zero when empty.
pub open spec fn block_h(n: nat, face: Face) -> int {
    if n == 0 {
        0
    } else {
        n * face.h() + (n - 1) * LINE_GAP
    }
}

/// Stack a block under what is there, with a field gap between non-empty
/// blocks.
pub open spec fn add_block(h: int, bh: int) -> int {
    if bh > 0 {
        (if h > 0 {
            h + FIELD_GAP
        } else {
            h
        }) + bh
    } else {
        h
    }
}

/// Height of title, artist and album blocks stacked.
pub open spec fn pane_h(t: nat, a: nat, b: nat) -> int {
    add_block(add_block(add_block(0, block_h(t, Face::Title)), block_h(a, Face::Meta)), block_h(b, Face::Meta))
}

/// Integer halving that rounds toward zero, as Rust's `/ 2` does.
pub open spec fn half_toward_zero(d: int) -> int {
    if d >= 0 {
        d / 2
    } else {
        -((-d) / 2)
    }
}

/// Ticks held at each end before reversing.
pub const HOLD_TICKS: u8 = 20;

/// Track text, word-wrapped into the column. When the wrapped block is
/// taller than the slot it scrolls vertically, holding at each end.
pub struct TextPane {
    title: Vec<String>,
    artist: Vec<String>,
    album: Vec<String>,
    src: (String, String, String),
    height: i32,
    offset: i32,
    over: i32,
    forward: bool,
    hold: u8,
}

impl TextPane {
    #[verifier::type_invariant]
    spec fn inv(self) -> bool {
        &&& 0 <= self.offset <= self.over
        &&& (self.forward && self.over > 0 ==> self.offset < self.over)
        &&& self.height >= 0
        &&& self.hold <= HOLD_TICKS
    }

    pub closed spec fn offset_v(self) -> int {
        self.offset as int
    }

    pub closed spec fn over_v(self) -> int {
        self.over as int
    }

    pub closed spec fn height_v(self) -> int {
        self.height as int
    }

    pub closed spec fn forward_v(self) -> bool {
        self.forward
    }

    pub closed spec fn hold_v(self) -> int {
        self.hold as int
    }

    pub closed spec fn lines_v(self) -> (Seq<Seq<char>>, Seq<Seq<char>>, Seq<Seq<char>>) {
        (views(self.title@), views(self.artist@), views(self.album@))
    }

    pub closed spec fn src_v(self) -> (Seq<char>, Seq<char>, Seq<char>) {
        (self.src.0@, self.src.1@, self.src.2@)
    }

    /// An empty pane: no text, nothing to scroll.
    pub fn new() -> (p: TextPane)
        ensures
            p.lines_v() == (
                Seq::<Seq<char>>::empty(),
                Seq::<Seq<char>>::empty(),
                Seq::<Seq<char>>::empty(),
            ),
            p.src_v() == (Seq::<char>::empty(), Seq::<char>::empty(), Seq::<char>::empty()),
            p.height_v() == 0,
            p.offset_v() == 0,
            p.over_v() == 0,
            !p.forward_v(),
            p.hold_v() == 0,
    {
        let p = TextPane {
            title: Vec::new(),
            artist: Vec::new(),
            album: Vec::new(),
            src: (String::new(), String::new(), String::new()),
            height: 0,
            offset: 0,
            over: 0,
            forward: false,
            hold: 0,
        };
        assert(views(p.title@) =~= Seq::<Seq<char>>::empty());
        assert(views(p.artist@) =~= Seq::<Seq<char>>::empty());
        assert(views(p.album@) =~= Seq::<Seq<char>>::empty());
        p
    }

    /// Re-wrap for new content. Unchanged strings keep the scroll.
    pub fn set(&mut self, title: &str, artist: &str, album: &str, region: Rect)
        requires
            region.size.height <= i32::MAX,
            pane_h(
                wrapped(title@, cols_of(region.size.width, Face::Title)).len(),
                wrapped(artist@, cols_of(region.size.width, Face::Meta)).len(),
                wrapped(album@, cols_of(region.size.width, Face::Meta)).len(),
            ) <= i32::MAX,
        ensures
            old(self).src_v() == (title@, artist@, album@) ==> *final(self) == *old(self),
            old(self).src_v() != (title@, artist@, album@) ==> {
                let t = wrapped(title@, cols_of(region.size.width, Face::Title));
                let a = wrapped(artist@, cols_of(region.size.width, Face::Meta));
                let b = wrapped(album@, cols_of(region.size.width, Face::Meta));
                let h = pane_h(t.len(), a.len(), b.len());
                &&& final(self).src_v() == (title@, artist@, album@)
                &&& final(self).lines_v() == (t, a, b)
                &&& final(self).height_v() == h
                &&& final(self).over_v() == if h > region.size.height {
                    h - region.size.height
                } else {
                    0
                }
                &&& final(self).offset_v() == 0
                &&& final(self).forward_v()
                &&& final(self).hold_v() == HOLD_TICKS
            },
    {
        let t_now = string_from(&chars_of(title));
        let a_now = string_from(&chars_of(artist));
        let b_now = string_from(&chars_of(album));
        if same_text(&self.src.0, &t_now) && same_text(&self.src.1, &a_now) && same_text(
            &self.src.2,
            &b_now,
        ) {
            return;
        }
        let w = region.size.width;
        let tl = wrap(title, w, Face::Title);
        let al = wrap(artist, w, Face::Meta);
        let bl = wrap(album, w, Face::Meta);
        let h = stack_height(tl.len(), al.len(), bl.len());
        let over = if h > region.size.height as i32 {
            h - region.size.height as i32
        } else {
            0
        };
        *self = TextPane {
            title: tl,
            artist: al,
            album: bl,
            src: (t_now, a_now, b_now),
            height: h,
            offset: 0,
            over,
            forward: true,
            hold: HOLD_TICKS,
        };
    }

    /// Advance one tick. True when the pane needs a repaint.
    pub fn step(&mut self) -> (moved: bool)
        ensures
            old(self).over_v() == 0 ==> !moved && *final(self) == *old(self),
            old(self).over_v() > 0 && old(self).hold_v() > 0 ==> {
                &&& !moved
                &&& final(self).hold_v() == old(self).hold_v() - 1
                &&& final(self).offset_v() == old(self).offset_v()
                &&& final(self).forward_v() == old(self).forward_v()
            },
            old(self).over_v() > 0 && old(self).hold_v() == 0 ==> {
                &&& moved
                &&& if old(self).forward_v() {
                    if old(self).offset_v() + 1 >= old(self).over_v() {
                        &&& final(self).offset_v() == old(self).over_v()
                        &&& !final(self).forward_v()
                        &&& final(self).hold_v() == HOLD_TICKS
                    } else {
                        &&& final(self).offset_v() == old(self).offset_v() + 1
                        &&& final(self).forward_v()
                        &&& final(self).hold_v() == 0
                    }
                } else {
                    if old(self).offset_v() - 1 <= 0 {
                        &&& final(self).offset_v() == 0
                        &&& final(self).forward_v()
                        &&& final(self).hold_v() == HOLD_TICKS
                    } else {
                        &&& final(self).offset_v() == old(self).offset_v() - 1
                        &&& !final(self).forward_v()
                        &&& final(self).hold_v() == 0
                    }
                }
            },
            final(self).over_v() == old(self).over_v(),
            0 <= final(self).offset_v() <= final(self).over_v(),
            final(self).hold_v() <= HOLD_TICKS,
            final(self).height_v() == old(self).height_v(),
            final(self).lines_v() == old(self).lines_v(),
            final(self).src_v() == old(self).src_v(),
    {
        proof {
            use_type_invariant(&*self);
        }
        if self.over == 0 {
            return false;
        }
        if self.hold > 0 {
            self.hold = self.hold - 1;
            return false;
        }
        if self.forward {
            let next = self.offset + 1;
            if next >= self.over {
                self.forward = false;
                self.offset = self.over;
                self.hold = HOLD_TICKS;
            } else {
                self.offset = next;
            }
        } else {
            let next = self.offset - 1;
            if next <= 0 {
                self.offset = 0;
                self.forward = true;
                self.hold = HOLD_TICKS;
            } else {
                self.offset = next;
            }
        }
        true
    }

    /// Wrapped title lines.
    pub fn title_lines(&self) -> (l: &Vec<String>)
        ensures
            views(l@) == self.lines_v().0,
    {
        &self.title
    }

    /// Wrapped artist lines.
    pub fn artist_lines(&self) -> (l: &Vec<String>)
        ensures
            views(l@) == self.lines_v().1,
    {
        &self.artist
    }

    /// Wrapped album lines.
    pub fn album_lines(&self) -> (l: &Vec<String>)
        ensures
            views(l@) == self.lines_v().2,
    {
        &self.album
    }

    /// Overflow beyond the slot, in pixels; zero when the block fits.
    pub fn over(&self) -> (o: i32)
        ensures
            o == self.over_v(),
    {
        self.over
    }

    /// Current scroll offset, in pixels.
    pub fn offset(&self) -> (o: i32)
        ensures
            o == self.offset_v(),
    {
        self.offset
    }

    /// Where the first line is drawn in a slot `region_h` high: centred when
    /// the block fits, else scrolled up by the offset.
    pub fn first_y(&self, region_h: u32) -> (y: i32)
        requires
            region_h <= i32::MAX,
        ensures
            y == if self.over_v() == 0 {
                half_toward_zero(region_h - self.height_v())
            } else {
                -self.offset_v()
            },
    {
        proof {
            use_type_invariant(self);
        }
        if self.over == 0 {
            let d: i64 = region_h as i64 - self.height as i64;
            (d / 2) as i32
        } else {
            -self.offset
        }
    }
}

impl Default for TextPane {
    fn default() -> (p: Self)
        ensures
            p.height_v() == 0,
            p.offset_v() == 0,
            p.over_v() == 0,
    {
        TextPane::new()
    }
}

/// The height of the three stacked blocks, in pixels.
fn stack_height(t: usize, a: usize, b: usize) -> (h: i32)
    requires
        pane_h(t as nat, a as nat, b as nat) <= i32::MAX,
    ensures
        h == pane_h(t as nat, a as nat, b as nat),
        h >= 0,
{
    let bt = block_height(t, 15);
    let ba = block_height(a, 10);
    let bb = block_height(b, 10);
    let mut h: i128 = 0;
    if bt > 0 {
        h = h + bt;
    }
    if ba > 0 {
        if h > 0 {
            h = h + FIELD_GAP as i128;
        }
        h = h + ba;
    }
    if bb > 0 {
        if h > 0 {
            h = h + FIELD_GAP as i128;
        }
        h = h + bb;
    }
    h as i32
}

fn block_height(n: usize, line_h: i128) -> (h: i128)
    requires
        line_h == 15 || line_h == 10,
    ensures
        h == if n == 0 {
            0
        } else {
            n * line_h + (n - 1) * LINE_GAP
        },
        0 <= h <= 0x1_0000_0000_0000_0000 * 20,
{
    if n == 0 {
        0
    } else {
        assert(n as i128 * line_h + (n as i128 - 1) * 2 <= 0x1_0000_0000_0000_0000 * 20) by (nonlinear_arith)
            requires
                1 <= n <= 0xffff_ffff_ffff_ffff,
                line_h <= 15,
        ;
        assert(n as i128 * line_h >= 0) by (nonlinear_arith)
            requires
                1 <= n,
                line_h >= 0,
        ;
        n as i128 * line_h + (n as i128 - 1) * 2
    }
}

} // verus!
