//! Geometry of the resting face: the IP ring, the title slot, the dock
//! glyphs, the speaker mark, the cover box and the seek / stream strip.
//!
//! Everything here is a rectangle, a point or a line of text; painting it is
//! the drawing library's job.

use vstd::prelude::*;
use crate::geom::{Point, Rect, Size, mk_rect, rect, center_off};
use crate::ui::{Face, Layout, Palette, LINE_GAP, ART_WAIT, half_toward_zero, wrap, wrapped, cols_of, views};
use crate::state::PlayerState;
use crate::text::{chars_of, dec, digit_char, push_dec, push_slice, string_from, opt_text};

verus! {

/// Coordinates and extents small enough that sums of a few of them stay
/// far inside `i32`.
pub open spec fn small(r: Rect) -> bool {
    &&& -0x100_0000 <= r.top_left.x <= 0x100_0000
    &&& -0x100_0000 <= r.top_left.y <= 0x100_0000
    &&& r.size.width <= 0x10_0000
    &&& r.size.height <= 0x10_0000
}

/// A rectangle well inside [`small`], so that rectangles derived from it by
/// a few offsets are still small.
pub open spec fn tight(r: Rect) -> bool {
    &&& -0x10_0000 <= r.top_left.x <= 0x10_0000
    &&& -0x10_0000 <= r.top_left.y <= 0x10_0000
    &&& r.size.width <= 0x10_0000
    &&& r.size.height <= 0x10_0000
}

/// Every rectangle of the layout is [`tight`].
pub open spec fn sane(l: Layout) -> bool {
    &&& tight(l.frame)
    &&& tight(l.art)
    &&& tight(l.text)
    &&& tight(l.info)
    &&& tight(l.dock)
    &&& tight(l.progress)
}

/// Diameter of the IP ring.
pub const INFO_RING: u32 = 18;
/// Top-left of the ring in portrait: 2 px in from the top-right corner.
pub const INFO_RING_PORTRAIT_X: i32 = 220;
/// Top-left of the ring in landscape.
pub const INFO_RING_LANDSCAPE_X: i32 = 300;
pub const INFO_RING_Y: i32 = 2;
/// Inset of the landscape title block from the art column.
pub const FACE_TEXT_PAD: i32 = 10;
/// Speaker and list optical box.
pub const DOCK_GLYPH: i32 = 22;
/// The speaker mark, 12 by 10 at scale 1.
pub const SPEAKER_W: i32 = 12;
pub const SPEAKER_H: i32 = 10;
/// The seek knob is 12 px tall.
pub const SEEK_KNOB_H: i32 = 12;

pub open spec fn portrait(l: Layout) -> bool {
    l.frame.size.height > l.frame.size.width
}

pub fn is_portrait(layout: &Layout) -> (b: bool)
    ensures
        b == portrait(*layout),
{
    layout.frame.size.height > layout.frame.size.width
}

pub open spec fn ring_origin(l: Layout) -> Point {
    if portrait(l) {
        Point { x: INFO_RING_PORTRAIT_X, y: INFO_RING_Y }
    } else {
        Point { x: INFO_RING_LANDSCAPE_X, y: INFO_RING_Y }
    }
}

/// Top-left of the IP ring's paint box. Surfaces put the hold countdown
/// here.
pub fn info_ring_origin(layout: &Layout) -> (p: Point)
    ensures
        p == ring_origin(*layout),
{
    if is_portrait(layout) {
        Point { x: INFO_RING_PORTRAIT_X, y: INFO_RING_Y }
    } else {
        Point { x: INFO_RING_LANDSCAPE_X, y: INFO_RING_Y }
    }
}

pub fn info_ring_box(layout: &Layout) -> (r: Rect)
    ensures
        r.top_left == ring_origin(*layout),
        r.size == (Size { width: INFO_RING, height: INFO_RING }),
{
    Rect::new(info_ring_origin(layout), Size::new(INFO_RING, INFO_RING))
}

/// Centre of the IP ring: the centre pixel of its paint box.
pub fn info_ring_center(layout: &Layout) -> (p: Point)
    ensures
        p.x == ring_origin(*layout).x + 8,
        p.y == ring_origin(*layout).y + 8,
{
    info_ring_box(layout).center()
}

pub open spec fn text_origin(l: Layout) -> Point {
    if portrait(l) {
        l.text.top_left
    } else {
        Point {
            x: (l.text.top_left.x + FACE_TEXT_PAD) as i32,
            y: (l.info.top_left.y + l.info.size.height) as i32,
        }
    }
}

/// Top-left of the title block: the text rectangle in portrait; in
/// landscape under the IP hit, inset from the art's right edge.
pub fn face_text_origin(layout: &Layout) -> (p: Point)
    requires
        sane(*layout),
    ensures
        p == text_origin(*layout),
{
    if is_portrait(layout) {
        return layout.text.top_left;
    }
    let y = layout.info.top_left.y + layout.info.size.height as i32;
    Point { x: layout.text.top_left.x + FACE_TEXT_PAD, y }
}

pub open spec fn text_width(l: Layout) -> u32 {
    if portrait(l) {
        l.text.size.width
    } else if l.text.size.width >= 2 * FACE_TEXT_PAD {
        (l.text.size.width - 2 * FACE_TEXT_PAD) as u32
    } else {
        0
    }
}

pub fn face_text_width(layout: &Layout) -> (w: u32)
    ensures
        w == text_width(*layout),
{
    if is_portrait(layout) {
        layout.text.size.width
    } else {
        layout.text.size.width.saturating_sub((FACE_TEXT_PAD * 2) as u32)
    }
}

pub open spec fn text_slot(l: Layout) -> Rect {
    let o = text_origin(l);
    let bottom = l.text.top_left.y + l.text.size.height;
    mk_rect(o.x, o.y, text_width(l), if bottom > o.y {
        (bottom - o.y) as u32
    } else {
        0
    })
}

/// Clip box for the face title block: from its origin down to the bottom of
/// the text rectangle.
pub fn face_text_slot(layout: &Layout) -> (r: Rect)
    requires
        sane(*layout),
    ensures
        r == text_slot(*layout),
{
    let origin = face_text_origin(layout);
    let bottom = layout.text.top_left.y + layout.text.size.height as i32;
    let height: u32 = if bottom > origin.y {
        (bottom - origin.y) as u32
    } else {
        0
    };
    rect(origin.x, origin.y, face_text_width(layout), height)
}

/// An optional field's text, empty when it is missing.
pub open spec fn text_or_empty(o: Option<String>) -> Seq<char> {
    match o {
        Some(t) => t@,
        None => seq![],
    }
}

fn text_of(o: &Option<String>) -> (t: String)
    ensures
        t@ == text_or_empty(*o),
{
    match o {
        Some(t) => t.clone(),
        None => String::new(),
    }
}

/// What the face's text pane shows: title, artist and album, a missing one
/// empty. In a portrait frame the pane holds the title alone.
pub fn pane_texts(layout: &Layout, state: &PlayerState) -> (r: (String, String, String))
    ensures
        r.0@ == text_or_empty(state.title),
        r.1@ == if portrait(*layout) {
            seq![]
        } else {
            text_or_empty(state.artist)
        },
        r.2@ == if portrait(*layout) {
            seq![]
        } else {
            text_or_empty(state.album)
        },
{
    let title = text_of(&state.title);
    if is_portrait(layout) {
        (title, String::new(), String::new())
    } else {
        (title, text_of(&state.artist), text_of(&state.album))
    }
}

/// Centre of a dock glyph: the centre of its cell.
pub fn dock_glyph_center(cell: Rect) -> (p: Point)
    ensures
        p == cell.mid(),
{
    cell.center()
}

/// Two 5 by 16 bars, 4 apart, as one box centred on `center`.
pub open spec fn pause_bars(c: Point) -> (Rect, Rect) {
    let pair = Rect::centred(c, Size { width: 14, height: 16 });
    let left = pair.top_left;
    (mk_rect(left.x, left.y, 5, 16), mk_rect((left.x + 9) as i32, left.y, 5, 16))
}

pub fn dock_pause_bars(center: Point) -> (r: [Rect; 2])
    requires
        -0x10_0000 <= center.x <= 0x10_0000,
        -0x10_0000 <= center.y <= 0x10_0000,
    ensures
        r[0] == pause_bars(center).0,
        r[1] == pause_bars(center).1,
{
    let w: i32 = 5;
    let gap: i32 = 4;
    let h: i32 = 16;
    let pair = Rect::with_center(center, Size::new((2 * w + gap) as u32, h as u32));
    let left = pair.top_left;
    [rect(left.x, left.y, w as u32, h as u32), rect(left.x + w + gap, left.y, w as u32, h as u32)]
}

/// The play triangle's three corners around `center`.
pub fn dock_play_triangle(center: Point) -> (t: [Point; 3])
    requires
        -0x10_0000 <= center.x <= 0x10_0000,
        -0x10_0000 <= center.y <= 0x10_0000,
    ensures
        t[0].x == center.x - 5 && t[0].y == center.y - 9,
        t[1].x == center.x - 5 && t[1].y == center.y + 9,
        t[2].x == center.x + 10 && t[2].y == center.y,
{
    [
        Point { x: center.x - 5, y: center.y - 9 },
        Point { x: center.x - 5, y: center.y + 9 },
        Point { x: center.x + 10, y: center.y },
    ]
}

/// The list glyph: three 22 by 2 rules, 4 apart, centred in the cell.
pub fn list_icon_bars(cell: Rect) -> (r: [Rect; 3])
    requires
        small(cell),
    ensures
        forall|i: int|
            0 <= i < 3 ==> r[i] == mk_rect(
                (cell.mid().x - 11) as i32,
                (cell.mid().y - 5 + 4 * i) as i32,
                22,
                2,
            ),
{
    let c = dock_glyph_center(cell);
    let w = DOCK_GLYPH;
    let gap = DOCK_GLYPH / 5;
    let block = gap * 2 + 2;
    let top = c.y - block / 2;
    [
        rect(c.x - w / 2, top, w as u32, 2),
        rect(c.x - w / 2, top + gap, w as u32, 2),
        rect(c.x - w / 2, top + 2 * gap, w as u32, 2),
    ]
}

pub open spec fn speaker_rect(c: Point, scale: i32) -> Rect {
    let s: int = if scale >= 1 {
        scale as int
    } else {
        1
    };
    Rect::centred(c, Size { width: (12 * s) as u32, height: (10 * s) as u32 })
}

/// Bounding box of the 12 by 10 speaker at `scale` (at least 1), centred on
/// `center`.
pub fn speaker_box(center: Point, scale: i32) -> (r: Rect)
    requires
        scale <= 0x1000,
    ensures
        r == speaker_rect(center, scale),
{
    let s: i32 = if scale >= 1 {
        scale
    } else {
        1
    };
    Rect::with_center(center, Size::new((SPEAKER_W * s) as u32, (SPEAKER_H * s) as u32))
}

/// Title colour normally; danger when muted or at zero volume.
pub fn speaker_colour(muted: bool, volume: u8, pal: Palette) -> (c: u16)
    ensures
        c == if muted || volume == 0 {
            pal.danger
        } else {
            pal.title
        },
{
    if muted || volume == 0 {
        pal.danger
    } else {
        pal.title
    }
}

/// One pixel of an icon bitmap, scaled: a `scale` square at `origin` plus
/// `scale` times the pixel's offset.
pub fn icon_px_rect(origin: Point, px: (u8, u8), scale: i32) -> (r: Rect)
    requires
        -0x10_0000 <= origin.x <= 0x10_0000,
        -0x10_0000 <= origin.y <= 0x10_0000,
        scale <= 0x1000,
    ensures
        ({
            let s: int = if scale >= 1 {
                scale as int
            } else {
                1
            };
            r == mk_rect(
                (origin.x + px.0 * s) as i32,
                (origin.y + px.1 * s) as i32,
                s as u32,
                s as u32,
            )
        }),
{
    let s: i32 = if scale >= 1 {
        scale
    } else {
        1
    };
    assert(0 <= px.0 * s <= 255 * 0x1000) by (nonlinear_arith)
        requires
            0 <= px.0 <= 255,
            1 <= s <= 0x1000,
    ;
    assert(0 <= px.1 * s <= 255 * 0x1000) by (nonlinear_arith)
        requires
            0 <= px.1 <= 255,
            1 <= s <= 0x1000,
    ;
    rect(origin.x + px.0 as i32 * s, origin.y + px.1 as i32 * s, s as u32, s as u32)
}

/// A fraction `num / den` of a strip, with `0 <= num <= den` and `den > 0`.
#[derive(Clone, Copy, Debug, PartialEq, Eq, Structural)]
pub struct Frac {
    pub num: u64,
    pub den: u64,
}

pub open spec fn frac_ok(f: Frac) -> bool {
    f.den > 0 && f.num <= f.den
}

/// Padding at each end of a seek strip's touch span.
pub const SEEK_PAD: i32 = 12;

pub open spec fn seek_frac(slot: Rect, p: Point) -> Frac {
    let x0 = slot.top_left.x + SEEK_PAD;
    let w = slot.size.width - 2 * SEEK_PAD;
    if w <= 0 {
        Frac { num: 0, den: 1 }
    } else {
        let dx = p.x - x0;
        Frac {
            num: (if dx < 0 {
                0
            } else if dx > w {
                w
            } else {
                dx
            }) as u64,
            den: w as u64,
        }
    }
}

/// Where a point falls along a seek strip, padded 12 px at each end and
/// clamped to the strip: 0 at the left pad, 1 at the right.
pub fn seek_fraction(slot: Rect, p: Point) -> (f: Frac)
    requires
        small(slot),
    ensures
        f == seek_frac(slot, p),
        frac_ok(f),
{
    let x0: i64 = slot.top_left.x as i64 + SEEK_PAD as i64;
    let w: i64 = slot.size.width as i64 - 2 * SEEK_PAD as i64;
    if w <= 0 {
        return Frac { num: 0, den: 1 };
    }
    let dx: i64 = p.x as i64 - x0;
    let c: i64 = if dx < 0 {
        0
    } else if dx > w {
        w
    } else {
        dx
    };
    Frac { num: c as u64, den: w as u64 }
}

/// `floor(n * f)`.
pub open spec fn scale(n: nat, f: Frac) -> nat {
    ((n * f.num) as int / f.den as int) as nat
}

pub fn scale_by(n: u64, f: Frac) -> (r: u64)
    requires
        frac_ok(f),
    ensures
        r == scale(n as nat, f),
        r <= n,
{
    assert(n * f.num <= 0xffff_ffff_ffff_ffff * 0xffff_ffff_ffff_ffff) by (nonlinear_arith)
        requires
            0 <= n <= 0xffff_ffff_ffff_ffff,
            0 <= f.num <= 0xffff_ffff_ffff_ffff,
    ;
    let p: u128 = n as u128 * f.num as u128;
    assert(n * f.num <= n * f.den) by (nonlinear_arith)
        requires
            f.num <= f.den,
    ;
    assert(n * f.num / f.den as int <= n) by (nonlinear_arith)
        requires
            n * f.num <= n * f.den,
            f.den > 0,
            n >= 0,
            f.num >= 0,
    ;
    (p / f.den as u128) as u64
}

pub open spec fn two_digits(n: nat) -> Seq<char> {
    seq![digit_char(n / 10), digit_char(n % 10)]
}

/// `m:ss` under an hour, `h:mm:ss` at or above, as the web player's
/// counters read.
pub open spec fn clock_text(secs: nat) -> Seq<char> {
    let h = secs / 3600;
    let m = (secs % 3600) / 60;
    let s = secs % 60;
    if h > 0 {
        dec(h) + seq![':'] + two_digits(m) + seq![':'] + two_digits(s)
    } else {
        dec(m) + seq![':'] + two_digits(s)
    }
}

fn push_two(out: &mut Vec<char>, n: u64)
    requires
        n < 100,
    ensures
        final(out)@ == old(out)@ + two_digits(n as nat),
{
    let a = ((n / 10) as u8 + 48) as char;
    let b = ((n % 10) as u8 + 48) as char;
    assert(a == digit_char((n / 10) as nat));
    assert(b == digit_char((n % 10) as nat));
    out.push(a);
    out.push(b);
    assert(final(out)@ =~= old(out)@ + two_digits(n as nat));
}

pub fn fmt_clock(secs: u64) -> (r: String)
    ensures
        r@ == clock_text(secs as nat),
{
    let h = secs / 3600;
    let m = (secs % 3600) / 60;
    let s = secs % 60;
    let mut out: Vec<char> = Vec::new();
    if h > 0 {
        push_dec(&mut out, h);
        out.push(':');
        push_two(&mut out, m);
        out.push(':');
        push_two(&mut out, s);
    } else {
        push_dec(&mut out, m);
        out.push(':');
        push_two(&mut out, s);
    }
    assert(out@ =~= clock_text(secs as nat));
    string_from(&out)
}

/// Vertical centre of the seek chrome within its slot: hung from the top
/// (half a knob down) when `align_top`, else the middle.
pub fn seek_chrome_cy(slot: Rect, align_top: bool) -> (cy: i32)
    requires
        slot.size.height <= 0x10_0000,
    ensures
        cy == if align_top {
            SEEK_KNOB_H / 2
        } else {
            (slot.size.height / 2) as int
        },
{
    if align_top {
        SEEK_KNOB_H / 2
    } else {
        (slot.size.height / 2) as i32
    }
}

/// Columns of the 10 px stream face across `width`, at least one.
pub fn stream_cols(width: u32) -> (n: usize)
    ensures
        n == if width / 10 >= 1 {
            (width / 10) as nat
        } else {
            1
        },
{
    let c = width / 10;
    if c >= 1 {
        c as usize
    } else {
        1
    }
}

/// The stream line shown in a strip `width` wide: the format line, clipped
/// to the columns that fit.
pub fn stream_line(state: &PlayerState, width: u32) -> (r: Option<String>)
    ensures
        opt_text(r) == match state.stream_text() {
            Some(t) => Some(t.take(
                if t.len() < (if width / 10 >= 1 {
                    (width / 10) as int
                } else {
                    1
                }) {
                    t.len() as int
                } else if width / 10 >= 1 {
                    (width / 10) as int
                } else {
                    1
                },
            )),
            None => None,
        },
{
    let text = match state.stream_info() {
        Some(t) => t,
        None => {
            return None;
        },
    };
    let v = chars_of(text.as_str());
    let cols = stream_cols(width);
    let n = if v.len() < cols {
        v.len()
    } else {
        cols
    };
    let mut out: Vec<char> = Vec::new();
    push_slice(&mut out, &v, 0, n);
    assert(out@ =~= v@.take(n as int));
    Some(string_from(&out))
}

/// The seek strip's chrome, in the strip's own coordinates.
pub struct SeekStrip {
    /// Elapsed clock, drawn left-aligned at `(pad, cy)`.
    pub left: String,
    /// Total clock, drawn right-aligned at `(right_x, cy)`.
    pub right: String,
    pub pad: i32,
    pub right_x: i32,
    /// Vertical centre of clocks, trough and knob.
    pub cy: i32,
    /// The trough, when there is room for one.
    pub track: Option<Rect>,
    /// Width of the filled part of the trough.
    pub filled: u32,
    /// The 4 by 12 knob, when there is a trough.
    pub knob: Option<Rect>,
}

/// What the seek slot shows.
pub enum SeekPaint {
    /// An empty slot: nothing to paint.
    Nothing,
    /// Nothing known: the slot is cleared.
    Blank,
    Strip(SeekStrip),
}

/// The fraction the strip shows: the finger's while scrubbing, else the
/// track's progress.
pub open spec fn shown_frac(state: PlayerState, scrub: Option<Frac>) -> Option<Frac> {
    match scrub {
        Some(f) => Some(f),
        None => match state.seek {
            Some(s) => match state.duration {
                Some(d) if d > 0 => {
                    let len: int = if d * 1000 > u64::MAX {
                        u64::MAX as int
                    } else {
                        d * 1000
                    };
                    Some(Frac { num: (if s < len { s as int } else { len }) as u64, den: len as u64 })
                },
                _ => None,
            },
            None => None,
        },
    }
}

/// Elapsed seconds: the scrubbed share of the duration, else the position.
pub open spec fn elapsed_secs(state: PlayerState, scrub: Option<Frac>) -> nat {
    match scrub {
        Some(f) => scale(
            match state.duration {
                Some(d) => d as nat,
                None => 0,
            },
            f,
        ),
        None => match state.seek {
            Some(s) => (s / 1000) as nat,
            None => 0,
        },
    }
}

pub open spec fn max3(a: int, b: int, c: int) -> int {
    let m = if a > b {
        a
    } else {
        b
    };
    if m > c {
        m
    } else {
        c
    }
}

/// Lay out the seek strip for `slot`: clocks in the 6 px face, 8 px from
/// each end; the trough between them, 10 px clear of the wider clock (at
/// least four columns), at most 6 px tall; a 4 by 12 knob at the fill's end.
pub fn plan_seek_strip(slot: Rect, state: &PlayerState, scrub: Option<Frac>, align_top: bool) -> (r: SeekPaint)
    requires
        small(slot),
        scrub matches Some(f) ==> frac_ok(f),
    ensures
        slot.size.height == 0 ==> r is Nothing,
        slot.size.height > 0 && shown_frac(*state, scrub) is None ==> r is Blank,
        slot.size.height > 0 && shown_frac(*state, scrub) is Some ==> (r matches SeekPaint::Strip(p) && {
            let f = shown_frac(*state, scrub)->0;
            let total: nat = match state.duration {
                Some(d) => d as nat,
                None => 0,
            };
            let clock_w = 6 * max3(clock_text(elapsed_secs(*state, scrub)).len() as int, clock_text(total).len() as int, 4);
            let track_x = 8 + clock_w + 10;
            let inner_w: int = if slot.size.width > 2 * track_x {
                slot.size.width - 2 * track_x
            } else {
                0
            };
            let bar_h: int = if slot.size.height >= 10 {
                6
            } else if slot.size.height >= 4 {
                slot.size.height - 4
            } else {
                0
            };
            let cy: int = if align_top {
                SEEK_KNOB_H / 2
            } else {
                (slot.size.height / 2) as int
            };
            let bar_y: int = if cy - bar_h / 2 > 0 {
                cy - bar_h / 2
            } else {
                0
            };
            &&& p.left@ == clock_text(elapsed_secs(*state, scrub))
            &&& p.right@ == clock_text(total)
            &&& p.pad == 8
            &&& p.right_x == slot.size.width - 8
            &&& p.cy == cy
            &&& p.filled == scale(inner_w as nat, f)
            &&& (inner_w > 0 ==> p.track == Some(mk_rect(track_x as i32, bar_y as i32, inner_w as u32, bar_h as u32))
                && p.knob == Some(mk_rect((track_x + scale(inner_w as nat, f) - 2) as i32, (cy - SEEK_KNOB_H / 2) as i32, 4, 12)))
            &&& (inner_w == 0 ==> p.track is None && p.knob is None)
        }),
{
    if slot.size.height == 0 {
        return SeekPaint::Nothing;
    }
    let f = match scrub {
        Some(f) => f,
        None => match state.progress_ratio() {
            Some((n, d)) => Frac { num: n, den: d },
            None => {
                return SeekPaint::Blank;
            },
        },
    };
    let total: u64 = match state.duration {
        Some(d) => d,
        None => 0,
    };
    let elapsed: u64 = match scrub {
        Some(sf) => scale_by(total, sf),
        None => match state.seek {
            Some(s) => s / 1000,
            None => 0,
        },
    };
    let left = fmt_clock(elapsed);
    let right = fmt_clock(total);
    let ln = chars_of(left.as_str()).len();
    let rn = chars_of(right.as_str()).len();
    proof {
        lemma_clock_len(elapsed as nat);
        lemma_clock_len(total as nat);
    }
    let m = if ln > rn {
        ln
    } else {
        rn
    };
    let m = if m > 4 {
        m
    } else {
        4
    };
    let clock_w: u32 = (m * 6) as u32;
    let pad: u32 = 8;
    let gap: u32 = 10;
    let track_x: u32 = pad + clock_w + gap;
    let inner_w: u32 = slot.size.width.saturating_sub(track_x * 2);
    let bar_h: u32 = if 6 < slot.size.height.saturating_sub(4) {
        6
    } else {
        slot.size.height.saturating_sub(4)
    };
    let cy = seek_chrome_cy(slot, align_top);
    let by: i32 = cy - (bar_h as i32) / 2;
    let bar_y: i32 = if by > 0 {
        by
    } else {
        0
    };
    let filled = scale_by(inner_w as u64, f) as u32;
    let (track, knob) = if inner_w > 0 {
        let kx = track_x as i32 + filled as i32;
        (
            Some(rect(track_x as i32, bar_y, inner_w, bar_h)),
            Some(rect(kx - 2, cy - SEEK_KNOB_H / 2, 4, SEEK_KNOB_H as u32)),
        )
    } else {
        (None, None)
    };
    SeekPaint::Strip(
        SeekStrip {
            left,
            right,
            pad: pad as i32,
            right_x: slot.size.width as i32 - pad as i32,
            cy,
            track,
            filled,
            knob,
        },
    )
}

/// A clock of a `u64` count of seconds is at most 22 characters.
proof fn lemma_clock_len(secs: nat)
    requires
        secs <= u64::MAX,
    ensures
        clock_text(secs).len() <= 22,
{
    reveal_with_fuel(pow10, 17);
    assert(pow10(16) == 10_000_000_000_000_000);
    assert(pow10(2) == 100);
    lemma_dec_len(secs / 3600, 16);
    lemma_dec_len((secs % 3600) / 60, 2);
}

/// A number under a thousand has at most three digits.
pub proof fn lemma_dec_short(n: nat)
    requires
        n < 1000,
    ensures
        dec(n).len() <= 3,
{
    reveal_with_fuel(pow10, 4);
    assert(pow10(3) == 1000);
    lemma_dec_len(n, 3);
}

pub open spec fn pow10(k: nat) -> nat
    decreases k,
{
    if k == 0 {
        1
    } else {
        10 * pow10((k - 1) as nat)
    }
}

proof fn lemma_dec_len(n: nat, k: nat)
    requires
        k >= 1,
        n < pow10(k),
    ensures
        dec(n).len() <= k,
    decreases k,
{
    if n >= 10 {
        assert(k >= 2) by {
            if k == 1 {
                assert(pow10(1) == 10 * pow10(0));
            }
        }
        assert(n / 10 < pow10((k - 1) as nat)) by (nonlinear_arith)
            requires
                n < pow10(k),
                pow10(k) == 10 * pow10((k - 1) as nat),
        ;
        lemma_dec_len(n / 10, (k - 1) as nat);
    }
}

pub open spec fn placed(b: Rect, w: u32, h: u32) -> Rect {
    let pw: u32 = if w < b.size.width {
        w
    } else {
        b.size.width
    };
    let ph: u32 = if h < b.size.height {
        h
    } else {
        b.size.height
    };
    mk_rect(
        (b.top_left.x + (b.size.width - pw) / 2) as i32,
        (b.top_left.y + (b.size.height - ph) / 2) as i32,
        pw,
        ph,
    )
}

/// Where a `w` by `h` picture sits in `b`: clipped to the box and centred.
pub fn art_placement(b: Rect, w: u32, h: u32) -> (r: Rect)
    requires
        small(b),
    ensures
        r == placed(b, w, h),
{
    let pw = if w < b.size.width {
        w
    } else {
        b.size.width
    };
    let ph = if h < b.size.height {
        h
    } else {
        b.size.height
    };
    rect(
        b.top_left.x + ((b.size.width - pw) / 2) as i32,
        b.top_left.y + ((b.size.height - ph) / 2) as i32,
        pw,
        ph,
    )
}

/// The artwork surface's picture: clipped to the frame's shorter side and
/// centred in the frame.
pub fn artwork_placement(frame: Rect, w: u32, h: u32) -> (r: Rect)
    requires
        small(frame),
    ensures
        ({
            let side: u32 = if frame.size.width < frame.size.height {
                frame.size.width
            } else {
                frame.size.height
            };
            let pw: u32 = if w < side {
                w
            } else {
                side
            };
            let ph: u32 = if h < side {
                h
            } else {
                side
            };
            r == mk_rect(
                (frame.top_left.x + (frame.size.width - pw) / 2) as i32,
                (frame.top_left.y + (frame.size.height - ph) / 2) as i32,
                pw,
                ph,
            )
        }),
{
    let side = if frame.size.width < frame.size.height {
        frame.size.width
    } else {
        frame.size.height
    };
    let pw = if w < side {
        w
    } else {
        side
    };
    let ph = if h < side {
        h
    } else {
        side
    };
    rect(
        frame.top_left.x + ((frame.size.width - pw) / 2) as i32,
        frame.top_left.y + ((frame.size.height - ph) / 2) as i32,
        pw,
        ph,
    )
}

/// The cover box's waiting text: "Retrieving artwork" wrapped to the box in
/// the 6 px face, centred as a block; returns the lines, the first line's
/// top and the centre column.
pub fn art_wait_plan(b: Rect) -> (r: (Vec<String>, i32, i32))
    requires
        small(b),
    ensures
        views(r.0@) == wrapped(ART_WAIT@, cols_of(b.size.width, Face::Meta)),
        r.0@.len() > 0 ==> r.1 == (b.top_left.y + half_toward_zero(
            b.size.height - (r.0@.len() * 10 + (r.0@.len() - 1) * LINE_GAP),
        )) as i32,
        r.2 == b.top_left.x + (b.size.width / 2) as int,
{
    let lines = wrap(ART_WAIT, b.size.width, Face::Meta);
    let cx = b.top_left.x + (b.size.width / 2) as i32;
    let n = lines.len();
    if n == 0 {
        return (lines, b.top_left.y, cx);
    }
    let block: i128 = n as i128 * 10 + (n as i128 - 1) * 2;
    let d: i128 = b.size.height as i128 - block;
    let y = b.top_left.y as i128 + d / 2;
    (lines, y as i32, cx)
}

} // verus!
