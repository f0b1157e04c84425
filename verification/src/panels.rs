//! What each surface paints: header, transport and mode lamps, the volume
//! readout and trough, the metadata column and the status facts. Positions
//! are in the frame; painting them is the drawing library's job.

use vstd::prelude::*;
use crate::config::{StatusText, Theme};
use crate::face::{Frac, frac_ok, scale, scale_by, small, speaker_box, speaker_rect};
use crate::geom::{Point, Rect, Size, mk_rect, rect};
use crate::net::{HostInfo, NetState, lan_of};
use crate::state::PlayerState;
use crate::status::{Tone, addr_text};
use crate::surface::{VolumeChrome, body, body_rect, chrome, fits, header, header_rect, trough, volume_chrome, volume_facts, volume_trough, VOL_GAP, VOL_PAD};
use crate::text::{chars_of, dec, opt_text, push_dec, push_str, string_from};
use crate::ui::{Face, Layout, TextPane, FIELD_GAP, LINE_GAP, half_toward_zero, cols_of, views, wrap, wrapped};

verus! {

broadcast use vstd::string::group_string_axioms;

/// A line of text and where it goes: left-aligned with its top at `at`,
/// unless the caller's use says otherwise.
#[derive(Debug, Clone)]
pub struct TextAt {
    pub text: String,
    pub face: Face,
    pub tone: Tone,
    pub at: Point,
}

/// The header's label, 12 px in and 8 px down, and the countdown, right
/// aligned 12 px from the right edge at the same height.
pub fn header_marks(layout: &Layout) -> (r: (Point, Point))
    requires
        fits(*layout),
    ensures
        r.0 == (Point { x: (header_rect(*layout).top_left.x + 12) as i32, y: (header_rect(*layout).top_left.y + 8) as i32 }),
        r.1 == (Point {
            x: (header_rect(*layout).top_left.x + header_rect(*layout).size.width - 12) as i32,
            y: (header_rect(*layout).top_left.y + 8) as i32,
        }),
{
    let h = header(layout);
    (
        Point { x: h.top_left.x + 12, y: h.top_left.y + 8 },
        Point { x: h.top_left.x + h.size.width as i32 - 12, y: h.top_left.y + 8 },
    )
}

pub open spec fn near(c: Point) -> bool {
    -0x100_0000 <= c.x <= 0x100_0000 && -0x100_0000 <= c.y <= 0x100_0000
}

/// The play triangle of the Controls surface around `c`.
pub fn play_icon(c: Point) -> (t: [Point; 3])
    requires
        near(c),
    ensures
        t[0].x == c.x - 8 && t[0].y == c.y - 12,
        t[1].x == c.x - 8 && t[1].y == c.y + 12,
        t[2].x == c.x + 12 && t[2].y == c.y,
{
    [Point { x: c.x - 8, y: c.y - 12 }, Point { x: c.x - 8, y: c.y + 12 }, Point { x: c.x + 12, y: c.y }]
}

/// The pause bars of the Controls surface: two 5 by 24 bars, 6 apart.
pub fn pause_icon(c: Point) -> (r: [Rect; 2])
    requires
        near(c),
    ensures
        r[0] == mk_rect((c.x - 8) as i32, (c.y - 12) as i32, 5, 24),
        r[1] == mk_rect((c.x + 3) as i32, (c.y - 12) as i32, 5, 24),
{
    [rect(c.x - 8, c.y - 12, 5, 24), rect(c.x + 3, c.y - 12, 5, 24)]
}

/// Previous or next: a triangle pointing the way and a 3 by 20 bar beyond
/// its tip.
pub fn skip_icon(c: Point, next: bool) -> (r: ([Point; 3], Rect))
    requires
        near(c),
    ensures
        ({
            let d: int = if next {
                1
            } else {
                -1
            };
            &&& r.0[0].x == c.x - 8 * d && r.0[0].y == c.y - 10
            &&& r.0[1].x == c.x - 8 * d && r.0[1].y == c.y + 10
            &&& r.0[2].x == c.x + 6 * d && r.0[2].y == c.y
            &&& r.1 == mk_rect((c.x + 7 * d - 1) as i32, (c.y - 10) as i32, 3, 20)
        }),
{
    let dir: i32 = if next {
        1
    } else {
        -1
    };
    (
        [
            Point { x: c.x - 8 * dir, y: c.y - 10 },
            Point { x: c.x - 8 * dir, y: c.y + 10 },
            Point { x: c.x + 6 * dir, y: c.y },
        ],
        rect(c.x + 7 * dir - 1, c.y - 10, 3, 20),
    )
}

/// Plus or minus, centred in `cell`: a 32 by 3 bar, and for plus a 3 by 32
/// bar across it.
pub fn plus_minus(cell: Rect, plus: bool) -> (r: (Rect, Option<Rect>))
    requires
        small(cell),
    ensures
        r.0 == Rect::centred(cell.mid(), Size { width: 32, height: 3 }),
        r.1 == if plus {
            Some(Rect::centred(cell.mid(), Size { width: 3, height: 32 }))
        } else {
            None
        },
{
    let c = cell.center();
    let h = Rect::with_center(c, Size::new(32, 3));
    let v = if plus {
        Some(Rect::with_center(c, Size::new(3, 32)))
    } else {
        None
    };
    (h, v)
}

/// A dim hairline across `band` at `y`, inset 12 px each end.
pub fn hairline(band: Rect, y: i32) -> (r: (Point, Point))
    requires
        small(band),
    ensures
        r.0 == (Point { x: (band.top_left.x + VOL_PAD) as i32, y }),
        r.1 == (Point { x: (band.top_left.x + band.size.width - VOL_PAD) as i32, y }),
{
    (Point { x: band.top_left.x + VOL_PAD, y }, Point { x: band.top_left.x + band.size.width as i32 - VOL_PAD, y })
}

pub open spec fn readout(band: Rect, n: nat, face: Face) -> (Rect, Point) {
    let sw: int = 24;
    let sh: int = 20;
    let tw = n * face.w();
    let gw = sw + VOL_GAP + tw;
    let gh: int = if sh > face.h() {
        sh
    } else {
        face.h() as int
    };
    let group = Rect::centred(band.mid(), Size { width: gw as u32, height: gh as u32 });
    let sp = mk_rect(group.top_left.x, (group.top_left.y + (gh - sh) / 2) as i32, 24, 20);
    (sp, Point { x: (sp.top_left.x + sw + VOL_GAP) as i32, y: sp.mid().y })
}

/// The speaker (at twice size) and the number as one group centred on the
/// facts band; the number's left-middle anchor sits 8 px right of the
/// speaker.
pub fn volume_readout_geom(band: Rect, label: &str, face: Face) -> (r: (Rect, Point))
    requires
        small(band),
        label@.len() <= 1000,
    ensures
        r == readout(band, label@.len(), face),
{
    let sp0 = speaker_box(Point { x: 0, y: 0 }, 2);
    let sw = sp0.size.width as i32;
    let sh = sp0.size.height as i32;
    let n = chars_of(label).len();
    assert(n * face.w() <= 10000) by (nonlinear_arith)
        requires
            n <= 1000,
            face.w() <= 10,
    ;
    let tw = n as i32 * face.char_w() as i32;
    let th = face.char_h() as i32;
    let gw = sw + VOL_GAP + tw;
    let gh = if sh > th {
        sh
    } else {
        th
    };
    let group = Rect::with_center(band.center(), Size::new(gw as u32, gh as u32));
    let sp = rect(group.top_left.x, group.top_left.y + (gh - sh) / 2, sw as u32, sh as u32);
    let text = Point { x: sp.top_left.x + sw + VOL_GAP, y: sp.center().y };
    (sp, text)
}

/// A mode lamp: its label centred at the top of a 33 px group centred in
/// the cell, and a 10 px lamp 8 px under the label, filled when on.
pub fn mode_cell_geom(cell: Rect) -> (r: (Point, Point))
    requires
        small(cell),
    ensures
        ({
            let g = Rect::centred(cell.mid(), Size { width: cell.size.width, height: 33 });
            &&& r.0 == (Point { x: cell.mid().x, y: g.top_left.y })
            &&& r.1 == (Point { x: cell.mid().x, y: (g.top_left.y + 15 + 8 + 5) as i32 })
        }),
{
    let c = cell.center();
    let group = Rect::with_center(c, Size::new(cell.size.width, 33));
    (Point { x: c.x, y: group.top_left.y }, Point { x: c.x, y: group.top_left.y + 15 + 8 + 5 })
}

/// The three lamps of the Controls surface: shuffle, repeat, repeat one.
pub fn mode_lamps(state: &PlayerState) -> (r: [bool; 3])
    ensures
        r[0] == (state.random == Some(true)),
        r[1] == (state.repeat == Some(true)),
        r[2] == (state.repeat_single == Some(true)),
{
    let a = match state.random {
        Some(b) => b,
        None => false,
    };
    let b = match state.repeat {
        Some(b) => b,
        None => false,
    };
    let c = match state.repeat_single {
        Some(b) => b,
        None => false,
    };
    [a, b, c]
}

/// The volume surface's readout: the speaker silent when muted or at zero;
/// "MUTED" in the small face and dim when muted, else the number in the
/// title face; the trough filled by the volume's share (none when muted).
pub struct VolumePlan {
    pub chrome: VolumeChrome,
    pub silent: bool,
    pub label: String,
    pub face: Face,
    pub tone: Tone,
    pub speaker: Rect,
    pub text_at: Point,
    pub trough: Rect,
    pub filled: u32,
}

pub open spec fn vol_label(muted: bool, vol: u8) -> Seq<char> {
    if muted {
        "MUTED"@
    } else {
        dec(vol as nat)
    }
}

pub fn volume_plan(layout: &Layout, state: &PlayerState) -> (p: VolumePlan)
    requires
        fits(*layout),
    ensures
        ({
            let muted = state.mute == Some(true);
            let vol: u8 = match state.volume {
                Some(v) => v,
                None => 0,
            };
            let v = chrome(*layout);
            let face = if muted {
                Face::Meta
            } else {
                Face::Title
            };
            let facts = mk_rect(v.readout.top_left.x, v.readout.top_left.y, v.readout.size.width, 40);
            let t = trough(v.slider);
            &&& p.chrome == v
            &&& p.silent == (muted || vol == 0)
            &&& p.label@ == vol_label(muted, vol)
            &&& p.face == face
            &&& p.tone == if muted {
                Tone::Dim
            } else {
                Tone::Title
            }
            &&& (p.speaker, p.text_at) == readout(facts, vol_label(muted, vol).len(), face)
            &&& p.trough == t
            &&& p.filled == if muted {
                0
            } else {
                scale(t.size.width as nat, Frac { num: if vol > 100 { 100 } else { vol as u64 }, den: 100 })
            }
        }),
{
    let v = volume_chrome(layout);
    let muted = state.is_muted();
    let vol: u8 = match state.volume {
        Some(x) => x,
        None => 0,
    };
    let (label, face, tone) = if muted {
        ("MUTED".to_string(), Face::Meta, Tone::Dim)
    } else {
        let mut d: Vec<char> = Vec::new();
        push_dec(&mut d, vol as u64);
        (string_from(&d), Face::Title, Tone::Title)
    };
    proof {
        crate::face::lemma_dec_short(vol as nat);
        reveal_strlit("MUTED");
    }
    let facts = volume_facts(v);
    let (speaker, text_at) = volume_readout_geom(facts, label.as_str(), face);
    let t = volume_trough(v.slider);
    let filled: u32 = if muted {
        0
    } else {
        let share = if vol > 100 {
            100
        } else {
            vol as u64
        };
        scale_by(t.size.width as u64, Frac { num: share, den: 100 }) as u32
    };
    VolumePlan { chrome: v, silent: muted || vol == 0, label, face, tone, speaker, text_at, trough: t, filled }
}

/// The metadata column: 12 px in, 8 px under the header, 24 px narrower
/// than the body, ending 8 px above the bottom.
pub struct Column {
    pub x: i32,
    pub width: u32,
    pub floor: i32,
}

pub open spec fn line_shown(lines: Seq<Seq<char>>, j: int, cap: int) -> Seq<char> {
    if j + 1 == cap && lines.len() > cap {
        lines[j].push('\u{2026}')
    } else {
        lines[j]
    }
}

/// How many of `cap` lines of height `fh`, `lh` apart from `y`, fit above
/// `floor`.
pub open spec fn fit_count(y: int, lh: int, fh: int, floor: int, cap: int) -> int {
    if floor - y - fh < 0 {
        0
    } else if (floor - y - fh) / lh + 1 < cap {
        (floor - y - fh) / lh + 1
    } else {
        cap
    }
}

pub type RowV = (Seq<char>, Face, Tone, int, int);

/// A field wrapped to the column, at most `max` lines, the last of them
/// marked with an ellipsis when lines were left out, and stopping at the
/// first line that would cross the floor. Rows are text, face, tone, x and
/// y; the second result is where the next field starts.
pub open spec fn paint_rows(text: Seq<char>, y: int, face: Face, tone: Tone, max: nat, col: Column) -> (Seq<RowV>, int) {
    if text.len() == 0 {
        (seq![], y)
    } else {
        let lines = wrapped(text, cols_of(col.width, face));
        let cap: int = if lines.len() < max {
            lines.len() as int
        } else {
            max as int
        };
        let lh = face.h() + 2;
        let k = fit_count(y, lh, face.h() as int, col.floor as int, cap);
        (Seq::new(k as nat, |j: int| (line_shown(lines, j, cap), face, tone, col.x as int, y + j * lh)), y + k * lh)
    }
}

pub open spec fn row_views(v: Seq<TextAt>) -> Seq<RowV> {
    Seq::new(v.len(), |i: int| (v[i].text@, v[i].face, v[i].tone, v[i].at.x as int, v[i].at.y as int))
}

pub open spec fn col_ok(col: Column) -> bool {
    -0x100_0000 <= col.x <= 0x100_0000 && -0x100_0000 <= col.floor <= 0x100_0000
}

/// Append `text` as [`paint_rows`] lays it out; returns the next field's
/// top.
fn paint_wrapped(
    rows: &mut Vec<TextAt>,
    text: &str,
    y: i32,
    face: Face,
    tone: Tone,
    max: usize,
    col: &Column,
) -> (next: i32)
    requires
        col_ok(*col),
        -0x100_0000 <= y <= 0x100_0000,
        max <= 8,
    ensures
        row_views(final(rows)@) == row_views(old(rows)@) + paint_rows(text@, y as int, face, tone, max as nat, *col).0,
        next == paint_rows(text@, y as int, face, tone, max as nat, *col).1,
        y <= next <= y + 8 * 22,
{
    let ghost start = row_views(rows@);
    let tv = chars_of(text);
    if tv.len() == 0 {
        assert(row_views(rows@) =~= start + seq![]);
        return y;
    }
    let lines = wrap(text, col.width, face);
    let ghost ls = wrapped(text@, cols_of(col.width, face));
    let cap = if lines.len() < max {
        lines.len()
    } else {
        max
    };
    let lh: i32 = face.char_h() as i32 + 2;
    let fh: i32 = face.char_h() as i32;
    let mut y1 = y;
    let mut i: usize = 0;
    let ghost k = fit_count(y as int, lh as int, fh as int, col.floor as int, cap as int);
    proof {
        lemma_fit_count(y as int, lh as int, fh as int, col.floor as int, cap as int);
    }
    while i < cap
        invariant_except_break
            i <= cap <= max <= 8,
            -0x100_0000 <= y <= 0x100_0000,
            col_ok(*col),
            10 <= fh <= 20,
            cap <= lines@.len(),
            views(lines@) == ls,
            cap as int == (if ls.len() < max { ls.len() as int } else { max as int }),
            lh == face.h() + 2,
            fh == face.h(),
            y1 == y + i * lh,
            i <= k,
            k == fit_count(y as int, lh as int, fh as int, col.floor as int, cap as int),
            forall|j: int| 0 <= j < cap ==> (j < k <==> #[trigger] line_fits(y as int, lh as int, fh as int, col.floor as int, j)),
            row_views(rows@) == start + Seq::new(i as nat, |j: int| (line_shown(ls, j, cap as int), face, tone, col.x as int, y + j * lh)),
        ensures
            y1 == y + k * lh,
            row_views(rows@) == start + Seq::new(k as nat, |j: int| (line_shown(ls, j, cap as int), face, tone, col.x as int, y + j * lh)),
        decreases cap - i,
    {
        assert(0 <= i * lh <= 8 * 22 && (i + 1) * lh == i * lh + lh) by (nonlinear_arith)
            requires
                0 <= i < 8,
                12 <= lh <= 22,
        ;
        if y1 + fh > col.floor {
            assert(!line_fits(y as int, lh as int, fh as int, col.floor as int, i as int));
            assert(i == k);
            break;
        }
        let mut tc = chars_of(lines[i].as_str());
        if i + 1 == cap && lines.len() > cap {
            tc.push('\u{2026}');
        }
        let t = string_from(&tc);
        proof {
            assert(views(lines@)[i as int] == lines@[i as int]@);
        }
        assert(line_fits(y as int, lh as int, fh as int, col.floor as int, i as int));
        let ghost prev = rows@;
        rows.push(TextAt { text: t, face, tone, at: Point { x: col.x, y: y1 } });
        proof {
            assert(row_views(rows@) =~= row_views(prev).push((line_shown(ls, i as int, cap as int), face, tone, col.x as int, y1 as int)));
            assert(row_views(rows@) =~= start + Seq::new((i + 1) as nat, |j: int| (line_shown(ls, j, cap as int), face, tone, col.x as int, y + j * lh)));
        }
        y1 = y1 + lh;
        i = i + 1;
    }
    assert(0 <= k * lh <= 8 * 22) by (nonlinear_arith)
        requires
            0 <= k <= 8,
            12 <= lh <= 22,
    ;
    y1
}

pub open spec fn meta_col(l: Layout) -> Column {
    let b = body_rect(l);
    Column {
        x: (b.top_left.x + 12) as i32,
        width: if b.size.width >= 24 {
            (b.size.width - 24) as u32
        } else {
            0
        },
        floor: (b.top_left.y + b.size.height - 8) as i32,
    }
}

pub open spec fn opt_rows(t: Option<Seq<char>>, y: int, face: Face, tone: Tone, max: nat, col: Column) -> (Seq<RowV>, int) {
    match t {
        Some(t) => paint_rows(t, y, face, tone, max, col),
        None => (seq![], y),
    }
}

/// The Track surface: title (six lines at most), then after a gap the
/// artist and album (four each, the album dim), then after a gap the
/// format line (three) and the source (two), each wrapped to the column.
pub open spec fn meta_rows(l: Layout, s: PlayerState) -> Seq<RowV> {
    let col = meta_col(l);
    let b = body_rect(l);
    let title = match opt_text(s.title) {
        Some(t) => t,
        None => seq![],
    };
    let (r1, y1) = paint_rows(title, b.top_left.y + 8, Face::Title, Tone::Title, 6, col);
    let (r2, y2) = opt_rows(opt_text(s.artist), y1 + 8, Face::Meta, Tone::Meta, 4, col);
    let (r3, y3) = opt_rows(opt_text(s.album), y2, Face::Meta, Tone::Dim, 4, col);
    let (r4, y4) = opt_rows(s.stream_text(), y3 + 8, Face::Meta, Tone::Meta, 3, col);
    let (r5, _) = opt_rows(opt_text(s.service), y4, Face::Meta, Tone::Meta, 2, col);
    r1 + r2 + r3 + r4 + r5
}

fn paint_opt(rows: &mut Vec<TextAt>, t: &Option<String>, y: i32, face: Face, tone: Tone, max: usize, col: &Column) -> (next: i32)
    requires
        col_ok(*col),
        -0x100_0000 <= y <= 0x100_0000,
        max <= 8,
    ensures
        row_views(final(rows)@) == row_views(old(rows)@) + opt_rows(opt_text(*t), y as int, face, tone, max as nat, *col).0,
        next == opt_rows(opt_text(*t), y as int, face, tone, max as nat, *col).1,
        y <= next <= y + 8 * 22,
{
    match t {
        Some(s) => paint_wrapped(rows, s.as_str(), y, face, tone, max, col),
        None => {
            assert(row_views(rows@) =~= row_views(old(rows)@) + seq![]);
            y
        },
    }
}

/// Lay out the Track surface.
pub fn metadata_plan(layout: &Layout, state: &PlayerState) -> (rows: Vec<TextAt>)
    requires
        fits(*layout),
    ensures
        row_views(rows@) == meta_rows(*layout, *state),
{
    let b = body(layout);
    let col = Column {
        x: b.top_left.x + 12,
        width: b.size.width.saturating_sub(24),
        floor: b.top_left.y + b.size.height as i32 - 8,
    };
    let mut rows: Vec<TextAt> = Vec::new();
    let empty = String::new();
    let title: &str = match &state.title {
        Some(t) => t.as_str(),
        None => empty.as_str(),
    };
    assert(row_views(rows@) =~= seq![]);
    let y = paint_wrapped(&mut rows, title, b.top_left.y + 8, Face::Title, Tone::Title, 6, &col);
    let y = paint_opt(&mut rows, &state.artist, y + 8, Face::Meta, Tone::Meta, 4, &col);
    let y = paint_opt(&mut rows, &state.album, y, Face::Meta, Tone::Dim, 4, &col);
    let info = state.stream_info();
    let y = paint_opt(&mut rows, &info, y + 8, Face::Meta, Tone::Meta, 3, &col);
    let _ = paint_opt(&mut rows, &state.service, y, Face::Meta, Tone::Meta, 2, &col);
    assert(row_views(rows@) =~= meta_rows(*layout, *state));
    rows
}

pub open spec fn theme_text(t: Theme) -> Seq<char> {
    match t {
        Theme::Ink => "ink"@,
        Theme::Dusk => "dusk"@,
        Theme::Studio => "studio"@,
        Theme::Night => "night"@,
    }
}

/// The theme's name as the configuration writes it.
pub fn theme_name(t: Theme) -> (s: &'static str)
    ensures
        s@ == theme_text(t),
{
    match t {
        Theme::Ink => "ink",
        Theme::Dusk => "dusk",
        Theme::Studio => "studio",
        Theme::Night => "night",
    }
}

/// The Status surface, lines anchored at their baseline: the first address
/// (in the large face when status text is large, else the title face),
/// then the hostname, the format line when there is one, and the panel's
/// name with its theme, dim.
pub open spec fn status_rows(l: Layout, s: PlayerState, host: HostInfo) -> Seq<RowV> {
    let b = body_rect(l);
    let x = b.top_left.x + 12;
    let y0 = b.top_left.y + 8;
    let ip = if l.status_text == StatusText::Large {
        Face::Large
    } else {
        Face::Title
    };
    let lan = lan_of(host.state);
    let (r1, y1) = if lan.len() > 0 {
        (seq![(addr_text(lan[0]), ip, Tone::Title, x, y0)], y0 + ip.h() + 6)
    } else {
        (seq![], y0)
    };
    let r2 = seq![(host.hostname@, Face::Meta, Tone::Meta, x, y1)];
    let y2 = y1 + 14;
    let (r3, y3) = match s.stream_text() {
        Some(t) => (seq![(t, Face::Meta, Tone::Meta, x, y2)], y2 + 14),
        None => (seq![], y2),
    };
    r1 + r2 + r3 + seq![("waveshare28  "@ + theme_text(l.theme), Face::Meta, Tone::Dim, x, y3)]
}

pub fn status_surface_plan(layout: &Layout, state: &PlayerState, host: &HostInfo) -> (rows: Vec<TextAt>)
    requires
        fits(*layout),
    ensures
        row_views(rows@) == status_rows(*layout, *state, *host),
{
    let b = body(layout);
    let x = b.top_left.x + 12;
    let mut y = b.top_left.y + 8;
    let ip = if layout.status_text == StatusText::Large {
        Face::Large
    } else {
        Face::Title
    };
    let mut rows: Vec<TextAt> = Vec::new();
    let first = match &host.state {
        NetState::Connected(v) => if v.len() > 0 {
            Some(&v[0])
        } else {
            None
        },
        NetState::Hotspot { lan, .. } => if lan.len() > 0 {
            Some(&lan[0])
        } else {
            None
        },
        NetState::Waiting => None,
    };
    if let Some(a) = first {
        let mut t: Vec<char> = Vec::new();
        push_str(&mut t, a.iface.as_str());
        t.push(' ');
        t.push(' ');
        push_str(&mut t, a.addr.as_str());
        assert(t@ =~= addr_text(lan_of(host.state)[0]));
        rows.push(TextAt { text: string_from(&t), face: ip, tone: Tone::Title, at: Point { x, y } });
        y = y + ip.char_h() as i32 + 6;
    }
    rows.push(TextAt { text: host.hostname.clone(), face: Face::Meta, tone: Tone::Meta, at: Point { x, y } });
    y = y + 14;
    match state.stream_info() {
        Some(info) => {
            rows.push(TextAt { text: info, face: Face::Meta, tone: Tone::Meta, at: Point { x, y } });
            y = y + 14;
        },
        None => {},
    }
    let mut t: Vec<char> = Vec::new();
    push_str(&mut t, "waveshare28  ");
    push_str(&mut t, theme_name(layout.theme));
    rows.push(TextAt { text: string_from(&t), face: Face::Meta, tone: Tone::Dim, at: Point { x, y } });
    assert(row_views(rows@) =~= status_rows(*layout, *state, *host));
    rows
}

/// One field of the title block stacked at `st.1`: a field gap first
/// unless it is the first non-empty field, then its lines a line gap apart.
pub open spec fn stack_field(st: (Seq<RowV>, int, bool), lines: Seq<Seq<char>>, face: Face, tone: Tone) -> (
    Seq<RowV>,
    int,
    bool,
) {
    if lines.len() == 0 {
        st
    } else {
        let y = if st.2 {
            st.1
        } else {
            st.1 + FIELD_GAP
        };
        let lh = face.h() + LINE_GAP;
        (
            st.0 + Seq::new(lines.len(), |j: int| (lines[j], face, tone, 0int, ((y + j * lh) as i32) as int)),
            y + lines.len() * lh - LINE_GAP,
            false,
        )
    }
}

/// The title block in its slot's own coordinates: title in the title
/// face, artist in the small face, album dim, from the pane's first line.
pub open spec fn pane_rows_spec(lines: (Seq<Seq<char>>, Seq<Seq<char>>, Seq<Seq<char>>), y0: int) -> Seq<RowV> {
    let s1 = stack_field((seq![], y0, true), lines.0, Face::Title, Tone::Title);
    let s2 = stack_field(s1, lines.1, Face::Meta, Tone::Meta);
    stack_field(s2, lines.2, Face::Meta, Tone::Dim).0
}

fn stack_lines(rows: &mut Vec<TextAt>, lines: &Vec<String>, face: Face, tone: Tone, y: i128, first: bool) -> (r: (i128, bool))
    requires
        -0x100_0000_0000 <= y <= 0x1_0000_0000_0000_0000_0000,
    ensures
        ({
            let st = stack_field((row_views(old(rows)@), y as int, first), views(lines@), face, tone);
            &&& row_views(final(rows)@) == st.0
            &&& r.0 == st.1
            &&& r.1 == st.2
        }),
        y <= r.0 <= y + 0x40_0000_0000_0000_0000,
{
    let ghost start = row_views(rows@);
    if lines.len() == 0 {
        return (y, first);
    }
    let y0: i128 = if first {
        y
    } else {
        y + FIELD_GAP as i128
    };
    let lh: i128 = face.char_h() as i128 + LINE_GAP as i128;
    let mut yy = y0;
    let mut i: usize = 0;
    while i < lines.len()
        invariant
            i <= lines@.len(),
            lh == face.h() + LINE_GAP,
            yy == y0 + i * lh,
            y <= y0 <= y + 8,
            -0x100_0000_0000 <= y <= 0x1_0000_0000_0000_0000_0000,
            row_views(rows@) == start + Seq::new(i as nat, |j: int| (views(lines@)[j], face, tone, 0int, ((y0 + j * lh) as i32) as int)),
        decreases lines@.len() - i,
    {
        assert(0 <= i * lh <= 0x1_0000_0000_0000_0000 * 22 && (i + 1) * lh == i * lh + lh) by (nonlinear_arith)
            requires
                0 <= i < 0x1_0000_0000_0000_0000,
                12 <= lh <= 22,
        ;
        let ghost prev = rows@;
        rows.push(TextAt { text: lines[i].clone(), face, tone, at: Point { x: 0, y: yy as i32 } });
        proof {
            assert(views(lines@)[i as int] == lines@[i as int]@);
            assert(row_views(rows@) =~= row_views(prev).push((views(lines@)[i as int], face, tone, 0int, ((y0 + i * lh) as i32) as int)));
            assert(row_views(rows@) =~= start + Seq::new((i + 1) as nat, |j: int| (views(lines@)[j], face, tone, 0int, ((y0 + j * lh) as i32) as int)));
        }
        yy = yy + lh;
        i = i + 1;
    }
    assert(12 <= lines@.len() * lh <= 0x1_0000_0000_0000_0000 * 22) by (nonlinear_arith)
        requires
            1 <= lines@.len() <= 0x1_0000_0000_0000_0000,
            12 <= lh <= 22,
    ;
    assert(row_views(rows@) =~= start + Seq::new(views(lines@).len(), |j: int| (views(lines@)[j], face, tone, 0int, ((y0 + j * lh) as i32) as int)));
    (yy - LINE_GAP as i128, false)
}

/// Lay out the title block for a slot `region_h` high: centred when it
/// fits, else scrolled by the pane's offset.
pub fn pane_rows(pane: &TextPane, region_h: u32) -> (rows: Vec<TextAt>)
    requires
        region_h <= i32::MAX,
    ensures
        row_views(rows@) == pane_rows_spec(
            pane.lines_v(),
            if pane.over_v() == 0 {
                half_toward_zero(region_h - pane.height_v())
            } else {
                -pane.offset_v()
            },
        ),
{
    let y0 = pane.first_y(region_h);
    let mut rows: Vec<TextAt> = Vec::new();
    assert(row_views(rows@) =~= seq![]);
    let (y1, f1) = stack_lines(&mut rows, pane.title_lines(), Face::Title, Tone::Title, y0 as i128, true);
    let (y2, f2) = stack_lines(&mut rows, pane.artist_lines(), Face::Meta, Tone::Meta, y1, f1);
    let _ = stack_lines(&mut rows, pane.album_lines(), Face::Meta, Tone::Dim, y2, f2);
    rows
}

pub open spec fn line_fits(y: int, lh: int, fh: int, floor: int, j: int) -> bool {
    y + j * lh + fh <= floor
}

proof fn lemma_fit_count(y: int, lh: int, fh: int, floor: int, cap: int)
    requires
        lh >= 12,
        fh >= 0,
        cap >= 0,
    ensures
        0 <= fit_count(y, lh, fh, floor, cap) <= cap,
        forall|j: int| 0 <= j < cap ==> (j < fit_count(y, lh, fh, floor, cap) <==> #[trigger] line_fits(y, lh, fh, floor, j)),
{
    assert forall|j: int| 0 <= j < cap implies (j < fit_count(y, lh, fh, floor, cap) <==> #[trigger] line_fits(y, lh, fh, floor, j)) by {
        let d = floor - y - fh;
        if d >= 0 {
            assert(j <= d / lh <==> j * lh <= d) by (nonlinear_arith)
                requires
                    lh > 0,
                    j >= 0,
                    d >= 0,
            ;
        } else {
            assert(j * lh >= 0) by (nonlinear_arith)
                requires
                    lh > 0,
                    j >= 0,
            ;
        }
    }
    let d = floor - y - fh;
    if d >= 0 {
        assert(d / lh >= 0) by (nonlinear_arith)
            requires
                lh > 0,
                d >= 0,
        ;
    }
}

} // verus!
