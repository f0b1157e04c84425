//! Transient surfaces: controls, volume, track metadata, status and the
//! full-screen cover.
//!
//! One surface at a time. It closes after ten seconds without a touch, on
//! a tap on its header, or on a tap outside the frame. The artwork surface
//! closes on any tap. Drawing and hit testing share the rectangles here.

use vstd::prelude::*;
use crate::face::{small, sane, speaker_box, speaker_rect};
use crate::geom::{Point, Rect, Size, mk_rect, rect, center_off};
use crate::ui::{Face, Layout, compose_spec};
use crate::config::{StatusText, Strip, Theme};
use crate::text::chars_of;

verus! {

/// How long a surface stays up with no touch, in seconds.
pub const HOLD_SECS: u64 = 10;

#[derive(Debug, Clone, Copy, PartialEq, Eq, Structural)]
pub enum Surface {
    Controls,
    Volume,
    Metadata,
    Status,
    Artwork,
}

/// What a touch on a surface lands on.
#[derive(Debug, Clone, Copy, PartialEq, Eq, Structural)]
pub enum SurfHit {
    Close,
    Prev,
    PlayPause,
    Next,
    Seek,
    Shuffle,
    Repeat,
    VolUp,
    VolDown,
    VolSlider,
    Speaker,
}

pub open spec fn label_text(s: Surface) -> Seq<char> {
    match s {
        Surface::Controls => "CONTROLS"@,
        Surface::Volume => "VOLUME"@,
        Surface::Metadata => "TRACK"@,
        Surface::Status => "STATUS"@,
        Surface::Artwork => "ART"@,
    }
}

impl Surface {
    /// The header label.
    pub fn label(self) -> (s: &'static str)
        ensures
            s@ == label_text(self),
    {
        match self {
            Surface::Controls => "CONTROLS",
            Surface::Volume => "VOLUME",
            Surface::Metadata => "TRACK",
            Surface::Status => "STATUS",
            Surface::Artwork => "ART",
        }
    }
}

/// Whole seconds left before a surface closes, rounded up, from the
/// milliseconds left.
pub fn hold_secs(left_ms: u64) -> (s: u64)
    ensures
        s == (left_ms + 999) / 1000,
{
    left_ms / 1000 + if left_ms % 1000 > 0 {
        1
    } else {
        0
    }
}

/// Frames whose arithmetic stays in range and that have room for a header.
pub open spec fn fits(l: Layout) -> bool {
    &&& sane(l)
    &&& l.frame.size.height >= 28
}

pub open spec fn header_h(l: Layout) -> u32 {
    if l.frame.size.width > l.frame.size.height {
        24
    } else {
        28
    }
}

pub open spec fn header_rect(l: Layout) -> Rect {
    mk_rect(l.frame.top_left.x, l.frame.top_left.y, l.frame.size.width, header_h(l))
}

pub open spec fn body_rect(l: Layout) -> Rect {
    mk_rect(
        l.frame.top_left.x,
        (l.frame.top_left.y + header_h(l)) as i32,
        l.frame.size.width,
        (l.frame.size.height - header_h(l)) as u32,
    )
}

/// The header band across the top of the frame: 24 px in landscape, 28 in
/// portrait.
pub fn header(layout: &Layout) -> (r: Rect)
    ensures
        r == header_rect(*layout),
{
    let h: u32 = if layout.frame.size.width > layout.frame.size.height {
        24
    } else {
        28
    };
    Rect::new(layout.frame.top_left, Size::new(layout.frame.size.width, h))
}

/// The rest of the frame below the header.
pub fn body(layout: &Layout) -> (r: Rect)
    requires
        fits(*layout),
    ensures
        r == body_rect(*layout),
{
    let h = header(layout);
    rect(
        h.top_left.x,
        h.top_left.y + h.size.height as i32,
        layout.frame.size.width,
        layout.frame.size.height - h.size.height,
    )
}

/// Widths of three side-by-side cells across `w`: with a wide middle the
/// middle takes 128/320 and the sides split the rest; else equal thirds
/// with the remainder in the middle.
pub open spec fn third_widths(w: int, play_wide: bool) -> (int, int, int) {
    if play_wide {
        let play = w * 128 / 320;
        let side = (w - play) / 2;
        (side, play, w - side - play)
    } else {
        let t = w / 3;
        (t, w - 2 * t, t)
    }
}

pub open spec fn thirds(band: Rect, play_wide: bool) -> (Rect, Rect, Rect) {
    let (a, b, c) = third_widths(band.size.width as int, play_wide);
    let x = band.top_left.x;
    let y = band.top_left.y;
    let h = band.size.height;
    (mk_rect(x, y, a as u32, h), mk_rect((x + a) as i32, y, b as u32, h), mk_rect((x + a + b) as i32, y, c as u32, h))
}

/// Split a band into three cells.
pub fn thirds_wide(band: Rect, play_wide: bool) -> (r: [Rect; 3])
    requires
        small(band),
    ensures
        r[0] == thirds(band, play_wide).0,
        r[1] == thirds(band, play_wide).1,
        r[2] == thirds(band, play_wide).2,
{
    let w = band.size.width as i32;
    let (a, b, c) = if play_wide {
        let play = w * 128 / 320;
        let side = (w - play) / 2;
        (side, play, w - side - play)
    } else {
        let t = w / 3;
        (t, w - 2 * t, t)
    };
    let y = band.top_left.y;
    let h = band.size.height;
    let x = band.top_left.x;
    [rect(x, y, a as u32, h), rect(x + a, y, b as u32, h), rect(x + a + b, y, c as u32, h)]
}

/// Height of the Controls surface's mode band: 120/292 of the body, at
/// least 80.
pub open spec fn modes_h(bh: u32) -> u32 {
    if bh * 120 / 292 > 80 {
        (bh * 120 / 292) as u32
    } else {
        80
    }
}

pub open spec fn bands(l: Layout) -> (Rect, Rect, Rect) {
    let b = body_rect(l);
    let mh = modes_h(b.size.height);
    let th: u32 = if b.size.height > 40 + mh {
        (b.size.height - 40 - mh) as u32
    } else {
        0
    };
    let x = b.top_left.x;
    let y = b.top_left.y;
    let w = b.size.width;
    (mk_rect(x, y, w, th), mk_rect(x, (y + th) as i32, w, 40), mk_rect(x, (y + th + 40) as i32, w, mh))
}

/// Transport, seek and modes. Seek is a fixed 40 px so it stays a hit in
/// landscape; the modes take their share so the lamps are never a leftover
/// strip.
pub fn controls_bands(layout: &Layout) -> (r: [Rect; 3])
    requires
        fits(*layout),
    ensures
        r[0] == bands(*layout).0,
        r[1] == bands(*layout).1,
        r[2] == bands(*layout).2,
{
    let b = body(layout);
    let seek_h: u32 = 40;
    let m = b.size.height * 120 / 292;
    let modes_h: u32 = if m > 80 {
        m
    } else {
        80
    };
    let trans_h = b.size.height.saturating_sub(seek_h + modes_h);
    let x = b.top_left.x;
    let y = b.top_left.y;
    let w = b.size.width;
    [
        rect(x, y, w, trans_h),
        rect(x, y + trans_h as i32, w, seek_h),
        rect(x, y + trans_h as i32 + seek_h as i32, w, modes_h),
    ]
}

/// The seek band of the Controls surface, the same box for drawing and
/// hitting.
pub fn controls_seek_slot(layout: &Layout) -> (r: Rect)
    requires
        fits(*layout),
    ensures
        r == bands(*layout).1,
{
    let rows = controls_bands(layout);
    rows[1]
}

/// Volume surface: a 44 px slider hit under a 40 px facts band.
pub const VOL_SLIDER_HIT: u32 = 44;
pub const VOL_FACTS_H: u32 = 40;
pub const VOL_PAD: i32 = 12;
pub const VOL_TROUGH_H: u32 = 12;
pub const VOL_ARM: u32 = 32;
pub const VOL_ARM_T: u32 = 3;
pub const VOL_SPEAKER_SCALE: i32 = 2;
pub const VOL_GAP: i32 = 8;

/// The Volume surface's rows: plus, the readout (facts over slider), minus.
#[derive(Debug, Clone, Copy, PartialEq, Eq, Structural)]
pub struct VolumeChrome {
    pub up: Rect,
    pub down: Rect,
    pub readout: Rect,
    pub slider: Rect,
}

pub open spec fn chrome(l: Layout) -> VolumeChrome {
    let b = body_rect(l);
    let x = b.top_left.x;
    let y = b.top_left.y;
    let w = b.size.width;
    let read_h: int = 84;
    let rest: int = if b.size.height > read_h {
        b.size.height - read_h
    } else {
        0
    };
    let side = rest / 2;
    VolumeChrome {
        up: mk_rect(x, y, w, side as u32),
        readout: mk_rect(x, (y + side) as i32, w, 84),
        down: mk_rect(x, (y + side + read_h) as i32, w, (rest - side) as u32),
        slider: mk_rect(x, (y + side + read_h - 44) as i32, w, 44),
    }
}

/// Same three rows in both orientations: plus and minus share what the
/// readout leaves, minus taking the odd pixel.
pub fn volume_chrome(layout: &Layout) -> (v: VolumeChrome)
    requires
        fits(*layout),
    ensures
        v == chrome(*layout),
{
    let b = body(layout);
    let x = b.top_left.x;
    let y = b.top_left.y;
    let w = b.size.width;
    let h = b.size.height;
    let read_h = VOL_SLIDER_HIT + VOL_FACTS_H;
    let rest = h.saturating_sub(read_h);
    let side = rest / 2;
    let down_h = rest - side;
    let up = rect(x, y, w, side);
    let readout = rect(x, y + side as i32, w, read_h);
    let down = rect(x, y + side as i32 + read_h as i32, w, down_h);
    let slider = rect(
        x,
        readout.top_left.y + readout.size.height as i32 - VOL_SLIDER_HIT as i32,
        w,
        VOL_SLIDER_HIT,
    );
    VolumeChrome { up, down, readout, slider }
}

/// The facts band: the readout above the slider.
pub fn volume_facts(v: VolumeChrome) -> (r: Rect)
    requires
        small(v.readout),
        small(v.slider),
    ensures
        r == mk_rect(
            v.readout.top_left.x,
            v.readout.top_left.y,
            v.readout.size.width,
            if v.slider.top_left.y > v.readout.top_left.y {
                (v.slider.top_left.y - v.readout.top_left.y) as u32
            } else {
                0
            },
        ),
{
    let d = v.slider.top_left.y - v.readout.top_left.y;
    let h: u32 = if d > 0 {
        d as u32
    } else {
        0
    };
    rect(v.readout.top_left.x, v.readout.top_left.y, v.readout.size.width, h)
}

pub open spec fn trough(slider: Rect) -> Rect {
    mk_rect(
        (slider.top_left.x + VOL_PAD) as i32,
        (slider.mid().y - VOL_TROUGH_H / 2) as i32,
        if slider.size.width > 2 * VOL_PAD {
            (slider.size.width - 2 * VOL_PAD) as u32
        } else {
            0
        },
        VOL_TROUGH_H,
    )
}

/// The visible trough, 12 px tall, inset 12 px each side, centred in the
/// slider hit.
pub fn volume_trough(slider: Rect) -> (r: Rect)
    requires
        small(slider),
    ensures
        r == trough(slider),
{
    let c = slider.center();
    rect(
        slider.top_left.x + VOL_PAD,
        c.y - VOL_TROUGH_H as i32 / 2,
        slider.size.width.saturating_sub((VOL_PAD * 2) as u32),
        VOL_TROUGH_H,
    )
}

pub open spec fn volume_for(l: Layout, p: Point) -> int {
    let t = trough(chrome(l).slider);
    let w: int = if t.size.width >= 1 {
        t.size.width as int
    } else {
        1
    };
    let dx = p.x - t.top_left.x;
    let c = if dx < 0 {
        0
    } else if dx > w {
        w
    } else {
        dx
    };
    c * 100 / w
}

/// The volume under `p` on the slider: the trough's width maps to 0..100,
/// clamped at both ends.
pub fn volume_at(layout: &Layout, p: Point) -> (v: u8)
    requires
        fits(*layout),
    ensures
        v == volume_for(*layout, p),
        v <= 100,
{
    let t = volume_trough(volume_chrome(layout).slider);
    let w: i64 = if t.size.width >= 1 {
        t.size.width as i64
    } else {
        1
    };
    let dx: i64 = p.x as i64 - t.top_left.x as i64;
    let c: i64 = if dx < 0 {
        0
    } else if dx > w {
        w
    } else {
        dx
    };
    assert((c * 100) as int / (w as int) <= 100) by (nonlinear_arith)
        requires
            0 <= c <= w,
            w >= 1,
    ;
    assert((c * 100) as int / (w as int) >= 0) by (nonlinear_arith)
        requires
            0 <= c,
            w >= 1,
    ;
    ((c * 100) / w) as u8
}

/// A volume under the finger is a percentage.
pub proof fn lemma_volume_for_range(l: Layout, p: Point)
    ensures
        0 <= volume_for(l, p) <= 100,
{
    let t = trough(chrome(l).slider);
    let w: int = if t.size.width >= 1 {
        t.size.width as int
    } else {
        1
    };
    let dx = p.x - t.top_left.x;
    let c = if dx < 0 {
        0
    } else if dx > w {
        w
    } else {
        dx
    };
    assert(0 <= c * 100 / w <= 100) by (nonlinear_arith)
        requires
            0 <= c <= w,
            w >= 1,
    ;
}

/// What a touch on a surface means. The artwork surface closes on any tap;
/// a tap on the header or off the frame closes any surface. Controls: the
/// transport thirds, the seek band, then shuffle in the first mode third and
/// repeat elsewhere (repeat-one is a lamp only). Volume: plus, minus, the
/// slider, else the speaker. Metadata and status close on any tap.
pub open spec fn hit_spec(l: Layout, s: Surface, p: Point) -> SurfHit {
    if s == Surface::Artwork || header_rect(l).has(p) || !l.frame.has(p) {
        SurfHit::Close
    } else {
        match s {
            Surface::Controls => {
                let (t0, t1, t2) = thirds(bands(l).0, true);
                if t0.has(p) {
                    SurfHit::Prev
                } else if t1.has(p) {
                    SurfHit::PlayPause
                } else if t2.has(p) {
                    SurfHit::Next
                } else if bands(l).1.has(p) {
                    SurfHit::Seek
                } else if thirds(bands(l).2, false).0.has(p) {
                    SurfHit::Shuffle
                } else {
                    SurfHit::Repeat
                }
            },
            Surface::Volume => {
                let v = chrome(l);
                if v.up.has(p) {
                    SurfHit::VolUp
                } else if v.down.has(p) {
                    SurfHit::VolDown
                } else if v.slider.has(p) {
                    SurfHit::VolSlider
                } else {
                    SurfHit::Speaker
                }
            },
            _ => SurfHit::Close,
        }
    }
}

pub fn hit(layout: &Layout, surface: Surface, p: Point) -> (h: SurfHit)
    requires
        fits(*layout),
    ensures
        h == hit_spec(*layout, surface, p),
{
    if surface == Surface::Artwork {
        return SurfHit::Close;
    }
    let h = header(layout);
    if h.contains(p) || !layout.frame.contains(p) {
        return SurfHit::Close;
    }
    match surface {
        Surface::Controls => {
            let rows = controls_bands(layout);
            let transport = thirds_wide(rows[0], true);
            if transport[0].contains(p) {
                return SurfHit::Prev;
            }
            if transport[1].contains(p) {
                return SurfHit::PlayPause;
            }
            if transport[2].contains(p) {
                return SurfHit::Next;
            }
            if rows[1].contains(p) {
                return SurfHit::Seek;
            }
            let modes = thirds_wide(rows[2], false);
            if modes[0].contains(p) {
                return SurfHit::Shuffle;
            }
            SurfHit::Repeat
        },
        Surface::Volume => {
            let v = volume_chrome(layout);
            if v.up.contains(p) {
                return SurfHit::VolUp;
            }
            if v.down.contains(p) {
                return SurfHit::VolDown;
            }
            if v.slider.contains(p) {
                return SurfHit::VolSlider;
            }
            SurfHit::Speaker
        },
        _ => SurfHit::Close,
    }
}

/// What the Volume surface draws as a key answers a tap at its centre,
/// in every orientation the panel composes.
pub proof fn volume_keys_answer_at_their_centres(rotation: u16, st: StatusText, strip: Strip, theme: Theme)
    ensures
        ({
            let l = compose_spec(rotation, st, strip, theme);
            let v = chrome(l);
            &&& hit_spec(l, Surface::Volume, v.up.mid()) == SurfHit::VolUp
            &&& hit_spec(l, Surface::Volume, v.down.mid()) == SurfHit::VolDown
            &&& hit_spec(l, Surface::Volume, v.slider.mid()) == SurfHit::VolSlider
        }),
{
}

/// What the Controls surface draws as a key answers a tap at its centre:
/// the three transport keys, the seek band and the shuffle lamp.
pub proof fn control_keys_answer_at_their_centres(rotation: u16, st: StatusText, strip: Strip, theme: Theme)
    ensures
        ({
            let l = compose_spec(rotation, st, strip, theme);
            let (t0, t1, t2) = thirds(bands(l).0, true);
            &&& hit_spec(l, Surface::Controls, t0.mid()) == SurfHit::Prev
            &&& hit_spec(l, Surface::Controls, t1.mid()) == SurfHit::PlayPause
            &&& hit_spec(l, Surface::Controls, t2.mid()) == SurfHit::Next
            &&& hit_spec(l, Surface::Controls, bands(l).1.mid()) == SurfHit::Seek
            &&& hit_spec(l, Surface::Controls, thirds(bands(l).2, false).0.mid()) == SurfHit::Shuffle
        }),
{
}

/// On the artwork surface every tap closes.
pub proof fn artwork_closes_on_any_tap(l: Layout, p: Point)
    ensures
        hit_spec(l, Surface::Artwork, p) == SurfHit::Close,
{
}

/// A tap on the header, or off the frame, closes whatever surface is up.
pub proof fn header_and_outside_close(l: Layout, s: Surface, p: Point)
    requires
        header_rect(l).has(p) || !l.frame.has(p),
    ensures
        hit_spec(l, s, p) == SurfHit::Close,
{
}

} // verus!
