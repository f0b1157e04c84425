//! What a touch does on the player screen.
//!
//! The face opens surfaces and scrubs the seek strip; surfaces send
//! playback commands. Holding volume plus or minus repeats, and holding the
//! speaker toggles mute. Times are milliseconds on a monotonic clock. The
//! commands are sent, the host re-read and the screen repainted by the
//! caller, as the returned [`Effects`] say.

use vstd::prelude::*;
use crate::config::Strip;
use crate::face::{Frac, frac_ok, seek_frac, seek_fraction, scale, scale_by, sane};
use crate::geom::Point;
use crate::state::{Command, PlayerState};
use crate::surface::{Surface, SurfHit, bands, fits, hit, hit_spec, thirds, volume_at, volume_for};
use crate::config::{StatusText, Theme};
use crate::ui::{Hotspot, Layout, TouchEv, compose_spec, face_hit, face_hit_spec};

verus! {

/// How long a surface stays up with no touch.
pub const SURFACE_HOLD_MS: u64 = 10_000;
/// A held volume key starts repeating after this long...
pub const HOLD_DELAY_MS: u64 = 400;
/// ...and then steps this often.
pub const HOLD_REPEAT_MS: u64 = 150;
/// Holding the speaker this long toggles mute.
pub const MUTE_HOLD_MS: u64 = 600;
/// A finger that moves further than this on either axis is a drag, not a
/// tap.
pub const TAP_SLOP: i32 = 6;

/// A finger that is down: where and when it landed, what it landed on, and
/// whether it has moved or already acted.
#[derive(Debug, Clone, Copy, PartialEq, Eq, Structural)]
pub struct Press {
    pub at: Point,
    pub from_ms: u64,
    pub face: Option<Hotspot>,
    pub surf: Option<SurfHit>,
    pub moved: bool,
    pub acted: bool,
}

/// The touch-driven part of the player screen's state.
#[derive(Debug, Clone, Copy, PartialEq, Eq, Structural)]
pub struct Ui {
    /// The surface that is up, if any.
    pub open: Option<Surface>,
    /// When it closes.
    pub until_ms: Option<u64>,
    pub press: Option<Press>,
    /// Where the finger is on the seek strip while scrubbing.
    pub scrub: Option<Frac>,
    /// What the face's strip shows.
    pub strip: Strip,
    /// When the held volume key last stepped.
    pub last_step_ms: u64,
}

/// What the caller does after a touch.
#[derive(Debug, Clone, Copy, PartialEq, Eq, Structural)]
pub struct Effects {
    /// A command to send.
    pub command: Option<Command>,
    /// Poll the player state now rather than at the next interval.
    pub poll_now: bool,
    /// Repaint the whole screen.
    pub redraw: bool,
    /// Re-read the host's network state.
    pub refresh_host: bool,
}

pub open spec fn no_effects() -> Effects {
    Effects { command: None, poll_now: false, redraw: false, refresh_host: false }
}

pub open spec fn sat_add(a: u64, b: u64) -> u64 {
    if a + b > u64::MAX {
        u64::MAX
    } else {
        (a + b) as u64
    }
}

pub open spec fn sat_sub(a: u64, b: u64) -> u64 {
    if a >= b {
        (a - b) as u64
    } else {
        0
    }
}

/// The valid states: a scrub position is a fraction.
pub open spec fn ui_ok(u: Ui) -> bool {
    u.scrub matches Some(f) ==> frac_ok(f)
}

/// Seconds to seek to: the share `f` of the duration, at most `u32::MAX`.
pub open spec fn seek_secs(duration: u64, f: Frac) -> u32 {
    let s = scale(duration as nat, f);
    if s > u32::MAX {
        u32::MAX
    } else {
        s as u32
    }
}

pub open spec fn abs_diff(a: i32, b: i32) -> int {
    if a >= b {
        a - b
    } else {
        b - a
    }
}

pub open spec fn volume_of(s: PlayerState) -> u8 {
    match s.volume {
        Some(v) => v,
        None => 0,
    }
}

pub open spec fn duration_of(s: PlayerState) -> u64 {
    match s.duration {
        Some(d) => d,
        None => 0,
    }
}

/// A finger lands: on a surface it re-arms the close timer and hits the
/// surface's map; on the face it hits the face's hotspots.
pub open spec fn down_step(u: Ui, l: Layout, p: Point, now: u64) -> Ui {
    match u.open {
        Some(k) => Ui {
            until_ms: Some(sat_add(now, SURFACE_HOLD_MS)),
            press: Some(
                Press { at: p, from_ms: now, face: None, surf: Some(hit_spec(l, k, p)), moved: false, acted: false },
            ),
            last_step_ms: now,
            ..u
        },
        None => Ui {
            press: Some(
                Press { at: p, from_ms: now, face: face_hit_spec(l, p), surf: None, moved: false, acted: false },
            ),
            last_step_ms: now,
            ..u
        },
    }
}

/// A finger moves: past the slop it is a drag; a drag on a seek strip
/// scrubs; on the volume slider it sets the volume as it goes.
pub open spec fn move_step(u: Ui, l: Layout, p: Point) -> (Ui, Effects) {
    match u.press {
        None => (u, no_effects()),
        Some(pr) => {
            let moved = pr.moved || abs_diff(p.x, pr.at.x) > TAP_SLOP || abs_diff(p.y, pr.at.y) > TAP_SLOP;
            let seeking = pr.face == Some(Hotspot::Seek) || pr.surf == Some(SurfHit::Seek);
            let scrubbing = seeking && moved;
            let slider = pr.surf == Some(SurfHit::VolSlider);
            (
                Ui {
                    press: Some(Press { moved, ..pr }),
                    scrub: if scrubbing {
                        Some(seek_frac(l.progress, p))
                    } else {
                        u.scrub
                    },
                    ..u
                },
                Effects {
                    command: if slider {
                        Some(Command::Volume(volume_for(l, p) as u8))
                    } else {
                        None
                    },
                    poll_now: slider,
                    redraw: scrubbing || slider,
                    refresh_host: false,
                },
            )
        },
    }
}

/// Seeking on release: the scrubbed position, or where the finger lifted.
pub open spec fn release_seek(u: Ui, l: Layout, cur: PlayerState, p: Point) -> Effects {
    let f = match u.scrub {
        Some(f) => f,
        None => seek_frac(l.progress, p),
    };
    if duration_of(cur) > 0 {
        Effects {
            command: Some(Command::Seek(seek_secs(duration_of(cur), f))),
            poll_now: true,
            redraw: true,
            refresh_host: false,
        }
    } else {
        Effects { redraw: true, ..no_effects() }
    }
}

pub open spec fn send(c: Command) -> Effects {
    Effects { command: Some(c), poll_now: true, redraw: false, refresh_host: false }
}

/// A finger lifts from a surface. The close timer is re-armed; the header
/// closes; transport and mode keys act on a tap; plus and minus step by two
/// unless a hold already stepped; the seek band and the slider act on
/// release, dragged or not.
pub open spec fn surface_up(u: Ui, pr: Press, l: Layout, cur: PlayerState, p: Point, now: u64) -> (Ui, Effects) {
    let u1 = Ui { press: None, until_ms: Some(sat_add(now, SURFACE_HOLD_MS)), ..u };
    let vol = volume_of(cur);
    match pr.surf {
        Some(SurfHit::Close) => (Ui { open: None, until_ms: None, scrub: None, ..u1 }, Effects { redraw: true, ..no_effects() }),
        Some(SurfHit::Prev) if !pr.moved => (u1, send(Command::Prev)),
        Some(SurfHit::PlayPause) if !pr.moved => (u1, send(Command::Toggle)),
        Some(SurfHit::Next) if !pr.moved => (u1, send(Command::Next)),
        Some(SurfHit::Seek) => (Ui { scrub: None, ..u1 }, release_seek(u, l, cur, p)),
        Some(SurfHit::Shuffle) if !pr.moved => (u1, send(Command::Random)),
        Some(SurfHit::Repeat) if !pr.moved => (u1, send(Command::Repeat)),
        Some(SurfHit::VolUp) if !pr.moved && !pr.acted => (u1, send(Command::Volume(if vol + 2 > 100 { 100 } else { (vol + 2) as u8 }))),
        Some(SurfHit::VolDown) if !pr.moved && !pr.acted => (u1, send(Command::Volume(if vol >= 2 { (vol - 2) as u8 } else { 0 }))),
        Some(SurfHit::VolSlider) => (u1, Effects { redraw: true, ..send(Command::Volume(volume_for(l, p) as u8)) }),
        _ => (u1, no_effects()),
    }
}

/// The surface a hotspot opens, if any.
pub open spec fn opens(h: Hotspot, cur: PlayerState) -> Option<Surface> {
    match h {
        Hotspot::Art => Some(if cur.album_art is Some {
            Surface::Artwork
        } else {
            Surface::Metadata
        }),
        Hotspot::Info => Some(Surface::Status),
        Hotspot::Title => Some(Surface::Metadata),
        Hotspot::DockMeta => Some(Surface::Metadata),
        Hotspot::DockControls => Some(Surface::Controls),
        Hotspot::DockVolume => Some(Surface::Volume),
        Hotspot::Seek => None,
    }
}

/// The strip a tap on it switches to: progress and stream swap; off stays
/// off.
pub open spec fn next_strip(s: Strip) -> Strip {
    match s {
        Strip::Progress => Strip::Stream,
        Strip::Stream => Strip::Progress,
        Strip::Off => Strip::Off,
    }
}

/// A finger lifts from the face. A drag that began on the seek strip seeks;
/// any other drag does nothing. A tap on the cover opens the artwork (the
/// metadata when there is no cover); on the IP ring, the status surface,
/// re-reading the host; on the title or the dock's third cell, metadata; on
/// the first, controls; on the second, volume. A tap on the strip switches
/// between progress and stream.
pub open spec fn face_up(u: Ui, pr: Press, l: Layout, cur: PlayerState, p: Point, now: u64) -> (Ui, Effects) {
    let u1 = Ui { press: None, ..u };
    if pr.moved && pr.face == Some(Hotspot::Seek) {
        (Ui { scrub: None, ..u1 }, release_seek(u, l, cur, p))
    } else if pr.moved {
        (u1, no_effects())
    } else {
        match pr.face {
            Some(Hotspot::Seek) => (Ui { strip: next_strip(u.strip), ..u1 }, Effects { redraw: true, ..no_effects() }),
            Some(h) => (
                Ui { open: opens(h, cur), until_ms: Some(sat_add(now, SURFACE_HOLD_MS)), ..u1 },
                Effects { redraw: true, refresh_host: h == Hotspot::Info, ..no_effects() },
            ),
            None => (u1, no_effects()),
        }
    }
}

pub open spec fn up_step(u: Ui, l: Layout, cur: PlayerState, p: Point, now: u64) -> (Ui, Effects) {
    match u.press {
        None => (u, no_effects()),
        Some(pr) => if u.open is Some {
            surface_up(u, pr, l, cur, p, now)
        } else {
            face_up(u, pr, l, cur, p, now)
        },
    }
}

/// One touch event's effect on the screen state.
pub open spec fn touch_step(u: Ui, ev: TouchEv, l: Layout, cur: PlayerState, now: u64) -> (Ui, Effects) {
    match ev {
        TouchEv::Down(p) => (down_step(u, l, p, now), no_effects()),
        TouchEv::Move(p) => move_step(u, l, p),
        TouchEv::Up(p) => up_step(u, l, cur, p, now),
    }
}

fn effects(command: Option<Command>, poll_now: bool, redraw: bool) -> (e: Effects)
    ensures
        e == (Effects { command, poll_now, redraw, refresh_host: false }),
{
    Effects { command, poll_now, redraw, refresh_host: false }
}

fn seek_to(duration: u64, f: Frac) -> (s: u32)
    requires
        frac_ok(f),
    ensures
        s == seek_secs(duration, f),
{
    let s = scale_by(duration, f);
    if s > u32::MAX as u64 {
        u32::MAX
    } else {
        s as u32
    }
}

fn release_seek_exec(ui: &Ui, layout: &Layout, cur: &PlayerState, p: Point) -> (e: Effects)
    requires
        ui_ok(*ui),
        fits(*layout),
    ensures
        e == release_seek(*ui, *layout, *cur, p),
{
    let f = match ui.scrub {
        Some(f) => f,
        None => seek_fraction(layout.progress, p),
    };
    let d = match cur.duration {
        Some(d) => d,
        None => 0,
    };
    if d > 0 {
        effects(Some(Command::Seek(seek_to(d, f))), true, true)
    } else {
        effects(None, false, true)
    }
}

/// Apply one touch event to the screen state and say what to do about it.
pub fn handle_touch(ui: &mut Ui, ev: TouchEv, layout: &Layout, cur: &PlayerState, now_ms: u64) -> (e: Effects)
    requires
        ui_ok(*old(ui)),
        fits(*layout),
    ensures
        (*final(ui), e) == touch_step(*old(ui), ev, *layout, *cur, now_ms),
        ui_ok(*final(ui)),
{
    match ev {
        TouchEv::Down(p) => {
            *ui = touch_down(*ui, layout, p, now_ms);
            effects(None, false, false)
        },
        TouchEv::Move(p) => {
            let (u, e) = touch_move(*ui, layout, p);
            *ui = u;
            e
        },
        TouchEv::Up(p) => {
            let (u, e) = touch_up(*ui, layout, cur, p, now_ms);
            *ui = u;
            e
        },
    }
}

fn touch_down(u: Ui, layout: &Layout, p: Point, now_ms: u64) -> (r: Ui)
    requires
        fits(*layout),
    ensures
        r == down_step(u, *layout, p, now_ms),
{
    match u.open {
        Some(k) => {
            let pr = Press {
                at: p,
                from_ms: now_ms,
                face: None,
                surf: Some(hit(layout, k, p)),
                moved: false,
                acted: false,
            };
            Ui { until_ms: Some(now_ms.saturating_add(SURFACE_HOLD_MS)), press: Some(pr), last_step_ms: now_ms, ..u }
        },
        None => {
            let pr = Press {
                at: p,
                from_ms: now_ms,
                face: face_hit(layout, p),
                surf: None,
                moved: false,
                acted: false,
            };
            Ui { press: Some(pr), last_step_ms: now_ms, ..u }
        },
    }
}

fn touch_move(u: Ui, layout: &Layout, p: Point) -> (r: (Ui, Effects))
    requires
        ui_ok(u),
        fits(*layout),
    ensures
        r == move_step(u, *layout, p),
        ui_ok(r.0),
{
    let pr = match u.press {
        Some(pr) => pr,
        None => {
            return (u, effects(None, false, false));
        },
    };
    let dx: i64 = p.x as i64 - pr.at.x as i64;
    let dy: i64 = p.y as i64 - pr.at.y as i64;
    let far = dx > TAP_SLOP as i64 || -dx > TAP_SLOP as i64 || dy > TAP_SLOP as i64 || -dy
        > TAP_SLOP as i64;
    let moved = pr.moved || far;
    let seeking = pr.face == Some(Hotspot::Seek) || pr.surf == Some(SurfHit::Seek);
    let scrubbing = seeking && moved;
    let slider = pr.surf == Some(SurfHit::VolSlider);
    let scrub = if scrubbing {
        Some(seek_fraction(layout.progress, p))
    } else {
        u.scrub
    };
    let command = if slider {
        Some(Command::Volume(volume_at(layout, p)))
    } else {
        None
    };
    (Ui { press: Some(Press { moved, ..pr }), scrub, ..u }, effects(command, slider, scrubbing || slider))
}

fn touch_up(u: Ui, layout: &Layout, cur: &PlayerState, p: Point, now_ms: u64) -> (r: (Ui, Effects))
    requires
        ui_ok(u),
        fits(*layout),
    ensures
        r == up_step(u, *layout, *cur, p, now_ms),
        ui_ok(r.0),
{
    let pr = match u.press {
        Some(pr) => pr,
        None => {
            return (u, effects(None, false, false));
        },
    };
    if u.open.is_some() {
        surface_release(u, pr, layout, cur, p, now_ms)
    } else {
        face_release(u, pr, layout, cur, p, now_ms)
    }
}

fn surface_release(u: Ui, pr: Press, layout: &Layout, cur: &PlayerState, p: Point, now_ms: u64) -> (r: (Ui, Effects))
    requires
        ui_ok(u),
        fits(*layout),
    ensures
        r == surface_up(u, pr, *layout, *cur, p, now_ms),
        ui_ok(r.0),
{
    let u1 = Ui { press: None, until_ms: Some(now_ms.saturating_add(SURFACE_HOLD_MS)), ..u };
    let vol: u8 = match cur.volume {
        Some(v) => v,
        None => 0,
    };
    match pr.surf {
        Some(SurfHit::Close) => (Ui { open: None, until_ms: None, scrub: None, ..u1 }, effects(None, false, true)),
        Some(SurfHit::Prev) if !pr.moved => (u1, effects(Some(Command::Prev), true, false)),
        Some(SurfHit::PlayPause) if !pr.moved => (u1, effects(Some(Command::Toggle), true, false)),
        Some(SurfHit::Next) if !pr.moved => (u1, effects(Some(Command::Next), true, false)),
        Some(SurfHit::Seek) => (Ui { scrub: None, ..u1 }, release_seek_exec(&u, layout, cur, p)),
        Some(SurfHit::Shuffle) if !pr.moved => (u1, effects(Some(Command::Random), true, false)),
        Some(SurfHit::Repeat) if !pr.moved => (u1, effects(Some(Command::Repeat), true, false)),
        Some(SurfHit::VolUp) if !pr.moved && !pr.acted => {
            let next: u8 = if vol >= 98 {
                100
            } else {
                vol + 2
            };
            (u1, effects(Some(Command::Volume(next)), true, false))
        },
        Some(SurfHit::VolDown) if !pr.moved && !pr.acted => {
            let next: u8 = if vol >= 2 {
                vol - 2
            } else {
                0
            };
            (u1, effects(Some(Command::Volume(next)), true, false))
        },
        Some(SurfHit::VolSlider) => (u1, effects(Some(Command::Volume(volume_at(layout, p))), true, true)),
        _ => (u1, effects(None, false, false)),
    }
}

fn face_release(u: Ui, pr: Press, layout: &Layout, cur: &PlayerState, p: Point, now_ms: u64) -> (r: (Ui, Effects))
    requires
        ui_ok(u),
        fits(*layout),
    ensures
        r == face_up(u, pr, *layout, *cur, p, now_ms),
        ui_ok(r.0),
{
    let u1 = Ui { press: None, ..u };
    if pr.moved && pr.face == Some(Hotspot::Seek) {
        return (Ui { scrub: None, ..u1 }, release_seek_exec(&u, layout, cur, p));
    }
    if pr.moved {
        return (u1, effects(None, false, false));
    }
    match pr.face {
        Some(Hotspot::Seek) => {
            let strip = match u.strip {
                Strip::Progress => Strip::Stream,
                Strip::Stream => Strip::Progress,
                Strip::Off => Strip::Off,
            };
            (Ui { strip, ..u1 }, effects(None, false, true))
        },
        Some(h) => {
            let k = match h {
                Hotspot::Art => if cur.album_art.is_some() {
                    Surface::Artwork
                } else {
                    Surface::Metadata
                },
                Hotspot::Info => Surface::Status,
                Hotspot::DockControls => Surface::Controls,
                Hotspot::DockVolume => Surface::Volume,
                _ => Surface::Metadata,
            };
            (
                Ui { open: Some(k), until_ms: Some(now_ms.saturating_add(SURFACE_HOLD_MS)), ..u1 },
                Effects { command: None, poll_now: false, redraw: true, refresh_host: h == Hotspot::Info },
            )
        },
        None => (u1, effects(None, false, false)),
    }
}

/// A held key, checked once a tick. Volume plus or minus repeats every
/// 150 ms once held 400 ms, stepping by two within 0..100. The speaker
/// toggles mute once held 600 ms, if the finger has not moved and the hold
/// has not acted. Returns the command to send; whenever there is one the
/// state is polled and the screen repainted.
pub open spec fn hold_step(pr: Press, last: u64, cur: PlayerState, now: u64) -> (Press, u64, Option<Command>) {
    let held = sat_sub(now, pr.from_ms);
    match pr.surf {
        Some(SurfHit::VolUp) | Some(SurfHit::VolDown) => if held < HOLD_DELAY_MS || sat_sub(now, last)
            < HOLD_REPEAT_MS {
            (pr, last, None)
        } else {
            let v = volume_of(cur) as int + if pr.surf == Some(SurfHit::VolUp) {
                2int
            } else {
                -2int
            };
            let next: u8 = if v < 0 {
                0
            } else if v > 100 {
                100
            } else {
                v as u8
            };
            (Press { acted: true, ..pr }, now, Some(Command::Volume(next)))
        },
        Some(SurfHit::Speaker) if held >= MUTE_HOLD_MS && !pr.moved && !pr.acted => (
            Press { acted: true, ..pr },
            last,
            Some(if cur.mute == Some(true) {
                Command::Unmute
            } else {
                Command::Mute
            }),
        ),
        _ => (pr, last, None),
    }
}

pub fn tick_hold(press: &mut Press, cur: &PlayerState, now_ms: u64, last_step_ms: &mut u64) -> (c: Option<Command>)
    ensures
        (*final(press), *final(last_step_ms), c) == hold_step(*old(press), *old(last_step_ms), *cur, now_ms),
{
    let held = now_ms.saturating_sub(press.from_ms);
    match press.surf {
        Some(SurfHit::VolUp) | Some(SurfHit::VolDown) => {
            if held < HOLD_DELAY_MS {
                return None;
            }
            if now_ms.saturating_sub(*last_step_ms) < HOLD_REPEAT_MS {
                return None;
            }
            *last_step_ms = now_ms;
            press.acted = true;
            let vol: i16 = match cur.volume {
                Some(v) => v as i16,
                None => 0,
            };
            let delta: i16 = if press.surf == Some(SurfHit::VolUp) {
                2
            } else {
                -2
            };
            let v = vol + delta;
            let next: u8 = if v < 0 {
                0
            } else if v > 100 {
                100
            } else {
                v as u8
            };
            Some(Command::Volume(next))
        },
        Some(SurfHit::Speaker) => {
            if held >= MUTE_HOLD_MS && !press.moved && !press.acted {
                press.acted = true;
                Some(if cur.is_muted() {
                    Command::Unmute
                } else {
                    Command::Mute
                })
            } else {
                None
            }
        },
        _ => None,
    }
}

/// A held speaker mutes or unmutes at most once per press.
pub proof fn mute_acts_once_per_press(pr: Press, last: u64, cur: PlayerState, now: u64, later: u64, cur2: PlayerState)
    requires
        pr.surf == Some(SurfHit::Speaker),
    ensures
        ({
            let (pr1, last1, c1) = hold_step(pr, last, cur, now);
            c1 is Some ==> hold_step(pr1, last1, cur2, later).2 is None
        }),
{
}

/// Once a hold has stepped the volume, lifting the finger sends nothing
/// more.
pub proof fn a_held_step_is_not_repeated_on_release(
    u: Ui,
    l: Layout,
    cur: PlayerState,
    p: Point,
    now: u64,
)
    requires
        u.open is Some,
        u.press matches Some(pr) && pr.acted && (pr.surf == Some(SurfHit::VolUp) || pr.surf == Some(
            SurfHit::VolDown,
        )),
    ensures
        up_step(u, l, cur, p, now).1.command is None,
{
}

/// Whatever is touched, a volume command stays within 0..100.
pub proof fn volume_commands_stay_in_range(u: Ui, ev: TouchEv, l: Layout, cur: PlayerState, now: u64)
    requires
        fits(l),
        volume_of(cur) <= 100,
    ensures
        touch_step(u, ev, l, cur, now).1.command matches Some(Command::Volume(v)) ==> v <= 100,
{
    match ev {
        TouchEv::Move(p) => {
            crate::surface::lemma_volume_for_range(l, p);
        },
        TouchEv::Up(p) => {
            crate::surface::lemma_volume_for_range(l, p);
        },
        _ => {},
    }
}

/// A tap on the artwork closes it; a tap on a surface's header closes it.
pub proof fn tapping_the_header_closes(u: Ui, l: Layout, cur: PlayerState, p: Point, q: Point, now: u64, later: u64)
    requires
        u.open is Some,
        crate::surface::header_rect(l).has(p) || u.open == Some(Surface::Artwork),
        q == p,
    ensures
        ({
            let u1 = down_step(u, l, p, now);
            let (u2, e) = up_step(u1, l, cur, q, later);
            u2.open is None && u2.until_ms is None && e.redraw
        }),
{
}

/// A tap on a surface key, a finger that lifts without having moved, sends
/// that key's command: the left transport key the previous track, the
/// middle one play/pause, the right one the next track, the shuffle lamp
/// shuffle and the repeat lamp repeat.
pub proof fn a_tapped_key_sends_its_command(u: Ui, l: Layout, cur: PlayerState, p: Point, now: u64)
    requires
        u.open is Some,
        u.press matches Some(pr) && !pr.moved,
    ensures
        ({
            let c = touch_step(u, TouchEv::Up(p), l, cur, now).1.command;
            let k = u.press->0.surf;
            &&& k == Some(SurfHit::Prev) ==> c == Some(Command::Prev)
            &&& k == Some(SurfHit::PlayPause) ==> c == Some(Command::Toggle)
            &&& k == Some(SurfHit::Next) ==> c == Some(Command::Next)
            &&& k == Some(SurfHit::Shuffle) ==> c == Some(Command::Random)
            &&& k == Some(SurfHit::Repeat) ==> c == Some(Command::Repeat)
        }),
{
}

/// The command sent by a finger that lands on `c` and lifts there.
pub open spec fn tap_command(u: Ui, l: Layout, cur: PlayerState, c: Point, now: u64, later: u64) -> Option<Command> {
    touch_step(touch_step(u, TouchEv::Down(c), l, cur, now).0, TouchEv::Up(c), l, cur, later).1.command
}

/// On the Controls surface, in every orientation the panel composes, a tap
/// on the centre of the left transport key goes to the previous track, on
/// the middle one toggles play/pause, on the right one goes to the next
/// track, and on the shuffle lamp toggles shuffle.
pub proof fn tapping_a_transport_key_sends_its_command(
    u: Ui,
    rotation: u16,
    st: StatusText,
    strip: Strip,
    theme: Theme,
    cur: PlayerState,
    now: u64,
    later: u64,
)
    requires
        u.open == Some(Surface::Controls),
    ensures
        ({
            let l = compose_spec(rotation, st, strip, theme);
            let (k0, k1, k2) = thirds(bands(l).0, true);
            &&& tap_command(u, l, cur, k0.mid(), now, later) == Some(Command::Prev)
            &&& tap_command(u, l, cur, k1.mid(), now, later) == Some(Command::Toggle)
            &&& tap_command(u, l, cur, k2.mid(), now, later) == Some(Command::Next)
            &&& tap_command(u, l, cur, thirds(bands(l).2, false).0.mid(), now, later) == Some(Command::Random)
        }),
{
    crate::surface::control_keys_answer_at_their_centres(rotation, st, strip, theme);
}

} // verus!
