//! Turning controller reads into press, move and release.
//!
//! The controller is read on every falling edge of its interrupt line. A
//! read with a finger is a press when no finger was down (unless it comes
//! within the debounce of the last press) and otherwise a move, passed on
//! at most every 40 ms. A read without a finger ends the press, at the last
//! point passed on. Reading the bus and waiting for edges is the caller's.

use vstd::prelude::*;
use crate::geom::Point;
use crate::ui::TouchEv;

verus! {

/// Moves are passed on at most this often.
pub const MOVE_INTERVAL_MS: u64 = 40;

/// What the reader remembers between reads.
#[derive(Debug, Clone, Copy, PartialEq, Eq, Structural)]
pub struct Tracker {
    /// A finger is down.
    pub finger: bool,
    /// When the last press was passed on; `None` before the first.
    pub last_down_ms: Option<u64>,
    /// When the last press or move was passed on.
    pub last_move_ms: u64,
    /// The last point passed on.
    pub last_pt: Point,
}

pub open spec fn since(now: u64, t: u64) -> u64 {
    if now >= t {
        (now - t) as u64
    } else {
        0
    }
}

/// One read: `Some(p)` with a finger at `p` (already mapped into the
/// frame), `None` without one.
pub open spec fn track(t: Tracker, read: Option<Point>, now: u64, debounce: u64) -> (Tracker, Option<TouchEv>) {
    match read {
        Some(p) => if !t.finger {
            if t.last_down_ms matches Some(d) && since(now, d) < debounce {
                (t, None)
            } else {
                (Tracker { finger: true, last_down_ms: Some(now), last_move_ms: now, last_pt: p }, Some(TouchEv::Down(p)))
            }
        } else if since(now, t.last_move_ms) >= MOVE_INTERVAL_MS {
            (Tracker { last_move_ms: now, last_pt: p, ..t }, Some(TouchEv::Move(p)))
        } else {
            (t, None)
        },
        None => if t.finger {
            (Tracker { finger: false, ..t }, Some(TouchEv::Up(t.last_pt)))
        } else {
            (t, None)
        },
    }
}

impl Tracker {
    /// No finger down, no press yet (so the first one is never inside the
    /// debounce), the move clock at zero and the last point at the origin.
    pub fn new() -> (t: Tracker)
        ensures
            !t.finger,
            t.last_down_ms is None,
            t.last_move_ms == 0,
            t.last_pt == (Point { x: 0, y: 0 }),
    {
        Tracker { finger: false, last_down_ms: None, last_move_ms: 0, last_pt: Point { x: 0, y: 0 } }
    }

    /// Take one read and say what to pass on.
    pub fn on_read(&mut self, read: Option<Point>, now_ms: u64, debounce_ms: u64) -> (ev: Option<TouchEv>)
        ensures
            (*final(self), ev) == track(*old(self), read, now_ms, debounce_ms),
    {
        match read {
            Some(p) => {
                if !self.finger {
                    if let Some(d) = self.last_down_ms {
                        if now_ms.saturating_sub(d) < debounce_ms {
                            return None;
                        }
                    }
                    self.finger = true;
                    self.last_down_ms = Some(now_ms);
                    self.last_move_ms = now_ms;
                    self.last_pt = p;
                    Some(TouchEv::Down(p))
                } else if now_ms.saturating_sub(self.last_move_ms) >= MOVE_INTERVAL_MS {
                    self.last_move_ms = now_ms;
                    self.last_pt = p;
                    Some(TouchEv::Move(p))
                } else {
                    None
                }
            },
            None => {
                if self.finger {
                    self.finger = false;
                    Some(TouchEv::Up(self.last_pt))
                } else {
                    None
                }
            },
        }
    }
}

/// Every release ends a press: an `Up` is passed on only while a finger is
/// down, and a `Down` only while none is.
pub proof fn presses_and_releases_alternate(t: Tracker, read: Option<Point>, now: u64, debounce: u64)
    ensures
        ({
            let (t2, ev) = track(t, read, now, debounce);
            &&& (ev matches Some(TouchEv::Down(_)) ==> !t.finger && t2.finger)
            &&& (ev matches Some(TouchEv::Up(_)) ==> t.finger && !t2.finger)
            &&& (ev matches Some(TouchEv::Move(_)) ==> t.finger && t2.finger)
            &&& (ev is None ==> t2.finger == t.finger)
        }),
{
}

/// A release is reported where the last press or move was reported.
pub proof fn release_is_at_the_last_reported_point(t: Tracker, now: u64, debounce: u64)
    requires
        t.finger,
    ensures
        track(t, None, now, debounce).1 == Some(TouchEv::Up(t.last_pt)),
{
}

} // verus!
