//! The main loop's decisions, one tick at a time: the boot status screen's
//! schedule and footer, when a surface times out, and how much of the
//! player screen a tick repaints. The loop itself, the clock, the requests
//! and the painting belong to the caller.

use vstd::prelude::*;
use crate::config::Strip;
use crate::controller::{Ui, sat_add, sat_sub};
use crate::face::Frac;
use crate::state::PlayerState;
use crate::surface::{Surface, hold_secs};
use crate::text::{opt_text, same_opt_text, string_from};

verus! {

broadcast use vstd::string::group_string_axioms;

/// How often `/status` is asked while the address screen is up.
pub const STATUS_POLL_MS: u64 = 1000;
/// Fall through to the player state if `/status` never says ready.
pub const STATUS_WAIT_CAP_MS: u64 = 120_000;
/// Spinner step on the `starting` footer.
pub const SPIN_INTERVAL_MS: u64 = 400;

pub open spec fn spin_glyph(i: nat) -> char {
    if i % 4 == 0 {
        '|'
    } else if i % 4 == 1 {
        '/'
    } else if i % 4 == 2 {
        '-'
    } else {
        '\\'
    }
}

/// The footer while the backend is starting: `starting ` and a spinner.
pub open spec fn footer_text(spin: nat) -> Seq<char> {
    seq!['s', 't', 'a', 'r', 't', 'i', 'n', 'g', ' ', spin_glyph(spin)]
}

/// The address screen's schedule: whether the backend has said it is
/// ready (or the wait gave up), when to ask next, the spinner, and whether
/// the player has been reached, after which the address screen is gone.
pub struct Boot {
    backend_ready: bool,
    player: bool,
    wait_from_ms: u64,
    next_status_ms: u64,
    next_spin_ms: u64,
    spin: u8,
    last_footer: Option<String>,
}

impl Boot {
    pub closed spec fn ready(self) -> bool {
        self.backend_ready
    }

    /// The player state has been read once: the player screen is up for
    /// good.
    pub closed spec fn on_player(self) -> bool {
        self.player
    }

    pub closed spec fn wait_from(self) -> u64 {
        self.wait_from_ms
    }

    pub closed spec fn next_status(self) -> u64 {
        self.next_status_ms
    }

    pub closed spec fn next_spin(self) -> u64 {
        self.next_spin_ms
    }

    pub closed spec fn spin_at(self) -> nat {
        self.spin as nat
    }

    pub closed spec fn shown_footer(self) -> Option<Seq<char>> {
        opt_text(self.last_footer)
    }

    /// Started at `now_ms`: ask at once, spin after one interval.
    pub fn new(now_ms: u64) -> (b: Boot)
        ensures
            !b.ready(),
            !b.on_player(),
            b.wait_from() == now_ms,
            b.next_status() == now_ms,
            b.next_spin() == sat_add(now_ms, SPIN_INTERVAL_MS),
            b.spin_at() == 0,
            b.shown_footer() is None,
    {
        Boot {
            backend_ready: false,
            player: false,
            wait_from_ms: now_ms,
            next_status_ms: now_ms,
            next_spin_ms: now_ms.saturating_add(SPIN_INTERVAL_MS),
            spin: 0,
            last_footer: None,
        }
    }

    /// Whether the backend counts as ready: it said so, or the wait gave up.
    pub fn is_ready(&self) -> (b: bool)
        ensures
            b == self.ready(),
    {
        self.backend_ready
    }

    /// Whether `/status` should be asked now.
    pub fn status_due(&self, now_ms: u64) -> (b: bool)
        ensures
            b == (!self.ready() && now_ms >= self.next_status()),
    {
        !self.backend_ready && now_ms >= self.next_status_ms
    }

    /// Record `/status`'s answer. Ready, or two minutes without it, ends the
    /// wait; the result says whether it just ended, in which case the player
    /// state is asked at once. The next ask is a second away.
    pub fn status_answered(&mut self, ready: bool, now_ms: u64) -> (ended: bool)
        ensures
            final(self).next_status() == sat_add(now_ms, STATUS_POLL_MS),
            final(self).ready() == (old(self).ready() || ready || sat_sub(now_ms, old(self).wait_from())
                >= STATUS_WAIT_CAP_MS),
            ended == (!old(self).ready() && final(self).ready()),
            final(self).wait_from() == old(self).wait_from(),
            final(self).next_spin() == old(self).next_spin(),
            final(self).spin_at() == old(self).spin_at(),
            final(self).shown_footer() == old(self).shown_footer(),
            final(self).on_player() == old(self).on_player(),
    {
        let was = self.backend_ready;
        if ready {
            self.backend_ready = true;
        }
        self.next_status_ms = now_ms.saturating_add(STATUS_POLL_MS);
        if !self.backend_ready && now_ms.saturating_sub(self.wait_from_ms) >= STATUS_WAIT_CAP_MS {
            self.backend_ready = true;
        }
        !was && self.backend_ready
    }

    /// The footer for this tick and whether the screen needs repainting.
    /// The spinner shows while there is an address and the backend is not
    /// ready, stepping every 400 ms. A repaint is due when the host changed
    /// (`dirty`), the spinner stepped, or the footer is not what was last
    /// painted; the footer is then taken as painted.
    pub fn footer(&mut self, has_address: bool, dirty: bool, now_ms: u64) -> (r: (Option<String>, bool))
        requires
            old(self).spin_at() < 4,
        ensures
            ({
                let want = has_address && !old(self).ready();
                let due = want && now_ms >= old(self).next_spin();
                let spin: nat = if due {
                    (old(self).spin_at() + 1) % 4
                } else {
                    old(self).spin_at()
                };
                let f = if want {
                    Some(footer_text(spin))
                } else {
                    None
                };
                &&& opt_text(r.0) == f
                &&& r.1 == (dirty || due || f != old(self).shown_footer())
                &&& final(self).spin_at() == spin
                &&& final(self).spin_at() < 4
                &&& final(self).next_spin() == if due {
                    sat_add(now_ms, SPIN_INTERVAL_MS)
                } else {
                    old(self).next_spin()
                }
                &&& final(self).shown_footer() == if r.1 {
                    f
                } else {
                    old(self).shown_footer()
                }
                &&& final(self).ready() == old(self).ready()
                &&& final(self).next_status() == old(self).next_status()
                &&& final(self).wait_from() == old(self).wait_from()
                &&& final(self).on_player() == old(self).on_player()
            }),
    {
        let want = has_address && !self.backend_ready;
        let due = want && now_ms >= self.next_spin_ms;
        if due {
            self.spin = (self.spin + 1) % 4;
            self.next_spin_ms = now_ms.saturating_add(SPIN_INTERVAL_MS);
        }
        let footer = if want {
            let g = match self.spin {
                0 => '|',
                1 => '/',
                2 => '-',
                _ => '\\',
            };
            let v: Vec<char> = vec!['s', 't', 'a', 'r', 't', 'i', 'n', 'g', ' ', g];
            assert(v@ =~= footer_text(self.spin as nat));
            Some(string_from(&v))
        } else {
            None
        };
        let repaint = dirty || due || !same_opt_text(&footer, &self.last_footer);
        if repaint {
            self.last_footer = match &footer {
                Some(s) => Some(s.clone()),
                None => None,
            };
        }
        (footer, repaint)
    }

    /// Whether the address screen is the one up: until the player state
    /// has been read once.
    pub fn shows_status(&self) -> (b: bool)
        ensures
            b == !self.on_player(),
    {
        !self.player
    }

    /// Record a player state request: `ok` when it was answered. The first
    /// answer switches to the player screen for good; the result says
    /// whether this one did, in which case the player is drawn in full.
    pub fn state_polled(&mut self, ok: bool) -> (switched: bool)
        ensures
            final(self).on_player() == after_poll(old(self).on_player(), ok),
            switched == (!old(self).on_player() && ok),
            final(self).ready() == old(self).ready(),
            final(self).wait_from() == old(self).wait_from(),
            final(self).next_status() == old(self).next_status(),
            final(self).next_spin() == old(self).next_spin(),
            final(self).spin_at() == old(self).spin_at(),
            final(self).shown_footer() == old(self).shown_footer(),
    {
        let switched = !self.player && ok;
        if ok {
            self.player = true;
        }
        switched
    }
}

/// Whether the player is up after a player state request answered (`ok`)
/// or not.
pub open spec fn after_poll(player: bool, ok: bool) -> bool {
    player || ok
}

/// Whether the player is up after a run of player state requests.
pub open spec fn after_polls(player: bool, oks: Seq<bool>) -> bool
    decreases oks.len(),
{
    if oks.len() == 0 {
        player
    } else {
        after_poll(after_polls(player, oks.drop_last()), oks.last())
    }
}

/// Once a player state request has been answered, the address screen is
/// never shown again, whatever later requests do: the switch is one way.
pub proof fn the_switch_to_the_player_is_one_way(player: bool, oks: Seq<bool>, i: int)
    requires
        0 <= i < oks.len(),
        oks[i],
    ensures
        after_polls(player, oks),
    decreases oks.len(),
{
    if i < oks.len() - 1 {
        the_switch_to_the_player_is_one_way(player, oks.drop_last(), i);
    }
}

/// Close the surface when its time is up: at or after `until_ms`. Closing
/// drops the scrub position. Returns whether it closed.
pub fn expire(ui: &mut Ui, now_ms: u64) -> (closed: bool)
    ensures
        closed == (old(ui).until_ms matches Some(t) && now_ms >= t),
        closed ==> *final(ui) == (Ui { open: None, until_ms: None, scrub: None, ..*old(ui) }),
        !closed ==> *final(ui) == *old(ui),
{
    let due = match ui.until_ms {
        Some(t) => now_ms >= t,
        None => false,
    };
    if due {
        ui.open = None;
        ui.until_ms = None;
        ui.scrub = None;
    }
    due
}

/// Whole seconds left on the surface's timer, if one is running.
pub fn hold_left(ui: &Ui, now_ms: u64) -> (s: Option<u64>)
    ensures
        s == match ui.until_ms {
            Some(t) => Some(((sat_sub(t, now_ms) + 999) / 1000) as u64),
            None => None,
        },
{
    match ui.until_ms {
        Some(t) => Some(hold_secs(t.saturating_sub(now_ms))),
        None => None,
    }
}

/// How much of the player screen a tick repaints.
#[derive(Debug, Clone, Copy, PartialEq, Eq, Structural)]
pub enum Paint {
    /// The whole screen: the surface that is up, or the face.
    Full,
    /// Only what moved: the face's seek strip, the Controls surface's seek
    /// band, and the surface's countdown when it changed.
    Partial { progress: bool, controls_seek: bool, hold: Option<u64> },
}

/// The repaint for a tick. While the scene on screen is the current one
/// (`same_scene`) and no finger is scrubbing, only what moved is repainted:
/// a moved position redraws the face's strip when it shows progress, or
/// the Controls surface's seek band; a changed countdown is repainted on
/// a surface. Otherwise the whole screen is.
pub open spec fn paint_for(
    shown: Option<PlayerState>,
    cur: PlayerState,
    scrub: Option<Frac>,
    open: Option<Surface>,
    strip: Strip,
    hold_left: Option<u64>,
    hold_shown: Option<u64>,
) -> Paint {
    match shown {
        Some(prev) if prev.scene_eq(cur) && scrub is None => {
            let moved = prev.seek != cur.seek;
            Paint::Partial {
                progress: moved && open is None && strip == Strip::Progress,
                controls_seek: moved && open == Some(Surface::Controls),
                hold: if open is Some && hold_left != hold_shown {
                    hold_left
                } else {
                    None
                },
            }
        },
        _ => Paint::Full,
    }
}

pub fn plan_paint(
    shown: &Option<PlayerState>,
    cur: &PlayerState,
    scrub: Option<Frac>,
    open: Option<Surface>,
    strip: Strip,
    hold_left: Option<u64>,
    hold_shown: Option<u64>,
) -> (p: Paint)
    ensures
        p == paint_for(*shown, *cur, scrub, open, strip, hold_left, hold_shown),
{
    match shown {
        Some(prev) => {
            if prev.same_scene(cur) && scrub.is_none() {
                let moved = prev.seek != cur.seek;
                let hold = if open.is_some() && hold_left != hold_shown {
                    hold_left
                } else {
                    None
                };
                Paint::Partial {
                    progress: moved && open.is_none() && strip == Strip::Progress,
                    controls_seek: moved && open == Some(Surface::Controls),
                    hold,
                }
            } else {
                Paint::Full
            }
        },
        None => Paint::Full,
    }
}

/// A scene that is already on screen and has not changed is never
/// repainted in full.
pub proof fn an_unchanged_scene_is_not_repainted(
    s: PlayerState,
    open: Option<Surface>,
    strip: Strip,
    hold: Option<u64>,
)
    ensures
        paint_for(Some(s), s, None, open, strip, hold, hold) == (Paint::Partial {
            progress: false,
            controls_seek: false,
            hold: None,
        }),
{
    crate::state::same_scene_is_reflexive_and_symmetric(s, s);
}

/// A poll that changes anything the screen shows (status, title, artist,
/// album, duration, a format field, volume, mute, shuffle, repeat,
/// repeat-one or service) repaints the whole screen, so a lamp or a level
/// never stays as it was.
pub proof fn a_changed_display_field_repaints_in_full(
    shown: PlayerState,
    cur: PlayerState,
    scrub: Option<Frac>,
    open: Option<Surface>,
    strip: Strip,
    hold_left: Option<u64>,
    hold_shown: Option<u64>,
)
    requires
        ({
        ||| opt_text(shown.status) != opt_text(cur.status)
        ||| opt_text(shown.title) != opt_text(cur.title)
        ||| opt_text(shown.artist) != opt_text(cur.artist)
        ||| opt_text(shown.album) != opt_text(cur.album)
        ||| shown.duration != cur.duration
        ||| opt_text(shown.samplerate) != opt_text(cur.samplerate)
        ||| opt_text(shown.bitdepth) != opt_text(cur.bitdepth)
        ||| opt_text(shown.track_type) != opt_text(cur.track_type)
        ||| opt_text(shown.codec) != opt_text(cur.codec)
        ||| opt_text(shown.bitrate) != opt_text(cur.bitrate)
        ||| shown.volume != cur.volume
        ||| shown.mute != cur.mute
        ||| shown.random != cur.random
        ||| shown.repeat != cur.repeat
        ||| shown.repeat_single != cur.repeat_single
        ||| opt_text(shown.service) != opt_text(cur.service)
        }),
    ensures
        paint_for(Some(shown), cur, scrub, open, strip, hold_left, hold_shown) == Paint::Full,
{
    crate::state::a_scene_is_every_displayed_field(shown, cur);
}

} // verus!
