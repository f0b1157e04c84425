use waveshare28_panel::config::Strip;
use waveshare28_panel::controller::{handle_touch, tick_hold, Press, Ui};
use waveshare28_panel::geom::Point;
use waveshare28_panel::session::{expire, hold_left, plan_paint, Boot, Paint};
use waveshare28_panel::state::{Command, PlayerState};
use waveshare28_panel::surface::{volume_chrome, SurfHit, Surface};
use waveshare28_panel::ui::{Hotspot, Layout, TouchEv};

fn ui() -> Ui {
    Ui { open: None, until_ms: None, press: None, scrub: None, strip: Strip::Progress, last_step_ms: 0 }
}

fn tap(u: &mut Ui, l: &Layout, s: &PlayerState, p: Point, now: u64) -> waveshare28_panel::controller::Effects {
    handle_touch(u, TouchEv::Down(p), l, s, now);
    handle_touch(u, TouchEv::Up(p), l, s, now + 50)
}

#[test]
fn tapping_the_dock_opens_surfaces() {
    let l = Layout::for_rotation(0);
    let s = PlayerState::default();
    let mut u = ui();
    let e = tap(&mut u, &l, &s, Point::new(40, 250), 1000);
    assert_eq!(u.open, Some(Surface::Controls));
    assert_eq!(u.until_ms, Some(1050 + 10_000));
    assert!(e.redraw);
    assert!(e.command.is_none());
}

#[test]
fn the_cover_opens_artwork_only_when_there_is_one() {
    let l = Layout::for_rotation(0);
    let mut u = ui();
    tap(&mut u, &l, &PlayerState::default(), Point::new(100, 40), 0);
    assert_eq!(u.open, Some(Surface::Metadata));
    let with_art = PlayerState { album_art: Some("/a.jpg".into()), ..PlayerState::default() };
    let mut u = ui();
    tap(&mut u, &l, &with_art, Point::new(100, 40), 0);
    assert_eq!(u.open, Some(Surface::Artwork));
    let e = tap(&mut u, &l, &with_art, Point::new(120, 160), 100);
    assert_eq!(u.open, None);
    assert!(e.redraw);
}

#[test]
fn the_ip_ring_opens_status_and_rereads_the_host() {
    let l = Layout::for_rotation(0);
    let mut u = ui();
    let e = tap(&mut u, &l, &PlayerState::default(), Point::new(200, 10), 0);
    assert_eq!(u.open, Some(Surface::Status));
    assert!(e.refresh_host);
}

#[test]
fn tapping_the_strip_swaps_progress_and_stream() {
    let l = Layout::for_rotation(0);
    let mut u = ui();
    tap(&mut u, &l, &PlayerState::default(), Point::new(120, 300), 0);
    assert_eq!(u.strip, Strip::Stream);
    tap(&mut u, &l, &PlayerState::default(), Point::new(120, 300), 100);
    assert_eq!(u.strip, Strip::Progress);
}

#[test]
fn dragging_the_face_strip_seeks_on_release() {
    let l = Layout::for_rotation(0);
    let s = PlayerState { duration: Some(200), ..PlayerState::default() };
    let mut u = ui();
    handle_touch(&mut u, TouchEv::Down(Point::new(20, 300)), &l, &s, 0);
    let e = handle_touch(&mut u, TouchEv::Move(Point::new(120, 300)), &l, &s, 40);
    assert!(e.redraw);
    assert!(u.scrub.is_some());
    let e = handle_touch(&mut u, TouchEv::Up(Point::new(120, 300)), &l, &s, 80);
    // 108 of 216 px is half of 200 s.
    assert_eq!(e.command, Some(Command::Seek(100)));
    assert!(e.poll_now);
    assert!(u.scrub.is_none());
}

#[test]
fn a_small_wobble_is_still_a_tap() {
    let l = Layout::for_rotation(0);
    let mut u = ui();
    let s = PlayerState::default();
    handle_touch(&mut u, TouchEv::Down(Point::new(40, 250)), &l, &s, 0);
    handle_touch(&mut u, TouchEv::Move(Point::new(46, 244)), &l, &s, 40);
    handle_touch(&mut u, TouchEv::Up(Point::new(46, 244)), &l, &s, 80);
    assert_eq!(u.open, Some(Surface::Controls));
    let mut v = ui();
    handle_touch(&mut v, TouchEv::Down(Point::new(40, 250)), &l, &s, 0);
    handle_touch(&mut v, TouchEv::Move(Point::new(47, 250)), &l, &s, 40);
    handle_touch(&mut v, TouchEv::Up(Point::new(47, 250)), &l, &s, 80);
    assert_eq!(v.open, None);
}

#[test]
fn controls_send_transport_commands() {
    let l = Layout::for_rotation(0);
    let s = PlayerState::default();
    let mut u = Ui { open: Some(Surface::Controls), until_ms: Some(5000), ..ui() };
    let e = tap(&mut u, &l, &s, Point::new(120, 80), 1000);
    assert_eq!(e.command, Some(Command::Toggle));
    assert!(e.poll_now);
    assert_eq!(u.until_ms, Some(11_050));
    let e = tap(&mut u, &l, &s, Point::new(40, 300), 1100);
    assert_eq!(e.command, Some(Command::Random));
    let e = tap(&mut u, &l, &s, Point::new(10, 10), 1200);
    assert_eq!(e.command, None);
    assert_eq!(u.open, None);
}

#[test]
fn volume_keys_step_by_two_within_range() {
    let l = Layout::for_rotation(0);
    let v = volume_chrome(&l);
    let s = PlayerState { volume: Some(99), ..PlayerState::default() };
    let mut u = Ui { open: Some(Surface::Volume), ..ui() };
    let e = tap(&mut u, &l, &s, v.up.center(), 0);
    assert_eq!(e.command, Some(Command::Volume(100)));
    let low = PlayerState { volume: Some(1), ..PlayerState::default() };
    let e = tap(&mut u, &l, &low, v.down.center(), 100);
    assert_eq!(e.command, Some(Command::Volume(0)));
}

#[test]
fn holding_plus_repeats_and_the_release_adds_nothing() {
    let l = Layout::for_rotation(0);
    let v = volume_chrome(&l);
    let s = PlayerState { volume: Some(40), ..PlayerState::default() };
    let mut u = Ui { open: Some(Surface::Volume), ..ui() };
    handle_touch(&mut u, TouchEv::Down(v.up.center()), &l, &s, 0);
    let mut p: Press = u.press.unwrap();
    assert_eq!(p.surf, Some(SurfHit::VolUp));
    let mut last = u.last_step_ms;
    assert_eq!(tick_hold(&mut p, &s, 399, &mut last), None);
    assert_eq!(tick_hold(&mut p, &s, 400, &mut last), Some(Command::Volume(42)));
    assert_eq!(tick_hold(&mut p, &s, 500, &mut last), None);
    assert_eq!(tick_hold(&mut p, &s, 550, &mut last), Some(Command::Volume(42)));
    u.press = Some(p);
    let e = handle_touch(&mut u, TouchEv::Up(v.up.center()), &l, &s, 600);
    assert_eq!(e.command, None);
}

#[test]
fn holding_the_speaker_mutes_once() {
    let s = PlayerState { mute: Some(false), ..PlayerState::default() };
    let mut p = Press {
        at: Point::new(0, 0),
        from_ms: 0,
        face: None,
        surf: Some(SurfHit::Speaker),
        moved: false,
        acted: false,
    };
    let mut last = 0;
    assert_eq!(tick_hold(&mut p, &s, 599, &mut last), None);
    assert_eq!(tick_hold(&mut p, &s, 600, &mut last), Some(Command::Mute));
    assert_eq!(tick_hold(&mut p, &s, 2000, &mut last), None);
    let muted = PlayerState { mute: Some(true), ..PlayerState::default() };
    let mut q = Press { acted: false, ..p };
    assert_eq!(tick_hold(&mut q, &muted, 700, &mut last), Some(Command::Unmute));
}

#[test]
fn the_slider_sets_the_volume_while_dragging() {
    let l = Layout::for_rotation(0);
    let v = volume_chrome(&l);
    let s = PlayerState::default();
    let mut u = Ui { open: Some(Surface::Volume), ..ui() };
    handle_touch(&mut u, TouchEv::Down(v.slider.center()), &l, &s, 0);
    let e = handle_touch(&mut u, TouchEv::Move(Point::new(0, v.slider.center().y)), &l, &s, 40);
    assert_eq!(e.command, Some(Command::Volume(0)));
    assert!(e.poll_now && e.redraw);
}

#[test]
fn a_surface_times_out() {
    let mut u = Ui { open: Some(Surface::Volume), until_ms: Some(10_000), ..ui() };
    assert_eq!(hold_left(&u, 1), Some(10));
    assert!(!expire(&mut u, 9_999));
    assert!(expire(&mut u, 10_000));
    assert_eq!(u.open, None);
    assert_eq!(u.until_ms, None);
}

#[test]
fn unchanged_scenes_repaint_only_what_moved() {
    let a = PlayerState { title: Some("T".into()), seek: Some(1000), ..PlayerState::default() };
    let b = PlayerState { seek: Some(2000), ..a.clone() };
    assert_eq!(
        plan_paint(&Some(a.clone()), &b, None, None, Strip::Progress, None, None),
        Paint::Partial { progress: true, controls_seek: false, hold: None }
    );
    assert_eq!(
        plan_paint(&Some(a.clone()), &b, None, Some(Surface::Controls), Strip::Progress, Some(8), Some(9)),
        Paint::Partial { progress: false, controls_seek: true, hold: Some(8) }
    );
    let c = PlayerState { title: Some("U".into()), ..a.clone() };
    assert_eq!(plan_paint(&Some(a.clone()), &c, None, None, Strip::Progress, None, None), Paint::Full);
    assert_eq!(plan_paint(&None, &a, None, None, Strip::Progress, None, None), Paint::Full);
}

#[test]
fn boot_spins_until_ready_and_gives_up_after_two_minutes() {
    let mut b = Boot::new(0);
    assert!(b.status_due(0));
    assert!(!b.status_answered(false, 0));
    assert!(!b.status_due(999));
    assert!(b.status_due(1000));
    let (f, repaint) = b.footer(true, false, 100);
    assert_eq!(f.as_deref(), Some("starting |"));
    assert!(repaint);
    let (f, repaint) = b.footer(true, false, 200);
    assert_eq!(f.as_deref(), Some("starting |"));
    assert!(!repaint);
    let (f, repaint) = b.footer(true, false, 400);
    assert_eq!(f.as_deref(), Some("starting /"));
    assert!(repaint);
    let (f, _) = b.footer(false, false, 900);
    assert_eq!(f, None);
    assert!(b.status_answered(false, 120_000));
    assert!(b.is_ready());
    let mut r = Boot::new(0);
    assert!(r.status_answered(true, 5));
    assert!(!r.status_due(10_000));
}

#[test]
fn the_first_player_state_ends_the_status_screen_for_good() {
    let mut b = Boot::new(0);
    assert!(b.shows_status());
    assert!(!b.state_polled(false));
    assert!(b.shows_status());
    assert!(b.state_polled(true));
    assert!(!b.shows_status());
    assert!(!b.state_polled(true));
    assert!(!b.state_polled(false));
    let _ = b.footer(true, true, 10);
    b.status_answered(false, 20);
    assert!(!b.shows_status());
}
