use waveshare28_panel::config::{StatusText, Strip, Theme, BarGap};
use waveshare28_panel::face::{art_placement, plan_seek_strip, stream_line, Frac, SeekPaint};
use waveshare28_panel::geom::{rect, Point};
use waveshare28_panel::net::{Address, HostInfo, NetState};
use waveshare28_panel::panels::{metadata_plan, status_surface_plan, volume_plan};
use waveshare28_panel::state::PlayerState;
use waveshare28_panel::status::{plan_status, Tone};
use waveshare28_panel::ui::{Face, Layout};

#[test]
fn status_screen_centres_the_block() {
    let l = Layout::for_rotation(0);
    let host = HostInfo { hostname: "volumio.local".into(), state: NetState::Waiting };
    let p = plan_status(&l, &host, None);
    assert_eq!(p.cx, 120);
    let texts: Vec<&str> = p.rows.iter().map(|r| r.text.as_str()).collect();
    assert_eq!(texts, vec!["volumio.local", "waiting for network"]);
    // Two title lines of 15, one field gap of 8: 38 tall, centred in 320.
    assert_eq!(p.rows[0].y, 141);
    assert_eq!(p.rows[1].y, 141 + 15 + 8);
    assert_eq!(p.rows[1].tone, Tone::Dim);
    assert!(p.footer.is_none());
}

#[test]
fn status_screen_lists_addresses_and_pins_the_footer() {
    let l = Layout::for_rotation(0);
    let host = HostInfo {
        hostname: "box.local".into(),
        state: NetState::Connected(vec![
            Address { iface: "eth0".into(), addr: "10.0.0.7".into() },
            Address { iface: "wlan0".into(), addr: "192.168.1.9".into() },
        ]),
    };
    let p = plan_status(&l, &host, Some("starting |"));
    let texts: Vec<&str> = p.rows.iter().map(|r| r.text.as_str()).collect();
    // Wrapping splits on whitespace, so the two spaces close up.
    assert_eq!(texts, vec!["box.local", "eth0 10.0.0.7", "wlan0 192.168.1.9"]);
    assert_eq!(p.rows[1].face, Face::Meta);
    let f = p.footer.unwrap();
    assert_eq!(f.text, "starting |");
    assert_eq!(f.y, 320 - 16 - 15);
}

#[test]
fn large_status_text_uses_the_large_face() {
    let l = Layout::compose(270, BarGap::Default, StatusText::Large, Strip::Progress, Theme::Ink);
    let host = HostInfo {
        hostname: "h".into(),
        state: NetState::Hotspot { ssid: "Volumio".into(), addr: "192.168.211.1".into(), lan: vec![] },
    };
    let p = plan_status(&l, &host, None);
    let texts: Vec<&str> = p.rows.iter().map(|r| r.text.as_str()).collect();
    assert_eq!(texts, vec!["h", "Wi-Fi setup", "Volumio", "192.168.211.1"]);
    assert!(p.rows.iter().all(|r| r.face == Face::Large));
}

#[test]
fn status_screen_shows_addresses_then_the_access_point_block() {
    let l = Layout::for_rotation(0);
    let host = HostInfo {
        hostname: "box.local".into(),
        state: NetState::Hotspot {
            ssid: "Volumio".into(),
            addr: "192.168.211.1".into(),
            lan: vec![Address { iface: "eth0".into(), addr: "10.0.0.7".into() }],
        },
    };
    let p = plan_status(&l, &host, None);
    let texts: Vec<&str> = p.rows.iter().map(|r| r.text.as_str()).collect();
    assert_eq!(texts, vec!["box.local", "eth0 10.0.0.7", "Wi-Fi setup", "Volumio", "192.168.211.1"]);
    // Head 15, field gap 8, an address 10, line gap 2, field gap 8, then
    // "Wi-Fi setup" 15 and two lines of 10 with line gaps: 82 tall.
    let top = (320 - 82) / 2;
    assert_eq!(p.rows[0].y, top);
    assert_eq!(p.rows[1].y, top + 15 + 8);
    assert_eq!(p.rows[2].y, top + 15 + 8 + 10 + 2 + 8);
    assert_eq!(p.rows[3].y, top + 15 + 8 + 10 + 2 + 8 + 15 + 2);
    assert_eq!(p.rows[2].face, Face::Title);
}

#[test]
fn seek_strip_lays_out_clocks_trough_and_knob() {
    let slot = rect(0, 288, 240, 32);
    let s = PlayerState { seek: Some(61_000), duration: Some(244), ..PlayerState::default() };
    match plan_seek_strip(slot, &s, None, true) {
        SeekPaint::Strip(p) => {
            assert_eq!(p.left, "1:01");
            assert_eq!(p.right, "4:04");
            assert_eq!(p.cy, 6);
            let t = p.track.unwrap();
            assert_eq!((t.top_left.x, t.size.width), (42, 156));
            assert_eq!(p.filled, 39);
            assert_eq!(p.knob.unwrap().top_left.x, 42 + 39 - 2);
        }
        _ => panic!("strip expected"),
    }
    let none = PlayerState::default();
    assert!(matches!(plan_seek_strip(slot, &none, None, true), SeekPaint::Blank));
    assert!(matches!(plan_seek_strip(rect(0, 0, 240, 0), &s, None, true), SeekPaint::Nothing));
    match plan_seek_strip(slot, &s, Some(Frac { num: 1, den: 2 }), false) {
        SeekPaint::Strip(p) => {
            assert_eq!(p.left, "2:02");
            assert_eq!(p.cy, 16);
        }
        _ => panic!("strip expected"),
    }
}

#[test]
fn stream_line_is_clipped_to_the_strip() {
    let s = PlayerState { track_type: Some("flac".into()), bitdepth: Some("16 bit".into()), samplerate: Some("44.1 kHz".into()), ..PlayerState::default() };
    assert_eq!(stream_line(&s, 240).as_deref(), Some("flac  16 bit  44.1 kHz"));
    assert_eq!(stream_line(&s, 40).as_deref(), Some("flac"));
    assert_eq!(stream_line(&PlayerState::default(), 240), None);
}

#[test]
fn covers_are_centred_and_clipped() {
    let b = rect(27, 0, 186, 186);
    let p = art_placement(b, 100, 186);
    assert_eq!((p.top_left.x, p.top_left.y, p.size.width, p.size.height), (70, 0, 100, 186));
    let q = art_placement(b, 500, 500);
    assert_eq!(q, b);
}

#[test]
fn volume_readout_says_muted_or_the_number() {
    let l = Layout::for_rotation(0);
    let s = PlayerState { volume: Some(50), ..PlayerState::default() };
    let p = volume_plan(&l, &s);
    assert_eq!(p.label, "50");
    assert_eq!(p.face, Face::Title);
    assert!(!p.silent);
    assert_eq!(p.filled, p.trough.size.width / 2);
    let m = PlayerState { volume: Some(50), mute: Some(true), ..PlayerState::default() };
    let q = volume_plan(&l, &m);
    assert_eq!(q.label, "MUTED");
    assert_eq!(q.tone, Tone::Dim);
    assert!(q.silent);
    assert_eq!(q.filled, 0);
    let _ = Point::new(0, 0);
}

#[test]
fn metadata_wraps_caps_and_marks_the_cut() {
    let l = Layout::for_rotation(270);
    let s = PlayerState {
        title: Some("Short".into()),
        artist: Some("word ".repeat(60)),
        service: Some("mpd".into()),
        ..PlayerState::default()
    };
    let rows = metadata_plan(&l, &s);
    assert_eq!(rows[0].text, "Short");
    assert_eq!(rows[0].at, Point::new(12, 24 + 8));
    let artist: Vec<_> = rows.iter().filter(|r| r.tone == Tone::Meta && r.text.starts_with("word")).collect();
    assert_eq!(artist.len(), 4);
    assert!(artist[3].text.ends_with('\u{2026}'));
    assert_eq!(rows.last().unwrap().text, "mpd");
}

#[test]
fn status_surface_shows_the_first_address_and_theme() {
    let l = Layout::for_rotation(0);
    let host = HostInfo {
        hostname: "box.local".into(),
        state: NetState::Connected(vec![Address { iface: "eth0".into(), addr: "10.0.0.7".into() }]),
    };
    let rows = status_surface_plan(&l, &PlayerState::default(), &host);
    let texts: Vec<&str> = rows.iter().map(|r| r.text.as_str()).collect();
    assert_eq!(texts, vec!["eth0  10.0.0.7", "box.local", "waveshare28  ink"]);
    assert_eq!(rows[1].at.y, 28 + 8 + 15 + 6);
}
