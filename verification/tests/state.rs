use serde_json::Value;
use waveshare28_panel::body::{BodyError, Field};
use waveshare28_panel::state::{
    loose_string, loose_u64, loose_u8, Command, CommandSink, Loose, PlayerState, SystemStatus,
};

/// What the JSON library hands over for one value, read the way the panel
/// reads a body: numbers by their printed text, and a float reading for
/// numbers and strings.
fn field(key: &str, v: &Value) -> Field {
    let (value, text) = match v {
        Value::Null => (Loose::Null, None),
        Value::Bool(b) => (Loose::Bool(*b), None),
        Value::Number(n) => (Loose::Num(n.to_string()), Some(n.to_string())),
        Value::String(s) => (Loose::Str(s.clone()), Some(s.clone())),
        _ => (Loose::Other, None),
    };
    let float_trunc = text.and_then(|t| t.trim().parse::<f64>().ok()).and_then(|f| {
        if f.is_finite() {
            Some(f.max(0.0).trunc() as u64)
        } else {
            None
        }
    });
    Field { key: key.to_string(), value, float_trunc }
}

fn parse_body(json: &str) -> Result<PlayerState, BodyError> {
    let v: Value = serde_json::from_str(json).expect(json);
    let fields: Vec<Field> = v.as_object().expect("object").iter().map(|(k, v)| field(k, v)).collect();
    PlayerState::from_fields(&fields)
}

fn parse(json: &str) -> PlayerState {
    parse_body(json).expect(json)
}

fn progress(s: &PlayerState) -> Option<f64> {
    s.progress_ratio().map(|(n, d)| n as f64 / d as f64)
}

#[test]
fn parses_the_three_known_bodies() {
    assert_eq!(SystemStatus::parse("ready\n"), Some(SystemStatus::Ready));
    assert_eq!(SystemStatus::parse("starting"), Some(SystemStatus::Starting));
    assert_eq!(SystemStatus::parse("error"), Some(SystemStatus::Error));
    assert_eq!(SystemStatus::parse("nope"), None);
}

#[test]
fn volume_accepts_a_number_or_a_string() {
    assert_eq!(parse(r#"{"volume":40}"#).volume, Some(40));
    assert_eq!(parse(r#"{"volume":"40"}"#).volume, Some(40));
    assert_eq!(parse(r#"{"volume":" 40 "}"#).volume, Some(40));
    assert_eq!(parse(r#"{"volume":null}"#).volume, None);
    assert_eq!(parse(r#"{}"#).volume, None);
    assert_eq!(parse(r#"{"volume":""}"#).volume, None);
    assert_eq!(parse(r#"{"volume":"loud"}"#).volume, None);
}

#[test]
fn seek_and_duration_accept_a_number_or_a_string() {
    let state = parse(r#"{"seek":1234,"duration":"180"}"#);
    assert_eq!(state.seek, Some(1234));
    assert_eq!(state.duration, Some(180));
    assert_eq!(parse(r#"{"duration":"0"}"#).duration, Some(0));
}

#[test]
fn seek_and_duration_accept_a_float() {
    let state = parse(r#"{"seek":35080.99300000002,"duration":323.038}"#);
    assert_eq!(state.seek, Some(35080));
    assert_eq!(state.duration, Some(323));
    let p = progress(&state).expect("progress");
    assert!((p - 35080.0 / 323000.0).abs() < 0.0001);
}

#[test]
fn rp2_playing_body_from_pi5dev() {
    let state = parse(
        r#"{
            "status":"play",
            "title":"Visions of You",
            "artist":"Jah Wobble",
            "album":"Rising Above Bedlam",
            "trackType":"The Main Mix",
            "codec":"flac",
            "seek":35080.99300000002,
            "duration":323.038,
            "volatile":true,
            "service":"rp2"
        }"#,
    );
    assert_eq!(state.status.as_deref(), Some("play"));
    assert_eq!(state.duration, Some(323));
    assert_eq!(state.seek, Some(35080));
    assert!(state.progress_ratio().is_some());
    assert_eq!(state.stream_info().as_deref(), Some("flac"));

    let later = parse(
        r#"{
            "trackType":"The Main Mix - ",
            "codec":"flac",
            "samplerate":"44.1 kHz",
            "bitdepth":"16-bit",
            "duration":323.038
        }"#,
    );
    assert_eq!(later.stream_info().as_deref(), Some("flac  16-bit  44.1 kHz"));
}

#[test]
fn string_volume_does_not_fail_the_poll() {
    let state = parse(r#"{"status":"play","title":"Track","artist":"A","volume":"40","mute":false}"#);
    assert_eq!(state.status.as_deref(), Some("play"));
    assert_eq!(state.volume, Some(40));
    assert!(!state.is_muted());
}

#[test]
fn same_scene_ignores_albumart_and_seek() {
    let a = parse(
        r#"{"status":"play","title":"Classic FM","albumart":"https://cdn/Classic FM.jpg","seek":1,"duration":0}"#,
    );
    let b = parse(
        r#"{"status":"play","title":"Classic FM","albumart":"https://cdn/Classic%20FM.jpg","seek":2000,"duration":0}"#,
    );
    assert!(a.same_scene(&b));
    let c = parse(r#"{"status":"pause","title":"Classic FM","seek":2000,"duration":0}"#);
    assert!(!a.same_scene(&c));
}

#[test]
fn format_fields_accept_a_number_or_a_string() {
    let state = parse(r#"{"bitrate":320,"samplerate":"44.1 kHz","trackType":"flac"}"#);
    assert_eq!(state.bitrate.as_deref(), Some("320"));
    assert_eq!(state.samplerate.as_deref(), Some("44.1 kHz"));
    assert_eq!(state.track_type.as_deref(), Some("flac"));
    assert_eq!(parse(r#"{"bitrate":""}"#).bitrate, None);
}

#[test]
fn stream_info_follows_what_the_source_wrote() {
    let local = parse(r#"{"trackType":"flac","bitdepth":"16 bit","samplerate":"44.1 kHz"}"#);
    assert_eq!(local.stream_info().as_deref(), Some("flac  16 bit  44.1 kHz"));
    let rp2 = parse(r#"{"codec":"flac","samplerate":"320 kbps"}"#);
    assert_eq!(rp2.stream_info().as_deref(), Some("flac  320 kbps"));
    let channel = parse(r#"{"trackType":"The Main Mix","codec":"flac"}"#);
    assert_eq!(channel.stream_info().as_deref(), Some("flac"));
    let numbered = parse(r#"{"trackType":"mp3","bitrate":128}"#);
    assert_eq!(numbered.stream_info().as_deref(), Some("mp3  128 kbps"));
    let radio = parse(r#"{"trackType":"webradio","duration":"0"}"#);
    assert_eq!(radio.stream_info(), None);
    let empty = parse(r#"{}"#);
    assert_eq!(empty.stream_info(), None);
}

#[test]
fn command_query_matches_the_rest_contract() {
    assert_eq!(Command::Seek(42).query(), "cmd=seek&position=42");
    assert_eq!(Command::Mute.query(), "cmd=volume&volume=mute");
    assert_eq!(Command::Unmute.query(), "cmd=volume&volume=unmute");
    assert_eq!(Command::Random.query(), "cmd=random");
    assert_eq!(Command::Repeat.query(), "cmd=repeat");
}

#[test]
fn same_scene_includes_volume_mute_and_modes() {
    let a = parse(r#"{"status":"play","title":"T","volume":40,"mute":false,"random":false}"#);
    let b = parse(r#"{"status":"play","title":"T","volume":40,"mute":false,"random":false,"seek":2000}"#);
    assert!(a.same_scene(&b));
    let c = parse(r#"{"status":"play","title":"T","volume":42,"mute":false,"random":false}"#);
    assert!(!a.same_scene(&c));
    let d = parse(r#"{"status":"play","title":"T","volume":40,"mute":true,"random":false}"#);
    assert!(!a.same_scene(&d));
    let e = parse(r#"{"status":"play","title":"T","volume":40,"mute":false,"random":true}"#);
    assert!(!a.same_scene(&e));
}

#[test]
fn same_scene_includes_format_fields() {
    let a = parse(r#"{"status":"play","title":"T","codec":"flac","seek":1}"#);
    let b = parse(r#"{"status":"play","title":"T","codec":"flac","seek":2000}"#);
    assert!(a.same_scene(&b));
    let c = parse(r#"{"status":"play","title":"T","codec":"mp3","seek":2000}"#);
    assert!(!a.same_scene(&c));
}

#[test]
fn a_title_that_is_not_a_string_refuses_the_body() {
    assert_eq!(parse_body(r#"{"title":5}"#), Err(BodyError::Type));
    assert_eq!(parse_body(r#"{"mute":"yes"}"#), Err(BodyError::Type));
    assert!(parse_body(r#"{"mute":null,"title":null}"#).is_ok());
}

#[test]
fn a_repeated_key_refuses_the_body() {
    let f = vec![
        Field { key: "title".into(), value: Loose::Str("a".into()), float_trunc: None },
        Field { key: "title".into(), value: Loose::Str("b".into()), float_trunc: None },
    ];
    assert_eq!(PlayerState::from_fields(&f), Err(BodyError::Duplicate));
    let g = vec![
        Field { key: "other".into(), value: Loose::Null, float_trunc: None },
        Field { key: "other".into(), value: Loose::Null, float_trunc: None },
    ];
    assert!(PlayerState::from_fields(&g).is_ok());
}

#[test]
fn loose_values_decode_as_documented() {
    assert_eq!(loose_u64(&Loose::Str(" 12 ".into()), Some(12)), Some(12));
    assert_eq!(loose_u64(&Loose::Str("+7".into()), Some(7)), Some(7));
    assert_eq!(loose_u8(&Loose::Num("300".into()), Some(300)), None);
    assert_eq!(loose_u8(&Loose::Other, None), None);
    assert_eq!(loose_string(&Loose::Str("  x ".into())), Some("x".to_string()));
    assert_eq!(loose_string(&Loose::Str("   ".into())), None);
    assert_eq!(loose_string(&Loose::Bool(true)), None);
}

#[test]
fn progress_is_capped_at_the_duration() {
    let s = PlayerState { seek: Some(500_000), duration: Some(100), ..PlayerState::default() };
    assert_eq!(s.progress_ratio(), Some((100_000, 100_000)));
    let z = PlayerState { seek: Some(5), duration: Some(0), ..PlayerState::default() };
    assert_eq!(z.progress_ratio(), None);
}

#[test]
fn volume_above_a_hundred_is_sent_as_a_hundred() {
    assert_eq!(Command::Volume(150).query(), "cmd=volume&volume=100");
    assert_eq!(Command::Volume(7).query(), "cmd=volume&volume=7");
    assert_eq!(Command::Toggle.query(), "cmd=toggle");
}

#[test]
fn command_urls_join_base_and_query() {
    let sink = CommandSink::new("http://localhost:3000/api/v1/commands", std::time::Duration::from_secs(2));
    assert_eq!(sink.url(Command::Next), "http://localhost:3000/api/v1/commands?cmd=next");
}
