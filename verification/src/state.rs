//! Volumio playback state and the commands the panel sends back.
//!
//! The state endpoint is polled rather than pushed. Its fields arrive loosely
//! typed: integers as ints, floats or numeric strings, display fields as
//! strings or bare numbers. The decoding rules for those fields live here;
//! turning the JSON body into field values is the JSON library's job.

use vstd::prelude::*;
use crate::text::{
    all_digits, all_digits_in, chars_of, contains_lower, dec, digit_char, eq_in, eq_lower, has_infix, is_alnum,
    join, lemma_join_push, lower_seq, opt_chars, opt_text, parse_u64_in, parse_unsigned, present,
    present_chars, push_dec, push_slice, push_str, same_opt_text, string_from, strip_end,
    strip_end_range, trim, trim_range, lower, is_ws, trim_start, trim_end,
};
use core::time::Duration;

verus! {

broadcast use vstd::string::group_string_axioms;

/// One JSON value as it arrived for a loosely typed field. An absent key
/// and `null` are both `Null`.
#[derive(Debug, Clone, PartialEq, Eq)]
pub enum Loose {
    Null,
    /// A JSON string.
    Str(String),
    /// A JSON number, in the text the JSON library prints for it.
    Num(String),
    /// A JSON boolean.
    Bool(bool),
    /// An array or object.
    Other,
}

/// An integer field read from text: trimmed, blank is absent, an unsigned
/// integer that fits is taken, and otherwise the text's value as a float
/// truncated toward zero (`float_trunc`, negative values clamped to zero),
/// when that fits. `max` is the largest value of the target type.
pub open spec fn int_text(raw: Seq<char>, float_trunc: Option<u64>, max: nat) -> Option<nat> {
    let t = trim(raw);
    if t.len() == 0 {
        None
    } else {
        match parse_unsigned(t) {
            Some(n) if n <= max => Some(n),
            _ => match float_trunc {
                Some(f) if f <= max => Some(f as nat),
                _ => None,
            },
        }
    }
}

/// Integer field decoding: numbers and strings go through [`int_text`],
/// anything else is absent.
pub open spec fn loose_int(v: Loose, float_trunc: Option<u64>, max: nat) -> Option<nat> {
    match v {
        Loose::Str(s) => int_text(s@, float_trunc, max),
        Loose::Num(s) => int_text(s@, float_trunc, max),
        _ => None,
    }
}

/// Display field decoding: a string is trimmed and blank is absent, a
/// number is kept as printed, anything else is absent.
pub open spec fn loose_text(v: Loose) -> Option<Seq<char>> {
    match v {
        Loose::Str(s) => if trim(s@).len() > 0 {
            Some(trim(s@))
        } else {
            None
        },
        Loose::Num(s) => Some(s@),
        _ => None,
    }
}

fn loose_int_in(v: &Loose, float_trunc: Option<u64>, max: u64) -> (r: Option<u64>)
    ensures
        match loose_int(*v, float_trunc, max as nat) {
            Some(n) => r == Some(n as u64),
            None => r is None,
        },
{
    let raw = match v {
        Loose::Str(s) => s,
        Loose::Num(s) => s,
        _ => {
            return None;
        },
    };
    let c = chars_of(raw.as_str());
    let (a, b) = trim_range(&c, 0, c.len());
    assert(c@.subrange(0, c@.len() as int) =~= c@);
    if a == b {
        return None;
    }
    let ghost t = c@.subrange(a as int, b as int);
    match parse_u64_in(&c, a, b) {
        Some(n) if n <= max => {
            return Some(n);
        },
        _ => {},
    }
    assert(match parse_unsigned(t) {
        Some(n) => n > max,
        None => true,
    });
    match float_trunc {
        Some(f) if f <= max => Some(f),
        _ => None,
    }
}

/// Decode a `u64` field.
pub fn loose_u64(v: &Loose, float_trunc: Option<u64>) -> (r: Option<u64>)
    ensures
        match loose_int(*v, float_trunc, u64::MAX as nat) {
            Some(n) => r == Some(n as u64),
            None => r is None,
        },
{
    loose_int_in(v, float_trunc, u64::MAX)
}

/// Decode a `u8` field. A value above 255 is absent, not wrapped.
pub fn loose_u8(v: &Loose, float_trunc: Option<u64>) -> (r: Option<u8>)
    ensures
        match loose_int(*v, float_trunc, 255) {
            Some(n) => r == Some(n as u8),
            None => r is None,
        },
{
    match loose_int_in(v, float_trunc, 255) {
        Some(n) => Some(n as u8),
        None => None,
    }
}

/// Decode a display field.
pub fn loose_string(v: &Loose) -> (r: Option<String>)
    ensures
        opt_text(r) == loose_text(*v),
{
    match v {
        Loose::Str(s) => {
            let c = chars_of(s.as_str());
            let (a, b) = trim_range(&c, 0, c.len());
            assert(c@.subrange(0, c@.len() as int) =~= c@);
            if a == b {
                None
            } else {
                let mut t: Vec<char> = Vec::new();
                push_slice(&mut t, &c, a, b);
                assert(t@ =~= c@.subrange(a as int, b as int));
                Some(string_from(&t))
            }
        },
        Loose::Num(s) => Some(s.clone()),
        _ => None,
    }
}

/// The subset of Volumio's state the panel renders. Field names match the
/// API; everything is optional because the endpoint omits fields.
#[derive(Debug, Clone, Default, PartialEq, Eq)]
pub struct PlayerState {
    /// play, pause, stop.
    pub status: Option<String>,
    /// Track title.
    pub title: Option<String>,
    /// Artist name.
    pub artist: Option<String>,
    /// Album name.
    pub album: Option<String>,
    /// Album art path, relative to the Volumio host or absolute.
    pub album_art: Option<String>,
    /// Elapsed position, milliseconds.
    pub seek: Option<u64>,
    /// Track length, seconds. Webradio often sends `"0"`.
    pub duration: Option<u64>,
    /// Sample rate as a display string. Radio Paradise writes its bitrate
    /// here; that string is shown as written.
    pub samplerate: Option<String>,
    /// Bit depth as a display string.
    pub bitdepth: Option<String>,
    /// Codec or container when the source wrote one; some sources write a
    /// channel or service name here instead.
    pub track_type: Option<String>,
    /// Alternate codec field.
    pub codec: Option<String>,
    /// Bitrate as a display string or a bare number.
    pub bitrate: Option<String>,
    /// Output volume, 0 to 100.
    pub volume: Option<u8>,
    /// Mute state.
    pub mute: Option<bool>,
    /// Shuffle.
    pub random: Option<bool>,
    /// Repeat all.
    pub repeat: Option<bool>,
    /// Repeat one. Read only: the REST API cannot set it.
    pub repeat_single: Option<bool>,
    /// Source plugin name, e.g. `mpd`, `webradio`.
    pub service: Option<String>,
}

/// Service names that appear in `trackType`. They are not a codec.
pub open spec fn is_service_name(s: Seq<char>) -> bool {
    let l = lower_seq(s);
    ||| l == "airplay"@
    ||| l == "webradio"@
    ||| l == "spotify"@
    ||| l == "tidal"@
    ||| l == "qobuz"@
    ||| l == "upnp"@
    ||| l == "bluetooth"@
    ||| l == "bt"@
}

pub open spec fn codec_char(c: char) -> bool {
    is_alnum(c) || c == '/' || c == '-'
}

/// A codec token is one short word such as `flac` or `mp3`: after trimming,
/// dropping trailing dashes and trimming again, 1 to 16 characters of ASCII
/// letters, digits, `/` or `-`, and not a service name. (Those characters
/// are one byte each, so the character count is the byte count.)
pub open spec fn codec_like(s: Seq<char>) -> bool {
    let t = trim(strip_end(trim(s), '-'));
    &&& t.len() > 0
    &&& t.len() <= 16
    &&& !is_service_name(t)
    &&& forall|i: int| 0 <= i < t.len() ==> codec_char(#[trigger] t[i])
}

/// `trackType` when it reads as a codec, else `codec` when that does.
pub open spec fn codec_of(track_type: Option<Seq<char>>, codec: Option<Seq<char>>) -> Option<
    Seq<char>,
> {
    if track_type is Some && codec_like(track_type->0) {
        track_type
    } else if codec is Some && codec_like(codec->0) {
        codec
    } else {
        None
    }
}

/// A bare number of kilobits gets its unit; anything else is shown as written.
pub open spec fn bitrate_text(b: Seq<char>) -> Seq<char> {
    if all_digits(b) {
        b + " kbps"@
    } else {
        b
    }
}

pub open spec fn one_or_none(o: Option<Seq<char>>) -> Seq<Seq<char>> {
    match o {
        Some(s) => seq![s],
        None => seq![],
    }
}

impl PlayerState {
    /// The pieces of the IN format line, in display order.
    pub open spec fn stream_parts(self) -> Seq<Seq<char>> {
        let codec = codec_of(present(self.track_type), present(self.codec));
        let depth = present(self.bitdepth);
        let rate = present(self.samplerate);
        let br = present(self.bitrate);
        one_or_none(codec) + if rate is Some {
            if has_infix(lower_seq(rate->0), "bps"@) {
                seq![rate->0]
            } else {
                one_or_none(depth) + seq![rate->0]
            }
        } else if depth is Some {
            seq![depth->0] + match br {
                Some(b) => seq![bitrate_text(b)],
                None => seq![],
            }
        } else {
            match br {
                Some(b) => seq![bitrate_text(b)],
                None => seq![],
            }
        }
    }

    /// The IN format line: the parts joined by two spaces, or nothing.
    pub open spec fn stream_text(self) -> Option<Seq<char>> {
        let p = self.stream_parts();
        if p.len() == 0 {
            None
        } else {
            Some(join(p, "  "@))
        }
    }

    /// True when the player is actively playing.
    pub fn is_playing(&self) -> (b: bool)
        ensures
            b == (opt_text(self.status) == Some("play"@)),
    {
        match &self.status {
            Some(s) => {
                let c = chars_of(s.as_str());
                let lit = chars_of("play");
                assert(c@.subrange(0, c@.len() as int) =~= c@);
                eq_in(&c, 0, c.len(), &lit)
            },
            None => false,
        }
    }

    /// True when output is muted; an absent flag is not muted.
    pub fn is_muted(&self) -> (b: bool)
        ensures
            b == (self.mute == Some(true)),
    {
        match self.mute {
            Some(m) => m,
            None => false,
        }
    }

    /// Elapsed part of the track as a ratio `(elapsed_ms, length_ms)`, when
    /// both fields are present and the length is not zero. `seek` is in
    /// milliseconds and `duration` in seconds; the length saturates and the
    /// elapsed time is capped at it.
    pub fn progress_ratio(&self) -> (r: Option<(u64, u64)>)
        ensures
            match (self.seek, self.duration) {
                (Some(s), Some(d)) if d > 0 => {
                    let len = if d * 1000 > u64::MAX {
                        u64::MAX as int
                    } else {
                        d * 1000
                    };
                    r == Some((if s < len {
                        s
                    } else {
                        len as u64
                    }, len as u64))
                },
                _ => r is None,
            },
    {
        let (seek_ms, dur_s) = match (self.seek, self.duration) {
            (Some(s), Some(d)) => (s, d),
            _ => {
                return None;
            },
        };
        if dur_s == 0 {
            return None;
        }
        let dur_ms = if dur_s > u64::MAX / 1000 {
            u64::MAX
        } else {
            dur_s * 1000
        };
        Some((if seek_ms < dur_ms {
            seek_ms
        } else {
            dur_ms
        }, dur_ms))
    }

    /// IN format line the source authored. Never invents PCM, webradio or an
    /// output format; service names in `trackType` are skipped.
    pub fn stream_info(&self) -> (r: Option<String>)
        ensures
            opt_text(r) == self.stream_text(),
    {
        let codec = format_codec(&self.track_type, &self.codec);
        let depth = present_chars(&self.bitdepth);
        let rate = present_chars(&self.samplerate);
        let br = present_chars(&self.bitrate);
        let sep = chars_of("  ");
        let mut out: Vec<char> = Vec::new();
        let ghost mut parts: Seq<Seq<char>> = seq![];
        let mut n: usize = 0;
        if let Some(c) = &codec {
            push_part(&mut out, Ghost(parts), n == 0, &sep, c);
            proof {
                parts = parts.push(c@);
            }
            n = n + 1;
        }
        assert(parts == one_or_none(codec_of(present(self.track_type), present(self.codec))));
        if let Some(r) = &rate {
            let bps = chars_of("bps");
            if contains_lower(r, 0, r.len(), &bps) {
                assert(r@.subrange(0, r@.len() as int) =~= r@);
                push_part(&mut out, Ghost(parts), n == 0, &sep, r);
                proof {
                    parts = parts.push(r@);
                }
                n = n + 1;
            } else {
                assert(r@.subrange(0, r@.len() as int) =~= r@);
                if let Some(d) = &depth {
                    push_part(&mut out, Ghost(parts), n == 0, &sep, d);
                    proof {
                        parts = parts.push(d@);
                    }
                    n = n + 1;
                }
                push_part(&mut out, Ghost(parts), n == 0, &sep, r);
                proof {
                    parts = parts.push(r@);
                }
                n = n + 1;
            }
        } else if let Some(d) = &depth {
            push_part(&mut out, Ghost(parts), n == 0, &sep, d);
            proof {
                parts = parts.push(d@);
            }
            n = n + 1;
            if let Some(b) = &br {
                let t = format_bitrate(b);
                push_part(&mut out, Ghost(parts), n == 0, &sep, &t);
                proof {
                    parts = parts.push(t@);
                }
                n = n + 1;
            }
        } else if let Some(b) = &br {
            let t = format_bitrate(b);
            push_part(&mut out, Ghost(parts), n == 0, &sep, &t);
            proof {
                parts = parts.push(t@);
            }
            n = n + 1;
        }
        assert(parts =~= self.stream_parts());
        if n == 0 {
            None
        } else {
            Some(string_from(&out))
        }
    }

    /// True when two states describe the same screen apart from the parts
    /// that are repainted on their own: `seek`, which advances every second,
    /// and `album_art`, which is requested from every poll.
    pub open spec fn scene_eq(self, other: Self) -> bool {
        &&& opt_text(self.status) == opt_text(other.status)
        &&& opt_text(self.title) == opt_text(other.title)
        &&& opt_text(self.artist) == opt_text(other.artist)
        &&& opt_text(self.album) == opt_text(other.album)
        &&& self.duration == other.duration
        &&& opt_text(self.samplerate) == opt_text(other.samplerate)
        &&& opt_text(self.bitdepth) == opt_text(other.bitdepth)
        &&& opt_text(self.track_type) == opt_text(other.track_type)
        &&& opt_text(self.codec) == opt_text(other.codec)
        &&& opt_text(self.bitrate) == opt_text(other.bitrate)
        &&& self.volume == other.volume
        &&& self.mute == other.mute
        &&& self.random == other.random
        &&& self.repeat == other.repeat
        &&& self.repeat_single == other.repeat_single
        &&& opt_text(self.service) == opt_text(other.service)
    }

    pub fn same_scene(&self, other: &Self) -> (b: bool)
        ensures
            b == self.scene_eq(*other),
    {
        same_opt_text(&self.status, &other.status) && same_opt_text(&self.title, &other.title)
            && same_opt_text(&self.artist, &other.artist) && same_opt_text(
            &self.album,
            &other.album,
        ) && same_opt_u64(self.duration, other.duration) && same_opt_text(
            &self.samplerate,
            &other.samplerate,
        ) && same_opt_text(&self.bitdepth, &other.bitdepth) && same_opt_text(
            &self.track_type,
            &other.track_type,
        ) && same_opt_text(&self.codec, &other.codec) && same_opt_text(
            &self.bitrate,
            &other.bitrate,
        ) && same_opt_u8(self.volume, other.volume) && same_opt_bool(self.mute, other.mute)
            && same_opt_bool(self.random, other.random) && same_opt_bool(
            self.repeat,
            other.repeat,
        ) && same_opt_bool(self.repeat_single, other.repeat_single) && same_opt_text(
            &self.service,
            &other.service,
        )
    }
}

/// A state is the same scene as itself, and the relation is symmetric.
pub proof fn same_scene_is_reflexive_and_symmetric(a: PlayerState, b: PlayerState)
    ensures
        a.scene_eq(a),
        a.scene_eq(b) == b.scene_eq(a),
{
}

/// Changing only the elapsed position or the album art never changes the
/// scene.
pub proof fn same_scene_ignores_seek_and_art(
    a: PlayerState,
    seek: Option<u64>,
    album_art: Option<String>,
)
    ensures
        a.scene_eq(PlayerState { seek, album_art, ..a }),
{
}

proof fn lemma_letters_are_kept(x: Seq<char>)
    requires
        x.len() > 0,
        'a' <= lower(x[0]) <= 'z',
        'a' <= lower(x.last()) <= 'z',
    ensures
        trim(x) == x,
        strip_end(x, '-') == x,
        trim(strip_end(trim(x), '-')) == x,
{
    assert(!is_ws(x[0]));
    assert(!is_ws(x.last()));
    assert(trim_start(x) == x);
    assert(trim_end(x) == x);
}

/// A `trackType` that names a service rather than a codec (AirPlay,
/// webradio, Spotify, Tidal, Qobuz, UPnP, Bluetooth or BT, in any case)
/// never shows in the IN line: the line is what it would be without it.
pub proof fn a_service_track_type_is_never_shown(s: PlayerState)
    requires
        s.track_type matches Some(t) && {
            let l = lower_seq(t@);
            l == "airplay"@ || l == "webradio"@ || l == "spotify"@ || l == "tidal"@ || l == "qobuz"@
                || l == "upnp"@ || l == "bluetooth"@ || l == "bt"@
        },
    ensures
        s.stream_text() == (PlayerState { track_type: None, ..s }).stream_text(),
{
    reveal_strlit("airplay");
    reveal_strlit("webradio");
    reveal_strlit("spotify");
    reveal_strlit("tidal");
    reveal_strlit("qobuz");
    reveal_strlit("upnp");
    reveal_strlit("bluetooth");
    reveal_strlit("bt");
    let x = s.track_type->0@;
    let l = lower_seq(x);
    assert(l.len() == x.len());
    assert(l[0] == lower(x[0]));
    assert(l[l.len() - 1] == lower(x.last()));
    lemma_letters_are_kept(x);
    assert(!codec_like(x));
    let n = PlayerState { track_type: None, ..s };
    assert(codec_of(present(s.track_type), present(s.codec)) == codec_of(present(n.track_type), present(n.codec)));
    assert(s.stream_parts() == n.stream_parts());
}

/// Two states are the same scene exactly when every field the screen shows
/// is equal: status, title, artist, album, duration, the format fields
/// (sample rate, bit depth, track type, codec, bitrate), volume, mute,
/// shuffle, repeat, repeat-one and service. A change to any of them, a
/// repeat lamp turned on included, is a new scene.
pub proof fn a_scene_is_every_displayed_field(a: PlayerState, b: PlayerState)
    ensures
        a.scene_eq(b) <==> {
            &&& opt_text(a.status) == opt_text(b.status)
            &&& opt_text(a.title) == opt_text(b.title)
            &&& opt_text(a.artist) == opt_text(b.artist)
            &&& opt_text(a.album) == opt_text(b.album)
            &&& a.duration == b.duration
            &&& opt_text(a.samplerate) == opt_text(b.samplerate)
            &&& opt_text(a.bitdepth) == opt_text(b.bitdepth)
            &&& opt_text(a.track_type) == opt_text(b.track_type)
            &&& opt_text(a.codec) == opt_text(b.codec)
            &&& opt_text(a.bitrate) == opt_text(b.bitrate)
            &&& a.volume == b.volume
            &&& a.mute == b.mute
            &&& a.random == b.random
            &&& a.repeat == b.repeat
            &&& a.repeat_single == b.repeat_single
            &&& opt_text(a.service) == opt_text(b.service)
        },
{
}

fn same_opt_u64(a: Option<u64>, b: Option<u64>) -> (r: bool)
    ensures
        r == (a == b),
{
    match (a, b) {
        (Some(x), Some(y)) => x == y,
        (None, None) => true,
        _ => false,
    }
}

fn same_opt_u8(a: Option<u8>, b: Option<u8>) -> (r: bool)
    ensures
        r == (a == b),
{
    match (a, b) {
        (Some(x), Some(y)) => x == y,
        (None, None) => true,
        _ => false,
    }
}

fn same_opt_bool(a: Option<bool>, b: Option<bool>) -> (r: bool)
    ensures
        r == (a == b),
{
    match (a, b) {
        (Some(x), Some(y)) => x == y,
        (None, None) => true,
        _ => false,
    }
}

/// Append `part`, after the separator unless it is the first part.
fn push_part(
    out: &mut Vec<char>,
    Ghost(parts): Ghost<Seq<Seq<char>>>,
    first: bool,
    sep: &Vec<char>,
    part: &Vec<char>,
)
    requires
        old(out)@ == join(parts, sep@),
        first == (parts.len() == 0),
    ensures
        final(out)@ == join(parts.push(part@), sep@),
{
    if first {
        assert(parts.push(part@) =~= seq![part@]);
    } else {
        proof {
            lemma_join_push(parts, sep@, part@);
        }
        push_slice(out, sep, 0, sep.len());
        assert(sep@.subrange(0, sep@.len() as int) =~= sep@);
    }
    push_slice(out, part, 0, part.len());
    assert(part@.subrange(0, part@.len() as int) =~= part@);
}

/// Service check on `v[lo..hi]`.
fn is_service_type(v: &[char], lo: usize, hi: usize) -> (b: bool)
    requires
        lo <= hi <= v@.len(),
    ensures
        b == is_service_name(v@.subrange(lo as int, hi as int)),
{
    eq_lower(v, lo, hi, &chars_of("airplay")) || eq_lower(v, lo, hi, &chars_of("webradio"))
        || eq_lower(v, lo, hi, &chars_of("spotify")) || eq_lower(v, lo, hi, &chars_of("tidal"))
        || eq_lower(v, lo, hi, &chars_of("qobuz")) || eq_lower(v, lo, hi, &chars_of("upnp"))
        || eq_lower(v, lo, hi, &chars_of("bluetooth")) || eq_lower(v, lo, hi, &chars_of("bt"))
}

fn looks_like_codec(s: &Vec<char>) -> (b: bool)
    ensures
        b == codec_like(s@),
{
    let (a0, b0) = trim_range(s, 0, s.len());
    assert(s@.subrange(0, s@.len() as int) =~= s@);
    let e = strip_end_range(s, a0, b0, '-');
    let (a, b) = trim_range(s, a0, e);
    let ghost t = s@.subrange(a as int, b as int);
    if a == b || b - a > 16 {
        return false;
    }
    if is_service_type(s, a, b) {
        return false;
    }
    let mut i = a;
    while i < b
        invariant
            a <= i <= b <= s@.len(),
            t == s@.subrange(a as int, b as int),
            t == trim(strip_end(trim(s@), '-')),
            forall|j: int| a <= j < i ==> codec_char(#[trigger] s@[j]),
        decreases b - i,
    {
        let c = s[i];
        let ok = ('0' <= c && c <= '9') || ('A' <= c && c <= 'Z') || ('a' <= c && c <= 'z') || c
            == '/' || c == '-';
        if !ok {
            assert(!codec_char(t[i - a]));
            return false;
        }
        i = i + 1;
    }
    assert forall|j: int| 0 <= j < t.len() implies codec_char(#[trigger] t[j]) by {
        assert(t[j] == s@[a + j]);
    }
    true
}

fn format_codec(track_type: &Option<String>, codec: &Option<String>) -> (r: Option<Vec<char>>)
    ensures
        opt_chars(r) == codec_of(present(*track_type), present(*codec)),
{
    let tt = present_chars(track_type);
    if let Some(t) = tt {
        if looks_like_codec(&t) {
            return Some(t);
        }
    }
    let c = present_chars(codec);
    if let Some(x) = c {
        if looks_like_codec(&x) {
            return Some(x);
        }
    }
    None
}

fn format_bitrate(b: &Vec<char>) -> (r: Vec<char>)
    ensures
        r@ == bitrate_text(b@),
{
    let mut out: Vec<char> = Vec::new();
    push_slice(&mut out, b, 0, b.len());
    assert(b@.subrange(0, b@.len() as int) =~= b@);
    if all_digits_in(b, 0, b.len()) {
        push_str(&mut out, " kbps");
    }
    out
}

/// Body of `GET /status`: `starting` until plugins finish, then `ready`.
#[derive(Debug, Clone, Copy, PartialEq, Eq, Structural)]
pub enum SystemStatus {
    /// Express is up, plugins are still loading.
    Starting,
    /// Boot completed. Safe to ask for the player state.
    Ready,
    /// Backend reported `error`.
    Error,
}

pub open spec fn status_of(body: Seq<char>) -> Option<SystemStatus> {
    let t = trim(body);
    if t == "ready"@ {
        Some(SystemStatus::Ready)
    } else if t == "starting"@ {
        Some(SystemStatus::Starting)
    } else if t == "error"@ {
        Some(SystemStatus::Error)
    } else {
        None
    }
}

impl SystemStatus {
    /// Parse the plain-text `/status` body. Unknown values are `None`.
    pub fn parse(body: &str) -> (r: Option<SystemStatus>)
        ensures
            r == status_of(body@),
    {
        let c = chars_of(body);
        let (a, b) = trim_range(&c, 0, c.len());
        assert(c@.subrange(0, c@.len() as int) =~= c@);
        if eq_in(&c, a, b, &chars_of("ready")) {
            Some(SystemStatus::Ready)
        } else if eq_in(&c, a, b, &chars_of("starting")) {
            Some(SystemStatus::Starting)
        } else if eq_in(&c, a, b, &chars_of("error")) {
            Some(SystemStatus::Error)
        } else {
            None
        }
    }
}

/// Playback commands the panel can issue.
#[derive(Debug, Clone, Copy, PartialEq, Eq, Structural)]
pub enum Command {
    /// Previous track.
    Prev,
    /// Toggle between play and pause.
    Toggle,
    /// Next track.
    Next,
    /// Set volume to a percentage; above 100 is sent as 100.
    Volume(u8),
    /// Seek to a position in seconds.
    Seek(u32),
    /// Mute output. Volumio restores the previous level on unmute.
    Mute,
    /// Unmute output.
    Unmute,
    /// Toggle shuffle.
    Random,
    /// Toggle repeat-all. The REST API cannot set repeat-one.
    Repeat,
}

pub open spec fn query_text(cmd: Command) -> Seq<char> {
    match cmd {
        Command::Prev => "cmd=prev"@,
        Command::Toggle => "cmd=toggle"@,
        Command::Next => "cmd=next"@,
        Command::Volume(v) => "cmd=volume&volume="@ + dec(if v <= 100 {
            v as nat
        } else {
            100
        }),
        Command::Seek(s) => "cmd=seek&position="@ + dec(s as nat),
        Command::Mute => "cmd=volume&volume=mute"@,
        Command::Unmute => "cmd=volume&volume=unmute"@,
        Command::Random => "cmd=random"@,
        Command::Repeat => "cmd=repeat"@,
    }
}

/// Each command's query names its command in Volumio's REST API: `prev`,
/// `toggle`, `next`, `random`, `repeat`; volume as a percentage capped at
/// 100 or the words `mute` and `unmute`; seek as a position in seconds.
pub proof fn each_command_names_its_rest_command(v: u8, secs: u32)
    ensures
        query_text(Command::Prev) == "cmd=prev"@,
        query_text(Command::Toggle) == "cmd=toggle"@,
        query_text(Command::Next) == "cmd=next"@,
        query_text(Command::Random) == "cmd=random"@,
        query_text(Command::Repeat) == "cmd=repeat"@,
        query_text(Command::Mute) == "cmd=volume&volume=mute"@,
        query_text(Command::Unmute) == "cmd=volume&volume=unmute"@,
        query_text(Command::Volume(v)) == "cmd=volume&volume="@ + dec(if v <= 100 {
            v as nat
        } else {
            100
        }),
        query_text(Command::Seek(secs)) == "cmd=seek&position="@ + dec(secs as nat),
{
}

proof fn lemma_dec_digits(n: nat)
    ensures
        dec(n).len() >= 1,
        forall|i: int| 0 <= i < dec(n).len() ==> '0' <= #[trigger] dec(n)[i] <= '9',
    decreases n,
{
    if n >= 10 {
        lemma_dec_digits(n / 10);
        assert forall|i: int| 0 <= i < dec(n).len() implies '0' <= #[trigger] dec(n)[i] <= '9' by {
            if i < dec(n / 10).len() {
                assert(dec(n)[i] == dec(n / 10)[i]);
            }
        }
    }
}

proof fn lemma_dec_injective(a: nat, b: nat)
    requires
        dec(a) == dec(b),
    ensures
        a == b,
    decreases a,
{
    if a < 10 && b < 10 {
        assert(dec(a) == seq![digit_char(a)]);
        assert(dec(b) == seq![digit_char(b)]);
        assert(seq![digit_char(a)][0] == digit_char(a));
        assert(seq![digit_char(b)][0] == digit_char(b));
        assert(digit_char(a) as u32 == 48 + a);
        assert(digit_char(b) as u32 == 48 + b);
        assert(digit_char(a) == digit_char(b));
        assert(a == b);
    } else if a < 10 {
        lemma_dec_digits(b / 10);
        assert(dec(a) == seq![digit_char(a)]);
        assert(dec(b).len() >= 2);
    } else if b < 10 {
        lemma_dec_digits(a / 10);
        assert(dec(b) == seq![digit_char(b)]);
        assert(dec(a).len() >= 2);
    } else {
        assert(dec(a).drop_last() =~= dec(a / 10));
        assert(dec(b).drop_last() =~= dec(b / 10));
        assert(dec(a).last() == digit_char(a % 10));
        assert(dec(b).last() == digit_char(b % 10));
        assert(dec(a).last() == dec(b).last());
        assert(digit_char(a % 10) as u32 == 48 + a % 10);
        assert(digit_char(b % 10) as u32 == 48 + b % 10);
        lemma_dec_injective(a / 10, b / 10);
        assert(a % 10 == b % 10);
    }
}

/// Distinct commands give distinct queries, taking a volume as the
/// percentage that is sent (at most 100), so no command is ever sent as
/// another.
pub proof fn distinct_commands_give_distinct_queries(a: Command, b: Command)
    requires
        a matches Command::Volume(v) ==> v <= 100,
        b matches Command::Volume(v) ==> v <= 100,
        query_text(a) == query_text(b),
    ensures
        a == b,
{
    reveal_strlit("cmd=prev");
    reveal_strlit("cmd=toggle");
    reveal_strlit("cmd=next");
    reveal_strlit("cmd=random");
    reveal_strlit("cmd=repeat");
    reveal_strlit("cmd=volume&volume=mute");
    reveal_strlit("cmd=volume&volume=unmute");
    reveal_strlit("cmd=volume&volume=");
    reveal_strlit("cmd=seek&position=");
    let qa = query_text(a);
    let qb = query_text(b);
    match a {
        Command::Volume(v) => lemma_dec_digits(v as nat),
        Command::Seek(s) => lemma_dec_digits(s as nat),
        _ => {},
    }
    match b {
        Command::Volume(v) => lemma_dec_digits(v as nat),
        Command::Seek(s) => lemma_dec_digits(s as nat),
        _ => {},
    }
    assert(qa.len() == qb.len());
    assert(qa[4] == qb[4]);
    assert(qa[5] == qb[5]);
    assert(qa[18] == qb[18]);
    match (a, b) {
        (Command::Volume(x), Command::Volume(y)) => {
            assert(qa.skip(18) =~= dec(x as nat));
            assert(qb.skip(18) =~= dec(y as nat));
            lemma_dec_injective(x as nat, y as nat);
        },
        (Command::Seek(x), Command::Seek(y)) => {
            assert(qa.skip(18) =~= dec(x as nat));
            assert(qb.skip(18) =~= dec(y as nat));
            lemma_dec_injective(x as nat, y as nat);
        },
        _ => {},
    }
}

impl Command {
    /// The query string Volumio expects after the base URL.
    pub fn query(self) -> (s: String)
        ensures
            s@ == query_text(self),
    {
        let mut out: Vec<char> = Vec::new();
        match self {
            Command::Prev => push_str(&mut out, "cmd=prev"),
            Command::Toggle => push_str(&mut out, "cmd=toggle"),
            Command::Next => push_str(&mut out, "cmd=next"),
            Command::Volume(v) => {
                push_str(&mut out, "cmd=volume&volume=");
                push_dec(&mut out, if v <= 100 {
                    v as u64
                } else {
                    100
                });
            },
            Command::Seek(secs) => {
                push_str(&mut out, "cmd=seek&position=");
                push_dec(&mut out, secs as u64);
            },
            Command::Mute => push_str(&mut out, "cmd=volume&volume=mute"),
            Command::Unmute => push_str(&mut out, "cmd=volume&volume=unmute"),
            Command::Random => push_str(&mut out, "cmd=random"),
            Command::Repeat => push_str(&mut out, "cmd=repeat"),
        }
        assert(out@ =~= query_text(self));
        string_from(&out)
    }
}

/// Polling client for the Volumio state endpoint: where to ask and how long
/// to wait. The request itself is made by the caller.
pub struct StateSource {
    url: String,
    timeout: Duration,
}

impl StateSource {
    /// Build a client. The timeout should be shorter than the poll interval
    /// so a stalled request cannot queue up behind the next one.
    pub fn new(url: &str, timeout: Duration) -> (s: StateSource)
        ensures
            s.url_text() == url@,
            s.timeout_value() == timeout,
    {
        StateSource { url: url.to_string(), timeout }
    }

    pub closed spec fn url_text(&self) -> Seq<char> {
        self.url@
    }

    pub closed spec fn timeout_value(&self) -> Duration {
        self.timeout
    }

    /// The state endpoint.
    pub fn url(&self) -> (s: &str)
        ensures
            s@ == self.url_text(),
    {
        self.url.as_str()
    }

    /// The per-request timeout.
    pub fn timeout(&self) -> (t: Duration)
        ensures
            t == self.timeout_value(),
    {
        self.timeout
    }
}

/// Command client for the Volumio control endpoint: the base URL and the
/// timeout. The request itself is made by the caller.
pub struct CommandSink {
    base: String,
    timeout: Duration,
}

impl CommandSink {
    /// Build a client against the command base URL.
    pub fn new(base: &str, timeout: Duration) -> (s: CommandSink)
        ensures
            s.base_text() == base@,
            s.timeout_value() == timeout,
    {
        CommandSink { base: base.to_string(), timeout }
    }

    pub closed spec fn base_text(&self) -> Seq<char> {
        self.base@
    }

    pub closed spec fn timeout_value(&self) -> Duration {
        self.timeout
    }

    /// The URL a command is sent to: the base, `?`, then the query.
    pub fn url(&self, cmd: Command) -> (s: String)
        ensures
            s@ == self.base_text() + "?"@ + query_text(cmd),
    {
        let mut out = chars_of(self.base.as_str());
        push_str(&mut out, "?");
        let q = cmd.query();
        push_str(&mut out, q.as_str());
        string_from(&out)
    }

    /// The per-request timeout.
    pub fn timeout(&self) -> (t: Duration)
        ensures
            t == self.timeout_value(),
    {
        self.timeout
    }
}

} // verus!
