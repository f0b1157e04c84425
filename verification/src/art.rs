//! Album art: which covers to ask for and when, where a relative cover path
//! points, and turning decoded pixels into the panel's colour format.
//!
//! Only one request is in flight at a time, keyed by the `albumart` string
//! of the player state. A cover that arrived is not fetched again; a failed
//! one is retried on a backoff, because a webradio thumbnail that misses
//! before the station's cache fills usually appears a little later.
//!
//! Raster formats are recognised by their magic bytes and decoded by the
//! `image` crate. SVG has no magic worth trusting, so it is recognised by
//! its markup and only after that.

use vstd::prelude::*;
use crate::text::{chars_of, push_slice, push_str, string_from, strip_end, strip_end_range, trim_start, has_infix, same_opt_text, opt_text};
use crate::ui::rgb565_spec;

verus! {

broadcast use vstd::string::group_string_axioms;

/// A decoded cover, scaled to fit, as row-major RGB565 words.
pub struct Art {
    pub w: u32,
    pub h: u32,
    pub px: Vec<u16>,
}

/// Delay before the next try of a cover that failed `failures` times, in
/// milliseconds: 2 s after the first miss, 8 s after the second, then 30 s
/// for as long as the station plays.
pub open spec fn retry_ms(failures: u32) -> u64 {
    if failures <= 1 {
        2000
    } else if failures == 2 {
        8000
    } else {
        30000
    }
}

pub fn retry_delay(failures: u32) -> (ms: u64)
    ensures
        ms == retry_ms(failures),
{
    match failures {
        0 | 1 => 2000,
        2 => 8000,
        _ => 30000,
    }
}

/// Model of a [`FetchGate`]: its pending path, in-flight and failed flags,
/// failure count and next retry time.
pub struct GateView {
    pub pending: Option<Seq<char>>,
    pub in_flight: bool,
    pub failed: bool,
    pub failures: u32,
    pub next_retry: Option<u64>,
}

pub open spec fn sat_add(a: u64, b: u64) -> u64 {
    if a + b > u64::MAX {
        u64::MAX
    } else {
        (a + b) as u64
    }
}

/// Asking for `path` at `now`. A new path is sent at once and clears the
/// failure count. The same path is sent again only when it failed, nothing
/// is in flight and its backoff has run out.
pub open spec fn gate_send(g: GateView, path: Seq<char>, now: u64) -> (GateView, bool) {
    if g.pending == Some(path) {
        let retry = g.failed && !g.in_flight && (g.next_retry matches Some(t) && now >= t);
        (GateView { in_flight: g.in_flight || retry, ..g }, retry)
    } else {
        (GateView { pending: Some(path), in_flight: true, failed: false, failures: 0, next_retry: None }, true)
    }
}

/// A fetch came back at `now`, with a cover or without one.
pub open spec fn gate_done(g: GateView, ok: bool, now: u64) -> GateView {
    if ok {
        GateView { in_flight: false, failed: false, failures: 0, next_retry: None, ..g }
    } else {
        let n: u32 = if g.failures == u32::MAX {
            u32::MAX
        } else {
            (g.failures + 1) as u32
        };
        GateView { in_flight: false, failed: true, failures: n, next_retry: Some(sat_add(now, retry_ms(n))), ..g }
    }
}

/// Dedupes and retries fetches of the current cover.
pub struct FetchGate {
    pending: Option<String>,
    in_flight: bool,
    failed: bool,
    failures: u32,
    next_retry: Option<u64>,
}

impl View for FetchGate {
    type V = GateView;

    closed spec fn view(&self) -> GateView {
        GateView {
            pending: opt_text(self.pending),
            in_flight: self.in_flight,
            failed: self.failed,
            failures: self.failures,
            next_retry: self.next_retry,
        }
    }
}

impl FetchGate {
    pub fn new() -> (g: FetchGate)
        ensures
            g@ == (GateView { pending: None, in_flight: false, failed: false, failures: 0, next_retry: None }),
    {
        FetchGate { pending: None, in_flight: false, failed: false, failures: 0, next_retry: None }
    }

    /// Whether the worker should be asked for `path` now.
    pub fn should_send(&mut self, path: &str, now_ms: u64) -> (send: bool)
        ensures
            (final(self)@, send) == gate_send(old(self)@, path@, now_ms),
    {
        let p = path.to_string();
        let same = match &self.pending {
            Some(q) => crate::text::same_text(q, &p),
            None => false,
        };
        if same {
            let due = match self.next_retry {
                Some(t) => now_ms >= t,
                None => false,
            };
            if self.failed && !self.in_flight && due {
                self.in_flight = true;
                return true;
            }
            return false;
        }
        self.pending = Some(p);
        self.in_flight = true;
        self.failed = false;
        self.failures = 0;
        self.next_retry = None;
        true
    }

    /// A fetch came back, with a cover (`ok`) or without.
    pub fn completed(&mut self, ok: bool, now_ms: u64)
        ensures
            final(self)@ == gate_done(old(self)@, ok, now_ms),
    {
        self.in_flight = false;
        if ok {
            self.failed = false;
            self.failures = 0;
            self.next_retry = None;
        } else {
            self.failed = true;
            self.failures = self.failures.saturating_add(1);
            self.next_retry = Some(now_ms.saturating_add(retry_delay(self.failures)));
        }
    }

    /// After a miss and until the cover arrives or the path changes; the
    /// face shows "Retrieving artwork" then.
    pub fn retrieving(&self) -> (b: bool)
        ensures
            b == self@.failed,
    {
        self.failed
    }

    /// How many fetches of the current path failed in a row.
    pub fn failures(&self) -> (n: u32)
        ensures
            n == self@.failures,
    {
        self.failures
    }

    /// The path asked for last.
    pub fn pending(&self) -> (p: Option<&String>)
        ensures
            match p {
                Some(s) => self@.pending == Some(s@),
                None => self@.pending is None,
            },
    {
        match &self.pending {
            Some(s) => Some(s),
            None => None,
        }
    }
}

/// A cover that arrived is never fetched again while its path stays the
/// current one, however much later it is asked for.
pub proof fn a_fetched_cover_is_not_fetched_again(g: GateView, path: Seq<char>, t0: u64, t1: u64, t2: u64)
    ensures
        ({
            let (g1, _) = gate_send(g, path, t0);
            let g2 = gate_done(g1, true, t1);
            !gate_send(g2, path, t2).1
        }),
{
}

/// A failed cover is tried again once its backoff has run out, and not
/// before.
pub proof fn a_miss_is_retried_after_the_backoff(g: GateView, path: Seq<char>, t1: u64, t2: u64)
    requires
        g.pending == Some(path),
        g.in_flight,
        t1 as int + 30000 <= u64::MAX,
    ensures
        ({
            let g2 = gate_done(g, false, t1);
            gate_send(g2, path, t2).1 == (t2 >= t1 + retry_ms(g2.failures))
        }),
{
}

/// While a fetch is out, the same cover is not asked for again.
pub proof fn in_flight_blocks_a_retry(g: GateView, path: Seq<char>, now: u64)
    requires
        g.pending == Some(path),
        g.in_flight,
    ensures
        !gate_send(g, path, now).1,
        gate_send(g, path, now).0 == g,
{
}

/// A new path is asked for at once and starts with a clean record.
pub proof fn a_new_path_is_sent_at_once(g: GateView, path: Seq<char>, now: u64)
    requires
        g.pending != Some(path),
    ensures
        gate_send(g, path, now).1,
        !gate_send(g, path, now).0.failed,
        gate_send(g, path, now).0.failures == 0,
{
}

pub open spec fn starts_with(s: Seq<char>, p: Seq<char>) -> bool {
    s.len() >= p.len() && s.take(p.len() as int) == p
}

pub open spec fn strip_start(s: Seq<char>, c: char) -> Seq<char>
    decreases s.len(),
{
    if s.len() > 0 && s[0] == c {
        strip_start(s.drop_first(), c)
    } else {
        s
    }
}

/// Where an `albumart` value points: an absolute `http://` or `https://`
/// URL as it stands, else the path joined to the origin with exactly one
/// slash between them.
pub open spec fn joined(base: Seq<char>, path: Seq<char>) -> Seq<char> {
    if starts_with(path, "http://"@) || starts_with(path, "https://"@) {
        path
    } else {
        strip_end(base, '/') + seq!['/'] + strip_start(path, '/')
    }
}

fn has_prefix(v: &Vec<char>, p: &str) -> (b: bool)
    ensures
        b == starts_with(v@, p@),
{
    let q = chars_of(p);
    if v.len() < q.len() {
        return false;
    }
    let b = crate::text::eq_in(v, 0, q.len(), &q);
    assert(v@.subrange(0, q@.len() as int) =~= v@.take(q@.len() as int));
    b
}

pub fn join(base: &str, path: &str) -> (url: String)
    ensures
        url@ == joined(base@, path@),
{
    let pv = chars_of(path);
    if has_prefix(&pv, "http://") || has_prefix(&pv, "https://") {
        return path.to_string();
    }
    let bv = chars_of(base);
    let e = strip_end_range(&bv, 0, bv.len(), '/');
    assert(bv@.subrange(0, bv@.len() as int) =~= bv@);
    let mut s: usize = 0;
    assert(pv@.skip(0) =~= pv@);
    while s < pv.len() && pv[s] == '/'
        invariant
            s <= pv@.len(),
            strip_start(pv@, '/') == strip_start(pv@.skip(s as int), '/'),
        decreases pv@.len() - s,
    {
        assert(pv@.skip(s as int).drop_first() =~= pv@.skip(s + 1));
        s = s + 1;
    }
    proof {
        if s < pv@.len() {
            assert(pv@.skip(s as int)[0] == pv@[s as int]);
        }
    }
    let mut out: Vec<char> = Vec::new();
    push_slice(&mut out, &bv, 0, e);
    out.push('/');
    push_slice(&mut out, &pv, s, pv.len());
    assert(pv@.subrange(s as int, pv@.len() as int) =~= pv@.skip(s as int));
    assert(out@ =~= joined(base@, path@));
    string_from(&out)
}

/// What `String::from_utf8_lossy` gives for `bytes`: the text, with each
/// invalid sequence replaced by U+FFFD.
pub uninterp spec fn lossy_text(bytes: Seq<u8>) -> Seq<char>;

/// `String::from_utf8_lossy`, owned. Valid UTF-8 decodes as it stands.
#[verifier::external_body]
fn from_utf8_lossy(bytes: &[u8]) -> (s: String)
    ensures
        s@ == lossy_text(bytes@),
        vstd::utf8::valid_utf8(bytes@) ==> s@ == vstd::utf8::decode_utf8(bytes@),
{
    String::from_utf8_lossy(bytes).into_owned()
}

/// Markup that starts an SVG document: after leading whitespace an XML
/// declaration or an `<svg` tag, or an `<svg` tag anywhere.
pub open spec fn svg_markup(text: Seq<char>) -> bool {
    let t = trim_start(text);
    starts_with(t, "<?xml"@) || starts_with(t, "<svg"@) || has_infix(t, "<svg"@)
}

/// Whether decoded text reads as the start of an SVG document.
pub fn svg_head(text: &str) -> (b: bool)
    ensures
        b == svg_markup(text@),
{
    let v = chars_of(text);
    let mut i: usize = 0;
    assert(v@.skip(0) =~= v@);
    while i < v.len() && crate::text::is_whitespace(v[i])
        invariant
            i <= v@.len(),
            trim_start(v@) == trim_start(v@.skip(i as int)),
        decreases v@.len() - i,
    {
        assert(v@.skip(i as int).drop_first() =~= v@.skip(i + 1));
        i = i + 1;
    }
    proof {
        if i < v@.len() {
            assert(v@.skip(i as int)[0] == v@[i as int]);
        }
    }
    let mut t: Vec<char> = Vec::new();
    push_slice(&mut t, &v, i, v.len());
    assert(t@ =~= v@.skip(i as int));
    has_prefix(&t, "<?xml") || has_prefix(&t, "<svg") || contains(&t, "<svg")
}

fn contains(v: &Vec<char>, needle: &str) -> (b: bool)
    ensures
        b == has_infix(v@, needle@),
{
    let n = chars_of(needle);
    crate::text::contains_seq(v.as_slice(), n.as_slice())
}

/// Whether fetched bytes plausibly start an SVG: the gzip magic of `.svgz`,
/// or SVG markup in the first 512 bytes read as text.
pub open spec fn svg_bytes(bytes: Seq<u8>) -> bool {
    (bytes.len() >= 2 && bytes[0] == 0x1f && bytes[1] == 0x8b) || svg_markup(
        lossy_text(bytes.take(if bytes.len() < 512 { bytes.len() as int } else { 512 })),
    )
}

/// The first bytes that are read as text: at most 512.
pub open spec fn svg_window(bytes: Seq<u8>) -> Seq<u8> {
    bytes.take(if bytes.len() < 512 { bytes.len() as int } else { 512 })
}

pub fn looks_like_svg(bytes: &[u8]) -> (b: bool)
    ensures
        b == svg_bytes(bytes@),
        !(bytes@.len() >= 2 && bytes@[0] == 0x1f && bytes@[1] == 0x8b) && vstd::utf8::valid_utf8(
            svg_window(bytes@),
        ) ==> b == svg_markup(vstd::utf8::decode_utf8(svg_window(bytes@))),
{
    if bytes.len() >= 2 && bytes[0] == 0x1f && bytes[1] == 0x8b {
        return true;
    }
    let n = if bytes.len() < 512 {
        bytes.len()
    } else {
        512
    };
    let mut head: Vec<u8> = Vec::new();
    let mut i: usize = 0;
    while i < n
        invariant
            i <= n <= bytes@.len(),
            head@ == bytes@.take(i as int),
        decreases n - i,
    {
        head.push(bytes[i]);
        i = i + 1;
        assert(head@ =~= bytes@.take(i as int));
    }
    let text = from_utf8_lossy(head.as_slice());
    svg_head(text.as_str())
}

/// One straight-alpha RGBA pixel composited over black, as an RGB565 word:
/// each channel scaled by alpha over 255, then cut to 5, 6 and 5 bits.
pub open spec fn blend_spec(p: Seq<u8>) -> u16 {
    let a = p[3] as int;
    rgb565_spec(
        ((p[0] * a / 255) as u8 / 8) as u8,
        ((p[1] * a / 255) as u8 / 4) as u8,
        ((p[2] * a / 255) as u8 / 8) as u8,
    )
}

fn scale_channel(v: u8, a: u8) -> (r: u8)
    ensures
        r == v * a / 255,
{
    assert(v as u32 * a as u32 <= 255 * 255) by (nonlinear_arith)
        requires
            v <= 255,
            a <= 255,
    ;
    assert((v as u32 * a as u32) / 255 <= 255) by (nonlinear_arith)
        requires
            v as u32 * a as u32 <= 255 * 255,
    ;
    ((v as u32 * a as u32) / 255) as u8
}

pub fn blend_on_black(p: [u8; 4]) -> (c: u16)
    ensures
        c == blend_spec(p@),
{
    let a = p[3];
    let r = scale_channel(p[0], a);
    let g = scale_channel(p[1], a);
    let b = scale_channel(p[2], a);
    assert(r >> 3 == r / 8) by (bit_vector);
    assert(g >> 2 == g / 4) by (bit_vector);
    assert(b >> 3 == b / 8) by (bit_vector);
    crate::ui::rgb565(r >> 3, g >> 2, b >> 3)
}

/// Whether `image::guess_format` recognises the bytes' magic.
pub uninterp spec fn raster_format(bytes: Seq<u8>) -> bool;

/// `image::guess_format`: whether the bytes start with a raster format's
/// magic number.
#[verifier::external_body]
fn guess_format(bytes: &[u8]) -> (known: bool)
    ensures
        known == raster_format(bytes@),
{
    image::guess_format(bytes).is_ok()
}

/// What the `image` crate makes of the bytes: decoded, resized with the
/// triangle filter to the largest size that fits a `size` square keeping
/// the aspect ratio, and converted to straight-alpha RGBA8.
pub uninterp spec fn decoded_rgba(bytes: Seq<u8>, size: u32) -> Option<(u32, u32, Seq<u8>)>;

/// `image::load_from_memory`, then `DynamicImage::resize` to fit a `size`
/// square with `FilterType::Triangle`, then `to_rgba8`: width, height and
/// four bytes per pixel, row-major. `None` when the bytes do not decode.
/// The buffer holds exactly four bytes per pixel, and the picture fits the
/// square (the crate never returns less than one pixel a side).
#[verifier::external_body]
fn decode_fit(bytes: &[u8], size: u32) -> (r: Option<(u32, u32, Vec<u8>)>)
    ensures
        match r {
            Some((w, h, px)) => decoded_rgba(bytes@, size) == Some((w, h, px@)) && px@.len() == 4
                * w * h && (size >= 1 ==> w <= size && h <= size),
            None => decoded_rgba(bytes@, size) is None,
        },
{
    let img = image::load_from_memory(bytes).ok()?;
    let rgba = img.resize(size, size, image::imageops::FilterType::Triangle).to_rgba8();
    let (w, h) = rgba.dimensions();
    Some((w, h, rgba.into_raw()))
}

/// Why a cover could not be decoded.
#[derive(Debug, Clone, Copy, PartialEq, Eq, Structural)]
pub enum ArtError {
    /// Neither a raster magic number nor SVG markup.
    Unrecognised,
    /// A raster format whose decoder refused the bytes.
    Decode,
}

/// What fetched bytes turn out to be.
pub enum Decoded {
    /// A raster cover, decoded and scaled.
    Raster(Art),
    /// SVG markup, to be rasterised at the target size.
    Svg,
}

/// Each RGBA pixel of `rgba` composited over black.
pub open spec fn blended(rgba: Seq<u8>, n: nat) -> Seq<u16> {
    Seq::new(n, |i: int| blend_spec(rgba.subrange(4 * i, 4 * i + 4)))
}

proof fn lemma_scaled_channel(x: u8, a: u8)
    ensures
        0 <= x * a / 255 <= 255,
{
    assert(0 <= x * a <= 255 * 255) by (nonlinear_arith)
        requires
            x <= 255,
            a <= 255,
    ;
    assert(0 <= x * a / 255 <= 255) by (nonlinear_arith)
        requires
            0 <= x * a <= 255 * 255,
    ;
}

/// Every cover pixel `i` comes from bytes `4i` to `4i + 3` as red, green,
/// blue and alpha: each colour is scaled by alpha over 255, red and blue
/// keep their top 5 bits and green its top 6, and the word holds red in bits
/// 11 to 15, green in bits 5 to 10 and blue in bits 0 to 4. One word per
/// whole pixel.
pub proof fn a_cover_pixel_keeps_its_channels(rgba: Seq<u8>, i: int)
    requires
        0 <= i < rgba.len() / 4,
    ensures
        blended(rgba, rgba.len() / 4).len() == rgba.len() / 4,
        ({
            let (r, g, b, a) = (rgba[4 * i], rgba[4 * i + 1], rgba[4 * i + 2], rgba[4 * i + 3]);
            blended(rgba, rgba.len() / 4)[i] as int == (r * a / 255) / 8 * 2048 + (g * a / 255) / 4 * 32
                + (b * a / 255) / 8
        }),
{
    assert(4 * i + 4 <= rgba.len()) by (nonlinear_arith)
        requires
            0 <= i < rgba.len() / 4,
    ;
    let p = rgba.subrange(4 * i, 4 * i + 4);
    assert(p[0] == rgba[4 * i] && p[1] == rgba[4 * i + 1] && p[2] == rgba[4 * i + 2] && p[3] == rgba[4 * i + 3]);
    let (r, g, b, a) = (rgba[4 * i], rgba[4 * i + 1], rgba[4 * i + 2], rgba[4 * i + 3]);
    lemma_scaled_channel(r, a);
    lemma_scaled_channel(g, a);
    lemma_scaled_channel(b, a);
}

/// Row-major straight-alpha RGBA bytes to RGB565, over black.
pub fn rgba_to_565(rgba: &Vec<u8>) -> (px: Vec<u16>)
    ensures
        px@ == blended(rgba@, rgba@.len() / 4),
{
    let n = rgba.len() / 4;
    let mut px: Vec<u16> = Vec::new();
    let mut i: usize = 0;
    while i < n
        invariant
            i <= n == rgba@.len() / 4,
            px@ == blended(rgba@, i as nat),
        decreases n - i,
    {
        assert(4 * i + 4 <= rgba.len()) by (nonlinear_arith)
            requires
                i < n,
                n == rgba.len() / 4,
        ;
        let c = blend_on_black([rgba[4 * i], rgba[4 * i + 1], rgba[4 * i + 2], rgba[4 * i + 3]]);
        proof {
            let q = [rgba@[4 * i], rgba@[4 * i + 1], rgba@[4 * i + 2], rgba@[4 * i + 3]];
            assert(rgba@.subrange(4 * i, 4 * i + 4) =~= seq![rgba@[4 * i], rgba@[4 * i + 1], rgba@[4 * i + 2], rgba@[4 * i + 3]]);
        }
        px.push(c);
        i = i + 1;
        assert(px@ =~= blended(rgba@, i as nat));
    }
    px
}

/// Premultiplied RGBA (as an SVG rasteriser produces it) to RGB565: the
/// colour channels already sit over black, so they are taken as they stand.
pub open spec fn premultiplied(rgba: Seq<u8>, n: nat) -> Seq<u16> {
    Seq::new(n, |i: int| rgb565_spec(rgba[4 * i] / 8, rgba[4 * i + 1] / 4, rgba[4 * i + 2] / 8))
}

pub fn premultiplied_to_565(rgba: &Vec<u8>) -> (px: Vec<u16>)
    ensures
        px@ == premultiplied(rgba@, rgba@.len() / 4),
{
    let n = rgba.len() / 4;
    let mut px: Vec<u16> = Vec::new();
    let mut i: usize = 0;
    while i < n
        invariant
            i <= n == rgba@.len() / 4,
            px@ == premultiplied(rgba@, i as nat),
        decreases n - i,
    {
        assert(4 * i + 4 <= rgba.len()) by (nonlinear_arith)
            requires
                i < n,
                n == rgba.len() / 4,
        ;
        let (x, y, z) = (rgba[4 * i], rgba[4 * i + 1], rgba[4 * i + 2]);
        assert(x >> 3 == x / 8) by (bit_vector);
        assert(y >> 2 == y / 4) by (bit_vector);
        assert(z >> 3 == z / 8) by (bit_vector);
        let c = crate::ui::rgb565(x >> 3, y >> 2, z >> 3);
        px.push(c);
        i = i + 1;
        assert(px@ =~= premultiplied(rgba@, i as nat));
    }
    px
}

/// A raster cover from what the decoder returned: the size as given, each
/// pixel composited over black.
pub fn raster_art(decoded: Option<(u32, u32, Vec<u8>)>) -> (r: Result<Art, ArtError>)
    ensures
        match decoded {
            Some((w, h, rgba)) => r matches Ok(a) && a.w == w && a.h == h && a.px@ == blended(
                rgba@,
                rgba@.len() / 4,
            ),
            None => r == Err::<Art, ArtError>(ArtError::Decode),
        },
{
    match decoded {
        Some((w, h, rgba)) => Ok(Art { w, h, px: rgba_to_565(&rgba) }),
        None => Err(ArtError::Decode),
    }
}

/// Turn fetched bytes into a cover. Raster formats are dispatched on their
/// magic bytes rather than on the declared type, since covers come from
/// whatever server a stream points at; SVG is considered only after that.
pub fn decode(bytes: &[u8], size: u32) -> (r: Result<Decoded, ArtError>)
    ensures
        raster_format(bytes@) ==> match decoded_rgba(bytes@, size) {
            Some((w, h, rgba)) => r matches Ok(Decoded::Raster(a)) && a.w == w && a.h == h && a.px@
                == blended(rgba, rgba.len() / 4) && a.px@.len() == w * h,
            None => r == Err::<Decoded, ArtError>(ArtError::Decode),
        },
        !raster_format(bytes@) && svg_bytes(bytes@) ==> r matches Ok(Decoded::Svg),
        !raster_format(bytes@) && !svg_bytes(bytes@) ==> r == Err::<Decoded, ArtError>(
            ArtError::Unrecognised,
        ),
{
    if guess_format(bytes) {
        let d = decode_fit(bytes, size);
        let ghost dv = d;
        proof {
            match dv {
                Some((w, h, _)) => {
                    assert((4 * w * h) / 4 == w * h) by (nonlinear_arith);
                },
                None => {},
            }
        }
        match raster_art(d) {
            Ok(a) => Ok(Decoded::Raster(a)),
            Err(e) => Err(e),
        }
    } else if looks_like_svg(bytes) {
        Ok(Decoded::Svg)
    } else {
        Err(ArtError::Unrecognised)
    }
}

} // verus!
