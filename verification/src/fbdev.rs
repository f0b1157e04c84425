//! The framebuffer backend's checks: what sysfs says about the device, and
//! whether it matches the layout. Mapping the device and writing pixels is
//! the caller's.
//!
//! fbtft's `rotate` is counter-clockwise; the panel's rotation is
//! clockwise. A mismatch is reported with the value that would fix it.

use vstd::prelude::*;
use crate::config::{fbtft_rotate, fbtft_rotate_spec};
use crate::text::{chars_of, parse_u64, parse_u64_in, trim, trim_range};
use crate::ui::Layout;

verus! {

broadcast use vstd::string::group_string_axioms;

/// `str::parse::<u32>`.
pub open spec fn parse_u32(s: Seq<char>) -> Option<u32> {
    match parse_u64(s) {
        Some(n) => if n <= u32::MAX {
            Some(n as u32)
        } else {
            None
        },
        None => None,
    }
}

fn parse_u32_in(v: &[char], lo: usize, hi: usize) -> (r: Option<u32>)
    requires
        lo <= hi <= v@.len(),
    ensures
        r == parse_u32(v@.subrange(lo as int, hi as int)),
{
    match parse_u64_in(v, lo, hi) {
        Some(n) => if n <= u32::MAX as u64 {
            Some(n as u32)
        } else {
            None
        },
        None => None,
    }
}

/// Index of the first `c` in `s`.
pub open spec fn first_index(s: Seq<char>, c: char) -> Option<int> {
    if exists|i: int| 0 <= i < s.len() && s[i] == c {
        Some(choose|i: int| 0 <= i < s.len() && s[i] == c && forall|j: int| 0 <= j < i ==> s[j] != c)
    } else {
        None
    }
}

/// The sysfs `virtual_size` form: trimmed, `W,H` split at the first comma,
/// each side trimmed and an unsigned 32-bit number.
pub open spec fn virtual_size(text: Seq<char>) -> Option<(u32, u32)> {
    let t = trim(text);
    match first_index(t, ',') {
        Some(k) => match (parse_u32(trim(t.take(k))), parse_u32(trim(t.skip(k + 1)))) {
            (Some(w), Some(h)) => Some((w, h)),
            _ => None,
        },
        None => None,
    }
}

pub fn parse_virtual_size(text: &str) -> (r: Option<(u32, u32)>)
    ensures
        r == virtual_size(text@),
{
    let v = chars_of(text);
    let (a, b) = trim_range(&v, 0, v.len());
    assert(v@.subrange(0, v@.len() as int) =~= v@);
    let ghost t = v@.subrange(a as int, b as int);
    let mut k = a;
    while k < b && v[k] != ','
        invariant
            a <= k <= b <= v@.len(),
            t == v@.subrange(a as int, b as int),
            forall|j: int| 0 <= j < k - a ==> t[j] != ',',
        decreases b - k,
    {
        k = k + 1;
    }
    if k == b {
        assert(!exists|i: int| 0 <= i < t.len() && t[i] == ',');
        return None;
    }
    proof {
        let i = (k - a) as int;
        assert(t[i] == ',');
        let c = choose|i: int| 0 <= i < t.len() && t[i] == ',' && forall|j: int| 0 <= j < i ==> t[j] != ',';
        assert(c == i) by {
            if c < i {
                assert(t[c] != ',');
            }
            if c > i {
                assert(t[i] != ',');
            }
        }
    }
    let (wa, wb) = trim_range(&v, a, k);
    let (ha, hb) = trim_range(&v, k + 1, b);
    assert(t.take((k - a) as int) =~= v@.subrange(a as int, k as int));
    assert(t.skip(k - a + 1) =~= v@.subrange(k + 1, b as int));
    let w = parse_u32_in(&v, wa, wb);
    let h = parse_u32_in(&v, ha, hb);
    match (w, h) {
        (Some(w), Some(h)) => Some((w, h)),
        _ => None,
    }
}

/// A sysfs number: the trimmed text as an unsigned 32-bit number.
pub fn parse_sysfs_u32(text: &str) -> (r: Option<u32>)
    ensures
        r == parse_u32(trim(text@)),
{
    let v = chars_of(text);
    let (a, b) = trim_range(&v, 0, v.len());
    assert(v@.subrange(0, v@.len() as int) =~= v@);
    parse_u32_in(&v, a, b)
}

/// Why the framebuffer cannot be used.
#[derive(Debug, Clone, Copy, PartialEq, Eq, Structural)]
pub enum FbError {
    /// Not 16 bits per pixel.
    Depth { bits: u32 },
    /// A row is shorter than the width at two bytes a pixel.
    Stride { stride: u32, needed: u64 },
    /// The device is not the layout's size; `fbtft_rotate` is the overlay's
    /// `rotate` that would make it so.
    Size { width: u32, height: u32, expected_width: u32, expected_height: u32, rotation: u16, fbtft_rotate: u16 },
}

/// The geometry of a usable framebuffer.
#[derive(Debug, Clone, Copy, PartialEq, Eq, Structural)]
pub struct FbShape {
    pub width: u32,
    pub height: u32,
    /// Bytes per row.
    pub stride: u32,
    /// Bytes to map: stride times height.
    pub map_len: u64,
}

/// The checks, in order: 16 bits per pixel, a stride of at least two bytes
/// per pixel, and the layout's frame size.
pub open spec fn fb_check(width: u32, height: u32, bits: u32, stride: u32, l: Layout) -> Result<FbShape, FbError> {
    if bits != 16 {
        Err(FbError::Depth { bits })
    } else if stride < 2 * width {
        Err(FbError::Stride { stride, needed: (2 * width) as u64 })
    } else if width != l.frame.size.width || height != l.frame.size.height {
        Err(
            FbError::Size {
                width,
                height,
                expected_width: l.frame.size.width,
                expected_height: l.frame.size.height,
                rotation: l.rotation,
                fbtft_rotate: fbtft_rotate_spec(l.rotation),
            },
        )
    } else {
        Ok(FbShape { width, height, stride, map_len: (stride * height) as u64 })
    }
}

pub fn check_fb(width: u32, height: u32, bits: u32, stride: u32, layout: &Layout) -> (r: Result<FbShape, FbError>)
    ensures
        r == fb_check(width, height, bits, stride, *layout),
{
    if bits != 16 {
        return Err(FbError::Depth { bits });
    }
    let needed: u64 = width as u64 * 2;
    if (stride as u64) < needed {
        return Err(FbError::Stride { stride, needed });
    }
    let expected = layout.frame.size;
    if width != expected.width || height != expected.height {
        return Err(
            FbError::Size {
                width,
                height,
                expected_width: expected.width,
                expected_height: expected.height,
                rotation: layout.rotation,
                fbtft_rotate: fbtft_rotate(layout.rotation),
            },
        );
    }
    assert(stride * height <= 0xffff_ffff * 0xffff_ffff) by (nonlinear_arith)
        requires
            stride <= 0xffff_ffff,
            height <= 0xffff_ffff,
    ;
    Ok(FbShape { width, height, stride, map_len: stride as u64 * height as u64 })
}

/// Byte offset of pixel `(x, y)`: two bytes a pixel, `stride` bytes a row.
pub fn pixel_offset(x: u32, y: u32, stride: u32) -> (off: u64)
    ensures
        off == y * stride + 2 * x,
{
    assert(y * stride <= 0xffff_ffff * 0xffff_ffff) by (nonlinear_arith)
        requires
            y <= 0xffff_ffff,
            stride <= 0xffff_ffff,
    ;
    y as u64 * stride as u64 + 2 * x as u64
}

/// Whether a point lies on a `width` by `height` frame.
pub fn on_frame(x: i32, y: i32, width: u32, height: u32) -> (b: bool)
    ensures
        b == (0 <= x < width && 0 <= y < height),
{
    x >= 0 && y >= 0 && (x as u32) < width && (y as u32) < height
}

} // verus!
