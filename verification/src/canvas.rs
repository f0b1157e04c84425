//! An in-memory canvas that text is composed on before one blit, so a
//! clipped view of the panel is never addressed pixel by pixel; and the
//! rotation handed to the SPI driver.

use vstd::prelude::*;

verus! {

/// Row-major RGB565 pixels, `width` by `height`.
pub struct RowBuf {
    width: u32,
    height: u32,
    px: Vec<u16>,
}

impl RowBuf {
    pub closed spec fn w(self) -> nat {
        self.width as nat
    }

    pub closed spec fn h(self) -> nat {
        self.height as nat
    }

    pub closed spec fn pixels(self) -> Seq<u16> {
        self.px@
    }

    /// A canvas filled with `bg`.
    pub fn new(width: u32, height: u32, bg: u16) -> (b: RowBuf)
        requires
            width * height <= usize::MAX,
        ensures
            b.w() == width,
            b.h() == height,
            b.pixels() == Seq::new((width * height) as nat, |i: int| bg),
    {
        let n = width as usize * height as usize;
        let mut px: Vec<u16> = Vec::new();
        let mut i: usize = 0;
        while i < n
            invariant
                i <= n,
                px@ == Seq::new(i as nat, |j: int| bg),
            decreases n - i,
        {
            px.push(bg);
            i = i + 1;
            assert(px@ =~= Seq::new(i as nat, |j: int| bg));
        }
        RowBuf { width, height, px }
    }

    /// Paint one pixel; a point off the canvas is dropped.
    pub fn put(&mut self, x: i32, y: i32, c: u16)
        requires
            old(self).pixels().len() == old(self).w() * old(self).h(),
        ensures
            final(self).w() == old(self).w(),
            final(self).h() == old(self).h(),
            final(self).pixels() == if 0 <= x < old(self).w() && 0 <= y < old(self).h() {
                old(self).pixels().update(y * old(self).w() + x, c)
            } else {
                old(self).pixels()
            },
    {
        if x >= 0 && y >= 0 && (x as u32) < self.width && (y as u32) < self.height {
            let (xu, yu) = (x as u64, y as u64);
            assert(self.px@.len() == self.px.len());
            assert(self.width * self.height <= usize::MAX);
            assert(yu * self.width + xu < self.width * self.height && 0 <= yu * self.width) by (nonlinear_arith)
                requires
                    xu < self.width,
                    yu < self.height,
            ;
            let i = (yu * self.width as u64 + xu) as usize;
            self.px.set(i, c);
        }
    }

    /// The pixels, row-major.
    pub fn pixels_ref(&self) -> (p: &Vec<u16>)
        ensures
            p@ == self.pixels(),
    {
        &self.px
    }

    pub fn width(&self) -> (w: u32)
        ensures
            w == self.w(),
    {
        self.width
    }

    pub fn height(&self) -> (h: u32)
        ensures
            h == self.h(),
    {
        self.height
    }
}

/// A quarter turn of the panel, as the SPI driver takes it.
#[derive(Debug, Clone, Copy, PartialEq, Eq, Structural)]
pub enum Quarter {
    Deg0,
    Deg90,
    Deg180,
    Deg270,
}

/// The driver rotation for a configured rotation in degrees; `None` for
/// anything but 0, 90, 180 and 270.
pub fn quarter_turn(degrees: u16) -> (q: Option<Quarter>)
    ensures
        q == match degrees {
            0 => Some(Quarter::Deg0),
            90 => Some(Quarter::Deg90),
            180 => Some(Quarter::Deg180),
            270 => Some(Quarter::Deg270),
            _ => None::<Quarter>,
        },
{
    match degrees {
        0 => Some(Quarter::Deg0),
        90 => Some(Quarter::Deg90),
        180 => Some(Quarter::Deg180),
        270 => Some(Quarter::Deg270),
        _ => None,
    }
}

} // verus!
