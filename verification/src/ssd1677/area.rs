//! Rectangles in logical coordinates.

use embedded_graphics::geometry::{Point, Size};
use embedded_graphics::primitives::Rectangle;
use vstd::prelude::*;

verus! {

/// A rectangle of pixels.
#[derive(Debug, Clone, Copy, PartialEq, Eq)]
pub struct Area {
    pub x: i32,
    pub y: i32,
    pub w: u32,
    pub h: u32,
}

impl Area {
    /// Does the rectangle cover this pixel?
    pub open spec fn covers(self, px: int, py: int) -> bool {
        self.x <= px < self.x + self.w && self.y <= py < self.y + self.h
    }

    /// The pixels are those that both `a` and `b` cover.
    pub open spec fn is_shared_by(self, a: Area, b: Area) -> bool {
        forall|px: int, py: int| #[trigger]
            self.covers(px, py) <==> a.covers(px, py) && b.covers(px, py)
    }

    /// The rectangle is empty, or all its pixels have representable
    /// coordinates.
    pub open spec fn representable(self) -> bool {
        self.w > 0 && self.h > 0 ==> self.x + self.w <= i32::MAX && self.y + self.h <= i32::MAX
            && self.w <= i32::MAX && self.h <= i32::MAX
    }
}

/// `Rectangle::intersection` of embedded-graphics: the pixels that both
/// rectangles cover. Its corner arithmetic is on `i32`, so the rectangles have
/// to be representable. Where no pixel is shared the result has no pixels; its
/// position is not stated.
#[verifier::external_body]
fn shared(a: Area, b: Area) -> (c: Area)
    requires
        a.representable(),
        b.representable(),
    ensures
        c.is_shared_by(a, b),
{
    let r = Rectangle::new(Point::new(a.x, a.y), Size::new(a.w, a.h)).intersection(
        &Rectangle::new(Point::new(b.x, b.y), Size::new(b.w, b.h)),
    );
    Area { x: r.top_left.x, y: r.top_left.y, w: r.size.width, h: r.size.height }
}

/// The part of a rectangle that lies on a screen of `w` by `h` pixels: its
/// columns `x0..x1` and rows `y0..y1`, none if it lies outside.
pub fn clipped(a: Area, w: u32, h: u32) -> (r: (u32, u32, u32, u32))
    requires
        a.representable(),
        0 < w <= i32::MAX,
        0 < h <= i32::MAX,
    ensures
        r.0 <= r.1 <= w,
        r.2 <= r.3 <= h,
        forall|px: int, py: int|
            (r.0 <= px < r.1 && r.2 <= py < r.3) <==> #[trigger] a.covers(px, py) && 0 <= px < w
                && 0 <= py < h,
{
    let screen = Area { x: 0, y: 0, w, h };
    let c = shared(a, screen);
    if c.w == 0 || c.h == 0 {
        assert forall|px: int, py: int| #[trigger] a.covers(px, py) && 0 <= px < w && 0 <= py
            < h implies false by {
            assert(screen.covers(px, py));
            assert(!c.covers(px, py));
        }
        return (0, 0, 0, 0);
    }
    proof {
        let last_x = c.x + c.w - 1;
        let last_y = c.y + c.h - 1;
        assert(c.covers(c.x as int, c.y as int));
        assert(screen.covers(c.x as int, c.y as int));
        assert(c.covers(last_x, last_y));
        assert(screen.covers(last_x, last_y));
        assert forall|px: int, py: int|
            (c.x <= px < c.x + c.w && c.y <= py < c.y + c.h) <==> #[trigger] a.covers(px, py) && 0
                <= px < w && 0 <= py < h by {
            assert(c.covers(px, py) <==> a.covers(px, py) && screen.covers(px, py));
        }
    }
    (c.x as u32, c.x as u32 + c.w, c.y as u32, c.y as u32 + c.h)
}

/// A rectangle covers the pixels from its corner on, as many as it is wide and
/// high.
pub proof fn rectangles_cover_their_pixels(a: Area, dx: int, dy: int)
    ensures
        a.covers(a.x + dx, a.y + dy) <==> 0 <= dx < a.w && 0 <= dy < a.h,
{
}

} // verus!
