//! Points and axis-aligned rectangles on the fixed-point coordinate plane.

use vstd::prelude::*;

verus! {

/// Sub-units per canvas unit. A coordinate of `1500` lies one and a half
/// units from the origin.
pub const UNIT: i32 = 1000;

/// A position on the plane, in sub-units.
#[derive(Clone, Copy, Debug, PartialEq, Eq, Structural)]
pub struct Point {
    pub x: i32,
    pub y: i32,
}

/// An axis-aligned rectangle given by two corners. It covers the points `p`
/// with `min <= p <= max` on both axes; where `min` exceeds `max` on an axis
/// it covers nothing.
#[derive(Clone, Copy, Debug, PartialEq, Eq, Structural)]
pub struct Rect {
    pub min: Point,
    pub max: Point,
}

/// The coordinate nearest to `v` that the plane holds.
pub open spec fn clip(v: int) -> i32 {
    if v < i32::MIN {
        i32::MIN
    } else if v > i32::MAX {
        i32::MAX
    } else {
        v as i32
    }
}

pub open spec fn min_int(a: int, b: int) -> int {
    if a <= b {
        a
    } else {
        b
    }
}

pub open spec fn max_int(a: int, b: int) -> int {
    if a >= b {
        a
    } else {
        b
    }
}

/// Brings a 64-bit coordinate back onto the plane.
pub fn clip_coord(v: i64) -> (r: i32)
    ensures
        r == clip(v as int),
{
    if v < i32::MIN as i64 {
        i32::MIN
    } else if v > i32::MAX as i64 {
        i32::MAX
    } else {
        v as i32
    }
}

impl Point {
    pub fn new(x: i32, y: i32) -> (p: Point)
        ensures
            p == (Point { x, y }),
    {
        Point { x, y }
    }

    /// The point `x` whole units right of and `y` whole units below the
    /// origin, clipped to the plane.
    pub fn from_units(x: i32, y: i32) -> (p: Point)
        ensures
            p.x == clip(x * UNIT),
            p.y == clip(y * UNIT),
    {
        Point { x: clip_coord(x as i64 * UNIT as i64), y: clip_coord(y as i64 * UNIT as i64) }
    }

    /// Componentwise minimum.
    pub open spec fn spec_min(self, other: Point) -> Point {
        Point {
            x: if self.x <= other.x { self.x } else { other.x },
            y: if self.y <= other.y { self.y } else { other.y },
        }
    }

    /// Componentwise maximum.
    pub open spec fn spec_max(self, other: Point) -> Point {
        Point {
            x: if self.x >= other.x { self.x } else { other.x },
            y: if self.y >= other.y { self.y } else { other.y },
        }
    }

    #[verifier::when_used_as_spec(spec_min)]
    pub fn min(self, other: Point) -> (p: Point)
        ensures
            p == self.spec_min(other),
    {
        Point {
            x: if self.x <= other.x { self.x } else { other.x },
            y: if self.y <= other.y { self.y } else { other.y },
        }
    }

    #[verifier::when_used_as_spec(spec_max)]
    pub fn max(self, other: Point) -> (p: Point)
        ensures
            p == self.spec_max(other),
    {
        Point {
            x: if self.x >= other.x { self.x } else { other.x },
            y: if self.y >= other.y { self.y } else { other.y },
        }
    }
}

impl Rect {
    /// The rectangle that covers nothing: its corners are inverted as far as
    /// the plane allows, so its width and height are negative.
    pub open spec fn spec_nothing() -> Rect {
        Rect {
            min: Point { x: i32::MAX, y: i32::MAX },
            max: Point { x: i32::MIN, y: i32::MIN },
        }
    }

    /// The rectangle spanned by two arbitrary points.
    pub open spec fn spec_from_two_pos(a: Point, b: Point) -> Rect {
        Rect { min: a.spec_min(b), max: a.spec_max(b) }
    }

    /// The rectangle with corner `min` and the given extent, clipped to the
    /// plane.
    pub open spec fn spec_from_min_size(min: Point, width: i32, height: i32) -> Rect {
        Rect { min, max: Point { x: clip(min.x + width), y: clip(min.y + height) } }
    }

    /// The rectangle reaching `radius_x` to either side of `center` and
    /// `radius_y` above and below it, clipped to the plane.
    pub open spec fn spec_from_center_radii(center: Point, radius_x: i32, radius_y: i32) -> Rect {
        Rect {
            min: Point { x: clip(center.x - radius_x), y: clip(center.y - radius_y) },
            max: Point { x: clip(center.x + radius_x), y: clip(center.y + radius_y) },
        }
    }

    pub open spec fn spec_width(self) -> int {
        self.max.x - self.min.x
    }

    pub open spec fn spec_height(self) -> int {
        self.max.y - self.min.y
    }

    /// Whether `p` lies in the rectangle, edges included.
    pub open spec fn spec_contains(&self, p: Point) -> bool {
        self.min.x <= p.x <= self.max.x && self.min.y <= p.y <= self.max.y
    }

    /// Whether `min <= max` holds on both axes.
    pub open spec fn is_normalized(self) -> bool {
        self.min.x <= self.max.x && self.min.y <= self.max.y
    }

    #[verifier::when_used_as_spec(spec_nothing)]
    pub fn nothing() -> (r: Rect)
        ensures
            r == Rect::spec_nothing(),
    {
        Rect {
            min: Point { x: i32::MAX, y: i32::MAX },
            max: Point { x: i32::MIN, y: i32::MIN },
        }
    }

    #[verifier::when_used_as_spec(spec_from_two_pos)]
    pub fn from_two_pos(a: Point, b: Point) -> (r: Rect)
        ensures
            r == Rect::spec_from_two_pos(a, b),
            r.is_normalized(),
    {
        Rect { min: a.min(b), max: a.max(b) }
    }

    #[verifier::when_used_as_spec(spec_from_min_size)]
    pub fn from_min_size(min: Point, width: i32, height: i32) -> (r: Rect)
        ensures
            r == Rect::spec_from_min_size(min, width, height),
    {
        Rect {
            min,
            max: Point {
                x: clip_coord(min.x as i64 + width as i64),
                y: clip_coord(min.y as i64 + height as i64),
            },
        }
    }

    #[verifier::when_used_as_spec(spec_from_center_radii)]
    pub fn from_center_radii(center: Point, radius_x: i32, radius_y: i32) -> (r: Rect)
        ensures
            r == Rect::spec_from_center_radii(center, radius_x, radius_y),
    {
        Rect {
            min: Point {
                x: clip_coord(center.x as i64 - radius_x as i64),
                y: clip_coord(center.y as i64 - radius_y as i64),
            },
            max: Point {
                x: clip_coord(center.x as i64 + radius_x as i64),
                y: clip_coord(center.y as i64 + radius_y as i64),
            },
        }
    }

    pub fn width(&self) -> (w: i64)
        ensures
            w == self.spec_width(),
    {
        self.max.x as i64 - self.min.x as i64
    }

    pub fn height(&self) -> (h: i64)
        ensures
            h == self.spec_height(),
    {
        self.max.y as i64 - self.min.y as i64
    }

    #[verifier::when_used_as_spec(spec_contains)]
    pub fn contains(&self, p: Point) -> (b: bool)
        ensures
            b == self.spec_contains(p),
    {
        self.min.x <= p.x && p.x <= self.max.x && self.min.y <= p.y && p.y <= self.max.y
    }
}

} // verus!
