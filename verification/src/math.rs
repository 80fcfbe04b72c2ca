use vstd::prelude::*;
use crate::fixed::POS_LIMIT;

verus! {

/// A continuous 2D point in fixed-point world coordinates.
#[derive(Debug, Clone, Copy, PartialEq, Eq, Structural)]
pub struct Point2 {
    pub x: i64,
    pub y: i64,
}

impl Point2 {
    pub fn new(x: i64, y: i64) -> (r: Point2)
        ensures
            r.x == x,
            r.y == y,
    {
        Point2 { x, y }
    }

    pub fn zero() -> (r: Point2)
        ensures
            r.x == 0,
            r.y == 0,
    {
        Point2 { x: 0, y: 0 }
    }

    pub fn get_x(&self) -> (r: i64)
        ensures
            r == self.x,
    {
        self.x
    }

    pub fn get_y(&self) -> (r: i64)
        ensures
            r == self.y,
    {
        self.y
    }

    /// Componentwise sum.
    pub fn plus(&self, other: &Point2) -> (r: Point2)
        requires
            i64::MIN <= self.x + other.x <= i64::MAX,
            i64::MIN <= self.y + other.y <= i64::MAX,
        ensures
            r.x == self.x + other.x,
            r.y == self.y + other.y,
    {
        Point2 { x: self.x + other.x, y: self.y + other.y }
    }

    /// Componentwise absolute value.
    pub fn abs(&self) -> (r: Point2)
        requires
            self.x > i64::MIN,
            self.y > i64::MIN,
        ensures
            r.x == crate::fixed::abs_int(self.x as int),
            r.y == crate::fixed::abs_int(self.y as int),
    {
        Point2 {
            x: if self.x >= 0 { self.x } else { -self.x },
            y: if self.y >= 0 { self.y } else { -self.y },
        }
    }

    pub open spec fn in_world(&self) -> bool {
        -POS_LIMIT <= self.x <= POS_LIMIT && -POS_LIMIT <= self.y <= POS_LIMIT
    }

    pub fn is_zero(&self) -> (r: bool)
        ensures
            r == (self.x == 0 && self.y == 0),
    {
        self.x == 0 && self.y == 0
    }
}

/// A discrete 2D point on the logical grid.
#[derive(Debug, Clone, Copy, PartialEq, Eq, Structural, Hash)]
pub struct Point2I {
    pub x: i64,
    pub y: i64,
}

impl Point2I {
    pub fn new(x: i64, y: i64) -> (r: Point2I)
        ensures
            r.x == x,
            r.y == y,
    {
        Point2I { x, y }
    }

    pub fn get_x(&self) -> (r: i64)
        ensures
            r == self.x,
    {
        self.x
    }

    pub fn get_y(&self) -> (r: i64)
        ensures
            r == self.y,
    {
        self.y
    }
}

/// A discrete 3D point: the logical circuit-grid coordinate.
#[derive(Debug, Clone, Copy, PartialEq, Eq, Structural, Hash)]
pub struct Point3I {
    pub x: i64,
    pub y: i64,
    pub z: i64,
}

impl Point3I {
    pub fn new(x: i64, y: i64, z: i64) -> (r: Point3I)
        ensures
            r.x == x,
            r.y == y,
            r.z == z,
    {
        Point3I { x, y, z }
    }

    pub fn zero() -> (r: Point3I)
        ensures
            r == (Point3I { x: 0, y: 0, z: 0 }),
    {
        Point3I { x: 0, y: 0, z: 0 }
    }

    pub fn get_x(&self) -> (r: i64)
        ensures
            r == self.x,
    {
        self.x
    }

    pub fn get_y(&self) -> (r: i64)
        ensures
            r == self.y,
    {
        self.y
    }

    pub fn get_z(&self) -> (r: i64)
        ensures
            r == self.z,
    {
        self.z
    }
}

/// A continuous 3D vector in fixed-point coordinates, used for
/// translations, scales and camera frames.
#[derive(Debug, Clone, Copy, PartialEq, Eq, Structural)]
pub struct Vec3 {
    pub x: i64,
    pub y: i64,
    pub z: i64,
}

impl Vec3 {
    pub fn new(x: i64, y: i64, z: i64) -> (r: Vec3)
        ensures
            r.x == x,
            r.y == y,
            r.z == z,
    {
        Vec3 { x, y, z }
    }

    pub open spec fn in_world(&self) -> bool {
        -POS_LIMIT <= self.x <= POS_LIMIT && -POS_LIMIT <= self.y <= POS_LIMIT
            && -POS_LIMIT <= self.z <= POS_LIMIT
    }
}

/// The segment between two continuous points.
#[derive(Debug, Clone, Copy, PartialEq, Eq, Structural)]
pub struct LineSeg {
    pub a: Point2,
    pub b: Point2,
}

impl LineSeg {
    pub fn new(a: Point2, b: Point2) -> (r: LineSeg)
        ensures
            r.a == a,
            r.b == b,
    {
        LineSeg { a, b }
    }

    pub fn new_from_coords(x0: i64, y0: i64, x1: i64, y1: i64) -> (r: LineSeg)
        ensures
            r.a == (Point2 { x: x0, y: y0 }),
            r.b == (Point2 { x: x1, y: y1 }),
    {
        LineSeg { a: Point2 { x: x0, y: y0 }, b: Point2 { x: x1, y: y1 } }
    }

    pub fn get_a(&self) -> (r: Point2)
        ensures
            r == self.a,
    {
        self.a
    }

    pub fn get_b(&self) -> (r: Point2)
        ensures
            r == self.b,
    {
        self.b
    }
}

/// An axis-aligned rectangle whose first corner lies strictly below
/// and left of its second.
#[derive(Debug, Clone, Copy, PartialEq, Eq, Structural)]
pub struct Rect {
    pub corners: LineSeg,
}

impl Rect {
    pub open spec fn wf(&self) -> bool {
        self.corners.a.x < self.corners.b.x && self.corners.a.y < self.corners.b.y
    }

    /// True when the point lies inside the rectangle, borders included.
    pub open spec fn contains(&self, p: Point2) -> bool {
        self.corners.a.x <= p.x && self.corners.a.y <= p.y && self.corners.b.x >= p.x
            && self.corners.b.y >= p.y
    }

    pub fn new(corners: LineSeg) -> (r: Rect)
        requires
            corners.a.x < corners.b.x,
            corners.a.y < corners.b.y,
        ensures
            r.corners == corners,
            r.wf(),
    {
        Rect { corners }
    }

    pub fn new_from_points(a: Point2, b: Point2) -> (r: Rect)
        requires
            a.x < b.x,
            a.y < b.y,
        ensures
            r.corners.a == a,
            r.corners.b == b,
            r.wf(),
    {
        Rect { corners: LineSeg { a, b } }
    }

    pub fn new_from_coords(x0: i64, y0: i64, x1: i64, y1: i64) -> (r: Rect)
        requires
            x0 < x1,
            y0 < y1,
        ensures
            r.corners.a == (Point2 { x: x0, y: y0 }),
            r.corners.b == (Point2 { x: x1, y: y1 }),
            r.wf(),
    {
        Rect { corners: LineSeg { a: Point2 { x: x0, y: y0 }, b: Point2 { x: x1, y: y1 } } }
    }

    pub fn get_corners(&self) -> (r: LineSeg)
        ensures
            r == self.corners,
    {
        self.corners
    }

    pub fn get_bot_left(&self) -> (r: Point2)
        ensures
            r == self.corners.a,
    {
        self.corners.a
    }

    pub fn get_top_right(&self) -> (r: Point2)
        ensures
            r == self.corners.b,
    {
        self.corners.b
    }

    /// Point-in-rectangle test, borders included.
    pub fn check_collide_point(&self, point: Point2) -> (r: bool)
        ensures
            r == self.contains(point),
    {
        self.corners.a.x <= point.x && self.corners.a.y <= point.y && self.corners.b.x >= point.x
            && self.corners.b.y >= point.y
    }
}

} // verus!
