//! Plane geometry: integer points and half-open rectangular bounds.

use vstd::prelude::*;

verus! {

/// Where a point lies on the x axis, seen from another point.
#[derive(Copy, Clone, Debug, PartialEq, Eq, Structural)]
pub enum XPointRelation {
    LeftOfPoint,
    RightOfPoint,
    OnPointX,
}

/// Where a point lies on the y axis, seen from another point. The y axis
/// grows downwards, so a smaller y is above.
#[derive(Copy, Clone, Debug, PartialEq, Eq, Structural)]
pub enum YPointRelation {
    AbovePoint,
    BelowPoint,
    OnPointY,
}

/// Whether two points are the same point.
#[derive(Copy, Clone, Debug, PartialEq, Eq, Structural)]
pub enum PointEquality {
    PointsEqual,
    PointsNotEqual,
}

/// A cell of the plane: column `x`, row `y`.
#[derive(Copy, Clone, Debug, PartialEq, Eq, Structural)]
pub struct Point {
    pub x: i32,
    pub y: i32,
}

impl Point {
    /// The point at column `x`, row `y`.
    pub fn new(x: i32, y: i32) -> (p: Point)
        ensures
            p == (Point { x, y }),
    {
        Point { x, y }
    }

    /// The point `dx` columns to the right and `dy` rows below, when both
    /// coordinates still fit.
    pub open spec fn translated(self, dx: int, dy: int) -> Point
        recommends
            i32::MIN <= self.x + dx <= i32::MAX,
            i32::MIN <= self.y + dy <= i32::MAX,
    {
        Point { x: (self.x + dx) as i32, y: (self.y + dy) as i32 }
    }

    /// The point `offset` columns to the right.
    pub fn offset_x(&self, offset: i32) -> (p: Point)
        requires
            i32::MIN <= self.x + offset <= i32::MAX,
        ensures
            p.x == self.x + offset,
            p.y == self.y,
            p == self.translated(offset as int, 0),
    {
        Point { x: self.x + offset, y: self.y }
    }

    /// The point `offset` rows below.
    pub fn offset_y(&self, offset: i32) -> (p: Point)
        requires
            i32::MIN <= self.y + offset <= i32::MAX,
        ensures
            p.x == self.x,
            p.y == self.y + offset,
            p == self.translated(0, offset as int),
    {
        Point { x: self.x, y: self.y + offset }
    }

    /// The point as far from this one as `offset` is from the origin.
    pub fn offset(&self, offset: Point) -> (p: Point)
        requires
            i32::MIN <= self.x + offset.x <= i32::MAX,
            i32::MIN <= self.y + offset.y <= i32::MAX,
        ensures
            p.x == self.x + offset.x,
            p.y == self.y + offset.y,
            p == self.translated(offset.x as int, offset.y as int),
    {
        Point { x: self.x + offset.x, y: self.y + offset.y }
    }

    /// On which side of `point` this point lies along x.
    pub open spec fn x_relation(self, point: Point) -> XPointRelation {
        if self.x > point.x {
            XPointRelation::RightOfPoint
        } else if self.x < point.x {
            XPointRelation::LeftOfPoint
        } else {
            XPointRelation::OnPointX
        }
    }

    /// On which side of `point` this point lies along y.
    pub open spec fn y_relation(self, point: Point) -> YPointRelation {
        if self.y > point.y {
            YPointRelation::BelowPoint
        } else if self.y < point.y {
            YPointRelation::AbovePoint
        } else {
            YPointRelation::OnPointY
        }
    }

    /// On which side of `point` this point lies along x.
    pub fn compare_x(&self, point: Point) -> (r: XPointRelation)
        ensures
            r == self.x_relation(point),
            r == XPointRelation::RightOfPoint <==> self.x > point.x,
            r == XPointRelation::LeftOfPoint <==> self.x < point.x,
            r == XPointRelation::OnPointX <==> self.x == point.x,
    {
        if self.x > point.x {
            XPointRelation::RightOfPoint
        } else if self.x < point.x {
            XPointRelation::LeftOfPoint
        } else {
            XPointRelation::OnPointX
        }
    }

    /// On which side of `point` this point lies along y.
    pub fn compare_y(&self, point: Point) -> (r: YPointRelation)
        ensures
            r == self.y_relation(point),
            r == YPointRelation::BelowPoint <==> self.y > point.y,
            r == YPointRelation::AbovePoint <==> self.y < point.y,
            r == YPointRelation::OnPointY <==> self.y == point.y,
    {
        if self.y > point.y {
            YPointRelation::BelowPoint
        } else if self.y < point.y {
            YPointRelation::AbovePoint
        } else {
            YPointRelation::OnPointY
        }
    }

    /// Whether the two points are the same point.
    pub fn compare(&self, point: Point) -> (r: PointEquality)
        ensures
            r == PointEquality::PointsEqual <==> *self == point,
            r == PointEquality::PointsNotEqual <==> *self != point,
    {
        if self.x == point.x && self.y == point.y {
            PointEquality::PointsEqual
        } else {
            PointEquality::PointsNotEqual
        }
    }
}

/// Whether a bound holds a point.
#[derive(Copy, Clone, Debug, PartialEq, Eq, Structural)]
pub enum Contains {
    DoesContain,
    DoesNotContain,
}

/// An axis-aligned rectangle: `min` is its first cell, `max` lies just
/// outside on both axes.
#[derive(Copy, Clone, Debug, PartialEq, Eq, Structural)]
pub struct Bound {
    pub min: Point,
    pub max: Point,
}

impl Bound {
    /// The rectangle from `(min_x, min_y)` up to, but not including,
    /// `(max_x, max_y)`.
    pub open spec fn at(min_x: i32, min_y: i32, max_x: i32, max_y: i32) -> Bound {
        Bound { min: Point { x: min_x, y: min_y }, max: Point { x: max_x, y: max_y } }
    }

    /// The rectangle from `(min_x, min_y)` up to, but not including,
    /// `(max_x, max_y)`.
    pub fn new(min_x: i32, min_y: i32, max_x: i32, max_y: i32) -> (b: Bound)
        ensures
            b == Bound::at(min_x, min_y, max_x, max_y),
    {
        Bound { min: Point { x: min_x, y: min_y }, max: Point { x: max_x, y: max_y } }
    }

    /// Whether the cell `(x, y)` lies inside. Stated over all integers, so
    /// that it also answers for cells no `Point` can name.
    pub open spec fn holds(self, x: int, y: int) -> bool {
        self.min.x <= x < self.max.x && self.min.y <= y < self.max.y
    }

    /// Whether `point` lies inside.
    pub open spec fn spec_contains(self, point: Point) -> bool {
        self.holds(point.x as int, point.y as int)
    }

    /// Whether `point` lies inside: on each axis from `min` up to, but not
    /// including, `max`.
    pub fn contains(&self, point: Point) -> (r: Contains)
        ensures
            r == Contains::DoesContain <==> self.min.x <= point.x < self.max.x && self.min.y
                <= point.y < self.max.y,
            r == Contains::DoesNotContain <==> !self.spec_contains(point),
    {
        if point.x >= self.min.x && point.x < self.max.x && point.y >= self.min.y && point.y
            < self.max.y {
            Contains::DoesContain
        } else {
            Contains::DoesNotContain
        }
    }
}

} // verus!
