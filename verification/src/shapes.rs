//! The drawable shapes, their bounding boxes and hit test.

use vstd::prelude::*;
use crate::color::Color;
use crate::geometry::{Point, Rect};

verus! {

/// The tools a user can pick.
#[derive(Clone, Copy, Debug, PartialEq, Eq, Structural)]
pub enum ToolType {
    Select,
    Rectangle,
    FilledRect,
    Ellipse,
    FilledEllipse,
    Arrow,
    Line,
    Curve,
    Text,
    Mosaic,
    Eraser,
    Number,
}

/// Outline style: line width in sub-units, and colour.
#[derive(Clone, Copy, Debug, PartialEq, Eq, Structural)]
pub struct Stroke {
    pub width: i32,
    pub color: Color,
}

/// Nominal width of the box that stands for a text label when it is hit-tested.
pub const TEXT_BOX_WIDTH: i32 = 100_000;

/// Nominal height of the box that stands for a text label when it is hit-tested.
pub const TEXT_BOX_HEIGHT: i32 = 20_000;

/// A drawable annotation. `Line` and `Curve` are both polylines: a line keeps
/// its two end points, a curve gathers every point the pointer passed.
#[derive(Debug, PartialEq, Eq)]
pub enum DrawShape {
    Rectangle { rect: Rect, stroke: Stroke, filled: bool },
    Ellipse { center: Point, radius_x: i32, radius_y: i32, stroke: Stroke, filled: bool },
    Arrow { start: Point, end: Point, stroke: Stroke },
    Line { points: Vec<Point>, stroke: Stroke },
    Curve { points: Vec<Point>, stroke: Stroke },
    Text { pos: Point, text: String, color: Color, font_size: i32 },
    Number { center: Point, number: u32, color: Color, radius: i32 },
}

/// What a [`DrawShape`] is, with its points and text as sequences.
pub enum ShapeModel {
    Rectangle { rect: Rect, stroke: Stroke, filled: bool },
    Ellipse { center: Point, radius_x: i32, radius_y: i32, stroke: Stroke, filled: bool },
    Arrow { start: Point, end: Point, stroke: Stroke },
    Line { points: Seq<Point>, stroke: Stroke },
    Curve { points: Seq<Point>, stroke: Stroke },
    Text { pos: Point, text: Seq<char>, color: Color, font_size: i32 },
    Number { center: Point, number: u32, color: Color, radius: i32 },
}

/// The smallest rectangle that covers every point of `points`; the rectangle
/// that covers nothing where there is no point.
pub open spec fn envelope(points: Seq<Point>) -> Rect
    decreases points.len(),
{
    if points.len() == 0 {
        Rect::spec_nothing()
    } else {
        let rest = envelope(points.drop_last());
        Rect { min: rest.min.spec_min(points.last()), max: rest.max.spec_max(points.last()) }
    }
}

impl ShapeModel {
    /// The axis-aligned box used for hit-testing and for the minimum-size
    /// rule.
    pub open spec fn bounds(self) -> Rect {
        match self {
            ShapeModel::Rectangle { rect, .. } => rect,
            ShapeModel::Ellipse { center, radius_x, radius_y, .. } => Rect::spec_from_center_radii(
                center,
                radius_x,
                radius_y,
            ),
            ShapeModel::Arrow { start, end, .. } => Rect::spec_from_two_pos(start, end),
            ShapeModel::Line { points, .. } => envelope(points),
            ShapeModel::Curve { points, .. } => envelope(points),
            ShapeModel::Text { pos, .. } => Rect::spec_from_min_size(
                pos,
                TEXT_BOX_WIDTH,
                TEXT_BOX_HEIGHT,
            ),
            ShapeModel::Number { center, radius, .. } => Rect::spec_from_center_radii(
                center,
                radius,
                radius,
            ),
        }
    }

    /// Hit test: by bounding box only.
    pub open spec fn contains_point(self, p: Point) -> bool {
        self.bounds().spec_contains(p)
    }
}

impl View for DrawShape {
    type V = ShapeModel;

    open spec fn view(&self) -> ShapeModel {
        match self {
            DrawShape::Rectangle { rect, stroke, filled } => ShapeModel::Rectangle {
                rect: *rect,
                stroke: *stroke,
                filled: *filled,
            },
            DrawShape::Ellipse { center, radius_x, radius_y, stroke, filled } => {
                ShapeModel::Ellipse {
                    center: *center,
                    radius_x: *radius_x,
                    radius_y: *radius_y,
                    stroke: *stroke,
                    filled: *filled,
                }
            },
            DrawShape::Arrow { start, end, stroke } => ShapeModel::Arrow {
                start: *start,
                end: *end,
                stroke: *stroke,
            },
            DrawShape::Line { points, stroke } => ShapeModel::Line {
                points: points@,
                stroke: *stroke,
            },
            DrawShape::Curve { points, stroke } => ShapeModel::Curve {
                points: points@,
                stroke: *stroke,
            },
            DrawShape::Text { pos, text, color, font_size } => ShapeModel::Text {
                pos: *pos,
                text: text@,
                color: *color,
                font_size: *font_size,
            },
            DrawShape::Number { center, number, color, radius } => ShapeModel::Number {
                center: *center,
                number: *number,
                color: *color,
                radius: *radius,
            },
        }
    }
}

/// Bounding box of a polyline's points.
fn points_bounds(points: &Vec<Point>) -> (r: Rect)
    ensures
        r == envelope(points@),
{
    let mut r = Rect::nothing();
    let mut i: usize = 0;
    while i < points.len()
        invariant
            i <= points.len(),
            r == envelope(points@.subrange(0, i as int)),
        decreases points.len() - i,
    {
        let p = points[i];
        proof {
            assert(points@.subrange(0, i + 1).drop_last() =~= points@.subrange(0, i as int));
        }
        r = Rect { min: r.min.min(p), max: r.max.max(p) };
        i = i + 1;
    }
    proof {
        assert(points@.subrange(0, i as int) =~= points@);
    }
    r
}

/// Copies a point list.
pub fn copy_points(points: &Vec<Point>) -> (r: Vec<Point>)
    ensures
        r@ == points@,
{
    let mut r: Vec<Point> = Vec::new();
    let mut i: usize = 0;
    while i < points.len()
        invariant
            i <= points.len(),
            r@ == points@.subrange(0, i as int),
        decreases points.len() - i,
    {
        r.push(points[i]);
        i = i + 1;
    }
    r
}

impl Clone for DrawShape {
    fn clone(&self) -> (r: DrawShape)
        ensures
            r@ == self@,
    {
        match self {
            DrawShape::Rectangle { rect, stroke, filled } => DrawShape::Rectangle {
                rect: *rect,
                stroke: *stroke,
                filled: *filled,
            },
            DrawShape::Ellipse { center, radius_x, radius_y, stroke, filled } => {
                DrawShape::Ellipse {
                    center: *center,
                    radius_x: *radius_x,
                    radius_y: *radius_y,
                    stroke: *stroke,
                    filled: *filled,
                }
            },
            DrawShape::Arrow { start, end, stroke } => DrawShape::Arrow {
                start: *start,
                end: *end,
                stroke: *stroke,
            },
            DrawShape::Line { points, stroke } => DrawShape::Line {
                points: copy_points(points),
                stroke: *stroke,
            },
            DrawShape::Curve { points, stroke } => DrawShape::Curve {
                points: copy_points(points),
                stroke: *stroke,
            },
            DrawShape::Text { pos, text, color, font_size } => DrawShape::Text {
                pos: *pos,
                text: text.clone(),
                color: *color,
                font_size: *font_size,
            },
            DrawShape::Number { center, number, color, radius } => DrawShape::Number {
                center: *center,
                number: *number,
                color: *color,
                radius: *radius,
            },
        }
    }
}

impl DrawShape {
    /// The shape's bounding box.
    pub fn bounding_rect(&self) -> (r: Rect)
        ensures
            r == self@.bounds(),
    {
        match self {
            DrawShape::Rectangle { rect, .. } => *rect,
            DrawShape::Ellipse { center, radius_x, radius_y, .. } => Rect::from_center_radii(
                *center,
                *radius_x,
                *radius_y,
            ),
            DrawShape::Arrow { start, end, .. } => Rect::from_two_pos(*start, *end),
            DrawShape::Line { points, .. } => points_bounds(points),
            DrawShape::Curve { points, .. } => points_bounds(points),
            DrawShape::Text { pos, .. } => Rect::from_min_size(
                *pos,
                TEXT_BOX_WIDTH,
                TEXT_BOX_HEIGHT,
            ),
            DrawShape::Number { center, radius, .. } => Rect::from_center_radii(
                *center,
                *radius,
                *radius,
            ),
        }
    }

    /// Whether `point` hits the shape: whether its bounding box holds it.
    pub fn contains_point(&self, point: Point) -> (b: bool)
        ensures
            b == self@.contains_point(point),
    {
        self.bounding_rect().contains(point)
    }
}

} // verus!
