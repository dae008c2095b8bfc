//! Decomposition of shapes into the fill and stroke primitives that a
//! rendering backend draws.

use vstd::prelude::*;
use crate::arith::{
    div_toward_zero, divide_toward_zero, integer_sqrt, isqrt, lemma_isqrt_of_sum_of_squares,
};
use crate::color::Color;
use crate::geometry::{clip, clip_coord, Point, Rect};
use crate::shapes::{copy_points, DrawShape, ShapeModel, Stroke};

verus! {

/// Length of an arrowhead along the shaft: ten units.
pub const ARROW_HEAD_LENGTH: i32 = 10_000;

/// Reach of an arrowhead to either side of the shaft: five units.
pub const ARROW_HEAD_HALF_WIDTH: i32 = 5_000;

/// Width of the outline that stands for a text label: one unit.
pub const TEXT_OUTLINE_WIDTH: i32 = 1_000;

/// One draw call.
#[derive(Debug, PartialEq, Eq)]
pub enum Primitive {
    RectFilled { rect: Rect, color: Color },
    RectStroke { rect: Rect, stroke: Stroke },
    EllipseFilled { center: Point, radius_x: i32, radius_y: i32, color: Color },
    EllipseStroke { center: Point, radius_x: i32, radius_y: i32, stroke: Stroke },
    LineSegment { from: Point, to: Point, stroke: Stroke },
    Path { points: Vec<Point>, stroke: Stroke },
    CircleFilled { center: Point, radius: i32, color: Color },
}

/// What a [`Primitive`] is, with the points of a path as a sequence.
pub enum PrimitiveModel {
    RectFilled { rect: Rect, color: Color },
    RectStroke { rect: Rect, stroke: Stroke },
    EllipseFilled { center: Point, radius_x: i32, radius_y: i32, color: Color },
    EllipseStroke { center: Point, radius_x: i32, radius_y: i32, stroke: Stroke },
    LineSegment { from: Point, to: Point, stroke: Stroke },
    Path { points: Seq<Point>, stroke: Stroke },
    CircleFilled { center: Point, radius: i32, color: Color },
}

impl View for Primitive {
    type V = PrimitiveModel;

    open spec fn view(&self) -> PrimitiveModel {
        match self {
            Primitive::RectFilled { rect, color } => PrimitiveModel::RectFilled {
                rect: *rect,
                color: *color,
            },
            Primitive::RectStroke { rect, stroke } => PrimitiveModel::RectStroke {
                rect: *rect,
                stroke: *stroke,
            },
            Primitive::EllipseFilled { center, radius_x, radius_y, color } => {
                PrimitiveModel::EllipseFilled {
                    center: *center,
                    radius_x: *radius_x,
                    radius_y: *radius_y,
                    color: *color,
                }
            },
            Primitive::EllipseStroke { center, radius_x, radius_y, stroke } => {
                PrimitiveModel::EllipseStroke {
                    center: *center,
                    radius_x: *radius_x,
                    radius_y: *radius_y,
                    stroke: *stroke,
                }
            },
            Primitive::LineSegment { from, to, stroke } => PrimitiveModel::LineSegment {
                from: *from,
                to: *to,
                stroke: *stroke,
            },
            Primitive::Path { points, stroke } => PrimitiveModel::Path {
                points: points@,
                stroke: *stroke,
            },
            Primitive::CircleFilled { center, radius, color } => PrimitiveModel::CircleFilled {
                center: *center,
                radius: *radius,
                color: *color,
            },
        }
    }
}

/// The draw calls that a list of primitives stands for.
pub open spec fn primitives_model(list: Seq<Primitive>) -> Seq<PrimitiveModel> {
    Seq::new(list.len(), |i: int| list[i]@)
}

/// Tip of one barb of the arrowhead of an arrow from `start` to `end`,
/// `side` being `1` for the one barb and `-1` for the other. The barb runs
/// back from `end` along the shaft by [`ARROW_HEAD_LENGTH`] and sideways by
/// [`ARROW_HEAD_HALF_WIDTH`], both scaled by the shaft's direction, whose
/// length is taken as an integer square root.
pub open spec fn arrow_barb(start: Point, end: Point, side: int) -> Point {
    let dx = end.x - start.x;
    let dy = end.y - start.y;
    let len = isqrt((dx * dx + dy * dy) as nat) as int;
    Point {
        x: clip(
            end.x - div_toward_zero(
                ARROW_HEAD_LENGTH * dx + side * ARROW_HEAD_HALF_WIDTH * dy,
                len,
            ),
        ),
        y: clip(
            end.y - div_toward_zero(
                ARROW_HEAD_LENGTH * dy - side * ARROW_HEAD_HALF_WIDTH * dx,
                len,
            ),
        ),
    }
}

/// Length of `text` in bytes of UTF-8, as a machine word.
pub open spec fn utf8_len(text: Seq<char>) -> usize {
    vstd::utf8::encode_utf8(text).len() as usize
}

/// Width of the outline that stands for a text of `bytes` bytes at the given
/// font size: six tenths of the font size for each byte.
pub open spec fn text_outline_width(bytes: nat, font_size: i32) -> i32 {
    clip(div_toward_zero(bytes * font_size * 6, 10))
}

impl ShapeModel {
    /// The draw calls for this shape, in drawing order.
    pub open spec fn primitives(self) -> Seq<PrimitiveModel> {
        match self {
            ShapeModel::Rectangle { rect, stroke, filled } => if filled {
                seq![PrimitiveModel::RectFilled { rect, color: stroke.color }]
            } else {
                seq![PrimitiveModel::RectStroke { rect, stroke }]
            },
            ShapeModel::Ellipse { center, radius_x, radius_y, stroke, filled } => if filled {
                seq![
                    PrimitiveModel::EllipseFilled { center, radius_x, radius_y, color: stroke.color },
                ]
            } else {
                seq![PrimitiveModel::EllipseStroke { center, radius_x, radius_y, stroke }]
            },
            ShapeModel::Arrow { start, end, stroke } => if start == end {
                seq![PrimitiveModel::LineSegment { from: start, to: end, stroke }]
            } else {
                seq![
                    PrimitiveModel::LineSegment { from: start, to: end, stroke },
                    PrimitiveModel::LineSegment {
                        from: end,
                        to: arrow_barb(start, end, 1),
                        stroke,
                    },
                    PrimitiveModel::LineSegment {
                        from: end,
                        to: arrow_barb(start, end, -1),
                        stroke,
                    },
                ]
            },
            ShapeModel::Line { points, stroke } => if points.len() < 2 {
                seq![]
            } else {
                seq![PrimitiveModel::Path { points, stroke }]
            },
            ShapeModel::Curve { points, stroke } => if points.len() < 2 {
                seq![]
            } else {
                seq![PrimitiveModel::Path { points, stroke }]
            },
            ShapeModel::Text { pos, text, color, font_size } => seq![
                PrimitiveModel::RectStroke {
                    rect: Rect::spec_from_min_size(
                        pos,
                        text_outline_width(utf8_len(text) as nat, font_size),
                        font_size,
                    ),
                    stroke: Stroke { width: TEXT_OUTLINE_WIDTH, color },
                },
            ],
            ShapeModel::Number { center, radius, color, .. } => seq![
                PrimitiveModel::CircleFilled { center, radius, color },
            ],
        }
    }
}

/// Computes both barbs of an arrowhead.
fn arrow_barbs(start: Point, end: Point) -> (barbs: (Point, Point))
    requires
        start != end,
    ensures
        barbs.0 == arrow_barb(start, end, 1),
        barbs.1 == arrow_barb(start, end, -1),
{
    let dx: i128 = end.x as i128 - start.x as i128;
    let dy: i128 = end.y as i128 - start.y as i128;
    assert(0 <= dx * dx <= 0x1_0000_0000 * 0x1_0000_0000) by (nonlinear_arith)
        requires
            -0x1_0000_0000 <= dx <= 0x1_0000_0000,
    ;
    assert(0 <= dy * dy <= 0x1_0000_0000 * 0x1_0000_0000) by (nonlinear_arith)
        requires
            -0x1_0000_0000 <= dy <= 0x1_0000_0000,
    ;
    let squares: i128 = dx * dx + dy * dy;
    let len: i128 = integer_sqrt(squares as u128) as i128;
    proof {
        lemma_isqrt_of_sum_of_squares(dx as int, dy as int, len as nat);
    }
    let length: i128 = ARROW_HEAD_LENGTH as i128;
    let half_width: i128 = ARROW_HEAD_HALF_WIDTH as i128;
    let along_x: i128 = length * dx;
    let along_y: i128 = length * dy;
    let across_x: i128 = half_width * dy;
    let across_y: i128 = half_width * dx;
    let left = Point {
        x: barb_coord(end.x, along_x + across_x, len),
        y: barb_coord(end.y, along_y - across_y, len),
    };
    let right = Point {
        x: barb_coord(end.x, along_x - across_x, len),
        y: barb_coord(end.y, along_y + across_y, len),
    };
    (left, right)
}

/// One coordinate of a barb: `base` less `offset / len`, clipped.
fn barb_coord(base: i32, offset: i128, len: i128) -> (c: i32)
    requires
        len > 0,
        -0x1_0000_0000_0000 <= offset <= 0x1_0000_0000_0000,
    ensures
        c == clip(base - div_toward_zero(offset as int, len as int)),
{
    let q: i128 = divide_toward_zero(offset, len);
    clip_coord((base as i128 - q) as i64)
}

/// Computes the width of the outline that stands for a text.
fn outline_width(bytes: usize, font_size: i32) -> (w: i32)
    ensures
        w == text_outline_width(bytes as nat, font_size),
{
    assert(-0x8000_0000 * 0xFFFF_FFFF_FFFF_FFFF <= bytes * font_size <= 0x8000_0000
        * 0xFFFF_FFFF_FFFF_FFFF) by (nonlinear_arith)
        requires
            0 <= bytes <= 0xFFFF_FFFF_FFFF_FFFF,
            -0x8000_0000 <= font_size <= 0x8000_0000,
    ;
    let product: i128 = bytes as i128 * font_size as i128 * 6;
    let q: i128 = divide_toward_zero(product, 10);
    if q < i32::MIN as i128 {
        i32::MIN
    } else if q > i32::MAX as i128 {
        i32::MAX
    } else {
        q as i32
    }
}

impl DrawShape {
    /// Decomposes the shape into draw calls. A rectangle or an ellipse is
    /// one fill or one outline; an arrow is its shaft and, unless it has no
    /// length, two barbs at its end; a line or a curve is one path through
    /// its points, or nothing with fewer than two points; a text label is
    /// the outline of the box it takes up; a number is a filled disc.
    pub fn to_egui_shape(&self) -> (list: Vec<Primitive>)
        ensures
            primitives_model(list@) == self@.primitives(),
    {
        let mut list: Vec<Primitive> = Vec::new();
        match self {
            DrawShape::Rectangle { rect, stroke, filled } => {
                if *filled {
                    list.push(Primitive::RectFilled { rect: *rect, color: stroke.color });
                } else {
                    list.push(Primitive::RectStroke { rect: *rect, stroke: *stroke });
                }
            },
            DrawShape::Ellipse { center, radius_x, radius_y, stroke, filled } => {
                if *filled {
                    list.push(
                        Primitive::EllipseFilled {
                            center: *center,
                            radius_x: *radius_x,
                            radius_y: *radius_y,
                            color: stroke.color,
                        },
                    );
                } else {
                    list.push(
                        Primitive::EllipseStroke {
                            center: *center,
                            radius_x: *radius_x,
                            radius_y: *radius_y,
                            stroke: *stroke,
                        },
                    );
                }
            },
            DrawShape::Arrow { start, end, stroke } => {
                list.push(Primitive::LineSegment { from: *start, to: *end, stroke: *stroke });
                if !(start.x == end.x && start.y == end.y) {
                    let (left, right) = arrow_barbs(*start, *end);
                    list.push(Primitive::LineSegment { from: *end, to: left, stroke: *stroke });
                    list.push(Primitive::LineSegment { from: *end, to: right, stroke: *stroke });
                }
            },
            DrawShape::Line { points, stroke } => {
                if points.len() >= 2 {
                    list.push(Primitive::Path { points: copy_points(points), stroke: *stroke });
                }
            },
            DrawShape::Curve { points, stroke } => {
                if points.len() >= 2 {
                    list.push(Primitive::Path { points: copy_points(points), stroke: *stroke });
                }
            },
            DrawShape::Text { pos, text, color, font_size } => {
                let width = outline_width(text.as_str().len(), *font_size);
                list.push(
                    Primitive::RectStroke {
                        rect: Rect::from_min_size(*pos, width, *font_size),
                        stroke: Stroke { width: TEXT_OUTLINE_WIDTH, color: *color },
                    },
                );
            },
            DrawShape::Number { center, radius, color, .. } => {
                list.push(
                    Primitive::CircleFilled { center: *center, radius: *radius, color: *color },
                );
            },
        }
        list
    }
}

} // verus!
