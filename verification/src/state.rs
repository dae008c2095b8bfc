//! The canvas as a mathematical state machine: what each input event does to
//! the scene, the history and the interaction state.

use vstd::prelude::*;
use crate::color::Color;
use crate::geometry::{Point, Rect, UNIT};
use crate::image::ColorImageModel;
use crate::render::PrimitiveModel;
use crate::shapes::{ShapeModel, Stroke, ToolType};

verus! {

/// The undo stack holds at most this many snapshots.
pub const MAX_HISTORY: usize = 50;

/// Stroke width of a new canvas: two units.
pub const DEFAULT_STROKE_WIDTH: i32 = 2000;

/// Radius of the disc drawn by the number tool.
pub const NUMBER_RADIUS: i32 = 15_000;

/// Font size of committed text labels.
pub const TEXT_FONT_SIZE: i32 = 16_000;

/// A scene: shapes in z-order, later ones on top.
pub type Scene = Seq<ShapeModel>;

/// Everything the canvas remembers between events.
pub struct CanvasState {
    pub background: Option<ColorImageModel>,
    pub shapes: Scene,
    pub undo_stack: Seq<Scene>,
    pub redo_stack: Seq<Scene>,
    pub current_shape: Option<ShapeModel>,
    pub current_tool: ToolType,
    pub current_color: Color,
    pub current_stroke_width: i32,
    pub number_counter: u32,
    pub text_input: Seq<char>,
    pub text_input_pos: Option<Point>,
    pub drag_start: Option<Point>,
    pub selected: Option<int>,
}

/// The undo stack after a snapshot of `scene`: the snapshot goes on top, and
/// the oldest entry leaves once the stack would exceed [`MAX_HISTORY`].
pub open spec fn push_capped(undo: Seq<Scene>, scene: Scene) -> Seq<Scene> {
    let pushed = undo.push(scene);
    if pushed.len() > MAX_HISTORY {
        pushed.subrange(1, pushed.len() as int)
    } else {
        pushed
    }
}

/// Index of the topmost shape whose bounding box holds `p`, if any.
pub open spec fn topmost_hit(shapes: Scene, p: Point) -> Option<int>
    decreases shapes.len(),
{
    if shapes.len() == 0 {
        None
    } else if shapes.last().contains_point(p) {
        Some(shapes.len() - 1)
    } else {
        topmost_hit(shapes.drop_last(), p)
    }
}

/// The draw calls for a whole scene: those of each shape, bottom shape first.
pub open spec fn scene_primitives(shapes: Scene) -> Seq<PrimitiveModel>
    decreases shapes.len(),
{
    if shapes.len() == 0 {
        Seq::empty()
    } else {
        scene_primitives(shapes.drop_last()) + shapes.last().primitives()
    }
}

/// A composited image: a background bitmap and, to be drawn over it in
/// order, the draw calls of a scene.
pub struct ComposedImageModel {
    pub background: ColorImageModel,
    pub overlay: Seq<PrimitiveModel>,
}

/// Midpoint of two coordinates, rounded down.
pub open spec fn midpoint(a: i32, b: i32) -> i32 {
    ((a + b) / 2) as i32
}

/// Half the distance between two coordinates, rounded down.
pub open spec fn half_span(a: i32, b: i32) -> i32 {
    (if a <= b {
        (b - a) / 2
    } else {
        (a - b) / 2
    }) as i32
}

/// The zero-size shape a drawing tool starts at `pos`; `None` for the tools
/// that do not drag out a shape.
pub open spec fn started_shape(tool: ToolType, pos: Point, stroke: Stroke) -> Option<ShapeModel> {
    match tool {
        ToolType::Rectangle | ToolType::FilledRect => Some(
            ShapeModel::Rectangle {
                rect: Rect::spec_from_two_pos(pos, pos),
                stroke,
                filled: tool == ToolType::FilledRect,
            },
        ),
        ToolType::Ellipse | ToolType::FilledEllipse => Some(
            ShapeModel::Ellipse {
                center: pos,
                radius_x: 0,
                radius_y: 0,
                stroke,
                filled: tool == ToolType::FilledEllipse,
            },
        ),
        ToolType::Arrow => Some(ShapeModel::Arrow { start: pos, end: pos, stroke }),
        ToolType::Line => Some(ShapeModel::Line { points: seq![pos, pos], stroke }),
        ToolType::Curve => Some(ShapeModel::Curve { points: seq![pos], stroke }),
        _ => None,
    }
}

/// The shape in progress after the pointer moved to `pos`, the drag having
/// started at `start`.
pub open spec fn dragged_shape(shape: ShapeModel, start: Point, pos: Point) -> ShapeModel {
    match shape {
        ShapeModel::Rectangle { rect, stroke, filled } => ShapeModel::Rectangle {
            rect: Rect::spec_from_two_pos(start, pos),
            stroke,
            filled,
        },
        ShapeModel::Ellipse { center, radius_x, radius_y, stroke, filled } => ShapeModel::Ellipse {
            center: Point { x: midpoint(start.x, pos.x), y: midpoint(start.y, pos.y) },
            radius_x: half_span(start.x, pos.x),
            radius_y: half_span(start.y, pos.y),
            stroke,
            filled,
        },
        ShapeModel::Arrow { start: from, end, stroke } => ShapeModel::Arrow {
            start: from,
            end: pos,
            stroke,
        },
        ShapeModel::Line { points, stroke } => ShapeModel::Line {
            points: if points.len() > 0 {
                points.update(points.len() - 1, pos)
            } else {
                points
            },
            stroke,
        },
        ShapeModel::Curve { points, stroke } => ShapeModel::Curve {
            points: points.push(pos),
            stroke,
        },
        other => other,
    }
}

/// Whether a released shape is large enough to keep: its bounding box must
/// be wider or taller than one unit.
pub open spec fn exceeds_min_size(shape: ShapeModel) -> bool {
    shape.bounds().spec_width() > UNIT || shape.bounds().spec_height() > UNIT
}

impl ToolType {
    /// Whether pressing with this tool does anything. `Mosaic` and `Eraser`
    /// are declared but have no behaviour yet.
    pub open spec fn spec_is_implemented(self) -> bool {
        !(self == ToolType::Mosaic || self == ToolType::Eraser)
    }

    #[verifier::when_used_as_spec(spec_is_implemented)]
    pub fn is_implemented(self) -> (b: bool)
        ensures
            b == self.spec_is_implemented(),
    {
        match self {
            ToolType::Mosaic | ToolType::Eraser => false,
            _ => true,
        }
    }
}

impl CanvasState {
    /// The state of a new canvas.
    pub open spec fn initial() -> CanvasState {
        CanvasState {
            background: None,
            shapes: Seq::empty(),
            undo_stack: Seq::empty(),
            redo_stack: Seq::empty(),
            current_shape: None,
            current_tool: ToolType::Select,
            current_color: Color::spec_red(),
            current_stroke_width: DEFAULT_STROKE_WIDTH,
            number_counter: 1,
            text_input: Seq::empty(),
            text_input_pos: None,
            drag_start: None,
            selected: None,
        }
    }

    /// What holds of every state that a canvas can reach.
    pub open spec fn wf(self) -> bool {
        &&& self.undo_stack.len() + self.redo_stack.len() <= MAX_HISTORY
        &&& self.number_counter >= 1
        &&& (self.selected matches Some(i) ==> 0 <= i < self.shapes.len())
        &&& (self.current_shape is Some ==> self.drag_start is Some)
        &&& (self.current_shape matches Some(ShapeModel::Line { points, .. }) ==> points.len() == 2)
    }

    /// The composited image: the background with the draw calls of every
    /// committed shape over it; nothing without a background.
    pub open spec fn composed(self) -> Option<ComposedImageModel> {
        match self.background {
            Some(background) => Some(
                ComposedImageModel { background, overlay: scene_primitives(self.shapes) },
            ),
            None => None,
        }
    }

    /// What a frame shows over the background: the draw calls of the
    /// committed shapes, then those of the shape in progress.
    pub open spec fn frame_primitives(self) -> Seq<PrimitiveModel> {
        scene_primitives(self.shapes) + match self.current_shape {
            Some(shape) => shape.primitives(),
            None => Seq::empty(),
        }
    }

    /// The stroke that a new shape gets.
    pub open spec fn stroke(self) -> Stroke {
        Stroke { width: self.current_stroke_width, color: self.current_color }
    }

    /// Snapshot the scene, put `shape` on top of it and drop the redo
    /// history and the selection.
    pub open spec fn add_shape(self, shape: ShapeModel) -> CanvasState {
        CanvasState {
            shapes: self.shapes.push(shape),
            undo_stack: push_capped(self.undo_stack, self.shapes),
            redo_stack: Seq::empty(),
            selected: None,
            ..self
        }
    }

    /// Pointer pressed at `pos`.
    pub open spec fn press(self, pos: Point) -> CanvasState {
        match self.current_tool {
            ToolType::Mosaic | ToolType::Eraser => self,
            ToolType::Select => CanvasState {
                drag_start: Some(pos),
                selected: topmost_hit(self.shapes, pos),
                ..self
            },
            ToolType::Text => CanvasState {
                drag_start: Some(pos),
                text_input_pos: Some(pos),
                text_input: Seq::empty(),
                ..self
            },
            ToolType::Number => CanvasState {
                drag_start: Some(pos),
                number_counter: (self.number_counter + 1) as u32,
                ..self.add_shape(
                    ShapeModel::Number {
                        center: pos,
                        number: self.number_counter,
                        color: self.current_color,
                        radius: NUMBER_RADIUS,
                    },
                )
            },
            tool => CanvasState {
                drag_start: Some(pos),
                current_shape: started_shape(tool, pos, self.stroke()),
                ..self
            },
        }
    }

    /// Pointer moved to `pos` with the button held.
    pub open spec fn drag(self, pos: Point) -> CanvasState {
        match (self.drag_start, self.current_shape) {
            (Some(start), Some(shape)) => CanvasState {
                current_shape: Some(dragged_shape(shape, start, pos)),
                ..self
            },
            _ => self,
        }
    }

    /// Pointer released: the shape in progress is committed if it is large
    /// enough and dropped otherwise; the drag is over either way.
    pub open spec fn release(self) -> CanvasState {
        let ended = CanvasState { current_shape: None, drag_start: None, ..self };
        match self.current_shape {
            Some(shape) => if exceeds_min_size(shape) {
                ended.add_shape(shape)
            } else {
                ended
            },
            None => ended,
        }
    }

    /// Text entry finished: a non-empty buffer becomes a text label at the
    /// anchor; the anchor is given up in any case.
    pub open spec fn finish_text_input(self) -> CanvasState {
        match self.text_input_pos {
            Some(pos) => {
                let closed = CanvasState { text_input_pos: None, ..self };
                if self.text_input.len() > 0 {
                    CanvasState {
                        text_input: Seq::empty(),
                        ..closed.add_shape(
                            ShapeModel::Text {
                                pos,
                                text: self.text_input,
                                color: self.current_color,
                                font_size: TEXT_FONT_SIZE,
                            },
                        )
                    }
                } else {
                    closed
                }
            },
            None => self,
        }
    }

    /// Step back to the latest snapshot; nothing happens without one.
    pub open spec fn undo(self) -> CanvasState {
        if self.undo_stack.len() > 0 {
            CanvasState {
                shapes: self.undo_stack.last(),
                undo_stack: self.undo_stack.drop_last(),
                redo_stack: self.redo_stack.push(self.shapes),
                selected: None,
                ..self
            }
        } else {
            self
        }
    }

    /// Step forward again after an undo; nothing happens without one.
    pub open spec fn redo(self) -> CanvasState {
        if self.redo_stack.len() > 0 {
            CanvasState {
                shapes: self.redo_stack.last(),
                redo_stack: self.redo_stack.drop_last(),
                undo_stack: self.undo_stack.push(self.shapes),
                selected: None,
                ..self
            }
        } else {
            self
        }
    }

    /// Remove the selected shape, if one is selected and exists.
    pub open spec fn delete_selected(self) -> CanvasState {
        match self.selected {
            Some(i) if 0 <= i < self.shapes.len() => CanvasState {
                shapes: self.shapes.remove(i),
                undo_stack: push_capped(self.undo_stack, self.shapes),
                redo_stack: Seq::empty(),
                selected: None,
                ..self
            },
            _ => self,
        }
    }

    /// Remove every shape, if there is any.
    pub open spec fn clear_all(self) -> CanvasState {
        if self.shapes.len() > 0 {
            CanvasState {
                shapes: Seq::empty(),
                undo_stack: push_capped(self.undo_stack, self.shapes),
                redo_stack: Seq::empty(),
                selected: None,
                ..self
            }
        } else {
            self
        }
    }
}

} // verus!
