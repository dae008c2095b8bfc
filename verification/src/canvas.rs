//! The canvas: owner of the scene, the history and the interaction state.
//! Every method is a transition of the state machine in [`crate::state`].

use vstd::prelude::*;
use crate::color::Color;
use crate::geometry::{Point, Rect, UNIT};
use crate::image::{ColorImage, ColorImageModel};
use crate::render::{primitives_model, Primitive};
use crate::shapes::{DrawShape, ShapeModel, Stroke, ToolType};
use crate::state::{
    half_span, midpoint, scene_primitives, topmost_hit, CanvasState, ComposedImageModel, Scene,
    DEFAULT_STROKE_WIDTH, MAX_HISTORY, NUMBER_RADIUS, TEXT_FONT_SIZE,
};

verus! {

/// The scene that a list of shapes stands for.
pub open spec fn scene_model(shapes: Seq<DrawShape>) -> Scene {
    Seq::new(shapes.len(), |i: int| shapes[i]@)
}

/// The snapshots that a history stack stands for, oldest first.
pub open spec fn history_model(stack: Seq<Vec<DrawShape>>) -> Seq<Scene> {
    Seq::new(stack.len(), |i: int| scene_model(stack[i]@))
}

/// The model of an optional index.
pub open spec fn index_model(index: Option<usize>) -> Option<int> {
    match index {
        Some(i) => Some(i as int),
        None => None,
    }
}

/// The model of an optional shape.
pub open spec fn shape_option_model(shape: Option<DrawShape>) -> Option<ShapeModel> {
    match shape {
        Some(s) => Some(s@),
        None => None,
    }
}

/// The model of an optional image.
pub open spec fn image_option_model(image: Option<ColorImage>) -> Option<ColorImageModel> {
    match image {
        Some(img) => Some(img@),
        None => None,
    }
}

/// A composited image: the background bitmap and the draw calls that go over
/// it, bottom one first.
#[derive(Debug, PartialEq, Eq)]
pub struct ComposedImage {
    pub background: ColorImage,
    pub overlay: Vec<Primitive>,
}

impl View for ComposedImage {
    type V = ComposedImageModel;

    open spec fn view(&self) -> ComposedImageModel {
        ComposedImageModel {
            background: self.background@,
            overlay: primitives_model(self.overlay@),
        }
    }
}

/// The model of an optional composited image.
pub open spec fn composed_option_model(image: Option<ComposedImage>) -> Option<ComposedImageModel> {
    match image {
        Some(img) => Some(img@),
        None => None,
    }
}

/// Annotation canvas over a captured screenshot.
pub struct Canvas {
    background_image: Option<ColorImage>,
    shapes: Vec<DrawShape>,
    undo_stack: Vec<Vec<DrawShape>>,
    redo_stack: Vec<Vec<DrawShape>>,
    current_shape: Option<DrawShape>,
    current_tool: ToolType,
    current_color: Color,
    current_stroke_width: i32,
    number_counter: u32,
    text_input: String,
    text_input_pos: Option<Point>,
    drag_start: Option<Point>,
    selected_shape_index: Option<usize>,
}

impl View for Canvas {
    type V = CanvasState;

    closed spec fn view(&self) -> CanvasState {
        CanvasState {
            background: image_option_model(self.background_image),
            shapes: scene_model(self.shapes@),
            undo_stack: history_model(self.undo_stack@),
            redo_stack: history_model(self.redo_stack@),
            current_shape: shape_option_model(self.current_shape),
            current_tool: self.current_tool,
            current_color: self.current_color,
            current_stroke_width: self.current_stroke_width,
            number_counter: self.number_counter,
            text_input: self.text_input@,
            text_input_pos: self.text_input_pos,
            drag_start: self.drag_start,
            selected: index_model(self.selected_shape_index),
        }
    }
}

/// A deep copy of a scene.
pub fn clone_scene(shapes: &Vec<DrawShape>) -> (copy: Vec<DrawShape>)
    ensures
        scene_model(copy@) == scene_model(shapes@),
{
    let mut copy: Vec<DrawShape> = Vec::new();
    let mut i: usize = 0;
    while i < shapes.len()
        invariant
            i <= shapes.len(),
            copy.len() == i,
            forall|j: int| 0 <= j < i ==> copy[j]@ == shapes[j]@,
        decreases shapes.len() - i,
    {
        copy.push(shapes[i].clone());
        i = i + 1;
    }
    copy
}

fn midpoint_of(a: i32, b: i32) -> (m: i32)
    ensures
        m == midpoint(a, b),
{
    let lo: i64 = if a <= b { a as i64 } else { b as i64 };
    let hi: i64 = if a <= b { b as i64 } else { a as i64 };
    (lo + (hi - lo) / 2) as i32
}

fn half_span_of(a: i32, b: i32) -> (h: i32)
    ensures
        h == half_span(a, b),
{
    let lo: i64 = if a <= b { a as i64 } else { b as i64 };
    let hi: i64 = if a <= b { b as i64 } else { a as i64 };
    ((hi - lo) / 2) as i32
}

impl Default for Canvas {
    fn default() -> (canvas: Canvas)
        ensures
            canvas@ == CanvasState::initial(),
    {
        Canvas::new()
    }
}

impl Canvas {
    /// An empty canvas: no shapes, no history, the select tool, red, a
    /// stroke two units wide, and the number counter at one.
    pub fn new() -> (canvas: Canvas)
        ensures
            canvas@ == CanvasState::initial(),
            canvas@.wf(),
    {
        let canvas = Canvas {
            background_image: None,
            shapes: Vec::new(),
            undo_stack: Vec::new(),
            redo_stack: Vec::new(),
            current_shape: None,
            current_tool: ToolType::Select,
            current_color: Color::red(),
            current_stroke_width: DEFAULT_STROKE_WIDTH,
            number_counter: 1,
            text_input: String::new(),
            text_input_pos: None,
            drag_start: None,
            selected_shape_index: None,
        };
        assert(canvas@.shapes =~= Seq::empty());
        assert(canvas@.undo_stack =~= Seq::empty());
        canvas
    }

    /// Sets the captured bitmap that the shapes are drawn over.
    pub fn set_background(&mut self, image: ColorImage)
        ensures
            final(self)@ == (CanvasState { background: Some(image@), ..old(self)@ }),
            old(self)@.wf() ==> final(self)@.wf(),
    {
        self.background_image = Some(image);
    }

    /// The draw calls of every committed shape, bottom shape first.
    pub fn scene_draw_list(&self) -> (list: Vec<Primitive>)
        ensures
            primitives_model(list@) == scene_primitives(self@.shapes),
    {
        let mut list: Vec<Primitive> = Vec::new();
        let mut i: usize = 0;
        while i < self.shapes.len()
            invariant
                i <= self.shapes.len(),
                primitives_model(list@) == scene_primitives(
                    scene_model(self.shapes@).subrange(0, i as int),
                ),
            decreases self.shapes.len() - i,
        {
            let mut part = self.shapes[i].to_egui_shape();
            list.append(&mut part);
            assert(scene_model(self.shapes@).subrange(0, i + 1).drop_last() =~= scene_model(
                self.shapes@,
            ).subrange(0, i as int));
            i = i + 1;
        }
        assert(scene_model(self.shapes@).subrange(0, i as int) =~= scene_model(self.shapes@));
        list
    }

    /// The draw calls for one frame: those of the committed shapes, bottom
    /// shape first, then those of the shape in progress.
    pub fn frame_draw_list(&self) -> (list: Vec<Primitive>)
        ensures
            primitives_model(list@) == self@.frame_primitives(),
    {
        let mut list = self.scene_draw_list();
        if let Some(shape) = &self.current_shape {
            let ghost committed = list@;
            let mut part = shape.to_egui_shape();
            let ghost added = part@;
            list.append(&mut part);
            assert(primitives_model(list@) =~= primitives_model(committed) + primitives_model(
                added,
            ));
        } else {
            assert(primitives_model(list@) =~= primitives_model(list@) + Seq::empty());
        }
        list
    }

    /// The composited image for export: a copy of the background together
    /// with the draw calls of every committed shape, to be drawn over it in
    /// order. Returns nothing when no background is set.
    pub fn render_to_image(&self) -> (image: Option<ComposedImage>)
        ensures
            composed_option_model(image) == self@.composed(),
    {
        match &self.background_image {
            Some(background) => Some(
                ComposedImage { background: background.clone(), overlay: self.scene_draw_list() },
            ),
            None => None,
        }
    }

    /// Pushes a deep copy of the scene onto the undo stack and evicts the
    /// oldest snapshot once the stack exceeds its cap.
    fn save_state(&mut self)
        ensures
            final(self)@ == (CanvasState {
                undo_stack: crate::state::push_capped(old(self)@.undo_stack, old(self)@.shapes),
                ..old(self)@
            }),
    {
        let snapshot = clone_scene(&self.shapes);
        self.undo_stack.push(snapshot);
        assert(history_model(self.undo_stack@) =~= old(self)@.undo_stack.push(old(self)@.shapes));
        if self.undo_stack.len() > MAX_HISTORY {
            self.undo_stack.remove(0);
            assert(history_model(self.undo_stack@) =~= crate::state::push_capped(
                old(self)@.undo_stack,
                old(self)@.shapes,
            ));
        }
    }

    /// Adds `shape` on top of the scene. The scene before the call becomes
    /// an undo snapshot, and the redo history and the selection are dropped.
    pub fn add_shape(&mut self, shape: DrawShape)
        ensures
            final(self)@ == old(self)@.add_shape(shape@),
            old(self)@.wf() ==> final(self)@.wf(),
    {
        self.save_state();
        self.shapes.push(shape);
        self.redo_stack.clear();
        self.selected_shape_index = None;
        assert(scene_model(self.shapes@) =~= old(self)@.shapes.push(shape@));
        assert(history_model(self.redo_stack@) =~= Seq::empty());
    }

    /// Index of the topmost shape whose bounding box holds `pos`.
    fn hit_test(&self, pos: Point) -> (hit: Option<usize>)
        ensures
            index_model(hit) == topmost_hit(self@.shapes, pos),
    {
        let mut i: usize = self.shapes.len();
        assert(scene_model(self.shapes@).subrange(0, i as int) =~= scene_model(self.shapes@));
        while i > 0
            invariant
                i <= self.shapes.len(),
                topmost_hit(self@.shapes, pos) == topmost_hit(
                    scene_model(self.shapes@).subrange(0, i as int),
                    pos,
                ),
            decreases i,
        {
            let ghost upto = scene_model(self.shapes@).subrange(0, i as int);
            i = i - 1;
            assert(upto.drop_last() =~= scene_model(self.shapes@).subrange(0, i as int));
            if self.shapes[i].contains_point(pos) {
                return Some(i);
            }
        }
        None
    }

    /// Pointer pressed at `pos`. What happens depends on the current tool:
    /// the select tool picks the topmost shape under the pointer, a drawing
    /// tool starts a zero-size shape, the text tool opens text entry, and the
    /// number tool places the next numbered marker at once. Returns whether
    /// the tool is implemented; the others leave the canvas as it is.
    pub fn on_mouse_press(&mut self, pos: Point) -> (handled: bool)
        requires
            old(self)@.current_tool == ToolType::Number ==> old(self)@.number_counter < u32::MAX,
        ensures
            final(self)@ == old(self)@.press(pos),
            handled == old(self)@.current_tool.is_implemented(),
            old(self)@.wf() ==> final(self)@.wf(),
    {
        let stroke = Stroke { width: self.current_stroke_width, color: self.current_color };
        match self.current_tool {
            ToolType::Mosaic | ToolType::Eraser => {
                return false;
            },
            ToolType::Select => {
                self.selected_shape_index = self.hit_test(pos);
                proof {
                    lemma_hit_in_range(self@.shapes, pos);
                }
            },
            ToolType::Rectangle | ToolType::FilledRect => {
                self.current_shape = Some(
                    DrawShape::Rectangle {
                        rect: Rect::from_two_pos(pos, pos),
                        stroke,
                        filled: self.current_tool == ToolType::FilledRect,
                    },
                );
            },
            ToolType::Ellipse | ToolType::FilledEllipse => {
                self.current_shape = Some(
                    DrawShape::Ellipse {
                        center: pos,
                        radius_x: 0,
                        radius_y: 0,
                        stroke,
                        filled: self.current_tool == ToolType::FilledEllipse,
                    },
                );
            },
            ToolType::Arrow => {
                self.current_shape = Some(DrawShape::Arrow { start: pos, end: pos, stroke });
            },
            ToolType::Line => {
                let mut points: Vec<Point> = Vec::new();
                points.push(pos);
                points.push(pos);
                assert(points@ =~= seq![pos, pos]);
                self.current_shape = Some(DrawShape::Line { points, stroke });
            },
            ToolType::Curve => {
                let mut points: Vec<Point> = Vec::new();
                points.push(pos);
                self.current_shape = Some(DrawShape::Curve { points, stroke });
            },
            ToolType::Text => {
                self.text_input_pos = Some(pos);
                self.text_input = String::new();
            },
            ToolType::Number => {
                let number = self.number_counter;
                self.add_shape(
                    DrawShape::Number {
                        center: pos,
                        number,
                        color: self.current_color,
                        radius: NUMBER_RADIUS,
                    },
                );
                self.number_counter = number + 1;
            },
        }
        self.drag_start = Some(pos);
        true
    }

    /// Pointer moved to `pos` during a drag: the shape in progress follows.
    /// A rectangle spans anchor and pointer, an ellipse is inscribed between
    /// them, an arrow and a line end at the pointer, a curve gains a point.
    pub fn on_mouse_drag(&mut self, pos: Point)
        ensures
            final(self)@ == old(self)@.drag(pos),
            old(self)@.wf() ==> final(self)@.wf(),
    {
        if let Some(start) = self.drag_start {
            let shape = self.current_shape.take();
            self.current_shape = match shape {
                Some(DrawShape::Rectangle { rect, stroke, filled }) => Some(
                    DrawShape::Rectangle { rect: Rect::from_two_pos(start, pos), stroke, filled },
                ),
                Some(DrawShape::Ellipse { center, radius_x, radius_y, stroke, filled }) => Some(
                    DrawShape::Ellipse {
                        center: Point {
                            x: midpoint_of(start.x, pos.x),
                            y: midpoint_of(start.y, pos.y),
                        },
                        radius_x: half_span_of(start.x, pos.x),
                        radius_y: half_span_of(start.y, pos.y),
                        stroke,
                        filled,
                    },
                ),
                Some(DrawShape::Arrow { start: from, end, stroke }) => Some(
                    DrawShape::Arrow { start: from, end: pos, stroke },
                ),
                Some(DrawShape::Line { points, stroke }) => {
                    let mut points = points;
                    let n = points.len();
                    if n > 0 {
                        points.set(n - 1, pos);
                    }
                    Some(DrawShape::Line { points, stroke })
                },
                Some(DrawShape::Curve { points, stroke }) => {
                    let mut points = points;
                    points.push(pos);
                    Some(DrawShape::Curve { points, stroke })
                },
                other => other,
            };
        }
    }

    /// Pointer released. A shape in progress whose bounding box is wider or
    /// taller than one unit is added to the scene; a smaller one is dropped
    /// as an accidental click. The drag ends either way.
    pub fn on_mouse_release(&mut self)
        ensures
            final(self)@ == old(self)@.release(),
            old(self)@.wf() ==> final(self)@.wf(),
    {
        let shape = self.current_shape.take();
        self.drag_start = None;
        if let Some(shape) = shape {
            let bounds = shape.bounding_rect();
            if bounds.width() > UNIT as i64 || bounds.height() > UNIT as i64 {
                self.add_shape(shape);
            }
        }
    }

    /// Ends text entry. A non-empty buffer is committed as a text label at
    /// the anchor, in the current colour, and the buffer is emptied; an
    /// empty buffer is discarded. Without an anchor nothing happens.
    pub fn finish_text_input(&mut self)
        ensures
            final(self)@ == old(self)@.finish_text_input(),
            old(self)@.wf() ==> final(self)@.wf(),
    {
        if let Some(pos) = self.text_input_pos {
            self.text_input_pos = None;
            if !self.text_input.as_str().is_empty() {
                let mut text = String::new();
                std::mem::swap(&mut text, &mut self.text_input);
                self.add_shape(
                    DrawShape::Text {
                        pos,
                        text,
                        color: self.current_color,
                        font_size: TEXT_FONT_SIZE,
                    },
                );
            }
        }
    }

    /// Restores the latest snapshot and keeps the scene it replaces for
    /// [`Canvas::redo`]. Does nothing when there is no snapshot.
    pub fn undo(&mut self)
        ensures
            final(self)@ == old(self)@.undo(),
            old(self)@.wf() ==> final(self)@.wf(),
    {
        if let Some(state) = self.undo_stack.pop() {
            let mut scene = state;
            std::mem::swap(&mut scene, &mut self.shapes);
            self.redo_stack.push(scene);
            self.selected_shape_index = None;
            assert(history_model(self.undo_stack@) =~= old(self)@.undo_stack.drop_last());
            assert(history_model(self.redo_stack@) =~= old(self)@.redo_stack.push(
                old(self)@.shapes,
            ));
        }
    }

    /// Restores the scene that the latest undo replaced. Does nothing when
    /// there is none.
    pub fn redo(&mut self)
        ensures
            final(self)@ == old(self)@.redo(),
            old(self)@.wf() ==> final(self)@.wf(),
    {
        if let Some(state) = self.redo_stack.pop() {
            let mut scene = state;
            std::mem::swap(&mut scene, &mut self.shapes);
            self.undo_stack.push(scene);
            self.selected_shape_index = None;
            assert(history_model(self.redo_stack@) =~= old(self)@.redo_stack.drop_last());
            assert(history_model(self.undo_stack@) =~= old(self)@.undo_stack.push(
                old(self)@.shapes,
            ));
        }
    }

    /// Removes the selected shape. Does nothing when no shape is selected.
    pub fn delete_selected(&mut self)
        ensures
            final(self)@ == old(self)@.delete_selected(),
            old(self)@.wf() ==> final(self)@.wf(),
    {
        if let Some(index) = self.selected_shape_index {
            if index < self.shapes.len() {
                self.save_state();
                self.shapes.remove(index);
                self.selected_shape_index = None;
                self.redo_stack.clear();
                assert(scene_model(self.shapes@) =~= old(self)@.shapes.remove(index as int));
                assert(history_model(self.redo_stack@) =~= Seq::empty());
            }
        }
    }

    /// Removes every shape. Does nothing on an empty scene.
    pub fn clear_all(&mut self)
        ensures
            final(self)@ == old(self)@.clear_all(),
            old(self)@.wf() ==> final(self)@.wf(),
    {
        if self.shapes.len() > 0 {
            self.save_state();
            self.shapes.clear();
            self.redo_stack.clear();
            self.selected_shape_index = None;
            assert(scene_model(self.shapes@) =~= Seq::empty());
            assert(history_model(self.redo_stack@) =~= Seq::empty());
        }
    }

    /// Picks the tool for the next press.
    pub fn set_tool(&mut self, tool: ToolType)
        ensures
            final(self)@ == (CanvasState { current_tool: tool, ..old(self)@ }),
            old(self)@.wf() ==> final(self)@.wf(),
    {
        self.current_tool = tool;
    }

    /// Picks the colour for the next shape.
    pub fn set_color(&mut self, color: Color)
        ensures
            final(self)@ == (CanvasState { current_color: color, ..old(self)@ }),
            old(self)@.wf() ==> final(self)@.wf(),
    {
        self.current_color = color;
    }

    /// Picks the stroke width, in sub-units, for the next shape.
    pub fn set_stroke_width(&mut self, width: i32)
        ensures
            final(self)@ == (CanvasState { current_stroke_width: width, ..old(self)@ }),
            old(self)@.wf() ==> final(self)@.wf(),
    {
        self.current_stroke_width = width;
    }

    /// Replaces the text-entry buffer.
    pub fn set_text_input(&mut self, text: String)
        ensures
            final(self)@ == (CanvasState { text_input: text@, ..old(self)@ }),
            old(self)@.wf() ==> final(self)@.wf(),
    {
        self.text_input = text;
    }

    /// The committed shapes, bottom one first.
    pub fn shapes(&self) -> (shapes: &Vec<DrawShape>)
        ensures
            scene_model(shapes@) == self@.shapes,
    {
        &self.shapes
    }

    /// The shape being drawn, if a drag is under way.
    pub fn current_shape(&self) -> (shape: Option<&DrawShape>)
        ensures
            match shape {
                Some(s) => self@.current_shape == Some(s@),
                None => self@.current_shape is None,
            },
    {
        self.current_shape.as_ref()
    }

    /// Index of the selected shape.
    pub fn selected_shape_index(&self) -> (index: Option<usize>)
        ensures
            index_model(index) == self@.selected,
    {
        self.selected_shape_index
    }

    /// The captured bitmap, if one is set.
    pub fn background_image(&self) -> (image: Option<&ColorImage>)
        ensures
            match image {
                Some(img) => self@.background == Some(img@),
                None => self@.background is None,
            },
    {
        self.background_image.as_ref()
    }

    pub fn current_tool(&self) -> (tool: ToolType)
        ensures
            tool == self@.current_tool,
    {
        self.current_tool
    }

    pub fn current_color(&self) -> (color: Color)
        ensures
            color == self@.current_color,
    {
        self.current_color
    }

    pub fn current_stroke_width(&self) -> (width: i32)
        ensures
            width == self@.current_stroke_width,
    {
        self.current_stroke_width
    }

    /// The number that the next marker of the number tool will carry.
    pub fn number_counter(&self) -> (counter: u32)
        ensures
            counter == self@.number_counter,
    {
        self.number_counter
    }

    /// The text-entry buffer.
    pub fn text_input(&self) -> (text: &String)
        ensures
            text@ == self@.text_input,
    {
        &self.text_input
    }

    /// Where the text being entered will stand; present while text entry is
    /// open.
    pub fn text_input_pos(&self) -> (pos: Option<Point>)
        ensures
            pos == self@.text_input_pos,
    {
        self.text_input_pos
    }

    /// Where the pointer went down last.
    pub fn drag_start(&self) -> (pos: Option<Point>)
        ensures
            pos == self@.drag_start,
    {
        self.drag_start
    }

    /// Whether there is a snapshot to undo to.
    pub fn can_undo(&self) -> (b: bool)
        ensures
            b == (self@.undo_stack.len() > 0),
    {
        self.undo_stack.len() > 0
    }

    /// Whether there is an undone scene to redo.
    pub fn can_redo(&self) -> (b: bool)
        ensures
            b == (self@.redo_stack.len() > 0),
    {
        self.redo_stack.len() > 0
    }

    /// Number of snapshots on the undo stack.
    pub fn undo_depth(&self) -> (n: usize)
        ensures
            n == self@.undo_stack.len(),
    {
        self.undo_stack.len()
    }
}

/// A hit, if any, is an index into the scene.
pub proof fn lemma_hit_in_range(shapes: Scene, p: Point)
    ensures
        topmost_hit(shapes, p) matches Some(i) ==> 0 <= i < shapes.len(),
    decreases shapes.len(),
{
    if shapes.len() > 0 && !shapes.last().contains_point(p) {
        lemma_hit_in_range(shapes.drop_last(), p);
    }
}

} // verus!
