//! Laws of the canvas state machine, each proved from the definitions in
//! [`crate::state`], [`crate::shapes`] and [`crate::geometry`].

use vstd::prelude::*;
use crate::arith::{div_toward_zero, isqrt, lemma_isqrt_exists, lemma_isqrt_of_sum_of_squares};
use crate::geometry::{Point, Rect, UNIT};
use crate::image::RgbaImageModel;
use crate::render::{arrow_barb, ARROW_HEAD_HALF_WIDTH, ARROW_HEAD_LENGTH};
use crate::shapes::{envelope, ShapeModel, Stroke, ToolType};
use crate::state::{
    dragged_shape, exceeds_min_size, push_capped, started_shape, topmost_hit, CanvasState, Scene,
    MAX_HISTORY, NUMBER_RADIUS,
};

verus! {

/// A rectangle made from two arbitrary points has `min <= max` on both axes,
/// and holds both points.
pub proof fn law_rect_from_two_points_is_normalized(a: Point, b: Point)
    ensures
        Rect::spec_from_two_pos(a, b).is_normalized(),
        Rect::spec_from_two_pos(a, b).spec_contains(a),
        Rect::spec_from_two_pos(a, b).spec_contains(b),
        Rect::spec_from_two_pos(a, b) == Rect::spec_from_two_pos(b, a),
{
}

/// The envelope of a polyline holds each of its points.
pub proof fn law_envelope_holds_every_point(points: Seq<Point>, i: int)
    requires
        0 <= i < points.len(),
    ensures
        envelope(points).spec_contains(points[i]),
    decreases points.len(),
{
    if i < points.len() - 1 {
        law_envelope_holds_every_point(points.drop_last(), i);
    }
}

/// The envelope of a polyline is tight: each of its four edges passes
/// through one of the points.
pub proof fn law_envelope_is_tight(points: Seq<Point>)
    requires
        points.len() > 0,
    ensures
        exists|i: int| 0 <= i < points.len() && points[i].x == envelope(points).min.x,
        exists|i: int| 0 <= i < points.len() && points[i].y == envelope(points).min.y,
        exists|i: int| 0 <= i < points.len() && points[i].x == envelope(points).max.x,
        exists|i: int| 0 <= i < points.len() && points[i].y == envelope(points).max.y,
    decreases points.len(),
{
    let n = points.len() - 1;
    let rest = points.drop_last();
    if n == 0 {
        assert(envelope(rest) == Rect::spec_nothing());
        assert(points[0].x == envelope(points).min.x);
        assert(points[0].y == envelope(points).min.y);
        assert(points[0].x == envelope(points).max.x);
        assert(points[0].y == envelope(points).max.y);
    } else {
        law_envelope_is_tight(rest);
        let e = envelope(points);
        let r = envelope(rest);
        let a = choose|i: int| 0 <= i < rest.len() && rest[i].x == r.min.x;
        let b = choose|i: int| 0 <= i < rest.len() && rest[i].y == r.min.y;
        let c = choose|i: int| 0 <= i < rest.len() && rest[i].x == r.max.x;
        let d = choose|i: int| 0 <= i < rest.len() && rest[i].y == r.max.y;
        let a1 = if e.min.x == r.min.x { a } else { n };
        let b1 = if e.min.y == r.min.y { b } else { n };
        let c1 = if e.max.x == r.max.x { c } else { n };
        let d1 = if e.max.y == r.max.y { d } else { n };
        assert(0 <= a1 < points.len() && points[a1].x == e.min.x);
        assert(0 <= b1 < points.len() && points[b1].y == e.min.y);
        assert(0 <= c1 < points.len() && points[c1].x == e.max.x);
        assert(0 <= d1 < points.len() && points[d1].y == e.max.y);
    }
}

/// The select tool's hit test returns the topmost shape whose bounding box
/// holds the point: the shape at the returned index holds it and no later
/// shape does; without a result no shape holds it.
pub proof fn law_hit_test_returns_topmost(shapes: Scene, p: Point)
    ensures
        match topmost_hit(shapes, p) {
            Some(i) => {
                &&& 0 <= i < shapes.len()
                &&& shapes[i].contains_point(p)
                &&& forall|j: int| i < j < shapes.len() ==> !(#[trigger] shapes[j]).contains_point(p)
            },
            None => forall|j: int| 0 <= j < shapes.len() ==> !(#[trigger] shapes[j]).contains_point(p),
        },
    decreases shapes.len(),
{
    if shapes.len() > 0 && !shapes.last().contains_point(p) {
        let rest = shapes.drop_last();
        law_hit_test_returns_topmost(rest, p);
        match topmost_hit(rest, p) {
            Some(i) => {
                assert forall|j: int| i < j < shapes.len() implies !(#[trigger] shapes[j]).contains_point(
                    p,
                ) by {
                    if j < rest.len() {
                        assert(rest[j] == shapes[j]);
                    }
                }
            },
            None => {
                assert forall|j: int| 0 <= j < shapes.len() implies !(#[trigger] shapes[j]).contains_point(
                    p,
                ) by {
                    if j < rest.len() {
                        assert(rest[j] == shapes[j]);
                    }
                }
            },
        }
    }
}

/// Whether `after` differs from `before` by a snapshotting edit: the scene
/// of `before` lies on top of the undo stack of `after`, the cap applied.
pub open spec fn is_snapshot_step(before: CanvasState, after: CanvasState) -> bool {
    after.undo_stack == push_capped(before.undo_stack, before.shapes)
}

/// `n` undos in a row.
pub open spec fn undo_n(s: CanvasState, n: nat) -> CanvasState
    decreases n,
{
    if n == 0 {
        s
    } else {
        undo_n(s.undo(), (n - 1) as nat)
    }
}

/// Adding a shape, deleting the selected shape of a scene that has it,
/// clearing a scene that is not empty, releasing a shape that is large
/// enough, placing a number and committing a text are snapshotting edits,
/// and each leaves the redo stack empty.
pub proof fn law_edits_snapshot_and_clear_redo(s: CanvasState, shape: ShapeModel, pos: Point)
    ensures
        is_snapshot_step(s, s.add_shape(shape)) && s.add_shape(shape).redo_stack.len() == 0,
        (s.selected matches Some(i) && 0 <= i < s.shapes.len()) ==> is_snapshot_step(
            s,
            s.delete_selected(),
        ) && s.delete_selected().redo_stack.len() == 0,
        s.shapes.len() > 0 ==> is_snapshot_step(s, s.clear_all()) && s.clear_all().redo_stack.len()
            == 0,
        (s.current_shape matches Some(sh) && exceeds_min_size(sh)) ==> is_snapshot_step(
            s,
            s.release(),
        ) && s.release().redo_stack.len() == 0,
        s.current_tool == ToolType::Number ==> is_snapshot_step(s, s.press(pos)) && s.press(
            pos,
        ).redo_stack.len() == 0,
        (s.text_input_pos is Some && s.text_input.len() > 0) ==> is_snapshot_step(
            s,
            s.finish_text_input(),
        ) && s.finish_text_input().redo_stack.len() == 0,
{
}

/// The undo stack never grows beyond its cap, and a snapshot taken on a
/// full stack evicts the oldest entry and no other.
pub proof fn law_snapshot_evicts_oldest(undo: Seq<Scene>, scene: Scene)
    requires
        undo.len() <= MAX_HISTORY,
    ensures
        push_capped(undo, scene).len() <= MAX_HISTORY,
        push_capped(undo, scene).last() == scene,
        undo.len() < MAX_HISTORY ==> push_capped(undo, scene) == undo.push(scene),
        undo.len() == MAX_HISTORY ==> push_capped(undo, scene) == undo.skip(1).push(scene),
{
    if undo.len() == MAX_HISTORY {
        assert(push_capped(undo, scene) =~= undo.skip(1).push(scene));
    }
}

/// What `k` undos reach: the scene that lies `k` deep in the undo stack.
/// The entries below it stay, and the scenes passed on the way wait on the
/// redo stack.
pub proof fn law_undo_n_reaches_snapshot(s: CanvasState, k: nat)
    requires
        1 <= k <= s.undo_stack.len(),
    ensures
        undo_n(s, k).shapes == s.undo_stack[s.undo_stack.len() - k],
        undo_n(s, k).undo_stack == s.undo_stack.take(s.undo_stack.len() - k),
        undo_n(s, k).redo_stack.len() == s.redo_stack.len() + k,
        undo_n(s, k).number_counter == s.number_counter,
    decreases k,
{
    let t = s.undo();
    if k == 1 {
        assert(undo_n(t, 0) == t);
        assert(t.undo_stack =~= s.undo_stack.take(s.undo_stack.len() - 1));
    } else {
        law_undo_n_reaches_snapshot(t, (k - 1) as nat);
        assert(t.undo_stack.take(t.undo_stack.len() - (k - 1)) =~= s.undo_stack.take(
            s.undo_stack.len() - k,
        ));
    }
}

/// After a run of snapshotting edits the undo stack holds the scenes of the
/// latest states of the run, newest on top, as many as the cap allows.
pub proof fn law_history_records_run(run: Seq<CanvasState>, j: nat)
    requires
        run.len() >= 1,
        forall|i: int| 0 <= i < run.len() - 1 ==> is_snapshot_step(#[trigger] run[i], run[i + 1]),
        1 <= j <= run.len() - 1,
        j <= MAX_HISTORY,
    ensures
        run.last().undo_stack.len() >= j,
        run.last().undo_stack[run.last().undo_stack.len() - j] == run[run.len() - 1 - j].shapes,
    decreases run.len(),
{
    let n = run.len() - 1;
    let prev = run[n - 1];
    assert(is_snapshot_step(run[n - 1], run[n - 1 + 1]));
    if j > 1 {
        let shorter = run.drop_last();
        assert forall|i: int| 0 <= i < shorter.len() - 1 implies is_snapshot_step(
            #[trigger] shorter[i],
            shorter[i + 1],
        ) by {
            assert(is_snapshot_step(run[i], run[i + 1]));
        }
        law_history_records_run(shorter, (j - 1) as nat);
    }
}

/// Undo after a run of snapshotting edits restores the exact earlier
/// scenes, one edit per undo: `k` undos after `n` edits give the scene as
/// it was after edit `n - k`, for every `k` up to `n` and up to the cap.
/// With at most [`MAX_HISTORY`] edits this leads all the way back to the
/// scene the run began with; after more, the earliest scenes are evicted
/// and `MAX_HISTORY` undos stop at the scene after edit `n - MAX_HISTORY`.
pub proof fn law_undo_restores_earlier_scene(run: Seq<CanvasState>, k: nat)
    requires
        run.len() >= 1,
        forall|i: int| 0 <= i < run.len() - 1 ==> is_snapshot_step(#[trigger] run[i], run[i + 1]),
        k <= run.len() - 1,
        k <= MAX_HISTORY,
    ensures
        undo_n(run.last(), k).shapes == run[run.len() - 1 - k].shapes,
{
    if k > 0 {
        law_history_records_run(run, k);
        law_undo_n_reaches_snapshot(run.last(), k);
    }
}

/// The depth of the undo stack after a run of snapshotting edits: one more
/// for each edit, up to the cap.
pub proof fn law_history_depth_after_run(run: Seq<CanvasState>)
    requires
        run.len() >= 1,
        forall|i: int| 0 <= i < run.len() - 1 ==> is_snapshot_step(#[trigger] run[i], run[i + 1]),
        run[0].undo_stack.len() <= MAX_HISTORY,
    ensures
        run.last().undo_stack.len() == if run[0].undo_stack.len() + run.len() - 1 <= MAX_HISTORY {
            run[0].undo_stack.len() + run.len() - 1
        } else {
            MAX_HISTORY as int
        },
    decreases run.len(),
{
    if run.len() > 1 {
        let n = run.len() - 1;
        assert(is_snapshot_step(run[n - 1], run[n - 1 + 1]));
        let shorter = run.drop_last();
        assert forall|i: int| 0 <= i < shorter.len() - 1 implies is_snapshot_step(
            #[trigger] shorter[i],
            shorter[i + 1],
        ) by {
            assert(is_snapshot_step(run[i], run[i + 1]));
        }
        law_history_depth_after_run(shorter);
    }
}

/// Undoing as often as there were edits, or [`MAX_HISTORY`] times after
/// more edits than that, uses the history up: on a canvas that began
/// without history, the scene is then the one after edit `n - k`, and a
/// further undo changes nothing.
pub proof fn law_undo_exhausts_history(run: Seq<CanvasState>)
    requires
        run.len() >= 1,
        forall|i: int| 0 <= i < run.len() - 1 ==> is_snapshot_step(#[trigger] run[i], run[i + 1]),
        run[0].undo_stack.len() == 0,
    ensures
        ({
            let n = run.len() - 1;
            let k = if n <= MAX_HISTORY { n } else { MAX_HISTORY as int };
            let reached = undo_n(run.last(), k as nat);
            &&& reached.shapes == run[n - k].shapes
            &&& reached.undo_stack.len() == 0
            &&& reached.undo() == reached
        }),
{
    let n = run.len() - 1;
    let k = if n <= MAX_HISTORY { n } else { MAX_HISTORY as int };
    law_history_depth_after_run(run);
    law_undo_restores_earlier_scene(run, k as nat);
    if k > 0 {
        law_undo_n_reaches_snapshot(run.last(), k as nat);
    }
}

/// Where there is nothing to do, nothing happens and nothing fails: undo
/// without a snapshot, redo without an undone scene, delete without a
/// selection, clear on an empty scene, finishing text entry that was never
/// opened, and a drag without a shape in progress leave the canvas as it is.
pub proof fn law_nothing_to_do_is_silent(s: CanvasState, pos: Point)
    ensures
        s.undo_stack.len() == 0 ==> s.undo() == s,
        s.redo_stack.len() == 0 ==> s.redo() == s,
        s.selected is None ==> s.delete_selected() == s,
        s.shapes.len() == 0 ==> s.clear_all() == s,
        s.text_input_pos is None ==> s.finish_text_input() == s,
        s.current_shape is None ==> s.drag(pos) == s,
        s.current_shape is None ==> s.release() == (CanvasState { drag_start: None, ..s }),
        !s.current_tool.spec_is_implemented() ==> s.press(pos) == s,
{
}

/// A new edit invalidates the redo history: redo after undo and a new
/// `add_shape` changes nothing. So does redo after any edit.
pub proof fn law_redo_after_edit_is_noop(s: CanvasState, shape: ShapeModel)
    ensures
        s.undo().add_shape(shape).redo() == s.undo().add_shape(shape),
        s.add_shape(shape).redo() == s.add_shape(shape),
        s.shapes.len() > 0 ==> s.clear_all().redo() == s.clear_all(),
        (s.selected matches Some(i) && 0 <= i < s.shapes.len()) ==> s.delete_selected().redo()
            == s.delete_selected(),
{
}

/// Redo undoes an undo: the scene and both stacks are as before.
pub proof fn law_redo_reverts_undo(s: CanvasState)
    requires
        s.undo_stack.len() > 0,
    ensures
        s.undo().redo().shapes == s.shapes,
        s.undo().redo().undo_stack == s.undo_stack,
        s.undo().redo().redo_stack == s.redo_stack,
{
    assert(s.undo().redo().undo_stack =~= s.undo_stack);
    assert(s.undo().redo().redo_stack =~= s.redo_stack);
}

/// Whether two states hold the same scene and the same history.
pub open spec fn same_scene_and_history(a: CanvasState, b: CanvasState) -> bool {
    a.shapes == b.shapes && a.undo_stack == b.undo_stack && a.redo_stack == b.redo_stack
}

/// The scene and the history change only when a shape is committed or
/// removed and on undo and redo. Selecting, starting and dragging a shape,
/// opening text entry, releasing without a shape that is large enough and
/// finishing text entry without a text leave both as they are.
pub proof fn law_scene_changes_only_by_edits(s: CanvasState, pos: Point)
    ensures
        s.current_tool != ToolType::Number ==> same_scene_and_history(s, s.press(pos)),
        same_scene_and_history(s, s.drag(pos)),
        !(s.current_shape matches Some(shape) && exceeds_min_size(shape))
            ==> same_scene_and_history(s, s.release()),
        !(s.text_input_pos is Some && s.text_input.len() > 0) ==> same_scene_and_history(
            s,
            s.finish_text_input(),
        ),
{
}

/// Releasing a shape whose bounding box is at most one unit wide and at
/// most one unit high never changes the scene or the history.
pub proof fn law_small_release_is_rejected(s: CanvasState)
    requires
        s.current_shape matches Some(shape) && shape.bounds().spec_width() <= UNIT
            && shape.bounds().spec_height() <= UNIT,
    ensures
        s.release().shapes == s.shapes,
        s.release().undo_stack == s.undo_stack,
        s.release().redo_stack == s.redo_stack,
        s.release().current_shape is None,
        s.release().drag_start is None,
{
}

/// Whether `tool` drags out a shape.
pub open spec fn is_drawing_tool(tool: ToolType) -> bool {
    started_shape(tool, Point { x: 0, y: 0 }, crate::shapes::Stroke {
        width: 0,
        color: crate::color::Color::spec_red(),
    }) is Some
}

/// An accidental click adds nothing: with any drawing tool, a press, a drag
/// to a point no further than one unit away on either axis, and a release
/// leave the scene and the history as they were.
pub proof fn law_accidental_click_adds_nothing(s: CanvasState, from: Point, to: Point)
    requires
        is_drawing_tool(s.current_tool),
        -UNIT <= to.x - from.x <= UNIT,
        -UNIT <= to.y - from.y <= UNIT,
    ensures
        s.press(from).drag(to).release().shapes == s.shapes,
        s.press(from).drag(to).release().undo_stack == s.undo_stack,
        s.press(from).drag(to).release().redo_stack == s.redo_stack,
        s.press(from).release().shapes == s.shapes,
{
    let pressed = s.press(from);
    let moved = pressed.drag(to);
    match moved.current_shape {
        Some(ShapeModel::Line { points, .. }) => {
            assert(points =~= seq![from, to]);
            reveal_with_fuel(envelope, 3);
            assert(points.drop_last() =~= seq![from]);
            assert(points.drop_last().drop_last() =~= Seq::<Point>::empty());
        },
        Some(ShapeModel::Curve { points, .. }) => {
            assert(points =~= seq![from, to]);
            reveal_with_fuel(envelope, 3);
            assert(points.drop_last() =~= seq![from]);
            assert(points.drop_last().drop_last() =~= Seq::<Point>::empty());
        },
        _ => {},
    }
    match pressed.current_shape {
        Some(ShapeModel::Line { points, .. }) => {
            reveal_with_fuel(envelope, 3);
            assert(points.drop_last() =~= seq![from]);
            assert(points.drop_last().drop_last() =~= Seq::<Point>::empty());
        },
        Some(ShapeModel::Curve { points, .. }) => {
            reveal_with_fuel(envelope, 3);
            assert(points.drop_last() =~= Seq::<Point>::empty());
        },
        _ => {},
    }
}

/// The number tool places its marker at once, numbered by the counter, and
/// moves the counter on by one.
pub proof fn law_number_press_places_next_number(s: CanvasState, pos: Point)
    requires
        s.current_tool == ToolType::Number,
        s.number_counter < u32::MAX,
    ensures
        s.press(pos).shapes == s.shapes.push(
            ShapeModel::Number {
                center: pos,
                number: s.number_counter,
                color: s.current_color,
                radius: NUMBER_RADIUS,
            },
        ),
        s.press(pos).number_counter == s.number_counter + 1,
        s.press(pos).current_tool == ToolType::Number,
        s.press(pos).current_color == s.current_color,
        s.press(pos).current_shape == s.current_shape,
{
}

/// Three presses of the number tool in a row place three markers numbered
/// in sequence, in that order, on top of the scene.
pub proof fn law_number_presses_count_up(s: CanvasState, p1: Point, p2: Point, p3: Point)
    requires
        s.current_tool == ToolType::Number,
        s.number_counter + 2 < u32::MAX,
    ensures
        s.press(p1).press(p2).press(p3).shapes == s.shapes + seq![
            ShapeModel::Number {
                center: p1,
                number: s.number_counter,
                color: s.current_color,
                radius: NUMBER_RADIUS,
            },
            ShapeModel::Number {
                center: p2,
                number: (s.number_counter + 1) as u32,
                color: s.current_color,
                radius: NUMBER_RADIUS,
            },
            ShapeModel::Number {
                center: p3,
                number: (s.number_counter + 2) as u32,
                color: s.current_color,
                radius: NUMBER_RADIUS,
            },
        ],
        s.press(p1).press(p2).press(p3).number_counter == s.number_counter + 3,
{
    law_number_press_places_next_number(s, p1);
    law_number_press_places_next_number(s.press(p1), p2);
    law_number_press_places_next_number(s.press(p1).press(p2), p3);
    assert(s.press(p1).press(p2).press(p3).shapes =~= s.shapes + seq![
        ShapeModel::Number {
            center: p1,
            number: s.number_counter,
            color: s.current_color,
            radius: NUMBER_RADIUS,
        },
        ShapeModel::Number {
            center: p2,
            number: (s.number_counter + 1) as u32,
            color: s.current_color,
            radius: NUMBER_RADIUS,
        },
        ShapeModel::Number {
            center: p3,
            number: (s.number_counter + 2) as u32,
            color: s.current_color,
            radius: NUMBER_RADIUS,
        },
    ]);
}

/// The number counter is never rolled back: undo and redo keep it, and no
/// event lowers it.
pub proof fn law_number_counter_is_monotonic(s: CanvasState, pos: Point)
    requires
        s.current_tool == ToolType::Number ==> s.number_counter < u32::MAX,
    ensures
        s.undo().number_counter == s.number_counter,
        s.redo().number_counter == s.number_counter,
        s.delete_selected().number_counter == s.number_counter,
        s.clear_all().number_counter == s.number_counter,
        s.drag(pos).number_counter == s.number_counter,
        s.release().number_counter == s.number_counter,
        s.finish_text_input().number_counter == s.number_counter,
        s.press(pos).number_counter >= s.number_counter,
{
}

/// Finishing text entry on an empty buffer adds no shape and records no
/// history; it only gives up the anchor.
pub proof fn law_empty_text_commit_adds_nothing(s: CanvasState)
    requires
        s.text_input.len() == 0,
    ensures
        s.finish_text_input() == (CanvasState { text_input_pos: None, ..s }),
        s.finish_text_input().shapes.len() == s.shapes.len(),
{
}

/// Every event keeps a well-formed state well-formed: the history stays
/// within its cap, a selection points into the scene, the counter stays
/// positive, and a line in progress keeps its two end points.
pub proof fn law_events_preserve_wf(s: CanvasState, pos: Point, shape: ShapeModel)
    requires
        s.wf(),
    ensures
        CanvasState::initial().wf(),
        s.add_shape(shape).wf(),
        (s.current_tool == ToolType::Number ==> s.number_counter < u32::MAX) ==> s.press(pos).wf(),
        s.drag(pos).wf(),
        s.release().wf(),
        s.finish_text_input().wf(),
        s.undo().wf(),
        s.redo().wf(),
        s.delete_selected().wf(),
        s.clear_all().wf(),
{
    crate::canvas::lemma_hit_in_range(s.shapes, pos);
}

/// An ellipse dragged out between two points is inscribed in the rectangle
/// that they span: its bounding box starts at the rectangle's lesser corner
/// and ends at the greater one, or one sub-unit short of it where the span
/// is odd.
pub proof fn law_dragged_ellipse_is_inscribed(shape: ShapeModel, start: Point, pos: Point)
    requires
        shape is Ellipse,
    ensures
        ({
            let bounds = dragged_shape(shape, start, pos).bounds();
            let span = Rect::spec_from_two_pos(start, pos);
            &&& bounds.min == span.min
            &&& span.max.x - 1 <= bounds.max.x <= span.max.x
            &&& span.max.y - 1 <= bounds.max.y <= span.max.y
        }),
{
}

/// A rectangle, an arrow and a line dragged out between two points are
/// bounded by the rectangle that the points span.
pub proof fn law_dragged_shape_spans_the_drag(
    tool: ToolType,
    stroke: Stroke,
    start: Point,
    pos: Point,
)
    requires
        tool == ToolType::Rectangle || tool == ToolType::FilledRect || tool == ToolType::Arrow
            || tool == ToolType::Line,
    ensures
        started_shape(tool, start, stroke) matches Some(shape) && dragged_shape(
            shape,
            start,
            pos,
        ).bounds() == Rect::spec_from_two_pos(start, pos),
{
    if tool == ToolType::Line {
        let points = seq![start, pos];
        assert(seq![start, start].update(1, pos) =~= points);
        reveal_with_fuel(envelope, 3);
        assert(points.drop_last() =~= seq![start]);
        assert(points.drop_last().drop_last() =~= Seq::<Point>::empty());
    }
}

/// The barbs of an arrowhead stay near the arrow's end: neither coordinate
/// of a barb's tip is further from the end than the head's length and half
/// width together.
pub proof fn law_arrow_barb_is_near_the_end(start: Point, end: Point, side: int)
    requires
        start != end,
        side == 1 || side == -1,
    ensures
        -(ARROW_HEAD_LENGTH + ARROW_HEAD_HALF_WIDTH) <= arrow_barb(start, end, side).x - end.x
            <= ARROW_HEAD_LENGTH + ARROW_HEAD_HALF_WIDTH,
        -(ARROW_HEAD_LENGTH + ARROW_HEAD_HALF_WIDTH) <= arrow_barb(start, end, side).y - end.y
            <= ARROW_HEAD_LENGTH + ARROW_HEAD_HALF_WIDTH,
{
    let dx = end.x - start.x;
    let dy = end.y - start.y;
    assert(dx * dx >= 0 && dy * dy >= 0) by (nonlinear_arith);
    let n = (dx * dx + dy * dy) as nat;
    lemma_isqrt_exists(n);
    let len = isqrt(n) as int;
    lemma_isqrt_of_sum_of_squares(dx, dy, isqrt(n));
    let offset_x = ARROW_HEAD_LENGTH * dx + side * ARROW_HEAD_HALF_WIDTH * dy;
    let offset_y = ARROW_HEAD_LENGTH * dy - side * ARROW_HEAD_HALF_WIDTH * dx;
    assert(offset_y == ARROW_HEAD_LENGTH * dy + (-side) * ARROW_HEAD_HALF_WIDTH * dx)
        by (nonlinear_arith)
        requires
            offset_y == ARROW_HEAD_LENGTH * dy - side * ARROW_HEAD_HALF_WIDTH * dx,
    ;
    lemma_offset_is_bounded(offset_x, dx, dy, len, side);
    lemma_offset_is_bounded(offset_y, dy, dx, len, -side);
}

/// A sum of an along-shaft and an across-shaft term, divided by the
/// shaft's length, is bounded by the two constants together.
proof fn lemma_offset_is_bounded(offset: int, a: int, b: int, len: int, side: int)
    requires
        offset == ARROW_HEAD_LENGTH * a + side * ARROW_HEAD_HALF_WIDTH * b,
        side == 1 || side == -1,
        len >= 1,
        -len <= a <= len,
        -len <= b <= len,
    ensures
        -(ARROW_HEAD_LENGTH + ARROW_HEAD_HALF_WIDTH) <= div_toward_zero(offset, len)
            <= ARROW_HEAD_LENGTH + ARROW_HEAD_HALF_WIDTH,
{
    let bound = ARROW_HEAD_LENGTH + ARROW_HEAD_HALF_WIDTH;
    assert(-(bound * len) <= offset <= bound * len) by (nonlinear_arith)
        requires
            offset == 10_000 * a + side * 5_000 * b,
            side == 1 || side == -1,
            bound == 15_000,
            -len <= a <= len,
            -len <= b <= len,
    ;
    if offset >= 0 {
        assert(offset / len <= bound) by (nonlinear_arith)
            requires
                0 <= offset <= bound * len,
                len >= 1,
        ;
        assert(offset / len >= 0) by (nonlinear_arith)
            requires
                0 <= offset,
                len >= 1,
        ;
    } else {
        assert((-offset) / len <= bound) by (nonlinear_arith)
            requires
                0 <= -offset <= bound * len,
                len >= 1,
        ;
        assert((-offset) / len >= 0) by (nonlinear_arith)
            requires
                0 <= -offset,
                len >= 1,
        ;
    }
}

/// A crop that lies inside the image keeps its extent, and its pixel in
/// column `i` of row `j` is the image's pixel in column `x + i` of row
/// `y + j`.
pub proof fn law_crop_keeps_the_pixels_of_the_region(
    image: RgbaImageModel,
    x: nat,
    y: nat,
    width: nat,
    height: nat,
    i: int,
    j: int,
)
    requires
        image.wf(),
        x + width <= image.width,
        y + height <= image.height,
        0 <= i < width,
        0 <= j < height,
    ensures
        image.crop(x, y, width, height).width == width,
        image.crop(x, y, width, height).height == height,
        image.crop(x, y, width, height).wf(),
        image.crop(x, y, width, height).pixel(i, j) == image.pixel(x + i, y + j),
{
    let part = image.crop(x, y, width, height);
    let at = 4 * (j * width + i);
    assert(0 <= j * width + i < width * height) by (nonlinear_arith)
        requires
            0 <= i < width,
            0 <= j < height,
    ;
    assert forall|c: int| 0 <= c < 4 implies #[trigger] part.data[at + c] == image.data[4 * ((y + j)
        * image.width + x + i) + c] by {
        vstd::arithmetic::div_mod::lemma_fundamental_div_mod_converse(at + c, 4, j * width + i, c);
        vstd::arithmetic::div_mod::lemma_fundamental_div_mod_converse(
            j * width + i,
            width as int,
            j,
            i,
        );
    }
    assert(part.data[at + 0] == image.data[4 * ((y + j) * image.width + x + i) + 0]);
    assert(part.data[at + 1] == image.data[4 * ((y + j) * image.width + x + i) + 1]);
    assert(part.data[at + 2] == image.data[4 * ((y + j) * image.width + x + i) + 2]);
    assert(part.data[at + 3] == image.data[4 * ((y + j) * image.width + x + i) + 3]);
}

} // verus!
