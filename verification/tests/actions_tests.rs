use screencapture::actions::{action_for_key, Effect, Key, ToolbarAction};
use screencapture::canvas::Canvas;
use screencapture::color::Color;
use screencapture::geometry::Point;
use screencapture::shapes::{DrawShape, ToolType};

fn marker(n: u32) -> DrawShape {
    DrawShape::Number { center: Point::from_units(n as i32, 0), number: n, color: Color::red(), radius: 15_000 }
}

fn canvas_with_two_shapes() -> Canvas {
    let mut canvas = Canvas::new();
    canvas.add_shape(marker(1));
    canvas.add_shape(marker(2));
    canvas
}

#[test]
fn letter_keys_count_only_with_control() {
    assert_eq!(action_for_key(true, Key::Z), ToolbarAction::Undo);
    assert_eq!(action_for_key(true, Key::Y), ToolbarAction::Redo);
    assert_eq!(action_for_key(true, Key::S), ToolbarAction::Save);
    assert_eq!(action_for_key(true, Key::C), ToolbarAction::CopyToClipboard);
    assert_eq!(action_for_key(true, Key::R), ToolbarAction::CopyColorRGB);
    assert_eq!(action_for_key(true, Key::H), ToolbarAction::CopyColorHEX);
    for key in [Key::Z, Key::Y, Key::S, Key::C, Key::R, Key::H] {
        assert_eq!(action_for_key(false, key), ToolbarAction::NoAction);
    }
    assert_eq!(action_for_key(false, Key::Escape), ToolbarAction::Close);
    assert_eq!(action_for_key(true, Key::Escape), ToolbarAction::Close);
    assert_eq!(action_for_key(false, Key::Delete), ToolbarAction::NoAction);
}

#[test]
fn toolbar_undo_and_redo_act_on_the_canvas() {
    let mut canvas = canvas_with_two_shapes();
    assert_eq!(canvas.handle_toolbar_action(ToolbarAction::Undo), Effect::Nothing);
    assert_eq!(canvas.shapes(), &vec![marker(1)]);
    assert_eq!(canvas.handle_toolbar_action(ToolbarAction::Redo), Effect::Nothing);
    assert_eq!(canvas.shapes(), &vec![marker(1), marker(2)]);
}

#[test]
fn other_toolbar_actions_are_left_to_the_shell() {
    let mut canvas = canvas_with_two_shapes();
    canvas.set_color(Color::from_rgb(255, 192, 203));
    assert_eq!(canvas.handle_toolbar_action(ToolbarAction::NoAction), Effect::Nothing);
    assert_eq!(canvas.handle_toolbar_action(ToolbarAction::Save), Effect::SaveImage);
    assert_eq!(canvas.handle_toolbar_action(ToolbarAction::CopyToClipboard), Effect::CopyImage);
    assert_eq!(
        canvas.handle_toolbar_action(ToolbarAction::CopyColorRGB),
        Effect::CopyText(String::from("rgb(255, 192, 203)"))
    );
    assert_eq!(
        canvas.handle_toolbar_action(ToolbarAction::CopyColorHEX),
        Effect::CopyText(String::from("#FFC0CB"))
    );
    assert_eq!(canvas.handle_toolbar_action(ToolbarAction::Close), Effect::Close);
    assert_eq!(canvas.shapes(), &vec![marker(1), marker(2)]);
    assert_eq!(canvas.undo_depth(), 2);
}

#[test]
fn keys_act_as_their_toolbar_actions() {
    let mut canvas = canvas_with_two_shapes();
    assert_eq!(canvas.handle_keyboard(true, Key::Z), Effect::Nothing);
    assert_eq!(canvas.shapes(), &vec![marker(1)]);
    assert_eq!(canvas.handle_keyboard(true, Key::Y), Effect::Nothing);
    assert_eq!(canvas.shapes().len(), 2);
    assert_eq!(canvas.handle_keyboard(false, Key::Z), Effect::Nothing);
    assert_eq!(canvas.shapes().len(), 2);
    assert_eq!(canvas.handle_keyboard(true, Key::S), Effect::SaveImage);
    assert_eq!(canvas.handle_keyboard(true, Key::C), Effect::CopyImage);
    assert_eq!(canvas.handle_keyboard(true, Key::R), Effect::CopyText(String::from("rgb(255, 0, 0)")));
    assert_eq!(canvas.handle_keyboard(true, Key::H), Effect::CopyText(String::from("#FF0000")));
    assert_eq!(canvas.handle_keyboard(false, Key::H), Effect::Nothing);
    assert_eq!(canvas.handle_keyboard(false, Key::Escape), Effect::Close);
}

#[test]
fn delete_key_removes_the_selected_shape() {
    let mut canvas = canvas_with_two_shapes();
    assert_eq!(canvas.handle_keyboard(false, Key::Delete), Effect::Nothing);
    assert_eq!(canvas.shapes().len(), 2);
    canvas.set_tool(ToolType::Select);
    canvas.on_mouse_press(Point::from_units(2, 0));
    assert_eq!(canvas.handle_keyboard(true, Key::Delete), Effect::Nothing);
    assert_eq!(canvas.shapes(), &vec![marker(1)]);
}
