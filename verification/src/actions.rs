//! Toolbar actions and key presses: what each does to the canvas, and what
//! it leaves for the shell to do outside of it.

use vstd::prelude::*;
use crate::canvas::Canvas;
use crate::state::CanvasState;

verus! {

/// An action picked on the toolbar.
#[derive(Debug, Clone, Copy, PartialEq, Eq, Structural)]
pub enum ToolbarAction {
    NoAction,
    Undo,
    Redo,
    Save,
    CopyToClipboard,
    CopyColorRGB,
    CopyColorHEX,
    Close,
}

/// A key that the shell listens for.
#[derive(Debug, Clone, Copy, PartialEq, Eq, Structural)]
pub enum Key {
    Z,
    Y,
    S,
    C,
    R,
    H,
    Delete,
    Escape,
}

/// What is left for the shell to do after an action.
#[derive(Debug, PartialEq, Eq)]
pub enum Effect {
    /// Nothing.
    Nothing,
    /// Write the composited image to a file.
    SaveImage,
    /// Put the composited image on the clipboard.
    CopyImage,
    /// Put this text on the clipboard.
    CopyText(String),
    /// Close the window.
    Close,
}

/// What an [`Effect`] is.
pub enum EffectModel {
    Nothing,
    SaveImage,
    CopyImage,
    CopyText(Seq<char>),
    Close,
}

impl View for Effect {
    type V = EffectModel;

    open spec fn view(&self) -> EffectModel {
        match self {
            Effect::Nothing => EffectModel::Nothing,
            Effect::SaveImage => EffectModel::SaveImage,
            Effect::CopyImage => EffectModel::CopyImage,
            Effect::CopyText(text) => EffectModel::CopyText(text@),
            Effect::Close => EffectModel::Close,
        }
    }
}

/// The toolbar action that a key press stands for. The letter keys count
/// with the control key held; `Escape` closes with or without it.
pub open spec fn key_action(ctrl: bool, key: Key) -> ToolbarAction {
    match key {
        Key::Z => if ctrl { ToolbarAction::Undo } else { ToolbarAction::NoAction },
        Key::Y => if ctrl { ToolbarAction::Redo } else { ToolbarAction::NoAction },
        Key::S => if ctrl { ToolbarAction::Save } else { ToolbarAction::NoAction },
        Key::C => if ctrl { ToolbarAction::CopyToClipboard } else { ToolbarAction::NoAction },
        Key::R => if ctrl { ToolbarAction::CopyColorRGB } else { ToolbarAction::NoAction },
        Key::H => if ctrl { ToolbarAction::CopyColorHEX } else { ToolbarAction::NoAction },
        Key::Escape => ToolbarAction::Close,
        Key::Delete => ToolbarAction::NoAction,
    }
}

impl CanvasState {
    /// The canvas after a toolbar action: undo and redo act on it, the
    /// other actions leave it alone.
    pub open spec fn after_action(self, action: ToolbarAction) -> CanvasState {
        match action {
            ToolbarAction::Undo => self.undo(),
            ToolbarAction::Redo => self.redo(),
            _ => self,
        }
    }

    /// What a toolbar action leaves for the shell to do.
    pub open spec fn action_effect(self, action: ToolbarAction) -> EffectModel {
        match action {
            ToolbarAction::Save => EffectModel::SaveImage,
            ToolbarAction::CopyToClipboard => EffectModel::CopyImage,
            ToolbarAction::CopyColorRGB => EffectModel::CopyText(
                self.current_color.spec_rgb_text(),
            ),
            ToolbarAction::CopyColorHEX => EffectModel::CopyText(
                self.current_color.spec_hex_text(),
            ),
            ToolbarAction::Close => EffectModel::Close,
            _ => EffectModel::Nothing,
        }
    }

    /// The canvas after a key press: `Delete` removes the selected shape,
    /// every other key acts as its toolbar action.
    pub open spec fn after_key(self, ctrl: bool, key: Key) -> CanvasState {
        if key == Key::Delete {
            self.delete_selected()
        } else {
            self.after_action(key_action(ctrl, key))
        }
    }
}

/// Maps a key press to its toolbar action.
pub fn action_for_key(ctrl: bool, key: Key) -> (action: ToolbarAction)
    ensures
        action == key_action(ctrl, key),
{
    match key {
        Key::Z => if ctrl { ToolbarAction::Undo } else { ToolbarAction::NoAction },
        Key::Y => if ctrl { ToolbarAction::Redo } else { ToolbarAction::NoAction },
        Key::S => if ctrl { ToolbarAction::Save } else { ToolbarAction::NoAction },
        Key::C => if ctrl { ToolbarAction::CopyToClipboard } else { ToolbarAction::NoAction },
        Key::R => if ctrl { ToolbarAction::CopyColorRGB } else { ToolbarAction::NoAction },
        Key::H => if ctrl { ToolbarAction::CopyColorHEX } else { ToolbarAction::NoAction },
        Key::Escape => ToolbarAction::Close,
        Key::Delete => ToolbarAction::NoAction,
    }
}

impl Canvas {
    /// Carries out a toolbar action as far as it concerns the canvas, and
    /// returns what is left for the shell to do.
    pub fn handle_toolbar_action(&mut self, action: ToolbarAction) -> (effect: Effect)
        ensures
            final(self)@ == old(self)@.after_action(action),
            effect@ == old(self)@.action_effect(action),
            old(self)@.wf() ==> final(self)@.wf(),
    {
        match action {
            ToolbarAction::Undo => {
                self.undo();
                Effect::Nothing
            },
            ToolbarAction::Redo => {
                self.redo();
                Effect::Nothing
            },
            ToolbarAction::Save => Effect::SaveImage,
            ToolbarAction::CopyToClipboard => Effect::CopyImage,
            ToolbarAction::CopyColorRGB => Effect::CopyText(self.current_color().rgb_text()),
            ToolbarAction::CopyColorHEX => Effect::CopyText(self.current_color().hex_text()),
            ToolbarAction::Close => Effect::Close,
            ToolbarAction::NoAction => Effect::Nothing,
        }
    }

    /// Carries out a key press as far as it concerns the canvas, and returns
    /// what is left for the shell to do.
    pub fn handle_keyboard(&mut self, ctrl: bool, key: Key) -> (effect: Effect)
        ensures
            final(self)@ == old(self)@.after_key(ctrl, key),
            effect@ == old(self)@.action_effect(key_action(ctrl, key)),
            old(self)@.wf() ==> final(self)@.wf(),
    {
        match key {
            Key::Delete => {
                self.delete_selected();
                Effect::Nothing
            },
            _ => self.handle_toolbar_action(action_for_key(ctrl, key)),
        }
    }
}

} // verus!
