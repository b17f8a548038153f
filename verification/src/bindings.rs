//! Default device bindings for each action namespace.
//!
//! One construction routine per namespace produces the default keyboard and
//! mouse binding: WASD as a virtual directional pad for movement, mouse
//! motion for camera orbit, the mouse wheel for zoom, Escape for the pause
//! toggle, and the digit row for numbered dialog choices.

use vstd::prelude::*;

use crate::actions::CameraAction;
use crate::actions::PlayerAction;
use crate::actions::UiAction;

verus! {

/// Physical keys the default bindings use.
#[derive(Clone, Copy, Debug, PartialEq, Eq, Structural)]
pub enum KeyCode {
    Space,
    ShiftLeft,
    KeyE,
    Escape,
    Digit1,
    Digit2,
    Digit3,
    Digit4,
    Digit5,
    Digit6,
    Digit7,
    Digit8,
    Digit9,
    Digit0,
}

/// A physical input a semantic action can be bound to.
#[derive(Clone, Copy, Debug, PartialEq, Eq, Structural)]
pub enum InputBinding {
    /// One key.
    Single(KeyCode),
    /// The W, A, S and D keys acting as a virtual directional pad that
    /// produces a 2D movement vector.
    WasdDpad,
    /// Mouse motion as a 2D axis.
    MouseMotion,
    /// The mouse wheel's vertical axis.
    MouseWheelY,
}

/// The default player bindings, in the order they are declared.
pub open spec fn default_player_bindings() -> Seq<(PlayerAction, InputBinding)> {
    seq![
        (PlayerAction::Jump, InputBinding::Single(KeyCode::Space)),
        (PlayerAction::Sprint, InputBinding::Single(KeyCode::ShiftLeft)),
        (PlayerAction::Interact, InputBinding::Single(KeyCode::KeyE)),
        (PlayerAction::SpeedUpDialog, InputBinding::Single(KeyCode::Space)),
        (PlayerAction::NumberedChoice1, InputBinding::Single(KeyCode::Digit1)),
        (PlayerAction::NumberedChoice2, InputBinding::Single(KeyCode::Digit2)),
        (PlayerAction::NumberedChoice3, InputBinding::Single(KeyCode::Digit3)),
        (PlayerAction::NumberedChoice4, InputBinding::Single(KeyCode::Digit4)),
        (PlayerAction::NumberedChoice5, InputBinding::Single(KeyCode::Digit5)),
        (PlayerAction::NumberedChoice6, InputBinding::Single(KeyCode::Digit6)),
        (PlayerAction::NumberedChoice7, InputBinding::Single(KeyCode::Digit7)),
        (PlayerAction::NumberedChoice8, InputBinding::Single(KeyCode::Digit8)),
        (PlayerAction::NumberedChoice9, InputBinding::Single(KeyCode::Digit9)),
        (PlayerAction::NumberedChoice0, InputBinding::Single(KeyCode::Digit0)),
        (PlayerAction::Move, InputBinding::WasdDpad),
    ]
}

/// The default camera bindings, in the order they are declared.
pub open spec fn default_camera_bindings() -> Seq<(CameraAction, InputBinding)> {
    seq![
        (CameraAction::Orbit, InputBinding::MouseMotion),
        (CameraAction::Zoom, InputBinding::MouseWheelY),
    ]
}

/// The default UI bindings.
pub open spec fn default_ui_bindings() -> Seq<(UiAction, InputBinding)> {
    seq![(UiAction::TogglePause, InputBinding::Single(KeyCode::Escape))]
}

/// Build the default player input map.
pub fn create_player_action_input_map() -> (m: Vec<(PlayerAction, InputBinding)>)
    ensures
        m@ == default_player_bindings(),
{
    let mut m: Vec<(PlayerAction, InputBinding)> = Vec::new();
    m.push((PlayerAction::Jump, InputBinding::Single(KeyCode::Space)));
    m.push((PlayerAction::Sprint, InputBinding::Single(KeyCode::ShiftLeft)));
    m.push((PlayerAction::Interact, InputBinding::Single(KeyCode::KeyE)));
    m.push((PlayerAction::SpeedUpDialog, InputBinding::Single(KeyCode::Space)));
    m.push((PlayerAction::NumberedChoice1, InputBinding::Single(KeyCode::Digit1)));
    m.push((PlayerAction::NumberedChoice2, InputBinding::Single(KeyCode::Digit2)));
    m.push((PlayerAction::NumberedChoice3, InputBinding::Single(KeyCode::Digit3)));
    m.push((PlayerAction::NumberedChoice4, InputBinding::Single(KeyCode::Digit4)));
    m.push((PlayerAction::NumberedChoice5, InputBinding::Single(KeyCode::Digit5)));
    m.push((PlayerAction::NumberedChoice6, InputBinding::Single(KeyCode::Digit6)));
    m.push((PlayerAction::NumberedChoice7, InputBinding::Single(KeyCode::Digit7)));
    m.push((PlayerAction::NumberedChoice8, InputBinding::Single(KeyCode::Digit8)));
    m.push((PlayerAction::NumberedChoice9, InputBinding::Single(KeyCode::Digit9)));
    m.push((PlayerAction::NumberedChoice0, InputBinding::Single(KeyCode::Digit0)));
    m.push((PlayerAction::Move, InputBinding::WasdDpad));
    proof {
        assert(m@ =~= default_player_bindings());
    }
    m
}

/// Build the default camera input map.
pub fn create_camera_action_input_map() -> (m: Vec<(CameraAction, InputBinding)>)
    ensures
        m@ == default_camera_bindings(),
{
    let mut m: Vec<(CameraAction, InputBinding)> = Vec::new();
    m.push((CameraAction::Orbit, InputBinding::MouseMotion));
    m.push((CameraAction::Zoom, InputBinding::MouseWheelY));
    proof {
        assert(m@ =~= default_camera_bindings());
    }
    m
}

/// Build the default UI input map.
pub fn create_ui_action_input_map() -> (m: Vec<(UiAction, InputBinding)>)
    ensures
        m@ == default_ui_bindings(),
{
    let mut m: Vec<(UiAction, InputBinding)> = Vec::new();
    m.push((UiAction::TogglePause, InputBinding::Single(KeyCode::Escape)));
    proof {
        assert(m@ =~= default_ui_bindings());
    }
    m
}

} // verus!
