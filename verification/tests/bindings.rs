use foxtrot::actions::CameraAction;
use foxtrot::actions::PlayerAction;
use foxtrot::actions::UiAction;
use foxtrot::bindings::create_camera_action_input_map;
use foxtrot::bindings::create_player_action_input_map;
use foxtrot::bindings::create_ui_action_input_map;
use foxtrot::bindings::InputBinding;
use foxtrot::bindings::KeyCode;

#[test]
fn default_player_map_contents() {
    let m = create_player_action_input_map();
    let expected = vec![
        (PlayerAction::Jump, InputBinding::Single(KeyCode::Space)),
        (PlayerAction::Sprint, InputBinding::Single(KeyCode::ShiftLeft)),
        (PlayerAction::Interact, InputBinding::Single(KeyCode::KeyE)),
        (PlayerAction::SpeedUpDialog, InputBinding::Single(KeyCode::Space)),
        (PlayerAction::NumberedChoice1, InputBinding::Single(KeyCode::Digit1)),
        (PlayerAction::NumberedChoice2, InputBinding::Single(KeyCode::Digit2)),
        (PlayerAction::NumberedChoice3, InputBinding::Single(KeyCode::Digit3)),
        (PlayerAction::NumberedChoice4, InputBinding::Single(KeyCode::Digit4)),
        (PlayerAction::NumberedChoice5, InputBinding::Single(KeyCode::Digit5)),
        (PlayerAction::NumberedChoice6, InputBinding::Single(KeyCode::Digit6)),
        (PlayerAction::NumberedChoice7, InputBinding::Single(KeyCode::Digit7)),
        (PlayerAction::NumberedChoice8, InputBinding::Single(KeyCode::Digit8)),
        (PlayerAction::NumberedChoice9, InputBinding::Single(KeyCode::Digit9)),
        (PlayerAction::NumberedChoice0, InputBinding::Single(KeyCode::Digit0)),
        (PlayerAction::Move, InputBinding::WasdDpad),
    ];
    assert_eq!(m, expected);
}

#[test]
fn default_camera_map_contents() {
    let m = create_camera_action_input_map();
    let expected = vec![
        (CameraAction::Orbit, InputBinding::MouseMotion),
        (CameraAction::Zoom, InputBinding::MouseWheelY),
    ];
    assert_eq!(m, expected);
}

#[test]
fn default_ui_map_contents() {
    let m = create_ui_action_input_map();
    let expected = vec![(UiAction::TogglePause, InputBinding::Single(KeyCode::Escape))];
    assert_eq!(m, expected);
}
