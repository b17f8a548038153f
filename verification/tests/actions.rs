use foxtrot::actions::remove_actions_when_frozen;
use foxtrot::actions::ActionsFrozen;
use foxtrot::actions::CameraActions;
use foxtrot::actions::PlayerActions;
use foxtrot::vector::DualAxisData;

fn messy_player() -> PlayerActions {
    PlayerActions {
        move_axis: DualAxisData { x: 123_456, y: -654_321 },
        jump_pressed: true,
        sprint_pressed: true,
        interact_pressed: true,
        speed_up_dialog_pressed: true,
    }
}

fn messy_camera() -> CameraActions {
    CameraActions { orbit: DualAxisData { x: -777, y: 888 }, zoom: -42 }
}

#[test]
fn freeze_twice_unfreeze_once_still_frozen() {
    let mut frozen = ActionsFrozen::default();
    frozen.freeze();
    frozen.freeze();
    frozen.unfreeze();
    assert!(frozen.is_frozen());
}

#[test]
fn matched_unfreezes_end_unfrozen() {
    let mut frozen = ActionsFrozen::default();
    frozen.freeze();
    frozen.freeze();
    frozen.unfreeze();
    frozen.unfreeze();
    assert!(!frozen.is_frozen());
}

#[test]
fn unfreeze_saturates_at_zero() {
    let mut frozen = ActionsFrozen::default();
    frozen.unfreeze();
    assert!(!frozen.is_frozen());
    // A stray release must not underflow: one freeze afterwards still
    // freezes, and one release afterwards fully unfreezes.
    frozen.freeze();
    assert!(frozen.is_frozen());
    frozen.unfreeze();
    assert!(!frozen.is_frozen());
}

#[test]
fn suppression_clears_every_holder_while_frozen() {
    let mut frozen = ActionsFrozen::default();
    frozen.freeze();
    let mut players = vec![messy_player(), messy_player()];
    let mut cameras = vec![messy_camera()];
    remove_actions_when_frozen(&frozen, &mut players, &mut cameras);
    assert_eq!(players.len(), 2);
    for p in &players {
        assert_eq!(p.move_axis, DualAxisData { x: 0, y: 0 });
        assert!(!p.jump_pressed);
        assert!(!p.sprint_pressed);
        assert!(!p.interact_pressed);
        // Untouched by suppression.
        assert!(p.speed_up_dialog_pressed);
    }
    assert_eq!(cameras[0].orbit, DualAxisData { x: 0, y: 0 });
    assert_eq!(cameras[0].zoom, 0);
}

#[test]
fn suppression_touches_nothing_while_unfrozen() {
    let frozen = ActionsFrozen::default();
    let mut players = vec![messy_player()];
    let mut cameras = vec![messy_camera()];
    remove_actions_when_frozen(&frozen, &mut players, &mut cameras);
    assert_eq!(players[0], messy_player());
    assert_eq!(cameras[0], messy_camera());
}

#[test]
fn suppression_handles_empty_holders() {
    let mut frozen = ActionsFrozen::default();
    frozen.freeze();
    let mut players: Vec<PlayerActions> = Vec::new();
    let mut cameras: Vec<CameraActions> = Vec::new();
    remove_actions_when_frozen(&frozen, &mut players, &mut cameras);
    assert!(players.is_empty());
    assert!(cameras.is_empty());
}
