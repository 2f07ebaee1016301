use engine2d::input::{InputAction, InputManager};

const ALL_ACTIONS: [InputAction; 4] = [
    InputAction::MoveForward,
    InputAction::MoveBack,
    InputAction::MoveLeft,
    InputAction::MoveRight,
];

#[test]
fn new_manager_holds_nothing() {
    let input = InputManager::new();
    for action in ALL_ACTIONS.iter() {
        assert!(!input.is_action_pressed(action));
    }
}

#[test]
fn default_manager_holds_nothing() {
    let input = InputManager::default();
    for action in ALL_ACTIONS.iter() {
        assert!(!input.is_action_pressed(action));
    }
}

#[test]
fn pressed_action_is_held_and_no_other() {
    for pressed in ALL_ACTIONS.iter() {
        let mut input = InputManager::new();
        input.action_pressed(*pressed);
        for action in ALL_ACTIONS.iter() {
            assert_eq!(input.is_action_pressed(action), action == pressed);
        }
    }
}

#[test]
fn released_action_is_not_held_and_the_others_stay() {
    for released in ALL_ACTIONS.iter() {
        let mut input = InputManager::new();
        for action in ALL_ACTIONS.iter() {
            input.action_pressed(*action);
        }
        input.action_released(*released);
        for action in ALL_ACTIONS.iter() {
            assert_eq!(input.is_action_pressed(action), action != released);
        }
    }
}

#[test]
fn pressing_twice_is_pressing_once() {
    let mut input = InputManager::new();
    input.action_pressed(InputAction::MoveLeft);
    input.action_pressed(InputAction::MoveLeft);
    assert!(input.is_action_pressed(&InputAction::MoveLeft));
    input.action_released(InputAction::MoveLeft);
    assert!(!input.is_action_pressed(&InputAction::MoveLeft));
}

#[test]
fn releasing_what_is_not_held_changes_nothing() {
    let mut input = InputManager::new();
    input.action_pressed(InputAction::MoveForward);
    input.action_released(InputAction::MoveBack);
    input.action_released(InputAction::MoveBack);
    assert!(input.is_action_pressed(&InputAction::MoveForward));
    assert!(!input.is_action_pressed(&InputAction::MoveBack));
}

#[test]
fn a_snapshot_does_not_follow_later_presses() {
    let mut input = InputManager::new();
    input.action_pressed(InputAction::MoveRight);
    let snapshot = input.clone();
    input.action_released(InputAction::MoveRight);
    input.action_pressed(InputAction::MoveBack);
    assert!(snapshot.is_action_pressed(&InputAction::MoveRight));
    assert!(!snapshot.is_action_pressed(&InputAction::MoveBack));
}
