use wireframe::control::{Action, ButtonState, ControllerState, InputEvent, KeyCode};

const ACTIONS: [Action; 13] = [
    Action::Quit,
    Action::MoveLeft,
    Action::MoveRight,
    Action::MoveUp,
    Action::MoveDown,
    Action::MoveForward,
    Action::MoveBackward,
    Action::LookLeft,
    Action::LookRight,
    Action::LookUp,
    Action::LookDown,
    Action::LookCw,
    Action::LookCcw,
];

const KEYS: [KeyCode; 14] = [
    KeyCode::W,
    KeyCode::A,
    KeyCode::S,
    KeyCode::D,
    KeyCode::R,
    KeyCode::F,
    KeyCode::Q,
    KeyCode::Left,
    KeyCode::Right,
    KeyCode::Up,
    KeyCode::Down,
    KeyCode::PageDown,
    KeyCode::PageUp,
    KeyCode::Other,
];

const IDLE: ButtonState = ButtonState { held: false, press: false, release: false };

fn pressed(code: KeyCode) -> InputEvent {
    InputEvent::KeyPressed { code }
}

fn released(code: KeyCode) -> InputEvent {
    InputEvent::KeyReleased { code }
}

#[test]
fn default_button_is_up_and_unmarked() {
    assert_eq!(ButtonState::default(), IDLE);
}

#[test]
fn default_controller_has_every_button_idle() {
    let state = ControllerState::default();
    for action in ACTIONS {
        assert_eq!(state.get(action), IDLE);
    }
    assert_eq!(state.quit, IDLE);
    assert_eq!(state.move_forward, IDLE);
    assert_eq!(state.look_ccw, IDLE);
}

#[test]
fn keys_are_bound_to_their_actions() {
    assert_eq!(KeyCode::W.action(), Some(Action::MoveForward));
    assert_eq!(KeyCode::A.action(), Some(Action::MoveLeft));
    assert_eq!(KeyCode::S.action(), Some(Action::MoveBackward));
    assert_eq!(KeyCode::D.action(), Some(Action::MoveRight));
    assert_eq!(KeyCode::R.action(), Some(Action::MoveUp));
    assert_eq!(KeyCode::F.action(), Some(Action::MoveDown));
    assert_eq!(KeyCode::Q.action(), Some(Action::Quit));
    assert_eq!(KeyCode::Left.action(), Some(Action::LookLeft));
    assert_eq!(KeyCode::Right.action(), Some(Action::LookRight));
    assert_eq!(KeyCode::Up.action(), Some(Action::LookUp));
    assert_eq!(KeyCode::Down.action(), Some(Action::LookDown));
    assert_eq!(KeyCode::PageDown.action(), Some(Action::LookCw));
    assert_eq!(KeyCode::PageUp.action(), Some(Action::LookCcw));
    assert_eq!(KeyCode::Other.action(), None);
}

#[test]
fn every_action_has_exactly_one_key() {
    for action in ACTIONS {
        let bound = KEYS.iter().filter(|key| key.action() == Some(action)).count();
        assert_eq!(bound, 1, "{:?}", action);
    }
}

#[test]
fn get_reads_the_field_of_the_action() {
    let mut state = ControllerState::default();
    state.move_up = ButtonState { held: true, press: false, release: false };
    state.look_cw = ButtonState { held: false, press: true, release: true };
    assert_eq!(state.get(Action::MoveUp), state.move_up);
    assert_eq!(state.get(Action::LookCw), state.look_cw);
    assert_eq!(state.get(Action::MoveDown), IDLE);
}

#[test]
fn set_replaces_one_button_only() {
    let down = ButtonState { held: true, press: true, release: false };
    for action in ACTIONS {
        let mut state = ControllerState::default();
        state.set(action, down);
        for other in ACTIONS {
            let expected = if other == action { down } else { IDLE };
            assert_eq!(state.get(other), expected);
        }
    }
}

#[test]
fn set_fills_the_named_field() {
    let down = ButtonState { held: true, press: true, release: false };
    let mut state = ControllerState::default();
    state.set(Action::MoveBackward, down);
    assert_eq!(state.move_backward, down);
    state.set(Action::Quit, down);
    assert_eq!(state.quit, down);
    state.set(Action::LookDown, down);
    assert_eq!(state.look_down, down);
}

#[test]
fn a_key_going_down_holds_and_marks_its_button() {
    let mut state = ControllerState::default();
    state.apply(pressed(KeyCode::W));
    assert_eq!(state.move_forward, ButtonState { held: true, press: true, release: false });
    let mut expected = ControllerState::default();
    expected.move_forward = ButtonState { held: true, press: true, release: false };
    assert_eq!(state, expected);
}

#[test]
fn a_key_going_up_lets_go_and_marks_its_button() {
    let mut state = ControllerState::default();
    state.look_right = ButtonState { held: true, press: false, release: false };
    state.apply(released(KeyCode::Right));
    assert_eq!(state.look_right, ButtonState { held: false, press: false, release: true });
}

#[test]
fn each_key_changes_the_button_of_its_action() {
    for key in KEYS {
        let mut state = ControllerState::default();
        state.apply(pressed(key));
        for action in ACTIONS {
            let expected = if key.action() == Some(action) {
                ButtonState { held: true, press: true, release: false }
            } else {
                IDLE
            };
            assert_eq!(state.get(action), expected);
        }
        state.apply(released(key));
        for action in ACTIONS {
            let expected = if key.action() == Some(action) {
                ButtonState { held: false, press: true, release: true }
            } else {
                IDLE
            };
            assert_eq!(state.get(action), expected);
        }
    }
}

#[test]
fn closing_the_window_presses_quit() {
    let mut state = ControllerState::default();
    state.apply(InputEvent::Closed);
    assert_eq!(state.quit, ButtonState { held: true, press: true, release: false });
    state.quit = IDLE;
    assert_eq!(state, ControllerState::default());
}

#[test]
fn an_unbound_key_changes_nothing() {
    let mut state = ControllerState::default();
    state.move_left = ButtonState { held: true, press: false, release: true };
    let before = state;
    state.apply(pressed(KeyCode::Other));
    assert_eq!(state, before);
    state.apply(released(KeyCode::Other));
    assert_eq!(state, before);
    state.apply(InputEvent::Other);
    assert_eq!(state, before);
}

#[test]
fn a_new_frame_keeps_held_and_clears_the_marks() {
    let mut state = ControllerState::default();
    state.move_forward = ButtonState { held: true, press: true, release: false };
    state.look_up = ButtonState { held: false, press: true, release: true };
    state.quit = ButtonState { held: true, press: false, release: true };
    state.begin_frame();
    assert_eq!(state.move_forward, ButtonState { held: true, press: false, release: false });
    assert_eq!(state.look_up, IDLE);
    assert_eq!(state.quit, ButtonState { held: true, press: false, release: false });
    assert_eq!(state.move_down, IDLE);
}

#[test]
fn a_frame_without_events_only_clears_the_marks() {
    let mut state = ControllerState::default();
    state.move_right = ButtonState { held: true, press: true, release: true };
    state.look_ccw = ButtonState { held: false, press: false, release: true };
    let mut settled = state;
    settled.begin_frame();
    state.update(&[]);
    assert_eq!(state, settled);
    assert_eq!(state.move_right, ButtonState { held: true, press: false, release: false });
    assert_eq!(state.look_ccw, IDLE);
}

#[test]
fn a_held_key_stays_held_over_the_frames() {
    let mut state = ControllerState::default();
    state.update(&[pressed(KeyCode::W)]);
    assert_eq!(state.move_forward, ButtonState { held: true, press: true, release: false });
    state.update(&[]);
    assert_eq!(state.move_forward, ButtonState { held: true, press: false, release: false });
    state.update(&[InputEvent::Other, pressed(KeyCode::Other)]);
    assert_eq!(state.move_forward, ButtonState { held: true, press: false, release: false });
    state.update(&[released(KeyCode::W)]);
    assert_eq!(state.move_forward, ButtonState { held: false, press: false, release: true });
    state.update(&[]);
    assert_eq!(state.move_forward, IDLE);
}

#[test]
fn a_tap_within_one_frame_leaves_both_marks() {
    let mut state = ControllerState::default();
    state.update(&[pressed(KeyCode::D), released(KeyCode::D)]);
    assert_eq!(state.move_right, ButtonState { held: false, press: true, release: true });
}

#[test]
fn the_last_change_of_a_frame_decides_held() {
    let mut state = ControllerState::default();
    state.look_down.held = true;
    state.update(&[released(KeyCode::Down), pressed(KeyCode::A), pressed(KeyCode::Down)]);
    assert_eq!(state.look_down, ButtonState { held: true, press: true, release: true });
    assert_eq!(state.move_left, ButtonState { held: true, press: true, release: false });
    state.update(&[pressed(KeyCode::Down), released(KeyCode::Down), InputEvent::Other]);
    assert_eq!(state.look_down, ButtonState { held: false, press: true, release: true });
    assert_eq!(state.move_left, ButtonState { held: true, press: false, release: false });
}

#[test]
fn a_frame_takes_every_event_it_is_given() {
    let mut state = ControllerState::default();
    state.update(&[
        pressed(KeyCode::W),
        pressed(KeyCode::Left),
        InputEvent::Closed,
        pressed(KeyCode::PageUp),
        released(KeyCode::R),
    ]);
    let down = ButtonState { held: true, press: true, release: false };
    let mut expected = ControllerState::default();
    expected.move_forward = down;
    expected.look_left = down;
    expected.quit = down;
    expected.look_ccw = down;
    expected.move_up = ButtonState { held: false, press: false, release: true };
    assert_eq!(state, expected);
}

#[test]
fn a_frame_is_a_fresh_start_followed_by_its_events() {
    let events = [
        pressed(KeyCode::S),
        released(KeyCode::F),
        InputEvent::Other,
        pressed(KeyCode::F),
        InputEvent::Closed,
        released(KeyCode::S),
        pressed(KeyCode::Other),
        pressed(KeyCode::PageDown),
    ];
    let mut start = ControllerState::default();
    start.move_down = ButtonState { held: true, press: true, release: false };
    start.look_cw = ButtonState { held: false, press: false, release: true };

    let mut by_frame = start;
    by_frame.update(&events);

    let mut by_event = start;
    by_event.begin_frame();
    for event in events {
        by_event.apply(event);
    }
    assert_eq!(by_frame, by_event);
    assert_eq!(by_frame.move_backward, ButtonState { held: false, press: true, release: true });
    assert_eq!(by_frame.move_down, ButtonState { held: true, press: true, release: true });
    assert_eq!(by_frame.quit, ButtonState { held: true, press: true, release: false });
    assert_eq!(by_frame.look_cw, ButtonState { held: true, press: true, release: false });
}

#[test]
fn quit_by_key_and_by_closing_look_alike() {
    let mut by_key = ControllerState::default();
    by_key.update(&[pressed(KeyCode::Q)]);
    let mut by_window = ControllerState::default();
    by_window.update(&[InputEvent::Closed]);
    assert_eq!(by_key, by_window);
    assert!(by_key.quit.press);
}
