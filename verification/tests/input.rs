use car_demo::input::{
    nudge, raw_axis, Action, ActionMap, ActionState, Axis, Button, Event, Input, Key, MouseButton,
};

const ACTIONS: [Action; 5] =
    [Action::Grab, Action::Accelerate, Action::Brake, Action::Clutch, Action::Quit];

#[test]
fn a_new_input_records_nothing() {
    let input = Input::with_sensitivity(128_000);
    for action in ACTIONS {
        assert_eq!(input.get(&action), None);
        assert!(!input.action_active(&action));
        assert!(!input.action_changed(&action));
    }
    assert_eq!(input.mouse_sensitivity, 128_000);
    assert_eq!(input.brake_alpha, 1000);
    assert_eq!(input.speeder_alpha, 1000);
    assert_eq!(input.hand, (0, 0));
    assert!(!input.quit_requested());
}

#[test]
fn the_action_map_files_each_action_apart() {
    let mut map = ActionMap::new();
    assert_eq!(map.insert(Action::Grab, ActionState::Active), None);
    assert_eq!(map.insert(Action::Clutch, ActionState::JustInactive), None);
    assert_eq!(map.get(&Action::Grab), Some(&ActionState::Active));
    assert_eq!(map.get(&Action::Clutch), Some(&ActionState::JustInactive));
    assert_eq!(map.get(&Action::Brake), None);
    assert_eq!(map.get(&Action::Accelerate), None);
    assert_eq!(map.get(&Action::Quit), None);
    assert_eq!(map.insert(Action::Grab, ActionState::Inactive), Some(ActionState::Active));
    assert_eq!(map.get(&Action::Grab), Some(&ActionState::Inactive));
    assert_eq!(map.get(&Action::Clutch), Some(&ActionState::JustInactive));
}

#[test]
fn insert_returns_what_was_recorded() {
    let mut input = Input::with_sensitivity(1);
    assert_eq!(input.insert(Action::Brake, ActionState::JustActive), None);
    assert_eq!(input.insert(Action::Brake, ActionState::Active), Some(ActionState::JustActive));
    assert_eq!(input.get(&Action::Brake), Some(&ActionState::Active));
    assert_eq!(input.get(&Action::Accelerate), None);
}

#[test]
fn active_and_changed_read_the_state() {
    let mut input = Input::with_sensitivity(1);
    let cases = [
        (ActionState::Inactive, false, false),
        (ActionState::Active, true, false),
        (ActionState::JustActive, true, true),
        (ActionState::JustInactive, false, true),
    ];
    for (state, active, changed) in cases {
        input.insert(Action::Clutch, state);
        assert_eq!(input.action_active(&Action::Clutch), active);
        assert_eq!(input.action_changed(&Action::Clutch), changed);
    }
}

#[test]
fn a_key_going_down_begins_its_action() {
    let mut input = Input::with_sensitivity(1);
    input.key_down(Action::Grab);
    assert_eq!(input.get(&Action::Grab), Some(&ActionState::JustActive));
    input.key_down(Action::Grab);
    assert_eq!(input.get(&Action::Grab), Some(&ActionState::Active));
    input.key_down(Action::Grab);
    assert_eq!(input.get(&Action::Grab), Some(&ActionState::Active));
    input.insert(Action::Grab, ActionState::Inactive);
    input.key_down(Action::Grab);
    assert_eq!(input.get(&Action::Grab), Some(&ActionState::JustActive));
    input.insert(Action::Grab, ActionState::JustInactive);
    input.key_down(Action::Grab);
    assert_eq!(input.get(&Action::Grab), Some(&ActionState::JustActive));
}

#[test]
fn a_key_coming_up_ends_its_action() {
    let mut input = Input::with_sensitivity(1);
    input.key_up(Action::Brake);
    assert_eq!(input.get(&Action::Brake), Some(&ActionState::JustInactive));
    input.key_up(Action::Brake);
    assert_eq!(input.get(&Action::Brake), Some(&ActionState::Inactive));
    input.key_up(Action::Brake);
    assert_eq!(input.get(&Action::Brake), Some(&ActionState::Inactive));
    input.insert(Action::Brake, ActionState::Active);
    input.key_up(Action::Brake);
    assert_eq!(input.get(&Action::Brake), Some(&ActionState::JustInactive));
    input.insert(Action::Brake, ActionState::JustActive);
    input.key_up(Action::Brake);
    assert_eq!(input.get(&Action::Brake), Some(&ActionState::JustInactive));
}

#[test]
fn settling_an_edge() {
    let mut input = Input::with_sensitivity(1);
    input.action_tick(Action::Accelerate);
    assert_eq!(input.get(&Action::Accelerate), Some(&ActionState::Inactive));
    let cases = [
        (ActionState::Inactive, ActionState::Inactive),
        (ActionState::JustInactive, ActionState::Inactive),
        (ActionState::JustActive, ActionState::Active),
        (ActionState::Active, ActionState::Active),
    ];
    for (before, after) in cases {
        input.insert(Action::Accelerate, before);
        input.action_tick(Action::Accelerate);
        assert_eq!(input.get(&Action::Accelerate), Some(&after));
        assert!(!input.action_changed(&Action::Accelerate));
    }
    assert_eq!(input.get(&Action::Grab), None);
}

#[test]
fn keys_are_bound_to_actions() {
    assert_eq!(Action::from_key(Key::W), Some(Action::Accelerate));
    assert_eq!(Action::from_key(Key::Up), Some(Action::Accelerate));
    assert_eq!(Action::from_key(Key::S), Some(Action::Brake));
    assert_eq!(Action::from_key(Key::Down), Some(Action::Brake));
    assert_eq!(Action::from_key(Key::Space), Some(Action::Grab));
    assert_eq!(Action::from_key(Key::LShift), Some(Action::Clutch));
    for key in [Key::A, Key::D, Key::Left, Key::Right, Key::Escape, Key::Other] {
        assert_eq!(Action::from_key(key), None);
    }
}

#[test]
fn buttons_are_bound_to_actions() {
    assert_eq!(Action::from_button(Button::RightShoulder), Some(Action::Grab));
    assert_eq!(Action::from_button(Button::LeftShoulder), Some(Action::Clutch));
    assert_eq!(Action::from_button(Button::Other), None);
    assert_eq!(Action::from_mouse_button(MouseButton::Left), Some(Action::Grab));
    assert_eq!(Action::from_mouse_button(MouseButton::Other), None);
}

#[test]
fn the_mouse_moves_the_hand() {
    // 128 steps to the unit
    let mut input = Input::with_sensitivity(128_000);
    input.update_hand_relatively(64, -32);
    assert_eq!(input.hand, (500, -250));
    input.update_hand_relatively(1, 1);
    // 1 / 128 = 0.0078125
    assert_eq!(input.hand, (507, -243));
    input.update_hand_relatively(-1, -1);
    assert_eq!(input.hand, (500, -250));
    input.update_hand_relatively(1000, -1000);
    assert_eq!(input.hand, (1000, -1000));
    assert_eq!(input.mouse_sensitivity, 128_000);
}

#[test]
fn a_hand_off_the_square_is_brought_back() {
    let mut input = Input::with_sensitivity(128_000);
    input.hand = (5000, -5000);
    input.update_hand_relatively(0, 0);
    assert_eq!(input.hand, (1000, -1000));
}

#[test]
fn nudging_one_axis() {
    assert_eq!(nudge(0, 64, 128_000), 500);
    assert_eq!(nudge(0, -64, 128_000), -500);
    assert_eq!(nudge(0, 64, -128_000), -500);
    assert_eq!(nudge(0, -64, -128_000), 500);
    assert_eq!(nudge(900, 64, 128_000), 1000);
    assert_eq!(nudge(-900, -64, 128_000), -1000);
    assert_eq!(nudge(0, 1, 3_000), 333);
    assert_eq!(nudge(0, -1, 3_000), -333);
    assert_eq!(nudge(i64::MAX, i32::MAX, 1), 1000);
    assert_eq!(nudge(i64::MIN, i32::MIN, 1), -1000);
    assert_eq!(nudge(0, i32::MAX, i64::MAX), 0);
}

#[test]
fn at_sensitivity_zero_any_motion_goes_all_the_way() {
    assert_eq!(nudge(0, 1, 0), 1000);
    assert_eq!(nudge(0, -1, 0), -1000);
    assert_eq!(nudge(300, 0, 0), 300);
    assert_eq!(nudge(3000, 0, 0), 1000);
}

#[test]
fn a_controller_stick_places_the_hand() {
    let mut input = Input::with_sensitivity(128_000);
    input.update_hand_from_raw_x(16_384);
    // 16384 / 32767 * 1.5 = 0.75002...
    assert_eq!(input.hand, (750, 0));
    input.update_hand_from_raw_y(-16_384);
    assert_eq!(input.hand, (750, -750));
    input.update_hand_from_raw_x(i16::MAX);
    input.update_hand_from_raw_y(i16::MIN);
    assert_eq!(input.hand, (1000, -1000));
    input.update_hand_from_raw_x(0);
    assert_eq!(input.hand, (0, -1000));
}

#[test]
fn reading_one_axis() {
    assert_eq!(raw_axis(0), 0);
    assert_eq!(raw_axis(1), 0);
    assert_eq!(raw_axis(22), 1);
    assert_eq!(raw_axis(-22), -1);
    assert_eq!(raw_axis(10_000), 457);
    assert_eq!(raw_axis(-10_000), -457);
    assert_eq!(raw_axis(21_844), 999);
    assert_eq!(raw_axis(21_845), 1000);
    assert_eq!(raw_axis(21_846), 1000);
    assert_eq!(raw_axis(i16::MAX), 1000);
    assert_eq!(raw_axis(i16::MIN), -1000);
}

#[test]
fn closing_the_window_asks_to_leave() {
    let mut input = Input::with_sensitivity(128_000);
    input.apply_event(Event::Quit);
    assert!(input.quit_requested());
    assert_eq!(input.get(&Action::Quit), Some(&ActionState::Active));
}

#[test]
fn escape_asks_to_leave() {
    let mut input = Input::with_sensitivity(128_000);
    input.apply_event(Event::KeyUp(Key::Escape));
    assert!(!input.quit_requested());
    input.apply_event(Event::KeyDown(Key::Escape));
    assert!(input.quit_requested());
    assert_eq!(input.get(&Action::Quit), Some(&ActionState::Active));
}

#[test]
fn events_begin_and_end_actions() {
    let mut input = Input::with_sensitivity(128_000);
    input.apply_event(Event::KeyDown(Key::W));
    assert_eq!(input.get(&Action::Accelerate), Some(&ActionState::JustActive));
    input.apply_event(Event::KeyUp(Key::Up));
    assert_eq!(input.get(&Action::Accelerate), Some(&ActionState::JustInactive));
    input.apply_event(Event::ControllerButtonDown(Button::LeftShoulder));
    assert_eq!(input.get(&Action::Clutch), Some(&ActionState::JustActive));
    input.apply_event(Event::ControllerButtonUp(Button::LeftShoulder));
    assert_eq!(input.get(&Action::Clutch), Some(&ActionState::JustInactive));
    input.apply_event(Event::MouseButtonDown(MouseButton::Left));
    assert_eq!(input.get(&Action::Grab), Some(&ActionState::JustActive));
    input.apply_event(Event::ControllerButtonDown(Button::RightShoulder));
    assert_eq!(input.get(&Action::Grab), Some(&ActionState::Active));
    input.apply_event(Event::MouseButtonUp(MouseButton::Left));
    assert_eq!(input.get(&Action::Grab), Some(&ActionState::JustInactive));
    input.apply_event(Event::KeyDown(Key::Down));
    assert_eq!(input.get(&Action::Brake), Some(&ActionState::JustActive));
}

#[test]
fn unbound_keys_and_buttons_change_nothing() {
    let mut input = Input::with_sensitivity(128_000);
    let events = [
        Event::KeyDown(Key::A),
        Event::KeyUp(Key::D),
        Event::KeyDown(Key::Other),
        Event::KeyUp(Key::Other),
        Event::ControllerButtonDown(Button::Other),
        Event::ControllerButtonUp(Button::Other),
        Event::MouseButtonDown(MouseButton::Other),
        Event::MouseButtonUp(MouseButton::Other),
        Event::ControllerAxisMotion(Axis::Other, 12_345),
        Event::Other,
    ];
    for event in events {
        input.apply_event(event);
    }
    for action in ACTIONS {
        assert_eq!(input.get(&action), None);
    }
    assert_eq!(input.hand, (0, 0));
}

#[test]
fn motion_events_move_the_hand() {
    let mut input = Input::with_sensitivity(128_000);
    input.apply_event(Event::MouseMotion(64, -64));
    assert_eq!(input.hand, (500, -500));
    input.apply_event(Event::ControllerAxisMotion(Axis::RightX, -16_384));
    assert_eq!(input.hand, (-750, -500));
    input.apply_event(Event::ControllerAxisMotion(Axis::RightY, 32_767));
    assert_eq!(input.hand, (-750, 1000));
}

#[test]
fn events_are_taken_in_their_order() {
    let mut input = Input::with_sensitivity(128_000);
    let events = vec![
        Event::KeyDown(Key::Space),
        Event::MouseMotion(64, 0),
        Event::KeyDown(Key::Space),
        Event::KeyDown(Key::LShift),
        Event::KeyUp(Key::LShift),
        Event::MouseMotion(-32, 32),
    ];
    input.poll_events(&events);
    assert_eq!(input.get(&Action::Grab), Some(&ActionState::Active));
    assert_eq!(input.get(&Action::Clutch), Some(&ActionState::JustInactive));
    assert_eq!(input.hand, (250, 250));
    input.poll_events(&Vec::new());
    assert_eq!(input.get(&Action::Grab), Some(&ActionState::Active));
    assert_eq!(input.hand, (250, 250));
}
