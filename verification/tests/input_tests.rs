use dreamfield::input::{Action, Input, Key, WindowEvent};
use dreamfield::systems::{CameraInput, Direction};

#[test]
fn the_loop_starts_with_no_key_held() {
    assert_eq!(
        Input::new(5, -6),
        Input { forward_held: false, should_close: false, mouse_x: 5, mouse_y: -6 }
    );
}

#[test]
fn escape_asks_for_closing() {
    let mut input = Input::new(0, 0);
    input.handle_event(WindowEvent::Key(Key::Escape, Action::Release));
    input.handle_event(WindowEvent::Key(Key::Escape, Action::Repeat));
    assert!(!input.should_close);
    input.handle_event(WindowEvent::Key(Key::Escape, Action::Press));
    assert!(input.should_close);
    input.handle_event(WindowEvent::Key(Key::Escape, Action::Release));
    assert!(input.should_close);
    assert!(!input.forward_held);
}

#[test]
fn w_holds_and_releases_forward() {
    let mut input = Input::new(0, 0);
    input.handle_event(WindowEvent::Key(Key::W, Action::Press));
    assert!(input.forward_held);
    input.handle_event(WindowEvent::Key(Key::W, Action::Repeat));
    assert!(input.forward_held);
    input.handle_event(WindowEvent::Key(Key::W, Action::Release));
    assert!(!input.forward_held);
    assert!(!input.should_close);
}

#[test]
fn other_events_change_nothing() {
    let mut input = Input::new(1, 2);
    input.handle_event(WindowEvent::Other);
    input.handle_event(WindowEvent::Key(Key::Other, Action::Press));
    input.handle_event(WindowEvent::Key(Key::Other, Action::Release));
    assert_eq!(input, Input::new(1, 2));
}

#[test]
fn events_are_taken_in_order() {
    let mut input = Input::new(0, 0);
    input.handle_events(&vec![
        WindowEvent::Key(Key::W, Action::Press),
        WindowEvent::Other,
        WindowEvent::Key(Key::W, Action::Release),
        WindowEvent::Key(Key::W, Action::Press),
    ]);
    assert!(input.forward_held);
    input.handle_events(&vec![
        WindowEvent::Key(Key::W, Action::Press),
        WindowEvent::Key(Key::W, Action::Release),
    ]);
    assert!(!input.forward_held);
    input.handle_events(&vec![]);
    assert_eq!(input, Input::new(0, 0));
}

#[test]
fn the_mouse_delta_is_the_difference_of_two_samples() {
    let mut input = Input::new(100, 200);
    assert_eq!(input.move_cursor(130, 150), (30, -50));
    assert_eq!(input.move_cursor(130, 150), (0, 0));
    assert_eq!((input.mouse_x, input.mouse_y), (130, 150));
}

#[test]
fn the_mouse_delta_saturates() {
    let mut input = Input::new(i64::MIN, i64::MAX);
    assert_eq!(input.move_cursor(i64::MAX, i64::MIN), (i64::MAX, i64::MIN));
    assert_eq!((input.mouse_x, input.mouse_y), (i64::MAX, i64::MIN));
}

#[test]
fn a_poll_takes_events_then_the_cursor() {
    let mut input = Input::new(10, 10);
    let forward = Direction { x: 0, y: 0, z: -100_000_000 };
    let asked = input.poll(&vec![WindowEvent::Key(Key::W, Action::Press)], 4_010, 10, forward);
    assert_eq!(
        asked,
        CameraInput { mouse_dx: 4_000, mouse_dy: 0, forward_held: true, forward }
    );
    assert_eq!(
        input,
        Input { forward_held: true, should_close: false, mouse_x: 4_010, mouse_y: 10 }
    );
    let asked = input.poll(&vec![WindowEvent::Key(Key::Escape, Action::Press)], 4_010, 0, forward);
    assert_eq!(
        asked,
        CameraInput { mouse_dx: 0, mouse_dy: -10, forward_held: true, forward }
    );
    assert!(input.should_close);
}
