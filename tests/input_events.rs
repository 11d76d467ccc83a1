use cube_camera::input::{
    frame_moves, handle_window_event, Action, Key, LoopState, Move, MoveKeys, WindowEvent,
};

fn keys(forward: bool, backward: bool, strafe_left: bool, strafe_right: bool) -> MoveKeys {
    MoveKeys { forward, backward, strafe_left, strafe_right }
}

#[test]
fn new_window_is_focused_and_open() {
    let s = LoopState::new();
    assert!(s.focused);
    assert!(!s.should_close);
}

#[test]
fn escape_press_asks_to_close() {
    let mut s = LoopState::new();
    handle_window_event(&mut s, WindowEvent::Key(Key::Escape, Action::Press));
    assert!(s.should_close);
    assert!(s.focused);
}

#[test]
fn escape_release_and_other_keys_change_nothing() {
    let mut s = LoopState::new();
    handle_window_event(&mut s, WindowEvent::Key(Key::Escape, Action::Release));
    handle_window_event(&mut s, WindowEvent::Key(Key::Escape, Action::Repeat));
    handle_window_event(&mut s, WindowEvent::Key(Key::W, Action::Press));
    handle_window_event(&mut s, WindowEvent::Other);
    assert_eq!(s, LoopState::new());
}

#[test]
fn focus_events_set_focus() {
    let mut s = LoopState::new();
    handle_window_event(&mut s, WindowEvent::Focus(false));
    assert!(!s.focused);
    assert!(!s.should_close);
    handle_window_event(&mut s, WindowEvent::Focus(true));
    assert!(s.focused);
}

#[test]
fn forward_alone_is_one_forward_step() {
    let s = LoopState::new();
    assert_eq!(frame_moves(&s, keys(true, false, false, false)), vec![Move::Forward]);
}

#[test]
fn no_keys_no_moves() {
    let s = LoopState::new();
    assert!(frame_moves(&s, keys(false, false, false, false)).is_empty());
}

#[test]
fn all_keys_move_in_fixed_order() {
    let s = LoopState::new();
    assert_eq!(
        frame_moves(&s, keys(true, true, true, true)),
        vec![Move::Forward, Move::Backward, Move::StrafeRight, Move::StrafeLeft]
    );
}

#[test]
fn diagonal_keys_compose() {
    let s = LoopState::new();
    assert_eq!(
        frame_moves(&s, keys(true, false, true, false)),
        vec![Move::Forward, Move::StrafeLeft]
    );
}

#[test]
fn unfocused_window_does_not_move() {
    let mut s = LoopState::new();
    handle_window_event(&mut s, WindowEvent::Focus(false));
    assert!(frame_moves(&s, keys(true, true, true, true)).is_empty());
}

#[test]
fn forward_then_backward_frames_cancel() {
    let s = LoopState::new();
    let there = frame_moves(&s, keys(true, false, false, false));
    let back = frame_moves(&s, keys(false, true, false, false));
    assert_eq!(there, vec![Move::Forward]);
    assert_eq!(back, vec![Move::Backward]);
    let net = |plan: &Vec<Move>| -> i32 {
        plan.iter()
            .map(|m| match m {
                Move::Forward => 1,
                Move::Backward => -1,
                _ => 0,
            })
            .sum()
    };
    assert_eq!(net(&there) + net(&back), 0);
}
