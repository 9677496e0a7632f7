use engine_core::input::{decide_state, just_released_after_drag, MouseDraggingRestriction, MouseInput};

type Input = MouseInput<(i32, i32), u32>;

#[test]
fn short_still_press_is_a_click_where_it_began() {
    let s: Input = decide_state((1, 1), (1, 2), 5, false, false);
    assert!(matches!(s, MouseInput::Clicked { pos: (1, 1) }));
}

#[test]
fn long_still_press_is_a_hold_at_the_pointer() {
    let s: Input = decide_state((1, 1), (1, 2), 5, true, false);
    assert!(matches!(s, MouseInput::Holding { pos: (1, 2), dur: 5 }));
}

#[test]
fn far_move_is_a_drag_whether_long_or_not() {
    let s: Input = decide_state((1, 1), (9, 9), 5, true, true);
    assert!(matches!(s, MouseInput::Dragging { start_pos: (1, 1), curr_pos: (9, 9) }));
    let s: Input = decide_state((1, 1), (9, 9), 5, false, true);
    assert!(s.is_draggin());
}

#[test]
fn release_after_drag() {
    let drag: Input = MouseInput::Dragging { start_pos: (0, 0), curr_pos: (3, 4) };
    let idle: Input = MouseInput::Idle;
    let click: Input = MouseInput::Clicked { pos: (0, 0) };
    assert!(just_released_after_drag(&drag, &idle));
    assert!(!just_released_after_drag(&drag, &drag));
    assert!(!just_released_after_drag(&click, &idle));
    assert!(!just_released_after_drag(&idle, &idle));
    assert!(idle.is_idle() && !drag.is_idle());
}

#[test]
fn restriction() {
    assert!(MouseDraggingRestriction::Yes { max_distance: 50u32 }.is_restricted());
    assert!(!MouseDraggingRestriction::<u32>::No.is_restricted());
}

use engine_core::input::{click_action, MouseButtonState};

#[test]
fn press_latches_start_and_release_goes_idle() {
    let mut b: MouseButtonState<(i32, i32), u32> = MouseButtonState::new((0, 0));
    b.press((5, 5));
    assert_eq!((b.start_pos, b.curr_pos, b.key_down), ((5, 5), (5, 5), true));
    assert!(b.latest_state.is_idle());
    b.settle(1, false, false);
    assert!(matches!(b.state, MouseInput::Clicked { pos: (5, 5) }));
    b.press((9, 7));
    assert_eq!((b.start_pos, b.curr_pos), ((5, 5), (9, 7)));
    assert!(matches!(b.latest_state, MouseInput::Clicked { pos: (5, 5) }));
    b.settle(2, false, true);
    assert!(matches!(b.state, MouseInput::Dragging { start_pos: (5, 5), curr_pos: (9, 7) }));
    b.release();
    assert!(b.latest_state.is_draggin());
    assert!(b.state.is_idle());
    assert!(!b.key_down);
    assert!(just_released_after_drag(&b.latest_state, &b.state));
    b.press((1, 1));
    assert_eq!(b.start_pos, (1, 1));
}

#[test]
fn clicks_spawn_only_when_free_and_ready() {
    let click: Input = MouseInput::Clicked { pos: (3, 4) };
    assert_eq!(click_action(&click, true, true, false, false), (Some((3, 4)), false));
    assert_eq!(click_action(&click, false, true, false, false), (None, false));
    assert_eq!(click_action(&click, true, false, false, false), (None, false));
    assert_eq!(click_action(&click, true, true, true, false), (None, false));
    let idle: Input = MouseInput::Idle;
    assert_eq!(click_action(&idle, true, true, false, true), (None, true));
    let hold: Input = MouseInput::Holding { pos: (1, 1), dur: 3 };
    assert_eq!(click_action(&hold, true, true, false, false), (None, false));
}
