//! Tests of the session controller: editing inputs, the one-way start
//! transition, the running-mode lock-out, and the step timer.

use life::session::{FrameInput, Mode, Session};

fn idle(now_ms: u64) -> FrameInput {
    FrameInput {
        start_pressed: false,
        clear_pressed: false,
        primary_held: false,
        secondary_held: false,
        pointer_row: 0,
        pointer_col: 0,
        now_ms,
    }
}

fn live_count(s: &Session) -> usize {
    let mut n = 0;
    for r in 0..life::grid::HEIGHT {
        for c in 0..life::grid::WIDTH {
            if s.grid().cell_state(r, c) {
                n += 1;
            }
        }
    }
    n
}

#[test]
fn new_session_is_editing_and_empty() {
    let s = Session::new(0);
    assert_eq!(s.mode(), Mode::Editing);
    assert!(!s.is_running());
    assert_eq!(live_count(&s), 0);
}

#[test]
fn painting_while_button_held_paints_each_frame() {
    let mut s = Session::new(0);
    // Dragging: the button stays held while the pointer moves.
    for col in [5, 6, 7] {
        s.frame(&FrameInput { primary_held: true, pointer_row: 4, pointer_col: col, ..idle(1) });
    }
    assert!(s.grid().cell_state(4, 5));
    assert!(s.grid().cell_state(4, 6));
    assert!(s.grid().cell_state(4, 7));
    assert_eq!(live_count(&s), 3);
}

#[test]
fn erasing_with_secondary_button() {
    let mut s = Session::new(0);
    s.frame(&FrameInput { primary_held: true, pointer_row: 4, pointer_col: 5, ..idle(1) });
    s.frame(&FrameInput { secondary_held: true, pointer_row: 4, pointer_col: 5, ..idle(2) });
    assert!(!s.grid().cell_state(4, 5));
    assert_eq!(live_count(&s), 0);
}

#[test]
fn clear_key_empties_the_grid_while_editing() {
    let mut s = Session::new(0);
    s.frame(&FrameInput { primary_held: true, pointer_row: 4, pointer_col: 5, ..idle(1) });
    s.frame(&FrameInput { primary_held: true, pointer_row: 9, pointer_col: 9, ..idle(2) });
    s.frame(&FrameInput { clear_pressed: true, ..idle(3) });
    assert_eq!(live_count(&s), 0);
}

#[test]
fn out_of_bounds_pointer_paints_nothing() {
    let mut s = Session::new(0);
    s.frame(&FrameInput { primary_held: true, pointer_row: -1, pointer_col: 5, ..idle(1) });
    s.frame(&FrameInput { primary_held: true, pointer_row: 0, pointer_col: -3, ..idle(2) });
    s.frame(&FrameInput {
        primary_held: true,
        pointer_row: life::grid::HEIGHT as i64,
        pointer_col: 0,
        ..idle(3)
    });
    assert_eq!(live_count(&s), 0);
}

#[test]
fn start_transition_is_one_way() {
    let mut s = Session::new(0);
    s.frame(&FrameInput { start_pressed: true, ..idle(1) });
    assert!(s.is_running());
    // Repeated presses and frames without presses leave it running.
    s.frame(&FrameInput { start_pressed: true, ..idle(2) });
    assert!(s.is_running());
    s.frame(&idle(3));
    assert!(s.is_running());
    assert_eq!(s.mode(), Mode::Running);
}

#[test]
fn running_locks_out_pointer_and_clear() {
    let mut s = Session::new(0);
    s.frame(&FrameInput { primary_held: true, pointer_row: 4, pointer_col: 5, ..idle(1) });
    s.frame(&FrameInput { start_pressed: true, ..idle(2) });
    assert!(s.is_running());
    // Within the step interval: painting, erasing and clearing all do nothing.
    s.frame(&FrameInput { primary_held: true, pointer_row: 8, pointer_col: 8, ..idle(10) });
    s.frame(&FrameInput { secondary_held: true, pointer_row: 4, pointer_col: 5, ..idle(20) });
    s.frame(&FrameInput { clear_pressed: true, ..idle(30) });
    assert!(s.grid().cell_state(4, 5));
    assert!(!s.grid().cell_state(8, 8));
    assert_eq!(live_count(&s), 1);
}

/// Put a horizontal blinker down and start the session at clock 0.
fn running_blinker() -> Session {
    let mut s = Session::new(0);
    for col in [9, 10, 11] {
        s.frame(&FrameInput { primary_held: true, pointer_row: 10, pointer_col: col, ..idle(0) });
    }
    s.frame(&FrameInput { start_pressed: true, ..idle(0) });
    s
}

fn blinker_is_horizontal(s: &Session) -> bool {
    [9, 10, 11].iter().all(|&c| s.grid().cell_state(10, c)) && live_count(s) == 3
}

fn blinker_is_vertical(s: &Session) -> bool {
    [9, 10, 11].iter().all(|&r| s.grid().cell_state(r, 10)) && live_count(s) == 3
}

#[test]
fn no_step_before_the_interval_elapses() {
    let mut s = running_blinker();
    for now in [10, 50, 80, 99] {
        s.frame(&idle(now));
        assert!(blinker_is_horizontal(&s), "stepped early at {} ms", now);
    }
}

#[test]
fn step_fires_at_most_once_per_interval() {
    let mut s = running_blinker();
    // Many frames inside the first interval: nothing happens.
    for now in [10, 50, 99] {
        s.frame(&idle(now));
    }
    assert!(blinker_is_horizontal(&s));
    // The deadline passes: exactly one generation.
    s.frame(&idle(100));
    assert!(blinker_is_vertical(&s));
    // Frames inside the new interval fire nothing further.
    for now in [101, 150, 199] {
        s.frame(&idle(now));
        assert!(blinker_is_vertical(&s));
    }
    // The next deadline: exactly one more generation.
    s.frame(&idle(200));
    assert!(blinker_is_horizontal(&s));
}

#[test]
fn step_fires_exactly_once_when_interval_exceeded_once() {
    let mut s = running_blinker();
    // One frame lands well past the deadline: still a single generation.
    s.frame(&idle(1000));
    assert!(blinker_is_vertical(&s));
    // Missed intervals are not batched or caught up.
    s.frame(&idle(1001));
    assert!(blinker_is_vertical(&s));
}

#[test]
fn start_frame_can_also_step_when_interval_already_elapsed() {
    // The start press and the first step may share a frame: the mode switch
    // is decided before the timer check.
    let mut s = Session::new(0);
    for col in [9, 10, 11] {
        s.frame(&FrameInput { primary_held: true, pointer_row: 10, pointer_col: col, ..idle(0) });
    }
    s.frame(&FrameInput { start_pressed: true, ..idle(150) });
    assert!(s.is_running());
    assert!(blinker_is_vertical(&s));
}
