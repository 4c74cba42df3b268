use oxideoverflow::window::{next_window, PollState, TimeWindow};

#[test]
fn first_window_starts_at_the_clock_reading() {
    let (window, state) = next_window(PollState::new(), 1_600_000_000, 15);
    assert_eq!(window, TimeWindow { from: 1_600_000_000, to: 1_600_000_015 });
    assert_eq!(state.last_window_end, Some(1_600_000_015));
}

#[test]
fn new_state_has_no_watermark_and_no_iterations() {
    let state = PollState::new();
    assert_eq!(state.last_window_end, None);
    assert_eq!(state.iteration_count, 0);
}

#[test]
fn next_window_starts_where_the_last_one_ended() {
    let (first, state) = next_window(PollState::new(), 1_000, 15);
    let (second, state) = next_window(state, 1_015, 15);
    assert_eq!(first.to, second.from);
    assert_eq!(second, TimeWindow { from: 1_015, to: 1_030 });
    assert_eq!(state.last_window_end, Some(1_030));
}

#[test]
fn late_clock_reading_leaves_no_gap() {
    let (first, state) = next_window(PollState::new(), 1_000, 15);
    let (second, _) = next_window(state, 1_019, 15);
    assert_eq!(second.from, first.to);
    assert_eq!(second.to, 1_034);
}

#[test]
fn windows_of_many_iterations_are_contiguous() {
    let clock: [u64; 6] = [500, 515, 531, 545, 561, 580];
    let mut state = PollState::new();
    let mut windows: Vec<TimeWindow> = Vec::new();
    for now in clock {
        let (window, next) = next_window(state, now, 15);
        windows.push(window);
        state = next;
    }
    assert_eq!(windows[0].from, 500);
    for i in 0..windows.len() - 1 {
        assert_eq!(windows[i].to, windows[i + 1].from);
    }
    for i in 0..windows.len() {
        assert_eq!(windows[i].to, clock[i] + 15);
        assert!(windows[i].from < windows[i].to);
    }
}

#[test]
fn zero_interval_gives_an_empty_first_window() {
    let (window, state) = next_window(PollState::new(), 42, 0);
    assert_eq!(window, TimeWindow { from: 42, to: 42 });
    assert_eq!(state.last_window_end, Some(42));
}

#[test]
fn next_window_keeps_the_iteration_count() {
    let state = PollState { last_window_end: Some(10), iteration_count: 7 };
    let (window, next) = next_window(state, 20, 5);
    assert_eq!(window, TimeWindow { from: 10, to: 25 });
    assert_eq!(next.iteration_count, 7);
}

#[test]
fn window_ends_at_the_largest_second() {
    let (window, state) = next_window(PollState::new(), u64::MAX - 15, 15);
    assert_eq!(window.to, u64::MAX);
    assert_eq!(state.last_window_end, Some(u64::MAX));
}

#[test]
fn clock_set_back_still_starts_at_the_watermark() {
    let (first, state) = next_window(PollState::new(), 1_000, 15);
    let (second, _) = next_window(state, 900, 15);
    assert_eq!(second.from, first.to);
    assert_eq!(second.to, 915);
}
