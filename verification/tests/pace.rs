use pong::pacing::{GameLoop, NANOS_PER_SECOND};

#[test]
fn new_game_loop_waits_for_a_whole_frame() {
    let game_loop = GameLoop::new(1_000);
    assert_eq!(game_loop.frame(), 0);
    assert_eq!(game_loop.time_left(0), 1_000);
}

#[test]
fn time_left_runs_down_to_zero() {
    let game_loop = GameLoop::new(1_000);
    assert_eq!(game_loop.time_left(400), 600);
    assert_eq!(game_loop.time_left(999), 1);
    assert_eq!(game_loop.time_left(1_000), 0);
    assert_eq!(game_loop.time_left(1_001), 0);
    assert_eq!(game_loop.time_left(u64::MAX), 0);
}

#[test]
fn next_counts_frames_from_zero() {
    let mut game_loop = GameLoop::new(1_000);
    assert_eq!(game_loop.next(1_000), Some(0));
    assert_eq!(game_loop.next(2_000), Some(1));
    assert_eq!(game_loop.next(3_500), Some(2));
    assert_eq!(game_loop.frame(), 3);
}

#[test]
fn next_begins_the_frame_at_the_time_given() {
    let mut game_loop = GameLoop::new(1_000);
    game_loop.next(1_500);
    assert_eq!(game_loop.time_left(1_500), 1_000);
    assert_eq!(game_loop.time_left(1_700), 800);
    assert_eq!(game_loop.time_left(2_500), 0);
    assert_eq!(game_loop.time_left(0), 2_500);
}

#[test]
fn time_left_does_not_overflow_at_end_of_clock() {
    let mut game_loop = GameLoop::new(u64::MAX);
    game_loop.next(u64::MAX);
    assert_eq!(game_loop.time_left(u64::MAX), u64::MAX as u128);
    assert_eq!(game_loop.time_left(0), 2 * (u64::MAX as u128));
}

#[test]
fn from_fps_divides_a_second() {
    assert_eq!(NANOS_PER_SECOND, 1_000_000_000);
    assert_eq!(GameLoop::from_fps(10).time_left(0), 100_000_000);
    assert_eq!(GameLoop::from_fps(1).time_left(0), 1_000_000_000);
    assert_eq!(GameLoop::from_fps(3).time_left(0), 333_333_333);
    assert_eq!(GameLoop::from_fps(60).time_left(0), 16_666_666);
    assert_eq!(GameLoop::from_fps(1_000_000_001).time_left(0), 0);
    assert_eq!(GameLoop::from_fps(10).frame(), 0);
}

#[test]
fn zero_frame_duration_never_waits() {
    let mut game_loop = GameLoop::new(0);
    assert_eq!(game_loop.time_left(0), 0);
    assert_eq!(game_loop.next(5), Some(0));
    assert_eq!(game_loop.time_left(5), 0);
    assert_eq!(game_loop.time_left(4), 1);
}
