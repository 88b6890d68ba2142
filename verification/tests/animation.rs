use display_test::animation::AnimationState;
use display_test::geometry::{Point, ToScreen};

#[test]
fn default_state_matches_startup() {
    let s = AnimationState::default();
    assert_eq!(s.position, Point { x: 0, y: 0 });
    assert_eq!(s.last_update_time, 0);
    assert!(s.animation_enabled);
    assert!(!s.antialiasing_enabled);
    assert!(s.display_horizontal);
    assert!(!s.display_vertical);
    assert_eq!(s.speeds, vec![20, 30, 40, 50, 60, 90, 120, 150]);
    assert_eq!(s.speed, 20);
}

#[test]
fn first_qualifying_frame_scenario() {
    // Canvas 800 x 600, speed 20 px/s (threshold 50 ms), start at the
    // origin, animation on, both lines shown; one frame at t = 0.06 s.
    let mut s = AnimationState::default();
    s.display_vertical = true;
    let to_screen = ToScreen { offset_x: 0, offset_y: 0 };
    let cmds = s.advance_and_render(60_000, 800, 600, to_screen, false);
    assert_eq!(s.position, Point { x: 1, y: 1 });
    assert_eq!(s.last_update_time, 60_000);
    assert_eq!(cmds.len(), 2);
    assert_eq!(cmds[0].start, Point { x: 0, y: 1 });
    assert_eq!(cmds[0].end, Point { x: 800, y: 1 });
    assert_eq!(cmds[1].start, Point { x: 1, y: 0 });
    assert_eq!(cmds[1].end, Point { x: 1, y: 600 });
}

#[test]
fn frame_at_exact_threshold_does_not_move() {
    // At speed 20 the threshold is exactly 50 ms; dt must exceed it.
    let mut s = AnimationState::default();
    s.advance(50_000, 800, 600);
    assert_eq!(s.position, Point { x: 0, y: 0 });
    assert_eq!(s.last_update_time, 0);
}

#[test]
fn frame_just_over_threshold_moves() {
    let mut s = AnimationState::default();
    s.advance(50_001, 800, 600);
    assert_eq!(s.position, Point { x: 1, y: 1 });
    assert_eq!(s.last_update_time, 50_001);
}

#[test]
fn early_frames_do_not_move() {
    let mut s = AnimationState::default();
    s.advance(10_000, 800, 600);
    s.advance(20_000, 800, 600);
    s.advance(49_999, 800, 600);
    assert_eq!(s.position, Point { x: 0, y: 0 });
    assert_eq!(s.last_update_time, 0);
}

#[test]
fn position_wraps_at_canvas_edge() {
    let mut s = AnimationState::default();
    s.position = Point { x: 799, y: 599 };
    s.advance(60_000, 800, 600);
    assert_eq!(s.position, Point { x: 0, y: 0 });
}

#[test]
fn animation_disabled_freezes_position() {
    let mut s = AnimationState::default();
    s.position = Point { x: 5, y: 7 };
    s.animation_enabled = false;
    s.advance(60_000, 800, 600);
    s.advance(120_000, 800, 600);
    assert_eq!(s.position, Point { x: 5, y: 7 });
}

#[test]
fn animation_disabled_still_advances_clock() {
    let mut s = AnimationState::default();
    s.animation_enabled = false;
    s.advance(60_000, 800, 600);
    assert_eq!(s.last_update_time, 60_000);
}

#[test]
fn select_speed_sets_each_menu_value() {
    let mut s = AnimationState::default();
    let expected: [u32; 8] = [20, 30, 40, 50, 60, 90, 120, 150];
    for i in 0..8usize {
        s.select_speed(i);
        assert_eq!(s.speed, expected[i]);
    }
}

#[test]
fn faster_speed_lowers_threshold() {
    // At speed 150 the threshold is 1/150 s: 6_666 us is not enough,
    // 6_667 us is.
    let mut s = AnimationState::default();
    s.select_speed(7);
    assert_eq!(s.speed, 150);
    s.advance(6_666, 800, 600);
    assert_eq!(s.position, Point { x: 0, y: 0 });
    s.advance(6_667, 800, 600);
    assert_eq!(s.position, Point { x: 1, y: 1 });
    assert_eq!(s.last_update_time, 6_667);
}

#[test]
fn well_spaced_frames_advance_each_call() {
    // Frames 60 ms apart at speed 20 (threshold 50 ms): one pixel each.
    let mut s = AnimationState::default();
    s.advance(60_000, 800, 600);
    assert_eq!(s.position, Point { x: 1, y: 1 });
    s.advance(120_000, 800, 600);
    assert_eq!(s.position, Point { x: 2, y: 2 });
    s.advance(180_000, 800, 600);
    assert_eq!(s.position, Point { x: 3, y: 3 });
}

#[test]
fn position_stays_on_canvas_many_frames() {
    let mut s = AnimationState::default();
    let mut time: u64 = 0;
    for _ in 0..500usize {
        time += 51_000;
        s.advance(time, 7, 3);
        assert!(s.position.x < 7);
        assert!(s.position.y < 3);
    }
}

#[test]
fn one_by_one_canvas_pins_position_to_origin() {
    let mut s = AnimationState::default();
    s.advance(60_000, 1, 1);
    assert_eq!(s.position, Point { x: 0, y: 0 });
    s.advance(120_000, 1, 1);
    assert_eq!(s.position, Point { x: 0, y: 0 });
}
