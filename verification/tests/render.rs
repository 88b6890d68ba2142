use display_test::animation::AnimationState;
use display_test::geometry::{line_color, LineColor, Point, ToScreen};

#[test]
fn no_display_flags_no_commands() {
    let mut s = AnimationState::default();
    s.display_horizontal = false;
    s.display_vertical = false;
    let cmds = s.render(800, 600, ToScreen { offset_x: 0, offset_y: 0 }, false);
    assert_eq!(cmds.len(), 0);
}

#[test]
fn both_display_flags_two_commands() {
    let mut s = AnimationState::default();
    s.display_horizontal = true;
    s.display_vertical = true;
    s.position = Point { x: 11, y: 22 };
    let cmds = s.render(800, 600, ToScreen { offset_x: 10, offset_y: 20 }, false);
    assert_eq!(cmds.len(), 2);
    // Horizontal first: full width at the current y, offset into screen
    // coordinates.
    assert_eq!(cmds[0].start, Point { x: 10, y: 42 });
    assert_eq!(cmds[0].end, Point { x: 810, y: 42 });
    // Vertical second: full height at the current x.
    assert_eq!(cmds[1].start, Point { x: 21, y: 20 });
    assert_eq!(cmds[1].end, Point { x: 21, y: 620 });
    assert_eq!(cmds[0].thickness, 1);
    assert_eq!(cmds[1].thickness, 1);
}

#[test]
fn horizontal_only_one_command() {
    let mut s = AnimationState::default();
    s.position = Point { x: 3, y: 4 };
    let cmds = s.render(100, 50, ToScreen { offset_x: 0, offset_y: 0 }, false);
    assert_eq!(cmds.len(), 1);
    assert_eq!(cmds[0].start, Point { x: 0, y: 4 });
    assert_eq!(cmds[0].end, Point { x: 100, y: 4 });
}

#[test]
fn vertical_only_one_command() {
    let mut s = AnimationState::default();
    s.display_horizontal = false;
    s.display_vertical = true;
    s.position = Point { x: 3, y: 4 };
    let cmds = s.render(100, 50, ToScreen { offset_x: 0, offset_y: 0 }, false);
    assert_eq!(cmds.len(), 1);
    assert_eq!(cmds[0].start, Point { x: 3, y: 0 });
    assert_eq!(cmds[0].end, Point { x: 3, y: 50 });
}

#[test]
fn line_color_follows_theme() {
    assert_eq!(line_color(true), LineColor::White);
    assert_eq!(line_color(false), LineColor::Black);
    let s = AnimationState::default();
    let dark = s.render(800, 600, ToScreen { offset_x: 0, offset_y: 0 }, true);
    assert_eq!(dark[0].color, LineColor::White);
    let light = s.render(800, 600, ToScreen { offset_x: 0, offset_y: 0 }, false);
    assert_eq!(light[0].color, LineColor::Black);
}

#[test]
fn to_screen_translates_points() {
    let t = ToScreen { offset_x: 7, offset_y: 9 };
    assert_eq!(t.apply(Point { x: 1, y: 2 }), Point { x: 8, y: 11 });
}
