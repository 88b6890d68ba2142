use vstd::prelude::*;
use vstd::arithmetic::div_mod::{lemma_add_mod_noop_right, lemma_mod_bound, lemma_small_mod};
use crate::animation::{AnimationState, MICROS_PER_SEC};
use crate::geometry::{color_for_theme, ToScreen};

verus! {

/// Whether the position lies on a `w × h` canvas.
pub open spec fn on_canvas(s: AnimationState, w: u32, h: u32) -> bool {
    &&& s.position.x < w
    &&& s.position.y < h
}

/// The state after a sequence of frames, all on the same `w × h` canvas,
/// at the given times.
pub open spec fn run(s: AnimationState, times: Seq<u64>, w: u32, h: u32) -> AnimationState
    decreases times.len(),
{
    if times.len() == 0 {
        s
    } else {
        run(s.stepped(times[0], w, h), times.drop_first(), w, h)
    }
}

/// One frame never moves the position off a positive canvas.
pub proof fn lemma_step_stays_on_canvas(s: AnimationState, time: u64, w: u32, h: u32)
    requires
        0 < w,
        0 < h,
        on_canvas(s, w, h),
    ensures
        on_canvas(s.stepped(time, w, h), w, h),
{
    lemma_mod_bound(s.position.x + 1, w as int);
    lemma_mod_bound(s.position.y + 1, h as int);
}

/// After any number of frames on the same positive canvas, a position on
/// the canvas is still on it.
pub proof fn lemma_run_stays_on_canvas(s: AnimationState, times: Seq<u64>, w: u32, h: u32)
    requires
        0 < w,
        0 < h,
        on_canvas(s, w, h),
    ensures
        on_canvas(run(s, times, w, h), w, h),
    decreases times.len(),
{
    if times.len() > 0 {
        lemma_step_stays_on_canvas(s, times[0], w, h);
        lemma_run_stays_on_canvas(s.stepped(times[0], w, h), times.drop_first(), w, h);
    }
}

/// With animation disabled the position never changes, whatever the
/// frames' times.
pub proof fn lemma_animation_disabled_freezes_position(
    s: AnimationState,
    times: Seq<u64>,
    w: u32,
    h: u32,
)
    requires
        !s.animation_enabled,
    ensures
        run(s, times, w, h).position == s.position,
    decreases times.len(),
{
    if times.len() > 0 {
        lemma_animation_disabled_freezes_position(
            s.stepped(times[0], w, h),
            times.drop_first(),
            w,
            h,
        );
    }
}

/// A frame that comes strictly more than `1 / speed` seconds after the
/// last advance moves the position by exactly one pixel on each axis,
/// modulo the canvas size, and records the frame's time.
pub proof fn lemma_qualifying_step_advances_one_pixel(
    s: AnimationState,
    time: u64,
    w: u32,
    h: u32,
)
    requires
        0 < w,
        0 < h,
        s.animation_enabled,
        (time - s.last_update_time) * (s.speed as int) > MICROS_PER_SEC,
    ensures
        s.stepped(time, w, h).position.x == (s.position.x + 1) % (w as int),
        s.stepped(time, w, h).position.y == (s.position.y + 1) % (h as int),
        s.stepped(time, w, h).last_update_time == time,
{
    lemma_mod_bound(s.position.x + 1, w as int);
    lemma_mod_bound(s.position.y + 1, h as int);
}

/// A frame that comes strictly less than `1 / speed` seconds after the
/// last advance leaves the whole state unchanged.
pub proof fn lemma_early_step_changes_nothing(s: AnimationState, time: u64, w: u32, h: u32)
    requires
        (time - s.last_update_time) * (s.speed as int) < MICROS_PER_SEC,
    ensures
        s.stepped(time, w, h) == s,
{
}

/// Frames that all come strictly less than `1 / speed` seconds after the
/// last advance leave the whole state unchanged, however many there are.
pub proof fn lemma_early_frames_change_nothing(
    s: AnimationState,
    times: Seq<u64>,
    w: u32,
    h: u32,
)
    requires
        forall|i: int|
            0 <= i < times.len() ==> ((#[trigger] times[i]) - s.last_update_time) * (
            s.speed as int) < MICROS_PER_SEC,
    ensures
        run(s, times, w, h) == s,
    decreases times.len(),
{
    if times.len() > 0 {
        lemma_early_step_changes_nothing(s, times[0], w, h);
        assert forall|i: int| 0 <= i < times.drop_first().len() implies ((
        #[trigger] times.drop_first()[i]) - s.last_update_time) * (s.speed as int)
            < MICROS_PER_SEC by {
            assert(times.drop_first()[i] == times[i + 1]);
        }
        lemma_early_frames_change_nothing(s, times.drop_first(), w, h);
    }
}

/// Every frame in `times` comes strictly more than `1 / speed` seconds
/// after the one before it, and the first strictly more than `1 / speed`
/// seconds after the last advance.
pub open spec fn well_spaced(s: AnimationState, times: Seq<u64>) -> bool {
    &&& (times.len() > 0 ==> (times[0] - s.last_update_time) * (s.speed as int)
        > MICROS_PER_SEC)
    &&& forall|i: int|
        0 < i < times.len() ==> ((#[trigger] times[i]) - times[i - 1]) * (s.speed as int)
            > MICROS_PER_SEC
}

/// With animation enabled, frames spaced strictly more than `1 / speed`
/// seconds apart each advance the position by exactly one pixel: after
/// `n` such frames it has moved by `n`, modulo the canvas size.
pub proof fn lemma_well_spaced_run_advances(s: AnimationState, times: Seq<u64>, w: u32, h: u32)
    requires
        0 < w,
        0 < h,
        s.animation_enabled,
        on_canvas(s, w, h),
        well_spaced(s, times),
    ensures
        run(s, times, w, h).position.x == (s.position.x + times.len()) % (w as int),
        run(s, times, w, h).position.y == (s.position.y + times.len()) % (h as int),
    decreases times.len(),
{
    if times.len() == 0 {
        lemma_small_mod(s.position.x as nat, w as nat);
        lemma_small_mod(s.position.y as nat, h as nat);
    } else {
        let s1 = s.stepped(times[0], w, h);
        lemma_qualifying_step_advances_one_pixel(s, times[0], w, h);
        lemma_step_stays_on_canvas(s, times[0], w, h);
        assert forall|i: int| 0 < i < times.drop_first().len() implies ((
        #[trigger] times.drop_first()[i]) - times.drop_first()[i - 1]) * (s1.speed as int)
            > MICROS_PER_SEC by {
            assert(times.drop_first()[i] == times[i + 1]);
            assert(times.drop_first()[i - 1] == times[i]);
        }
        assert(well_spaced(s1, times.drop_first()));
        lemma_well_spaced_run_advances(s1, times.drop_first(), w, h);
        let n = times.len();
        lemma_add_mod_noop_right(n - 1, s.position.x + 1, w as int);
        lemma_add_mod_noop_right(n - 1, s.position.y + 1, h as int);
        assert((n - 1) + (s.position.x + 1) == s.position.x + n);
        assert((n - 1) + (s.position.y + 1) == s.position.y + n);
    }
}

/// The flags, the speed menu and the selected speed never change across
/// frames; in particular a well-formed state stays well-formed, so the
/// selected speed is always a member of the fixed menu.
pub proof fn lemma_run_preserves_settings(s: AnimationState, times: Seq<u64>, w: u32, h: u32)
    ensures
        run(s, times, w, h).animation_enabled == s.animation_enabled,
        run(s, times, w, h).antialiasing_enabled == s.antialiasing_enabled,
        run(s, times, w, h).display_horizontal == s.display_horizontal,
        run(s, times, w, h).display_vertical == s.display_vertical,
        run(s, times, w, h).speeds == s.speeds,
        run(s, times, w, h).speed == s.speed,
        s.wf() ==> run(s, times, w, h).wf(),
    decreases times.len(),
{
    if times.len() > 0 {
        lemma_run_preserves_settings(s.stepped(times[0], w, h), times.drop_first(), w, h);
    }
}

/// The last-advance timestamp never decreases across a frame whose time
/// is at or after it.
pub proof fn lemma_last_update_time_monotonic(s: AnimationState, time: u64, w: u32, h: u32)
    requires
        s.last_update_time <= time,
    ensures
        s.last_update_time <= s.stepped(time, w, h).last_update_time,
{
}

/// With both display flags off a frame emits no draw commands.
pub proof fn lemma_no_display_no_commands(
    s: AnimationState,
    w: u32,
    h: u32,
    to_screen: ToScreen,
    dark_mode: bool,
)
    requires
        !s.display_horizontal,
        !s.display_vertical,
    ensures
        s.frame_commands(w, h, to_screen, dark_mode).len() == 0,
{
}

/// With both display flags on a frame emits exactly two draw commands:
/// first a horizontal segment spanning the full canvas width at the
/// current y, then a vertical segment spanning the full canvas height at
/// the current x, both one pixel thick in the theme's color.
pub proof fn lemma_both_displays_two_commands(
    s: AnimationState,
    w: u32,
    h: u32,
    to_screen: ToScreen,
    dark_mode: bool,
)
    requires
        s.display_horizontal,
        s.display_vertical,
        to_screen.offset_x + w <= u32::MAX,
        to_screen.offset_y + h <= u32::MAX,
        to_screen.offset_x + s.position.x <= u32::MAX,
        to_screen.offset_y + s.position.y <= u32::MAX,
    ensures
        s.frame_commands(w, h, to_screen, dark_mode).len() == 2,
        s.frame_commands(w, h, to_screen, dark_mode)[0].start.x == to_screen.offset_x,
        s.frame_commands(w, h, to_screen, dark_mode)[0].end.x == to_screen.offset_x + w,
        s.frame_commands(w, h, to_screen, dark_mode)[0].start.y == to_screen.offset_y
            + s.position.y,
        s.frame_commands(w, h, to_screen, dark_mode)[0].end.y == to_screen.offset_y
            + s.position.y,
        s.frame_commands(w, h, to_screen, dark_mode)[1].start.x == to_screen.offset_x
            + s.position.x,
        s.frame_commands(w, h, to_screen, dark_mode)[1].end.x == to_screen.offset_x
            + s.position.x,
        s.frame_commands(w, h, to_screen, dark_mode)[1].start.y == to_screen.offset_y,
        s.frame_commands(w, h, to_screen, dark_mode)[1].end.y == to_screen.offset_y + h,
        forall|i: int|
            0 <= i < 2 ==> #[trigger] s.frame_commands(w, h, to_screen, dark_mode)[i].color
                == color_for_theme(dark_mode),
        forall|i: int|
            0 <= i < 2 ==> #[trigger] s.frame_commands(w, h, to_screen, dark_mode)[i].thickness
                == 1,
{
}

} // verus!
