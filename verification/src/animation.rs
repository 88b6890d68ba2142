use vstd::prelude::*;
use crate::geometry::{color_for_theme, line_color, DrawCommand, Point, ToScreen};

verus! {

/// Timestamps handed to the animation are whole microseconds read from a
/// monotonic clock.
pub const MICROS_PER_SEC: u64 = 1_000_000;

/// The fixed menu of selectable speeds, in pixels per second.
pub open spec fn speed_menu() -> Seq<u32> {
    seq![20u32, 30u32, 40u32, 50u32, 60u32, 90u32, 120u32, 150u32]
}

/// The state behind the display test: the current line position, the
/// time bookkeeping of the fixed-step animation, the user-togglable
/// flags, and the speed selection.
pub struct AnimationState {
    /// Current line position on the logical canvas.
    pub position: Point,
    /// Timestamp (microseconds) of the last position advance.
    pub last_update_time: u64,
    /// Whether the candidate position of a frame is committed.
    pub animation_enabled: bool,
    /// Whether the renderer's edge feathering should be on.
    pub antialiasing_enabled: bool,
    /// Whether a frame emits the horizontal line.
    pub display_horizontal: bool,
    /// Whether a frame emits the vertical line.
    pub display_vertical: bool,
    /// The menu of selectable speeds; set at construction, immutable after.
    pub speeds: Vec<u32>,
    /// The selected speed in pixels per second, always a member of `speeds`.
    pub speed: u32,
}

impl AnimationState {
    /// Well-formedness: the speed menu is the fixed one and the selected
    /// speed is a member of it.
    pub open spec fn wf(&self) -> bool {
        &&& self.speeds@ == speed_menu()
        &&& speed_menu().contains(self.speed)
    }

    /// Whether a frame at `time` advances the position: strictly more
    /// than `1 / speed` seconds have elapsed since the last advance.
    pub open spec fn ticks(&self, time: u64) -> bool {
        (time - self.last_update_time) * (self.speed as int) > MICROS_PER_SEC
    }

    /// The candidate position of a frame at `time` on a `w × h` canvas:
    /// one pixel further on both axes, each axis wrapping modulo the
    /// canvas size, when the frame qualifies; unchanged otherwise.
    pub open spec fn candidate_position(&self, time: u64, w: u32, h: u32) -> Point {
        if self.ticks(time) {
            Point {
                x: ((self.position.x + 1) % (w as int)) as u32,
                y: ((self.position.y + 1) % (h as int)) as u32,
            }
        } else {
            self.position
        }
    }

    /// The position after a frame: the candidate when animation is
    /// enabled, the old position otherwise.
    pub open spec fn next_position(&self, time: u64, w: u32, h: u32) -> Point {
        if self.animation_enabled {
            self.candidate_position(time, w, h)
        } else {
            self.position
        }
    }

    /// The last-advance timestamp after a frame: the frame's time when it
    /// qualifies, unchanged otherwise — also when animation is disabled.
    pub open spec fn next_last_update_time(&self, time: u64) -> u64 {
        if self.ticks(time) {
            time
        } else {
            self.last_update_time
        }
    }

    /// The whole state after one frame at `time` on a `w × h` canvas:
    /// only the position and the time bookkeeping can change.
    pub open spec fn stepped(&self, time: u64, w: u32, h: u32) -> AnimationState {
        AnimationState {
            position: self.next_position(time, w, h),
            last_update_time: self.next_last_update_time(time),
            animation_enabled: self.animation_enabled,
            antialiasing_enabled: self.antialiasing_enabled,
            display_horizontal: self.display_horizontal,
            display_vertical: self.display_vertical,
            speeds: self.speeds,
            speed: self.speed,
        }
    }

    /// Steps the animation for one frame at `time` on a `w × h` canvas.
    ///
    /// The candidate position moves by exactly one pixel on both axes,
    /// wrapping modulo the canvas size, when strictly more than
    /// `1 / speed` seconds have elapsed since the last advance; frames
    /// that come faster leave it unchanged (no catch-up). The candidate
    /// is committed only when animation is enabled; the time bookkeeping
    /// advances either way.
    pub fn advance(&mut self, time: u64, w: u32, h: u32)
        requires
            old(self).last_update_time <= time,
            0 < w,
            0 < h,
        ensures
            *final(self) == old(self).stepped(time, w, h),
    {
        let dt: u64 = time - self.last_update_time;
        proof {
            assert((dt as int) * (self.speed as int) <= (u64::MAX as int) * (u32::MAX as int))
                by (nonlinear_arith)
                requires
                    0 <= dt as int <= u64::MAX as int,
                    0 <= self.speed as int <= u32::MAX as int,
            ;
        }
        let ticked: bool = (dt as u128) * (self.speed as u128) > (MICROS_PER_SEC as u128);
        let mut x: u32 = self.position.x;
        let mut y: u32 = self.position.y;
        if ticked {
            x = (((x as u64) + 1) % (w as u64)) as u32;
            y = (((y as u64) + 1) % (h as u64)) as u32;
            self.last_update_time = time;
        }
        if self.animation_enabled {
            self.position = Point { x, y };
        }
    }

    /// The draw commands a frame emits: a horizontal segment spanning the
    /// full canvas width at the current y when the horizontal line is
    /// shown, then a vertical segment spanning the full canvas height at
    /// the current x when the vertical line is shown — both mapped to
    /// screen coordinates and one pixel thick in the theme's color.
    pub open spec fn frame_commands(&self, w: u32, h: u32, to_screen: ToScreen, dark_mode: bool) -> Seq<DrawCommand> {
        let color = color_for_theme(dark_mode);
        let horizontal = DrawCommand {
            start: to_screen.spec_apply(Point { x: 0, y: self.position.y }),
            end: to_screen.spec_apply(Point { x: w, y: self.position.y }),
            color: color,
            thickness: 1,
        };
        let vertical = DrawCommand {
            start: to_screen.spec_apply(Point { x: self.position.x, y: 0 }),
            end: to_screen.spec_apply(Point { x: self.position.x, y: h }),
            color: color,
            thickness: 1,
        };
        let base = Seq::<DrawCommand>::empty();
        let with_horizontal = if self.display_horizontal {
            base.push(horizontal)
        } else {
            base
        };
        if self.display_vertical {
            with_horizontal.push(vertical)
        } else {
            with_horizontal
        }
    }

    /// Emits the current frame's draw commands.
    pub fn render(&self, w: u32, h: u32, to_screen: ToScreen, dark_mode: bool) -> (cmds: Vec<DrawCommand>)
        requires
            to_screen.offset_x + w <= u32::MAX,
            to_screen.offset_y + h <= u32::MAX,
            to_screen.offset_x + self.position.x <= u32::MAX,
            to_screen.offset_y + self.position.y <= u32::MAX,
        ensures
            cmds@ == self.frame_commands(w, h, to_screen, dark_mode),
    {
        let color = line_color(dark_mode);
        let mut cmds: Vec<DrawCommand> = Vec::new();
        if self.display_horizontal {
            let start = to_screen.apply(Point { x: 0, y: self.position.y });
            let end = to_screen.apply(Point { x: w, y: self.position.y });
            cmds.push(DrawCommand { start: start, end: end, color: color, thickness: 1 });
        }
        if self.display_vertical {
            let start = to_screen.apply(Point { x: self.position.x, y: 0 });
            let end = to_screen.apply(Point { x: self.position.x, y: h });
            cmds.push(DrawCommand { start: start, end: end, color: color, thickness: 1 });
        }
        proof {
            assert(cmds@ =~= self.frame_commands(w, h, to_screen, dark_mode));
        }
        cmds
    }

    /// One per-frame call: advances the state as `advance` does, then
    /// returns the frame's draw commands. The host is expected to request
    /// an immediate redraw after every call, whether or not the position
    /// changed.
    pub fn advance_and_render(&mut self, time: u64, w: u32, h: u32, to_screen: ToScreen, dark_mode: bool) -> (cmds: Vec<DrawCommand>)
        requires
            old(self).last_update_time <= time,
            0 < w,
            0 < h,
            to_screen.offset_x + w <= u32::MAX,
            to_screen.offset_y + h <= u32::MAX,
            to_screen.offset_x + old(self).position.x <= u32::MAX,
            to_screen.offset_y + old(self).position.y <= u32::MAX,
        ensures
            *final(self) == old(self).stepped(time, w, h),
            cmds@ == final(self).frame_commands(w, h, to_screen, dark_mode),
    {
        self.advance(time, w, h);
        self.render(w, h, to_screen, dark_mode)
    }

    /// Selects the menu entry at `index`: sets `speed` to exactly that
    /// menu value and changes nothing else.
    pub fn select_speed(&mut self, index: usize)
        requires
            index < old(self).speeds@.len(),
        ensures
            final(self).speed == old(self).speeds@[index as int],
            final(self).position == old(self).position,
            final(self).last_update_time == old(self).last_update_time,
            final(self).animation_enabled == old(self).animation_enabled,
            final(self).antialiasing_enabled == old(self).antialiasing_enabled,
            final(self).display_horizontal == old(self).display_horizontal,
            final(self).display_vertical == old(self).display_vertical,
            final(self).speeds == old(self).speeds,
            old(self).wf() ==> final(self).wf(),
    {
        self.speed = self.speeds[index];
        proof {
            if old(self).wf() {
                assert(speed_menu()[index as int] == self.speed);
                assert(speed_menu().contains(self.speed));
            }
        }
    }
}

impl Default for AnimationState {
    /// The startup state: position at the origin, never yet advanced,
    /// animation on, anti-aliasing off, horizontal line shown, vertical
    /// hidden, and the slowest entry of the fixed menu selected.
    fn default() -> (s: AnimationState)
        ensures
            s.wf(),
            s.position == (Point { x: 0u32, y: 0u32 }),
            s.last_update_time == 0,
            s.animation_enabled,
            !s.antialiasing_enabled,
            s.display_horizontal,
            !s.display_vertical,
            s.speeds@ == speed_menu(),
            s.speed == 20u32,
    {
        let mut speeds: Vec<u32> = Vec::new();
        speeds.push(20);
        speeds.push(30);
        speeds.push(40);
        speeds.push(50);
        speeds.push(60);
        speeds.push(90);
        speeds.push(120);
        speeds.push(150);
        proof {
            assert(speeds@ =~= speed_menu());
        }
        let speed: u32 = speeds[0];
        let s = AnimationState {
            position: Point { x: 0, y: 0 },
            last_update_time: 0,
            animation_enabled: true,
            antialiasing_enabled: false,
            display_horizontal: true,
            display_vertical: false,
            speeds: speeds,
            speed: speed,
        };
        proof {
            assert(speed_menu()[0] == 20u32);
            assert(speed_menu().contains(20u32));
        }
        s
    }
}

} // verus!
