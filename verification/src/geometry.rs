use vstd::prelude::*;

verus! {

/// A point on the logical canvas, in whole logical pixels.
#[derive(Clone, Copy, PartialEq, Eq, Structural, Debug)]
pub struct Point {
    pub x: u32,
    pub y: u32,
}

/// The two colors the style policy allows for the line: white on a dark
/// theme, black on a light one.
#[derive(Clone, Copy, PartialEq, Eq, Structural, Debug)]
pub enum LineColor {
    Black,
    White,
}

/// The color the style policy picks for the given theme.
pub open spec fn color_for_theme(dark_mode: bool) -> LineColor {
    if dark_mode {
        LineColor::White
    } else {
        LineColor::Black
    }
}

/// Picks the line color from the active theme: white when the theme is
/// dark, black otherwise.
pub fn line_color(dark_mode: bool) -> (c: LineColor)
    ensures
        c == color_for_theme(dark_mode),
{
    if dark_mode {
        LineColor::White
    } else {
        LineColor::Black
    }
}

/// A line-segment draw command, already in screen coordinates.
#[derive(Clone, Copy, PartialEq, Eq, Structural, Debug)]
pub struct DrawCommand {
    pub start: Point,
    pub end: Point,
    pub color: LineColor,
    /// Stroke thickness in logical pixels; the style policy fixes it at 1.
    pub thickness: u32,
}

/// The affine map from the logical canvas rectangle to the screen
/// rectangle it is drawn into. The two rectangles have the same size, so
/// the map is the translation by the screen rectangle's top-left corner.
#[derive(Clone, Copy, PartialEq, Eq, Structural, Debug)]
pub struct ToScreen {
    pub offset_x: u32,
    pub offset_y: u32,
}

impl ToScreen {
    /// Where the map sends a logical point.
    pub open spec fn spec_apply(self, p: Point) -> Point {
        Point { x: (self.offset_x + p.x) as u32, y: (self.offset_y + p.y) as u32 }
    }

    /// Maps a logical point into screen coordinates.
    pub fn apply(&self, p: Point) -> (r: Point)
        requires
            self.offset_x + p.x <= u32::MAX,
            self.offset_y + p.y <= u32::MAX,
        ensures
            r == self.spec_apply(p),
    {
        Point { x: self.offset_x + p.x, y: self.offset_y + p.y }
    }
}

} // verus!
