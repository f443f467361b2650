//! The drawing commands that the renderer hands to whoever owns the display.

use vstd::prelude::*;
use crate::color::Rgb565;

verus! {

/// One call on the display. Coordinates are pixels, origin at the top left,
/// `y` growing downwards.
#[derive(Clone, Copy, PartialEq, Eq, Debug, Structural)]
pub enum DrawCommand {
    /// Fill the whole display.
    Clear { color: Rgb565 },
    /// Fill the rectangle with top-left corner `(x, y)`.
    FillRect { x: i32, y: i32, width: u32, height: u32, color: Rgb565 },
    /// Draw one character in the screen's font with its baseline starting at `(x, y)`.
    Text { ch: char, x: i32, y: i32, fg: Rgb565, bg: Rgb565 },
    /// Draw a line from `(x0, y0)` to `(x1, y1)`.
    Line { x0: i32, y0: i32, x1: i32, y1: i32, stroke: u32, color: Rgb565 },
    /// Draw part of a circle whose bounding square has top-left corner `(x, y)`:
    /// `sweep_deg` degrees starting at `start_deg`.
    Arc { x: i32, y: i32, diameter: u32, start_deg: u16, sweep_deg: u16, stroke: u32, color: Rgb565 },
    /// Set one pixel.
    Pixel { x: i32, y: i32, color: Rgb565 },
    /// Draw the outline of the rectangle with top-left corner `(x, y)`.
    RectOutline { x: i32, y: i32, width: u32, height: u32, stroke: u32, color: Rgb565 },
}

/// A line between two points given as mathematical integers.
pub open spec fn line(x0: int, y0: int, x1: int, y1: int, stroke: u32, color: Rgb565) -> DrawCommand {
    DrawCommand::Line { x0: x0 as i32, y0: y0 as i32, x1: x1 as i32, y1: y1 as i32, stroke, color }
}

/// A filled rectangle given as mathematical integers.
pub open spec fn fill(x: int, y: int, width: int, height: int, color: Rgb565) -> DrawCommand {
    DrawCommand::FillRect { x: x as i32, y: y as i32, width: width as u32, height: height as u32, color }
}

/// A quarter circle of one pixel's stroke.
pub open spec fn quarter_arc(x: int, y: int, diameter: int, start_deg: u16, color: Rgb565) -> DrawCommand {
    DrawCommand::Arc {
        x: x as i32,
        y: y as i32,
        diameter: diameter as u32,
        start_deg,
        sweep_deg: 90,
        stroke: 1,
        color,
    }
}

pub(crate) fn make_line(x0: i32, y0: i32, x1: i32, y1: i32, stroke: u32, color: Rgb565) -> (c: DrawCommand)
    ensures
        c == line(x0 as int, y0 as int, x1 as int, y1 as int, stroke, color),
{
    DrawCommand::Line { x0, y0, x1, y1, stroke, color }
}

pub(crate) fn make_fill(x: i32, y: i32, width: u32, height: u32, color: Rgb565) -> (c: DrawCommand)
    ensures
        c == fill(x as int, y as int, width as int, height as int, color),
{
    DrawCommand::FillRect { x, y, width, height, color }
}

pub(crate) fn make_arc(x: i32, y: i32, diameter: u32, start_deg: u16, color: Rgb565) -> (c: DrawCommand)
    ensures
        c == quarter_arc(x as int, y as int, diameter as int, start_deg, color),
{
    DrawCommand::Arc { x, y, diameter, start_deg, sweep_deg: 90, stroke: 1, color }
}

} // verus!
