//! Box-drawing and block characters, built from lines, rectangles, arcs and
//! pixels inside one cell, because the font has no glyphs for them.

use vstd::prelude::*;
use crate::color::Rgb565;
use crate::draw::{fill, line, make_arc, make_fill, make_line, quarter_arc, DrawCommand};

verus! {

/// Whether the code point is in the range that is drawn from primitives.
pub open spec fn is_box_char(c: char) -> bool {
    0x2500 <= c as u32 <= 0x259F
}

/// Whether the pixel at offset `(px, py)` inside a cell is lit for a shade of
/// the given density: 1 lights a quarter of the pixels, 2 half, 3 three
/// quarters; any other density lights none.
pub open spec fn shade_lit(density: u8, px: int, py: int) -> bool {
    if density == 1 {
        px % 2 == 0 && py % 2 == 0
    } else if density == 2 {
        (px + py) % 2 == 0
    } else if density == 3 {
        !(px % 2 == 0 && py % 2 == 0)
    } else {
        false
    }
}

/// The lit pixels among the first `n` of pixel row `py` of a cell, left to right.
pub open spec fn shade_row(x: int, y: int, py: int, n: int, color: Rgb565, density: u8) -> Seq<DrawCommand>
    decreases n,
{
    if n <= 0 {
        Seq::empty()
    } else {
        let before = shade_row(x, y, py, n - 1, color, density);
        if shade_lit(density, n - 1, py) {
            before.push(DrawCommand::Pixel { x: (x + n - 1) as i32, y: (y + py) as i32, color })
        } else {
            before
        }
    }
}

/// The lit pixels of the first `n` pixel rows of a cell `w` pixels wide, row by row.
pub open spec fn shade_rows(x: int, y: int, w: int, n: int, color: Rgb565, density: u8) -> Seq<DrawCommand>
    decreases n,
{
    if n <= 0 {
        Seq::empty()
    } else {
        shade_rows(x, y, w, n - 1, color, density) + shade_row(x, y, n - 1, w, color, density)
    }
}

/// The commands that draw a shaded cell.
pub open spec fn shade_commands(x: u16, y: u16, w: u16, h: u16, color: Rgb565, density: u8) -> Seq<DrawCommand> {
    shade_rows(x as int, y as int, w as int, h as int, color, density)
}

/// Draws a shade character into the cell at `(x, y)` of size `w` by `h`, pixel by pixel.
pub fn draw_shade(x: u16, y: u16, w: u16, h: u16, color: Rgb565, density: u8) -> (cmds: Vec<DrawCommand>)
    ensures
        cmds@ == shade_commands(x, y, w, h, color, density),
{
    let mut cmds: Vec<DrawCommand> = Vec::new();
    let mut py: u16 = 0;
    while py < h
        invariant
            py <= h,
            cmds@ == shade_rows(x as int, y as int, w as int, py as int, color, density),
        decreases h - py,
    {
        let ghost done = cmds@;
        let mut px: u16 = 0;
        while px < w
            invariant
                px <= w,
                py < h,
                cmds@ == done + shade_row(x as int, y as int, py as int, px as int, color, density),
            decreases w - px,
        {
            let on = if density == 1 {
                px % 2 == 0 && py % 2 == 0
            } else if density == 2 {
                (px as u32 + py as u32) % 2 == 0
            } else if density == 3 {
                !(px % 2 == 0 && py % 2 == 0)
            } else {
                false
            };
            if on {
                cmds.push(DrawCommand::Pixel { x: x as i32 + px as i32, y: y as i32 + py as i32, color });
            }
            px += 1;
        }
        py += 1;
    }
    cmds
}

/// The commands that draw the box-drawing character `c` into the cell whose
/// top-left corner is `(x, y)` and whose size is `w` by `h`. With `(cx, cy)` the
/// centre of the cell: light and heavy lines run through the centre from edge
/// to edge; corners and tees join half lines at the centre; double lines run one
/// pixel to either side of the centre; rounded corners are a quarter circle
/// with two short lines; blocks are filled rectangles; shades are pixel
/// patterns; anything else in the range is an outline two pixels inside the
/// cell.
pub open spec fn box_char_commands(c: char, x: u16, y: u16, w: u16, h: u16, color: Rgb565) -> Seq<DrawCommand> {
    let code = c as u32;
    let left = x as int;
    let top = y as int;
    let right = x + w;
    let bottom = y + h;
    let cx = x + w / 2;
    let cy = y + h / 2;
    if code == 0x2500 {
        seq![line(left, cy, right, cy, 1, color)]
    } else if code == 0x2501 {
        seq![line(left, cy, right, cy, 2, color)]
    } else if code == 0x2502 {
        seq![line(cx, top, cx, bottom, 1, color)]
    } else if code == 0x2503 {
        seq![line(cx, top, cx, bottom, 2, color)]
    } else if code == 0x250C {
        seq![line(cx, cy, right, cy, 1, color), line(cx, cy, cx, bottom, 1, color)]
    } else if code == 0x2510 {
        seq![line(left, cy, cx, cy, 1, color), line(cx, cy, cx, bottom, 1, color)]
    } else if code == 0x2514 {
        seq![line(cx, cy, right, cy, 1, color), line(cx, top, cx, cy, 1, color)]
    } else if code == 0x2518 {
        seq![line(left, cy, cx, cy, 1, color), line(cx, top, cx, cy, 1, color)]
    } else if code == 0x251C {
        seq![line(cx, top, cx, bottom, 1, color), line(cx, cy, right, cy, 1, color)]
    } else if code == 0x2524 {
        seq![line(cx, top, cx, bottom, 1, color), line(left, cy, cx, cy, 1, color)]
    } else if code == 0x252C {
        seq![line(left, cy, right, cy, 1, color), line(cx, cy, cx, bottom, 1, color)]
    } else if code == 0x2534 {
        seq![line(left, cy, right, cy, 1, color), line(cx, top, cx, cy, 1, color)]
    } else if code == 0x253C {
        seq![line(left, cy, right, cy, 1, color), line(cx, top, cx, bottom, 1, color)]
    } else if code == 0x2550 {
        seq![line(left, cy - 1, right, cy - 1, 1, color), line(left, cy + 1, right, cy + 1, 1, color)]
    } else if code == 0x2551 {
        seq![line(cx - 1, top, cx - 1, bottom, 1, color), line(cx + 1, top, cx + 1, bottom, 1, color)]
    } else if code == 0x2554 {
        seq![
            line(cx - 1, cy, cx - 1, bottom, 1, color),
            line(cx + 1, cy, cx + 1, bottom, 1, color),
            line(cx, cy - 1, right, cy - 1, 1, color),
            line(cx, cy + 1, right, cy + 1, 1, color),
        ]
    } else if code == 0x2557 {
        seq![
            line(cx - 1, cy, cx - 1, bottom, 1, color),
            line(cx + 1, cy, cx + 1, bottom, 1, color),
            line(left, cy - 1, cx, cy - 1, 1, color),
            line(left, cy + 1, cx, cy + 1, 1, color),
        ]
    } else if code == 0x255A {
        seq![
            line(cx - 1, top, cx - 1, cy, 1, color),
            line(cx + 1, top, cx + 1, cy, 1, color),
            line(cx, cy - 1, right, cy - 1, 1, color),
            line(cx, cy + 1, right, cy + 1, 1, color),
        ]
    } else if code == 0x255D {
        seq![
            line(cx - 1, top, cx - 1, cy, 1, color),
            line(cx + 1, top, cx + 1, cy, 1, color),
            line(left, cy - 1, cx, cy - 1, 1, color),
            line(left, cy + 1, cx, cy + 1, 1, color),
        ]
    } else if code == 0x256D {
        seq![
            quarter_arc(cx, cy, w as int, 180, color),
            line(cx, cy + h / 2, cx, bottom, 1, color),
            line(cx + w / 2, cy, right, cy, 1, color),
        ]
    } else if code == 0x256E {
        seq![
            quarter_arc(left - w / 2, cy, w as int, 270, color),
            line(cx, cy + h / 2, cx, bottom, 1, color),
            line(left, cy, cx - w / 2, cy, 1, color),
        ]
    } else if code == 0x2570 {
        seq![
            quarter_arc(cx, top - h / 2, w as int, 90, color),
            line(cx, top, cx, cy - h / 2, 1, color),
            line(cx + w / 2, cy, right, cy, 1, color),
        ]
    } else if code == 0x256F {
        seq![
            quarter_arc(left - w / 2, top - h / 2, w as int, 0, color),
            line(cx, top, cx, cy - h / 2, 1, color),
            line(left, cy, cx - w / 2, cy, 1, color),
        ]
    } else if code == 0x2580 {
        seq![fill(left, top, w as int, (h / 2) as int, color)]
    } else if code == 0x2584 {
        seq![fill(left, top + h / 2, w as int, h - h / 2, color)]
    } else if code == 0x2588 {
        seq![fill(left, top, w as int, h as int, color)]
    } else if code == 0x2591 {
        shade_commands(x, y, w, h, color, 1)
    } else if code == 0x2592 {
        shade_commands(x, y, w, h, color, 2)
    } else if code == 0x2593 {
        shade_commands(x, y, w, h, color, 3)
    } else {
        seq![
            DrawCommand::RectOutline {
                x: (left + 2) as i32,
                y: (top + 2) as i32,
                width: (if w >= 4 { w - 4 } else { 0 }) as u32,
                height: (if h >= 4 { h - 4 } else { 0 }) as u32,
                stroke: 1,
                color,
            },
        ]
    }
}

/// The two parallel strokes of a double line's vertical leg, from `y0` to `y1`.
fn double_vertical(cmds: &mut Vec<DrawCommand>, cx: i32, y0: i32, y1: i32, color: Rgb565)
    requires
        -0x10000 <= cx <= 0x20000,
    ensures
        final(cmds)@ == old(cmds)@.push(line(cx - 1, y0 as int, cx - 1, y1 as int, 1, color)).push(
            line(cx + 1, y0 as int, cx + 1, y1 as int, 1, color),
        ),
{
    cmds.push(make_line(cx - 1, y0, cx - 1, y1, 1, color));
    cmds.push(make_line(cx + 1, y0, cx + 1, y1, 1, color));
}

/// The two parallel strokes of a double line's horizontal leg, from `x0` to `x1`.
fn double_horizontal(cmds: &mut Vec<DrawCommand>, cy: i32, x0: i32, x1: i32, color: Rgb565)
    requires
        -0x10000 <= cy <= 0x20000,
    ensures
        final(cmds)@ == old(cmds)@.push(line(x0 as int, cy - 1, x1 as int, cy - 1, 1, color)).push(
            line(x0 as int, cy + 1, x1 as int, cy + 1, 1, color),
        ),
{
    cmds.push(make_line(x0, cy - 1, x1, cy - 1, 1, color));
    cmds.push(make_line(x0, cy + 1, x1, cy + 1, 1, color));
}

/// Draws the box-drawing character `c` into the cell at `(x, y)` of size `w` by `h`.
pub fn draw_box_char(c: char, x: u16, y: u16, w: u16, h: u16, color: Rgb565) -> (cmds: Vec<DrawCommand>)
    ensures
        cmds@ == box_char_commands(c, x, y, w, h, color),
{
    let code: u32 = c as u32;
    if 0x2591 <= code && code <= 0x2593 {
        return draw_shade(x, y, w, h, color, (code - 0x2590) as u8);
    }
    let left: i32 = x as i32;
    let top: i32 = y as i32;
    let right: i32 = left + w as i32;
    let bottom: i32 = top + h as i32;
    let half_w: i32 = (w / 2) as i32;
    let half_h: i32 = (h / 2) as i32;
    let cx: i32 = left + half_w;
    let cy: i32 = top + half_h;
    let mut cmds: Vec<DrawCommand> = Vec::new();
    if code == 0x2500 || code == 0x2501 {
        cmds.push(make_line(left, cy, right, cy, code - 0x2500 + 1, color));
    } else if code == 0x2502 || code == 0x2503 {
        cmds.push(make_line(cx, top, cx, bottom, code - 0x2502 + 1, color));
    } else if code == 0x250C || code == 0x2510 || code == 0x2514 || code == 0x2518 {
        // A corner: the horizontal half first, then the vertical half.
        let opens_right = code == 0x250C || code == 0x2514;
        let opens_down = code == 0x250C || code == 0x2510;
        if opens_right {
            cmds.push(make_line(cx, cy, right, cy, 1, color));
        } else {
            cmds.push(make_line(left, cy, cx, cy, 1, color));
        }
        if opens_down {
            cmds.push(make_line(cx, cy, cx, bottom, 1, color));
        } else {
            cmds.push(make_line(cx, top, cx, cy, 1, color));
        }
    } else if code == 0x251C || code == 0x2524 {
        cmds.push(make_line(cx, top, cx, bottom, 1, color));
        if code == 0x251C {
            cmds.push(make_line(cx, cy, right, cy, 1, color));
        } else {
            cmds.push(make_line(left, cy, cx, cy, 1, color));
        }
    } else if code == 0x252C || code == 0x2534 || code == 0x253C {
        cmds.push(make_line(left, cy, right, cy, 1, color));
        if code == 0x252C {
            cmds.push(make_line(cx, cy, cx, bottom, 1, color));
        } else if code == 0x2534 {
            cmds.push(make_line(cx, top, cx, cy, 1, color));
        } else {
            cmds.push(make_line(cx, top, cx, bottom, 1, color));
        }
    } else if code == 0x2550 {
        double_horizontal(&mut cmds, cy, left, right, color);
    } else if code == 0x2551 {
        double_vertical(&mut cmds, cx, top, bottom, color);
    } else if code == 0x2554 || code == 0x2557 || code == 0x255A || code == 0x255D {
        // A double corner: the vertical leg first, then the horizontal leg.
        if code == 0x2554 || code == 0x2557 {
            double_vertical(&mut cmds, cx, cy, bottom, color);
        } else {
            double_vertical(&mut cmds, cx, top, cy, color);
        }
        if code == 0x2554 || code == 0x255A {
            double_horizontal(&mut cmds, cy, cx, right, color);
        } else {
            double_horizontal(&mut cmds, cy, left, cx, color);
        }
    } else if code == 0x256D || code == 0x256E || code == 0x2570 || code == 0x256F {
        // A rounded corner: the arc, then the vertical stub, then the horizontal stub.
        let opens_right = code == 0x256D || code == 0x2570;
        let opens_down = code == 0x256D || code == 0x256E;
        let arc_x: i32 = if opens_right { cx } else { left - half_w };
        let arc_y: i32 = if opens_down { cy } else { top - half_h };
        let start: u16 = if code == 0x256D {
            180
        } else if code == 0x256E {
            270
        } else if code == 0x2570 {
            90
        } else {
            0
        };
        cmds.push(make_arc(arc_x, arc_y, w as u32, start, color));
        if opens_down {
            cmds.push(make_line(cx, cy + half_h, cx, bottom, 1, color));
        } else {
            cmds.push(make_line(cx, top, cx, cy - half_h, 1, color));
        }
        if opens_right {
            cmds.push(make_line(cx + half_w, cy, right, cy, 1, color));
        } else {
            cmds.push(make_line(left, cy, cx - half_w, cy, 1, color));
        }
    } else if code == 0x2580 {
        cmds.push(make_fill(left, top, w as u32, (h / 2) as u32, color));
    } else if code == 0x2584 {
        cmds.push(make_fill(left, cy, w as u32, (h - h / 2) as u32, color));
    } else if code == 0x2588 {
        cmds.push(make_fill(left, top, w as u32, h as u32, color));
    } else {
        cmds.push(
            DrawCommand::RectOutline {
                x: left + 2,
                y: top + 2,
                width: (if w >= 4 { w - 4 } else { 0 }) as u32,
                height: (if h >= 4 { h - 4 } else { 0 }) as u32,
                stroke: 1,
                color,
            },
        );
    }
    cmds
}

} // verus!
