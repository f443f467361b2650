//! The incremental renderer: which rows are painted, and the drawing commands
//! that paint them and the cursor.

use vstd::prelude::*;
use crate::boxdraw::{box_char_commands, draw_box_char, is_box_char};
use crate::color::Rgb565;
use crate::draw::{fill, make_fill, DrawCommand};
use crate::font::{Font, SCREEN_HEIGHT, SCREEN_WIDTH};
use crate::grid::{Attrs, Cell, RowView, ScreenLine};
use crate::model::{lemma_font_fits, rows_view, ModelView, ScreenModel};

verus! {

/// The foreground and background that a style is painted in: the resolved
/// colours, swapped if the style is reversed; after that a light gray
/// foreground becomes white if the style is bold.
pub open spec fn cell_colors(attrs: Attrs) -> (Rgb565, Rgb565) {
    let fg = attrs.fg.rgb565(false);
    let bg = attrs.bg.rgb565(true);
    let (fg, bg) = if attrs.reverse {
        (bg, fg)
    } else {
        (fg, bg)
    };
    (
        if attrs.bold && fg == Rgb565::light_gray() {
            Rgb565::white()
        } else {
            fg
        },
        bg,
    )
}

/// The commands that paint the glyph of a cell whose top-left pixel is
/// `(px, py)`: nothing for a space, primitives for a box-drawing character, the
/// character itself at the font's baseline for anything else.
pub open spec fn glyph_commands(font: Font, px: int, py: int, cell: Cell) -> Seq<DrawCommand> {
    let (fg, bg) = cell_colors(cell.attrs);
    if cell.ch == ' ' {
        Seq::empty()
    } else if is_box_char(cell.ch) {
        box_char_commands(
            cell.ch,
            px as u16,
            py as u16,
            font.cell_width() as u16,
            font.cell_height() as u16,
            fg,
        )
    } else {
        seq![DrawCommand::Text { ch: cell.ch, x: px as i32, y: (py + font.baseline) as i32, fg, bg }]
    }
}

/// The commands that paint the cell in column `x` of screen row `y`: its
/// background, its glyph, and a one-pixel strip along its bottom if it is
/// underlined.
pub open spec fn cell_commands(font: Font, x: int, y: int, cell: Cell) -> Seq<DrawCommand> {
    let w = font.cell_width();
    let h = font.cell_height();
    let px = x * w;
    let py = y * h;
    let (fg, bg) = cell_colors(cell.attrs);
    seq![fill(px, py, w, h, bg)] + glyph_commands(font, px, py, cell) + if cell.attrs.underline {
        seq![fill(px, py + h - 1, w, 1, fg)]
    } else {
        Seq::empty()
    }
}

/// The commands that paint the first `n` cells of screen row `y`, left to right.
pub open spec fn cells_commands(font: Font, y: int, cells: Seq<Cell>, n: int) -> Seq<DrawCommand>
    decreases n,
{
    if n <= 0 {
        Seq::empty()
    } else {
        cells_commands(font, y, cells, n - 1) + cell_commands(font, n - 1, y, cells[n - 1])
    }
}

/// The rows with those from `from` up to, not including, `to` marked as painted.
pub open spec fn mark_painted(rows: Seq<RowView>, from: int, to: int) -> Seq<RowView> {
    Seq::new(
        rows.len(),
        |i: int|
            if from <= i < to {
                rows[i].painted()
            } else {
                rows[i]
            },
    )
}

impl ModelView {
    /// Where in the history the row at the top of the screen is.
    pub open spec fn first_shown(self) -> int {
        self.scrollback.len() - self.viewport_offset
    }

    /// The row that screen row `y` shows: a live row, or with the view moved
    /// up, the row that many places earlier in the history.
    pub open spec fn source_row(self, y: int) -> RowView {
        self.history()[self.first_shown() + y]
    }

    /// The commands that paint screen row `y`: all its cells if the row it
    /// shows has changed or a full repaint is due, nothing otherwise.
    pub open spec fn row_commands(self, y: int) -> Seq<DrawCommand> {
        let row = self.source_row(y);
        if row.dirty || self.full_repaint {
            cells_commands(self.font, y, row.cells, row.cells.len() as int)
        } else {
            Seq::empty()
        }
    }

    /// The commands that paint the first `n` screen rows, top to bottom.
    pub open spec fn rows_commands(self, n: int) -> Seq<DrawCommand>
        decreases n,
    {
        if n <= 0 {
            Seq::empty()
        } else {
            self.rows_commands(n - 1) + self.row_commands(n - 1)
        }
    }

    /// The command that paints the cursor: a white block over its cell, unless
    /// that cell starts off the panel.
    pub open spec fn cursor_commands(self) -> Seq<DrawCommand> {
        let w = self.font.cell_width();
        let h = self.font.cell_height();
        let px = self.cursor_x * w;
        let py = self.cursor_y * h;
        if px < SCREEN_WIDTH && py < SCREEN_HEIGHT {
            seq![fill(px, py, w, h, Rgb565::white())]
        } else {
            Seq::empty()
        }
    }

    /// The commands of one paint cycle: the display is cleared to black if a
    /// full repaint is due; then the rows that need it are painted; then the
    /// cursor.
    pub open spec fn paint_commands(self) -> Seq<DrawCommand> {
        (if self.full_repaint {
            seq![DrawCommand::Clear { color: Rgb565::black() }]
        } else {
            Seq::empty()
        }) + self.rows_commands(self.rows as int) + self.cursor_commands()
    }

    /// The screen after a paint cycle: every row that is shown counts as
    /// painted, and no full repaint is due.
    pub open spec fn painted(self) -> ModelView {
        let first = self.first_shown();
        ModelView {
            scrollback: mark_painted(self.scrollback, first, first + self.rows),
            grid: mark_painted(self.grid, 0, self.rows - self.viewport_offset),
            full_repaint: false,
            ..self
        }
    }
}

/// Every cell of a well-formed font's grid lies on the panel.
pub proof fn lemma_cell_on_panel(font: Font, x: int, y: int)
    requires
        font.wf(),
        0 <= x < font.columns(),
        0 <= y < font.lines(),
    ensures
        0 <= x * font.cell_width(),
        x * font.cell_width() + font.cell_width() <= SCREEN_WIDTH,
        0 <= y * font.cell_height(),
        y * font.cell_height() + font.cell_height() <= SCREEN_HEIGHT,
{
    lemma_font_fits(font);
    let w = font.cell_width();
    let h = font.cell_height();
    let c = font.columns();
    let l = font.lines();
    assert(0 <= x * w && x * w + w <= c * w) by (nonlinear_arith)
        requires
            0 <= x < c,
            1 <= w,
    ;
    assert(0 <= y * h && y * h + h <= l * h) by (nonlinear_arith)
        requires
            0 <= y < l,
            1 <= h,
    ;
}

/// Resolves the colours a style is painted in: foreground, then background.
pub fn resolve_colors(attrs: Attrs) -> (colors: (Rgb565, Rgb565))
    ensures
        colors == cell_colors(attrs),
{
    let mut fg = attrs.fg.to_rgb565(false);
    let mut bg = attrs.bg.to_rgb565(true);
    if attrs.reverse {
        let swapped = fg;
        fg = bg;
        bg = swapped;
    }
    if attrs.bold && fg == (Rgb565 { r: 26, g: 52, b: 26 }) {
        fg = Rgb565 { r: 31, g: 63, b: 31 };
    }
    (fg, bg)
}

/// Appends the commands that paint one cell.
fn paint_cell(cmds: &mut Vec<DrawCommand>, font: Font, x: usize, y: usize, cell: Cell)
    requires
        font.wf(),
        x < font.columns(),
        y < font.lines(),
    ensures
        final(cmds)@ == old(cmds)@ + cell_commands(font, x as int, y as int, cell),
{
    proof {
        lemma_font_fits(font);
        lemma_cell_on_panel(font, x as int, y as int);
    }
    let w: u32 = font.char_width + font.char_spacing;
    let h: u32 = font.char_height;
    assert(x * w == x * font.cell_width());
    assert(y * h == y * font.cell_height());
    let px: u32 = x as u32 * w;
    let py: u32 = y as u32 * h;
    let (fg, bg) = resolve_colors(cell.attrs);
    cmds.push(make_fill(px as i32, py as i32, w, h, bg));
    let ghost with_fill = cmds@;
    if cell.ch != ' ' {
        let code: u32 = cell.ch as u32;
        if 0x2500 <= code && code <= 0x259F {
            let mut glyph = draw_box_char(cell.ch, px as u16, py as u16, w as u16, h as u16, fg);
            cmds.append(&mut glyph);
        } else {
            cmds.push(DrawCommand::Text { ch: cell.ch, x: px as i32, y: (py + font.baseline) as i32, fg, bg });
        }
    }
    assert(cmds@ =~= with_fill + glyph_commands(font, px as int, py as int, cell));
    if cell.attrs.underline {
        cmds.push(make_fill(px as i32, (py + h - 1) as i32, w, 1, fg));
    }
    assert(cmds@ =~= old(cmds)@ + cell_commands(font, x as int, y as int, cell));
}

/// Appends the commands that paint every cell of a row at screen row `y`.
fn paint_row(cmds: &mut Vec<DrawCommand>, font: Font, y: usize, line: &ScreenLine)
    requires
        font.wf(),
        y < font.lines(),
        line@.cells.len() == font.columns(),
    ensures
        final(cmds)@ == old(cmds)@ + cells_commands(font, y as int, line@.cells, line@.cells.len() as int),
{
    let mut x: usize = 0;
    while x < line.cells.len()
        invariant
            font.wf(),
            y < font.lines(),
            line@.cells.len() == font.columns(),
            x <= line@.cells.len(),
            cmds@ == old(cmds)@ + cells_commands(font, y as int, line@.cells, x as int),
        decreases line@.cells.len() - x,
    {
        paint_cell(cmds, font, x, y, line.cells[x]);
        x += 1;
    }
}

/// Marks the rows from `from` up to, not including, `to` as painted.
fn mark_rows_painted(lines: &mut Vec<ScreenLine>, from: usize, to: usize)
    requires
        to <= old(lines)@.len(),
    ensures
        rows_view(final(lines)@) == mark_painted(rows_view(old(lines)@), from as int, to as int),
        final(lines)@.len() == old(lines)@.len(),
{
    let mut i: usize = from;
    while i < to
        invariant
            from <= i,
            i <= to || i == from,
            to <= lines@.len(),
            lines@.len() == old(lines)@.len(),
            forall|k: int|
                0 <= k < lines@.len() ==> (#[trigger] lines@[k])@ == if from <= k < i {
                    old(lines)@[k]@.painted()
                } else {
                    old(lines)@[k]@
                },
        decreases to - i,
    {
        lines[i].dirty = false;
        i += 1;
    }
    assert(rows_view(lines@) =~= mark_painted(rows_view(old(lines)@), from as int, to as int));
}

impl ScreenModel {
    /// The row that screen row `y` shows.
    fn shown_row(&self, y: usize) -> (line: &ScreenLine)
        requires
            self@.wf(),
            y < self@.rows,
        ensures
            line@ == self@.source_row(y as int),
    {
        if y < self.viewport_offset {
            let at = self.scrollback.len() - self.viewport_offset + y;
            assert(self@.scrollback[at as int] == self.scrollback@[at as int]@);
            &self.scrollback[at]
        } else {
            let at = y - self.viewport_offset;
            assert(self@.grid[at as int] == self.lines@[at as int]@);
            &self.lines[at]
        }
    }

    /// The commands of one paint cycle, for the screen as it stands.
    fn paint(&self) -> (cmds: Vec<DrawCommand>)
        requires
            self@.wf(),
        ensures
            cmds@ == self@.paint_commands(),
    {
        let mut cmds: Vec<DrawCommand> = Vec::new();
        if self.full_repaint {
            cmds.push(DrawCommand::Clear { color: Rgb565 { r: 0, g: 0, b: 0 } });
        }
        let ghost cleared = cmds@;
        let mut y: usize = 0;
        while y < self.rows
            invariant
                self@.wf(),
                y <= self@.rows,
                cmds@ == cleared + self@.rows_commands(y as int),
            decreases self@.rows - y,
        {
            let line = self.shown_row(y);
            if line.dirty || self.full_repaint {
                assert(line@.cells.len() == self@.cols);
                paint_row(&mut cmds, self.font, y, line);
            }
            y += 1;
        }
        proof {
            lemma_font_fits(self.font);
        }
        let w: u32 = self.font.char_width + self.font.char_spacing;
        let h: u32 = self.font.char_height;
        assert(self.cursor_x * w <= self.cols * w && self.cursor_y * h <= self.rows * h) by (nonlinear_arith)
            requires
                self.cursor_x <= self.cols,
                self.cursor_y <= self.rows,
                0 <= w,
                0 <= h,
        ;
        let px: u32 = self.cursor_x as u32 * w;
        let py: u32 = self.cursor_y as u32 * h;
        if px < SCREEN_WIDTH as u32 && py < SCREEN_HEIGHT as u32 {
            cmds.push(make_fill(px as i32, py as i32, w, h, Rgb565 { r: 31, g: 63, b: 31 }));
        }
        assert(cmds@ =~= self@.paint_commands());
        cmds
    }

    /// Runs one paint cycle: returns the commands that bring the display up to
    /// date, in the order in which they are to be carried out, and records that
    /// every row on show has been painted. The cursor is drawn over its cell
    /// every cycle; the cell it stood on before is drawn again only when its
    /// row changes.
    pub fn update_display(&mut self) -> (cmds: Vec<DrawCommand>)
        requires
            old(self)@.wf(),
        ensures
            cmds@ == old(self)@.paint_commands(),
            final(self)@ == old(self)@.painted(),
            final(self)@.wf(),
    {
        let cmds = self.paint();
        let kept = self.scrollback.len();
        let first = kept - self.viewport_offset;
        let live: usize = if self.viewport_offset < self.rows { self.rows - self.viewport_offset } else { 0 };
        let last: usize = if self.rows < self.viewport_offset { first + self.rows } else { kept };
        mark_rows_painted(&mut self.scrollback, first, last);
        mark_rows_painted(&mut self.lines, 0, live);
        self.full_repaint = false;
        assert(self@.scrollback =~= old(self)@.painted().scrollback);
        assert(self@.grid =~= old(self)@.painted().grid);
        cmds
    }
}

} // verus!
