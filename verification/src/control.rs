//! What the parser's callbacks do to a screen: printing, C0 controls, and the
//! CSI sequences for cursor movement, erasing and style.

use vstd::prelude::*;
use crate::color::Color;
use crate::grid::{Attrs, Cell, RowView, ScreenLine};
use crate::model::{rows_view, ModelView, ScreenModel};

verus! {

/// The parameter at position `i`, or `default` where the sequence has none there.
pub open spec fn param_or(params: Seq<u16>, i: int, default: u16) -> u16 {
    if 0 <= i < params.len() {
        params[i]
    } else {
        default
    }
}

/// The style after one SGR parameter. Unknown parameters change nothing.
pub open spec fn sgr(attrs: Attrs, p: u16) -> Attrs {
    if p == 0 {
        Attrs::plain()
    } else if p == 1 {
        Attrs { bold: true, ..attrs }
    } else if p == 22 {
        Attrs { bold: false, ..attrs }
    } else if p == 4 {
        Attrs { underline: true, ..attrs }
    } else if p == 24 {
        Attrs { underline: false, ..attrs }
    } else if p == 7 {
        Attrs { reverse: true, ..attrs }
    } else if p == 27 {
        Attrs { reverse: false, ..attrs }
    } else if 30 <= p <= 37 {
        Attrs { fg: Color::Indexed((p - 30) as u8), ..attrs }
    } else if p == 39 {
        Attrs { fg: Color::DefaultFg, ..attrs }
    } else if 40 <= p <= 47 {
        Attrs { bg: Color::Indexed((p - 40) as u8), ..attrs }
    } else if p == 49 {
        Attrs { bg: Color::DefaultBg, ..attrs }
    } else if 90 <= p <= 97 {
        Attrs { fg: Color::Indexed((p - 90 + 8) as u8), ..attrs }
    } else if 100 <= p <= 107 {
        Attrs { bg: Color::Indexed((p - 100 + 8) as u8), ..attrs }
    } else {
        attrs
    }
}

/// The style after a list of SGR parameters, applied first to last.
pub open spec fn sgr_list(attrs: Attrs, params: Seq<u16>) -> Attrs
    decreases params.len(),
{
    if params.len() == 0 {
        attrs
    } else {
        sgr(sgr_list(attrs, params.drop_last()), params.last())
    }
}

/// The rows with every cell of rows `from` up to, not including, `to` turned
/// into a space of the given style.
pub open spec fn erase_rows(grid: Seq<RowView>, from: int, to: int, attrs: Attrs) -> Seq<RowView> {
    Seq::new(
        grid.len(),
        |i: int|
            if from <= i < to {
                grid[i].erased(0, grid[i].cells.len() as int, attrs)
            } else {
                grid[i]
            },
    )
}

impl ModelView {
    /// The cursor moves to the next row; at the bottom the rows scroll up instead.
    pub open spec fn line_feed(self) -> ModelView {
        if self.cursor_y + 1 >= self.rows {
            self.scroll_up()
        } else {
            ModelView { cursor_y: self.cursor_y + 1, ..self }
        }
    }

    /// The character is written at the cursor in the current style and the
    /// cursor moves one column right.
    pub open spec fn put(self, c: char) -> ModelView {
        let y = self.cursor_y as int;
        ModelView {
            grid: self.grid.update(
                y,
                self.grid[y].with_cell(self.cursor_x as int, Cell { ch: c, attrs: self.current_attrs }),
            ),
            cursor_x: self.cursor_x + 1,
            ..self
        }
    }

    /// The screen after printing a character: the view returns to the live
    /// rows; a cursor that stands past the last column first wraps to the
    /// start of the next row, scrolling at the bottom; then the character is
    /// written and the cursor advances.
    pub open spec fn print(self, c: char) -> ModelView {
        let m = self.reset_view();
        let m = if m.cursor_x >= m.cols {
            (ModelView { cursor_x: 0, ..m }).line_feed()
        } else {
            m
        };
        m.put(c)
    }

    /// The screen after a C0 control: the view returns to the live rows; then
    /// line feed moves down a row (scrolling at the bottom), carriage return
    /// moves to column 0, backspace moves one column left if there is one;
    /// every other byte does nothing more.
    pub open spec fn execute(self, byte: u8) -> ModelView {
        let m = self.reset_view();
        if byte == 0x0A {
            m.line_feed()
        } else if byte == 0x0D {
            ModelView { cursor_x: 0, ..m }
        } else if byte == 0x08 {
            ModelView {
                cursor_x: if m.cursor_x > 0 {
                    (m.cursor_x - 1) as nat
                } else {
                    0
                },
                ..m
            }
        } else {
            m
        }
    }

    /// The cursor at row `row` and column `col`, each held inside the grid.
    pub open spec fn cursor_to(self, row: int, col: int) -> ModelView {
        ModelView {
            cursor_y: (if row < self.rows { row } else { self.rows - 1 }) as nat,
            cursor_x: (if col < self.cols { col } else { self.cols - 1 }) as nat,
            ..self
        }
    }

    /// Erase in line. Mode 0 erases from the cursor to the end of its row, 1
    /// from the start of the row up to and including the cursor, 2 the whole
    /// row. Erased cells become spaces in the current style and the row
    /// counts as changed. Any other mode does nothing.
    pub open spec fn erase_in_line(self, mode: u16) -> ModelView {
        let y = self.cursor_y as int;
        let x = self.cursor_x as int;
        let row = self.grid[y];
        let erased = if mode == 0 {
            row.erased(x, self.cols as int, self.current_attrs)
        } else if mode == 1 {
            row.erased(0, x + 1, self.current_attrs)
        } else if mode == 2 {
            row.erased(0, self.cols as int, self.current_attrs)
        } else {
            row
        };
        ModelView { grid: self.grid.update(y, erased), ..self }
    }

    /// Every cell a space in the current style, the cursor at the top left,
    /// and a full repaint asked for.
    pub open spec fn erase_all(self) -> ModelView {
        ModelView {
            grid: erase_rows(self.grid, 0, self.rows as int, self.current_attrs),
            cursor_x: 0,
            cursor_y: 0,
            full_repaint: true,
            ..self
        }
    }

    /// Erase in display. Mode 0 erases from the cursor to the end of the
    /// grid, 1 from the start of the grid up to and including the cursor, 2
    /// everything (and homes the cursor). Any other mode does nothing.
    pub open spec fn erase_in_display(self, mode: u16) -> ModelView {
        let y = self.cursor_y as int;
        let x = self.cursor_x as int;
        let a = self.current_attrs;
        if mode == 0 {
            ModelView {
                grid: erase_rows(self.grid, y + 1, self.rows as int, a).update(
                    y,
                    self.grid[y].erased(x, self.cols as int, a),
                ),
                ..self
            }
        } else if mode == 1 {
            ModelView {
                grid: erase_rows(self.grid, 0, y, a).update(y, self.grid[y].erased(0, x + 1, a)),
                ..self
            }
        } else if mode == 2 {
            self.erase_all()
        } else {
            self
        }
    }

    /// The screen after a CSI sequence. The view returns to the live rows. A
    /// sequence that is flagged to be ignored or has intermediate bytes does
    /// nothing more. Otherwise the final byte decides: `A`, `B`, `C`, `D` move
    /// the cursor up, down, right, left by the first parameter (1 if absent),
    /// stopping at the edge of the grid; `H` and `f` place it at the row and
    /// column given from 1 (0 counts as 1); `J` and `K` erase (mode 0 if
    /// absent); `m` applies the parameters to the style (a reset if there are
    /// none). Any other final byte does nothing more.
    pub open spec fn csi(self, params: Seq<u16>, intermediates: Seq<u8>, ignore: bool, action: char) -> ModelView {
        let m = self.reset_view();
        let n = param_or(params, 0, 1) as int;
        if ignore || intermediates.len() > 0 {
            m
        } else if action == 'A' {
            ModelView { cursor_y: (if m.cursor_y >= n { m.cursor_y - n } else { 0 }) as nat, ..m }
        } else if action == 'B' {
            ModelView { cursor_y: (if m.cursor_y + n < m.rows { m.cursor_y + n } else { m.rows - 1 }) as nat, ..m }
        } else if action == 'C' {
            ModelView { cursor_x: (if m.cursor_x + n < m.cols { m.cursor_x + n } else { m.cols - 1 }) as nat, ..m }
        } else if action == 'D' {
            ModelView { cursor_x: (if m.cursor_x >= n { m.cursor_x - n } else { 0 }) as nat, ..m }
        } else if action == 'H' || action == 'f' {
            let row = param_or(params, 0, 1);
            let col = param_or(params, 1, 1);
            m.cursor_to(if row >= 1 { row - 1 } else { 0 }, if col >= 1 { col - 1 } else { 0 })
        } else if action == 'J' {
            m.erase_in_display(param_or(params, 0, 0))
        } else if action == 'K' {
            m.erase_in_line(param_or(params, 0, 0))
        } else if action == 'm' {
            ModelView {
                current_attrs: if params.len() == 0 {
                    Attrs::plain()
                } else {
                    sgr_list(m.current_attrs, params)
                },
                ..m
            }
        } else {
            m
        }
    }
}

/// Applies one SGR parameter to a style.
pub fn apply_sgr(attrs: Attrs, p: u16) -> (out: Attrs)
    ensures
        out == sgr(attrs, p),
{
    let mut out = attrs;
    match p {
        0 => {
            out = Attrs::default();
        },
        1 => {
            out.bold = true;
        },
        4 => {
            out.underline = true;
        },
        7 => {
            out.reverse = true;
        },
        22 => {
            out.bold = false;
        },
        24 => {
            out.underline = false;
        },
        27 => {
            out.reverse = false;
        },
        30..=37 => {
            out.fg = Color::Indexed((p - 30) as u8);
        },
        39 => {
            out.fg = Color::DefaultFg;
        },
        40..=47 => {
            out.bg = Color::Indexed((p - 40) as u8);
        },
        49 => {
            out.bg = Color::DefaultBg;
        },
        90..=97 => {
            out.fg = Color::Indexed((p - 90 + 8) as u8);
        },
        100..=107 => {
            out.bg = Color::Indexed((p - 100 + 8) as u8);
        },
        _ => {},
    }
    out
}

/// Applies a list of SGR parameters to a style, first to last.
pub fn apply_sgr_list(attrs: Attrs, params: &[u16]) -> (out: Attrs)
    ensures
        out == sgr_list(attrs, params@),
{
    let mut out = attrs;
    let mut i: usize = 0;
    while i < params.len()
        invariant
            i <= params@.len(),
            out == sgr_list(attrs, params@.take(i as int)),
        decreases params@.len() - i,
    {
        proof {
            assert(params@.take(i + 1).drop_last() =~= params@.take(i as int));
        }
        out = apply_sgr(out, params[i]);
        i += 1;
    }
    proof {
        assert(params@.take(i as int) =~= params@);
    }
    out
}

/// Turns every cell of rows `from` up to, not including, `to` into a space of
/// the given style.
fn clear_rows(lines: &mut Vec<ScreenLine>, from: usize, to: usize, attrs: Attrs)
    requires
        to <= old(lines)@.len(),
    ensures
        rows_view(final(lines)@) == erase_rows(rows_view(old(lines)@), from as int, to as int, attrs),
        final(lines)@.len() == old(lines)@.len(),
{
    let mut i: usize = from;
    while i < to
        invariant
            from <= i,
            i <= to || i == from,
            to <= lines@.len(),
            lines@.len() == old(lines)@.len(),
            forall|k: int|
                0 <= k < lines@.len() ==> (#[trigger] lines@[k])@ == if from <= k < i {
                    old(lines)@[k]@.erased(0, old(lines)@[k]@.cells.len() as int, attrs)
                } else {
                    old(lines)@[k]@
                },
        decreases to - i,
    {
        lines[i].clear(attrs);
        i += 1;
    }
    assert(rows_view(lines@) =~= erase_rows(rows_view(old(lines)@), from as int, to as int, attrs));
}

impl ScreenModel {
    /// Moves the cursor to the next row, scrolling at the bottom.
    fn line_feed(&mut self)
        requires
            old(self)@.wf(),
        ensures
            final(self)@ == old(self)@.line_feed(),
            final(self)@.wf(),
    {
        if self.cursor_y + 1 >= self.rows {
            self.scroll_up();
        } else {
            self.cursor_y = self.cursor_y + 1;
        }
    }

    /// Prints a character at the cursor, wrapping and scrolling as needed.
    pub fn print(&mut self, c: char)
        requires
            old(self)@.wf(),
        ensures
            final(self)@ == old(self)@.print(c),
            final(self)@.wf(),
    {
        self.reset_view();
        if self.cursor_x >= self.cols {
            self.cursor_x = 0;
            self.line_feed();
        }
        let x = self.cursor_x;
        let y = self.cursor_y;
        let cell = Cell { ch: c, attrs: self.current_attrs };
        let ghost before = self@;
        assert(before.grid[y as int] == self.lines@[y as int]@);
        self.lines[y].cells[x] = cell;
        self.lines[y].dirty = true;
        self.cursor_x = x + 1;
        assert(self@.grid =~= before.put(c).grid);
        assert(self@.scrollback =~= before.scrollback);
    }

    /// Executes a C0 control byte.
    pub fn execute(&mut self, byte: u8)
        requires
            old(self)@.wf(),
        ensures
            final(self)@ == old(self)@.execute(byte),
            final(self)@.wf(),
    {
        self.reset_view();
        if byte == 0x0A {
            self.line_feed();
        } else if byte == 0x0D {
            self.cursor_x = 0;
        } else if byte == 0x08 {
            if self.cursor_x > 0 {
                self.cursor_x = self.cursor_x - 1;
            }
        }
    }

    /// Erases part of the cursor's row.
    fn erase_in_line(&mut self, mode: u16)
        requires
            old(self)@.wf(),
        ensures
            final(self)@ == old(self)@.erase_in_line(mode),
            final(self)@.wf(),
    {
        let x = self.cursor_x;
        let y = self.cursor_y;
        let cols = self.cols;
        let attrs = self.current_attrs;
        assert(self@.grid[y as int] == self.lines@[y as int]@);
        if mode == 0 {
            self.lines[y].erase(x, cols, attrs);
        } else if mode == 1 {
            let end: usize = if x < cols { x + 1 } else { cols };
            self.lines[y].erase(0, end, attrs);
            assert(self.lines@[y as int]@.cells =~= old(self)@.grid[y as int].erased(0, x + 1, attrs).cells);
        } else if mode == 2 {
            self.lines[y].erase(0, cols, attrs);
        }
        assert(self@.grid =~= old(self)@.erase_in_line(mode).grid);
        assert(self@.scrollback =~= old(self)@.scrollback);
    }

    /// Erases part of the grid.
    fn erase_in_display(&mut self, mode: u16)
        requires
            old(self)@.wf(),
        ensures
            final(self)@ == old(self)@.erase_in_display(mode),
            final(self)@.wf(),
    {
        let x = self.cursor_x;
        let y = self.cursor_y;
        let cols = self.cols;
        let rows = self.rows;
        let attrs = self.current_attrs;
        assert(self@.grid[y as int] == self.lines@[y as int]@);
        if mode == 0 {
            self.lines[y].erase(x, cols, attrs);
            clear_rows(&mut self.lines, y + 1, rows, attrs);
        } else if mode == 1 {
            clear_rows(&mut self.lines, 0, y, attrs);
            assert(self.lines@[y as int]@ == rows_view(self.lines@)[y as int]);
            let end: usize = if x < cols { x + 1 } else { cols };
            self.lines[y].erase(0, end, attrs);
            assert(self.lines@[y as int]@.cells =~= old(self)@.grid[y as int].erased(0, x + 1, attrs).cells);
        } else if mode == 2 {
            clear_rows(&mut self.lines, 0, rows, attrs);
            self.cursor_x = 0;
            self.cursor_y = 0;
            self.full_repaint = true;
        }
        assert(self@.grid =~= old(self)@.erase_in_display(mode).grid);
        assert(self@.scrollback =~= old(self)@.scrollback);
    }

    /// Clears the screen: the view returns to the live rows, every cell
    /// becomes a space in the current style, the cursor goes to the top left,
    /// and a full repaint is asked for.
    pub fn clear(&mut self)
        requires
            old(self)@.wf(),
        ensures
            final(self)@ == old(self)@.reset_view().erase_all(),
            final(self)@.wf(),
    {
        self.reset_view();
        self.erase_in_display(2);
    }

    /// Handles a complete CSI sequence: `params` holds the leading value of
    /// each parameter, `intermediates` the intermediate bytes, `ignore` whether
    /// the parser gave up on the sequence, `action` the final byte.
    pub fn csi_dispatch(&mut self, params: &[u16], intermediates: &[u8], ignore: bool, action: char)
        requires
            old(self)@.wf(),
        ensures
            final(self)@ == old(self)@.csi(params@, intermediates@, ignore, action),
            final(self)@.wf(),
    {
        self.reset_view();
        if ignore || intermediates.len() > 0 {
            return ;
        }
        let first: Option<u16> = if params.len() > 0 { Some(params[0]) } else { None };
        let second: Option<u16> = if params.len() > 1 { Some(params[1]) } else { None };
        match action {
            'A' => {
                let n: usize = first.unwrap_or(1) as usize;
                self.cursor_y = if self.cursor_y >= n { self.cursor_y - n } else { 0 };
            },
            'B' => {
                let n: usize = first.unwrap_or(1) as usize;
                self.cursor_y = if n < self.rows - self.cursor_y { self.cursor_y + n } else { self.rows - 1 };
            },
            'C' => {
                let n: usize = first.unwrap_or(1) as usize;
                self.cursor_x = if self.cursor_x < self.cols && n < self.cols - self.cursor_x {
                    self.cursor_x + n
                } else {
                    self.cols - 1
                };
            },
            'D' => {
                let n: usize = first.unwrap_or(1) as usize;
                self.cursor_x = if self.cursor_x >= n { self.cursor_x - n } else { 0 };
            },
            'H' | 'f' => {
                let row: usize = first.unwrap_or(1) as usize;
                let col: usize = second.unwrap_or(1) as usize;
                let row: usize = if row >= 1 { row - 1 } else { 0 };
                let col: usize = if col >= 1 { col - 1 } else { 0 };
                self.cursor_y = if row < self.rows { row } else { self.rows - 1 };
                self.cursor_x = if col < self.cols { col } else { self.cols - 1 };
            },
            'J' => {
                self.erase_in_display(first.unwrap_or(0));
            },
            'K' => {
                self.erase_in_line(first.unwrap_or(0));
            },
            'm' => {
                if params.len() == 0 {
                    self.current_attrs = Attrs::default();
                } else {
                    self.current_attrs = apply_sgr_list(self.current_attrs, params);
                }
            },
            _ => {},
        }
    }

    /// The start of a device control string: accepted and ignored.
    pub fn hook(&mut self, params: &[u16], intermediates: &[u8], ignore: bool, action: char)
        ensures
            *final(self) == *old(self),
    {
    }

    /// A byte of a device control string: accepted and ignored.
    pub fn put(&mut self, byte: u8)
        ensures
            *final(self) == *old(self),
    {
    }

    /// The end of a device control string: accepted and ignored.
    pub fn unhook(&mut self)
        ensures
            *final(self) == *old(self),
    {
    }

    /// An operating system command: accepted and ignored.
    pub fn osc_dispatch(&mut self, params: &[Vec<u8>], bell_terminated: bool)
        ensures
            *final(self) == *old(self),
    {
    }

    /// An escape sequence that is no CSI: accepted and ignored.
    pub fn esc_dispatch(&mut self, intermediates: &[u8], ignore: bool, byte: u8)
        ensures
            *final(self) == *old(self),
    {
    }
}

} // verus!
