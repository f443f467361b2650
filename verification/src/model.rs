//! The terminal model: the live grid, the scrollback above it, the cursor and
//! the current style.

use vstd::prelude::*;
use crate::font::{profont_metrics, profont_table, Font, DEFAULT_FONT, FONT_COUNT, SCREEN_HEIGHT, SCREEN_WIDTH};
use crate::grid::{Attrs, Cell, RowView, ScreenLine};

verus! {

/// How many rows of scrollback a screen keeps unless told otherwise.
pub const MAX_SCROLLBACK: usize = 200;

/// The state of a terminal screen. The constructors make it well formed and
/// every operation keeps it so.
pub struct ScreenModel {
    pub(crate) lines: Vec<ScreenLine>,
    pub(crate) scrollback: Vec<ScreenLine>,
    pub(crate) viewport_offset: usize,
    pub(crate) max_scrollback: usize,
    pub(crate) cursor_x: usize,
    pub(crate) cursor_y: usize,
    pub(crate) current_attrs: Attrs,
    pub(crate) font_index: usize,
    pub(crate) font: Font,
    pub(crate) rows: usize,
    pub(crate) cols: usize,
    pub(crate) full_repaint: bool,
}

/// What a screen holds, as mathematical values.
pub struct ModelView {
    /// The live rows, top to bottom.
    pub grid: Seq<RowView>,
    /// The rows that have scrolled off the top, oldest first.
    pub scrollback: Seq<RowView>,
    /// How many rows above the live tail the user is looking.
    pub viewport_offset: nat,
    /// The most rows that the scrollback keeps.
    pub max_scrollback: nat,
    /// Column of the cursor; equal to `cols` when the next character wraps.
    pub cursor_x: nat,
    /// Row of the cursor.
    pub cursor_y: nat,
    /// The style that printed characters and erased cells get.
    pub current_attrs: Attrs,
    /// Which font the screen is laid out for.
    pub font_index: nat,
    /// The metrics of that font.
    pub font: Font,
    /// Number of live rows.
    pub rows: nat,
    /// Number of columns.
    pub cols: nat,
    /// Whether the next paint redraws every row.
    pub full_repaint: bool,
}

/// The contents of a sequence of rows.
pub open spec fn rows_view(lines: Seq<ScreenLine>) -> Seq<RowView> {
    Seq::new(lines.len(), |i: int| lines[i]@)
}

impl View for ScreenModel {
    type V = ModelView;

    open(crate) spec fn view(&self) -> ModelView {
        ModelView {
            grid: rows_view(self.lines@),
            scrollback: rows_view(self.scrollback@),
            viewport_offset: self.viewport_offset as nat,
            max_scrollback: self.max_scrollback as nat,
            cursor_x: self.cursor_x as nat,
            cursor_y: self.cursor_y as nat,
            current_attrs: self.current_attrs,
            font_index: self.font_index as nat,
            font: self.font,
            rows: self.rows as nat,
            cols: self.cols as nat,
            full_repaint: self.full_repaint,
        }
    }
}

impl ModelView {
    /// The invariant of a screen: the grid has the size that the font gives it,
    /// every row (live or scrolled back) has `cols` cells, the scrollback
    /// stays within its bound, the viewport stays within the scrollback, and
    /// the cursor is on a row of the grid and at most one column past its end.
    pub open spec fn wf(self) -> bool {
        &&& self.font.wf()
        &&& self.cols == self.font.columns()
        &&& self.rows == self.font.lines()
        &&& self.cols >= 1
        &&& self.rows >= 1
        &&& self.grid.len() == self.rows
        &&& forall|i: int| 0 <= i < self.grid.len() ==> (#[trigger] self.grid[i]).cells.len() == self.cols
        &&& forall|i: int|
            0 <= i < self.scrollback.len() ==> (#[trigger] self.scrollback[i]).cells.len() == self.cols
        &&& self.scrollback.len() <= self.max_scrollback
        &&& self.viewport_offset <= self.scrollback.len()
        &&& self.cursor_x <= self.cols
        &&& self.cursor_y < self.rows
    }

    /// A screen as it is made: blank, cursor at the top left, plain style,
    /// nothing scrolled back, everything still to be painted.
    pub open spec fn fresh(font_index: nat, font: Font, max_scrollback: nat) -> ModelView {
        ModelView {
            grid: Seq::new(font.lines() as nat, |i: int| RowView::blank(font.columns() as nat)),
            scrollback: Seq::empty(),
            viewport_offset: 0,
            max_scrollback,
            cursor_x: 0,
            cursor_y: 0,
            current_attrs: Attrs::plain(),
            font_index,
            font,
            rows: font.lines() as nat,
            cols: font.columns() as nat,
            full_repaint: true,
        }
    }

    /// The cell in column `x` of live row `y`.
    pub open spec fn cell(self, x: int, y: int) -> Cell
        recommends
            0 <= y < self.grid.len(),
            0 <= x < self.grid[y].cells.len(),
    {
        self.grid[y].cells[x]
    }

    /// Everything the screen remembers, oldest row first: the scrollback, then
    /// the live grid.
    pub open spec fn history(self) -> Seq<RowView> {
        self.scrollback + self.grid
    }

    /// The top row moves to the scrollback, whose oldest row is dropped if it
    /// is over its bound; the other rows move up and a blank row enters at the
    /// bottom.
    pub open spec fn scroll_up(self) -> ModelView {
        let kept = self.scrollback.push(self.grid[0]);
        ModelView {
            grid: self.grid.skip(1).push(RowView::blank(self.cols)),
            scrollback: if kept.len() > self.max_scrollback {
                kept.skip(1)
            } else {
                kept
            },
            full_repaint: true,
            ..self
        }
    }

    /// The view moves `n` rows up into the scrollback, as far as it reaches.
    pub open spec fn scroll_view_up(self, n: nat) -> ModelView {
        ModelView {
            viewport_offset: if self.viewport_offset + n <= self.scrollback.len() {
                self.viewport_offset + n
            } else {
                self.scrollback.len()
            },
            full_repaint: true,
            ..self
        }
    }

    /// The view moves `n` rows down towards the live rows.
    pub open spec fn scroll_view_down(self, n: nat) -> ModelView {
        ModelView {
            viewport_offset: if self.viewport_offset >= n {
                (self.viewport_offset - n) as nat
            } else {
                0
            },
            full_repaint: true,
            ..self
        }
    }

    /// The view returns to the live rows; a screen that was there is unchanged.
    pub open spec fn reset_view(self) -> ModelView {
        if self.viewport_offset != 0 {
            ModelView { viewport_offset: 0, full_repaint: true, ..self }
        } else {
            self
        }
    }
}

/// The panel holds at least one cell of a well-formed font in each direction.
pub proof fn lemma_font_fits(font: Font)
    requires
        font.wf(),
    ensures
        1 <= font.columns() <= SCREEN_WIDTH,
        1 <= font.lines() <= SCREEN_HEIGHT,
        font.columns() * font.cell_width() <= SCREEN_WIDTH,
        font.lines() * font.cell_height() <= SCREEN_HEIGHT,
{
    let w = font.cell_width();
    let h = font.cell_height();
    assert(1 <= 320int / w <= 320 && (320int / w) * w <= 320) by (nonlinear_arith)
        requires
            1 <= w <= 320,
    ;
    assert(1 <= 320int / h <= 320 && (320int / h) * h <= 320) by (nonlinear_arith)
        requires
            1 <= h <= 320,
    ;
}

/// Whether every row has `width` cells.
fn rows_have_width(lines: &Vec<ScreenLine>, width: usize) -> (ok: bool)
    ensures
        ok == (forall|i: int|
            0 <= i < lines@.len() ==> (#[trigger] rows_view(lines@)[i]).cells.len() == width),
{
    let mut i: usize = 0;
    while i < lines.len()
        invariant
            i <= lines@.len(),
            forall|k: int| 0 <= k < i ==> (#[trigger] rows_view(lines@)[k]).cells.len() == width,
        decreases lines@.len() - i,
    {
        if lines[i].cells.len() != width {
            assert(rows_view(lines@)[i as int].cells.len() != width);
            return false;
        }
        i += 1;
    }
    true
}

impl ScreenModel {
    /// Whether the screen is well formed, for callers that cannot be held to
    /// a precondition.
    pub fn is_well_formed(&self) -> (ok: bool)
        ensures
            ok == self@.wf(),
    {
        let w: u64 = self.font.char_width as u64 + self.font.char_spacing as u64;
        let h: u64 = self.font.char_height as u64;
        1 <= w && w <= SCREEN_WIDTH as u64 && 1 <= h && h <= SCREEN_HEIGHT as u64 && self.font.baseline
            <= self.font.char_height && self.cols as u64 == SCREEN_WIDTH as u64 / w && self.rows as u64
            == SCREEN_HEIGHT as u64 / h && self.cols >= 1 && self.rows >= 1 && self.lines.len() == self.rows
            && rows_have_width(&self.lines, self.cols) && rows_have_width(&self.scrollback, self.cols)
            && self.scrollback.len() <= self.max_scrollback && self.viewport_offset <= self.scrollback.len()
            && self.cursor_x <= self.cols && self.cursor_y < self.rows
    }

    /// A blank screen laid out for the given font.
    fn build(font_index: usize, font: Font, max_scrollback: usize) -> (model: ScreenModel)
        requires
            font.wf(),
        ensures
            model@ == ModelView::fresh(font_index as nat, font, max_scrollback as nat),
            model@.wf(),
    {
        proof {
            lemma_font_fits(font);
        }
        let cols: usize = (SCREEN_WIDTH as u32 / (font.char_width + font.char_spacing)) as usize;
        let rows: usize = (SCREEN_HEIGHT as u32 / font.char_height) as usize;
        let mut lines: Vec<ScreenLine> = Vec::new();
        let mut i: usize = 0;
        while i < rows
            invariant
                i <= rows,
                lines@.len() == i,
                forall|k: int| 0 <= k < i ==> (#[trigger] lines@[k])@ == RowView::blank(cols as nat),
            decreases rows - i,
        {
            lines.push(ScreenLine::new(cols));
            i += 1;
        }
        let model = ScreenModel {
            lines,
            scrollback: Vec::new(),
            viewport_offset: 0,
            max_scrollback,
            cursor_x: 0,
            cursor_y: 0,
            current_attrs: Attrs::default(),
            font_index,
            font,
            rows,
            cols,
            full_repaint: true,
        };
        assert(model@.grid =~= ModelView::fresh(font_index as nat, font, max_scrollback as nat).grid);
        assert(model@.scrollback =~= Seq::empty());
        model
    }

    /// A blank screen laid out for the ProFont cut with the given index, with
    /// room for `max_scrollback` rows of scrollback; `None` if there is no
    /// such font.
    pub fn with_font(font_index: usize, max_scrollback: usize) -> (model: Option<ScreenModel>)
        ensures
            font_index < FONT_COUNT ==> (model matches Some(m) && m@ == ModelView::fresh(
                font_index as nat,
                profont_table()[font_index as int],
                max_scrollback as nat,
            )),
            font_index >= FONT_COUNT ==> model is None,
            model matches Some(m) ==> m@.wf(),
    {
        match Font::profont(font_index) {
            Some(font) => Some(ScreenModel::build(font_index, font, max_scrollback)),
            None => None,
        }
    }

    /// Number of columns.
    pub fn width(&self) -> (w: u16)
        requires
            self@.wf(),
        ensures
            w == self@.cols,
    {
        proof {
            lemma_font_fits(self.font);
        }
        self.cols as u16
    }

    /// Number of rows.
    pub fn height(&self) -> (h: u16)
        requires
            self@.wf(),
        ensures
            h == self@.rows,
    {
        proof {
            lemma_font_fits(self.font);
        }
        self.rows as u16
    }

    /// Column and row of the cursor.
    pub fn cursor(&self) -> (at: (usize, usize))
        ensures
            at.0 == self@.cursor_x,
            at.1 == self@.cursor_y,
    {
        (self.cursor_x, self.cursor_y)
    }

    /// The cell in column `x` of live row `y`, if the grid has one there.
    pub fn cell(&self, x: usize, y: usize) -> (cell: Option<Cell>)
        requires
            self@.wf(),
        ensures
            x < self@.cols && y < self@.rows ==> cell == Some(self@.cell(x as int, y as int)),
            !(x < self@.cols && y < self@.rows) ==> cell is None,
    {
        if y < self.rows && x < self.cols {
            assert(self@.grid[y as int] == self.lines@[y as int]@);
            Some(self.lines[y].cells[x])
        } else {
            None
        }
    }

    /// Whether live row `y` has changed since it was last painted; `None` if
    /// the grid has no such row.
    pub fn is_dirty(&self, y: usize) -> (dirty: Option<bool>)
        requires
            self@.wf(),
        ensures
            y < self@.rows ==> dirty == Some(self@.grid[y as int].dirty),
            y >= self@.rows ==> dirty is None,
    {
        if y < self.rows {
            assert(self@.grid[y as int] == self.lines@[y as int]@);
            Some(self.lines[y].dirty)
        } else {
            None
        }
    }

    /// How many rows the scrollback holds.
    pub fn scrollback_len(&self) -> (len: usize)
        ensures
            len == self@.scrollback.len(),
    {
        self.scrollback.len()
    }

    /// The cell in column `x` of scrollback row `i`, counted from the oldest,
    /// if there is one.
    pub fn scrollback_cell(&self, x: usize, i: usize) -> (cell: Option<Cell>)
        requires
            self@.wf(),
        ensures
            x < self@.cols && i < self@.scrollback.len() ==> cell == Some(self@.scrollback[i as int].cells[x as int]),
            !(x < self@.cols && i < self@.scrollback.len()) ==> cell is None,
    {
        if i < self.scrollback.len() && x < self.cols {
            assert(self@.scrollback[i as int] == self.scrollback@[i as int]@);
            Some(self.scrollback[i].cells[x])
        } else {
            None
        }
    }

    /// The most rows that the scrollback keeps.
    pub fn max_scrollback(&self) -> (max: usize)
        ensures
            max == self@.max_scrollback,
    {
        self.max_scrollback
    }

    /// How many rows above the live tail the view is.
    pub fn viewport_offset(&self) -> (offset: usize)
        ensures
            offset == self@.viewport_offset,
    {
        self.viewport_offset
    }

    /// The style that the next printed character gets.
    pub fn current_attrs(&self) -> (attrs: Attrs)
        ensures
            attrs == self@.current_attrs,
    {
        self.current_attrs
    }

    /// Whether the next paint redraws every row.
    pub fn needs_full_repaint(&self) -> (full: bool)
        ensures
            full == self@.full_repaint,
    {
        self.full_repaint
    }

    /// The metrics of the font the screen is laid out for.
    pub fn font(&self) -> (font: Font)
        ensures
            font == self@.font,
    {
        self.font
    }

    /// Which font the screen is laid out for.
    pub fn font_index(&self) -> (index: usize)
        ensures
            index == self@.font_index,
    {
        self.font_index
    }

    /// Reserved for switching to the next larger font; changes nothing.
    pub fn increase_font(&mut self)
        ensures
            *final(self) == *old(self),
    {
    }

    /// Reserved for switching to the next smaller font; changes nothing.
    pub fn decrease_font(&mut self)
        ensures
            *final(self) == *old(self),
    {
    }

    /// Scrolls the live rows up by one.
    pub(crate) fn scroll_up(&mut self)
        requires
            old(self)@.wf(),
        ensures
            final(self)@ == old(self)@.scroll_up(),
            final(self)@.wf(),
    {
        let line = self.lines.remove(0);
        self.scrollback.push(line);
        if self.scrollback.len() > self.max_scrollback {
            self.scrollback.remove(0);
        }
        self.lines.push(ScreenLine::new(self.cols));
        self.full_repaint = true;
        assert(self@.grid =~= old(self)@.scroll_up().grid);
        assert(self@.scrollback =~= old(self)@.scroll_up().scrollback);
    }

    /// Moves the view `n` rows up into the scrollback, stopping at its oldest
    /// row, and asks for a full repaint.
    pub fn scroll_view_up(&mut self, n: usize)
        requires
            old(self)@.wf(),
        ensures
            final(self)@ == old(self)@.scroll_view_up(n as nat),
            final(self)@.wf(),
    {
        let len = self.scrollback.len();
        if n <= len - self.viewport_offset {
            self.viewport_offset = self.viewport_offset + n;
        } else {
            self.viewport_offset = len;
        }
        self.full_repaint = true;
    }

    /// Moves the view `n` rows down towards the live rows, stopping there, and
    /// asks for a full repaint.
    pub fn scroll_view_down(&mut self, n: usize)
        requires
            old(self)@.wf(),
        ensures
            final(self)@ == old(self)@.scroll_view_down(n as nat),
            final(self)@.wf(),
    {
        if self.viewport_offset >= n {
            self.viewport_offset = self.viewport_offset - n;
        } else {
            self.viewport_offset = 0;
        }
        self.full_repaint = true;
    }

    /// Returns the view to the live rows. Asks for a full repaint only if the
    /// view was elsewhere.
    pub fn reset_view(&mut self)
        requires
            old(self)@.wf(),
        ensures
            final(self)@ == old(self)@.reset_view(),
            final(self)@.wf(),
    {
        if self.viewport_offset != 0 {
            self.viewport_offset = 0;
            self.full_repaint = true;
        }
    }
}

impl Default for ScreenModel {
    /// A blank screen in the default font with the default scrollback.
    fn default() -> (model: ScreenModel)
        ensures
            model@ == ModelView::fresh(
                DEFAULT_FONT as nat,
                profont_table()[DEFAULT_FONT as int],
                MAX_SCROLLBACK as nat,
            ),
            model@.wf(),
            model@.cols == 45,
            model@.rows == 26,
    {
        let font = profont_metrics(DEFAULT_FONT);
        assert(font.columns() == 45 && font.lines() == 26) by (nonlinear_arith)
            requires
                font.columns() == 320int / 7,
                font.lines() == 320int / 12,
        ;
        ScreenModel::build(DEFAULT_FONT, font, MAX_SCROLLBACK)
    }
}

} // verus!
