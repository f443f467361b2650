//! Cells, their style, and rows of cells.

use vstd::prelude::*;
use crate::color::Color;

verus! {

/// The style of a cell.
#[derive(Clone, Copy, PartialEq, Eq, Debug, Structural)]
pub struct Attrs {
    pub fg: Color,
    pub bg: Color,
    pub bold: bool,
    pub underline: bool,
    pub reverse: bool,
}

impl Attrs {
    /// The style that text has before any attribute is selected: default
    /// foreground on default background, no flags.
    pub open spec fn plain() -> Attrs {
        Attrs { fg: Color::DefaultFg, bg: Color::DefaultBg, bold: false, underline: false, reverse: false }
    }
}

impl Default for Attrs {
    fn default() -> (attrs: Attrs)
        ensures
            attrs == Attrs::plain(),
    {
        Attrs { fg: Color::DefaultFg, bg: Color::DefaultBg, bold: false, underline: false, reverse: false }
    }
}

/// One position of the grid: a character and its style.
#[derive(Clone, Copy, PartialEq, Eq, Debug, Structural)]
pub struct Cell {
    pub ch: char,
    pub attrs: Attrs,
}

impl Cell {
    /// A space in the given style.
    pub open spec fn blank(attrs: Attrs) -> Cell {
        Cell { ch: ' ', attrs }
    }
}

/// A row of cells, and whether it has changed since it was last painted.
pub struct ScreenLine {
    pub(crate) cells: Vec<Cell>,
    pub(crate) dirty: bool,
}

/// What a row holds.
pub struct RowView {
    pub cells: Seq<Cell>,
    pub dirty: bool,
}

impl RowView {
    /// A row of `width` spaces in the plain style, not yet painted.
    pub open spec fn blank(width: nat) -> RowView {
        RowView { cells: Seq::new(width, |i: int| Cell::blank(Attrs::plain())), dirty: true }
    }

    /// The row with the cells from `from` up to, not including, `to` turned
    /// into spaces of the given style, and marked as changed.
    pub open spec fn erased(self, from: int, to: int, attrs: Attrs) -> RowView {
        RowView {
            cells: Seq::new(
                self.cells.len(),
                |i: int| if from <= i < to { Cell::blank(attrs) } else { self.cells[i] },
            ),
            dirty: true,
        }
    }

    /// The row with one cell replaced, and marked as changed.
    pub open spec fn with_cell(self, x: int, cell: Cell) -> RowView {
        RowView { cells: self.cells.update(x, cell), dirty: true }
    }

    /// The row marked as painted.
    pub open spec fn painted(self) -> RowView {
        RowView { dirty: false, ..self }
    }
}

impl View for ScreenLine {
    type V = RowView;

    open(crate) spec fn view(&self) -> RowView {
        RowView { cells: self.cells@, dirty: self.dirty }
    }
}

impl ScreenLine {
    /// A fresh row of `width` blank cells.
    pub fn new(width: usize) -> (line: ScreenLine)
        ensures
            line@ == RowView::blank(width as nat),
    {
        let mut cells: Vec<Cell> = Vec::new();
        let mut i: usize = 0;
        while i < width
            invariant
                i <= width,
                cells@.len() == i,
                forall|k: int| 0 <= k < i ==> cells@[k] == Cell::blank(Attrs::plain()),
            decreases width - i,
        {
            cells.push(Cell { ch: ' ', attrs: Attrs::default() });
            i += 1;
        }
        assert(cells@ =~= RowView::blank(width as nat).cells);
        ScreenLine { cells, dirty: true }
    }

    /// Turns the cells from `from` up to, not including, `to` into spaces of
    /// the given style and marks the row as changed.
    pub fn erase(&mut self, from: usize, to: usize, attrs: Attrs)
        requires
            to <= old(self)@.cells.len(),
        ensures
            final(self)@ == old(self)@.erased(from as int, to as int, attrs),
    {
        let mut i: usize = from;
        while i < to
            invariant
                from <= i,
                i <= to || i == from,
                to <= self.cells@.len(),
                self.cells@.len() == old(self).cells@.len(),
                forall|k: int|
                    0 <= k < self.cells@.len() ==> self.cells@[k] == if from <= k < i {
                        Cell::blank(attrs)
                    } else {
                        old(self).cells@[k]
                    },
            decreases to - i,
        {
            self.cells[i] = Cell { ch: ' ', attrs };
            i += 1;
        }
        self.dirty = true;
        assert(self@.cells =~= old(self)@.erased(from as int, to as int, attrs).cells);
    }

    /// Turns every cell into a space of the given style and marks the row as changed.
    pub fn clear(&mut self, attrs: Attrs)
        ensures
            final(self)@ == old(self)@.erased(0, old(self)@.cells.len() as int, attrs),
    {
        let n = self.cells.len();
        self.erase(0, n, attrs);
    }
}

} // verus!
