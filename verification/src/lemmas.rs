//! What holds of every screen, proved from the definitions of the operations.

use vstd::prelude::*;
use crate::boxdraw::{shade_commands, shade_lit, shade_row, shade_rows};
use crate::color::Rgb565;
use crate::control::sgr_list;
use crate::draw::DrawCommand;
use crate::grid::{Attrs, Cell, RowView};
use crate::model::ModelView;
use crate::parser::{advanced, feed, plain_events, plain_text, written_params, VtEventView};
use crate::render::cells_commands;

verus! {

impl ModelView {
    /// Two screens of the same size, font and scrollback bound.
    pub open spec fn same_frame(self, other: ModelView) -> bool {
        &&& self.rows == other.rows
        &&& self.cols == other.cols
        &&& self.font == other.font
        &&& self.font_index == other.font_index
        &&& self.max_scrollback == other.max_scrollback
    }

    /// The screen after `n` line feeds.
    pub open spec fn line_feeds(self, n: nat) -> ModelView
        decreases n,
    {
        if n == 0 {
            self
        } else {
            self.line_feeds((n - 1) as nat).execute(0x0A)
        }
    }
}

/// Every event leaves a well-formed screen well formed, with the size it had:
/// the grid keeps `rows` rows of `cols` cells, the scrollback stays within its
/// bound, the cursor stays on a row of the grid and at most one column past
/// its end.
pub proof fn lemma_apply_keeps_wf(m: ModelView, event: VtEventView)
    requires
        m.wf(),
    ensures
        m.apply(event).wf(),
        m.apply(event).same_frame(m),
{
    match event {
        VtEventView::Print(c) => {
            lemma_print_keeps_wf(m, c);
        },
        VtEventView::Execute(byte) => {
            lemma_execute_keeps_wf(m, byte);
        },
        VtEventView::Csi { params, intermediates, ignore, action } => {
            lemma_csi_keeps_wf(m, params, intermediates, ignore, action);
        },
        _ => {},
    }
}

/// Printing keeps a screen well formed.
pub proof fn lemma_print_keeps_wf(m: ModelView, c: char)
    requires
        m.wf(),
    ensures
        m.print(c).wf(),
        m.print(c).same_frame(m),
{
}

/// A C0 control keeps a screen well formed.
pub proof fn lemma_execute_keeps_wf(m: ModelView, byte: u8)
    requires
        m.wf(),
    ensures
        m.execute(byte).wf(),
        m.execute(byte).same_frame(m),
{
}

/// A CSI sequence keeps a screen well formed.
pub proof fn lemma_csi_keeps_wf(
    m: ModelView,
    params: Seq<u16>,
    intermediates: Seq<u8>,
    ignore: bool,
    action: char,
)
    requires
        m.wf(),
    ensures
        m.csi(params, intermediates, ignore, action).wf(),
        m.csi(params, intermediates, ignore, action).same_frame(m),
{
}

/// Any run of events leaves a well-formed screen well formed, with the size
/// it had.
pub proof fn lemma_apply_all_keeps_wf(m: ModelView, events: Seq<VtEventView>)
    requires
        m.wf(),
    ensures
        m.apply_all(events).wf(),
        m.apply_all(events).same_frame(m),
    decreases events.len(),
{
    if events.len() > 0 {
        lemma_apply_all_keeps_wf(m, events.drop_last());
        lemma_apply_keeps_wf(m.apply_all(events.drop_last()), events.last());
    }
}

/// Whatever bytes are fed, and whatever the parser makes of them, the screen
/// stays well formed with the size it had: the cursor is on a row of the
/// grid and at most one column past its end, every row has `cols` cells, the
/// grid has `rows` rows, and the scrollback is within its bound.
pub proof fn lemma_feed_keeps_wf(m: ModelView, state: nat, bytes: Seq<u8>)
    requires
        m.wf(),
    ensures
        feed(m, state, bytes).0.wf(),
        feed(m, state, bytes).0.same_frame(m),
        feed(m, state, bytes).0.cursor_y < m.rows,
        feed(m, state, bytes).0.cursor_x <= m.cols,
    decreases bytes.len(),
{
    if bytes.len() > 0 {
        lemma_feed_keeps_wf(m, state, bytes.drop_last());
        let (before, s) = feed(m, state, bytes.drop_last());
        lemma_apply_all_keeps_wf(before, advanced(s, bytes.last()).0);
    }
}

/// The cursor column reaches `cols` only by printing into the last column: a
/// print leaves it there exactly when it wrote that column, and no other
/// event moves it there.
pub proof fn lemma_cursor_past_end_only_by_print(m: ModelView, event: VtEventView)
    requires
        m.wf(),
    ensures
        m.apply(event).cursor_y < m.rows,
        m.apply(event).cursor_x <= m.cols,
        event matches VtEventView::Print(c) ==> (m.apply(event).cursor_x == m.cols <==> m.cursor_x + 1 == m.cols
            || (m.cols == 1 && m.cursor_x == 1)),
        !(event is Print) && m.cursor_x < m.cols ==> m.apply(event).cursor_x < m.cols,
{
}

/// A cursor move that was written without its parameter moves by one: the
/// parser reports it with a lone 0, which is recorded as no parameters, and
/// the move then takes its default.
pub proof fn lemma_move_without_parameter_is_by_one(m: ModelView, action: char)
    requires
        m.wf(),
        action == 'A' || action == 'B' || action == 'C' || action == 'D',
    ensures
        written_params(seq![0u16]) == Seq::<u16>::empty(),
        m.csi(written_params(seq![0u16]), Seq::empty(), false, action) == m.csi(
            seq![1u16],
            Seq::empty(),
            false,
            action,
        ),
{
    assert(written_params(seq![0u16]) =~= Seq::<u16>::empty());
}

/// Printing, a C0 control or a CSI sequence returns the view to the live rows
/// before it takes effect: it acts as it would on the screen with the view
/// reset, and leaves the view there.
pub proof fn lemma_output_resets_view(m: ModelView, event: VtEventView)
    requires
        m.wf(),
        event is Print || event is Execute || event is Csi,
    ensures
        m.apply(event) == m.reset_view().apply(event),
        m.apply(event).viewport_offset == 0,
{
}

/// After CSI 2 J every cell of the grid is a space in the current style and
/// the cursor is at the top left.
pub proof fn lemma_erase_display_clears_grid(m: ModelView)
    requires
        m.wf(),
    ensures
        ({
            let after = m.csi(seq![2u16], Seq::empty(), false, 'J');
            &&& after == m.reset_view().erase_all()
            &&& after.cursor_x == 0
            &&& after.cursor_y == 0
            &&& after.current_attrs == m.current_attrs
            &&& forall|x: int, y: int|
                0 <= x < m.cols && 0 <= y < m.rows ==> after.cell(x, y) == Cell::blank(m.current_attrs)
        }),
{
}

/// A list of SGR parameters that ends in 0 leaves the plain style, whatever
/// came before.
pub proof fn lemma_sgr_reset(attrs: Attrs, params: Seq<u16>)
    requires
        params.len() > 0,
        params.last() == 0,
    ensures
        sgr_list(attrs, params) == Attrs::plain(),
{
}

/// After CSI 0 m the current style is the plain one, and nothing else has
/// changed but the view.
pub proof fn lemma_sgr_zero_restores_default(m: ModelView)
    ensures
        m.csi(seq![0u16], Seq::empty(), false, 'm') == (ModelView {
            current_attrs: Attrs::plain(),
            ..m.reset_view()
        }),
{
    let params = seq![0u16];
    lemma_sgr_reset(m.reset_view().current_attrs, params);
}

/// Printing with the cursor past the last column is the same as a carriage
/// return, a line feed, and then printing.
pub proof fn lemma_wrap_is_return_and_line_feed(m: ModelView, c: char)
    requires
        m.wf(),
        m.cursor_x == m.cols,
    ensures
        m.print(c) == m.execute(0x0D).execute(0x0A).print(c),
{
}

/// The same on the wire: with the cursor past the last column, a printable
/// character alone does to the screen what it does after a carriage return
/// and a line feed.
pub proof fn lemma_wrap_is_return_and_line_feed_bytes(m: ModelView, byte: u8)
    requires
        m.wf(),
        m.cursor_x == m.cols,
        0x20 <= byte <= 0x7e,
    ensures
        m.apply_all(plain_events(seq![byte])) == m.apply_all(plain_events(seq![0x0Du8, 0x0Au8, byte])),
{
    let c = byte as char;
    lemma_wrap_is_return_and_line_feed(m, c);
    let short = plain_events(seq![byte]);
    assert(short.drop_last() =~= Seq::<VtEventView>::empty());
    assert(m.apply_all(short.drop_last()) == m);
    assert(m.apply_all(short) == m.print(c));
    let long = plain_events(seq![0x0Du8, 0x0Au8, byte]);
    let two = long.drop_last();
    let one = two.drop_last();
    assert(one.drop_last() =~= Seq::<VtEventView>::empty());
    assert(m.apply_all(one.drop_last()) == m);
    assert(m.apply_all(one) == m.execute(0x0D));
    assert(m.apply_all(two) == m.execute(0x0D).execute(0x0A));
    assert(m.apply_all(long) == m.execute(0x0D).execute(0x0A).print(c));
}

/// `n` blank rows of the given width.
pub open spec fn blank_rows(n: nat, width: nat) -> Seq<RowView> {
    Seq::new(n, |i: int| RowView::blank(width))
}

/// How many rows have left the front of the history once `n` rows have been
/// added to a scrollback of `kept` rows bounded by `max`.
pub open spec fn dropped(kept: nat, n: nat, max: nat) -> nat {
    if kept + n > max {
        (kept + n - max) as nat
    } else {
        0
    }
}

/// Line feeds at the bottom row scroll faithfully: after `n` of them the
/// history is the old history followed by `n` blank rows, less the oldest
/// rows that no longer fit in the scrollback; every row that remains is
/// unchanged and in its old order.
pub proof fn lemma_scroll_fidelity(m: ModelView, n: nat)
    requires
        m.wf(),
        m.cursor_y + 1 == m.rows,
    ensures
        ({
            let after = m.line_feeds(n);
            let d = dropped(m.scrollback.len(), n, m.max_scrollback);
            &&& after.wf()
            &&& after.same_frame(m)
            &&& after.cursor_y + 1 == m.rows
            &&& after.cursor_x == m.cursor_x
            &&& after.scrollback.len() == m.scrollback.len() + n - d
            &&& after.history() == (m.history() + blank_rows(n, m.cols)).skip(d as int)
        }),
    decreases n,
{
    if n == 0 {
        assert(m.history() + blank_rows(0, m.cols) =~= m.history());
        assert(m.history().skip(0) =~= m.history());
    } else {
        let k = (n - 1) as nat;
        lemma_scroll_fidelity(m, k);
        let before = m.line_feeds(k);
        let after = m.line_feeds(n);
        let d0 = dropped(m.scrollback.len(), k, m.max_scrollback);
        let d = dropped(m.scrollback.len(), n, m.max_scrollback);
        assert(after == before.reset_view().scroll_up());
        let all = m.history() + blank_rows(n, m.cols);
        let all0 = m.history() + blank_rows(k, m.cols);
        assert(all =~= all0.push(RowView::blank(m.cols)));
        assert(before.history().push(RowView::blank(m.cols)) =~= all.skip(d0 as int));
        assert(after.history() =~= before.history().push(RowView::blank(m.cols)).skip(d - d0));
        assert(all.skip(d0 as int).skip(d - d0) =~= all.skip(d as int));
    }
}

/// `n` line feed bytes.
pub open spec fn line_feed_bytes(n: nat) -> Seq<u8> {
    Seq::new(n, |i: int| 0x0Au8)
}

/// Line feed bytes are plain text, and what they do to the screen is `n`
/// line feeds.
pub proof fn lemma_line_feed_bytes_feed_lines(m: ModelView, n: nat)
    ensures
        plain_text(line_feed_bytes(n)),
        m.apply_all(plain_events(line_feed_bytes(n))) == m.line_feeds(n),
    decreases n,
{
    if n > 0 {
        let k = (n - 1) as nat;
        lemma_line_feed_bytes_feed_lines(m, k);
        let events = plain_events(line_feed_bytes(n));
        assert(events.drop_last() =~= plain_events(line_feed_bytes(k)));
        assert(events.last() == VtEventView::Execute(0x0A));
    }
}

/// While the scrollback has room, the rows that line feeds push off the top
/// are appended to it in the order in which they stood on the screen: first
/// the rows of the grid, then the blank rows that followed them.
pub proof fn lemma_scrolled_rows_are_kept(m: ModelView, n: nat)
    requires
        m.wf(),
        m.cursor_y + 1 == m.rows,
        m.scrollback.len() + n <= m.max_scrollback,
    ensures
        m.line_feeds(n).scrollback == m.scrollback + (m.grid + blank_rows(n, m.cols)).take(n as int),
        m.line_feeds(n).grid == (m.grid + blank_rows(n, m.cols)).skip(n as int),
{
    lemma_scroll_fidelity(m, n);
    let after = m.line_feeds(n);
    let all = m.history() + blank_rows(n, m.cols);
    assert(all.skip(0) =~= all);
    assert(after.history() == all);
    let kept = m.scrollback.len() + n;
    assert(after.scrollback =~= after.history().take(kept as int));
    assert(after.grid =~= after.history().skip(kept as int));
    assert(all.take(kept as int) =~= m.scrollback + (m.grid + blank_rows(n, m.cols)).take(n as int));
    assert(all.skip(kept as int) =~= (m.grid + blank_rows(n, m.cols)).skip(n as int));
}

impl ModelView {
    /// The cell in column `x` of row `r` of the history; rows that are yet to
    /// come are blank.
    pub open spec fn history_cell(self, r: int, x: int) -> Cell {
        if 0 <= r < self.history().len() {
            self.history()[r].cells[x]
        } else {
            Cell::blank(Attrs::plain())
        }
    }

    /// Where the cursor is, counting cells row by row from the start of the
    /// history. A cursor past the last column counts as the start of the next
    /// row.
    pub open spec fn position(self) -> int {
        ((self.scrollback.len() + self.cursor_y) * self.cols + self.cursor_x) as int
    }

    /// Whether printing the next character pushes the oldest row out of the
    /// scrollback: the cursor wraps at the bottom row while the scrollback is full.
    pub open spec fn print_drops_row(self) -> bool {
        self.cursor_x >= self.cols && self.cursor_y + 1 >= self.rows && self.scrollback.len() + 1
            > self.max_scrollback
    }

    /// How many rows leave the far end of the scrollback while the characters
    /// are printed.
    pub open spec fn rows_dropped_by(self, chars: Seq<char>) -> nat
        decreases chars.len(),
    {
        if chars.len() == 0 {
            0
        } else {
            let before = self.print_all(chars.drop_last());
            self.rows_dropped_by(chars.drop_last()) + if before.print_drops_row() {
                1nat
            } else {
                0nat
            }
        }
    }
}

/// A cell position is a row and a column in one way only.
proof fn lemma_position_unique(a: int, x: int, b: int, y: int, c: int)
    requires
        0 <= x < c,
        0 <= y < c,
        a * c + x == b * c + y,
    ensures
        a == b,
        x == y,
{
    assert(a == b) by (nonlinear_arith)
        requires
            0 <= x < c,
            0 <= y < c,
            a * c + x == b * c + y,
    ;
}

/// Printing one character writes one cell and leaves every other cell of the
/// history as it was. The cell written is the one at the cursor's position;
/// the cursor's position grows by one. Rows are numbered as after the print,
/// which is one less than before if the oldest row was dropped.
pub proof fn lemma_print_writes_one_cell(m: ModelView, c: char)
    requires
        m.wf(),
    ensures
        ({
            let after = m.print(c);
            let d: int = if m.print_drops_row() { 1 } else { 0 };
            &&& after.wf()
            &&& after.same_frame(m)
            &&& after.current_attrs == m.current_attrs
            &&& after.position() + d * m.cols == m.position() + 1
            &&& forall|r: int, x: int|
                0 <= r && 0 <= x < m.cols ==> #[trigger] after.history_cell(r, x) == if (r + d) * m.cols + x
                    == m.position() {
                    Cell { ch: c, attrs: m.current_attrs }
                } else {
                    m.history_cell(r + d, x)
                }
        }),
{
    let after = m.print(c);
    let d: int = if m.print_drops_row() { 1 } else { 0 };
    let cols = m.cols as int;
    let kept = m.scrollback.len() as int;
    let wraps = m.cursor_x >= m.cols;
    let scrolls = wraps && m.cursor_y + 1 >= m.rows;
    // The row and column that are written, in the history as it was.
    let row: int = kept + m.cursor_y + if wraps { 1int } else { 0int };
    let col: int = if wraps { 0 } else { m.cursor_x as int };
    assert(row * cols + col == m.position()) by (nonlinear_arith)
        requires
            row == kept + m.cursor_y + if wraps { 1int } else { 0int },
            col == if wraps { 0 } else { m.cursor_x as int },
            wraps <==> m.cursor_x >= cols,
            m.cursor_x <= cols,
            m.position() == (kept + m.cursor_y) * cols + m.cursor_x,
    ;
    assert(after.position() + d * cols == m.position() + 1) by (nonlinear_arith)
        requires
            after.position() == (after.scrollback.len() + after.cursor_y) * cols + after.cursor_x,
            m.position() == (kept + m.cursor_y) * cols + m.cursor_x,
            after.cursor_x == col + 1,
            after.scrollback.len() + after.cursor_y + d == row,
            row * cols + col == m.position(),
    ;
    assert forall|r: int, x: int| 0 <= r && 0 <= x < m.cols implies #[trigger] after.history_cell(r, x) == if (r
        + d) * m.cols + x == m.position() {
        Cell { ch: c, attrs: m.current_attrs }
    } else {
        m.history_cell(r + d, x)
    } by {
        if (r + d) * cols + x == m.position() {
            lemma_position_unique(r + d, x, row, col, cols);
        }
        if r + d == row && x == col {
            assert((r + d) * cols + x == m.position());
        }
    }
}

/// Printing never clears a cell that it does not write. After a run of
/// characters is printed, the cells from the cursor's old position onwards
/// hold those characters in the current style, one after the other across
/// rows; every other cell of the history holds what it held, and rows that
/// did not exist before are blank. Rows are numbered as after the run: the
/// oldest rows may have been dropped from a full scrollback.
pub proof fn lemma_print_all_touches_only_what_it_writes(m: ModelView, chars: Seq<char>)
    requires
        m.wf(),
    ensures
        ({
            let after = m.print_all(chars);
            let d = m.rows_dropped_by(chars) as int;
            &&& after.wf()
            &&& after.same_frame(m)
            &&& after.current_attrs == m.current_attrs
            &&& after.position() + d * m.cols == m.position() + chars.len()
            &&& forall|r: int, x: int|
                0 <= r && 0 <= x < m.cols ==> #[trigger] after.history_cell(r, x) == ({
                    let i = (r + d) * m.cols + x - m.position();
                    if 0 <= i < chars.len() {
                        Cell { ch: chars[i], attrs: m.current_attrs }
                    } else {
                        m.history_cell(r + d, x)
                    }
                })
        }),
    decreases chars.len(),
{
    let cols = m.cols as int;
    if chars.len() == 0 {
        assert(m.print_all(chars) == m);
        assert(m.rows_dropped_by(chars) == 0);
        assert(0 * cols == 0);
    } else {
        let most = chars.drop_last();
        let c = chars.last();
        lemma_print_all_touches_only_what_it_writes(m, most);
        let before = m.print_all(most);
        lemma_print_writes_one_cell(before, c);
        let after = m.print_all(chars);
        assert(after == before.print(c));
        let d0 = m.rows_dropped_by(most) as int;
        let d1: int = if before.print_drops_row() { 1 } else { 0 };
        let d = m.rows_dropped_by(chars) as int;
        assert(d == d0 + d1);
        assert(d * cols == d0 * cols + d1 * cols) by (nonlinear_arith)
            requires
                d == d0 + d1,
        ;
        assert(before.cols == m.cols);
        assert(before.position() + d0 * cols == m.position() + most.len());
        assert(after.position() + d1 * cols == before.position() + 1);
        assert(most.len() + 1 == chars.len());
        assert(after.position() + d * cols == m.position() + chars.len());
        assert forall|r: int, x: int| 0 <= r && 0 <= x < m.cols implies #[trigger] after.history_cell(r, x) == ({
            let i = (r + d) * m.cols + x - m.position();
            if 0 <= i < chars.len() {
                Cell { ch: chars[i], attrs: m.current_attrs }
            } else {
                m.history_cell(r + d, x)
            }
        }) by {
            let i = (r + d) * cols + x - m.position();
            assert((r + d) * cols == (r + d1) * cols + d0 * cols) by (nonlinear_arith)
                requires
                    d == d0 + d1,
            ;
            assert((r + d1 + d0) * cols == (r + d1) * cols + d0 * cols) by (nonlinear_arith);
            // Whether this is the cell that the last character went to.
            assert(((r + d1) * cols + x == before.position()) <==> i == chars.len() - 1);
            if i == chars.len() - 1 {
                assert(after.history_cell(r, x) == Cell { ch: c, attrs: before.current_attrs });
                assert(chars[i] == c);
            } else {
                assert(after.history_cell(r, x) == before.history_cell(r + d1, x));
                let j = (r + d1 + d0) * cols + x - m.position();
                assert(j == i);
                assert(0 <= i < most.len() ==> most[i] == chars[i]);
                assert(r + d1 + d0 == r + d);
            }
        }
    }
}

/// A second paint right after a paint draws nothing but the cursor, and
/// painting changes no cell, nor the cursor, nor the style.
pub proof fn lemma_painted_screen_needs_only_the_cursor(m: ModelView)
    requires
        m.wf(),
    ensures
        m.painted().wf(),
        m.painted().same_frame(m),
        m.painted().paint_commands() == m.painted().cursor_commands(),
        m.painted().cursor_commands() == m.cursor_commands(),
        m.painted().painted() == m.painted(),
        forall|r: int, x: int| m.painted().history_cell(r, x) == m.history_cell(r, x),
{
    let p = m.painted();
    lemma_no_rows_to_paint(p, p.rows as int);
    assert(p.paint_commands() =~= p.cursor_commands());
    assert(p.painted().scrollback =~= p.scrollback);
    assert(p.painted().grid =~= p.grid);
}

/// Rows that are all painted, with no full repaint due, give no commands.
proof fn lemma_no_rows_to_paint(p: ModelView, n: int)
    requires
        p.wf(),
        !p.full_repaint,
        0 <= n <= p.rows,
        forall|y: int| 0 <= y < p.rows ==> !p.source_row(y).dirty,
    ensures
        p.rows_commands(n) == Seq::<DrawCommand>::empty(),
    decreases n,
{
    if n > 0 {
        lemma_no_rows_to_paint(p, n - 1);
        assert(p.rows_commands(n) =~= Seq::<DrawCommand>::empty());
    }
}

/// Where only one row on show has changed and no full repaint is due, the
/// rows painted are that row alone.
pub proof fn lemma_only_the_changed_row_is_painted(m: ModelView, y: int)
    requires
        m.wf(),
        !m.full_repaint,
        0 <= y < m.rows,
        forall|k: int| 0 <= k < m.rows && k != y ==> !m.source_row(k).dirty,
    ensures
        m.rows_commands(m.rows as int) == m.row_commands(y),
{
    lemma_rows_up_to(m, y, m.rows as int);
}

/// The commands of the first `n` screen rows where only row `y` has changed.
proof fn lemma_rows_up_to(m: ModelView, y: int, n: int)
    requires
        m.wf(),
        !m.full_repaint,
        0 <= y < m.rows,
        0 <= n <= m.rows,
        forall|k: int| 0 <= k < m.rows && k != y ==> !m.source_row(k).dirty,
    ensures
        m.rows_commands(n) == if n > y {
            m.row_commands(y)
        } else {
            Seq::<DrawCommand>::empty()
        },
    decreases n,
{
    if n > 0 {
        lemma_rows_up_to(m, y, n - 1);
        let before = m.rows_commands(n - 1);
        let last = m.row_commands(n - 1);
        assert(m.rows_commands(n) == before + last);
        if n - 1 == y {
            assert(before + last =~= last);
        } else {
            assert(before + last =~= before);
        }
    }
}

/// Painting is incremental: on a screen that has just been painted, with the
/// view on the live rows, printing a character that does not scroll makes
/// the next paint draw the row that was written, then the cursor, and
/// nothing else.
pub proof fn lemma_print_repaints_one_row(m: ModelView, c: char)
    requires
        m.wf(),
        m.viewport_offset == 0,
        m.cursor_x < m.cols || m.cursor_y + 1 < m.rows,
    ensures
        ({
            let after = m.painted().print(c);
            let y = after.cursor_y as int;
            after.paint_commands() == cells_commands(after.font, y, after.grid[y].cells, after.cols as int)
                + after.cursor_commands()
        }),
{
    let p = m.painted();
    let after = p.print(c);
    let y = after.cursor_y as int;
    assert forall|k: int| 0 <= k < after.rows && k != y implies !after.source_row(k).dirty by {
        assert(after.source_row(k) == after.grid[k]);
        assert(after.grid[k] == p.grid[k]);
        assert(p.grid[k] == m.grid[k].painted());
    }
    lemma_only_the_changed_row_is_painted(after, y);
    assert(after.source_row(y) == after.grid[y]);
    assert(after.grid[y].dirty);
    assert(after.paint_commands() =~= cells_commands(after.font, y, after.grid[y].cells, after.cols as int)
        + after.cursor_commands());
}

/// The pixel at offset `(px, py)` of the cell at `(x, y)`.
pub open spec fn cell_pixel(x: u16, y: u16, px: int, py: int, color: Rgb565) -> DrawCommand {
    DrawCommand::Pixel { x: (x + px) as i32, y: (y + py) as i32, color }
}

/// What one pixel row of a shade holds: the lit pixels among its first `n`, and
/// nothing else.
proof fn lemma_shade_row(x: u16, y: u16, py: int, n: int, color: Rgb565, density: u8)
    requires
        0 <= py <= 0xffff,
        0 <= n <= 0xffff,
    ensures
        ({
            let row = shade_row(x as int, y as int, py, n, color, density);
            &&& forall|px: int|
                #![trigger cell_pixel(x, y, px, py, color)]
                0 <= px < n ==> (row.contains(cell_pixel(x, y, px, py, color)) <==> shade_lit(density, px, py))
            &&& forall|i: int|
                #![trigger row[i]]
                0 <= i < row.len() ==> exists|px: int|
                    #![trigger cell_pixel(x, y, px, py, color)]
                    0 <= px < n && row[i] == cell_pixel(x, y, px, py, color)
        }),
    decreases n,
{
    if n > 0 {
        lemma_shade_row(x, y, py, n - 1, color, density);
        let before = shade_row(x as int, y as int, py, n - 1, color, density);
        let row = shade_row(x as int, y as int, py, n, color, density);
        let last_px = n - 1;
        let last = cell_pixel(x, y, last_px, py, color);
        let lit = shade_lit(density, last_px, py);
        assert(row == if lit { before.push(last) } else { before });
        assert forall|px: int|
            #![trigger cell_pixel(x, y, px, py, color)]
            0 <= px < n implies (row.contains(cell_pixel(x, y, px, py, color)) <==> shade_lit(
            density,
            px,
            py,
        )) by {
            let want = cell_pixel(x, y, px, py, color);
            if px < n - 1 {
                assert(want != last);
                if before.contains(want) {
                    let i = choose|i: int| 0 <= i < before.len() && before[i] == want;
                    assert(row[i] == want);
                }
                if row.contains(want) {
                    let i = choose|i: int| 0 <= i < row.len() && row[i] == want;
                    assert(i < before.len());
                    assert(before[i] == want);
                }
            } else {
                if lit {
                    assert(row[before.len() as int] == last);
                }
                if row.contains(want) && !lit {
                    let i = choose|i: int| 0 <= i < before.len() && before[i] == want;
                    let qx = choose|qx: int|
                        #![trigger cell_pixel(x, y, qx, py, color)]
                        0 <= qx < n - 1 && before[i] == cell_pixel(x, y, qx, py, color);
                    assert(cell_pixel(x, y, qx, py, color) != want);
                }
            }
        }
        assert forall|i: int|
            #![trigger row[i]]
            0 <= i < row.len() implies exists|px: int|
            #![trigger cell_pixel(x, y, px, py, color)]
            0 <= px < n && row[i] == cell_pixel(x, y, px, py, color) by {
            if i < before.len() {
                assert(row[i] == before[i]);
                let qx = choose|qx: int|
                    #![trigger cell_pixel(x, y, qx, py, color)]
                    0 <= qx < n - 1 && before[i] == cell_pixel(x, y, qx, py, color);
                assert(0 <= qx < n && row[i] == cell_pixel(x, y, qx, py, color));
            } else {
                assert(0 <= last_px < n && row[i] == cell_pixel(x, y, last_px, py, color));
            }
        }
    }
}

/// What the first `n` pixel rows of a shade hold.
proof fn lemma_shade_rows(x: u16, y: u16, w: u16, n: int, color: Rgb565, density: u8)
    requires
        0 <= n <= 0xffff,
    ensures
        ({
            let all = shade_rows(x as int, y as int, w as int, n, color, density);
            &&& forall|px: int, py: int|
                #![trigger cell_pixel(x, y, px, py, color)]
                0 <= px < w && 0 <= py < n ==> (all.contains(cell_pixel(x, y, px, py, color)) <==> shade_lit(
                    density,
                    px,
                    py,
                ))
            &&& forall|i: int|
                #![trigger all[i]]
                0 <= i < all.len() ==> exists|px: int, py: int|
                    #![trigger cell_pixel(x, y, px, py, color)]
                    0 <= px < w && 0 <= py < n && all[i] == cell_pixel(x, y, px, py, color)
        }),
    decreases n,
{
    if n > 0 {
        let last_py = n - 1;
        lemma_shade_rows(x, y, w, last_py, color, density);
        lemma_shade_row(x, y, last_py, w as int, color, density);
        let before = shade_rows(x as int, y as int, w as int, last_py, color, density);
        let row = shade_row(x as int, y as int, last_py, w as int, color, density);
        let all = shade_rows(x as int, y as int, w as int, n, color, density);
        assert(all == before + row);
        assert forall|i: int|
            #![trigger all[i]]
            0 <= i < all.len() implies exists|px: int, py: int|
            #![trigger cell_pixel(x, y, px, py, color)]
            0 <= px < w && 0 <= py < n && all[i] == cell_pixel(x, y, px, py, color) by {
            if i < before.len() {
                assert(all[i] == before[i]);
                let (qx, qy) = choose|qx: int, qy: int|
                    #![trigger cell_pixel(x, y, qx, qy, color)]
                    0 <= qx < w && 0 <= qy < last_py && before[i] == cell_pixel(x, y, qx, qy, color);
                assert(0 <= qx < w && 0 <= qy < n && all[i] == cell_pixel(x, y, qx, qy, color));
            } else {
                let k = i - before.len();
                assert(all[i] == row[k]);
                let qx = choose|qx: int|
                    #![trigger cell_pixel(x, y, qx, last_py, color)]
                    0 <= qx < w && row[k] == cell_pixel(x, y, qx, last_py, color);
                assert(0 <= qx < w && 0 <= last_py < n && all[i] == cell_pixel(x, y, qx, last_py, color));
            }
        }
        assert forall|px: int, py: int|
            #![trigger cell_pixel(x, y, px, py, color)]
            0 <= px < w && 0 <= py < n implies (all.contains(cell_pixel(x, y, px, py, color)) <==> shade_lit(
            density,
            px,
            py,
        )) by {
            let want = cell_pixel(x, y, px, py, color);
            if all.contains(want) {
                let i = choose|i: int| 0 <= i < all.len() && all[i] == want;
                if i < before.len() {
                    assert(before[i] == want);
                    let (qx, qy) = choose|qx: int, qy: int|
                        #![trigger cell_pixel(x, y, qx, qy, color)]
                        0 <= qx < w && 0 <= qy < last_py && before[i] == cell_pixel(x, y, qx, qy, color);
                    assert(qx == px && qy == py);
                    assert(before.contains(want));
                } else {
                    let k = i - before.len();
                    assert(row[k] == want);
                    let qx = choose|qx: int|
                        #![trigger cell_pixel(x, y, qx, last_py, color)]
                        0 <= qx < w && row[k] == cell_pixel(x, y, qx, last_py, color);
                    assert(qx == px && py == last_py);
                    assert(row.contains(want));
                }
            }
            if shade_lit(density, px, py) {
                if py < last_py {
                    assert(before.contains(want));
                    let i = choose|i: int| 0 <= i < before.len() && before[i] == want;
                    assert(all[i] == want);
                } else {
                    assert(row.contains(want));
                    let k = choose|k: int| 0 <= k < row.len() && row[k] == want;
                    assert(all[before.len() + k] == want);
                }
            }
        }
    }
}

/// A shade draws exactly the lit pixels of its cell: each of its commands
/// sets a pixel of the cell, and a pixel of the cell is set if and only if
/// the density lights it.
pub proof fn lemma_shade_draws_the_lit_pixels(x: u16, y: u16, w: u16, h: u16, color: Rgb565, density: u8)
    ensures
        ({
            let cmds = shade_commands(x, y, w, h, color, density);
            &&& forall|px: int, py: int|
                #![trigger cell_pixel(x, y, px, py, color)]
                0 <= px < w && 0 <= py < h ==> (cmds.contains(cell_pixel(x, y, px, py, color)) <==> shade_lit(
                    density,
                    px,
                    py,
                ))
            &&& forall|i: int|
                #![trigger cmds[i]]
                0 <= i < cmds.len() ==> exists|px: int, py: int|
                    #![trigger cell_pixel(x, y, px, py, color)]
                    0 <= px < w && 0 <= py < h && cmds[i] == cell_pixel(x, y, px, py, color)
        }),
{
    lemma_shade_rows(x, y, w, h as int, color, density);
}

} // verus!
