use vt_screen::{Attrs, Cell, Color, Screen, ScreenModel};

// A small generator of bytes that leans towards escape sequences.
fn noise(seed: u64, len: usize) -> Vec<u8> {
    let mut state = seed.wrapping_mul(0x9E37_79B9_7F4A_7C15) | 1;
    let mut out = Vec::with_capacity(len);
    while out.len() < len {
        state ^= state << 13;
        state ^= state >> 7;
        state ^= state << 17;
        let pick = (state >> 32) as u8;
        match (state >> 40) % 8 {
            0 => out.extend_from_slice(b"\x1b["),
            1 => out.push(b'0' + pick % 10),
            2 => out.push(b";ABCDHJKmf\r\n\x08"[pick as usize % 13]),
            3 => out.push(b'\n'),
            _ => out.push(pick),
        }
    }
    out.truncate(len);
    out
}

fn assert_in_shape(screen: &Screen) {
    assert!(screen.is_well_formed());
    let cols = screen.width() as usize;
    let rows = screen.height() as usize;
    let (x, y) = screen.cursor();
    assert!(x <= cols, "cursor column {x}");
    assert!(y < rows, "cursor row {y}");
    assert!(screen.scrollback_len() <= screen.max_scrollback());
    assert!(screen.viewport_offset() <= screen.scrollback_len());
    for row in 0..rows {
        assert!(screen.cell(cols - 1, row).is_some());
        assert!(screen.cell(cols, row).is_none());
    }
    assert!(screen.cell(0, rows).is_none());
    for row in 0..screen.scrollback_len() {
        assert!(screen.scrollback_cell(cols - 1, row).is_some());
        assert!(screen.scrollback_cell(cols, row).is_none());
    }
}

#[test]
fn any_bytes_keep_the_screen_in_shape() {
    for seed in 0..20u64 {
        let mut screen = Screen::with_font((seed % 7) as usize, (seed % 5) as usize * 3).unwrap();
        let cols = screen.width();
        let rows = screen.height();
        for chunk in noise(seed, 6000).chunks(97) {
            screen.parse_bytes(chunk);
            assert_in_shape(&screen);
            assert_eq!(screen.width(), cols);
            assert_eq!(screen.height(), rows);
        }
    }
}

#[test]
fn every_byte_value_is_accepted() {
    let mut screen = Screen::new();
    let all: Vec<u8> = (0..=255u8).collect();
    for _ in 0..8 {
        screen.parse_bytes(&all);
        assert_in_shape(&screen);
    }
    let back: Vec<u8> = (0..=255u8).rev().collect();
    screen.parse_bytes(&back);
    assert_in_shape(&screen);
}

#[test]
fn cursor_column_is_past_the_end_only_after_printing_the_last_column() {
    let mut screen = Screen::new();
    screen.print(&"x".repeat(44));
    assert_eq!(screen.cursor(), (44, 0));
    screen.print("x");
    assert_eq!(screen.cursor(), (45, 0));
    // Moves that do not touch the column leave it there.
    screen.print("\n");
    assert_eq!(screen.cursor(), (45, 1));
    screen.print("\x1b[1A");
    assert_eq!(screen.cursor(), (45, 0));
    // Anything that sets the column brings it back inside.
    screen.print("\x08");
    assert_eq!(screen.cursor(), (44, 0));
    screen.print("x\x1b[1D");
    assert_eq!(screen.cursor(), (44, 0));
    screen.print("x\r");
    assert_eq!(screen.cursor(), (0, 0));
}

fn patterned() -> Screen {
    let mut screen = Screen::new();
    for y in 0..26u8 {
        let line: String = (0..45u8).map(|x| (b'A' + (x + y) % 26) as char).collect();
        screen.print(&format!("\x1b[{};1H\x1b[{}m{}", y + 1, 30 + y % 8, line));
    }
    screen.print("\x1b[0m");
    screen
}

#[test]
fn printing_leaves_cells_outside_the_written_range_alone() {
    let before = patterned();
    let mut screen = patterned();
    screen.print("\x1b[4;40H\x1b[1m");
    let style = screen.current_attrs();
    let text = "hello, world";
    screen.print(text);
    // Written: row 3 from column 39 to 44, row 4 from column 0 to 5.
    for y in 0..26 {
        for x in 0..45 {
            let at = y * 45 + x;
            let start = 3 * 45 + 39;
            if at >= start && at < start + text.len() {
                let ch = text.as_bytes()[at - start] as char;
                assert_eq!(screen.cell(x, y), Some(Cell { ch, attrs: style }));
            } else {
                assert_eq!(screen.cell(x, y), before.cell(x, y));
            }
        }
    }
    assert_eq!(screen.cursor(), (6, 4));
    assert_eq!(screen.scrollback_len(), 0);
}

#[test]
fn printing_past_the_bottom_moves_rows_but_clears_none() {
    let before = patterned();
    let mut screen = patterned();
    screen.print("\x1b[26;44H");
    screen.print("abcde");
    // "ab" ends the last row; "cde" starts a new one, and the top row scrolled off.
    assert_eq!(screen.scrollback_len(), 1);
    for x in 0..45 {
        assert_eq!(screen.scrollback_cell(x, 0), before.cell(x, 0));
    }
    for y in 0..24 {
        for x in 0..45 {
            assert_eq!(screen.cell(x, y), before.cell(x, y + 1));
        }
    }
    for x in 0..43 {
        assert_eq!(screen.cell(x, 24), before.cell(x, 25));
    }
    assert_eq!(screen.cell(43, 24).unwrap().ch, 'a');
    assert_eq!(screen.cell(44, 24).unwrap().ch, 'b');
    assert_eq!(screen.cell(0, 25).unwrap().ch, 'c');
    assert_eq!(screen.cell(1, 25).unwrap().ch, 'd');
    assert_eq!(screen.cell(2, 25).unwrap().ch, 'e');
    for x in 3..45 {
        assert_eq!(screen.cell(x, 25), Some(Cell { ch: ' ', attrs: Attrs::default() }));
    }
    assert_eq!(screen.cursor(), (3, 25));
}

#[test]
fn erase_display_through_the_parser_uses_the_current_style() {
    let mut screen = patterned();
    screen.print("\x1b[10;10H\x1b[7;33;44m\x1b[2J");
    let want = Attrs { fg: Color::Indexed(3), bg: Color::Indexed(4), bold: false, underline: false, reverse: true };
    for y in 0..26 {
        for x in 0..45 {
            assert_eq!(screen.cell(x, y), Some(Cell { ch: ' ', attrs: want }));
        }
    }
    assert_eq!(screen.cursor(), (0, 0));
    assert_eq!(screen.current_attrs(), want);
    assert!(screen.needs_full_repaint());
}

#[test]
fn sgr_zero_through_the_parser_restores_the_default_style() {
    for styled in ["\x1b[1m", "\x1b[4;7m", "\x1b[31;42m", "\x1b[97;107;1;4;7m", ""] {
        let mut screen = Screen::new();
        screen.print(styled);
        screen.print("\x1b[0m");
        assert_eq!(screen.current_attrs(), Attrs::default());
    }
    let mut screen = Screen::new();
    screen.print("\x1b[1;4;35m\x1b[m");
    assert_eq!(screen.current_attrs(), Attrs::default());
}

fn assert_same(a: &ScreenModel, b: &ScreenModel) {
    assert_eq!(a.cursor(), b.cursor());
    assert_eq!(a.scrollback_len(), b.scrollback_len());
    assert_eq!(a.viewport_offset(), b.viewport_offset());
    assert_eq!(a.needs_full_repaint(), b.needs_full_repaint());
    assert_eq!(a.current_attrs(), b.current_attrs());
    for y in 0..a.height() as usize {
        assert_eq!(a.is_dirty(y), b.is_dirty(y));
        for x in 0..a.width() as usize {
            assert_eq!(a.cell(x, y), b.cell(x, y));
        }
    }
    for i in 0..a.scrollback_len() {
        for x in 0..a.width() as usize {
            assert_eq!(a.scrollback_cell(x, i), b.scrollback_cell(x, i));
        }
    }
}

fn at_end_of_row(row: u16) -> Screen {
    let mut screen = patterned();
    screen.update_display();
    screen.print(&format!("\x1b[{};1H{}", row + 1, "=".repeat(45)));
    assert_eq!(screen.cursor(), (45, row as usize));
    screen
}

#[test]
fn wrapping_is_carriage_return_line_feed_then_print() {
    for row in [0u16, 7, 24] {
        let mut wrapped = at_end_of_row(row);
        let mut explicit = at_end_of_row(row);
        wrapped.print("w");
        explicit.print("\r\nw");
        assert_same(&wrapped, &explicit);
        assert_eq!(wrapped.cursor(), (1, row as usize + 1));
        assert_eq!(wrapped.cell(0, row as usize + 1).unwrap().ch, 'w');
        assert_eq!(wrapped.cell(44, row as usize).unwrap().ch, '=');
    }
}

#[test]
fn wrapping_at_the_bottom_row_scrolls_like_a_line_feed() {
    let mut wrapped = at_end_of_row(25);
    let mut explicit = at_end_of_row(25);
    wrapped.print("w");
    explicit.print("\r\nw");
    assert_same(&wrapped, &explicit);
    assert_eq!(wrapped.cursor(), (1, 25));
    assert_eq!(wrapped.scrollback_len(), 1);
    assert_eq!(wrapped.cell(0, 25).unwrap().ch, 'w');
    assert_eq!(wrapped.cell(0, 24).unwrap().ch, '=');
}

fn labelled(max_scrollback: usize) -> Screen {
    // Row y starts with the character of code 0x100 + y.
    let mut screen = Screen::with_font(2, max_scrollback).unwrap();
    for y in 0..26u32 {
        let label = char::from_u32(0x100 + y).unwrap();
        screen.print(&format!("\x1b[{};1H{}", y + 1, label));
    }
    screen.print("\x1b[26;1H");
    screen
}

fn label_of(cell: Option<Cell>) -> Option<u32> {
    cell.map(|c| c.ch as u32).filter(|code| *code >= 0x100).map(|code| code - 0x100)
}

#[test]
fn line_feeds_move_rows_into_scrollback_in_order() {
    for n in [0usize, 1, 5, 26, 30] {
        let mut screen = labelled(200);
        screen.print(&"\n".repeat(n));
        assert_eq!(screen.scrollback_len(), n);
        for i in 0..n {
            let want = if i < 26 { Some(i as u32) } else { None };
            assert_eq!(label_of(screen.scrollback_cell(0, i)), want);
        }
        for y in 0..26 {
            let want = if y + n < 26 { Some((y + n) as u32) } else { None };
            assert_eq!(label_of(screen.cell(0, y)), want);
        }
        assert_eq!(screen.cursor(), (0, 25));
    }
}

#[test]
fn full_scrollback_drops_its_oldest_rows() {
    for (max, n) in [(0usize, 3usize), (1, 1), (1, 4), (5, 5), (5, 6), (5, 12), (5, 40)] {
        let mut screen = labelled(max);
        screen.print(&"\n".repeat(n));
        let kept = n.min(max);
        assert_eq!(screen.scrollback_len(), kept);
        // The scrollback holds the last `kept` of the `n` rows that scrolled off.
        for i in 0..kept {
            let row = n - kept + i;
            let want = if row < 26 { Some(row as u32) } else { None };
            assert_eq!(label_of(screen.scrollback_cell(0, i)), want, "max {max}, n {n}, row {i}");
        }
    }
}

#[test]
fn default_scrollback_keeps_two_hundred_rows() {
    let mut screen = Screen::new();
    for i in 0..300u32 {
        screen.print(&format!("{}\r\n", char::from_u32(0x100 + i).unwrap()));
    }
    // 300 rows were written and the cursor is on a 301st: 275 rows scrolled off.
    assert_eq!(screen.scrollback_len(), 200);
    assert_eq!(label_of(screen.scrollback_cell(0, 0)), Some(75));
    assert_eq!(label_of(screen.scrollback_cell(0, 199)), Some(274));
    assert_eq!(label_of(screen.cell(0, 0)), Some(275));
    assert_eq!(label_of(screen.cell(0, 24)), Some(299));
    assert_eq!(label_of(screen.cell(0, 25)), None);
}
