use vt_screen::{Attrs, Cell, Color, Screen, ScreenModel};

fn ch(model: &ScreenModel, x: usize, y: usize) -> char {
    model.cell(x, y).unwrap().ch
}

fn row_text(model: &ScreenModel, y: usize) -> String {
    (0..model.width() as usize).map(|x| ch(model, x, y)).collect()
}

#[test]
fn text_with_carriage_return_and_line_feed() {
    // The 12 point font gives a grid 40 columns wide.
    let mut screen = Screen::with_font(3, 200).unwrap();
    assert_eq!(screen.width(), 40);
    assert_eq!(screen.cursor(), (0, 0));
    screen.print("AB\r\nC");
    assert_eq!(row_text(&screen, 0), format!("AB{}", " ".repeat(38)));
    assert_eq!(ch(&screen, 0, 1), 'C');
    assert_eq!(screen.cursor(), (1, 1));
}

#[test]
fn text_with_carriage_return_and_line_feed_on_default_screen() {
    let mut screen = Screen::new();
    screen.print("AB\r\nC");
    assert_eq!(row_text(&screen, 0), format!("AB{}", " ".repeat(43)));
    assert_eq!(row_text(&screen, 1), format!("C{}", " ".repeat(44)));
    assert_eq!(screen.cursor(), (1, 1));
}

#[test]
fn sgr_colour_then_reset() {
    let mut screen = Screen::new();
    screen.print("\x1b[31mR\x1b[0mG");
    let first: Cell = screen.cell(0, 0).unwrap();
    let second: Cell = screen.cell(1, 0).unwrap();
    assert_eq!(first.ch, 'R');
    assert_eq!(first.attrs.fg, Color::Indexed(1));
    assert_eq!(second.ch, 'G');
    assert_eq!(second.attrs.fg, Color::DefaultFg);
    assert_eq!(second.attrs, Attrs::default());
}

#[test]
fn one_character_more_than_a_row_wraps() {
    let mut screen = Screen::new();
    let cols = screen.width() as usize;
    screen.print(&"x".repeat(cols));
    // The cursor waits past the last column until the next character comes.
    assert_eq!(screen.cursor(), (cols, 0));
    screen.print("y");
    assert_eq!(row_text(&screen, 0), "x".repeat(cols));
    assert_eq!(ch(&screen, 0, 1), 'y');
    assert_eq!(screen.cursor(), (1, 1));
}

#[test]
fn erase_whole_line_keeps_cursor() {
    let mut screen = Screen::new();
    screen.print("ABC\x1b[2K");
    assert_eq!(row_text(&screen, 0), " ".repeat(45));
    assert_eq!(screen.cursor(), (3, 0));
}

#[test]
fn cursor_home_then_overwrite() {
    let mut screen = Screen::new();
    screen.print("A\x1b[H");
    assert_eq!(screen.cursor(), (0, 0));
    screen.print("B");
    assert_eq!(ch(&screen, 0, 0), 'B');
    assert_eq!(ch(&screen, 1, 0), ' ');
    assert_eq!(screen.cursor(), (1, 0));
}

#[test]
fn one_character_more_than_a_screen_scrolls() {
    let mut screen = Screen::new();
    let cols = screen.width() as usize;
    let rows = screen.height() as usize;
    screen.print(&".".repeat(cols * rows));
    assert_eq!(screen.scrollback_len(), 0);
    screen.print(".");
    assert_eq!(screen.scrollback_len(), 1);
    for x in 0..cols {
        assert_eq!(screen.scrollback_cell(x, 0).unwrap().ch, '.');
    }
    assert_eq!(ch(&screen, 0, rows - 1), '.');
    for x in 1..cols {
        assert_eq!(ch(&screen, x, rows - 1), ' ');
    }
    for y in 0..rows - 1 {
        assert_eq!(row_text(&screen, y), ".".repeat(cols));
    }
    assert_eq!(screen.cursor(), (1, rows - 1));
}
