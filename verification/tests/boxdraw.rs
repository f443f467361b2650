use vt_screen::{draw_box_char, draw_shade, DrawCommand, Rgb565};

const INK: Rgb565 = Rgb565 { r: 26, g: 52, b: 26 };

// A cell 8 wide and 14 high at (16, 28): centre (20, 35), right edge 24, bottom edge 42.
fn glyph(c: char) -> Vec<DrawCommand> {
    draw_box_char(c, 16, 28, 8, 14, INK)
}

fn line(x0: i32, y0: i32, x1: i32, y1: i32) -> DrawCommand {
    DrawCommand::Line { x0, y0, x1, y1, stroke: 1, color: INK }
}

fn heavy(x0: i32, y0: i32, x1: i32, y1: i32) -> DrawCommand {
    DrawCommand::Line { x0, y0, x1, y1, stroke: 2, color: INK }
}

fn arc(x: i32, y: i32, start_deg: u16) -> DrawCommand {
    DrawCommand::Arc { x, y, diameter: 8, start_deg, sweep_deg: 90, stroke: 1, color: INK }
}

fn rect(x: i32, y: i32, width: u32, height: u32) -> DrawCommand {
    DrawCommand::FillRect { x, y, width, height, color: INK }
}

#[test]
fn light_and_heavy_lines() {
    assert_eq!(glyph('\u{2500}'), vec![line(16, 35, 24, 35)]);
    assert_eq!(glyph('\u{2501}'), vec![heavy(16, 35, 24, 35)]);
    assert_eq!(glyph('\u{2502}'), vec![line(20, 28, 20, 42)]);
    assert_eq!(glyph('\u{2503}'), vec![heavy(20, 28, 20, 42)]);
}

#[test]
fn light_corners() {
    assert_eq!(glyph('\u{250C}'), vec![line(20, 35, 24, 35), line(20, 35, 20, 42)]);
    assert_eq!(glyph('\u{2510}'), vec![line(16, 35, 20, 35), line(20, 35, 20, 42)]);
    assert_eq!(glyph('\u{2514}'), vec![line(20, 35, 24, 35), line(20, 28, 20, 35)]);
    assert_eq!(glyph('\u{2518}'), vec![line(16, 35, 20, 35), line(20, 28, 20, 35)]);
}

#[test]
fn tees_and_cross() {
    assert_eq!(glyph('\u{251C}'), vec![line(20, 28, 20, 42), line(20, 35, 24, 35)]);
    assert_eq!(glyph('\u{2524}'), vec![line(20, 28, 20, 42), line(16, 35, 20, 35)]);
    assert_eq!(glyph('\u{252C}'), vec![line(16, 35, 24, 35), line(20, 35, 20, 42)]);
    assert_eq!(glyph('\u{2534}'), vec![line(16, 35, 24, 35), line(20, 28, 20, 35)]);
    assert_eq!(glyph('\u{253C}'), vec![line(16, 35, 24, 35), line(20, 28, 20, 42)]);
}

#[test]
fn double_lines() {
    assert_eq!(glyph('\u{2550}'), vec![line(16, 34, 24, 34), line(16, 36, 24, 36)]);
    assert_eq!(glyph('\u{2551}'), vec![line(19, 28, 19, 42), line(21, 28, 21, 42)]);
}

#[test]
fn double_corners() {
    assert_eq!(
        glyph('\u{2554}'),
        vec![line(19, 35, 19, 42), line(21, 35, 21, 42), line(20, 34, 24, 34), line(20, 36, 24, 36)]
    );
    assert_eq!(
        glyph('\u{2557}'),
        vec![line(19, 35, 19, 42), line(21, 35, 21, 42), line(16, 34, 20, 34), line(16, 36, 20, 36)]
    );
    assert_eq!(
        glyph('\u{255A}'),
        vec![line(19, 28, 19, 35), line(21, 28, 21, 35), line(20, 34, 24, 34), line(20, 36, 24, 36)]
    );
    assert_eq!(
        glyph('\u{255D}'),
        vec![line(19, 28, 19, 35), line(21, 28, 21, 35), line(16, 34, 20, 34), line(16, 36, 20, 36)]
    );
}

#[test]
fn rounded_corners() {
    assert_eq!(glyph('\u{256D}'), vec![arc(20, 35, 180), line(20, 42, 20, 42), line(24, 35, 24, 35)]);
    assert_eq!(glyph('\u{256E}'), vec![arc(12, 35, 270), line(20, 42, 20, 42), line(16, 35, 16, 35)]);
    assert_eq!(glyph('\u{2570}'), vec![arc(20, 21, 90), line(20, 28, 20, 28), line(24, 35, 24, 35)]);
    assert_eq!(glyph('\u{256F}'), vec![arc(12, 21, 0), line(20, 28, 20, 28), line(16, 35, 16, 35)]);
}

#[test]
fn rounded_corner_at_the_origin_reaches_outside_the_panel() {
    let cmds = draw_box_char('\u{256F}', 0, 0, 7, 12, INK);
    assert_eq!(
        cmds,
        vec![
            DrawCommand::Arc { x: -3, y: -6, diameter: 7, start_deg: 0, sweep_deg: 90, stroke: 1, color: INK },
            DrawCommand::Line { x0: 3, y0: 0, x1: 3, y1: 0, stroke: 1, color: INK },
            DrawCommand::Line { x0: 0, y0: 6, x1: 0, y1: 6, stroke: 1, color: INK },
        ]
    );
}

#[test]
fn blocks() {
    assert_eq!(glyph('\u{2588}'), vec![rect(16, 28, 8, 14)]);
    assert_eq!(glyph('\u{2580}'), vec![rect(16, 28, 8, 7)]);
    assert_eq!(glyph('\u{2584}'), vec![rect(16, 35, 8, 7)]);
}

#[test]
fn half_blocks_of_an_odd_height_cover_the_cell() {
    // Height 13: the upper half is 6 high, the lower half 7, starting at y + 6.
    assert_eq!(draw_box_char('\u{2580}', 0, 0, 6, 13, INK), vec![
        DrawCommand::FillRect { x: 0, y: 0, width: 6, height: 6, color: INK }
    ]);
    assert_eq!(draw_box_char('\u{2584}', 0, 0, 6, 13, INK), vec![
        DrawCommand::FillRect { x: 0, y: 6, width: 6, height: 7, color: INK }
    ]);
}

#[test]
fn other_characters_in_range_get_an_inset_outline() {
    for c in ['\u{2504}', '\u{254B}', '\u{2571}', '\u{2590}', '\u{2594}', '\u{259F}'] {
        assert_eq!(
            glyph(c),
            vec![DrawCommand::RectOutline { x: 18, y: 30, width: 4, height: 10, stroke: 1, color: INK }]
        );
    }
}

#[test]
fn inset_outline_of_a_tiny_cell_is_empty() {
    assert_eq!(
        draw_box_char('\u{2504}', 5, 5, 3, 2, INK),
        vec![DrawCommand::RectOutline { x: 7, y: 7, width: 0, height: 0, stroke: 1, color: INK }]
    );
    assert_eq!(
        draw_box_char('\u{2504}', 5, 5, 4, 5, INK),
        vec![DrawCommand::RectOutline { x: 7, y: 7, width: 0, height: 1, stroke: 1, color: INK }]
    );
}

fn lit(cmds: &[DrawCommand], x: i32, y: i32) -> bool {
    cmds.contains(&DrawCommand::Pixel { x, y, color: INK })
}

#[test]
fn quarter_shade_lights_even_pixels_of_even_rows() {
    let cmds = draw_shade(10, 20, 4, 3, INK, 1);
    assert_eq!(
        cmds,
        vec![
            DrawCommand::Pixel { x: 10, y: 20, color: INK },
            DrawCommand::Pixel { x: 12, y: 20, color: INK },
            DrawCommand::Pixel { x: 10, y: 22, color: INK },
            DrawCommand::Pixel { x: 12, y: 22, color: INK },
        ]
    );
}

#[test]
fn half_shade_is_a_checkerboard() {
    let cmds = draw_shade(10, 20, 3, 2, INK, 2);
    assert_eq!(
        cmds,
        vec![
            DrawCommand::Pixel { x: 10, y: 20, color: INK },
            DrawCommand::Pixel { x: 12, y: 20, color: INK },
            DrawCommand::Pixel { x: 11, y: 21, color: INK },
        ]
    );
}

#[test]
fn three_quarter_shade_is_the_complement_of_the_quarter_shade() {
    let light = draw_shade(3, 5, 7, 12, INK, 1);
    let dark = draw_shade(3, 5, 7, 12, INK, 3);
    assert_eq!(light.len(), 4 * 6);
    assert_eq!(dark.len(), 7 * 12 - 4 * 6);
    for py in 0..12 {
        for px in 0..7 {
            assert_ne!(lit(&light, 3 + px, 5 + py), lit(&dark, 3 + px, 5 + py));
            assert_eq!(lit(&light, 3 + px, 5 + py), px % 2 == 0 && py % 2 == 0);
        }
    }
}

#[test]
fn unknown_density_lights_nothing() {
    assert_eq!(draw_shade(0, 0, 7, 12, INK, 0), vec![]);
    assert_eq!(draw_shade(0, 0, 7, 12, INK, 4), vec![]);
    assert_eq!(draw_shade(0, 0, 7, 12, INK, 255), vec![]);
}

#[test]
fn empty_cell_has_no_shade() {
    assert_eq!(draw_shade(0, 0, 0, 12, INK, 2), vec![]);
    assert_eq!(draw_shade(0, 0, 7, 0, INK, 2), vec![]);
}

#[test]
fn shade_characters_use_their_density() {
    assert_eq!(draw_box_char('\u{2591}', 7, 12, 7, 12, INK), draw_shade(7, 12, 7, 12, INK, 1));
    assert_eq!(draw_box_char('\u{2592}', 7, 12, 7, 12, INK), draw_shade(7, 12, 7, 12, INK, 2));
    assert_eq!(draw_box_char('\u{2593}', 7, 12, 7, 12, INK), draw_shade(7, 12, 7, 12, INK, 3));
    assert_eq!(draw_shade(7, 12, 7, 12, INK, 2).len(), 42);
}

#[test]
fn largest_coordinates_do_not_overflow() {
    let cmds = draw_box_char('\u{253C}', 65535, 65535, 65535, 65535, INK);
    assert_eq!(
        cmds,
        vec![
            DrawCommand::Line { x0: 65535, y0: 98302, x1: 131070, y1: 98302, stroke: 1, color: INK },
            DrawCommand::Line { x0: 98302, y0: 65535, x1: 98302, y1: 131070, stroke: 1, color: INK },
        ]
    );
}
