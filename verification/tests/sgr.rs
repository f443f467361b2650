use vt_screen::control::{apply_sgr, apply_sgr_list};
use vt_screen::{Attrs, Color, ScreenModel};

fn sgr(model: &mut ScreenModel, params: &[u16]) {
    model.csi_dispatch(params, &[], false, 'm');
}

#[test]
fn sgr_flags_switch_on_and_off() {
    let plain = Attrs::default();
    assert_eq!(apply_sgr(plain, 1), Attrs { bold: true, ..plain });
    assert_eq!(apply_sgr(plain, 4), Attrs { underline: true, ..plain });
    assert_eq!(apply_sgr(plain, 7), Attrs { reverse: true, ..plain });
    let all = Attrs { bold: true, underline: true, reverse: true, ..plain };
    assert_eq!(apply_sgr(all, 22), Attrs { bold: false, ..all });
    assert_eq!(apply_sgr(all, 24), Attrs { underline: false, ..all });
    assert_eq!(apply_sgr(all, 27), Attrs { reverse: false, ..all });
}

#[test]
fn sgr_colours_map_to_palette_indices() {
    let plain = Attrs::default();
    for p in 30..=37u16 {
        assert_eq!(apply_sgr(plain, p), Attrs { fg: Color::Indexed((p - 30) as u8), ..plain });
    }
    for p in 40..=47u16 {
        assert_eq!(apply_sgr(plain, p), Attrs { bg: Color::Indexed((p - 40) as u8), ..plain });
    }
    for p in 90..=97u16 {
        assert_eq!(apply_sgr(plain, p), Attrs { fg: Color::Indexed((p - 90 + 8) as u8), ..plain });
    }
    for p in 100..=107u16 {
        assert_eq!(apply_sgr(plain, p), Attrs { bg: Color::Indexed((p - 100 + 8) as u8), ..plain });
    }
    assert_eq!(apply_sgr(plain, 97).fg, Color::Indexed(15));
    assert_eq!(apply_sgr(plain, 100).bg, Color::Indexed(8));
}

#[test]
fn sgr_default_colours() {
    let coloured = Attrs { fg: Color::Indexed(3), bg: Color::Indexed(4), ..Attrs::default() };
    assert_eq!(apply_sgr(coloured, 39), Attrs { fg: Color::DefaultFg, ..coloured });
    assert_eq!(apply_sgr(coloured, 49), Attrs { bg: Color::DefaultBg, ..coloured });
}

#[test]
fn sgr_zero_resets() {
    let styled =
        Attrs { fg: Color::Indexed(3), bg: Color::Indexed(4), bold: true, underline: true, reverse: true };
    assert_eq!(apply_sgr(styled, 0), Attrs::default());
}

#[test]
fn sgr_unknown_values_are_ignored() {
    let styled =
        Attrs { fg: Color::Indexed(3), bg: Color::Indexed(4), bold: true, underline: false, reverse: true };
    for p in [2u16, 3, 5, 6, 8, 9, 21, 23, 25, 28, 29, 38, 48, 50, 89, 98, 99, 108, 255, 65535] {
        assert_eq!(apply_sgr(styled, p), styled);
    }
}

#[test]
fn sgr_list_applies_in_order() {
    let plain = Attrs::default();
    assert_eq!(apply_sgr_list(plain, &[]), plain);
    assert_eq!(apply_sgr_list(plain, &[1, 31, 0, 4]), Attrs { underline: true, ..plain });
    assert_eq!(
        apply_sgr_list(plain, &[31, 32, 44, 1, 22]),
        Attrs { fg: Color::Indexed(2), bg: Color::Indexed(4), ..plain }
    );
}

#[test]
fn sgr_without_parameters_resets() {
    let mut model = ScreenModel::default();
    sgr(&mut model, &[1, 35, 46]);
    assert_ne!(model.current_attrs(), Attrs::default());
    sgr(&mut model, &[]);
    assert_eq!(model.current_attrs(), Attrs::default());
}

#[test]
fn sgr_reset_restores_default_whatever_came_before() {
    for before in [vec![1u16], vec![4, 7], vec![31, 42], vec![97, 107, 1, 4, 7], vec![]] {
        let mut model = ScreenModel::default();
        sgr(&mut model, &before);
        sgr(&mut model, &[0]);
        assert_eq!(model.current_attrs(), Attrs::default());
        // A list that ends in 0 resets as well.
        let mut list = before.clone();
        list.push(0);
        sgr(&mut model, &before);
        sgr(&mut model, &list);
        assert_eq!(model.current_attrs(), Attrs::default());
    }
}
