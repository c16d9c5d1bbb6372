//! Glyph atlas and static label behaviour.

use mini_magnets::text_fx::Blit;
use mini_magnets::text_fx::Font;
use mini_magnets::text_fx::StaticText;

fn font_8x8() -> Font {
    // 192 x 192 image of 24 x 24 cells: 8 rows and 8 columns.
    Font::new(7, 24, 24, 192, 192).expect("atlas should be accepted")
}

#[test]
fn glyph_blit_formulas() {
    let font = font_8x8();
    assert_eq!(font.rows, 8);
    assert_eq!(font.cols, 8);

    let mut out: Vec<Blit> = Vec::new();
    // 'A' is code 65: index 33, row 4, column 1.
    font.draw_char(10, 20, 'A', &mut out);
    assert_eq!(out.len(), 1);
    assert_eq!(
        out[0],
        Blit { tex: 7, src_x: 24, src_y: 96, w: 24, h: 24, dst_x: 10, dst_y: 20 }
    );

    // Space is code 32: index 0, the first cell.
    out.clear();
    font.draw_char(0, 0, ' ', &mut out);
    assert_eq!(out[0].src_x, 0);
    assert_eq!(out[0].src_y, 0);

    // Underscore is code 95: index 63, row 7, column 7.
    out.clear();
    font.draw_char(0, 0, '_', &mut out);
    assert_eq!(out[0].src_x, 7 * 24);
    assert_eq!(out[0].src_y, 7 * 24);
}

#[test]
fn out_of_range_codes_draw_nothing() {
    let font = font_8x8();
    let mut out: Vec<Blit> = Vec::new();
    font.draw_char(0, 0, 'a', &mut out); // 97: above the range
    font.draw_char(0, 0, '\n', &mut out); // 10: below the range
    font.draw_char(0, 0, 'é', &mut out); // non-ASCII
    assert!(out.is_empty());
}

#[test]
fn font_new_rejects_degenerate_atlases() {
    // Too few cells for the 64 representable codes.
    assert!(Font::new(0, 24, 24, 48, 48).is_none());
    // Degenerate cell sizes.
    assert!(Font::new(0, 0, 24, 192, 192).is_none());
    assert!(Font::new(0, 24, 0, 192, 192).is_none());
    // Exactly 64 cells is enough.
    assert!(Font::new(0, 24, 24, 192, 192).is_some());
}

#[test]
fn width_tracks_text_and_font() {
    let font = font_8x8();
    let mut label = StaticText::new(100, 50, String::from("HELLO"));
    assert_eq!(label.width, 0);
    label.set_font(&font);
    assert_eq!(label.width, 5 * 24);
    assert_eq!(label.height, 24);
    label.set_text(String::from("HI"));
    assert_eq!(label.width, 2 * 24);
    label.set_text(String::new());
    assert_eq!(label.width, 0);
    label.set_text(String::from("LONGER TEXT"));
    assert_eq!(label.width, 11 * 24);
}

#[test]
fn draw_advances_one_cell_per_glyph() {
    let font = font_8x8();
    let mut label = StaticText::new(100, 50, String::from("AB C"));
    label.set_font(&font);
    let mut out: Vec<Blit> = Vec::new();
    label.draw(&mut out);
    assert_eq!(out.len(), 4);
    for (i, blit) in out.iter().enumerate() {
        assert_eq!(blit.dst_x, 100 + 24 * i as i64);
        assert_eq!(blit.dst_y, 50);
    }
}

#[test]
fn draw_without_font_is_a_no_op() {
    let label = StaticText::new(100, 50, String::from("HELLO"));
    let mut out: Vec<Blit> = Vec::new();
    label.draw(&mut out);
    assert!(out.is_empty());
}

#[test]
fn center_shifts_by_half_the_width() {
    let font = font_8x8();
    let mut label = StaticText::new(400, 50, String::from("WORDS"));
    label.set_font(&font);
    label.center();
    assert_eq!(label.x, 400 - (5 * 24) / 2);
    // Centering is not idempotent by design: a second call shifts again.
    label.center();
    assert_eq!(label.x, 400 - 2 * ((5 * 24) / 2));
}

#[test]
fn center_without_font_is_a_no_op() {
    let mut label = StaticText::new(400, 50, String::from("WORDS"));
    label.center();
    assert_eq!(label.x, 400);
}
