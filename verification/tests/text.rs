use gui_toolkit::geometry::Vec2;
use gui_toolkit::text::{string_size, string_width, AtlasCursor, Spacing};

fn spacing(advance: i32, kerning: i32) -> Spacing {
    Spacing { advance, kerning }
}

#[test]
fn an_empty_line_has_no_width() {
    assert_eq!(string_width(&vec![]), Some(0));
}

#[test]
fn the_last_character_has_no_kerning() {
    assert_eq!(string_width(&vec![spacing(7, -100)]), Some(7));
    let line = vec![spacing(10, -1), spacing(8, 2), spacing(5, 50)];
    assert_eq!(string_width(&line), Some(10 - 1 + 8 + 2 + 5));
    assert_eq!(string_size(&line, 17), Some(Vec2::new(24, 17)));
}

#[test]
fn a_line_wider_than_i32_has_no_width() {
    let line = vec![spacing(i32::MAX, 0), spacing(1, 0)];
    assert_eq!(string_width(&line), None);
    assert_eq!(string_size(&line, 1), None);
}

#[test]
fn glyphs_fill_the_texture_in_rows() {
    let atlas = Vec2::new(100, 40);
    let mut cursor = AtlasCursor::new();
    assert_eq!(cursor.place_glyph(60, atlas, 20), Some(Vec2::new(0, 0)));
    assert_eq!(cursor, AtlasCursor { cur_x: 60, cur_y: 0 });
    assert_eq!(cursor.place_glyph(39, atlas, 20), Some(Vec2::new(60, 0)));
    assert_eq!(cursor, AtlasCursor { cur_x: 99, cur_y: 0 });
    assert_eq!(cursor.place_glyph(1, atlas, 20), Some(Vec2::new(0, 20)));
    assert_eq!(cursor, AtlasCursor { cur_x: 1, cur_y: 20 });
}

#[test]
fn a_full_texture_has_no_room() {
    let atlas = Vec2::new(100, 40);
    let mut cursor = AtlasCursor { cur_x: 90, cur_y: 20 };
    assert_eq!(cursor.place_glyph(10, atlas, 20), None);
    assert_eq!(cursor, AtlasCursor { cur_x: 90, cur_y: 20 });
    assert_eq!(cursor.place_glyph(9, atlas, 20), Some(Vec2::new(90, 20)));
}

#[test]
fn font_units_to_pixels() {
    assert_eq!(gui_toolkit::text::pixels(0), 0);
    assert_eq!(gui_toolkit::text::pixels(63), 0);
    assert_eq!(gui_toolkit::text::pixels(64), 1);
    assert_eq!(gui_toolkit::text::pixels(1000), 15);
    assert_eq!(gui_toolkit::text::pixels(-65), -1);
    assert_eq!(gui_toolkit::text::pixels(-63), 0);
    assert_eq!(gui_toolkit::text::pixels(i64::MIN), i64::MIN / 64);
}
