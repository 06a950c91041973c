//! Measuring a line of text and finding room for a glyph in the font's
//! texture.

use vstd::prelude::*;
use crate::geometry::{in_i32, Vec2};

verus! {

/// A length in whole pixels, from one in the font's units of a sixty-fourth
/// of a pixel: the part of a pixel is dropped.
pub fn pixels(units: i64) -> (whole: i64)
    ensures
        units >= 0 ==> whole == units / 64,
        units < 0 ==> whole == -((-units) / 64),
{
    if units >= 0 {
        units / 64
    } else if units == i64::MIN {
        -0x0200_0000_0000_0000
    } else {
        -((-units) / 64)
    }
}

/// How far the pen moves after a character: the character's own advance,
/// and the kerning between it and the character that follows.
#[derive(Clone, Copy, Debug, PartialEq, Eq, Structural)]
pub struct Spacing {
    pub advance: i32,
    pub kerning: i32,
}

/// The width of the first `n` characters of a line: every character's
/// advance, and the kerning of every character but the last of the line.
pub open spec fn width_of_first(line: Seq<Spacing>, n: nat) -> int
    decreases n,
{
    if n == 0 || n > line.len() {
        0
    } else {
        width_of_first(line, (n - 1) as nat) + line[n - 1].advance + (if n < line.len() {
            line[n - 1].kerning as int
        } else {
            0
        })
    }
}

/// Whether the width of the line, and of every part of it from the start, is
/// a value of `i32`.
pub open spec fn measurable(line: Seq<Spacing>) -> bool {
    forall|n: nat| n <= line.len() ==> in_i32(#[trigger] width_of_first(line, n))
}

/// The width of a line of text in pixels, from the spacing of its
/// characters; an empty line has none. `None` where the width is too large
/// for `i32`.
pub fn string_width(line: &Vec<Spacing>) -> (width: Option<i32>)
    ensures
        width.is_some() <==> measurable(line@),
        width.is_some() ==> width.unwrap() == width_of_first(line@, line@.len()),
{
    let n: usize = line.len();
    let mut width: i32 = 0;
    let mut i: usize = 0;
    while i < n
        invariant
            n == line@.len(),
            i <= n,
            width == width_of_first(line@, i as nat),
            forall|m: nat| m <= i ==> in_i32(#[trigger] width_of_first(line@, m)),
        decreases n - i,
    {
        let spacing: Spacing = line[i];
        let kerning: i64 = if i + 1 < n {
            spacing.kerning as i64
        } else {
            0
        };
        let next: i64 = width as i64 + spacing.advance as i64 + kerning;
        assert(next == width_of_first(line@, (i + 1) as nat));
        if next < i32::MIN as i64 || next > i32::MAX as i64 {
            return None;
        }
        width = next as i32;
        i = i + 1;
    }
    Some(width)
}

/// The extent of a line of text: its width, and the font's distance from
/// one line to the next as its height.
pub fn string_size(line: &Vec<Spacing>, vert_advance: i32) -> (size: Option<Vec2>)
    ensures
        size.is_some() <==> measurable(line@),
        size.is_some() ==> size.unwrap().x == width_of_first(line@, line@.len()),
        size.is_some() ==> size.unwrap().y == vert_advance,
{
    match string_width(line) {
        Some(width) => Some(Vec2 { x: width, y: vert_advance }),
        None => None,
    }
}

/// Where the next glyph goes in the texture that holds a font's glyphs: the
/// glyphs fill it in rows, from the left.
#[derive(Clone, Copy, Debug, PartialEq, Eq, Structural)]
pub struct AtlasCursor {
    pub cur_x: i32,
    pub cur_y: i32,
}

impl AtlasCursor {
    /// Whether a glyph of the given width starts a new row: it does where it
    /// would reach the right edge of the texture.
    pub open spec fn wraps(&self, glyph_width: i32, atlas_size: Vec2) -> bool {
        self.cur_x + glyph_width >= atlas_size.x
    }

    /// Where a glyph of the given width goes.
    pub open spec fn slot(&self, glyph_width: i32, atlas_size: Vec2, vert_advance: i32) -> (
        int,
        int,
    ) {
        if self.wraps(glyph_width, atlas_size) {
            (0, self.cur_y + vert_advance)
        } else {
            (self.cur_x as int, self.cur_y as int)
        }
    }

    /// Whether there is room for a glyph of the given width: its row starts
    /// above the lower edge of the texture, and the numbers are values of
    /// `i32`.
    pub open spec fn has_room(&self, glyph_width: i32, atlas_size: Vec2, vert_advance: i32) -> bool {
        let (x, y) = self.slot(glyph_width, atlas_size, vert_advance);
        y < atlas_size.y && in_i32(y) && in_i32(x + glyph_width)
    }

    /// A cursor at the first corner of an empty texture.
    pub fn new() -> (cursor: AtlasCursor)
        ensures
            cursor.cur_x == 0,
            cursor.cur_y == 0,
    {
        AtlasCursor { cur_x: 0, cur_y: 0 }
    }

    /// Finds the place of the next glyph and moves on past it: the glyph goes
    /// where the cursor is, or to the start of the next row, `vert_advance`
    /// further down, where it would reach the right edge. Where the texture
    /// is full there is no place and the cursor stays.
    pub fn place_glyph(&mut self, glyph_width: i32, atlas_size: Vec2, vert_advance: i32) -> (loc:
        Option<Vec2>)
        ensures
            loc.is_some() <==> old(self).has_room(glyph_width, atlas_size, vert_advance),
            loc.is_none() ==> *final(self) == *old(self),
            loc.is_some() ==> {
                let (x, y) = old(self).slot(glyph_width, atlas_size, vert_advance);
                &&& loc.unwrap().x == x
                &&& loc.unwrap().y == y
                &&& final(self).cur_x == x + glyph_width
                &&& final(self).cur_y == y
            },
    {
        let next_line: bool = self.cur_x as i64 + glyph_width as i64 >= atlas_size.x as i64;
        let x: i64 = if next_line {
            0
        } else {
            self.cur_x as i64
        };
        let y: i64 = if next_line {
            self.cur_y as i64 + vert_advance as i64
        } else {
            self.cur_y as i64
        };
        let end: i64 = x + glyph_width as i64;
        if y >= atlas_size.y as i64 || y < i32::MIN as i64 || y > i32::MAX as i64 || end
            < i32::MIN as i64 || end > i32::MAX as i64 {
            return None;
        }
        self.cur_x = end as i32;
        self.cur_y = y as i32;
        Some(Vec2 { x: x as i32, y: y as i32 })
    }
}

} // verus!
