//! Layout of the monospace font sheet.
//!
//! The sheet is a grid of glyph tiles, one per printable ASCII character,
//! starting at the space character. A glyph's tile is found from its
//! character code by integer division and modulo, and the texture
//! coordinates of a quad corner are the tile coordinates offset by the
//! corner, over the grid dimensions as denominators.

use vstd::prelude::*;

verus! {

/// Number of glyph columns in the font sheet.
pub const FONT_SHEET_COLS: i32 = 18;

/// Number of glyph rows in the font sheet.
pub const FONT_SHEET_ROWS: i32 = 7;

/// Character code of the first glyph in the sheet (ASCII space).
pub const FONT_FIRST_CHAR: i32 = 32;

/// Index of the glyph tile for `code`, counting row-major from the
/// sheet's first character.
pub open spec fn spec_glyph_index(code: int) -> int {
    code - FONT_FIRST_CHAR
}

/// Column of the glyph tile for `code`.
pub open spec fn spec_glyph_column(code: int) -> int {
    spec_glyph_index(code) % (FONT_SHEET_COLS as int)
}

/// Row of the glyph tile for `code`.
pub open spec fn spec_glyph_row(code: int) -> int {
    spec_glyph_index(code) / (FONT_SHEET_COLS as int)
}

/// A glyph's tile in the font sheet grid.
#[derive(Clone, Copy, PartialEq, Eq, Structural, Debug)]
pub struct GlyphTile {
    pub col: i32,
    pub row: i32,
}

/// Locate the tile of the glyph for `code` in the font sheet grid.
pub fn glyph_tile(code: i32) -> (t: GlyphTile)
    requires
        FONT_FIRST_CHAR <= code,
    ensures
        t.col == spec_glyph_column(code as int),
        t.row == spec_glyph_row(code as int),
        0 <= t.col < FONT_SHEET_COLS,
        0 <= t.row,
{
    let index = code - FONT_FIRST_CHAR;
    GlyphTile { col: index % FONT_SHEET_COLS, row: index / FONT_SHEET_COLS }
}

/// Corner of the unit quad that a vertex id selects, as the vertex shader
/// derives it: x from the lowest bit, y from the next bit. Vertex ids 0
/// through 3 of a triangle strip thus walk all four corners.
pub fn quad_corner(vertex_id: u32) -> (c: (u32, u32))
    ensures
        c.0 == vertex_id & 1,
        c.1 == (vertex_id >> 1) & 1,
        c.0 <= 1,
        c.1 <= 1,
{
    let x = vertex_id & 1;
    let y = (vertex_id >> 1) & 1;
    proof {
        assert(vertex_id & 1 <= 1) by (bit_vector);
        assert((vertex_id >> 1) & 1 <= 1) by (bit_vector);
    }
    (x, y)
}

/// Numerators of the texture coordinates of one corner of a glyph's quad;
/// the denominators are `FONT_SHEET_COLS` for u and `FONT_SHEET_ROWS` for v.
/// The v axis is flipped: the quad's top edge samples the tile's top row.
pub fn glyph_uv_numerators(code: i32, corner_x: i32, corner_y: i32) -> (uv: (i32, i32))
    requires
        FONT_FIRST_CHAR <= code,
        0 <= corner_x <= 1,
        0 <= corner_y <= 1,
    ensures
        uv.0 == spec_glyph_column(code as int) + corner_x,
        uv.1 == spec_glyph_row(code as int) + 1 - corner_y,
        0 <= uv.0 <= FONT_SHEET_COLS,
        0 <= uv.1,
{
    let tile = glyph_tile(code);
    (tile.col + corner_x, tile.row + 1 - corner_y)
}

} // verus!
