use vstd::prelude::*;

use crate::gpu::{GpuAtlas, GpuLayer, GpuTile, TILES_H, TILES_W};

verus! {

/// The column and row of `chr` in the font sheet, for the characters the
/// game's text uses.
pub open spec fn font_cell(chr: char) -> Option<(usize, usize)> {
    let v = chr as u32;
    if 'A' as u32 <= v <= 'P' as u32 {
        Some(((v - 'A' as u32) as usize, 0usize))
    } else if 'Q' as u32 <= v <= 'Z' as u32 {
        Some(((v - 'Q' as u32) as usize, 1usize))
    } else if v == ':' as u32 {
        Some((12usize, 1usize))
    } else if v == ';' as u32 {
        Some((13usize, 1usize))
    } else if 'a' as u32 <= v <= 'p' as u32 {
        Some(((v - 'a' as u32) as usize, 2usize))
    } else if 'q' as u32 <= v <= 'z' as u32 {
        Some(((v - 'q' as u32) as usize, 3usize))
    } else if v == 'é' as u32 {
        Some((10usize, 3usize))
    } else if v == ' ' as u32 {
        Some((15usize, 3usize))
    } else if v == '-' as u32 {
        Some((3usize, 6usize))
    } else if v == '?' as u32 {
        Some((6usize, 6usize))
    } else if v == '!' as u32 {
        Some((7usize, 6usize))
    } else if v == '▷' as u32 {
        Some((12usize, 6usize))
    } else if v == '▶' as u32 {
        Some((13usize, 6usize))
    } else if '0' as u32 <= v <= '9' as u32 {
        Some(((v - '0' as u32 + 6) as usize, 7usize))
    } else {
        None
    }
}

/// The font tile of `chr`.
pub open spec fn char_tile(chr: char) -> GpuTile {
    let cell = font_cell(chr)->0;
    GpuTile { atlas: GpuAtlas::Font, x: cell.0, y: cell.1 }
}

/// The border tile at column `dx`, row `dy` of a box whose last column is
/// `w` and last row is `h`: corners, edges, and the inside.
pub open spec fn box_tile(dx: int, dy: int, w: int, h: int) -> GpuTile {
    let (x, y) = if dx == 0 && dy == 0 {
        (0usize, 0usize)
    } else if dx == w && dy == 0 {
        (2usize, 0usize)
    } else if dx == 0 && dy == h {
        (0usize, 2usize)
    } else if dx == w && dy == h {
        (2usize, 2usize)
    } else if dx == 0 {
        (0usize, 1usize)
    } else if dx == w {
        (2usize, 1usize)
    } else if dy == 0 {
        (1usize, 0usize)
    } else if dy == h {
        (1usize, 2usize)
    } else {
        (1usize, 1usize)
    };
    GpuTile { atlas: GpuAtlas::BoxBorder, x, y }
}

/// Draw a `w` × `h` text box at `x`, `y`: its inside is `w` × `h` tiles, and
/// the border goes round it.
pub fn text_box_border(layer: &mut GpuLayer, x: usize, y: usize, w: usize, h: usize)
    requires
        old(layer).wf(),
        x + w + 2 <= TILES_W,
        y + h + 2 <= TILES_H,
    ensures
        final(layer).wf(),
        forall|i: int, j: int|
            0 <= i < TILES_W && 0 <= j < TILES_H ==> #[trigger] final(layer).cell(i, j) == if x <= i <= x
                + w + 1 && y <= j <= y + h + 1 {
                Some(box_tile(i - x, j - y, w + 1, h + 1))
            } else {
                old(layer).cell(i, j)
            },
{
    // Add two to account for border, and remove one to make comparisons easier.
    let w = w + 1;
    let h = h + 1;

    let mut dy: usize = 0;
    while dy <= h
        invariant
            layer.wf(),
            x + w + 1 <= TILES_W,
            y + h + 1 <= TILES_H,
            dy <= h + 1,
            forall|i: int, j: int|
                0 <= i < TILES_W && 0 <= j < TILES_H ==> #[trigger] layer.cell(i, j) == if x <= i <= x + w
                    && y <= j < y + dy {
                    Some(box_tile(i - x, j - y, w as int, h as int))
                } else {
                    old(layer).cell(i, j)
                },
        decreases h + 1 - dy,
    {
        let mut dx: usize = 0;
        while dx <= w
            invariant
                layer.wf(),
                x + w + 1 <= TILES_W,
                y + h + 1 <= TILES_H,
                dy <= h,
                dx <= w + 1,
                forall|i: int, j: int|
                    0 <= i < TILES_W && 0 <= j < TILES_H ==> #[trigger] layer.cell(i, j) == if (x <= i <= x
                        + w && y <= j < y + dy) || (x <= i < x + dx && j == y + dy) {
                        Some(box_tile(i - x, j - y, w as int, h as int))
                    } else {
                        old(layer).cell(i, j)
                    },
            decreases w + 1 - dx,
        {
            let (tx, ty): (usize, usize) = if dx == 0 && dy == 0 {
                (0, 0)
            } else if dx == w && dy == 0 {
                (2, 0)
            } else if dx == 0 && dy == h {
                (0, 2)
            } else if dx == w && dy == h {
                (2, 2)
            } else if dx == 0 {
                (0, 1)
            } else if dx == w {
                (2, 1)
            } else if dy == 0 {
                (1, 0)
            } else if dy == h {
                (1, 2)
            } else {
                (1, 1)
            };
            let tile = GpuTile::new(GpuAtlas::BoxBorder, tx, ty);
            layer.set_background(x + dx, y + dy, tile);
            dx = dx + 1;
        }
        dy = dy + 1;
    }
}

/// Writes `chr` at column `x`, row `y` in the game's font.
pub fn place_char(layer: &mut GpuLayer, x: usize, y: usize, chr: char)
    requires
        old(layer).wf(),
        x < TILES_W,
        y < TILES_H,
        font_cell(chr) is Some,
    ensures
        final(layer).wf(),
        forall|i: int, j: int|
            0 <= i < TILES_W && 0 <= j < TILES_H ==> #[trigger] final(layer).cell(i, j) == if i == x && j
                == y {
                Some(char_tile(chr))
            } else {
                old(layer).cell(i, j)
            },
{
    let v = chr as u32;
    let (tx, ty): (usize, usize) = if 'A' as u32 <= v && v <= 'P' as u32 {
        ((v - 'A' as u32) as usize, 0)
    } else if 'Q' as u32 <= v && v <= 'Z' as u32 {
        ((v - 'Q' as u32) as usize, 1)
    } else if v == ':' as u32 {
        (12, 1)
    } else if v == ';' as u32 {
        (13, 1)
    } else if 'a' as u32 <= v && v <= 'p' as u32 {
        ((v - 'a' as u32) as usize, 2)
    } else if 'q' as u32 <= v && v <= 'z' as u32 {
        ((v - 'q' as u32) as usize, 3)
    } else if v == 'é' as u32 {
        (10, 3)
    } else if v == ' ' as u32 {
        (15, 3)
    } else if v == '-' as u32 {
        (3, 6)
    } else if v == '?' as u32 {
        (6, 6)
    } else if v == '!' as u32 {
        (7, 6)
    } else if v == '▷' as u32 {
        (12, 6)
    } else if v == '▶' as u32 {
        (13, 6)
    } else {
        ((v - '0' as u32 + 6) as usize, 7)
    };
    let tile = GpuTile::new(GpuAtlas::Font, tx, ty);
    layer.set_background(x, y, tile);
}

/// Writes `string` from column `x` on, in row `y`, in the game's font.
pub fn place_string(layer: &mut GpuLayer, x: usize, y: usize, string: &str)
    requires
        old(layer).wf(),
        x + string@.len() <= TILES_W,
        y < TILES_H,
        forall|k: int| 0 <= k < string@.len() ==> #[trigger] font_cell(string@[k]) is Some,
    ensures
        final(layer).wf(),
        forall|i: int, j: int|
            0 <= i < TILES_W && 0 <= j < TILES_H ==> #[trigger] final(layer).cell(i, j) == if j == y && x
                <= i < x + string@.len() {
                Some(char_tile(string@[i - x]))
            } else {
                old(layer).cell(i, j)
            },
{
    broadcast use vstd::string::axiom_spec_iter;

    let mut idx: usize = 0;
    for chr in it: string.chars()
        invariant
            layer.wf(),
            idx == it.index(),
            it.seq() == string@,
            x + string@.len() <= TILES_W,
            y < TILES_H,
            forall|k: int| 0 <= k < string@.len() ==> #[trigger] font_cell(string@[k]) is Some,
            forall|i: int, j: int|
                0 <= i < TILES_W && 0 <= j < TILES_H ==> #[trigger] layer.cell(i, j) == if j == y && x
                    <= i < x + idx {
                    Some(char_tile(string@[i - x]))
                } else {
                    old(layer).cell(i, j)
                },
    {
        place_char(layer, x + idx, y, chr);
        idx = idx + 1;
    }
}


/// The character the font sheet shows at column `x`, row `y`, by its
/// Unicode code point: capitals A to P along the top row, Q to Z then `:`
/// and `;` on the second, lower case a to p and q to z (with `é` and the
/// space) on the next two, `-`, `?`, `!`, `▷` and `▶` on row 6, and the
/// digits from column 6 of row 7.
pub open spec fn font_sheet(x: int, y: int) -> Option<u32> {
    if y == 0 && 0 <= x < 16 {
        Some((0x41 + x) as u32)
    } else if y == 1 && 0 <= x < 10 {
        Some((0x51 + x) as u32)
    } else if y == 1 && x == 12 {
        Some(0x3au32)
    } else if y == 1 && x == 13 {
        Some(0x3bu32)
    } else if y == 2 && 0 <= x < 16 {
        Some((0x61 + x) as u32)
    } else if y == 3 && 0 <= x < 10 {
        Some((0x71 + x) as u32)
    } else if y == 3 && x == 10 {
        Some(0xe9u32)
    } else if y == 3 && x == 15 {
        Some(0x20u32)
    } else if y == 6 && x == 3 {
        Some(0x2du32)
    } else if y == 6 && x == 6 {
        Some(0x3fu32)
    } else if y == 6 && x == 7 {
        Some(0x21u32)
    } else if y == 6 && x == 12 {
        Some(0x25b7u32)
    } else if y == 6 && x == 13 {
        Some(0x25b6u32)
    } else if y == 7 && 6 <= x < 16 {
        Some((0x30 + x - 6) as u32)
    } else {
        None
    }
}

/// A character is drawn with the cell of the font sheet that shows it, and
/// only with that cell: `font_cell` gives `(x, y)` exactly when the sheet
/// shows `chr` at column `x`, row `y`.
pub proof fn lemma_font_cell_shows_the_character(chr: char, x: int, y: int)
    ensures
        (font_cell(chr) matches Some((cx, cy)) && cx == x && cy == y) <==> font_sheet(x, y) == Some(
            chr as u32,
        ),
{
}

/// No two characters are drawn with the same cell of the font.
pub proof fn lemma_font_cells_distinct(a: char, b: char)
    requires
        font_cell(a) is Some,
        font_cell(a) == font_cell(b),
    ensures
        a == b,
{
    let (x, y) = font_cell(a)->0;
    lemma_font_cell_shows_the_character(a, x as int, y as int);
    lemma_font_cell_shows_the_character(b, x as int, y as int);
    assert(a as u32 == b as u32);
}

} // verus!
