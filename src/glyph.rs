use vstd::prelude::*;
use crate::geometry::{rect, PixelRect, SpriteBlit, SCREEN_WIDTH};

verus! {

/// Glyph cells per row of the font atlas.
pub const ATLAS_COLUMNS: u32 = 15;

/// Side of a glyph cell in the font atlas, in pixels.
pub const ATLAS_CELL: u32 = 20;

/// Side of a drawn glyph on screen, which is also the advance, in pixels.
pub const GLYPH_SIZE: i32 = 32;

/// First character of the atlas (the space).
pub const FIRST_GLYPH: u32 = 32;

/// Last character of the atlas (the underscore).
pub const LAST_GLYPH: u32 = 95;

/// `s` upper-cased, as `str::to_uppercase` does it.
pub uninterp spec fn upper_of(s: Seq<char>) -> Seq<char>;

/// Atlas position of the glyph of `c`: the characters from space to
/// underscore fill the atlas row by row; any other character shows the blank
/// cell at the origin.
pub open spec fn glyph_cell(c: char) -> (int, int) {
    if FIRST_GLYPH <= c as u32 <= LAST_GLYPH {
        let i = c as u32 - FIRST_GLYPH;
        ((i % ATLAS_COLUMNS as int) * ATLAS_CELL, (i / ATLAS_COLUMNS as int) * ATLAS_CELL)
    } else {
        (0, 0)
    }
}

/// The copy that draws `c` as the `i`-th character of a text starting at
/// `(x, y)`.
pub open spec fn glyph_blit(x: i32, y: i32, i: int, c: char) -> SpriteBlit {
    SpriteBlit {
        source: rect(glyph_cell(c).0, glyph_cell(c).1, ATLAS_CELL as int, ATLAS_CELL as int),
        dest: rect(x + i * GLYPH_SIZE, y as int, GLYPH_SIZE as int, GLYPH_SIZE as int),
    }
}

/// The copies that draw `text` from `(x, y)`, one per character.
pub open spec fn layout(x: i32, y: i32, text: Seq<char>) -> Seq<SpriteBlit> {
    Seq::new(text.len(), |i: int| glyph_blit(x, y, i, text[i]))
}

/// The upper-cased characters of `s`.
///
/// Relies on `str::to_uppercase`, whose result depends on the characters of
/// `s` alone.
#[verifier::external_body]
fn to_upper_chars(s: &str) -> (r: Vec<char>)
    ensures
        r@ == upper_of(s@),
{
    s.to_uppercase().chars().collect()
}

/// Region of the font atlas that holds the glyph of `c`.
pub fn glyph_source(c: char) -> (r: PixelRect)
    ensures
        r == rect(glyph_cell(c).0, glyph_cell(c).1, ATLAS_CELL as int, ATLAS_CELL as int),
{
    let code = c as u32;
    if FIRST_GLYPH <= code && code <= LAST_GLYPH {
        let i = code - FIRST_GLYPH;
        PixelRect {
            x: ((i % ATLAS_COLUMNS) * ATLAS_CELL) as i128,
            y: ((i / ATLAS_COLUMNS) * ATLAS_CELL) as i128,
            w: ATLAS_CELL as i128,
            h: ATLAS_CELL as i128,
        }
    } else {
        PixelRect { x: 0, y: 0, w: ATLAS_CELL as i128, h: ATLAS_CELL as i128 }
    }
}

/// The copies that draw the already upper-cased `text` from `(x, y)`, one
/// glyph per character at a fixed advance.
pub fn layout_upper(x: i32, y: i32, text: &Vec<char>) -> (r: Vec<SpriteBlit>)
    ensures
        r@ == layout(x, y, text@),
{
    let mut out: Vec<SpriteBlit> = Vec::new();
    let mut i: usize = 0;
    while i < text.len()
        invariant
            i <= text@.len(),
            out@.len() == i,
            forall|j: int| 0 <= j < i ==> out@[j] == glyph_blit(x, y, j, text@[j]),
        decreases text@.len() - i,
    {
        let source = glyph_source(text[i]);
        let dest = PixelRect {
            x: x as i128 + (i as i128) * (GLYPH_SIZE as i128),
            y: y as i128,
            w: GLYPH_SIZE as i128,
            h: GLYPH_SIZE as i128,
        };
        out.push(SpriteBlit { source, dest });
        i += 1;
    }
    proof {
        assert(out@ =~= layout(x, y, text@));
    }
    out
}

/// The copies that draw `text`, upper-cased, from `(x, y)`.
pub fn text_layout(x: i32, y: i32, text: &str) -> (r: Vec<SpriteBlit>)
    ensures
        r@ == layout(x, y, upper_of(text@)),
{
    let upper = to_upper_chars(text);
    layout_upper(x, y, &upper)
}

/// Left edge of a text of `len` characters centered on the screen.
pub fn centered_text_x(len: usize) -> (r: i128)
    ensures
        r == SCREEN_WIDTH / 2 - (len / 2) * GLYPH_SIZE,
{
    (SCREEN_WIDTH / 2) as i128 - ((len / 2) as i128) * (GLYPH_SIZE as i128)
}

} // verus!
