//! The moon drawn in braille: each terminal cell holds 2 x 4 dots, and a dot
//! is drawn exactly when it lies on the disc inscribed in the art's dot grid.
//!
//! The grid of art `a` is `w = 2 * a.cols` dots wide and `h = 4 * a.rows`
//! high, centred at `((w - 1) / 2, (h - 1) / 2)` with radius
//! `min(w, h) / 2 - 1`. Doubling every length keeps the test in integers:
//! a dot `(px, py)` is on the disc when
//! `(2 px - (w - 1))^2 + (2 py - (h - 1))^2 <= (min(w, h) - 2)^2`.
//! The left side is always an integer plus a half's square sum, so a dot
//! never lies exactly on the rim.

use vstd::prelude::*;
use vstd::arithmetic::power2::{pow2, lemma2_to64};
use crate::logo::Art;
use crate::text::{char_from_u32, push_char};

verus! {

/// First code point of the Unicode braille block (no dots raised).
pub const BRAILLE_BASE: u32 = 0x2800;

pub open spec fn min_int(a: int, b: int) -> int {
    if a <= b { a } else { b }
}

/// Whether the dot at `(px, py)` of the art's dot grid lies on the disc.
pub open spec fn spec_on_disc(art: Art, px: int, py: int) -> bool {
    let w = 2 * art.cols;
    let h = 4 * art.rows;
    let d = min_int(w, h) - 2;
    let ax = 2 * px - (w - 1);
    let ay = 2 * py - (h - 1);
    ax * ax + ay * ay <= d * d
}

/// Braille dot bit for `(dx, dy)` within a 2 x 4 cell (added to U+2800).
pub open spec fn spec_dot_bit(dy: int, dx: int) -> int {
    if dx == 0 {
        if dy == 0 { 0x01 } else if dy == 1 { 0x02 } else if dy == 2 { 0x04 } else { 0x40 }
    } else {
        if dy == 0 { 0x08 } else if dy == 1 { 0x10 } else if dy == 2 { 0x20 } else { 0x80 }
    }
}

/// The bit a dot of cell `(row, col)` contributes: its braille bit when on the disc.
pub open spec fn spec_dot_term(art: Art, row: int, col: int, dy: int, dx: int) -> int {
    if spec_on_disc(art, col * 2 + dx, row * 4 + dy) {
        spec_dot_bit(dy, dx)
    } else {
        0
    }
}

/// The braille bits of cell `(row, col)`: one bit for each of its dots on the disc.
pub open spec fn spec_cell_bits(art: Art, row: int, col: int) -> int {
    spec_dot_term(art, row, col, 0, 0) + spec_dot_term(art, row, col, 0, 1)
        + spec_dot_term(art, row, col, 1, 0) + spec_dot_term(art, row, col, 1, 1)
        + spec_dot_term(art, row, col, 2, 0) + spec_dot_term(art, row, col, 2, 1)
        + spec_dot_term(art, row, col, 3, 0) + spec_dot_term(art, row, col, 3, 1)
}

/// The braille character of cell `(row, col)`.
pub open spec fn spec_cell_glyph(art: Art, row: int, col: int) -> char {
    ((BRAILLE_BASE + spec_cell_bits(art, row, col)) as u32) as char
}

/// One line of glyphs: row `row` of the art.
pub open spec fn spec_glyph_line(art: Art, row: int) -> Seq<char> {
    Seq::new(art.cols as nat, |col: int| spec_cell_glyph(art, row, col))
}

/// Whether the dot at `(px, py)` of the art's dot grid lies on the disc.
pub fn dot_on_disc(art: Art, px: u32, py: u32) -> (on: bool)
    requires
        px < 2 * art.cols,
        py < 4 * art.rows,
    ensures
        on == spec_on_disc(art, px as int, py as int),
{
    let w: i64 = 2 * art.cols as i64;
    let h: i64 = 4 * art.rows as i64;
    let d: i64 = if w <= h { w } else { h } - 2;
    let ax: i64 = 2 * px as i64 - (w - 1);
    let ay: i64 = 2 * py as i64 - (h - 1);
    assert(-0x40000 <= ax <= 0x40000 && -0x40000 <= ay <= 0x40000 && -2 <= d <= 0x40000);
    assert(0 <= ax * ax <= 0x10_0000_0000 && 0 <= ay * ay <= 0x10_0000_0000 && 0 <= d * d
        <= 0x10_0000_0000)
        by (nonlinear_arith)
        requires
            -0x40000 <= ax <= 0x40000,
            -0x40000 <= ay <= 0x40000,
            -2 <= d <= 0x40000,
    ;
    let ax2: i64 = ax * ax;
    let ay2: i64 = ay * ay;
    let d2: i64 = d * d;
    ax2 + ay2 <= d2
}

fn dot_term(art: Art, row: u16, col: u16, dy: u32, dx: u32) -> (bit: u32)
    requires
        row < art.rows,
        col < art.cols,
        dy < 4,
        dx < 2,
    ensures
        bit == spec_dot_term(art, row as int, col as int, dy as int, dx as int),
        bit <= 0x80,
{
    let px: u32 = col as u32 * 2 + dx;
    let py: u32 = row as u32 * 4 + dy;
    if dot_on_disc(art, px, py) {
        if dx == 0 {
            if dy == 0 { 0x01 } else if dy == 1 { 0x02 } else if dy == 2 { 0x04 } else { 0x40 }
        } else {
            if dy == 0 { 0x08 } else if dy == 1 { 0x10 } else if dy == 2 { 0x20 } else { 0x80 }
        }
    } else {
        0
    }
}

/// The braille bits of cell `(row, col)`.
pub fn cell_bits(art: Art, row: u16, col: u16) -> (bits: u32)
    requires
        row < art.rows,
        col < art.cols,
    ensures
        bits == spec_cell_bits(art, row as int, col as int),
        bits <= 0xFF,
{
    dot_term(art, row, col, 0, 0) + dot_term(art, row, col, 0, 1) + dot_term(art, row, col, 1, 0)
        + dot_term(art, row, col, 1, 1) + dot_term(art, row, col, 2, 0) + dot_term(
        art,
        row,
        col,
        2,
        1,
    ) + dot_term(art, row, col, 3, 0) + dot_term(art, row, col, 3, 1)
}

/// The braille lines of the moon: one line per art row, one glyph per art
/// column, each glyph raising exactly the cell's dots that lie on the disc.
pub fn moon_glyph_lines(art: Art) -> (lines: Vec<String>)
    ensures
        lines@.len() == art.rows,
        forall|row: int| 0 <= row < art.rows ==> #[trigger] lines@[row]@ == spec_glyph_line(art, row),
{
    let mut lines: Vec<String> = Vec::new();
    let mut row: u16 = 0;
    while row < art.rows
        invariant
            row <= art.rows,
            lines@.len() == row,
            forall|r: int| 0 <= r < row ==> #[trigger] lines@[r]@ == spec_glyph_line(art, r),
        decreases art.rows - row,
    {
        let mut line = String::new();
        let mut col: u16 = 0;
        while col < art.cols
            invariant
                row < art.rows,
                col <= art.cols,
                line@ =~= spec_glyph_line(art, row as int).take(col as int),
            decreases art.cols - col,
        {
            let bits = cell_bits(art, row, col);
            let ch = match char_from_u32(BRAILLE_BASE + bits) {
                Some(c) => c,
                None => '\u{2800}',
            };
            push_char(&mut line, ch);
            col = col + 1;
        }
        assert(line@ =~= spec_glyph_line(art, row as int));
        lines.push(line);
        row = row + 1;
    }
    lines
}

/// The row within the cell of Unicode braille dot `n` (1..=8): dots 1-2-3
/// run down the left column, 4-5-6 down the right, 7 and 8 sit at the bottom.
pub open spec fn unicode_dot_row(n: int) -> int {
    if n <= 3 { n - 1 } else if n <= 6 { n - 4 } else { 3 }
}

/// The column within the cell of Unicode braille dot `n` (1..=8).
pub open spec fn unicode_dot_col(n: int) -> int {
    if n <= 3 || n == 7 { 0 } else { 1 }
}

/// What Unicode dot `n` of cell `(row, col)` adds to the code point's offset
/// from U+2800: bit `n - 1` when that dot lies on the disc.
pub open spec fn unicode_dot_value(art: Art, row: int, col: int, n: int) -> int {
    if spec_on_disc(art, col * 2 + unicode_dot_col(n), row * 4 + unicode_dot_row(n)) {
        pow2((n - 1) as nat) as int
    } else {
        0
    }
}

/// A cell's glyph is U+2800 plus, for each of its Unicode dots 1..=8 on the
/// disc, bit `n - 1` of the Unicode braille numbering.
pub proof fn lemma_glyph_follows_unicode_dots(art: Art, row: int, col: int)
    ensures
        spec_cell_bits(art, row, col) == unicode_dot_value(art, row, col, 1) + unicode_dot_value(
            art,
            row,
            col,
            2,
        ) + unicode_dot_value(art, row, col, 3) + unicode_dot_value(art, row, col, 4)
            + unicode_dot_value(art, row, col, 5) + unicode_dot_value(art, row, col, 6)
            + unicode_dot_value(art, row, col, 7) + unicode_dot_value(art, row, col, 8),
        spec_cell_glyph(art, row, col) == ((0x2800 + spec_cell_bits(art, row, col)) as u32) as char,
{
    lemma2_to64();
}

/// Every glyph of the moon lies in the braille block U+2800..=U+28FF.
pub proof fn lemma_glyphs_are_braille(art: Art, row: int, col: int)
    ensures
        0 <= spec_cell_bits(art, row, col) <= 0xFF,
{
}

} // verus!
