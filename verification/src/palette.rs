//! Glyph and color selection from an iteration count.
//!
//! A count equal to the iteration cap means the point never escaped and is
//! always drawn with the background pair, whatever the palette holds. Any
//! smaller count is drawn with the foreground glyph and the palette color at
//! `count mod palette length`: the palette is applied cyclically, so a
//! palette shorter than the cap wraps around by design.

use vstd::prelude::*;

verus! {

/// One of the sixteen named colors of the character-cell surface.
#[derive(Clone, Copy, Debug, PartialEq, Eq, Structural)]
pub enum Color {
    Black,
    Blue,
    Green,
    Cyan,
    Red,
    Magenta,
    Brown,
    LightGray,
    DarkGray,
    LightBlue,
    LightGreen,
    LightCyan,
    LightRed,
    Pink,
    Yellow,
    White,
}

/// One display cell: the glyph to draw and the color to draw it in.
#[derive(Clone, Copy, Debug, PartialEq, Eq, Structural)]
pub struct Cell {
    pub glyph: char,
    pub color: Color,
}

/// An ordered, nonempty list of colors applied cyclically to escape counts,
/// with the glyphs for escaped and bounded points and the color of the
/// background pair. The order of `colors` is configuration, not a property of
/// the colors themselves.
#[derive(Debug, PartialEq, Eq)]
pub struct Palette {
    pub colors: Vec<Color>,
    pub fg_glyph: char,
    pub bg_glyph: char,
    pub bg_color: Color,
}

impl Palette {
    /// A usable palette holds at least one color.
    pub open spec fn wf(self) -> bool {
        self.colors@.len() > 0
    }

    /// The cell drawn for a bounded point, independent of the color list.
    pub open spec fn background_cell(self) -> Cell {
        Cell { glyph: self.bg_glyph, color: self.bg_color }
    }
}

/// The cell selected for the escape count `count` under iteration cap
/// `max_iter`: the background pair for a bounded point, else the foreground
/// glyph with the palette color at `count mod palette length`.
pub open spec fn select_spec(p: Palette, count: nat, max_iter: nat) -> Cell {
    if count == max_iter {
        p.background_cell()
    } else {
        Cell { glyph: p.fg_glyph, color: p.colors@[count as int % p.colors@.len() as int] }
    }
}

/// Maps an escape count to its glyph/color pair.
pub fn select(p: &Palette, count: usize, max_iter: usize) -> (r: Cell)
    requires
        p.wf(),
        count <= max_iter,
    ensures
        r == select_spec(*p, count as nat, max_iter as nat),
{
    if count == max_iter {
        Cell { glyph: p.bg_glyph, color: p.bg_color }
    } else {
        let idx = count % p.colors.len();
        Cell { glyph: p.fg_glyph, color: p.colors[idx] }
    }
}

/// A count equal to the iteration cap always selects the background pair,
/// regardless of palette contents or ordering.
pub proof fn lemma_select_background(p: Palette, max_iter: nat)
    ensures
        select_spec(p, max_iter, max_iter) == p.background_cell(),
{
}

/// An escaped count selects the foreground glyph with the color at
/// `count mod palette length`; when the count is under the palette length,
/// that is `colors[count]` exactly.
pub proof fn lemma_select_escaped(p: Palette, count: nat, max_iter: nat)
    requires
        p.wf(),
        count < max_iter,
    ensures
        select_spec(p, count, max_iter) == (Cell {
            glyph: p.fg_glyph,
            color: p.colors@[count as int % p.colors@.len() as int],
        }),
        count < p.colors@.len() ==> select_spec(p, count, max_iter) == (Cell {
            glyph: p.fg_glyph,
            color: p.colors@[count as int],
        }),
{
    if count < p.colors@.len() {
        vstd::arithmetic::div_mod::lemma_small_mod(count, p.colors@.len());
    }
}

} // verus!
