//! The glyph table: for each symbol five rows of marks, seven cells wide for a
//! digit and three for the colon.

use vstd::prelude::*;
use crate::layout::symbol_width;

verus! {

/// Rows that every glyph has.
pub const GLYPH_ROWS: usize = 5;

/// The mark of a cell that is on; a cell that is off holds a space.
pub const MARK: char = '█';

/// The patterns that a glyph's row can have.
#[derive(Clone, Copy, Debug, PartialEq, Eq, Structural)]
pub enum RowShape {
    /// A digit's row with every cell on.
    Full,
    /// A digit's row with both edges on.
    Sides,
    /// A digit's row with the left edge on.
    Left,
    /// A digit's row with the right edge on.
    Right,
    /// The colon's row with its middle cell on.
    Dot,
    /// The colon's row with no cell on.
    Blank,
}

/// The table itself: the pattern of row `row` of the glyph of symbol `id`.
pub open spec fn row_shape_of(id: u8, row: int) -> RowShape {
    if id == 10 {
        if row == 1 || row == 3 {
            RowShape::Dot
        } else {
            RowShape::Blank
        }
    } else if row == 0 {
        if id == 1 {
            RowShape::Right
        } else if id == 4 {
            RowShape::Sides
        } else {
            RowShape::Full
        }
    } else if row == 1 {
        if id == 5 || id == 6 {
            RowShape::Left
        } else if id == 1 || id == 2 || id == 3 || id == 7 {
            RowShape::Right
        } else {
            RowShape::Sides
        }
    } else if row == 2 {
        if id == 0 {
            RowShape::Sides
        } else if id == 1 || id == 7 {
            RowShape::Right
        } else {
            RowShape::Full
        }
    } else if row == 3 {
        if id == 2 {
            RowShape::Left
        } else if id == 0 || id == 6 || id == 8 {
            RowShape::Sides
        } else {
            RowShape::Right
        }
    } else {
        if id == 1 || id == 4 || id == 7 {
            RowShape::Right
        } else {
            RowShape::Full
        }
    }
}

/// The cells of a pattern, from left to right.
pub open spec fn shape_marks(shape: RowShape) -> Seq<char> {
    match shape {
        RowShape::Full => "███████"@,
        RowShape::Sides => "██   ██"@,
        RowShape::Left => "██     "@,
        RowShape::Right => "     ██"@,
        RowShape::Dot => " █ "@,
        RowShape::Blank => "   "@,
    }
}

/// The cells of row `row` of the glyph of symbol `id`.
pub open spec fn glyph_marks(id: u8, row: int) -> Seq<char> {
    shape_marks(row_shape_of(id, row))
}

/// Looks up the pattern of one row of one glyph.
pub fn row_shape(id: u8, row: usize) -> (shape: RowShape)
    requires
        id <= 10,
        row < 5,
    ensures
        shape == row_shape_of(id, row as int),
{
    if id == 10 {
        if row == 1 || row == 3 {
            RowShape::Dot
        } else {
            RowShape::Blank
        }
    } else {
        match row {
            0 => match id {
                1 => RowShape::Right,
                4 => RowShape::Sides,
                _ => RowShape::Full,
            },
            1 => match id {
                5 | 6 => RowShape::Left,
                1 | 2 | 3 | 7 => RowShape::Right,
                _ => RowShape::Sides,
            },
            2 => match id {
                0 => RowShape::Sides,
                1 | 7 => RowShape::Right,
                _ => RowShape::Full,
            },
            3 => match id {
                2 => RowShape::Left,
                0 | 6 | 8 => RowShape::Sides,
                _ => RowShape::Right,
            },
            _ => match id {
                1 | 4 | 7 => RowShape::Right,
                _ => RowShape::Full,
            },
        }
    }
}

/// The text of a pattern.
pub fn shape_text(shape: RowShape) -> (s: &'static str)
    ensures
        s@ == shape_marks(shape),
{
    match shape {
        RowShape::Full => "███████",
        RowShape::Sides => "██   ██",
        RowShape::Left => "██     ",
        RowShape::Right => "     ██",
        RowShape::Dot => " █ ",
        RowShape::Blank => "   ",
    }
}

/// Returns row `row` of the glyph of symbol `id`: as many characters as the
/// glyph is wide, a mark where the cell is on and a space where it is off.
pub fn glyph_row(id: u8, row: usize) -> (s: &'static str)
    requires
        id <= 10,
        row < 5,
    ensures
        s@ == glyph_marks(id, row as int),
        s@.len() == symbol_width(id),
{
    proof {
        lemma_glyph_width(id, row as int);
    }
    shape_text(row_shape(id, row))
}

/// Every pattern of a digit has seven cells and every pattern of the colon
/// three, each a mark or a space.
pub proof fn lemma_shape_marks(shape: RowShape)
    ensures
        shape_marks(shape).len() == if shape == RowShape::Dot || shape == RowShape::Blank {
            3nat
        } else {
            7nat
        },
        forall|i: int|
            0 <= i < shape_marks(shape).len() ==> (#[trigger] shape_marks(shape)[i]) == '█'
                || shape_marks(shape)[i] == ' ',
{
    reveal_strlit("███████");
    reveal_strlit("██   ██");
    reveal_strlit("██     ");
    reveal_strlit("     ██");
    reveal_strlit(" █ ");
    reveal_strlit("   ");
}

/// Each row of a glyph is as wide as the layout takes its symbol to be.
pub proof fn lemma_glyph_width(id: u8, row: int)
    requires
        id <= 10,
        0 <= row < 5,
    ensures
        glyph_marks(id, row).len() == symbol_width(id),
{
    lemma_shape_marks(row_shape_of(id, row));
}

} // verus!
