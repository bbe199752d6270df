//! Where the glyph block and the label stand on the terminal grid.

use vstd::prelude::*;
use crate::symbols::{colon_count, count_colons, lemma_colon_count_bound, lemma_colon_count_multiset};

verus! {

/// Cells that a colon's glyph is wide.
pub const COLON_WIDTH: usize = 3;

/// Cells that a digit's glyph is wide.
pub const DIGIT_WIDTH: usize = 7;

/// The row of the label when the block stands in the top-left corner.
pub const LABEL_ROW: u16 = 7;

/// Cells that the glyph of symbol `id` is wide.
pub open spec fn symbol_width(id: u8) -> nat {
    if id == 10 {
        3
    } else {
        7
    }
}

/// The width of the glyph block in cells: three for each colon, seven for
/// each digit, and one for the gap between two neighbours.
pub open spec fn block_width(ids: Seq<u8>) -> nat {
    if ids.len() == 0 {
        0
    } else {
        let colons = colon_count(ids);
        let digits = ids.len() - colons;
        (3 * colons + 7 * digits + (ids.len() - 1)) as nat
    }
}

/// The anchors of one frame. Columns and rows are counted in cells.
#[derive(Clone, Copy, Debug, PartialEq, Eq, Structural)]
pub struct Layout {
    /// Width of the glyph block.
    pub block_width: u16,
    /// Column of the block's left edge.
    pub anchor_x: u16,
    /// Row of the block's first line.
    pub anchor_y: u16,
    /// Column where the label starts.
    pub label_anchor_x: u16,
    /// Row of the label.
    pub label_anchor_y: u16,
}

impl Layout {
    /// The five rows of the block all have a row number.
    pub open spec fn rows_fit(self) -> bool {
        self.anchor_y + 4 <= u16::MAX
    }
}

/// Why no layout exists for the given content and terminal.
#[derive(Clone, Copy, Debug, PartialEq, Eq, Structural)]
pub enum LayoutError {
    /// The block is wider than a column number can say, or its half is wider
    /// than the half of the terminal it is centered in.
    BlockTooWide,
    /// The label is longer than a column number can say, or its half is wider
    /// than the half of what it is centered in.
    LabelTooWide,
    /// Centered, the block's first row would lie above the terminal.
    TerminalTooShort,
}

/// The layout of a block `width` cells wide with a label of `label_len`
/// cells, or the reason why there is none.
///
/// In the corner the block stands at (1, 1) and the label in row 7, centered
/// under the block. Centered, the middles of block and terminal coincide, the
/// block's middle row lies two rows above the terminal's, and the label starts
/// at the terminal's middle column, four rows below its middle row. An anchor
/// that would lie left of or above the grid is an error, never a wrapped number.
pub open spec fn layout_for(
    width: nat,
    label_len: nat,
    centered: bool,
    term_width: u16,
    term_height: u16,
) -> Result<Layout, LayoutError> {
    let outer: int = if centered {
        term_width as int / 2
    } else {
        width as int / 2
    };
    if width > u16::MAX || (centered && width / 2 > term_width / 2) {
        Err(LayoutError::BlockTooWide)
    } else if label_len > u16::MAX || label_len as int / 2 > outer {
        Err(LayoutError::LabelTooWide)
    } else if centered && term_height / 2 < 2 {
        Err(LayoutError::TerminalTooShort)
    } else if centered {
        Ok(
            Layout {
                block_width: width as u16,
                anchor_x: (term_width / 2 - width / 2) as u16,
                anchor_y: (term_height / 2 - 2) as u16,
                label_anchor_x: (term_width / 2 - label_len / 2) as u16,
                label_anchor_y: (term_height / 2 + 4) as u16,
            },
        )
    } else {
        Ok(
            Layout {
                block_width: width as u16,
                anchor_x: 1,
                anchor_y: 1,
                label_anchor_x: (width / 2 - label_len / 2) as u16,
                label_anchor_y: 7,
            },
        )
    }
}

/// Computes the width of the glyph block of `ids`, or `None` where it does
/// not fit a column number.
pub fn glyph_block_width(ids: &Vec<u8>) -> (w: Option<u16>)
    ensures
        w is Some <==> block_width(ids@) <= u16::MAX,
        w is Some ==> w.unwrap() == block_width(ids@),
{
    let n: usize = ids.len();
    if n == 0 {
        return Some(0);
    }
    // Each symbol takes at least four cells with its gap.
    if n > 16384 {
        proof {
            lemma_colon_count_bound(ids@);
        }
        return None;
    }
    let colons: usize = count_colons(ids);
    let width: usize = COLON_WIDTH * colons + DIGIT_WIDTH * (n - colons) + (n - 1);
    if width > 65535 {
        None
    } else {
        Some(width as u16)
    }
}

/// Computes the anchors of the glyph block of `ids` and of a label of
/// `label_len` cells, for a terminal of the given size.
pub fn compute_layout(
    ids: &Vec<u8>,
    label_len: usize,
    centered: bool,
    term_width: u16,
    term_height: u16,
) -> (r: Result<Layout, LayoutError>)
    ensures
        r == layout_for(block_width(ids@), label_len as nat, centered, term_width, term_height),
        r is Ok ==> r->Ok_0.rows_fit() && r->Ok_0.block_width == block_width(ids@),
        r is Ok && centered ==> r->Ok_0.anchor_x + r->Ok_0.block_width / 2 == term_width / 2,
        r is Ok && !centered ==> r->Ok_0.anchor_x == 1 && r->Ok_0.anchor_y == 1,
{
    let width: u16 = match glyph_block_width(ids) {
        Some(w) => w,
        None => {
            return Err(LayoutError::BlockTooWide);
        },
    };
    let half_term: u16 = term_width / 2;
    let half_block: u16 = width / 2;
    if centered && half_block > half_term {
        return Err(LayoutError::BlockTooWide);
    }
    if label_len > 65535 {
        return Err(LayoutError::LabelTooWide);
    }
    let half_label: u16 = (label_len / 2) as u16;
    let outer: u16 = if centered {
        half_term
    } else {
        half_block
    };
    if half_label > outer {
        return Err(LayoutError::LabelTooWide);
    }
    if centered {
        let half_height: u16 = term_height / 2;
        if half_height < 2 {
            return Err(LayoutError::TerminalTooShort);
        }
        Ok(
            Layout {
                block_width: width,
                anchor_x: half_term - half_block,
                anchor_y: half_height - 2,
                label_anchor_x: half_term - half_label,
                label_anchor_y: half_height + 4,
            },
        )
    } else {
        Ok(
            Layout {
                block_width: width,
                anchor_x: 1,
                anchor_y: 1,
                label_anchor_x: half_block - half_label,
                label_anchor_y: LABEL_ROW,
            },
        )
    }
}

/// The block of `colons` colons and `digits` digits, at least one symbol in
/// all, is `3 * colons + 7 * digits + (colons + digits - 1)` cells wide.
pub proof fn lemma_block_width_formula(ids: Seq<u8>, colons: nat, digits: nat)
    requires
        colons == colon_count(ids),
        colons + digits == ids.len(),
        colons + digits > 0,
    ensures
        block_width(ids) == 3 * colons + 7 * digits + (colons + digits - 1),
{
}

/// The width of the block does not depend on the order of its symbols: two
/// sequences that hold the same symbols equally often are equally wide.
pub proof fn lemma_block_width_order_independent(a: Seq<u8>, b: Seq<u8>)
    requires
        a.to_multiset() == b.to_multiset(),
    ensures
        block_width(a) == block_width(b),
{
    lemma_colon_count_multiset(a);
    lemma_colon_count_multiset(b);
    vstd::seq_lib::to_multiset_len(a);
    vstd::seq_lib::to_multiset_len(b);
}

/// Centered, the middle of the block is the middle of the terminal: the
/// block's left edge plus half its width is half the terminal's width.
pub proof fn lemma_centered_block(
    width: nat,
    label_len: nat,
    term_width: u16,
    term_height: u16,
)
    requires
        layout_for(width, label_len, true, term_width, term_height) is Ok,
    ensures
        ({
            let l = layout_for(width, label_len, true, term_width, term_height)->Ok_0;
            &&& l.anchor_x + width / 2 == term_width / 2
            &&& l.anchor_y + 2 == term_height / 2
            &&& l.label_anchor_x + label_len / 2 == term_width / 2
            &&& l.label_anchor_y == term_height / 2 + 4
        }),
{
}

/// In the corner the block stands at (1, 1) and the label in row 7, its
/// middle under the middle of the block; the size of the terminal plays no
/// part.
pub proof fn lemma_corner_layout(
    width: nat,
    label_len: nat,
    term_width: u16,
    term_height: u16,
    other_width: u16,
    other_height: u16,
)
    ensures
        layout_for(width, label_len, false, term_width, term_height) == layout_for(
            width,
            label_len,
            false,
            other_width,
            other_height,
        ),
        layout_for(width, label_len, false, term_width, term_height) is Ok ==> ({
            let l = layout_for(width, label_len, false, term_width, term_height)->Ok_0;
            &&& l.anchor_x == 1
            &&& l.anchor_y == 1
            &&& l.label_anchor_x + label_len / 2 == width / 2
            &&& l.label_anchor_y == 7
        }),
{
}

} // verus!
