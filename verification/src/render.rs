//! The frame: what is drawn where, as a list of commands for the terminal.

use vstd::prelude::*;
use vstd::string::*;
use crate::color::DisplayColor;
use crate::glyphs::{glyph_marks, glyph_row, lemma_glyph_width, GLYPH_ROWS, MARK};
use crate::layout::{block_width, symbol_width, Layout};
use crate::symbols::{colon_count, lemma_colon_count_bound, valid_ids};

verus! {

/// One step of drawing a frame.
#[derive(Debug, PartialEq, Eq)]
pub enum DrawCommand {
    /// Clear the whole terminal.
    ClearScreen,
    /// Hide the cursor.
    HideCursor,
    /// Write `text` in `color`, starting at column `x` of row `y`.
    Text { x: u16, y: u16, color: DisplayColor, text: String },
    /// Send everything written so far to the terminal.
    Flush,
}

/// A drawing step as a value of the model.
pub enum DrawOp {
    ClearScreen,
    HideCursor,
    Text { x: u16, y: u16, color: DisplayColor, text: Seq<char> },
    Flush,
}

impl View for DrawCommand {
    type V = DrawOp;

    open spec fn view(&self) -> DrawOp {
        match self {
            DrawCommand::ClearScreen => DrawOp::ClearScreen,
            DrawCommand::HideCursor => DrawOp::HideCursor,
            DrawCommand::Text { x, y, color, text } => DrawOp::Text {
                x: *x,
                y: *y,
                color: *color,
                text: text@,
            },
            DrawCommand::Flush => DrawOp::Flush,
        }
    }
}

/// The steps that a list of commands stands for.
pub open spec fn ops_of(commands: Seq<DrawCommand>) -> Seq<DrawOp> {
    Seq::new(commands.len(), |i: int| commands[i]@)
}

/// A glyph row with every mark replaced by the fill character.
pub open spec fn filled(marks: Seq<char>, fill: char) -> Seq<char> {
    Seq::new(
        marks.len(),
        |i: int|
            if marks[i] == '█' {
                fill
            } else {
                marks[i]
            },
    )
}

/// Row `row` of the glyph block of `ids`: the filled rows of the glyphs, in
/// order, with one space between two neighbours.
pub open spec fn line_text(ids: Seq<u8>, row: int, fill: char) -> Seq<char>
    decreases ids.len(),
{
    if ids.len() == 0 {
        Seq::empty()
    } else if ids.len() == 1 {
        filled(glyph_marks(ids[0], row), fill)
    } else {
        line_text(ids.drop_last(), row, fill).push(' ') + filled(glyph_marks(ids.last(), row), fill)
    }
}

/// The text step of row `row` of the block.
pub open spec fn line_op(
    ids: Seq<u8>,
    layout: Layout,
    color: DisplayColor,
    fill: char,
    row: int,
) -> DrawOp {
    DrawOp::Text {
        x: layout.anchor_x,
        y: (layout.anchor_y + row) as u16,
        color,
        text: line_text(ids, row, fill),
    }
}

/// The whole frame: clear, hide the cursor, the five rows of the block from
/// top to bottom, the label, and a flush.
pub open spec fn frame_ops(
    ids: Seq<u8>,
    layout: Layout,
    color: DisplayColor,
    fill: char,
    label: Seq<char>,
) -> Seq<DrawOp> {
    seq![
        DrawOp::ClearScreen,
        DrawOp::HideCursor,
        line_op(ids, layout, color, fill, 0),
        line_op(ids, layout, color, fill, 1),
        line_op(ids, layout, color, fill, 2),
        line_op(ids, layout, color, fill, 3),
        line_op(ids, layout, color, fill, 4),
        DrawOp::Text { x: layout.label_anchor_x, y: layout.label_anchor_y, color, text: label },
        DrawOp::Flush,
    ]
}

/// Appends a glyph row to `out`, the fill character in place of each mark.
pub fn push_filled(out: &mut String, marks: &str, fill: char)
    ensures
        final(out)@ == old(out)@ + filled(marks@, fill),
{
    let n: usize = marks.unicode_len();
    let mut i: usize = 0;
    while i < n
        invariant
            n == marks@.len(),
            i <= n,
            out@ == old(out)@ + filled(marks@, fill).take(i as int),
        decreases n - i,
    {
        let c: char = marks.get_char(i);
        let ghost before = out@;
        if c == MARK {
            out.push(fill);
        } else {
            out.push(c);
        }
        proof {
            assert(filled(marks@, fill).take(i + 1) =~= filled(marks@, fill).take(i as int).push(
                filled(marks@, fill)[i as int],
            ));
            assert(out@ =~= old(out)@ + filled(marks@, fill).take(i + 1));
        }
        i += 1;
    }
    proof {
        assert(filled(marks@, fill).take(i as int) =~= filled(marks@, fill));
    }
}

/// Composes row `row` of the glyph block of `ids`.
pub fn compose_line(ids: &Vec<u8>, row: usize, fill: char) -> (out: String)
    requires
        valid_ids(ids@),
        row < 5,
    ensures
        out@ == line_text(ids@, row as int, fill),
        out@.len() == block_width(ids@),
{
    proof {
        lemma_line_len(ids@, row as int, fill);
    }
    let mut out = String::new();
    let mut i: usize = 0;
    while i < ids.len()
        invariant
            valid_ids(ids@),
            row < 5,
            i <= ids@.len(),
            out@ == line_text(ids@.take(i as int), row as int, fill),
        decreases ids@.len() - i,
    {
        if i > 0 {
            out.push(' ');
        }
        push_filled(&mut out, glyph_row(ids[i], row), fill);
        proof {
            let next = ids@.take(i + 1);
            assert(next.drop_last() =~= ids@.take(i as int));
            assert(next.last() == ids@[i as int]);
            assert(out@ =~= line_text(next, row as int, fill));
        }
        i += 1;
    }
    proof {
        assert(ids@.take(i as int) =~= ids@);
    }
    out
}

/// Draws one frame as a list of commands: the block of `ids` at the anchors
/// of `layout`, then `label`, all in `color`, with `fill` for every cell that
/// is on. The list holds nothing of an earlier frame.
pub fn render_frame(
    ids: &Vec<u8>,
    layout: &Layout,
    color: DisplayColor,
    fill: char,
    label: &str,
) -> (commands: Vec<DrawCommand>)
    requires
        valid_ids(ids@),
        layout.rows_fit(),
    ensures
        ops_of(commands@) == frame_ops(ids@, *layout, color, fill, label@),
{
    let mut commands: Vec<DrawCommand> = Vec::with_capacity(9);
    commands.push(DrawCommand::ClearScreen);
    commands.push(DrawCommand::HideCursor);
    let mut row: usize = 0;
    while row < GLYPH_ROWS
        invariant
            valid_ids(ids@),
            layout.rows_fit(),
            row <= 5,
            commands@.len() == 2 + row,
            commands@[0]@ == DrawOp::ClearScreen,
            commands@[1]@ == DrawOp::HideCursor,
            forall|k: int|
                0 <= k < row ==> (#[trigger] commands@[2 + k])@ == line_op(
                    ids@,
                    *layout,
                    color,
                    fill,
                    k,
                ),
        decreases 5 - row,
    {
        let text = compose_line(ids, row, fill);
        let y: u16 = layout.anchor_y + (row as u16);
        commands.push(DrawCommand::Text { x: layout.anchor_x, y, color, text });
        row += 1;
    }
    commands.push(
        DrawCommand::Text {
            x: layout.label_anchor_x,
            y: layout.label_anchor_y,
            color,
            text: String::from_str(label),
        },
    );
    commands.push(DrawCommand::Flush);
    proof {
        assert(commands@[2 + 0int]@ == line_op(ids@, *layout, color, fill, 0));
        assert(commands@[2 + 1int]@ == line_op(ids@, *layout, color, fill, 1));
        assert(commands@[2 + 2int]@ == line_op(ids@, *layout, color, fill, 2));
        assert(commands@[2 + 3int]@ == line_op(ids@, *layout, color, fill, 3));
        assert(commands@[2 + 4int]@ == line_op(ids@, *layout, color, fill, 4));
        assert(ops_of(commands@) =~= frame_ops(ids@, *layout, color, fill, label@));
    }
    commands
}

/// Every row of the block is exactly as long as the layout takes the block
/// to be wide.
pub proof fn lemma_line_len(ids: Seq<u8>, row: int, fill: char)
    requires
        valid_ids(ids),
        0 <= row < 5,
    ensures
        line_text(ids, row, fill).len() == block_width(ids),
    decreases ids.len(),
{
    if ids.len() > 0 {
        let init = ids.drop_last();
        let last_marks = glyph_marks(ids.last(), row);
        lemma_glyph_width(ids.last(), row);
        lemma_colon_count_bound(ids);
        lemma_colon_count_bound(init);
        assert(filled(last_marks, fill).len() == symbol_width(ids.last()));
        assert(colon_count(ids) == colon_count(init) + if ids.last() == 10 {
            1nat
        } else {
            0nat
        });
        if ids.len() == 1 {
            assert(init.len() == 0);
            assert(colon_count(init) == 0);
            assert(ids[0] == ids.last());
        } else {
            assert forall|i: int| 0 <= i < init.len() implies (#[trigger] init[i]) <= 10 by {
                assert(init[i] == ids[i]);
            }
            lemma_line_len(init, row, fill);
            assert(line_text(ids, row, fill).len() == line_text(init, row, fill).len() + 1
                + filled(last_marks, fill).len());
        }
    }
}

/// Two frames of the same symbols, layout, color, fill and label are the
/// same list of steps: a frame depends on nothing else.
pub proof fn lemma_frame_repeatable(
    first: Seq<DrawCommand>,
    second: Seq<DrawCommand>,
    ids: Seq<u8>,
    layout: Layout,
    color: DisplayColor,
    fill: char,
    label: Seq<char>,
)
    requires
        ops_of(first) == frame_ops(ids, layout, color, fill, label),
        ops_of(second) == frame_ops(ids, layout, color, fill, label),
    ensures
        ops_of(first) == ops_of(second),
        first.len() == 9,
        second.len() == first.len(),
{
    assert(ops_of(first).len() == 9);
    assert(ops_of(second).len() == 9);
}

} // verus!
