//! One turn of the loop, from the clock's reading to the frame that is drawn.

use vstd::prelude::*;
use vstd::string::*;
use crate::clock::{display_text, label_text, ClockConfig, WallClock};
use crate::color::DisplayColor;
use crate::duration::lemma_duration_resolves;
use crate::layout::{block_width, compute_layout, layout_for, LayoutError};
use crate::render::{frame_ops, ops_of, render_frame, DrawCommand};
use crate::symbols::{
    all_symbols, lemma_first_unexpected_unique, resolve_symbols, symbol_of, symbols_of,
    UnexpectedSymbol,
};

verus! {

broadcast use vstd::slice::group_slice_axioms;

/// How a frame looks, apart from its text.
#[derive(Clone, Copy, Debug, PartialEq, Eq, Structural)]
pub struct FrameStyle {
    /// Center block and label in the terminal.
    pub center: bool,
    /// The character drawn in every cell that is on.
    pub fill: char,
    /// The color of block and label.
    pub color: DisplayColor,
}

/// Why a turn drew no frame.
#[derive(Debug, PartialEq, Eq)]
pub enum FrameError {
    /// The clock's reading could not be written under the format.
    NoText,
    /// The display text holds a character that has no glyph.
    Symbol(UnexpectedSymbol),
    /// Block or label do not fit the terminal.
    Layout(LayoutError),
}

/// What the loop does with the outcome of a turn.
#[derive(Debug, PartialEq, Eq)]
pub enum TurnOutcome {
    /// Draw these commands.
    Draw(Vec<DrawCommand>),
    /// Draw nothing this turn and go on: the terminal may grow again.
    Skip,
    /// Stop abnormally and report this sentence.
    Halt(String),
}

/// What is reported when the clock's reading has no text.
pub open spec fn no_text_report() -> Seq<char> {
    "the time could not be formatted"@
}

/// The outcome that belongs to the result `r` of a turn: a frame is drawn;
/// content that does not fit the terminal costs the frame and nothing more;
/// a character without a glyph, or a reading without text, stops the loop
/// with a report.
pub open spec fn is_outcome_of(
    outcome: TurnOutcome,
    r: Result<Vec<DrawCommand>, FrameError>,
) -> bool {
    match r {
        Ok(commands) => outcome == TurnOutcome::Draw(commands),
        Err(FrameError::Layout(_)) => outcome == TurnOutcome::Skip,
        Err(FrameError::Symbol(e)) => outcome is Halt && outcome->Halt_0@ == e.message_text(),
        Err(FrameError::NoText) => outcome is Halt && outcome->Halt_0@ == no_text_report(),
    }
}

/// The cells that the layout reserves for a label: the length of its UTF-8
/// encoding.
pub open spec fn label_cells(label: Seq<char>) -> nat {
    vstd::utf8::encode_utf8(label).len()
}

/// The layout of the frame of `display` and `label`.
pub open spec fn frame_layout(
    display: Seq<char>,
    label: Seq<char>,
    style: FrameStyle,
    term_width: u16,
    term_height: u16,
) -> Result<crate::layout::Layout, LayoutError> {
    layout_for(
        block_width(symbols_of(display)),
        label_cells(label),
        style.center,
        term_width,
        term_height,
    )
}

/// `r` is the outcome of composing the frame of `display` and `label`: the
/// first character without a glyph, if there is one; else the reason why
/// there is no layout, if there is none; else the frame of the display's
/// symbols under that layout.
pub open spec fn is_frame_of(
    r: Result<Vec<DrawCommand>, FrameError>,
    display: Seq<char>,
    label: Seq<char>,
    style: FrameStyle,
    term_width: u16,
    term_height: u16,
) -> bool {
    let layout = frame_layout(display, label, style, term_width, term_height);
    match r {
        Ok(commands) => {
            &&& all_symbols(display)
            &&& layout is Ok
            &&& ops_of(commands@) == frame_ops(
                symbols_of(display),
                layout->Ok_0,
                style.color,
                style.fill,
                label,
            )
        },
        Err(FrameError::Symbol(e)) => {
            &&& !all_symbols(display)
            &&& e.position < display.len()
            &&& e.symbol == display[e.position as int]
            &&& symbol_of(e.symbol) is None
            &&& all_symbols(display.take(e.position as int))
            &&& e.text@ == display
        },
        Err(FrameError::Layout(e)) => all_symbols(display) && layout == Err::<
            crate::layout::Layout,
            LayoutError,
        >(e),
        Err(FrameError::NoText) => false,
    }
}

/// Composes the frame of a display text and its label for a terminal of the
/// given size: resolves the symbols, lays them out and draws them.
pub fn build_frame(
    display: &str,
    label: &str,
    style: FrameStyle,
    term_width: u16,
    term_height: u16,
) -> (r: Result<Vec<DrawCommand>, FrameError>)
    ensures
        is_frame_of(r, display@, label@, style, term_width, term_height),
{
    let ids = match resolve_symbols(display) {
        Ok(ids) => ids,
        Err(e) => {
            return Err(FrameError::Symbol(e));
        },
    };
    let label_len: usize = label.as_bytes().len();
    let layout = match compute_layout(&ids, label_len, style.center, term_width, term_height) {
        Ok(layout) => layout,
        Err(e) => {
            return Err(FrameError::Layout(e));
        },
    };
    Ok(render_frame(&ids, &layout, style.color, style.fill, label))
}

/// Decides what follows from the result of a turn.
pub fn decide(r: Result<Vec<DrawCommand>, FrameError>) -> (outcome: TurnOutcome)
    ensures
        is_outcome_of(outcome, r),
{
    match r {
        Ok(commands) => TurnOutcome::Draw(commands),
        Err(FrameError::Layout(_)) => TurnOutcome::Skip,
        Err(FrameError::Symbol(e)) => TurnOutcome::Halt(e.message()),
        Err(FrameError::NoText) => TurnOutcome::Halt(
            String::from_str("the time could not be formatted"),
        ),
    }
}

/// One turn: reads display text and label off the clock and composes their
/// frame. Without a text for either there is no frame; with both, the
/// outcome is that of `build_frame` on them.
pub fn tick(
    config: &ClockConfig,
    style: FrameStyle,
    now: &WallClock,
    elapsed_seconds: u64,
    term_width: u16,
    term_height: u16,
) -> (r: Result<Vec<DrawCommand>, FrameError>)
    ensures
        ({
            let display = config.display_of(*now, elapsed_seconds as nat);
            let label = config.label_of(*now);
            if display is None || label is None {
                r is Err && r->Err_0 is NoText
            } else {
                is_frame_of(r, display.unwrap(), label.unwrap(), style, term_width, term_height)
            }
        }),
        config.stopwatch ==> !(r is Err && r->Err_0 is Symbol),
{
    proof {
        lemma_duration_resolves(elapsed_seconds as nat);
    }
    let display = match display_text(config, now, elapsed_seconds) {
        Some(text) => text,
        None => {
            return Err(FrameError::NoText);
        },
    };
    let label = match label_text(config, now) {
        Some(text) => text,
        None => {
            return Err(FrameError::NoText);
        },
    };
    build_frame(display.as_str(), label.as_str(), style, term_width, term_height)
}

/// A turn has one outcome: two results for the same texts, style and
/// terminal agree. Both are frames of the same steps, or both report the
/// same character at the same place, or both give the same reason why there
/// is no layout.
pub proof fn lemma_turn_repeatable(
    first: Result<Vec<DrawCommand>, FrameError>,
    second: Result<Vec<DrawCommand>, FrameError>,
    display: Seq<char>,
    label: Seq<char>,
    style: FrameStyle,
    term_width: u16,
    term_height: u16,
)
    requires
        is_frame_of(first, display, label, style, term_width, term_height),
        is_frame_of(second, display, label, style, term_width, term_height),
    ensures
        first is Ok <==> second is Ok,
        first is Ok ==> ops_of(first->Ok_0@) == ops_of(second->Ok_0@),
        first is Err ==> match (first->Err_0, second->Err_0) {
            (FrameError::Symbol(a), FrameError::Symbol(b)) => a.position == b.position && a.symbol
                == b.symbol && a.text@ == b.text@,
            (FrameError::Layout(a), FrameError::Layout(b)) => a == b,
            _ => false,
        },
{
    if first is Err && second is Err {
        match (first->Err_0, second->Err_0) {
            (FrameError::Symbol(a), FrameError::Symbol(b)) => {
                lemma_first_unexpected_unique(display, a.position as int, b.position as int);
            },
            _ => {},
        }
    }
}

} // verus!
