//! The stopwatch's display text.

use vstd::prelude::*;
use crate::symbols::{all_symbols, lemma_all_symbols_concat, lemma_numeral_symbols};
use crate::text::{lemma_numeral_len, push_two_digits, two_digits};

verus! {

/// An elapsed time of `secs` seconds written as hours, minutes and seconds,
/// each zero-padded to two digits; the hours grow beyond two digits as needed.
pub open spec fn duration_text(secs: nat) -> Seq<char> {
    two_digits(secs / 3600) + seq![':'] + two_digits((secs % 3600) / 60) + seq![':'] + two_digits(
        secs % 60,
    )
}

/// Formats an elapsed time, given in whole seconds, as `HH:MM:SS`.
pub fn format_duration(secs: u64) -> (out: String)
    ensures
        out@ == duration_text(secs as nat),
{
    let mut out = String::new();
    push_two_digits(&mut out, secs / 3600);
    out.push(':');
    push_two_digits(&mut out, (secs % 3600) / 60);
    out.push(':');
    push_two_digits(&mut out, secs % 60);
    proof {
        assert(out@ =~= duration_text(secs as nat));
    }
    out
}

/// The text of a duration is at least eight characters long, and exactly
/// eight while the hours have two digits.
pub proof fn lemma_duration_text_len(secs: nat)
    ensures
        duration_text(secs).len() >= 8,
        secs < 360000 ==> duration_text(secs).len() == 8,
{
    lemma_numeral_len(secs / 3600);
    lemma_numeral_len((secs % 3600) / 60);
    lemma_numeral_len(secs % 60);
}

/// The text of a duration holds digits and colons only: the stopwatch never
/// shows a character without a glyph.
pub proof fn lemma_duration_resolves(secs: nat)
    ensures
        all_symbols(duration_text(secs)),
{
    let hours = two_digits(secs / 3600);
    let minutes = two_digits((secs % 3600) / 60);
    let seconds = two_digits(secs % 60);
    lemma_numeral_symbols(secs / 3600);
    lemma_numeral_symbols((secs % 3600) / 60);
    lemma_numeral_symbols(secs % 60);
    lemma_all_symbols_concat(hours, seq![':']);
    lemma_all_symbols_concat(hours + seq![':'], minutes);
    lemma_all_symbols_concat(hours + seq![':'] + minutes, seq![':']);
    lemma_all_symbols_concat(hours + seq![':'] + minutes + seq![':'], seconds);
}

} // verus!
