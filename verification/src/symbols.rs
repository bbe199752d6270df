//! From the characters of the display text to the symbols of the glyph table.

use vstd::prelude::*;
use vstd::string::*;
use crate::text::{decimal, digit_char, two_digits};

verus! {

/// The symbol id of the colon; the digits are their own ids.
pub const COLON: u8 = 10;

/// The symbol that a character of the display text stands for, if any:
/// a digit is its own value, the colon is 10, nothing else is a symbol.
pub open spec fn symbol_of(c: char) -> Option<u8> {
    if c == ':' {
        Some(10u8)
    } else if '0' <= c && c <= '9' {
        Some((c as int - '0' as int) as u8)
    } else {
        None
    }
}

/// Every character of `text` stands for a symbol.
pub open spec fn all_symbols(text: Seq<char>) -> bool {
    forall|i: int| 0 <= i < text.len() ==> (#[trigger] symbol_of(text[i])) is Some
}

/// The symbols of `text`, one per character and in its order.
pub open spec fn symbols_of(text: Seq<char>) -> Seq<u8> {
    Seq::new(text.len(), |i: int| symbol_of(text[i]).unwrap())
}

/// Every element of `ids` is a key of the glyph table.
pub open spec fn valid_ids(ids: Seq<u8>) -> bool {
    forall|i: int| 0 <= i < ids.len() ==> (#[trigger] ids[i]) <= 10
}

/// How many of `ids` are colons.
pub open spec fn colon_count(ids: Seq<u8>) -> nat
    decreases ids.len(),
{
    if ids.len() == 0 {
        0
    } else {
        colon_count(ids.drop_last()) + if ids.last() == 10 {
            1nat
        } else {
            0nat
        }
    }
}

/// A character of the display text that is neither a digit nor a colon.
#[derive(Debug, PartialEq, Eq)]
pub struct UnexpectedSymbol {
    /// The offending character.
    pub symbol: char,
    /// Its index among the characters of the text.
    pub position: usize,
    /// The whole text in which it stood.
    pub text: String,
}

impl UnexpectedSymbol {
    /// What the message says: the character, then the whole text.
    pub open spec fn message_text(self) -> Seq<char> {
        "An unexpected symbol '"@.push(self.symbol) + "' in \""@ + self.text@ + "\""@
    }

    /// A sentence that names the character and the text.
    pub fn message(&self) -> (out: String)
        ensures
            out@ == self.message_text(),
    {
        let mut out = String::from_str("An unexpected symbol '");
        out.push(self.symbol);
        out.append("' in \"");
        out.append(self.text.as_str());
        out.append("\"");
        out
    }
}

/// Returns the symbol of one character, if it has one.
pub fn symbol_id(c: char) -> (id: Option<u8>)
    ensures
        id == symbol_of(c),
        id is Some ==> id.unwrap() <= 10,
{
    if c == ':' {
        Some(COLON)
    } else if c == '0' {
        Some(0)
    } else if c == '1' {
        Some(1)
    } else if c == '2' {
        Some(2)
    } else if c == '3' {
        Some(3)
    } else if c == '4' {
        Some(4)
    } else if c == '5' {
        Some(5)
    } else if c == '6' {
        Some(6)
    } else if c == '7' {
        Some(7)
    } else if c == '8' {
        Some(8)
    } else if c == '9' {
        Some(9)
    } else {
        None
    }
}

/// Maps each character of the display text to its symbol. A text of digits and
/// colons gives its symbols, as many as it has characters and in their order.
/// Any other text is refused, with its first character that is no symbol.
pub fn resolve_symbols(text: &str) -> (r: Result<Vec<u8>, UnexpectedSymbol>)
    ensures
        all_symbols(text@) <==> r is Ok,
        r is Ok ==> {
            let ids = r->Ok_0@;
            &&& ids == symbols_of(text@)
            &&& ids.len() == text@.len()
            &&& valid_ids(ids)
        },
        r is Err ==> {
            let e = r->Err_0;
            &&& e.position < text@.len()
            &&& e.symbol == text@[e.position as int]
            &&& symbol_of(e.symbol) is None
            &&& all_symbols(text@.take(e.position as int))
            &&& e.text@ == text@
        },
{
    let n: usize = text.unicode_len();
    let mut ids: Vec<u8> = Vec::with_capacity(n);
    let mut i: usize = 0;
    while i < n
        invariant
            n == text@.len(),
            i <= n,
            ids@.len() == i,
            forall|j: int| 0 <= j < i ==> (#[trigger] symbol_of(text@[j])) is Some,
            forall|j: int| 0 <= j < i ==> (#[trigger] ids@[j]) == symbol_of(text@[j]).unwrap(),
        decreases n - i,
    {
        let c: char = text.get_char(i);
        match symbol_id(c) {
            Some(id) => {
                ids.push(id);
            },
            None => {
                return Err(UnexpectedSymbol { symbol: c, position: i, text: String::from_str(text) });
            },
        }
        i += 1;
    }
    proof {
        assert(ids@ =~= symbols_of(text@));
        lemma_symbols_valid(text@);
    }
    Ok(ids)
}

/// Counts the colons among the symbols.
pub fn count_colons(ids: &Vec<u8>) -> (n: usize)
    ensures
        n == colon_count(ids@),
        n <= ids@.len(),
{
    let mut n: usize = 0;
    let mut i: usize = 0;
    while i < ids.len()
        invariant
            i <= ids@.len(),
            n == colon_count(ids@.take(i as int)),
            n <= i,
        decreases ids@.len() - i,
    {
        proof {
            assert(ids@.take(i + 1).drop_last() =~= ids@.take(i as int));
        }
        if ids[i] == COLON {
            n += 1;
        }
        i += 1;
    }
    proof {
        assert(ids@.take(i as int) =~= ids@);
    }
    n
}

/// The symbols of a text of digits and colons are as many as its characters,
/// and each is a key of the glyph table.
pub proof fn lemma_symbols_valid(text: Seq<char>)
    requires
        all_symbols(text),
    ensures
        symbols_of(text).len() == text.len(),
        valid_ids(symbols_of(text)),
{
    assert forall|i: int| 0 <= i < symbols_of(text).len() implies (#[trigger] symbols_of(
        text,
    )[i]) <= 10 by {
        assert(symbol_of(text[i]) is Some);
    }
}

/// A text has at most one first character that is no symbol: two positions
/// that each hold none, with symbols alone before them, are the same.
pub proof fn lemma_first_unexpected_unique(text: Seq<char>, p: int, q: int)
    requires
        0 <= p < text.len(),
        0 <= q < text.len(),
        symbol_of(text[p]) is None,
        symbol_of(text[q]) is None,
        all_symbols(text.take(p)),
        all_symbols(text.take(q)),
    ensures
        p == q,
{
    if p < q {
        assert(symbol_of(text.take(q)[p]) is Some);
    } else if q < p {
        assert(symbol_of(text.take(p)[q]) is Some);
    }
}

/// The symbol of a digit's character is the digit.
pub proof fn lemma_digit_symbol(d: int)
    requires
        0 <= d < 10,
    ensures
        symbol_of(digit_char(d)) == Some(d as u8),
{
}

/// Two texts of symbols make a text of symbols.
pub proof fn lemma_all_symbols_concat(a: Seq<char>, b: Seq<char>)
    requires
        all_symbols(a),
        all_symbols(b),
    ensures
        all_symbols(a + b),
{
    assert forall|i: int| 0 <= i < (a + b).len() implies (#[trigger] symbol_of((a + b)[i]))
        is Some by {
        if i < a.len() {
            assert(symbol_of(a[i]) is Some);
        } else {
            assert(symbol_of(b[i - a.len()]) is Some);
        }
    }
}

/// A numeral is a text of symbols, with or without its padding.
pub proof fn lemma_numeral_symbols(n: nat)
    ensures
        all_symbols(decimal(n)),
        all_symbols(two_digits(n)),
    decreases n,
{
    if n >= 10 {
        lemma_numeral_symbols(n / 10);
        lemma_digit_symbol((n % 10) as int);
        lemma_all_symbols_concat(decimal(n / 10), seq![digit_char((n % 10) as int)]);
        assert(decimal(n / 10) + seq![digit_char((n % 10) as int)] =~= decimal(n));
    } else {
        lemma_digit_symbol(n as int);
        lemma_digit_symbol(0);
        lemma_all_symbols_concat(seq!['0'], decimal(n));
    }
}

/// There are no more colons than symbols.
pub proof fn lemma_colon_count_bound(ids: Seq<u8>)
    ensures
        colon_count(ids) <= ids.len(),
    decreases ids.len(),
{
    if ids.len() > 0 {
        lemma_colon_count_bound(ids.drop_last());
    }
}

/// The number of colons depends on which symbols there are, not on their
/// order: it is how often the colon occurs in the multiset of the symbols.
pub proof fn lemma_colon_count_multiset(ids: Seq<u8>)
    ensures
        colon_count(ids) == ids.to_multiset().count(10u8),
    decreases ids.len(),
{
    broadcast use vstd::multiset::group_multiset_axioms;
    if ids.len() == 0 {
        ids.to_multiset_ensures();
        assert(ids.to_multiset().len() == 0);
    } else {
        let init = ids.drop_last();
        lemma_colon_count_multiset(init);
        assert(init.push(ids.last()) =~= ids);
        vstd::seq_lib::to_multiset_build(init, ids.last());
    }
}

} // verus!
