//! The expressions that a query by property may carry.
//!
//! A predicate speaks of the text of an index row, which it calls `value`,
//! and of nothing else: it is one comparison of `value` with a literal, or
//! several joined by `AND` or `OR`, with one space between any two words.
//! A literal is a number in decimal digits or a text between single quotes
//! that holds neither a quote nor a space. An expression of this form is
//! handed to the database as it is; any other is refused before a statement
//! is made of it.

use vstd::prelude::*;
use vstd::string::*;
use crate::text::{owned, push_char, texts};

verus! {

/// The words of `text`: what stands between one space and the next. Two
/// spaces in a row have an empty word between them.
pub open spec fn words(text: Seq<char>) -> Seq<Seq<char>>
    decreases text.len(),
{
    if text.len() == 0 {
        seq![Seq::empty()]
    } else if text.last() == ' ' {
        words(text.drop_last()).push(Seq::empty())
    } else {
        let before = words(text.drop_last());
        before.drop_last().push(before.last().push(text.last()))
    }
}

/// Whether `word` is a comparison operator.
pub open spec fn is_operator(word: Seq<char>) -> bool {
    word == "="@ || word == "=="@ || word == "!="@ || word == "<>"@ || word == "<"@ || word
        == "<="@ || word == ">"@ || word == ">="@
}

/// Whether `word` is `AND` or `OR`.
pub open spec fn is_connective(word: Seq<char>) -> bool {
    word == "AND"@ || word == "OR"@
}

/// Whether `word` is a number: one decimal digit or more, and nothing else.
pub open spec fn is_number(word: Seq<char>) -> bool {
    word.len() > 0 && forall|i: int| 0 <= i < word.len() ==> '0' <= #[trigger] word[i] <= '9'
}

/// Whether `word` is a text literal: a single quote, any characters but
/// single quotes, and a single quote.
pub open spec fn is_text(word: Seq<char>) -> bool {
    word.len() >= 2 && word[0] == '\'' && word[word.len() - 1] == '\'' && forall|i: int|
        1 <= i < word.len() - 1 ==> #[trigger] word[i] != '\''
}

/// Whether `word` may stand at position `i` of a predicate: `value`, an
/// operator, a literal and a connective take turns.
pub open spec fn fits(word: Seq<char>, i: int) -> bool {
    if i % 4 == 0 {
        word == "value"@
    } else if i % 4 == 1 {
        is_operator(word)
    } else if i % 4 == 2 {
        is_number(word) || is_text(word)
    } else {
        is_connective(word)
    }
}

/// Whether `expr` is a predicate: its words fit their positions, and the
/// last word is a literal.
pub open spec fn well_formed(expr: Seq<char>) -> bool {
    let all = words(expr);
    all.len() % 4 == 3 && forall|i: int| 0 <= i < all.len() ==> fits(#[trigger] all[i], i)
}

/// A predicate cannot end its statement. In every word of a predicate but a
/// text literal there is neither a `;` nor a single quote, and a text
/// literal has single quotes at its two ends only.
pub proof fn lemma_predicate_is_closed(expr: Seq<char>, i: int, j: int)
    requires
        well_formed(expr),
        0 <= i < words(expr).len(),
        0 <= j < words(expr)[i].len(),
    ensures
        is_text(words(expr)[i]) || (words(expr)[i][j] != ';' && words(expr)[i][j] != '\''),
        is_text(words(expr)[i]) && 0 < j < words(expr)[i].len() - 1 ==> words(expr)[i][j] != '\'',
{
    reveal_strlit("value");
    reveal_strlit("=");
    reveal_strlit("==");
    reveal_strlit("!=");
    reveal_strlit("<>");
    reveal_strlit("<");
    reveal_strlit("<=");
    reveal_strlit(">");
    reveal_strlit(">=");
    reveal_strlit("AND");
    reveal_strlit("OR");
    let word = words(expr)[i];
    assert(fits(word, i));
}

/// Splits `text` at its spaces.
pub fn split_words(text: &str) -> (all: Vec<String>)
    ensures
        texts(all@) == words(text@),
{
    broadcast use vstd::string::axiom_spec_iter;

    let mut done: Vec<String> = Vec::new();
    let mut current = String::new();
    let ghost mut seen: Seq<char> = Seq::empty();
    for c in it: text.chars()
        invariant
            it.seq() == text@,
            seen == text@.take(it.index() as int),
            words(seen) == texts(done@).push(current@),
    {
        proof {
            let next = seen.push(c);
            assert(next.drop_last() =~= seen);
            assert(next.last() == c);
            assert(words(seen).drop_last() =~= texts(done@));
            assert(words(seen).last() == current@);
        }
        if c == ' ' {
            let ghost before = done@;
            done.push(current);
            current = String::new();
            assert(texts(done@) =~= texts(before).push(done@.last()@));
        } else {
            push_char(&mut current, c);
        }
        proof {
            seen = seen.push(c);
        }
    }
    assert(text@.take(text@.len() as int) =~= text@);
    let ghost before = done@;
    done.push(current);
    assert(texts(done@) =~= texts(before).push(current@));
    done
}

/// Whether `word` is a number.
fn number(word: &str) -> (yes: bool)
    ensures
        yes == is_number(word@),
{
    let n = word.unicode_len();
    if n == 0 {
        return false;
    }
    let mut i: usize = 0;
    while i < n
        invariant
            i <= n,
            n == word@.len(),
            forall|j: int| 0 <= j < i ==> '0' <= #[trigger] word@[j] <= '9',
        decreases n - i,
    {
        let c = word.get_char(i);
        if !('0' <= c && c <= '9') {
            return false;
        }
        i = i + 1;
    }
    true
}

/// Whether `word` is a text literal.
fn text(word: &str) -> (yes: bool)
    ensures
        yes == is_text(word@),
{
    let n = word.unicode_len();
    if n < 2 {
        return false;
    }
    if word.get_char(0) != '\'' || word.get_char(n - 1) != '\'' {
        return false;
    }
    let mut i: usize = 1;
    while i < n - 1
        invariant
            1 <= i <= n - 1,
            n == word@.len(),
            forall|j: int| 1 <= j < i ==> #[trigger] word@[j] != '\'',
        decreases n - i,
    {
        if word.get_char(i) == '\'' {
            return false;
        }
        i = i + 1;
    }
    true
}

/// Whether `word` is the text `other`.
fn same(word: &String, other: &str) -> (yes: bool)
    ensures
        yes == (word@ == other@),
{
    let wanted = owned(other);
    *word == wanted
}

/// Whether `word` may stand at position `i` of a predicate.
fn word_fits(word: &String, i: usize) -> (yes: bool)
    ensures
        yes == fits(word@, i as int),
{
    let place = i % 4;
    if place == 0 {
        same(word, "value")
    } else if place == 1 {
        same(word, "=") || same(word, "==") || same(word, "!=") || same(word, "<>") || same(
            word,
            "<",
        ) || same(word, "<=") || same(word, ">") || same(word, ">=")
    } else if place == 2 {
        number(word.as_str()) || text(word.as_str())
    } else {
        same(word, "AND") || same(word, "OR")
    }
}

/// Whether `expr` is a predicate.
pub fn is_predicate(expr: &str) -> (yes: bool)
    ensures
        yes == well_formed(expr@),
{
    let all = split_words(expr);
    if all.len() % 4 != 3 {
        return false;
    }
    let mut i: usize = 0;
    while i < all.len()
        invariant
            i <= all.len(),
            texts(all@) == words(expr@),
            forall|j: int| 0 <= j < i ==> fits(#[trigger] words(expr@)[j], j),
        decreases all.len() - i,
    {
        assert(texts(all@)[i as int] == all@[i as int]@);
        if !word_fits(&all[i], i) {
            return false;
        }
        i = i + 1;
    }
    true
}

/// A query was asked with an expression that is no predicate.
#[derive(Debug)]
pub struct PredicateError {
    pub expression: String,
}

/// The message for an expression that is no predicate.
pub open spec fn malformed_message(expr: Seq<char>) -> Seq<char> {
    "Malformed predicate: "@ + expr
}

impl PredicateError {
    /// Returns the message of this error.
    pub fn into_message(self) -> (message: String)
        ensures
            message@ == malformed_message(self.expression@),
    {
        let mut message = owned("Malformed predicate: ");
        message.append(self.expression.as_str());
        message
    }
}

} // verus!
