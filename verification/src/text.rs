//! Joining and quoting of text, as the store's statements need it.

use vstd::prelude::*;
use vstd::string::*;

verus! {

/// `parts` written one after another with `sep` between neighbours.
pub open spec fn join(parts: Seq<Seq<char>>, sep: Seq<char>) -> Seq<char>
    decreases parts.len(),
{
    if parts.len() == 0 {
        Seq::empty()
    } else if parts.len() == 1 {
        parts[0]
    } else {
        join(parts.drop_last(), sep) + sep + parts.last()
    }
}

/// `s` with every single quote doubled, as a text literal of the database
/// spells a single quote.
pub open spec fn escaped(s: Seq<char>) -> Seq<char>
    decreases s.len(),
{
    if s.len() == 0 {
        Seq::empty()
    } else if s.last() == '\'' {
        escaped(s.drop_last()).push('\'').push('\'')
    } else {
        escaped(s.drop_last()).push(s.last())
    }
}

/// `s` as a text literal of the database: between two single quotes, with
/// every single quote inside doubled. Whatever `s` holds, the literal ends
/// where it is meant to end.
pub open spec fn quoted(s: Seq<char>) -> Seq<char> {
    "'"@ + escaped(s) + "'"@
}

/// Joining one more part onto a non-empty list adds the separator and the part.
pub proof fn lemma_join_push(parts: Seq<Seq<char>>, sep: Seq<char>, part: Seq<char>)
    ensures
        join(parts.push(part), sep) == if parts.len() == 0 {
            part
        } else {
            join(parts, sep) + sep + part
        },
{
    let all = parts.push(part);
    assert(all.last() == part);
    assert(all.drop_last() =~= parts);
    if parts.len() == 0 {
        assert(all[0] == part);
    }
}

/// The texts of `items`.
pub open spec fn texts(items: Seq<String>) -> Seq<Seq<char>> {
    items.map_values(|s: String| s@)
}

/// An owned copy of `s`.
pub fn owned(s: &str) -> (out: String)
    ensures
        out@ == s@,
{
    String::from_str(s)
}

/// `String::push`: appends one character.
#[verifier::external_body]
pub(crate) fn push_char(out: &mut String, c: char)
    ensures
        final(out)@ == old(out)@.push(c),
{
    out.push(c)
}

/// Appends `s` as a text literal of the database to `out`.
pub fn push_quoted(out: &mut String, s: &str)
    ensures
        final(out)@ == old(out)@ + quoted(s@),
{
    broadcast use vstd::string::axiom_spec_iter;

    out.append("'");
    let ghost start = out@;
    let ghost mut seen: Seq<char> = Seq::empty();
    for c in it: s.chars()
        invariant
            it.seq() == s@,
            seen == s@.take(it.index() as int),
            out@ == start + escaped(seen),
    {
        proof {
            let next = seen.push(c);
            assert(next.drop_last() =~= seen);
            assert(next.last() == c);
        }
        if c == '\'' {
            push_char(out, '\'');
            push_char(out, '\'');
            assert(out@ =~= start + escaped(seen).push('\'').push('\''));
        } else {
            push_char(out, c);
            assert(out@ =~= start + escaped(seen).push(c));
        }
        proof {
            seen = seen.push(c);
        }
    }
    assert(s@.take(s@.len() as int) =~= s@);
    out.append("'");
    assert(out@ =~= old(out)@ + quoted(s@));
}

/// Whether `text` is one of `items`.
pub fn contains_text(items: &Vec<String>, text: &str) -> (found: bool)
    ensures
        found == texts(items@).contains(text@),
{
    let wanted = owned(text);
    let mut i: usize = 0;
    while i < items.len()
        invariant
            i <= items.len(),
            wanted@ == text@,
            forall|j: int| 0 <= j < i ==> texts(items@)[j] != text@,
        decreases items.len() - i,
    {
        if items[i] == wanted {
            assert(texts(items@)[i as int] == text@);
            return true;
        }
        i = i + 1;
    }
    false
}

} // verus!
