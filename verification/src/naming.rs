//! The names that go with an entity type or a handler function: the
//! constant-style name of a type and the type-style name of a function.

use vstd::prelude::*;
use vstd::string::*;
use crate::text::push_char;

verus! {

/// Whether `c` has the Unicode property `Uppercase`.
pub uninterp spec fn char_is_uppercase(c: char) -> bool;

/// `c` with the ASCII letters `a` to `z` mapped to `A` to `Z`, and every
/// other character unchanged.
pub open spec fn ascii_upper(c: char) -> char {
    if 'a' <= c && c <= 'z' {
        ((c as u8) - 32) as u8 as char
    } else {
        c
    }
}

/// `char::is_uppercase`: whether the character has the Unicode property
/// `Uppercase`. Nothing is claimed beyond naming the result.
#[verifier::external_body]
fn is_uppercase(c: char) -> (upper: bool)
    ensures
        upper == char_is_uppercase(c),
{
    c.is_uppercase()
}

/// `c` in upper case where it is one of the ASCII letters `a` to `z`, else
/// `c` itself.
pub fn to_ascii_uppercase(c: char) -> (upper: char)
    ensures
        upper == ascii_upper(c),
{
    if 'a' <= c && c <= 'z' {
        ((c as u8) - 32) as char
    } else {
        c
    }
}

/// The constant-style name for the type name `camel`: every character
/// upper-cased, with a `_` in front of every upper-case character but the
/// first character of the name.
pub open spec fn snake_upper(camel: Seq<char>) -> Seq<char>
    decreases camel.len(),
{
    if camel.len() == 0 {
        Seq::empty()
    } else {
        let c = camel.last();
        let before = snake_upper(camel.drop_last());
        if !char_is_uppercase(c) {
            before.push(ascii_upper(c))
        } else if camel.len() == 1 {
            before.push(c)
        } else {
            before.push('_').push(c)
        }
    }
}

/// The type-style name for the function name `snake`: the underscores
/// dropped, and every character that starts the name or follows an
/// underscore upper-cased.
pub open spec fn camel(snake: Seq<char>) -> Seq<char>
    decreases snake.len(),
{
    if snake.len() == 0 {
        Seq::empty()
    } else {
        let n = snake.len() - 1;
        let c = snake[n];
        let before = camel(snake.drop_last());
        if c == '_' {
            before
        } else if n == 0 || snake[n - 1] == '_' {
            before.push(ascii_upper(c))
        } else {
            before.push(c)
        }
    }
}

/// Turns a type name such as `UserInfo` into `USER_INFO`.
pub fn camel_to_snake_uppercase(camel: &str) -> (snake: String)
    ensures
        snake@ == snake_upper(camel@),
{
    broadcast use vstd::string::axiom_spec_iter;

    let mut snake = String::new();
    let mut first = true;
    let ghost mut seen: Seq<char> = Seq::empty();
    for c in it: camel.chars()
        invariant
            it.seq() == camel@,
            seen == camel@.take(it.index() as int),
            snake@ == snake_upper(seen),
            first == (seen.len() == 0),
    {
        proof {
            let next = seen.push(c);
            assert(next.drop_last() =~= seen);
            assert(next.last() == c);
        }
        if is_uppercase(c) {
            if !first {
                push_char(&mut snake, '_');
            }
            push_char(&mut snake, c);
        } else {
            push_char(&mut snake, to_ascii_uppercase(c));
        }
        first = false;
        proof {
            seen = seen.push(c);
        }
    }
    assert(camel@.take(camel@.len() as int) =~= camel@);
    snake
}

/// Turns a function name such as `on_save` into `OnSave`.
pub fn snake_to_camel(snake_str: &str) -> (camel_case: String)
    ensures
        camel_case@ == camel(snake_str@),
{
    broadcast use vstd::string::axiom_spec_iter;

    let mut camel_case = String::new();
    let mut at_start = true;
    let ghost mut seen: Seq<char> = Seq::empty();
    for c in it: snake_str.chars()
        invariant
            it.seq() == snake_str@,
            seen == snake_str@.take(it.index() as int),
            camel_case@ == camel(seen),
            at_start == (seen.len() == 0 || seen.last() == '_'),
    {
        proof {
            let next = seen.push(c);
            assert(next.drop_last() =~= seen);
            assert(next.last() == c);
            if seen.len() > 0 {
                assert(next[next.len() - 2] == seen.last());
            }
        }
        if c == '_' {
            at_start = true;
        } else if at_start {
            push_char(&mut camel_case, to_ascii_uppercase(c));
            at_start = false;
        } else {
            push_char(&mut camel_case, c);
        }
        proof {
            seen = seen.push(c);
        }
    }
    assert(snake_str@.take(snake_str@.len() as int) =~= snake_str@);
    camel_case
}

/// The name of the handler type that goes with the entity handler function
/// `function`: its type-style name followed by `Handler`.
pub fn handler_name(function: &str) -> (name: String)
    ensures
        name@ == camel(function@) + "Handler"@,
{
    let mut name = snake_to_camel(function);
    name.append("Handler");
    name
}

/// The name of the handler type that goes with the signal handler function
/// `function`: its type-style name followed by `SignalHandler`.
pub fn signal_handler_name(function: &str) -> (name: String)
    ensures
        name@ == camel(function@) + "SignalHandler"@,
{
    let mut name = snake_to_camel(function);
    name.append("SignalHandler");
    name
}

} // verus!
