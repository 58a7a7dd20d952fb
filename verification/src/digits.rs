//! Numbers as text: decimal, as index values are stored, and lower-case
//! hexadecimal.

use vstd::prelude::*;
use vstd::string::*;

verus! {

/// The text of one digit below sixteen.
pub open spec fn digit_text(d: nat) -> Seq<char> {
    if d == 0 {
        "0"@
    } else if d == 1 {
        "1"@
    } else if d == 2 {
        "2"@
    } else if d == 3 {
        "3"@
    } else if d == 4 {
        "4"@
    } else if d == 5 {
        "5"@
    } else if d == 6 {
        "6"@
    } else if d == 7 {
        "7"@
    } else if d == 8 {
        "8"@
    } else if d == 9 {
        "9"@
    } else if d == 10 {
        "a"@
    } else if d == 11 {
        "b"@
    } else if d == 12 {
        "c"@
    } else if d == 13 {
        "d"@
    } else if d == 14 {
        "e"@
    } else {
        "f"@
    }
}

/// `n` in decimal, without leading zeros.
pub open spec fn decimal_text(n: nat) -> Seq<char>
    decreases n,
{
    if n < 10 {
        digit_text(n)
    } else {
        decimal_text(n / 10) + digit_text(n % 10)
    }
}

/// `n` in lower-case hexadecimal, without leading zeros.
pub open spec fn hex_text(n: nat) -> Seq<char>
    decreases n,
{
    if n < 16 {
        digit_text(n)
    } else {
        hex_text(n / 16) + digit_text(n % 16)
    }
}

/// Returns the text of the digit `d`.
fn digit(d: u64) -> (text: &'static str)
    requires
        d < 16,
    ensures
        text@ == digit_text(d as nat),
{
    if d == 0 {
        "0"
    } else if d == 1 {
        "1"
    } else if d == 2 {
        "2"
    } else if d == 3 {
        "3"
    } else if d == 4 {
        "4"
    } else if d == 5 {
        "5"
    } else if d == 6 {
        "6"
    } else if d == 7 {
        "7"
    } else if d == 8 {
        "8"
    } else if d == 9 {
        "9"
    } else if d == 10 {
        "a"
    } else if d == 11 {
        "b"
    } else if d == 12 {
        "c"
    } else if d == 13 {
        "d"
    } else if d == 14 {
        "e"
    } else {
        "f"
    }
}

/// Appends `n` in decimal to `out`.
pub fn push_decimal(out: &mut String, n: u64)
    ensures
        final(out)@ == old(out)@ + decimal_text(n as nat),
    decreases n,
{
    if n >= 10 {
        push_decimal(out, n / 10);
    }
    out.append(digit(n % 10));
    assert(out@ =~= old(out)@ + decimal_text(n as nat));
}

/// Appends `n` in lower-case hexadecimal to `out`.
pub fn push_hex(out: &mut String, n: u64)
    ensures
        final(out)@ == old(out)@ + hex_text(n as nat),
    decreases n,
{
    if n >= 16 {
        push_hex(out, n / 16);
    }
    out.append(digit(n % 16));
    assert(out@ =~= old(out)@ + hex_text(n as nat));
}

/// `n` in decimal.
pub fn decimal(n: u64) -> (text: String)
    ensures
        text@ == decimal_text(n as nat),
{
    let mut text = String::new();
    push_decimal(&mut text, n);
    assert(text@ =~= decimal_text(n as nat));
    text
}

/// `n` in lower-case hexadecimal.
pub fn lower_hex(n: u64) -> (text: String)
    ensures
        text@ == hex_text(n as nat),
{
    let mut text = String::new();
    push_hex(&mut text, n);
    assert(text@ =~= hex_text(n as nat));
    text
}

/// Whether `c` is a decimal digit or one of the letters `a` to `f`.
pub open spec fn is_hex_digit(c: char) -> bool {
    ('0' <= c && c <= '9') || ('a' <= c && c <= 'f')
}

/// Sixteen to the power `k`.
pub open spec fn sixteen_to(k: nat) -> nat
    decreases k,
{
    if k == 0 {
        1
    } else {
        16 * sixteen_to((k - 1) as nat)
    }
}

/// The text of a digit is one character, a hexadecimal digit.
pub proof fn lemma_digit_text(d: nat)
    requires
        d < 16,
    ensures
        digit_text(d).len() == 1,
        is_hex_digit(digit_text(d)[0]),
{
    reveal_strlit("0");
    reveal_strlit("1");
    reveal_strlit("2");
    reveal_strlit("3");
    reveal_strlit("4");
    reveal_strlit("5");
    reveal_strlit("6");
    reveal_strlit("7");
    reveal_strlit("8");
    reveal_strlit("9");
    reveal_strlit("a");
    reveal_strlit("b");
    reveal_strlit("c");
    reveal_strlit("d");
    reveal_strlit("e");
    reveal_strlit("f");
}

/// A number below sixteen to the power `k` has at least one and at most `k`
/// hexadecimal digits, and nothing but hexadecimal digits.
pub proof fn lemma_hex_text(n: nat, k: nat)
    requires
        k >= 1,
        n < sixteen_to(k),
    ensures
        1 <= hex_text(n).len() <= k,
        forall|i: int| 0 <= i < hex_text(n).len() ==> is_hex_digit(#[trigger] hex_text(n)[i]),
    decreases n,
{
    if n < 16 {
        lemma_digit_text(n);
    } else {
        assert(k >= 2) by {
            if k == 1 {
                assert(sixteen_to(1) == 16 * sixteen_to(0));
            }
        }
        assert(n / 16 < sixteen_to((k - 1) as nat));
        lemma_hex_text(n / 16, (k - 1) as nat);
        lemma_digit_text(n % 16);
    }
}

/// Every 64-bit number has at most sixteen hexadecimal digits.
pub proof fn lemma_hex_text_u64(n: u64)
    ensures
        1 <= hex_text(n as nat).len() <= 16,
        forall|i: int|
            0 <= i < hex_text(n as nat).len() ==> is_hex_digit(#[trigger] hex_text(n as nat)[i]),
{
    reveal_with_fuel(sixteen_to, 17);
    assert(sixteen_to(16) == 0x1_0000_0000_0000_0000);
    lemma_hex_text(n as nat, 16);
}

} // verus!
