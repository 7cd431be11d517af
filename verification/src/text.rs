use vstd::prelude::*;

verus! {

/// The decimal digits of `n`, most significant first, without leading zeros
/// (`"0"` for zero).
pub open spec fn decimal_digits(n: nat) -> Seq<char>
    decreases n,
{
    if n < 10 {
        seq![digit_char(n)]
    } else {
        decimal_digits(n / 10).push(digit_char(n % 10))
    }
}

/// The character of a decimal digit.
pub open spec fn digit_char(d: nat) -> char {
    ((d + 48) as u8) as char
}

/// Appends one character to a string: `String::push`, whose documentation
/// says it appends the given char to the end of the string. Trusted: the
/// contract states exactly that.
#[verifier::external_body]
pub(crate) fn push_char(s: &mut String, c: char)
    ensures
        final(s)@ == old(s)@.push(c),
{
    s.push(c);
}

/// The character of decimal digit `d`.
fn digit(d: u8) -> (c: char)
    requires
        d < 10,
    ensures
        c == digit_char(d as nat),
{
    ((d + 48) as u8) as char
}

/// The decimal text of a byte, without leading zeros.
pub(crate) fn u8_to_decimal(value: u8) -> (text: String)
    ensures
        text@ == decimal_digits(value as nat),
{
    let mut text = String::new();
    proof {
        reveal_with_fuel(decimal_digits, 3);
    }
    if value >= 100 {
        push_char(&mut text, digit(value / 100));
    }
    if value >= 10 {
        push_char(&mut text, digit((value / 10) % 10));
    }
    push_char(&mut text, digit(value % 10));
    assert(value >= 100 ==> (value as nat) / 10 / 10 == (value as nat) / 100);
    text
}

} // verus!
