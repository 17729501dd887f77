//! The renderer as it is when `itoa` is available: it prints the number seven.

use vstd::prelude::*;

verus! {

/// The character that stands for a single decimal digit.
pub open spec fn digit_char(d: nat) -> char
    recommends
        d < 10,
{
    seq!['0', '1', '2', '3', '4', '5', '6', '7', '8', '9'][d as int]
}

/// The decimal digits of a natural number, most significant first, without
/// leading zeros (zero itself is the single digit `0`).
pub open spec fn decimal_digits(n: nat) -> Seq<char>
    decreases n,
{
    if n < 10 {
        seq![digit_char(n)]
    } else {
        decimal_digits(n / 10).push(digit_char(n % 10))
    }
}

/// The decimal text of an integer: its digits, after a minus sign where it is
/// negative.
pub open spec fn decimal_text(i: int) -> Seq<char> {
    if i < 0 {
        seq!['-'] + decimal_digits((-i) as nat)
    } else {
        decimal_digits(i as nat)
    }
}

/// Prints `value` with `itoa::Buffer::format` and returns the text as an owned
/// string.
///
/// Trusted: `itoa` is taken at its word that what it prints is the decimal
/// representation of the integer, which [`decimal_text`] spells out.
#[verifier::external_body]
fn format_decimal(value: i32) -> (text: String)
    ensures
        text@ == decimal_text(value as int),
{
    let mut buffer = itoa::Buffer::new();
    buffer.format(value).to_owned()
}

/// Renders the fixed value of this variant: the integer 7 in decimal.
pub fn render() -> (text: String)
    ensures
        text@ == "7"@,
{
    let text = format_decimal(7);
    proof {
        reveal_strlit("7");
        assert(decimal_text(7) =~= "7"@);
    }
    text
}

} // verus!
