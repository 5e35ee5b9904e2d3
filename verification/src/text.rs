//! Numbers as text: read from free-text fields, and written for display.

use vstd::prelude::*;
use vstd::string::StringExecFns;

verus! {

pub open spec fn is_digit(c: char) -> bool {
    '0' <= c <= '9'
}

/// The number that a string of decimal digits writes; zero for the empty string.
pub open spec fn decimal_value(digits: Seq<char>) -> int
    decreases digits.len(),
{
    if digits.len() == 0 {
        0
    } else {
        10 * decimal_value(digits.drop_last()) + (digits.last() as int - '0' as int)
    }
}

/// The integer that `text` writes in decimal: an optional `+` or `-`, then
/// one digit or more and nothing else, the value within the range of `i64`.
pub open spec fn spec_parse_i64(text: Seq<char>) -> Option<i64> {
    let signed = text.len() > 0 && (text[0] == '-' || text[0] == '+');
    let digits = if signed {
        text.subrange(1, text.len() as int)
    } else {
        text
    };
    let value = if signed && text[0] == '-' {
        -decimal_value(digits)
    } else {
        decimal_value(digits)
    };
    if digits.len() > 0 && (forall|i: int| 0 <= i < digits.len() ==> is_digit(#[trigger] digits[i]))
        && i64::MIN <= value <= i64::MAX {
        Some(value as i64)
    } else {
        None
    }
}

/// `str::parse` to an `i64`. The standard library documents the accepted
/// form: an optional sign followed by decimal digits only, an error for the
/// empty string, for any other character and for a value out of range. The
/// contract says that, with nothing for an error.
#[verifier::external_body]
pub(crate) fn parse_i64(text: &str) -> (r: Option<i64>)
    ensures
        r == spec_parse_i64(text@),
{
    match text.parse::<i64>() {
        Ok(n) => Some(n),
        Err(_) => None,
    }
}

/// The number of periods that a quantity field asks for: the integer it
/// holds, or one where it holds none.
pub open spec fn spec_quantity(parsed: Option<i64>) -> i64 {
    match parsed {
        Some(n) => n,
        None => 1,
    }
}

/// Reads a quantity field: the integer that `text` writes, or one where it
/// writes none.
pub fn parse_quantity(text: &str) -> (r: i64)
    ensures
        r == spec_quantity(spec_parse_i64(text@)),
{
    match parse_i64(text) {
        Some(n) => n,
        None => 1,
    }
}

/// The character of the digit `d`, for `d` from 0 to 9.
pub open spec fn digit_char(d: int) -> char {
    if d == 0 {
        '0'
    } else if d == 1 {
        '1'
    } else if d == 2 {
        '2'
    } else if d == 3 {
        '3'
    } else if d == 4 {
        '4'
    } else if d == 5 {
        '5'
    } else if d == 6 {
        '6'
    } else if d == 7 {
        '7'
    } else if d == 8 {
        '8'
    } else {
        '9'
    }
}

/// The decimal digits of `n`, without leading zeros; one zero for zero.
pub open spec fn decimal_digits(n: nat) -> Seq<char>
    decreases n,
{
    if n < 10 {
        seq![digit_char(n as int)]
    } else {
        decimal_digits(n / 10).push(digit_char((n % 10) as int))
    }
}

/// `n` written in decimal, with a `-` in front where it is negative.
pub open spec fn spec_decimal(n: int) -> Seq<char> {
    if n < 0 {
        seq!['-'] + decimal_digits((-n) as nat)
    } else {
        decimal_digits(n as nat)
    }
}

/// The decimal digits of a number are digits, at least one, and write that
/// number.
pub proof fn lemma_decimal_digits(n: nat)
    ensures
        decimal_digits(n).len() > 0,
        forall|i: int|
            0 <= i < decimal_digits(n).len() ==> is_digit(#[trigger] decimal_digits(n)[i]),
        decimal_value(decimal_digits(n)) == n,
    decreases n,
{
    let d = decimal_digits(n);
    if n < 10 {
        assert(d.drop_last() =~= Seq::<char>::empty());
        assert(decimal_value(d.drop_last()) == 0);
    } else {
        lemma_decimal_digits(n / 10);
        assert(d.drop_last() =~= decimal_digits(n / 10));
    }
}

/// What is written in decimal reads back as the same number.
pub proof fn lemma_decimal_reads_back(n: i64)
    ensures
        spec_parse_i64(spec_decimal(n as int)) == Some(n),
{
    let text = spec_decimal(n as int);
    if n < 0 {
        let digits = decimal_digits((-n) as nat);
        lemma_decimal_digits((-n) as nat);
        assert(text.subrange(1, text.len() as int) =~= digits);
    } else {
        lemma_decimal_digits(n as nat);
        assert(is_digit(text[0]));
    }
}

/// The digit `d` as a text of one character.
fn digit_text(d: u64) -> (r: &'static str)
    requires
        d < 10,
    ensures
        r@ == seq![digit_char(d as int)],
{
    proof {
        reveal_strlit("0");
        reveal_strlit("1");
        reveal_strlit("2");
        reveal_strlit("3");
        reveal_strlit("4");
        reveal_strlit("5");
        reveal_strlit("6");
        reveal_strlit("7");
        reveal_strlit("8");
        reveal_strlit("9");
    }
    let r: &'static str = if d == 0 {
        "0"
    } else if d == 1 {
        "1"
    } else if d == 2 {
        "2"
    } else if d == 3 {
        "3"
    } else if d == 4 {
        "4"
    } else if d == 5 {
        "5"
    } else if d == 6 {
        "6"
    } else if d == 7 {
        "7"
    } else if d == 8 {
        "8"
    } else {
        "9"
    };
    assert(r@ =~= seq![digit_char(d as int)]);
    r
}

/// Writes the decimal digits of `n` at the end of `out`.
fn append_digits(out: &mut String, n: u64)
    ensures
        final(out)@ == old(out)@ + decimal_digits(n as nat),
    decreases n,
{
    if n >= 10 {
        append_digits(out, n / 10);
    }
    out.append(digit_text(n % 10));
    assert(out@ =~= old(out)@ + decimal_digits(n as nat));
}

/// Writes `n` in decimal at the end of `out`.
pub fn append_decimal(out: &mut String, n: i64)
    ensures
        final(out)@ == old(out)@ + spec_decimal(n as int),
{
    if n < 0 {
        proof {
            reveal_strlit("-");
        }
        out.append("-");
        let magnitude: u64 = if n == i64::MIN {
            9_223_372_036_854_775_808u64
        } else {
            (-n) as u64
        };
        append_digits(out, magnitude);
        assert(out@ =~= old(out)@ + spec_decimal(n as int));
    } else {
        append_digits(out, n as u64);
    }
}

/// `n` written in decimal.
pub fn decimal(n: i64) -> (r: String)
    ensures
        r@ == spec_decimal(n as int),
{
    let mut r = String::new();
    append_decimal(&mut r, n);
    assert(r@ =~= spec_decimal(n as int));
    r
}

} // verus!
