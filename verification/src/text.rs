//! Decimal text: how the numbers in an encoder's arguments and in the name
//! of a recording are written, and how the identifier in a request is read.

use vstd::prelude::*;

verus! {

/// The character of a decimal digit `0..=9`.
pub open spec fn digit_char(d: int) -> char {
    ((d + 48) as u8) as char
}

/// The decimal digits of `n`, most significant first, without a sign and
/// without leading zeros; `0` is written "0".
pub open spec fn decimal(n: nat) -> Seq<char>
    decreases n,
{
    if n < 10 {
        seq![digit_char(n as int)]
    } else {
        decimal(n / 10).push(digit_char((n % 10) as int))
    }
}

/// The text of one decimal digit.
fn digit_text(d: u64) -> (s: &'static str)
    requires
        d < 10,
    ensures
        s@ == seq![digit_char(d as int)],
{
    proof {
        reveal_strlit("0");
        reveal_strlit("1");
        reveal_strlit("2");
        reveal_strlit("3");
        reveal_strlit("4");
        reveal_strlit("5");
        reveal_strlit("6");
        reveal_strlit("7");
        reveal_strlit("8");
        reveal_strlit("9");
    }
    let s = if d == 0 {
        "0"
    } else if d == 1 {
        "1"
    } else if d == 2 {
        "2"
    } else if d == 3 {
        "3"
    } else if d == 4 {
        "4"
    } else if d == 5 {
        "5"
    } else if d == 6 {
        "6"
    } else if d == 7 {
        "7"
    } else if d == 8 {
        "8"
    } else {
        "9"
    };
    assert(s@ =~= seq![digit_char(d as int)]);
    s
}

/// Appends the decimal digits of `n` to `text`.
pub fn append_decimal(text: &mut String, n: u64)
    ensures
        final(text)@ == old(text)@ + decimal(n as nat),
    decreases n,
{
    if n >= 10 {
        append_decimal(text, n / 10);
    }
    text.append(digit_text(n % 10));
    assert(text@ =~= old(text)@ + decimal(n as nat));
}

/// The decimal digits of `n` as a string.
pub fn decimal_string(n: u64) -> (s: String)
    ensures
        s@ == decimal(n as nat),
{
    let mut s = String::new();
    append_decimal(&mut s, n);
    assert(s@ =~= decimal(n as nat));
    s
}

/// Decimal text is made of digits only, and of at least one.
pub proof fn lemma_decimal_is_digits(n: nat)
    ensures
        decimal(n).len() >= 1,
        forall|i: int| 0 <= i < decimal(n).len() ==> '0' <= #[trigger] decimal(n)[i] <= '9',
    decreases n,
{
    if n >= 10 {
        lemma_decimal_is_digits(n / 10);
    }
}

/// The number that a row of decimal digits stands for.
pub open spec fn digits_value(digits: Seq<char>) -> int
    decreases digits.len(),
{
    if digits.len() == 0 {
        0
    } else {
        10 * digits_value(digits.drop_last()) + (digits.last() as int - 48)
    }
}

/// `digits` is one decimal digit or more, and nothing else.
pub open spec fn is_digits(digits: Seq<char>) -> bool {
    &&& digits.len() > 0
    &&& forall|i: int| 0 <= i < digits.len() ==> '0' <= #[trigger] digits[i] <= '9'
}

/// The 32-bit integer that `text` is the decimal writing of: an optional
/// sign `+` or `-`, then digits only, at least one. Text of another shape,
/// or of a number outside the 32-bit range, stands for none.
pub open spec fn signed_decimal(text: Seq<char>) -> Option<int> {
    let negative = text.len() > 0 && text[0] == '-';
    let signed = text.len() > 0 && (text[0] == '-' || text[0] == '+');
    let digits = if signed {
        text.drop_first()
    } else {
        text
    };
    let value = if negative {
        -digits_value(digits)
    } else {
        digits_value(digits)
    };
    if is_digits(digits) && i32::MIN <= value <= i32::MAX {
        Some(value)
    } else {
        None
    }
}

/// The message with which the standard library refuses to read `text` as a
/// 32-bit integer.
pub uninterp spec fn parse_failure(text: Seq<char>) -> Seq<char>;

/// Reads a 32-bit integer with `str::parse::<i32>`. The standard library
/// documents what it accepts: an optional sign followed by decimal digits
/// only, for a number in range; that is stated here. For the rest it
/// returns an error, whose message is known here by name only.
#[verifier::external_body]
pub(crate) fn parse_i32(text: &str) -> (r: Result<i32, String>)
    ensures
        match r {
            Ok(value) => signed_decimal(text@) == Some(value as int),
            Err(reason) => signed_decimal(text@) is None && reason@ == parse_failure(text@),
        },
{
    match text.parse::<i32>() {
        Ok(value) => Ok(value),
        Err(e) => Err(e.to_string()),
    }
}

/// A row of decimal digits stands for the number it was written for.
pub proof fn lemma_digits_value_of_decimal(n: nat)
    ensures
        digits_value(decimal(n)) == n,
    decreases n,
{
    assert(decimal(n).last() == digit_char((n % 10) as int));
    if n < 10 {
        assert(decimal(n).drop_last() =~= Seq::<char>::empty());
        assert(digits_value(decimal(n).drop_last()) == 0);
    } else {
        lemma_digits_value_of_decimal(n / 10);
        assert(decimal(n).drop_last() =~= decimal(n / 10));
    }
}

/// The decimal text of a number that fits into 32 bits is read back as
/// that number: an identifier that was given out can be asked for by its
/// decimal text.
pub proof fn lemma_decimal_is_read_back(n: nat)
    requires
        n <= i32::MAX,
    ensures
        signed_decimal(decimal(n)) == Some(n as int),
{
    lemma_decimal_is_digits(n);
    lemma_digits_value_of_decimal(n);
    assert('0' <= decimal(n)[0] <= '9');
}

} // verus!
