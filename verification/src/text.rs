//! Numerals as text: how numbers are written into MQTT properties and read back from them.

use vstd::prelude::*;

verus! {

/// The decimal digit for a number below ten.
pub open spec fn decimal_digit(d: int) -> char {
    (48 + d) as char
}

/// Whether a character is one of the ten decimal digits.
pub open spec fn is_decimal_digit(c: char) -> bool {
    '0' <= c && c <= '9'
}

/// The decimal numeral of a number, without leading zeros.
pub open spec fn decimal(n: nat) -> Seq<char>
    decreases n,
{
    if n < 10 {
        seq![decimal_digit(n as int)]
    } else {
        decimal(n / 10).push(decimal_digit((n % 10) as int))
    }
}

/// The number that a sequence of decimal digits stands for, most significant digit first.
pub open spec fn digits_value(digits: Seq<char>) -> nat
    decreases digits.len(),
{
    if digits.len() == 0 {
        0
    } else {
        digits_value(digits.drop_last()) * 10 + (digits.last() as int - 48) as nat
    }
}

/// Whether a text is a non-empty sequence of decimal digits.
pub open spec fn is_digits(text: Seq<char>) -> bool {
    &&& text.len() > 0
    &&& forall|i: int| 0 <= i < text.len() ==> is_decimal_digit(#[trigger] text[i])
}

/// The number that a text stands for if it is an optional `+` followed by digits only.
pub open spec fn unsigned_value(text: Seq<char>) -> Option<nat> {
    let digits = if text.len() > 0 && text[0] == '+' {
        text.skip(1)
    } else {
        text
    };
    if is_digits(digits) {
        Some(digits_value(digits))
    } else {
        None
    }
}

/// The number that a text stands for if it is an optional `+` or `-` followed by digits only.
pub open spec fn signed_value(text: Seq<char>) -> Option<int> {
    if text.len() > 0 && text[0] == '-' {
        if is_digits(text.skip(1)) {
            Some(-digits_value(text.skip(1)))
        } else {
            None
        }
    } else {
        match unsigned_value(text) {
            Some(n) => Some(n as int),
            None => None,
        }
    }
}

/// What reading a text as a `u32` gives: the number, or the text of the error.
pub open spec fn read_u32(text: Seq<char>) -> Result<u32, Seq<char>> {
    match unsigned_value(text) {
        Some(n) if n <= u32::MAX => Ok(n as u32),
        _ => Err(u32_error(text)),
    }
}

/// What reading a text as a `u8` gives: the number, or the text of the error.
pub open spec fn read_u8(text: Seq<char>) -> Result<u8, Seq<char>> {
    match unsigned_value(text) {
        Some(n) if n <= u8::MAX => Ok(n as u8),
        _ => Err(u8_error(text)),
    }
}

/// What reading a text as an `i32` gives: the number, or the text of the error.
pub open spec fn read_i32(text: Seq<char>) -> Result<i32, Seq<char>> {
    match signed_value(text) {
        Some(n) if i32::MIN <= n <= i32::MAX => Ok(n as i32),
        _ => Err(i32_error(text)),
    }
}

/// Reading a decimal numeral as an unsigned number gives back the number that was written.
pub proof fn lemma_decimal_reads_back(n: nat)
    ensures
        unsigned_value(decimal(n)) == Some(n),
        signed_value(decimal(n)) == Some(n as int),
{
    lemma_decimal_digits(n);
    let first = decimal(n)[0];
    assert(is_decimal_digit(first));
}

proof fn lemma_decimal_digits(n: nat)
    ensures
        is_digits(decimal(n)),
        digits_value(decimal(n)) == n,
    decreases n,
{
    if n < 10 {
        let one = seq![decimal_digit(n as int)];
        assert(one.drop_last() =~= Seq::<char>::empty());
        assert(digits_value(one.drop_last()) == 0);
    } else {
        lemma_decimal_digits(n / 10);
        let digit = decimal_digit((n % 10) as int);
        assert(decimal(n).drop_last() =~= decimal(n / 10));
        assert(decimal(n).last() == digit);
        assert forall|i: int| 0 <= i < decimal(n).len() implies is_decimal_digit(
            #[trigger] decimal(n)[i],
        ) by {
            if i < decimal(n / 10).len() {
                assert(decimal(n)[i] == decimal(n / 10)[i]);
            }
        }
    }
}

/// The text of the error that `u32::from_str` reports for a text that is not a `u32` numeral.
pub uninterp spec fn u32_error(text: Seq<char>) -> Seq<char>;

/// The text of the error that `u8::from_str` reports for a text that is not a `u8` numeral.
pub uninterp spec fn u8_error(text: Seq<char>) -> Seq<char>;

/// The text of the error that `i32::from_str` reports for a text that is not an `i32` numeral.
pub uninterp spec fn i32_error(text: Seq<char>) -> Seq<char>;

/// Calls `u32::to_string`, which writes the number as a decimal numeral.
#[verifier::external_body]
pub(crate) fn u32_to_text(n: u32) -> (text: String)
    ensures
        text@ == decimal(n as nat),
{
    n.to_string()
}

/// Calls `u32::from_str`. It accepts an optional `+` followed by decimal digits only, as long as
/// the number fits into a `u32`, and reports an error for any other text.
#[verifier::external_body]
pub(crate) fn u32_from_text(text: &str) -> (r: Result<u32, String>)
    ensures
        match r {
            Ok(n) => unsigned_value(text@) == Some(n as nat),
            Err(e) => {
                &&& unsigned_value(text@) matches Some(n) ==> n > u32::MAX
                &&& e@ == u32_error(text@)
            },
        },
{
    text.parse::<u32>().map_err(|e| e.to_string())
}

/// Calls `u8::from_str`. It accepts an optional `+` followed by decimal digits only, as long as
/// the number fits into a `u8`, and reports an error for any other text.
#[verifier::external_body]
pub(crate) fn u8_from_text(text: &str) -> (r: Result<u8, String>)
    ensures
        match r {
            Ok(n) => unsigned_value(text@) == Some(n as nat),
            Err(e) => {
                &&& unsigned_value(text@) matches Some(n) ==> n > u8::MAX
                &&& e@ == u8_error(text@)
            },
        },
{
    text.parse::<u8>().map_err(|e| e.to_string())
}

/// Calls `i32::from_str`. It accepts an optional `+` or `-` followed by decimal digits only, as
/// long as the number fits into an `i32`, and reports an error for any other text.
#[verifier::external_body]
pub(crate) fn i32_from_text(text: &str) -> (r: Result<i32, String>)
    ensures
        match r {
            Ok(n) => signed_value(text@) == Some(n as int),
            Err(e) => {
                &&& signed_value(text@) matches Some(n) ==> !(i32::MIN <= n <= i32::MAX)
                &&& e@ == i32_error(text@)
            },
        },
{
    text.parse::<i32>().map_err(|e| e.to_string())
}

} // verus!
