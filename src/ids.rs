//! Record identifiers: decimal text of a number.
use vstd::prelude::*;
use crate::error::{ErrorKind, StringError};

verus! {

/// The character of a decimal digit.
pub open spec fn digit_char(d: nat) -> char {
    if d == 0 { '0' }
    else if d == 1 { '1' }
    else if d == 2 { '2' }
    else if d == 3 { '3' }
    else if d == 4 { '4' }
    else if d == 5 { '5' }
    else if d == 6 { '6' }
    else if d == 7 { '7' }
    else if d == 8 { '8' }
    else { '9' }
}

/// The value of a decimal digit character (0 for any other character).
pub open spec fn char_digit(c: char) -> nat {
    if c == '1' { 1 }
    else if c == '2' { 2 }
    else if c == '3' { 3 }
    else if c == '4' { 4 }
    else if c == '5' { 5 }
    else if c == '6' { 6 }
    else if c == '7' { 7 }
    else if c == '8' { 8 }
    else if c == '9' { 9 }
    else { 0 }
}

/// The decimal text of `n`, without leading zeros.
pub open spec fn decimal(n: nat) -> Seq<char>
    decreases n,
{
    if n < 10 {
        seq![digit_char(n)]
    } else {
        decimal(n / 10).push(digit_char(n % 10))
    }
}

/// The number that a text of decimal digits stands for.
pub open spec fn decimal_value(s: Seq<char>) -> nat
    decreases s.len(),
{
    if s.len() == 0 {
        0
    } else {
        decimal_value(s.drop_last()) * 10 + char_digit(s.last())
    }
}

/// Reading back the decimal text of a number gives the number.
pub proof fn lemma_decimal_round_trip(n: nat)
    ensures
        decimal_value(decimal(n)) == n,
    decreases n,
{
    if n >= 10 {
        lemma_decimal_round_trip(n / 10);
        assert(decimal(n).drop_last() =~= decimal(n / 10));
        assert(char_digit(digit_char(n % 10)) == n % 10);
        assert((n / 10) * 10 + n % 10 == n);
        assert(decimal(n).last() == digit_char(n % 10));
        assert(decimal_value(decimal(n)) == decimal_value(decimal(n).drop_last()) * 10
            + char_digit(decimal(n).last()));
    } else {
        assert(decimal(n).drop_last() =~= Seq::<char>::empty());
        assert(char_digit(digit_char(n)) == n);
        assert(decimal(n).last() == digit_char(n));
        assert(decimal_value(decimal(n)) == decimal_value(decimal(n).drop_last()) * 10
            + char_digit(decimal(n).last()));
    }
}

/// Whether `c` is an ASCII decimal digit.
pub open spec fn is_digit(c: char) -> bool {
    c == '0' || c == '1' || c == '2' || c == '3' || c == '4' || c == '5' || c == '6' || c == '7'
        || c == '8' || c == '9'
}

/// A non-empty run of decimal digits.
pub open spec fn is_digits(s: Seq<char>) -> bool {
    s.len() > 0 && forall|i: int| 0 <= i < s.len() ==> is_digit(#[trigger] s[i])
}

/// The integer that an optional sign followed by decimal digits stands for;
/// `None` for any other text.
pub open spec fn signed_value(s: Seq<char>) -> Option<int> {
    if s.len() > 0 && s[0] == '-' && is_digits(s.drop_first()) {
        Some(-(decimal_value(s.drop_first()) as int))
    } else if s.len() > 0 && s[0] == '+' && is_digits(s.drop_first()) {
        Some(decimal_value(s.drop_first()) as int)
    } else if is_digits(s) {
        Some(decimal_value(s) as int)
    } else {
        None
    }
}

/// The decimal text of an integer, with a minus sign when it is negative.
pub open spec fn signed_decimal(n: int) -> Seq<char> {
    if n < 0 {
        seq!['-'] + decimal((-n) as nat)
    } else {
        decimal(n as nat)
    }
}

/// The `i32` that a text stands for, if it stands for one that fits.
pub open spec fn i32_value(s: Seq<char>) -> Option<i32> {
    match signed_value(s) {
        Some(v) => if i32::MIN <= v <= i32::MAX { Some(v as i32) } else { None },
        None => None,
    }
}

/// Relies on `FromStr` for `i32` (`str::parse`): an optional `+` or `-` and
/// then only decimal digits, whose value must fit in an `i32`; any other
/// text is an error.
#[verifier::external_body]
fn parse_i32(s: &str) -> (r: Option<i32>)
    ensures
        r == i32_value(s@),
{
    s.parse::<i32>().ok()
}

/// Relies on `ToString` for `i32`, which writes the number in decimal, with
/// a minus sign when it is negative and no leading zeros.
#[verifier::external_body]
fn i32_text(n: i32) -> (r: String)
    ensures
        r@ == signed_decimal(n as int),
{
    n.to_string()
}

/// Relies on `ToString` for `u64`, which writes the number in decimal with no
/// sign and no leading zeros.
#[verifier::external_body]
pub(crate) fn u64_text(n: u64) -> (r: String)
    ensures
        r@ == decimal(n as nat),
{
    n.to_string()
}

/// The text of a relational key.
pub fn key_text(n: i32) -> (r: String)
    ensures
        r@ == signed_decimal(n as int),
{
    i32_text(n)
}

/// The relational key that an identifier names; text that is not one is a
/// validation failure.
pub fn parse_key(s: &str) -> (r: Result<i32, StringError>)
    ensures
        r is Ok <==> i32_value(s@) is Some,
        r is Ok ==> r->Ok_0 == i32_value(s@)->0,
        r is Err ==> r->Err_0.kind == ErrorKind::Validation,
{
    match parse_i32(s) {
        Some(n) => Ok(n),
        None => Err(StringError::new(ErrorKind::Validation, "Malformed identifier")),
    }
}

/// The key text of a key reads back as the key.
pub proof fn lemma_key_round_trip(n: i32)
    ensures
        i32_value(signed_decimal(n as int)) == Some(n),
{
    let m: nat = if n < 0 { (-(n as int)) as nat } else { n as nat };
    lemma_decimal_round_trip(m);
    lemma_decimal_is_digits(m);
    if n < 0 {
        assert((seq!['-'] + decimal(m)).drop_first() =~= decimal(m));
    } else {
        assert(decimal(m)[0] != '-' && decimal(m)[0] != '+') by {
            lemma_decimal_first(m);
        }
    }
}

/// The decimal text of a number is a run of digits.
pub proof fn lemma_decimal_is_digits(n: nat)
    ensures
        is_digits(decimal(n)),
    decreases n,
{
    if n >= 10 {
        lemma_decimal_is_digits(n / 10);
        assert forall|i: int| 0 <= i < decimal(n).len() implies is_digit(#[trigger] decimal(n)[i]) by {
            if i < decimal(n / 10).len() {
                assert(decimal(n)[i] == decimal(n / 10)[i]);
            }
        }
    }
}

/// The decimal text of a number starts with a digit.
pub proof fn lemma_decimal_first(n: nat)
    ensures
        decimal(n).len() > 0,
        is_digit(decimal(n)[0]),
{
    lemma_decimal_is_digits(n);
}

/// The `u64` that a text stands for, if it stands for one that fits: an
/// optional `+` and then decimal digits.
pub open spec fn u64_value(s: Seq<char>) -> Option<u64> {
    let v = if s.len() > 0 && s[0] == '+' && is_digits(s.drop_first()) {
        Some(decimal_value(s.drop_first()))
    } else if is_digits(s) {
        Some(decimal_value(s))
    } else {
        None
    };
    match v {
        Some(n) => if n <= u64::MAX { Some(n as u64) } else { None },
        None => None,
    }
}

/// Relies on `FromStr` for `u64` (`str::parse`): an optional `+` and then
/// only decimal digits, whose value must fit in a `u64`; any other text is
/// an error.
#[verifier::external_body]
fn parse_u64(s: &str) -> (r: Option<u64>)
    ensures
        r == u64_value(s@),
{
    s.parse::<u64>().ok()
}

/// Whether `s` is the text of a record identifier: the decimal text, without
/// sign or leading zeros, of a number that fits in a `u64`.
pub open spec fn is_id(s: Seq<char>) -> bool {
    &&& decimal(decimal_value(s)) == s
    &&& decimal_value(s) <= u64::MAX
}

/// An identifier text reads as its number.
pub proof fn lemma_id_parses(s: Seq<char>)
    requires
        is_id(s),
    ensures
        u64_value(s) == Some(decimal_value(s) as u64),
{
    lemma_decimal_first(decimal_value(s));
    lemma_decimal_is_digits(decimal_value(s));
}

/// Whether `s` is the text of a record identifier.
pub fn is_id_text(s: &str) -> (r: bool)
    ensures
        r == is_id(s@),
{
    match parse_u64(s) {
        Some(n) => {
            let t = id_text(n);
            let o = s.to_owned();
            proof {
                if is_id(s@) {
                    lemma_id_parses(s@);
                }
            }
            t == o
        },
        None => {
            proof {
                if is_id(s@) {
                    lemma_id_parses(s@);
                }
            }
            false
        },
    }
}

/// The identifier for the record numbered `n`.
pub fn id_text(n: u64) -> (r: String)
    ensures
        r@ == decimal(n as nat),
        decimal_value(r@) == n,
{
    proof {
        lemma_decimal_round_trip(n as nat);
    }
    u64_text(n)
}

} // verus!
