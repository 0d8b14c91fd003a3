//! Decimal rendering of integers in error messages.

use vstd::prelude::*;

verus! {

/// The character of a decimal digit.
pub open spec fn digit_char(d: nat) -> char {
    (48 + d) as char
}

/// Decimal digits of `n`, most significant first, without leading zeros ("0" for zero).
pub open spec fn decimal(n: nat) -> Seq<char>
    decreases n,
{
    if n < 10 {
        seq![digit_char(n)]
    } else {
        decimal(n / 10).push(digit_char(n % 10))
    }
}

/// Decimal rendering of a signed integer: a minus sign before the digits of negative values.
pub open spec fn signed_decimal(v: int) -> Seq<char> {
    if v < 0 {
        seq!['-'] + decimal((-v) as nat)
    } else {
        decimal(v as nat)
    }
}

/// `n` in decimal, as `usize`'s `Display` renders it (`ToString::to_string`).
#[verifier::external_body]
pub(crate) fn usize_text(n: usize) -> (r: String)
    ensures
        r@ == decimal(n as nat),
{
    n.to_string()
}

/// `v` in decimal, as `i32`'s `Display` renders it (`ToString::to_string`).
#[verifier::external_body]
pub(crate) fn i32_text(v: i32) -> (r: String)
    ensures
        r@ == signed_decimal(v as int),
{
    v.to_string()
}


/// `prefix`, `x` in decimal, `middle`, `y` in decimal, then `suffix`.
pub(crate) fn two_numbers_message(prefix: &str, x: usize, middle: &str, y: usize, suffix: &str) -> (r: String)
    ensures
        r@ == prefix@ + decimal(x as nat) + middle@ + decimal(y as nat) + suffix@,
{
    let mut m = prefix.to_owned();
    m.append(usize_text(x).as_str());
    m.append(middle);
    m.append(usize_text(y).as_str());
    m.append(suffix);
    m
}

} // verus!
