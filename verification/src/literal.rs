//! Integer literals, written in base 10.
//!
//! A declared discriminant reaches the library as the decimal digits of an
//! integer literal. Its value is worked out by `syn`, the parser the derive
//! reads its input with.

use vstd::prelude::*;

verus! {

/// The error `syn` reports for a literal it cannot read as the requested type.
#[verifier::external_type_specification]
#[verifier::external_body]
pub struct ExSynError(syn::Error);

/// Whether `c` is one of the ten decimal digits.
pub open spec fn is_digit(c: char) -> bool {
    '0' <= c <= '9'
}

/// Whether `digits` is a non-empty run of decimal digits.
pub open spec fn is_decimal(digits: Seq<char>) -> bool {
    digits.len() > 0 && forall|i: int| 0 <= i < digits.len() ==> is_digit(#[trigger] digits[i])
}

/// The number that a run of decimal digits denotes.
pub open spec fn decimal_value(digits: Seq<char>) -> nat
    decreases digits.len(),
{
    if digits.len() == 0 {
        0
    } else {
        decimal_value(digits.drop_last()) * 10 + (digits.last() as u32 - '0' as u32) as nat
    }
}

/// The value of an integer literal as a discriminant: the number its digits
/// denote, where they are decimal digits and the number fits in 64 bits.
pub open spec fn literal_value(digits: Seq<char>) -> Option<u64> {
    if is_decimal(digits) && decimal_value(digits) <= u64::MAX {
        Some(decimal_value(digits) as u64)
    } else {
        None
    }
}

/// Reads decimal digits as a `u64` with `syn::LitInt::new` and
/// `syn::LitInt::base10_parse`.
///
/// `LitInt::new` panics unless its argument is an integer literal, which a
/// non-empty run of decimal digits is. `base10_parse::<u64>` then succeeds
/// exactly when the number fits in a `u64`, and returns that number.
#[verifier::external_body]
fn base10_parse(digits: &str) -> (parsed: Result<u64, syn::Error>)
    requires
        is_decimal(digits@),
    ensures
        parsed is Ok <==> decimal_value(digits@) <= u64::MAX,
        parsed matches Ok(value) ==> value == decimal_value(digits@),
{
    syn::LitInt::new(digits, proc_macro2::Span::call_site()).base10_parse::<u64>()
}

/// Tells whether `digits` is a non-empty run of decimal digits.
pub fn check_decimal(digits: &str) -> (decimal: bool)
    ensures
        decimal == is_decimal(digits@),
{
    let len = digits.unicode_len();
    if len == 0 {
        return false;
    }
    for i in 0..len
        invariant
            len == digits@.len(),
            forall|j: int| 0 <= j < i ==> is_digit(#[trigger] digits@[j]),
    {
        let c = digits.get_char(i);
        if !('0' <= c && c <= '9') {
            return false;
        }
    }
    true
}

/// Works out the value of an integer literal from its decimal digits.
///
/// There is no value when `digits` is empty, holds anything but decimal
/// digits, or denotes a number above `u64::MAX`.
pub fn eval_literal(digits: &str) -> (value: Option<u64>)
    ensures
        value == literal_value(digits@),
{
    if !check_decimal(digits) {
        return None;
    }
    match base10_parse(digits) {
        Ok(value) => Some(value),
        Err(_) => None,
    }
}

} // verus!
