//! Text helpers: the few `std` string operations the library relies on, each given the
//! contract that its documentation states.
use vstd::prelude::*;
use vstd::utf8::{decode_utf8, valid_utf8};

verus! {

/// The character of a decimal digit `0..=9`.
pub open spec fn digit_char(d: nat) -> char {
    if d == 0 { '0' }
    else if d == 1 { '1' }
    else if d == 2 { '2' }
    else if d == 3 { '3' }
    else if d == 4 { '4' }
    else if d == 5 { '5' }
    else if d == 6 { '6' }
    else if d == 7 { '7' }
    else if d == 8 { '8' }
    else { '9' }
}

/// Decimal digits of a natural number, most significant first, without leading zeros.
pub open spec fn nat_text(n: nat) -> Seq<char>
    decreases n,
{
    if n < 10 {
        seq![digit_char(n)]
    } else {
        nat_text(n / 10).push(digit_char(n % 10))
    }
}

/// Decimal text of an integer: a `-` sign for negative values, then the digits.
pub open spec fn int_text(i: int) -> Seq<char> {
    if i < 0 {
        seq!['-'] + nat_text((-i) as nat)
    } else {
        nat_text(i as nat)
    }
}

/// The lowercase form of a string, as `str::to_lowercase` computes it (Unicode case mapping).
pub uninterp spec fn lowercase(s: Seq<char>) -> Seq<char>;

/// `u32`'s `ToString`: its decimal text, as `Display` for integers is documented.
#[verifier::external_body]
pub(crate) fn u32_text(v: u32) -> (s: String)
    ensures
        s@ == nat_text(v as nat),
{
    v.to_string()
}

/// `usize`'s `ToString`: its decimal text, as `Display` for integers is documented.
#[verifier::external_body]
pub(crate) fn usize_text(v: usize) -> (s: String)
    ensures
        s@ == nat_text(v as nat),
{
    v.to_string()
}

/// `i32`'s `ToString`: its decimal text with a leading `-` when negative.
#[verifier::external_body]
pub(crate) fn i32_text(v: i32) -> (s: String)
    ensures
        s@ == int_text(v as int),
{
    v.to_string()
}

/// `str::to_lowercase`: the Unicode lowercase form of `s`, named `lowercase`.
#[verifier::external_body]
pub(crate) fn to_lowercase(s: &str) -> (r: String)
    ensures
        r@ == lowercase(s@),
{
    s.to_lowercase()
}

/// `str::eq`: two string slices are equal exactly when they hold the same characters.
#[verifier::external_body]
pub(crate) fn str_eq(a: &str, b: &str) -> (r: bool)
    ensures
        r == (a@ == b@),
{
    a == b
}

/// `std::str::from_utf8` followed by `str::to_owned`: the text that the bytes encode when
/// they are valid UTF-8.
#[verifier::external_body]
pub(crate) fn utf8_text(bytes: &[u8]) -> (r: Result<String, std::str::Utf8Error>)
    ensures
        r is Ok <==> valid_utf8(bytes@),
        r matches Ok(s) ==> s@ == decode_utf8(bytes@),
{
    match std::str::from_utf8(bytes) {
        Ok(s) => Ok(s.to_owned()),
        Err(e) => Err(e),
    }
}

/// `std::str::Utf8Error`, the error of a failed UTF-8 decoding.
#[verifier::external_type_specification]
#[verifier::external_body]
pub struct ExUtf8Error(std::str::Utf8Error);

} // verus!
