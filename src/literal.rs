//! Integer literals of generated code, and the text of an integer.
use vstd::prelude::*;

verus! {

/// The decimal digit `d`, for `d < 10`.
pub open spec fn digit(d: nat) -> char {
    seq!['0', '1', '2', '3', '4', '5', '6', '7', '8', '9'][d as int]
}

/// The decimal digits of `n`, without leading zeros.
pub open spec fn digits(n: nat) -> Seq<char>
    decreases n,
{
    if n < 10 {
        seq![digit(n)]
    } else {
        digits(n / 10) + seq![digit(n % 10)]
    }
}

/// The decimal text of `n`, with a leading `-` when it is negative.
pub open spec fn int_text(n: int) -> Seq<char> {
    if n < 0 {
        seq!['-'] + digits((-n) as nat)
    } else {
        digits(n as nat)
    }
}

/// Relies on proc_macro2::Literal::i64_unsuffixed and Literal's Display: the
/// literal is written as the decimal text of the value.
#[verifier::external_body]
pub(crate) fn i64_unsuffixed(n: i64) -> (r: String)
    ensures
        r@ == int_text(n as int),
{
    proc_macro2::Literal::i64_unsuffixed(n).to_string()
}

/// Relies on proc_macro2::Literal::i64_suffixed and Literal's Display: the
/// literal is written as the decimal text of the value followed by `i64`.
#[verifier::external_body]
pub(crate) fn i64_suffixed(n: i64) -> (r: String)
    ensures
        r@ == int_text(n as int) + "i64"@,
{
    proc_macro2::Literal::i64_suffixed(n).to_string()
}

/// Relies on proc_macro2::Literal::usize_unsuffixed and Literal's Display:
/// the literal is written as the decimal text of the value.
#[verifier::external_body]
pub(crate) fn usize_unsuffixed(n: usize) -> (r: String)
    ensures
        r@ == int_text(n as int),
{
    proc_macro2::Literal::usize_unsuffixed(n).to_string()
}

/// Relies on proc_macro2::Literal::u64_unsuffixed and Literal's Display: the
/// literal is written as the decimal text of the value.
#[verifier::external_body]
pub(crate) fn u64_unsuffixed(n: u64) -> (r: String)
    ensures
        r@ == int_text(n as int),
{
    proc_macro2::Literal::u64_unsuffixed(n).to_string()
}

} // verus!
