use vstd::prelude::*;

verus! {

/// Relies on str's PartialEq: two string slices are equal exactly when they
/// hold the same characters.
#[verifier::external_body]
pub fn str_eq(a: &str, b: &str) -> (r: bool)
    ensures
        r == (a@ == b@),
{
    a == b
}

/// An arbitrary-precision natural number literal, carried through the
/// concrete syntax tree untouched; the core never reads its digits.
#[verifier::external_type_specification]
#[verifier::external_body]
pub struct ExBigUint(num_bigint::BigUint);

/// Relies on BigUint's Clone; nothing is assumed of the copy, since the
/// core never reads the digits.
pub assume_specification[ <num_bigint::BigUint as Clone>::clone ](v: &num_bigint::BigUint) -> (r:
    num_bigint::BigUint);

} // verus!
