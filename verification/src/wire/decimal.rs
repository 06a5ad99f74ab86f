//! Decimal text of an integer, as the `itoa` crate writes it.

use vstd::prelude::*;

verus! {

/// The ASCII digits of `n` in base ten, most significant first, without
/// leading zeros; zero is the single digit `0`.
pub open spec fn decimal_digits(n: nat) -> Seq<u8>
    decreases n,
{
    if n < 10 {
        seq![(48 + n) as u8]
    } else {
        decimal_digits(n / 10).push((48 + n % 10) as u8)
    }
}

/// Every byte of a decimal text is one of the ten ASCII digits, and the text
/// is not empty.
pub proof fn lemma_decimal_digits_are_digits(n: nat)
    ensures
        decimal_digits(n).len() >= 1,
        forall|i: int|
            0 <= i < decimal_digits(n).len() ==> 48 <= #[trigger] decimal_digits(n)[i] <= 57,
    decreases n,
{
    if n >= 10 {
        lemma_decimal_digits_are_digits(n / 10);
    }
}

/// A decimal text longer than one digit does not start with `0`.
pub proof fn lemma_decimal_digits_no_leading_zero(n: nat)
    ensures
        decimal_digits(n).len() > 1 ==> decimal_digits(n)[0] != 48,
        n > 0 ==> decimal_digits(n)[0] != 48,
    decreases n,
{
    if n >= 10 {
        lemma_decimal_digits_no_leading_zero(n / 10);
        lemma_decimal_digits_are_digits(n / 10);
    }
}

/// `itoa::Buffer::format` on a `u64`: the decimal text of `n`, copied out of
/// the buffer that the call wrote it to.
#[verifier::external_body]
pub(crate) fn format_u64(n: u64) -> (text: Vec<u8>)
    ensures
        text@ == decimal_digits(n as nat),
{
    itoa::Buffer::new().format(n).as_bytes().to_vec()
}

} // verus!
