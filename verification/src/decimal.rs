//! Decimal rendering of unsigned numbers, as the firmware prints them.

use numtoa::NumToA;
use vstd::prelude::*;

verus! {

/// The ASCII code of the decimal digit `d` (`d < 10`).
pub open spec fn digit_byte(d: nat) -> u8 {
    (48 + d) as u8
}

/// The base-10 representation of `n`, most significant digit first,
/// without leading zeros (`0` is written as the single digit `0`).
pub open spec fn decimal_bytes(n: nat) -> Seq<u8>
    decreases n,
{
    if n < 10 {
        seq![digit_byte(n)]
    } else {
        decimal_bytes(n / 10).push(digit_byte(n % 10))
    }
}

/// The same representation as characters.
pub open spec fn decimal_chars(n: nat) -> Seq<char> {
    decimal_bytes(n).map_values(|b: u8| b as char)
}

/// Every byte of a decimal representation is an ASCII digit.
pub proof fn lemma_decimal_bytes_are_digits(n: nat)
    ensures
        forall|i: int|
            0 <= i < decimal_bytes(n).len() ==> 48 <= #[trigger] decimal_bytes(n)[i] <= 57,
    decreases n,
{
    if n >= 10 {
        lemma_decimal_bytes_are_digits(n / 10);
        let prefix = decimal_bytes(n / 10);
        assert forall|i: int| 0 <= i < decimal_bytes(n).len() implies 48 <= #[trigger] decimal_bytes(
            n,
        )[i] <= 57 by {
            if i < prefix.len() {
                assert(decimal_bytes(n)[i] == prefix[i]);
            }
        }
    }
}

/// A representation has at least one digit; a number below 10 has one,
/// below 100 at most two, below 1000 at most three.
pub proof fn lemma_decimal_len(n: nat)
    ensures
        1 <= decimal_bytes(n).len(),
        n < 10 ==> decimal_bytes(n).len() == 1,
        n < 100 ==> decimal_bytes(n).len() <= 2,
        n < 1000 ==> decimal_bytes(n).len() <= 3,
    decreases n,
{
    if n >= 10 {
        lemma_decimal_len(n / 10);
    }
}

/// The number that a sequence of ASCII decimal digits denotes, most
/// significant digit first.
pub open spec fn digits_value(digits: Seq<u8>) -> int
    decreases digits.len(),
{
    if digits.len() == 0 {
        0
    } else {
        digits_value(digits.drop_last()) * 10 + (digits.last() - 48)
    }
}

/// The decimal representation of `n` denotes `n`, and it has no leading
/// zero unless `n` is 0 itself.
pub proof fn law_decimal_denotes_value(n: nat)
    ensures
        digits_value(decimal_bytes(n)) == n,
        decimal_bytes(n)[0] == 48 ==> n == 0,
    decreases n,
{
    if n >= 10 {
        law_decimal_denotes_value(n / 10);
        let prefix = decimal_bytes(n / 10);
        assert(decimal_bytes(n).drop_last() =~= prefix);
        assert((n / 10) * 10 + n % 10 == n) by (nonlinear_arith);
        lemma_decimal_len(n / 10);
        assert(decimal_bytes(n)[0] == prefix[0]);
        assert(decimal_bytes(n).last() == digit_byte(n % 10));
        assert(digit_byte(n % 10) - 48 == n % 10);
        let d = decimal_bytes(n);
        assert(digits_value(d) == digits_value(d.drop_last()) * 10 + (d.last() - 48));
        assert(digits_value(d) == (n / 10) * 10 + n % 10);
    } else {
        assert(decimal_bytes(n).drop_last() =~= Seq::<u8>::empty());
        assert(digit_byte(n) - 48 == n);
        let d = decimal_bytes(n);
        assert(digits_value(d) == digits_value(d.drop_last()) * 10 + (d.last() - 48));
        assert(digits_value(d.drop_last()) == 0);
    }
}

/// The decimal characters are ASCII digits, one per byte.
pub proof fn lemma_decimal_chars_ascii(n: nat)
    ensures
        decimal_chars(n).len() == decimal_bytes(n).len(),
        vstd::utf8::is_ascii_chars(decimal_chars(n)),
        forall|i: int|
            0 <= i < decimal_chars(n).len() ==> #[trigger] decimal_chars(n)[i] == decimal_bytes(
                n,
            )[i] as char,
{
    lemma_decimal_bytes_are_digits(n);
    assert forall|i: int| 0 <= i < decimal_chars(n).len() implies '\0' <= #[trigger] decimal_chars(
        n,
    )[i] <= '\u{7f}' by {
        let b = decimal_bytes(n)[i];
        assert(48 <= b <= 57);
        assert(decimal_chars(n)[i] == b as char);
    }
}

/// Renders `n` in base 10 with `NumToA::numtoa_str` of the numtoa crate,
/// on a 20-byte work buffer, and copies the text out.
/// Trusted: the text is the decimal representation of `n`, as numtoa
/// documents for base 10.
#[verifier::external_body]
pub(crate) fn u8_decimal_text(n: u8) -> (text: String)
    ensures
        text@ == decimal_chars(n as nat),
{
    let mut buf = [0u8; 20];
    String::from(n.numtoa_str(10, &mut buf))
}

/// Renders `n` in base 10 with `NumToA::numtoa` of the numtoa crate,
/// on a 20-byte work buffer, and copies the digits out.
/// Trusted: the bytes are the ASCII decimal representation of `n`, as
/// numtoa documents for base 10.
#[verifier::external_body]
pub(crate) fn u32_decimal_bytes(n: u32) -> (digits: Vec<u8>)
    ensures
        digits@ == decimal_bytes(n as nat),
{
    let mut buf = [0u8; 20];
    n.numtoa(10, &mut buf).to_vec()
}

} // verus!
