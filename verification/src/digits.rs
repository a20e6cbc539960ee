//! Decimal rendering of bottle counts.

use vstd::prelude::*;
use vstd::string::StringExecFns;
use crate::text::push_char;

verus! {

/// The character for a single decimal digit.
pub open spec fn digit_char(d: int) -> char {
    (d + 48) as char
}

/// The decimal digits of a non-negative integer, most significant first.
pub open spec fn dec_digits(n: int) -> Seq<char>
    decreases n,
{
    if n < 10 {
        seq![digit_char(n)]
    } else {
        dec_digits(n / 10) + seq![digit_char(n % 10)]
    }
}

/// The decimal rendering of an integer: its digits, with a leading minus
/// sign when it is negative.
pub open spec fn int_rep(n: int) -> Seq<char> {
    if n < 0 {
        "-"@ + dec_digits(-n)
    } else {
        dec_digits(n)
    }
}

/// The digits of a non-negative integer are at least one character, and the
/// leading one is a decimal digit.
pub proof fn lemma_dec_digits_shape(n: int)
    requires
        n >= 0,
    ensures
        dec_digits(n).len() >= 1,
        '0' <= dec_digits(n)[0] <= '9',
    decreases n,
{
    if n >= 10 {
        lemma_dec_digits_shape(n / 10);
    }
}

/// The digits of a non-negative integer, as a string.
fn u32_to_decimal(n: u32) -> (r: String)
    ensures
        r@ == dec_digits(n as int),
    decreases n,
{
    if n < 10 {
        let mut r = String::new();
        push_char(&mut r, ((n as u8) + 48) as char);
        proof {
            assert(r@ =~= dec_digits(n as int));
        }
        r
    } else {
        let mut r = u32_to_decimal(n / 10);
        push_char(&mut r, (((n % 10) as u8) + 48) as char);
        proof {
            assert(r@ =~= dec_digits(n as int));
        }
        r
    }
}

/// The decimal rendering of a count, sign included.
pub(crate) fn i32_to_decimal(n: i32) -> (r: String)
    ensures
        r@ == int_rep(n as int),
{
    if n >= 0 {
        u32_to_decimal(n as u32)
    } else {
        let magnitude: u32 = (-(n as i64)) as u32;
        let mut r = "-".to_owned();
        let digits = u32_to_decimal(magnitude);
        r.append(digits.as_str());
        r
    }
}

} // verus!
