//! What holds of numbers that are written out.

use vstd::prelude::*;

verus! {

/// A number is written out in decimal digits: dropping the last digit leaves the number divided by
/// ten, the last digit is the remainder, and a number below ten is one digit.
pub proof fn law_decimal_digits(n: nat)
    ensures
        crate::id::decimal(n).len() >= 1,
        48 <= crate::id::decimal(n).last() as u32 <= 57,
        crate::id::decimal(n).last() as u32 == 48 + n % 10,
        n < 10 <==> crate::id::decimal(n).len() == 1,
        n >= 10 ==> crate::id::decimal(n).drop_last() == crate::id::decimal(n / 10),
    decreases n,
{
    if n >= 10 {
        law_decimal_digits(n / 10);
        assert(crate::id::decimal(n).drop_last() =~= crate::id::decimal(n / 10));
    }
}

/// Different numbers are written out differently, so that nodes that were given no name have
/// different names.
pub proof fn law_decimal_is_injective(a: nat, b: nat)
    requires
        crate::id::decimal(a) == crate::id::decimal(b),
    ensures
        a == b,
    decreases a,
{
    law_decimal_digits(a);
    law_decimal_digits(b);
    if a >= 10 && b >= 10 {
        law_decimal_is_injective(a / 10, b / 10);
    }
}

} // verus!
