//! Machine integer division as Rust computes it, stated over `int`.
use vstd::prelude::*;

verus! {

/// Quotient of `a / b` rounded toward zero, as Rust's `/` on signed integers.
pub open spec fn trunc_div(a: int, b: int) -> int {
    if a >= 0 {
        a / b
    } else {
        -((-a) / b)
    }
}

/// Remainder of `a % b` with the sign of `a`, as Rust's `%` on signed integers.
pub open spec fn trunc_rem(a: int, b: int) -> int {
    if a >= 0 {
        a % b
    } else {
        -((-a) % b)
    }
}

/// Truncating division: the quotient times the divisor plus the remainder
/// gives back the dividend, the remainder is smaller than the divisor in
/// size, and it is never of the opposite sign to the dividend.
pub proof fn lemma_trunc_div_rem(a: int, b: int)
    requires
        b != 0,
    ensures
        a == b * trunc_div(a, b) + trunc_rem(a, b),
        a >= 0 ==> 0 <= trunc_rem(a, b) < if b > 0 {
            b
        } else {
            -b
        },
        a < 0 ==> 0 <= -trunc_rem(a, b) < if b > 0 {
            b
        } else {
            -b
        },
{
    if a >= 0 {
        vstd::arithmetic::div_mod::lemma_fundamental_div_mod(a, b);
    } else {
        let x = -a;
        vstd::arithmetic::div_mod::lemma_fundamental_div_mod(x, b);
        let q = x / b;
        let r = x % b;
        assert(b * (-q) == -(b * q)) by (nonlinear_arith);
    }
}

} // verus!
