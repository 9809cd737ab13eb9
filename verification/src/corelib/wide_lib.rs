use vstd::prelude::*;
use vstd::arithmetic::div_mod::{lemma_fundamental_div_mod_converse, lemma_div_is_ordered, lemma_div_multiples_vanish};

verus! {

/// The quotient `a * b / c` over the mathematical integers, rounded down.
pub open spec fn spec_mul_div(a: int, b: int, c: int) -> int {
    (a * b) / c
}

/// Whatever multiple of a positive `c` stays below `t`, its factor stays below `t / c`.
proof fn lemma_factor_below_quotient(x: int, c: int, t: int)
    requires
        c > 0,
        0 <= x,
        x * c <= t,
    ensures
        x <= t / c,
{
    lemma_div_is_ordered(x * c, t, c);
    lemma_div_multiples_vanish(x, c);
    assert(x * c == c * x) by (nonlinear_arith);
}

/// Multiplies `a` by `b` and divides by `c`, rounding down, without losing the
/// high half of the product: the result is exact whenever it fits in 128 bits.
pub fn _checked_mul_div(a: u128, b: u128, c: u128) -> (r: Option<u128>)
    ensures
        c == 0 ==> r is None,
        c > 0 ==> match r {
            Some(q) => q == spec_mul_div(a as int, b as int, c as int),
            None => spec_mul_div(a as int, b as int, c as int) > u128::MAX,
        },
{
    if c == 0 {
        return None;
    }
    let ghost total: int = a as int * b as int;
    // The sum of the terms of the low bits of `b` that were taken so far.
    let mut acc_q: u128 = 0;
    let mut acc_r: u128 = 0;
    // `a` times the weight of the lowest bit of `rest`.
    let mut cur_q: u128 = a / c;
    let mut cur_r: u128 = a % c;
    let mut rest: u128 = b;
    assert(total == (acc_q * c + acc_r) + (cur_q * c + cur_r) * rest) by (nonlinear_arith)
        requires
            total == a as int * b as int,
            acc_q == 0,
            acc_r == 0,
            cur_q == a / c,
            cur_r == a % c,
            c > 0,
            rest == b,
    ;
    while rest > 0
        invariant
            c > 0,
            total == a as int * b as int,
            total == (acc_q * c + acc_r) + (cur_q * c + cur_r) * rest,
            acc_r < c,
            cur_r < c,
        decreases rest,
    {
        let ghost half: int = rest as int / 2;
        if rest % 2 == 1 {
            assert(total == (acc_q * c + acc_r) + (cur_q * c + cur_r) + (cur_q * c + cur_r) * (2
                * half)) by (nonlinear_arith)
                requires
                    total == (acc_q * c + acc_r) + (cur_q * c + cur_r) * rest,
                    rest == 2 * half + 1,
            ;
            assert((acc_q + cur_q) * c == acc_q * c + cur_q * c) by (nonlinear_arith);
            assert((cur_q * c + cur_r) * (2 * half) >= 0) by (nonlinear_arith)
                requires
                    half >= 0,
                    c > 0,
            ;
            let carry: u128 = if acc_r >= c - cur_r {
                1
            } else {
                0
            };
            assert((acc_q + cur_q + carry) * c == acc_q * c + cur_q * c + carry * c)
                by (nonlinear_arith);
            assert((acc_q + cur_q + carry) * c <= total);
            proof {
                lemma_factor_below_quotient((acc_q + cur_q + carry) as int, c as int, total);
            }
            if cur_q > u128::MAX - acc_q || (carry == 1 && cur_q + acc_q == u128::MAX) {
                return None;
            }
            if carry == 1 {
                acc_r = acc_r - (c - cur_r);
            } else {
                acc_r = acc_r + cur_r;
            }
            acc_q = acc_q + cur_q + carry;
        }
        rest = rest / 2;
        assert(total == (acc_q * c + acc_r) + (cur_q * c + cur_r) * (2 * rest)) ;
        if rest > 0 {
            let carry: u128 = if cur_r >= c - cur_r {
                1
            } else {
                0
            };
            assert((cur_q * c + cur_r) * (2 * rest) == ((2 * cur_q + carry) * c + (2 * cur_r
                - carry * c)) * rest) by (nonlinear_arith);
            assert((2 * cur_q + carry) * c <= ((2 * cur_q + carry) * c + (2 * cur_r - carry
                * c)) * rest) by (nonlinear_arith)
                requires
                    rest >= 1,
                    c > 0,
                    2 * cur_r - carry * c >= 0,
            ;
            assert(acc_q * c >= 0) by (nonlinear_arith);
            proof {
                lemma_factor_below_quotient((2 * cur_q + carry) as int, c as int, total);
            }
            if cur_q > (u128::MAX - carry) / 2 {
                return None;
            }
            if carry == 1 {
                cur_r = cur_r - (c - cur_r);
            } else {
                cur_r = cur_r + cur_r;
            }
            cur_q = 2 * cur_q + carry;
        }
    }
    proof {
        assert((cur_q * c + cur_r) * rest == 0) by (nonlinear_arith)
            requires
                rest == 0,
        ;
        lemma_fundamental_div_mod_converse(total, c as int, acc_q as int, acc_r as int);
    }
    Some(acc_q)
}

} // verus!
