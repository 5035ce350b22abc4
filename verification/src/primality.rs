//! Primality of 64-bit unsigned integers by trial division.

use vstd::prelude::*;

verus! {

/// `d` divides `x` evenly. Meant for a positive `d`.
pub open spec fn divides(d: int, x: int) -> bool {
    x % d == 0
}

/// `x` is a prime number: it exceeds 1 and nothing strictly between 1 and
/// `x` divides it.
pub open spec fn prime(x: int) -> bool {
    x > 1 && forall|d: int| 1 < d < x ==> !#[trigger] divides(d, x)
}

/// No `d` with `2 <= d` and `d * d <= x` divides `x`: trial division up to
/// the square root finds nothing.
pub open spec fn no_factor_up_to_root(x: int) -> bool {
    forall|d: int| 2 <= d && d * d <= x ==> !#[trigger] divides(d, x)
}

/// `f` is the least divisor of `x` that is at least 2.
pub open spec fn least_factor(x: int, f: int) -> bool {
    &&& 2 <= f
    &&& divides(f, x)
    &&& forall|d: int| 2 <= d < f ==> !#[trigger] divides(d, x)
}

/// A proper divisor `d` of `x` comes with a cofactor `x / d` that is a
/// divisor too, and at least 2.
proof fn lemma_cofactor(x: int, d: int)
    requires
        0 < d < x,
        divides(d, x),
    ensures
        (x / d) * d == x,
        2 <= x / d,
        divides(x / d, x),
{
    let k = x / d;
    assert(k * d == x && k >= 2 && x % k == 0) by (nonlinear_arith)
        requires
            0 < d < x,
            x % d == 0,
            k == x / d,
    ;
}

/// An odd number has no even divisor.
proof fn lemma_odd_has_odd_divisors(x: int, d: int)
    requires
        0 < d,
        x % 2 == 1,
        d % 2 == 0,
    ensures
        !divides(d, x),
{
    if divides(d, x) {
        let k = x / d;
        let j = d / 2;
        assert(x == (j * k) * 2) by (nonlinear_arith)
            requires
                0 < d,
                x % d == 0,
                d % 2 == 0,
                k == x / d,
                j == d / 2,
        ;
        assert(x % 2 == 0) by (nonlinear_arith)
            requires
                x == (j * k) * 2,
        ;
    }
}

/// Once every candidate below `n` has failed and `n` lies beyond the square
/// root of `x`, no candidate below `x` can succeed: a divisor at `n` or above
/// would have a cofactor below `n`.
proof fn lemma_search_is_complete(x: int, n: int)
    requires
        2 <= n,
        x / n < n,
        forall|d: int| 2 <= d < n ==> !#[trigger] divides(d, x),
    ensures
        forall|d: int| 2 <= d < x ==> !#[trigger] divides(d, x),
{
    assert forall|d: int| 2 <= d < x implies !#[trigger] divides(d, x) by {
        if n <= d && divides(d, x) {
            lemma_cofactor(x, d);
            let k = x / d;
            assert(k <= x / n) by (nonlinear_arith)
                requires
                    2 <= n <= d,
                    0 < x,
                    k == x / d,
            ;
            assert(!divides(k, x));
        }
    }
}

/// For `x` above 1, being prime is the same as having no divisor `d` with
/// `2 <= d` and `d * d <= x`.
pub proof fn lemma_prime_iff_no_factor_up_to_root(x: int)
    requires
        x > 1,
    ensures
        prime(x) <==> no_factor_up_to_root(x),
{
    if prime(x) {
        assert forall|d: int| 2 <= d && d * d <= x implies !#[trigger] divides(d, x) by {
            assert(d < x) by (nonlinear_arith)
                requires
                    2 <= d,
                    d * d <= x,
            ;
        }
    }
    if no_factor_up_to_root(x) {
        assert forall|d: int| 1 < d < x implies !#[trigger] divides(d, x) by {
            if divides(d, x) {
                if d * d <= x {
                } else {
                    lemma_cofactor(x, d);
                    let k = x / d;
                    assert(k * k <= x) by (nonlinear_arith)
                        requires
                            k * d == x,
                            d * d > x,
                            2 <= k,
                            0 < d,
                    ;
                    assert(!divides(k, x));
                }
            }
        }
    }
}

/// Nothing below 2 is prime.
pub proof fn lemma_small_numbers_are_not_prime(x: int)
    requires
        x <= 1,
    ensures
        !prime(x),
{
}

/// Finds the least divisor of `x` that is at least 2, by trial division:
/// first 2, then the odd candidates in increasing order up to the square
/// root of `x`. A number that none of them divides is its own least divisor.
/// For 1, which has no divisor of that size, the result is 1.
pub fn find_factor(x: u64) -> (f: u64)
    ensures
        x == 1 ==> f == 1,
        x != 1 ==> least_factor(x as int, f as int),
{
    if x % 2 == 0 {
        return 2;
    }
    let mut n: u64 = 3;
    while n <= x / n
        invariant
            x % 2 == 1,
            3 <= n <= 0x1_0000_0001,
            n % 2 == 1,
            forall|d: int| 2 <= d < n ==> !#[trigger] divides(d, x as int),
        decreases x - n,
    {
        assert(n * n <= x && n < 0x1_0000_0000 && n + 2 <= x) by (nonlinear_arith)
            requires
                3 <= n <= x / n,
                x <= u64::MAX,
        ;
        if x % n == 0 {
            return n;
        }
        proof {
            lemma_odd_has_odd_divisors(x as int, n + 1);
        }
        n = n + 2;
    }
    proof {
        if x != 1 {
            lemma_search_is_complete(x as int, n as int);
            assert(divides(x as int, x as int)) by (nonlinear_arith)
                requires
                    x > 0,
            ;
        }
    }
    x
}

/// Whether `x` is prime. Total over `u64`: 0 and 1 are not prime.
pub fn is_prime(x: u64) -> (r: bool)
    ensures
        r == prime(x as int),
        x <= 1 ==> !r,
        x > 1 ==> (r <==> no_factor_up_to_root(x as int)),
{
    if x <= 1 {
        return false;
    }
    proof {
        lemma_prime_iff_no_factor_up_to_root(x as int);
    }
    let f = find_factor(x);
    proof {
        if f != x {
            assert(f < x) by (nonlinear_arith)
                requires
                    x % f == 0,
                    2 <= f,
                    1 < x,
                    f != x,
            ;
        }
    }
    f == x
}

} // verus!
