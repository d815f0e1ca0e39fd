//! Integer square root and primality by trial division.
use vstd::prelude::*;

verus! {

/// `r` is the integer square root of the non-negative `n`.
pub open spec fn is_floor_sqrt(n: int, r: int) -> bool {
    0 <= r && r * r <= n < (r + 1) * (r + 1)
}

/// `n` is a prime number: at least 2 and without a divisor strictly between 1 and itself.
pub open spec fn is_prime_spec(n: int) -> bool {
    &&& n >= 2
    &&& forall|d: int| 2 <= d < n ==> #[trigger] (n % d) != 0
}

/// Integer square root, rounded down; negative inputs give 0.
pub fn sqrt(number: i32) -> (r: i32)
    ensures
        number < 0 ==> r == 0,
        number >= 0 ==> is_floor_sqrt(number as int, r as int),
        0 <= r <= 46340,
{
    if number < 0 {
        return 0;
    }
    let mut r: i32 = 0;
    loop
        invariant
            0 <= r <= 46340,
            (r as int) * (r as int) <= number,
            number >= 0,
        ensures
            is_floor_sqrt(number as int, r as int),
            0 <= r <= 46340,
        decreases 46340 - r,
    {
        let next: i64 = r as i64 + 1;
        assert(next * next <= 46341 * 46341) by (nonlinear_arith)
            requires
                0 <= next <= 46341,
        ;
        if next * next > number as i64 {
            break;
        }
        // 46341 squared exceeds i32::MAX, so a root below the bound is never passed
        if next > 46340 {
            assert(next * next >= 46341 * 46341) by (nonlinear_arith)
                requires
                    next >= 46341,
            ;
        }
        r = r + 1;
    }
    r
}

/// A number with a proper divisor has one no larger than its integer square root.
proof fn lemma_small_divisor(n: int, s: int, d: int) -> (e: int)
    requires
        is_floor_sqrt(n, s),
        2 <= d < n,
        n % d == 0,
    ensures
        2 <= e <= s,
        n % e == 0,
{
    if d <= s {
        d
    } else {
        let e = n / d;
        vstd::arithmetic::div_mod::lemma_fundamental_div_mod(n, d);
        assert(n == d * e);
        assert(e >= 2) by (nonlinear_arith)
            requires
                n == d * e,
                2 <= d < n,
        ;
        assert(e <= s) by (nonlinear_arith)
            requires
                n == d * e,
                d >= s + 1,
                n < (s + 1) * (s + 1),
                s >= 0,
                e >= 2,
        ;
        vstd::arithmetic::div_mod::lemma_mod_multiples_basic(d, e);
        assert(n % e == 0) by (nonlinear_arith)
            requires
                n == d * e,
                e >= 2,
        ;
        e
    }
}

/// Whether `number` is prime, by trial division up to its integer square root.
pub fn is_prime(number: i32) -> (r: bool)
    ensures
        r == is_prime_spec(number as int),
{
    if number < 2 {
        return false;
    }
    if number == 2 {
        return true;
    }
    let end: i32 = sqrt(number) + 1;
    assert(end >= 2) by (nonlinear_arith)
        requires
            number > 2,
            (end - 1) * (end - 1) <= number < end * end,
            end >= 1,
    ;
    let mut i: i32 = 2;
    while i < end
        invariant
            2 <= i,
            i <= end,
            number > 2,
            is_floor_sqrt(number as int, end - 1),
            forall|d: int| 2 <= d < i ==> #[trigger] (number as int % d) != 0,
        decreases end - i,
    {
        if number % i == 0 {
            assert(i < number) by (nonlinear_arith)
                requires
                    i <= end - 1,
                    (end - 1) * (end - 1) <= number,
                    number > 2,
                    i >= 2,
            ;
            return false;
        }
        i = i + 1;
    }
    assert forall|d: int| 2 <= d < number implies #[trigger] (number as int % d) != 0 by {
        if number as int % d == 0 {
            let e = lemma_small_divisor(number as int, end - 1, d);
            assert(number as int % e != 0);
        }
    }
    true
}

} // verus!
