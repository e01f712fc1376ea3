use vstd::prelude::*;

verus! {

/// `r` is the square root of `n` rounded down.
pub open spec fn is_floor_sqrt(n: int, r: int) -> bool {
    0 <= r && r * r <= n < (r + 1) * (r + 1)
}

/// The square root of `n` rounded down.
pub open spec fn floor_sqrt(n: int) -> int {
    choose|r: int| #[trigger] is_floor_sqrt(n, r)
}

proof fn lemma_square_le(a: int, b: int)
    requires
        0 <= a <= b,
    ensures
        a * a <= b * b,
{
    assert(a * a <= b * b) by (nonlinear_arith)
        requires
            0 <= a <= b,
    ;
}

/// There is only one rounded-down square root.
pub proof fn lemma_floor_sqrt_unique(n: int, r: int)
    requires
        is_floor_sqrt(n, r),
    ensures
        floor_sqrt(n) == r,
{
    let s = floor_sqrt(n);
    assert(is_floor_sqrt(n, s));
    if s < r {
        lemma_square_le(s + 1, r);
    } else if r < s {
        lemma_square_le(r + 1, s);
    }
}

/// Relies on num_integer::Roots::sqrt for u128, documented to return `r` with
/// `r² ≤ n < (r+1)²`.
#[verifier::external_body]
fn sqrt_floor(n: u128) -> (r: u128)
    ensures
        is_floor_sqrt(n as int, r as int),
{
    num_integer::Roots::sqrt(&n)
}

/// The square root of `n`, rounded down.
pub fn isqrt(n: u128) -> (r: u128)
    ensures
        r == floor_sqrt(n as int),
        r * r <= n,
{
    let r = sqrt_floor(n);
    proof {
        lemma_floor_sqrt_unique(n as int, r as int);
    }
    r
}

/// 2^64, the base of the halves that a 128-bit word is cut into.
pub open spec fn half() -> int {
    0x1_0000_0000_0000_0000
}

/// 2^128.
pub open spec fn word() -> int {
    half() * half()
}

/// The full 256-bit product of two words, as a high and a low word.
pub fn mul_wide(a: u128, b: u128) -> (r: (u128, u128))
    ensures
        r.0 * word() + r.1 == a * b,
{
    let a1 = a / 0x1_0000_0000_0000_0000;
    let a0 = a % 0x1_0000_0000_0000_0000;
    let b1 = b / 0x1_0000_0000_0000_0000;
    let b0 = b % 0x1_0000_0000_0000_0000;
    assert(a1 < half() && b1 < half());
    assert(a0 * b0 < word() && a0 * b1 < word() && a1 * b0 < word() && a1 * b1 < word())
        by (nonlinear_arith)
        requires
            0 <= a0 < half(),
            0 <= a1 < half(),
            0 <= b0 < half(),
            0 <= b1 < half(),
    ;
    let p00 = a0 * b0;
    let p01 = a0 * b1;
    let p10 = a1 * b0;
    let p11 = a1 * b1;
    let mid = p00 / 0x1_0000_0000_0000_0000 + p01 % 0x1_0000_0000_0000_0000 + p10
        % 0x1_0000_0000_0000_0000;
    let lo = (mid % 0x1_0000_0000_0000_0000) * 0x1_0000_0000_0000_0000 + p00
        % 0x1_0000_0000_0000_0000;
    let ghost (ai, bi, a0i, a1i, b0i, b1i) = (a as int, b as int, a0 as int, a1 as int, b0 as int, b1 as int);
    let ghost (q00, q01, q10, q11, m, l) = (p00 as int, p01 as int, p10 as int, p11 as int, mid as int, lo as int);
    let ghost hi_int: int = q11 + q01 / half() + q10 / half() + m / half();
    assert(ai * bi == hi_int * word() + l) by (nonlinear_arith)
        requires
            ai == a1i * half() + a0i,
            bi == b1i * half() + b0i,
            q00 == a0i * b0i,
            q01 == a0i * b1i,
            q10 == a1i * b0i,
            q11 == a1i * b1i,
            q00 == (q00 / half()) * half() + q00 % half(),
            q01 == (q01 / half()) * half() + q01 % half(),
            q10 == (q10 / half()) * half() + q10 % half(),
            m == q00 / half() + q01 % half() + q10 % half(),
            m == (m / half()) * half() + m % half(),
            l == (m % half()) * half() + q00 % half(),
            hi_int == q11 + q01 / half() + q10 / half() + m / half(),
            word() == half() * half(),
    ;
    assert(ai * bi < word() * word()) by (nonlinear_arith)
        requires
            0 <= ai < word(),
            0 <= bi < word(),
    ;
    assert(hi_int < word());
    let hi = p11 + p01 / 0x1_0000_0000_0000_0000 + p10 / 0x1_0000_0000_0000_0000 + mid
        / 0x1_0000_0000_0000_0000;
    (hi, lo)
}

/// Whether `a * b == c * d`, decided exactly for any four words.
pub fn products_equal(a: u128, b: u128, c: u128, d: u128) -> (r: bool)
    ensures
        r == (a * b == c * d),
{
    let (h1, l1) = mul_wide(a, b);
    let (h2, l2) = mul_wide(c, d);
    proof {
        if h1 != h2 {
            if h1 < h2 {
                assert(h1 * word() + word() <= h2 * word()) by (nonlinear_arith)
                    requires
                        h1 < h2,
                ;
            } else {
                assert(h2 * word() + word() <= h1 * word()) by (nonlinear_arith)
                    requires
                        h2 < h1,
                ;
            }
        }
    }
    h1 == h2 && l1 == l2
}

} // verus!
