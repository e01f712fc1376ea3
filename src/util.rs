use vstd::prelude::*;

verus! {

/// The number of smallest units in one whole token.
pub open spec fn yocto() -> int {
    1_000_000_000_000_000_000_000_000
}

/// `x` smallest units counted in whole tokens, rounded down.
pub open spec fn dec(x: int) -> int {
    x / yocto()
}

pub fn get_yocto() -> (r: u128)
    ensures
        r == yocto(),
{
    1_000_000_000_000_000_000_000_000
}

/// Converts whole tokens to smallest units.
pub fn to_yocto(num: u128) -> (r: u128)
    requires
        num * yocto() <= u128::MAX,
    ensures
        r == num * yocto(),
{
    num * get_yocto()
}

/// Converts smallest units to whole tokens, rounding down.
pub fn to_dec(num: u128) -> (r: u128)
    ensures
        r == dec(num as int),
{
    num / get_yocto()
}

/// A whole-token count is at most `u128::MAX / 10^24`, so converting it back to
/// smallest units cannot overflow and the product of two such counts fits too.
pub proof fn lemma_dec_bounds(x: u128)
    ensures
        0 <= dec(x as int) <= 340_282_366_920_938,
        dec(x as int) * yocto() <= x,
{
}

} // verus!
