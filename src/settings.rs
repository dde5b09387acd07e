//! Checks and sizes derived from the run's parameters.
use vstd::prelude::*;
use crate::address::valid_resolution;

verus! {

/// Whether a cube of edge `res` can be held and addressed.
pub fn is_valid_resolution(res: u32) -> (r: bool)
    ensures
        r == valid_resolution(res),
{
    if res == 0 {
        return false;
    }
    assert(res * res <= 0xffff_ffff * 0xffff_ffff) by (nonlinear_arith)
        requires
            res <= 0xffff_ffff,
    ;
    let count: u128 = 6 * ((res as u128) * (res as u128));
    assert(count == 6 * res * res) by (nonlinear_arith)
        requires
            count == 6 * (res * res),
    ;
    count <= usize::MAX as u128
}

/// Size in MiB of the uncompressed output: `6 * res^2` pixels of two
/// two-byte channels, rounded down.
pub fn uncompressed_mib(res: u32) -> (r: u64)
    ensures
        r == (res * res * 24) as int / 1048576int,
{
    assert(res * res <= 0xffff_ffff * 0xffff_ffff) by (nonlinear_arith)
        requires
            res <= 0xffff_ffff,
    ;
    proof {
        vstd::arithmetic::div_mod::lemma_div_is_ordered(
            (res * res * 24) as int,
            (0xffff_ffff * 0xffff_ffff * 24) as int,
            1048576,
        );
        assert(0xffff_ffff * 0xffff_ffff * 24 / 1048576 <= u64::MAX);
    }
    let bytes: u128 = ((res as u128) * (res as u128)) * 24;
    (bytes / 1048576) as u64
}

/// The number of stars for a count given in thousands; `None` where it does
/// not fit in a `usize`.
pub fn stars_from_thousands(thousands: usize) -> (r: Option<usize>)
    ensures
        thousands * 1000 <= usize::MAX ==> r == Some((thousands * 1000) as usize),
        thousands * 1000 > usize::MAX ==> r is None,
{
    thousands.checked_mul(1000)
}

} // verus!
