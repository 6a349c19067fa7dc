//! Fixed-point amounts. Prices, sizes and volumes are whole numbers of
//! millionths, share counts of a trade are whole numbers of hundredths, so
//! that every rule of the library is decided by integer arithmetic.

use vstd::prelude::*;

verus! {

/// A price of 1.0, that is certainty, in millionths.
pub const PRICE_SCALE: u64 = 1_000_000;

/// Millionths of a share in one hundredth of a share.
pub const SIZE_PER_HUNDREDTH: u64 = 10_000;

/// A size in millionths, rounded to the nearest hundredth; a size halfway
/// between two hundredths goes up.
pub open spec fn hundredths_of(size: nat) -> nat {
    (size + 5_000) / 10_000
}

/// Rounds a size in millionths of a share to hundredths of a share.
pub fn round_to_hundredths(size: u64) -> (r: u64)
    ensures
        r == hundredths_of(size as nat),
{
    let whole: u64 = size / SIZE_PER_HUNDREDTH;
    let rest: u64 = size % SIZE_PER_HUNDREDTH;
    if rest >= SIZE_PER_HUNDREDTH / 2 {
        whole + 1
    } else {
        whole
    }
}

/// The rounded size differs from the exact one by at most half a hundredth.
pub proof fn lemma_hundredths_are_nearest(size: nat)
    ensures
        hundredths_of(size) * 10_000 <= size + 5_000,
        size < hundredths_of(size) * 10_000 + 5_000,
{
}

/// The value of a trade: the price in millionths times the shares in
/// hundredths, a whole number of hundred-millionths.
pub open spec fn value_of(price: nat, shares: nat) -> nat {
    price * shares
}

/// Multiplies a price by a number of shares: see `value_of`.
pub fn trade_value(price: u64, shares: u64) -> (r: u128)
    ensures
        r == value_of(price as nat, shares as nat),
{
    assert(price as nat * shares as nat <= u128::MAX) by (nonlinear_arith)
        requires
            price <= u64::MAX,
            shares <= u64::MAX,
    ;
    (price as u128) * (shares as u128)
}

} // verus!
