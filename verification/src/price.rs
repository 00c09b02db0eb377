use vstd::prelude::*;

use crate::types::Currency;

verus! {

/// Fixed-point scale of the exchange rate: a rate of 10_000_000 means one
/// native unit is worth exactly one stable unit.
pub const RATE_SCALE: i128 = 10_000_000;

/// Minimum increment over the current highest bid, in basis points (5%).
pub const MIN_INCREMENT_BPS: i128 = 500;

/// Denominator of a basis-point fraction.
pub const BPS_DENOM: i128 = 10_000;

/// The common-unit value of `amount` in `currency` under exchange rate
/// `rate`: stable amounts are already in the common unit, native amounts are
/// scaled by the fixed-point rate with truncating division.
pub open spec fn spec_normalize(amount: int, currency: Currency, rate: int) -> int {
    match currency {
        Currency::Usdc => amount,
        Currency::Xlm => (amount * rate) / (RATE_SCALE as int),
    }
}

/// Whether normalizing stays within the amount type: the intermediate
/// product of a native conversion must fit in `i128`. Amounts and rates are
/// non-negative, so only the upper bound can be crossed.
pub open spec fn normalize_fits(amount: int, currency: Currency, rate: int) -> bool {
    match currency {
        Currency::Usdc => true,
        Currency::Xlm => amount * rate <= i128::MAX,
    }
}

/// The least acceptable next bid over a normalized highest bid `n`: `n` plus
/// 5% of `n`, computed in truncating integer arithmetic.
pub open spec fn spec_min_next_bid(n: int) -> int {
    n + (n * MIN_INCREMENT_BPS) / (BPS_DENOM as int)
}

/// Whether the minimum-increment computation over a normalized highest bid
/// `n` stays within the amount type: both the basis-point product and the
/// final sum must fit in `i128`.
pub open spec fn increment_fits(n: int) -> bool {
    &&& n * MIN_INCREMENT_BPS <= i128::MAX
    &&& spec_min_next_bid(n) <= i128::MAX
}

/// Normalization law: for every rate, a stable amount is returned unchanged,
/// and a native amount is `amount * rate / 10_000_000` with integer
/// truncation.
pub proof fn lemma_normalize(amount: int, rate: int)
    ensures
        spec_normalize(amount, Currency::Usdc, rate) == amount,
        spec_normalize(amount, Currency::Xlm, rate) == (amount * rate) / 10_000_000,
{
}

} // verus!
