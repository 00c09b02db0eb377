use shimeji_auction::auction::ShimejiAuction;
use shimeji_auction::errors::Error;
use shimeji_auction::types::Currency;

#[test]
fn stable_amounts_pass_through_unchanged() {
    // Whatever the rate, a stable amount is already in the common unit.
    assert_eq!(
        ShimejiAuction::normalize_to_usdc(50_0000000, &Currency::Usdc, 1),
        Ok(50_0000000)
    );
    assert_eq!(
        ShimejiAuction::normalize_to_usdc(0, &Currency::Usdc, 123_456_789),
        Ok(0)
    );
    assert_eq!(
        ShimejiAuction::normalize_to_usdc(i128::MAX, &Currency::Usdc, i128::MAX),
        Ok(i128::MAX)
    );
}

#[test]
fn native_amounts_scale_by_the_rate() {
    // 500 XLM at rate 1_000_000 ($0.10) is worth exactly 50 USDC.
    assert_eq!(
        ShimejiAuction::normalize_to_usdc(500_0000000, &Currency::Xlm, 1_000_000),
        Ok(50_0000000)
    );
    // Truncating division: 3 * 3_333_333 / 10_000_000 == 0.
    assert_eq!(
        ShimejiAuction::normalize_to_usdc(3, &Currency::Xlm, 3_333_333),
        Ok(0)
    );
    // A 1:1 rate leaves the amount unchanged.
    assert_eq!(
        ShimejiAuction::normalize_to_usdc(77, &Currency::Xlm, 10_000_000),
        Ok(77)
    );
}

#[test]
fn native_conversion_overflow_is_reported() {
    assert_eq!(
        ShimejiAuction::normalize_to_usdc(i128::MAX, &Currency::Xlm, 2),
        Err(Error::NumericOverflow)
    );
    assert_eq!(
        ShimejiAuction::normalize_to_usdc(i128::MAX / 2 + 1, &Currency::Xlm, 2),
        Err(Error::NumericOverflow)
    );
    // The largest product that still fits goes through.
    assert_eq!(
        ShimejiAuction::normalize_to_usdc(i128::MAX / 2, &Currency::Xlm, 2),
        Ok(i128::MAX / 2 * 2 / 10_000_000)
    );
}
