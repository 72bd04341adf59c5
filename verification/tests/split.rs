use x402_facilitator::{
    split_payment, ErrorCode, Split, BPS_DENOMINATOR, MAX_FEE_BPS, MAX_TITHE_BPS,
};

#[test]
fn split_of_a_million_at_ten_percent_tithe() {
    assert_eq!(
        split_payment(1_000_000, 1000, 250),
        Ok(Split { seller_amount: 875_000, tithe_amount: 100_000, fee_amount: 25_000 })
    );
}

#[test]
fn split_of_seven_rounds_tithe_and_fee_down_to_zero() {
    assert_eq!(
        split_payment(7, 1000, 0),
        Ok(Split { seller_amount: 7, tithe_amount: 0, fee_amount: 0 })
    );
    assert_eq!(
        split_payment(7, 2000, 500),
        Ok(Split { seller_amount: 6, tithe_amount: 1, fee_amount: 0 })
    );
}

#[test]
fn split_rounds_each_share_down() {
    // 12345 * 2000 / 10000 = 2469, 12345 * 500 / 10000 = 617.25
    assert_eq!(
        split_payment(12_345, 2000, 500),
        Ok(Split { seller_amount: 9_259, tithe_amount: 2_469, fee_amount: 617 })
    );
    // 9999 * 1 / 10000 is below one unit
    assert_eq!(
        split_payment(9_999, 1, 1),
        Ok(Split { seller_amount: 9_999, tithe_amount: 0, fee_amount: 0 })
    );
    assert_eq!(
        split_payment(10_000, 1, 1),
        Ok(Split { seller_amount: 9_998, tithe_amount: 1, fee_amount: 1 })
    );
}

#[test]
fn split_at_zero_rates_gives_all_to_the_seller() {
    assert_eq!(
        split_payment(u64::MAX, 0, 0),
        Ok(Split { seller_amount: u64::MAX, tithe_amount: 0, fee_amount: 0 })
    );
}

#[test]
fn split_of_zero_is_zero() {
    assert_eq!(
        split_payment(0, 1000, 250),
        Ok(Split { seller_amount: 0, tithe_amount: 0, fee_amount: 0 })
    );
}

#[test]
fn split_parts_add_up_to_the_amount() {
    let amounts: [u64; 8] = [1, 2, 3, 7, 99, 10_001, 123_456_789, 9_223_372_036_854_775];
    let rates: [(u64, u64); 5] = [(0, 0), (1, 1), (1000, 250), (1999, 499), (2000, 500)];
    for amount in amounts {
        for (tithe_bps, fee_bps) in rates {
            let split = split_payment(amount, tithe_bps, fee_bps).unwrap();
            assert_eq!(split.tithe_amount, amount * tithe_bps / 10_000);
            assert_eq!(split.fee_amount, amount * fee_bps / 10_000);
            assert_eq!(split.seller_amount + split.tithe_amount + split.fee_amount, amount);
            assert!(split.tithe_amount + split.fee_amount <= amount);
        }
    }
}

#[test]
fn split_of_the_largest_amount_overflows() {
    assert_eq!(split_payment(u64::MAX, 1000, 250), Err(ErrorCode::MathOverflow));
    assert_eq!(split_payment(u64::MAX, 1, 0), Ok(Split {
        seller_amount: u64::MAX - u64::MAX / 10_000,
        tithe_amount: u64::MAX / 10_000,
        fee_amount: 0,
    }));
    assert_eq!(split_payment(u64::MAX, 2, 0), Err(ErrorCode::MathOverflow));
    assert_eq!(split_payment(u64::MAX, 0, 2), Err(ErrorCode::MathOverflow));
}

#[test]
fn split_overflows_exactly_where_a_product_leaves_u64() {
    // 18446744073709551615 / 1000 = 18446744073709551
    let largest = u64::MAX / 1000;
    assert_eq!(largest, 18_446_744_073_709_551);
    assert_eq!(
        split_payment(largest, 1000, 250),
        Ok(Split {
            seller_amount: 16_140_901_064_495_858,
            tithe_amount: 1_844_674_407_370_955,
            fee_amount: 461_168_601_842_738,
        })
    );
    assert_eq!(split_payment(largest + 1, 1000, 250), Err(ErrorCode::MathOverflow));
    assert_eq!(split_payment(largest + 1, 250, 1000), Err(ErrorCode::MathOverflow));
}

#[test]
fn split_with_shares_above_the_amount_underflows() {
    assert_eq!(split_payment(10, 6000, 6000), Err(ErrorCode::MathOverflow));
    assert_eq!(split_payment(10, 20_000, 0), Err(ErrorCode::MathOverflow));
    assert_eq!(
        split_payment(10, 6000, 4000),
        Ok(Split { seller_amount: 0, tithe_amount: 6, fee_amount: 4 })
    );
}

#[test]
fn rate_constants() {
    assert_eq!(BPS_DENOMINATOR, 10_000);
    assert_eq!(MAX_FEE_BPS, 500);
    assert_eq!(MAX_TITHE_BPS, 2_000);
}
