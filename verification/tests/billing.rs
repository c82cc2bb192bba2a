use kumulus::billing::{
    blocks_used, claim_due, deposit_amount, period_length, refund_amount, truncate_block, Claim,
};
use kumulus::types::BillingPeriod;

#[test]
fn a_month_is_four_weeks_of_blocks() {
    assert_eq!(period_length(&BillingPeriod::Weekly, 100), 100);
    assert_eq!(period_length(&BillingPeriod::Monthly, 100), 400);
    assert_eq!(period_length(&BillingPeriod::Weekly, 0), 0);
    assert_eq!(period_length(&BillingPeriod::Monthly, 0), 0);
}

#[test]
fn a_month_of_the_longest_week_does_not_wrap() {
    assert_eq!(period_length(&BillingPeriod::Weekly, u32::MAX), 4_294_967_295);
    assert_eq!(period_length(&BillingPeriod::Monthly, u32::MAX), 17_179_869_180);
}

#[test]
fn block_numbers_are_truncated_to_32_bits() {
    assert_eq!(truncate_block(0), Some(0));
    assert_eq!(truncate_block(150), Some(150));
    assert_eq!(truncate_block(4_294_967_295), Some(u32::MAX));
    assert_eq!(truncate_block(4_294_967_296), None);
    assert_eq!(truncate_block(u64::MAX), None);
}

#[test]
fn deposit_is_two_periods() {
    assert_eq!(deposit_amount(700), 1400);
    assert_eq!(deposit_amount(0), 0);
    assert_eq!(deposit_amount(10_000_000_000), 20_000_000_000);
    assert_eq!(deposit_amount(40_000_000_000), 80_000_000_000);
}

#[test]
fn deposit_saturates() {
    assert_eq!(deposit_amount(u128::MAX / 2), u128::MAX - 1);
    assert_eq!(deposit_amount(u128::MAX / 2 + 1), u128::MAX);
    assert_eq!(deposit_amount(u128::MAX), u128::MAX);
}

#[test]
fn blocks_used_never_goes_below_zero() {
    assert_eq!(blocks_used(0, 60), 60);
    assert_eq!(blocks_used(100, 150), 50);
    assert_eq!(blocks_used(150, 150), 0);
    assert_eq!(blocks_used(200, 150), 0);
}

#[test]
fn refund_is_the_unused_share_rounded_down() {
    assert_eq!(refund_amount(700, 60, 100), 280);
    assert_eq!(refund_amount(700, 0, 100), 700);
    assert_eq!(refund_amount(700, 99, 100), 7);
    assert_eq!(refund_amount(10, 1, 3), 6);
    assert_eq!(refund_amount(1, 1, 3), 0);
    assert_eq!(refund_amount(10_000_000_000, 60, 100), 4_000_000_000);
}

#[test]
fn refund_is_nothing_once_the_period_is_used() {
    assert_eq!(refund_amount(700, 100, 100), 0);
    assert_eq!(refund_amount(700, 101, 100), 0);
    assert_eq!(refund_amount(700, u32::MAX, 100), 0);
    assert_eq!(refund_amount(700, 0, 0), 0);
}

#[test]
fn refund_never_exceeds_one_period() {
    for cost in [0u128, 1, 699, 700, 10_000_000_000, u128::MAX] {
        for length in [1u64, 7, 100, 400, 17_179_869_180] {
            for used in [0u32, 1, 6, 99, 100, 399, u32::MAX] {
                let refund = refund_amount(cost, used, length);
                assert!(refund <= cost);
                assert!(refund <= deposit_amount(cost));
                if used as u64 >= length {
                    assert_eq!(refund, 0);
                }
            }
        }
    }
}

#[test]
fn refund_saturates_before_it_divides() {
    assert_eq!(refund_amount(u128::MAX, 0, 4), u128::MAX / 4);
    assert_eq!(refund_amount(u128::MAX, 2, 4), u128::MAX / 4);
    assert_eq!(refund_amount(u128::MAX, 0, 1), u128::MAX);
}

#[test]
fn claim_pays_whole_periods_only() {
    assert_eq!(
        claim_due(700, 0, 150, 100),
        Some(Claim { periods: 1, payment: 700, last_paid_block: 100 })
    );
    assert_eq!(
        claim_due(700, 0, 100, 100),
        Some(Claim { periods: 1, payment: 700, last_paid_block: 100 })
    );
    assert_eq!(
        claim_due(700, 0, 399, 100),
        Some(Claim { periods: 3, payment: 2100, last_paid_block: 300 })
    );
    assert_eq!(
        claim_due(700, 40, 1000, 400),
        Some(Claim { periods: 2, payment: 1400, last_paid_block: 840 })
    );
}

#[test]
fn nothing_is_due_before_a_period_has_passed() {
    assert_eq!(claim_due(700, 0, 99, 100), None);
    assert_eq!(claim_due(700, 100, 150, 100), None);
    assert_eq!(claim_due(700, 150, 150, 100), None);
    assert_eq!(claim_due(700, 200, 150, 100), None);
    assert_eq!(claim_due(700, 0, u32::MAX, 17_179_869_180), None);
}

#[test]
fn claim_over_the_whole_range_of_blocks() {
    assert_eq!(
        claim_due(10_000_000_000, 0, u32::MAX, 1),
        Some(Claim {
            periods: u32::MAX,
            payment: 42_949_672_950_000_000_000,
            last_paid_block: u32::MAX
        })
    );
    assert_eq!(
        claim_due(u128::MAX, 0, 10, 5),
        Some(Claim { periods: 2, payment: u128::MAX, last_paid_block: 10 })
    );
}

#[test]
fn claim_is_a_multiple_of_the_price_and_advances_by_whole_periods() {
    for length in [1u64, 7, 100, 400] {
        for last_paid in [0u32, 1, 50, 100] {
            for current in [0u32, 99, 100, 150, 1234, 1_000_000] {
                match claim_due(700, last_paid, current, length) {
                    None => assert!((current.saturating_sub(last_paid) as u64) < length),
                    Some(claim) => {
                        assert!(claim.periods >= 1);
                        assert_eq!(claim.payment, 700 * claim.periods as u128);
                        assert_eq!(
                            claim.last_paid_block as u64,
                            last_paid as u64 + claim.periods as u64 * length
                        );
                        assert!(claim.last_paid_block <= current);
                        assert!(((current - claim.last_paid_block) as u64) < length);
                    }
                }
            }
        }
    }
}
