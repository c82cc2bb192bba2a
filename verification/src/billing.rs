//! The arithmetic of a rental: how long a billing period lasts, what is
//! withheld when a rental opens, what goes back to the renter on an early
//! cancellation, and what a provider may claim for the periods that passed.
//!
//! Amounts are whole numbers. Products saturate at the largest amount and
//! quotients round down.

use crate::types::{price_of, Balance, BillingPeriod};
use vstd::prelude::*;

verus! {

/// Number of blocks in a billing period: a week as configured, a month four
/// of them.
pub open spec fn period_blocks(period: BillingPeriod, blocks_per_week: u32) -> int {
    match period {
        BillingPeriod::Weekly => blocks_per_week as int,
        BillingPeriod::Monthly => blocks_per_week * 4,
    }
}

/// The product of two amounts, cut off at the largest amount.
pub open spec fn saturating_product(a: int, b: int) -> int {
    if a * b > u128::MAX {
        u128::MAX as int
    } else {
        a * b
    }
}

/// What is withheld when a rental opens: the cost of two billing periods.
pub open spec fn deposit_of(period_cost: int) -> int {
    saturating_product(period_cost, 2)
}

/// Blocks of the current period that have gone by since the last payment;
/// never negative.
pub open spec fn blocks_since(last_paid_block: int, current_block: int) -> int {
    if current_block >= last_paid_block {
        current_block - last_paid_block
    } else {
        0
    }
}

/// What goes back to the renter who cancels after `blocks_used` blocks of the
/// current period: the cost of the unused part of the period, rounded down,
/// and nothing once the whole period is used.
pub open spec fn refund_of(period_cost: int, blocks_used: int, period_length: int) -> int {
    if blocks_used < period_length {
        saturating_product(period_cost, period_length - blocks_used) / period_length
    } else {
        0
    }
}

/// Whole billing periods contained in `elapsed` blocks.
pub open spec fn whole_periods(elapsed: int, period_length: int) -> int {
    elapsed / period_length
}

/// What a provider is paid for the whole periods that have passed, and up to
/// which block the rental counts as paid afterwards.
#[derive(Clone, Copy, PartialEq, Eq, Structural, Debug)]
pub struct Claim {
    /// Whole periods paid by this claim; at least one.
    pub periods: u32,
    /// The cost of those periods.
    pub payment: Balance,
    /// The block up to which the rental is paid after the claim.
    pub last_paid_block: u32,
}

/// The claim that is due at `current_block` on a rental paid up to
/// `last_paid_block`, where at least one period has passed.
pub open spec fn claim_of(
    period_cost: int,
    last_paid_block: int,
    current_block: int,
    period_length: int,
) -> Claim {
    let periods = whole_periods(blocks_since(last_paid_block, current_block), period_length);
    Claim {
        periods: periods as u32,
        payment: saturating_product(period_cost, periods) as Balance,
        last_paid_block: (last_paid_block + periods * period_length) as u32,
    }
}

/// Whether a payment is due: at least one whole period has passed since the
/// last payment.
pub open spec fn payment_is_due(last_paid_block: int, current_block: int, period_length: int) -> bool {
    blocks_since(last_paid_block, current_block) >= period_length
}

pub fn period_length(period: &BillingPeriod, blocks_per_week: u32) -> (blocks: u64)
    ensures
        blocks == period_blocks(*period, blocks_per_week),
{
    match period {
        BillingPeriod::Weekly => blocks_per_week as u64,
        BillingPeriod::Monthly => (blocks_per_week as u64) * 4,
    }
}

/// A block number in 32 bits, or `None` where it does not fit.
pub fn truncate_block(block: u64) -> (truncated: Option<u32>)
    ensures
        block <= u32::MAX ==> truncated == Some(block as u32),
        block > u32::MAX ==> truncated.is_none(),
{
    if block <= u32::MAX as u64 {
        Some(block as u32)
    } else {
        None
    }
}

fn saturating_mul(a: u128, b: u128) -> (product: u128)
    ensures
        product == saturating_product(a as int, b as int),
{
    match a.checked_mul(b) {
        Some(product) => product,
        None => u128::MAX,
    }
}

pub fn deposit_amount(period_cost: Balance) -> (deposit: Balance)
    ensures
        deposit == deposit_of(period_cost as int),
{
    saturating_mul(period_cost, 2)
}

pub fn blocks_used(last_paid_block: u32, current_block: u32) -> (used: u32)
    ensures
        used == blocks_since(last_paid_block as int, current_block as int),
{
    current_block.saturating_sub(last_paid_block)
}

pub fn refund_amount(period_cost: Balance, blocks_used: u32, period_length: u64) -> (refund:
    Balance)
    ensures
        refund == refund_of(period_cost as int, blocks_used as int, period_length as int),
{
    if (blocks_used as u64) < period_length {
        let remaining_blocks: u64 = period_length - blocks_used as u64;
        saturating_mul(period_cost, remaining_blocks as u128) / (period_length as u128)
    } else {
        0
    }
}

/// The claim that is due at `current_block`, or `None` while no whole period
/// has passed since the last payment.
pub fn claim_due(
    period_cost: Balance,
    last_paid_block: u32,
    current_block: u32,
    period_length: u64,
) -> (due: Option<Claim>)
    requires
        period_length > 0,
    ensures
        payment_is_due(last_paid_block as int, current_block as int, period_length as int) ==> due
            == Some(
            claim_of(
                period_cost as int,
                last_paid_block as int,
                current_block as int,
                period_length as int,
            ),
        ),
        !payment_is_due(last_paid_block as int, current_block as int, period_length as int)
            ==> due.is_none(),
{
    let elapsed: u32 = blocks_used(last_paid_block, current_block);
    if (elapsed as u64) < period_length {
        return None;
    }
    let complete_periods: u64 = elapsed as u64 / period_length;
    proof {
        lemma_whole_periods_fit(elapsed as int, period_length as int);
    }
    let paid_blocks: u64 = complete_periods * period_length;
    let payment: u128 = saturating_mul(period_cost, complete_periods as u128);
    Some(
        Claim {
            periods: complete_periods as u32,
            payment,
            last_paid_block: last_paid_block + paid_blocks as u32,
        },
    )
}

/// The whole periods in a span, times the period, stay within the span, and
/// there are no more whole periods than blocks.
pub proof fn lemma_whole_periods_fit(elapsed: int, period_length: int)
    by (nonlinear_arith)
    requires
        0 <= elapsed,
        0 < period_length,
    ensures
        0 <= elapsed / period_length <= elapsed,
        0 <= (elapsed / period_length) * period_length <= elapsed,
        elapsed >= period_length ==> elapsed / period_length >= 1,
{
}

/// At catalog prices nothing saturates: the deposit is exactly twice the
/// price of one period.
pub proof fn lemma_deposit_is_two_periods(period: BillingPeriod)
    ensures
        deposit_of(price_of(period)) == 2 * price_of(period),
        0 < price_of(period) <= 40_000_000_000,
{
}

/// A refund never exceeds the cost of one period, hence never the deposit,
/// and it is nothing once a whole period has been used.
pub proof fn lemma_refund_within_deposit(period_cost: int, blocks_used: int, period_length: int)
    requires
        0 <= period_cost <= u128::MAX,
        0 <= blocks_used,
    ensures
        0 <= refund_of(period_cost, blocks_used, period_length) <= period_cost,
        refund_of(period_cost, blocks_used, period_length) <= deposit_of(period_cost),
        blocks_used >= period_length ==> refund_of(period_cost, blocks_used, period_length) == 0,
{
    if blocks_used < period_length {
        let remaining = period_length - blocks_used;
        let product = saturating_product(period_cost, remaining);
        assert(0 <= product <= period_cost * period_length) by (nonlinear_arith)
            requires
                0 <= period_cost,
                0 < remaining <= period_length,
                product == saturating_product(period_cost, remaining),
        ;
        assert(0 <= product / period_length <= period_cost) by (nonlinear_arith)
            requires
                0 <= product <= period_cost * period_length,
                0 < period_length,
        ;
    }
    assert(period_cost <= deposit_of(period_cost)) by (nonlinear_arith)
        requires
            0 <= period_cost <= u128::MAX,
            deposit_of(period_cost) == saturating_product(period_cost, 2),
    ;
}

/// A claim pays whole periods only. The payment is the period's cost times
/// the number of periods, which is at least one, unless that product exceeds
/// the largest amount; the rental is then paid up to the old block plus that
/// many periods, which is not past the current block.
pub proof fn lemma_claim_pays_whole_periods(
    period_cost: Balance,
    last_paid_block: u32,
    current_block: u32,
    period_length: int,
)
    requires
        period_length > 0,
        payment_is_due(last_paid_block as int, current_block as int, period_length),
    ensures
        ({
            let claim = claim_of(
                period_cost as int,
                last_paid_block as int,
                current_block as int,
                period_length,
            );
            &&& claim.periods >= 1
            &&& claim.periods == whole_periods(
                blocks_since(last_paid_block as int, current_block as int),
                period_length,
            )
            &&& period_cost * claim.periods <= u128::MAX ==> claim.payment == period_cost
                * claim.periods
            &&& claim.last_paid_block == last_paid_block + claim.periods * period_length
            &&& last_paid_block < claim.last_paid_block <= current_block
        }),
{
    let elapsed = blocks_since(last_paid_block as int, current_block as int);
    lemma_whole_periods_fit(elapsed, period_length);
    let periods = whole_periods(elapsed, period_length);
    assert(periods * period_length >= period_length) by (nonlinear_arith)
        requires
            periods >= 1,
            period_length > 0,
    ;
}

/// At catalog prices a claim is exactly the price times the periods paid.
pub proof fn lemma_claim_at_catalog_price(
    period: BillingPeriod,
    last_paid_block: u32,
    current_block: u32,
    period_length: int,
)
    requires
        period_length > 0,
        payment_is_due(last_paid_block as int, current_block as int, period_length),
    ensures
        claim_of(
            price_of(period),
            last_paid_block as int,
            current_block as int,
            period_length,
        ).payment == price_of(period) * claim_of(
            price_of(period),
            last_paid_block as int,
            current_block as int,
            period_length,
        ).periods,
{
    let elapsed = blocks_since(last_paid_block as int, current_block as int);
    lemma_whole_periods_fit(elapsed, period_length);
    let periods = whole_periods(elapsed, period_length);
    let price = price_of(period);
    assert(0 <= price * periods <= u128::MAX) by (nonlinear_arith)
        requires
            0 < price <= 40_000_000_000,
            0 <= periods <= u32::MAX,
    ;
}

/// At catalog prices the refund is the exact share of the price for the
/// unused blocks, rounded down.
pub proof fn lemma_refund_at_catalog_price(
    period: BillingPeriod,
    blocks_used: u32,
    blocks_per_week: u32,
)
    requires
        blocks_used < period_blocks(period, blocks_per_week),
    ensures
        refund_of(price_of(period), blocks_used as int, period_blocks(period, blocks_per_week))
            == (price_of(period) * (period_blocks(period, blocks_per_week) - blocks_used))
            / period_blocks(period, blocks_per_week),
{
    let length = period_blocks(period, blocks_per_week);
    let price = price_of(period);
    let remaining = length - blocks_used;
    assert(price * remaining <= u128::MAX) by (nonlinear_arith)
        requires
            0 < price <= 40_000_000_000,
            0 < remaining <= 4 * u32::MAX,
    ;
}

} // verus!
