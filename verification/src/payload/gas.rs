//! Gas, size, time and revenue rules of a block under construction.
use super::outcome::{OtherError, PayloadBuilderError};
use super::u256::U256;
use vstd::prelude::*;

verus! {

/// The largest RLP-encoded block that is valid once Osaka is active, in bytes.
pub const MAX_RLP_BLOCK_SIZE: usize = 8_388_608;

/// What a block's header is counted for before the block is sealed, in bytes.
pub const BLOCK_HEADER_OVERHEAD: usize = 1024;

/// True when a transaction can never be included under the current block gas
/// limit, as opposed to merely not fitting what is left of this block.
pub fn exceeds_block_gas_limit_permanently(tx_gas_limit: u64, block_gas_limit: u64) -> (exceeds:
    bool)
    ensures
        exceeds == (tx_gas_limit > block_gas_limit),
{
    tx_gas_limit > block_gas_limit
}

/// Whether a transaction's gas limit still fits what is left of the block. A sum
/// that 64 bits cannot hold does not fit.
pub fn fits_within_block_gas_limit(
    cumulative_gas_used: u64,
    tx_gas_limit: u64,
    block_gas_limit: u64,
) -> (fits: bool)
    ensures
        fits == (cumulative_gas_used + tx_gas_limit <= block_gas_limit),
{
    match cumulative_gas_used.checked_add(tx_gas_limit) {
        Some(total) => total <= block_gas_limit,
        None => false,
    }
}

/// Adds executed gas to what the block has used so far. A sum that 64 bits
/// cannot hold is an error.
pub fn checked_cumulative_gas_used<E>(cumulative_gas_used: u64, gas_used: u64) -> (sum: Result<
    u64,
    PayloadBuilderError<E>,
>)
    ensures
        sum == (if cumulative_gas_used + gas_used <= u64::MAX {
            Ok::<u64, PayloadBuilderError<E>>((cumulative_gas_used + gas_used) as u64)
        } else {
            Err(PayloadBuilderError::Other(OtherError::CumulativeGasUsedOverflow))
        }),
{
    match cumulative_gas_used.checked_add(gas_used) {
        Some(total) => Ok(total),
        None => Err(PayloadBuilderError::Other(OtherError::CumulativeGasUsedOverflow)),
    }
}

/// A time budget of `limit` nanoseconds, if there is one, is used up.
pub open spec fn budget_used_up(elapsed: u128, limit: Option<u128>) -> bool {
    limit matches Some(l) && elapsed >= l
}

/// True when an optional time budget has been used up: both in nanoseconds.
pub fn time_budget_exhausted(elapsed: u128, limit: Option<u128>) -> (exhausted: bool)
    ensures
        exhausted == budget_used_up(elapsed, limit),
        match limit {
            Some(l) => exhausted == (elapsed >= l),
            None => !exhausted,
        },
{
    match limit {
        Some(l) => elapsed >= l,
        None => false,
    }
}

/// The block is too large under the rules of Osaka.
pub open spec fn oversized(is_osaka: bool, size: int) -> bool {
    is_osaka && size > MAX_RLP_BLOCK_SIZE
}

/// True when Osaka is active and the block exceeds [`MAX_RLP_BLOCK_SIZE`].
pub fn osaka_size_exceeded(is_osaka: bool, size: usize) -> (exceeded: bool)
    ensures
        exceeded == oversized(is_osaka, size as int),
        exceeded == (is_osaka && size > 8_388_608),
{
    is_osaka && size > MAX_RLP_BLOCK_SIZE
}

/// What a transaction offers to pay for gas.
#[derive(Clone, Copy, Debug, PartialEq, Eq)]
pub enum TxFees {
    /// A fixed price per gas, whatever the base fee is.
    GasPrice(u128),
    /// A price that follows the base fee.
    DynamicFee { max_fee_per_gas: u128, max_priority_fee_per_gas: u128 },
}

/// The price per gas that a transaction pays at a base fee.
pub open spec fn effective_price(fees: TxFees, base_fee: u64) -> int {
    match fees {
        TxFees::GasPrice(price) => price as int,
        TxFees::DynamicFee { max_fee_per_gas, max_priority_fee_per_gas } => if max_fee_per_gas
            <= base_fee + max_priority_fee_per_gas {
            max_fee_per_gas as int
        } else {
            base_fee + max_priority_fee_per_gas
        },
    }
}

/// `alloy_eips::eip1559::calc_effective_gas_price`, at a known base fee: the base
/// fee and the tip together, but no more than the transaction's maximum.
#[verifier::external_body]
fn calc_effective_gas_price(
    max_fee_per_gas: u128,
    max_priority_fee_per_gas: u128,
    base_fee: u64,
) -> (price: u128)
    ensures
        price == (if max_fee_per_gas <= base_fee + max_priority_fee_per_gas {
            max_fee_per_gas as int
        } else {
            base_fee + max_priority_fee_per_gas
        }),
{
    alloy_eips::eip1559::calc_effective_gas_price(
        max_fee_per_gas,
        max_priority_fee_per_gas,
        Some(base_fee),
    )
}

impl TxFees {
    /// The price per gas that the transaction pays at `base_fee`.
    pub fn effective_gas_price(&self, base_fee: u64) -> (price: u128)
        ensures
            price == effective_price(*self, base_fee),
            match *self {
                TxFees::GasPrice(gas_price) => price == gas_price,
                TxFees::DynamicFee { max_fee_per_gas, max_priority_fee_per_gas } => {
                    &&& price <= max_fee_per_gas
                    &&& price <= base_fee + max_priority_fee_per_gas
                    &&& price == max_fee_per_gas || price == base_fee + max_priority_fee_per_gas
                },
            },
    {
        match *self {
            TxFees::GasPrice(price) => price,
            TxFees::DynamicFee { max_fee_per_gas, max_priority_fee_per_gas } =>
                calc_effective_gas_price(max_fee_per_gas, max_priority_fee_per_gas, base_fee),
        }
    }
}

/// What one transaction earns the proposer.
pub open spec fn revenue(fees: TxFees, gas_used: u64, base_fee: u64) -> nat {
    (effective_price(fees, base_fee) * gas_used) as nat
}

/// What one transaction earns the proposer: the effective gas price times the
/// gas used. The base fee is not burned, so the proposer earns all of it, and
/// not the tip alone.
pub fn proposer_revenue(tx: &TxFees, gas_used: u64, base_fee: u64) -> (earned: U256)
    ensures
        earned@ == revenue(*tx, gas_used, base_fee),
        match *tx {
            TxFees::GasPrice(gas_price) => earned@ == gas_price * gas_used,
            TxFees::DynamicFee { max_fee_per_gas, max_priority_fee_per_gas } => earned@ == (
            if max_fee_per_gas <= base_fee + max_priority_fee_per_gas {
                max_fee_per_gas as int
            } else {
                base_fee + max_priority_fee_per_gas
            }) * gas_used,
        },
{
    let price: u128 = tx.effective_gas_price(base_fee);
    proof {
        lemma_revenue_bounded(price, gas_used);
    }
    U256::from_u128(price).wrapping_mul(U256::from_u64(gas_used))
}

/// A 128-bit price times 64-bit gas stays far below what fees can count.
pub proof fn lemma_revenue_bounded(price: u128, gas_used: u64)
    ensures
        0 <= price * gas_used <= u128::MAX * gas_used,
        u128::MAX * gas_used < super::u256::modulus(),
        (price as nat * gas_used as nat) % super::u256::modulus() == price * gas_used,
{
    assert(0 <= price * gas_used <= u128::MAX * gas_used) by (nonlinear_arith)
        requires
            0 <= price <= u128::MAX,
            0 <= gas_used,
    ;
    assert(u128::MAX * gas_used <= u128::MAX * u64::MAX) by (nonlinear_arith)
        requires
            gas_used <= u64::MAX,
    ;
    vstd::arithmetic::div_mod::lemma_small_mod(
        (price * gas_used) as nat,
        super::u256::modulus(),
    );
}

/// A transaction with a dynamic fee that can pay the base fee earns the proposer
/// at least the base fee on every unit of gas, and never more than its maximum.
pub proof fn law_revenue_covers_base_fee(
    max_fee_per_gas: u128,
    max_priority_fee_per_gas: u128,
    gas_used: u64,
    base_fee: u64,
)
    requires
        base_fee <= max_fee_per_gas,
    ensures
        ({
            let tx = TxFees::DynamicFee { max_fee_per_gas, max_priority_fee_per_gas };
            base_fee * gas_used <= revenue(tx, gas_used, base_fee) <= max_fee_per_gas * gas_used
        }),
{
    let tx = TxFees::DynamicFee { max_fee_per_gas, max_priority_fee_per_gas };
    let price = effective_price(tx, base_fee);
    assert(base_fee * gas_used <= price * gas_used <= max_fee_per_gas * gas_used) by (
    nonlinear_arith)
        requires
            base_fee <= price <= max_fee_per_gas,
            0 <= gas_used,
    ;
}

/// A block has a better payload than none; otherwise it must earn strictly more.
pub open spec fn better_payload(best_fees: Option<U256>, fees: nat) -> bool {
    best_fees matches Some(best) ==> fees > best@
}

/// Whether a block that earns `new_fees` is better than the best one so far.
pub fn is_better_payload(best_fees: Option<U256>, new_fees: U256) -> (better: bool)
    ensures
        better == better_payload(best_fees, new_fees@),
        match best_fees {
            Some(best) => better == (new_fees@ > best@),
            None => better,
        },
{
    match best_fees {
        None => true,
        Some(best) => new_fees.exceeds(best),
    }
}

/// A transaction with a fixed price earns the proposer that price on every unit of
/// gas, whatever the base fee is.
pub proof fn law_fixed_price_earns_the_price(
    gas_price: u128,
    gas_used: u64,
    base_fee: u64,
    other_base_fee: u64,
)
    ensures
        revenue(TxFees::GasPrice(gas_price), gas_used, base_fee) == gas_price * gas_used,
        revenue(TxFees::GasPrice(gas_price), gas_used, base_fee) == revenue(
            TxFees::GasPrice(gas_price),
            gas_used,
            other_base_fee,
        ),
{
    lemma_revenue_bounded(gas_price, gas_used);
}

/// A transaction with a dynamic fee earns the proposer the base fee and the tip on
/// every unit of gas, where its maximum covers both, and else its maximum.
pub proof fn law_dynamic_fee_earns_base_fee_and_tip(
    max_fee_per_gas: u128,
    max_priority_fee_per_gas: u128,
    gas_used: u64,
    base_fee: u64,
)
    ensures
        ({
            let tx = TxFees::DynamicFee { max_fee_per_gas, max_priority_fee_per_gas };
            &&& base_fee + max_priority_fee_per_gas <= max_fee_per_gas ==> revenue(
                tx,
                gas_used,
                base_fee,
            ) == (base_fee + max_priority_fee_per_gas) * gas_used
            &&& base_fee + max_priority_fee_per_gas >= max_fee_per_gas ==> revenue(
                tx,
                gas_used,
                base_fee,
            ) == max_fee_per_gas * gas_used
        }),
{
    let tx = TxFees::DynamicFee { max_fee_per_gas, max_priority_fee_per_gas };
    let price = effective_price(tx, base_fee);
    lemma_revenue_bounded(price as u128, gas_used);
}

/// A payload replaces the best one just when it earns strictly more; without a best
/// one, any payload is taken.
pub proof fn law_better_means_strictly_more(best: U256, fees: nat)
    ensures
        better_payload(None, fees),
        fees > best@ ==> better_payload(Some(best), fees),
        fees <= best@ ==> !better_payload(Some(best), fees),
{
}

/// A time budget is used up from its last nanosecond on, and no budget never is.
/// Blocks are too large from one byte above 8 MiB on, and only once Osaka is active.
pub proof fn law_limits_are_reached_exactly(elapsed: u128, budget: u128, size: int)
    ensures
        !budget_used_up(elapsed, None),
        elapsed >= budget ==> budget_used_up(elapsed, Some(budget)),
        elapsed < budget ==> !budget_used_up(elapsed, Some(budget)),
        !oversized(false, size),
        size > 8 * 1024 * 1024 ==> oversized(true, size),
        size <= 8 * 1024 * 1024 ==> !oversized(true, size),
{
}

} // verus!
