//! The loop that fills a block with the best transactions of the pool.
//!
//! For each transaction that the pool offers, the caller asks
//! [`PayloadLoop::consider`], then [`PayloadLoop::check_size`], executes the
//! transaction, and reports the result to [`PayloadLoop::record`]. In between it
//! does what the answers say. After the last transaction
//! [`PayloadLoop::conclude`] says whether the block is worth sealing, and
//! [`PayloadLoop::seal`] checks the sealed block.
use super::eviction;
use super::eviction::{evict_one, EvictionPlan};
use super::gas;
use super::gas::{
    checked_cumulative_gas_used, exceeds_block_gas_limit_permanently, fits_within_block_gas_limit,
    is_better_payload, osaka_size_exceeded, proposer_revenue, time_budget_exhausted, TxFees,
    BLOCK_HEADER_OVERHEAD, MAX_RLP_BLOCK_SIZE,
};
use super::outcome;
use super::outcome::{
    classify_tx_outcome, BlockExecutionError, OtherError, PayloadBuilderError, TxHash, TxOutcome,
};
use super::u256;
use super::u256::U256;
use vstd::prelude::*;

verus! {

/// Why consensus rules reject a transaction.
#[derive(Clone, Copy, Debug, PartialEq, Eq)]
pub enum InvalidTransactionError {
    /// The type of the transaction is not supported.
    TxTypeNotSupported,
}

/// Why a transaction of the pool is marked invalid, so that its descendants are
/// skipped too.
#[derive(Clone, Copy, Debug, PartialEq, Eq)]
pub enum InvalidPoolTransactionError {
    /// The gas limit of the transaction, and the gas limit that it exceeds.
    ExceedsGasLimit(u64, u64),
    /// The block would become too large with it.
    OversizedData { size: usize, limit: usize },
    /// It breaks a consensus rule.
    Consensus(InvalidTransactionError),
}

/// What is fixed for one block.
#[derive(Clone, Copy, Debug)]
pub struct BlockLimits {
    /// The gas that the block's transactions may use together.
    pub block_gas_limit: u64,
    /// The base fee of the block.
    pub base_fee: u64,
    /// Whether Osaka is active at the block's time.
    pub is_osaka: bool,
    /// The RLP-encoded length of the block's withdrawals: 0 without any.
    pub withdrawals_rlp_length: usize,
    /// How long the loop may run, in nanoseconds, if that is limited.
    pub loop_time_limit: Option<u128>,
}

/// The answer to a transaction that the pool offers.
#[derive(Debug)]
pub enum Consideration {
    /// The time is up: seal the block without this transaction.
    SealEarly,
    /// Mark the transaction invalid, carry out the eviction, if any, and go on
    /// with the next one.
    Reject { error: InvalidPoolTransactionError, eviction: Option<EvictionPlan> },
    /// Go on to the size check.
    Proceed,
}

/// The answer to a transaction's size.
#[derive(Clone, Copy, Debug, PartialEq, Eq)]
pub enum SizeCheck {
    /// The build was cancelled.
    Cancelled,
    /// Mark the transaction invalid and go on with the next one.
    Reject { error: InvalidPoolTransactionError },
    /// Execute the transaction.
    Execute,
}

/// The answer to the result of an execution.
#[derive(Debug)]
pub enum Recorded<E> {
    /// The transaction is in the block.
    Included,
    /// Go on with the next one.
    Skipped,
    /// Mark the transaction invalid, carry out the eviction, if any, and go on
    /// with the next one.
    Reject { error: InvalidPoolTransactionError, eviction: Option<EvictionPlan> },
    /// The build ends with this error.
    Failed(PayloadBuilderError<E>),
}

/// What to do when there are no more transactions.
#[derive(Clone, Copy, Debug, PartialEq, Eq)]
pub enum Conclusion {
    /// The block is no better than the best one so far: give it up.
    Abort { fees: U256 },
    /// Seal the block.
    Finish,
}

/// What a payload holds beside the sealed block. `R` are execution requests.
#[derive(Debug)]
pub struct SealedPayload<R> {
    /// What the block earns the proposer.
    pub fees: U256,
    /// The execution requests, once Prague is active.
    pub requests: Option<R>,
}

/// What the transactions in the block add up to.
pub struct Totals {
    /// The gas that they used.
    pub gas: nat,
    /// What they earn the proposer.
    pub fees: nat,
    /// Their RLP-encoded length.
    pub rlp_length: nat,
}

/// The state of the loop.
#[derive(Clone, Copy, Debug)]
pub struct PayloadLoop {
    limits: BlockLimits,
    cumulative_gas_used: u64,
    total_fees: U256,
    block_transactions_rlp_length: usize,
}

/// A sum that stops at what `usize` can hold.
pub open spec fn saturating(sum: int) -> nat {
    if sum <= usize::MAX {
        sum as nat
    } else {
        usize::MAX as nat
    }
}

/// The size of the block with one more transaction, as it is estimated before
/// the block is sealed.
pub open spec fn estimated_size(limits: BlockLimits, totals: Totals, tx_rlp_length: usize) -> nat {
    saturating(
        totals.rlp_length + tx_rlp_length + limits.withdrawals_rlp_length + BLOCK_HEADER_OVERHEAD,
    )
}

/// The transaction fits the gas that is left in the block.
pub open spec fn fits_gas(limits: BlockLimits, totals: Totals, tx_gas_limit: u64) -> bool {
    totals.gas + tx_gas_limit <= limits.block_gas_limit
}

/// The totals with one more transaction.
pub open spec fn with_transaction(
    limits: BlockLimits,
    totals: Totals,
    fees: TxFees,
    rlp_length: usize,
    gas_used: u64,
) -> Totals {
    Totals {
        gas: totals.gas + gas_used as nat,
        fees: (totals.fees + gas::revenue(fees, gas_used, limits.base_fee)) % u256::modulus(),
        rlp_length: saturating(totals.rlp_length + rlp_length),
    }
}

/// The loop took in the outcome of a transaction: one that was executed counts for
/// the block, unless the block's gas then exceeds 64 bits, and any other leaves
/// the block as it was.
pub open spec fn recorded<E>(
    before: PayloadLoop,
    outcome: TxOutcome<E>,
    tx_hash: TxHash,
    fees: TxFees,
    tx_rlp_length: usize,
    answer: Recorded<E>,
    after: PayloadLoop,
) -> bool {
    &&& after.limits() == before.limits()
    &&& match outcome {
        TxOutcome::Included(gas_used) => {
            let totals = with_transaction(
                before.limits(),
                before.totals(),
                fees,
                tx_rlp_length,
                gas_used,
            );
            if totals.gas <= u64::MAX {
                answer is Included && after.totals() == totals
            } else {
                &&& answer == Recorded::<E>::Failed(
                    PayloadBuilderError::Other(OtherError::CumulativeGasUsedOverflow),
                )
                &&& after.totals() == (Totals { gas: before.totals().gas, ..totals })
            }
        },
        TxOutcome::Skip => answer is Skipped && after == before,
        TxOutcome::SkipAndMarkInvalid => {
            &&& answer == (Recorded::<E>::Reject {
                error: InvalidPoolTransactionError::Consensus(
                    InvalidTransactionError::TxTypeNotSupported,
                ),
                eviction: None,
            })
            &&& after == before
        },
        TxOutcome::SkipMarkInvalidAndEvictBlocked => {
            &&& answer matches Recorded::Reject { error, eviction: Some(plan) }
            &&& error == InvalidPoolTransactionError::Consensus(
                InvalidTransactionError::TxTypeNotSupported,
            )
            &&& eviction::evicts(plan, false, seq![tx_hash])
            &&& after == before
        },
        TxOutcome::SkipExceedsGasLimit { transaction_gas_limit, block_available_gas } => {
            &&& answer == (Recorded::<E>::Reject {
                error: InvalidPoolTransactionError::ExceedsGasLimit(
                    transaction_gas_limit,
                    block_available_gas,
                ),
                eviction: None,
            })
            &&& after == before
        },
        TxOutcome::Fatal(e) => answer == Recorded::Failed(e) && after == before,
    }
}

impl PayloadLoop {
    /// What is fixed for the block.
    pub closed spec fn limits(self) -> BlockLimits {
        self.limits
    }

    /// What the transactions in the block add up to.
    pub closed spec fn totals(self) -> Totals {
        Totals {
            gas: self.cumulative_gas_used as nat,
            fees: self.total_fees@,
            rlp_length: self.block_transactions_rlp_length as nat,
        }
    }

    /// An empty block.
    pub fn new(limits: BlockLimits) -> (empty: PayloadLoop)
        ensures
            empty.limits() == limits,
            empty.totals() == (Totals { gas: 0, fees: 0, rlp_length: 0 }),
    {
        PayloadLoop {
            limits,
            cumulative_gas_used: 0,
            total_fees: U256::zero(),
            block_transactions_rlp_length: 0,
        }
    }

    /// What the transactions in the block earn the proposer.
    pub fn total_fees(&self) -> (fees: U256)
        ensures
            fees@ == self.totals().fees,
    {
        self.total_fees
    }

    /// The gas that the transactions in the block used.
    pub fn cumulative_gas_used(&self) -> (used: u64)
        ensures
            used == self.totals().gas,
    {
        self.cumulative_gas_used
    }

    /// Looks at the next transaction of the pool: whether there is time left for
    /// it, and gas. `elapsed` is the time that the loop has run, in nanoseconds.
    ///
    /// A transaction whose gas limit exceeds that of the block can never be
    /// included, and is evicted. The limit may be raised one day, so it goes on no list.
    pub fn consider(&self, elapsed: u128, tx_gas_limit: u64, tx_hash: TxHash) -> (answer:
        Consideration)
        ensures
            answer is SealEarly <==> (self.limits().loop_time_limit matches Some(limit) && elapsed
                >= limit),
            !(answer is SealEarly) ==> (answer is Proceed <==> self.totals().gas + tx_gas_limit
                <= self.limits().block_gas_limit),
            answer is SealEarly <==> gas::budget_used_up(elapsed, self.limits().loop_time_limit),
            answer is Proceed <==> !gas::budget_used_up(elapsed, self.limits().loop_time_limit)
                && fits_gas(self.limits(), self.totals(), tx_gas_limit),
            answer matches Consideration::Reject { error, eviction } ==> {
                &&& error == InvalidPoolTransactionError::ExceedsGasLimit(
                    tx_gas_limit,
                    self.limits().block_gas_limit,
                )
                &&& if tx_gas_limit > self.limits().block_gas_limit {
                    eviction matches Some(plan) && eviction::evicts(plan, false, seq![tx_hash])
                        && plan.remove@ == seq![tx_hash] && plan.quarantine@.len() == 0
                } else {
                    eviction is None
                }
            },
    {
        if time_budget_exhausted(elapsed, self.limits.loop_time_limit) {
            return Consideration::SealEarly;
        }
        let block_gas_limit: u64 = self.limits.block_gas_limit;
        if !fits_within_block_gas_limit(self.cumulative_gas_used, tx_gas_limit, block_gas_limit) {
            let eviction: Option<EvictionPlan> = if exceeds_block_gas_limit_permanently(
                tx_gas_limit,
                block_gas_limit,
            ) {
                Some(evict_one(tx_hash))
            } else {
                None
            };
            return Consideration::Reject {
                error: InvalidPoolTransactionError::ExceedsGasLimit(tx_gas_limit, block_gas_limit),
                eviction,
            };
        }
        Consideration::Proceed
    }

    /// Whether the build goes on, and the block does not become too large with a
    /// transaction of the given RLP-encoded length.
    pub fn check_size(&self, cancelled: bool, tx_rlp_length: usize) -> (answer: SizeCheck)
        ensures
            answer is Cancelled <==> cancelled,
            !cancelled ==> (answer is Execute <==> (self.limits().is_osaka ==> self.totals().rlp_length
                + tx_rlp_length + self.limits().withdrawals_rlp_length + 1024 <= 8_388_608)),
            answer matches SizeCheck::Reject { error } ==> {
                let size = self.totals().rlp_length + tx_rlp_length
                    + self.limits().withdrawals_rlp_length + 1024;
                &&& error matches InvalidPoolTransactionError::OversizedData { size: told, limit }
                &&& limit == 8_388_608
                &&& told == (if size <= usize::MAX {
                    size
                } else {
                    usize::MAX as int
                })
            },
            answer == ({
                let size = estimated_size(self.limits(), self.totals(), tx_rlp_length);
                if cancelled {
                    SizeCheck::Cancelled
                } else if gas::oversized(self.limits().is_osaka, size as int) {
                    SizeCheck::Reject {
                        error: InvalidPoolTransactionError::OversizedData {
                            size: size as usize,
                            limit: MAX_RLP_BLOCK_SIZE,
                        },
                    }
                } else {
                    SizeCheck::Execute
                }
            }),
    {
        if cancelled {
            return SizeCheck::Cancelled;
        }
        let size: usize = self.block_transactions_rlp_length.saturating_add(
            tx_rlp_length,
        ).saturating_add(self.limits.withdrawals_rlp_length).saturating_add(BLOCK_HEADER_OVERHEAD);
        if osaka_size_exceeded(self.limits.is_osaka, size) {
            return SizeCheck::Reject {
                error: InvalidPoolTransactionError::OversizedData {
                    size,
                    limit: MAX_RLP_BLOCK_SIZE,
                },
            };
        }
        SizeCheck::Execute
    }

    /// Takes in the result of executing a transaction; the outer error of `result`
    /// is the payload of a caught panic. Only a transaction that was executed
    /// counts for the block.
    ///
    /// A transaction of a blocked address is evicted. The address may be
    /// unblocked one day, so it goes on no list.
    pub fn record<E, P>(
        &mut self,
        result: Result<Result<u64, BlockExecutionError<E>>, P>,
        tx_hash: TxHash,
        fees: &TxFees,
        tx_rlp_length: usize,
        blocked_address_message: &str,
    ) -> (answer: Recorded<E>)
        ensures
            recorded(
                *old(self),
                outcome::outcome_of(result, tx_hash, blocked_address_message@),
                tx_hash,
                *fees,
                tx_rlp_length,
                answer,
                *final(self),
            ),
    {
        let gas_used: u64 = match classify_tx_outcome(result, tx_hash, blocked_address_message) {
            TxOutcome::Included(gas_used) => gas_used,
            TxOutcome::Skip => {
                return Recorded::Skipped;
            },
            TxOutcome::SkipAndMarkInvalid => {
                return Recorded::Reject {
                    error: InvalidPoolTransactionError::Consensus(
                        InvalidTransactionError::TxTypeNotSupported,
                    ),
                    eviction: None,
                };
            },
            TxOutcome::SkipMarkInvalidAndEvictBlocked => {
                return Recorded::Reject {
                    error: InvalidPoolTransactionError::Consensus(
                        InvalidTransactionError::TxTypeNotSupported,
                    ),
                    eviction: Some(evict_one(tx_hash)),
                };
            },
            TxOutcome::SkipExceedsGasLimit { transaction_gas_limit, block_available_gas } => {
                return Recorded::Reject {
                    error: InvalidPoolTransactionError::ExceedsGasLimit(
                        transaction_gas_limit,
                        block_available_gas,
                    ),
                    eviction: None,
                };
            },
            TxOutcome::Fatal(e) => {
                return Recorded::Failed(e);
            },
        };
        self.block_transactions_rlp_length =
        self.block_transactions_rlp_length.saturating_add(tx_rlp_length);
        let earned: U256 = proposer_revenue(fees, gas_used, self.limits.base_fee);
        self.total_fees = self.total_fees.wrapping_add(earned);
        match checked_cumulative_gas_used::<E>(self.cumulative_gas_used, gas_used) {
            Ok(total) => {
                self.cumulative_gas_used = total;
                Recorded::Included
            },
            Err(e) => Recorded::Failed(e),
        }
    }

    /// Whether the block earns more than the best one so far.
    pub fn conclude(&self, best_fees: Option<U256>) -> (conclusion: Conclusion)
        ensures
            gas::better_payload(best_fees, self.totals().fees) <==> conclusion is Finish,
            conclusion is Finish <==> (best_fees matches Some(best) ==> self.totals().fees > best@),
            conclusion matches Conclusion::Abort { fees } ==> fees@ == self.totals().fees,
    {
        if is_better_payload(best_fees, self.total_fees) {
            Conclusion::Finish
        } else {
            Conclusion::Abort { fees: self.total_fees }
        }
    }

    /// Checks the sealed block's size, and gives what the payload holds beside it.
    pub fn seal<E, R>(&self, sealed_rlp_length: usize, is_prague: bool, requests: R) -> (payload:
        Result<SealedPayload<R>, PayloadBuilderError<E>>)
        ensures
            payload is Err <==> self.limits().is_osaka && sealed_rlp_length > 8_388_608,
            match payload {
                Ok(sealed) => {
                    &&& !gas::oversized(self.limits().is_osaka, sealed_rlp_length as int)
                    &&& sealed.fees@ == self.totals().fees
                    &&& sealed.requests == (if is_prague {
                        Some(requests)
                    } else {
                        None
                    })
                },
                Err(e) => {
                    &&& gas::oversized(self.limits().is_osaka, sealed_rlp_length as int)
                    &&& e == PayloadBuilderError::<E>::Other(
                        OtherError::BlockTooLarge {
                            rlp_length: sealed_rlp_length,
                            max_rlp_length: MAX_RLP_BLOCK_SIZE,
                        },
                    )
                },
            },
    {
        let requests: Option<R> = if is_prague {
            Some(requests)
        } else {
            None
        };
        if osaka_size_exceeded(self.limits.is_osaka, sealed_rlp_length) {
            return Err(
                PayloadBuilderError::Other(
                    OtherError::BlockTooLarge {
                        rlp_length: sealed_rlp_length,
                        max_rlp_length: MAX_RLP_BLOCK_SIZE,
                    },
                ),
            );
        }
        Ok(SealedPayload { fees: self.total_fees, requests })
    }
}

/// The state root and trie updates to seal the block with, if the task that was
/// to compute them succeeded. Without a task, or when it failed, they are
/// computed when the block is sealed.
pub fn try_precomputed_state_root<S, U, E>(task: Option<Result<(S, U), E>>) -> (precomputed: Option<
    (S, U),
>)
    ensures
        precomputed == (match task {
            Some(Ok(root)) => Some(root),
            _ => None,
        }),
{
    match task {
        Some(Ok(root)) => Some(root),
        _ => None,
    }
}

/// A transaction as the loop meets it: what the pool says of it, what the clock
/// and the caller say when it is its turn, and the gas that it uses if it is
/// executed and valid.
pub struct Offer {
    pub elapsed: u128,
    pub gas_limit: u64,
    pub cancelled: bool,
    pub fees: TxFees,
    pub rlp_length: usize,
    pub gas_used: Option<u64>,
}

/// The transaction gets as far as its execution.
pub open spec fn is_executed(limits: BlockLimits, totals: Totals, offer: Offer) -> bool {
    &&& !gas::budget_used_up(offer.elapsed, limits.loop_time_limit)
    &&& fits_gas(limits, totals, offer.gas_limit)
    &&& !offer.cancelled
    &&& !gas::oversized(
        limits.is_osaka,
        estimated_size(limits, totals, offer.rlp_length) as int,
    )
}

/// The transaction is executed and valid.
pub open spec fn is_included(limits: BlockLimits, totals: Totals, offer: Offer) -> bool {
    is_executed(limits, totals, offer) && offer.gas_used is Some
}

/// The totals after a run of transactions, in their order, as long as the loop goes on.
pub open spec fn totals_after(limits: BlockLimits, offers: Seq<Offer>) -> Totals
    decreases offers.len(),
{
    if offers.len() == 0 {
        Totals { gas: 0, fees: 0, rlp_length: 0 }
    } else {
        let before = totals_after(limits, offers.drop_last());
        let offer = offers.last();
        if is_included(limits, before, offer) {
            with_transaction(limits, before, offer.fees, offer.rlp_length, offer.gas_used->0)
        } else {
            before
        }
    }
}

/// The loop handled a transaction: included, or left out of the block.
pub open spec fn handled(before: PayloadLoop, offer: Offer, after: PayloadLoop) -> bool {
    &&& after.limits() == before.limits()
    &&& after.totals() == (if is_included(before.limits(), before.totals(), offer) {
        with_transaction(
            before.limits(),
            before.totals(),
            offer.fees,
            offer.rlp_length,
            offer.gas_used->0,
        )
    } else {
        before.totals()
    })
}

/// A transaction that got as far as its execution is handled by what the loop
/// records of it, as long as the build goes on.
pub proof fn law_recording_handles_the_transaction<E>(
    before: PayloadLoop,
    offer: Offer,
    outcome: TxOutcome<E>,
    tx_hash: TxHash,
    answer: Recorded<E>,
    after: PayloadLoop,
)
    requires
        is_executed(before.limits(), before.totals(), offer),
        offer.gas_used == (match outcome {
            TxOutcome::Included(gas_used) => Some(gas_used),
            _ => None,
        }),
        recorded(before, outcome, tx_hash, offer.fees, offer.rlp_length, answer, after),
        !(answer is Failed),
    ensures
        handled(before, offer, after),
{
}

/// After any run of transactions, the loop holds what the run adds up to.
pub proof fn law_loop_holds_what_its_transactions_add_up_to(
    loops: Seq<PayloadLoop>,
    offers: Seq<Offer>,
)
    requires
        loops.len() == offers.len() + 1,
        loops[0].totals() == (Totals { gas: 0, fees: 0, rlp_length: 0 }),
        forall|i: int|
            0 <= i < offers.len() ==> handled(loops[i], #[trigger] offers[i], loops[i + 1]),
    ensures
        loops.last().limits() == loops[0].limits(),
        loops.last().totals() == totals_after(loops[0].limits(), offers),
    decreases offers.len(),
{
    if offers.len() > 0 {
        let n = offers.len() - 1;
        let shorter = loops.drop_last();
        assert(shorter[0] == loops[0]);
        assert(shorter.last() == loops[n]);
        assert forall|i: int| 0 <= i < n implies handled(
            shorter[i],
            #[trigger] offers.drop_last()[i],
            shorter[i + 1],
        ) by {
            assert(offers.drop_last()[i] == offers[i]);
            assert(shorter[i] == loops[i]);
            assert(shorter[i + 1] == loops[i + 1]);
        }
        law_loop_holds_what_its_transactions_add_up_to(shorter, offers.drop_last());
        assert(handled(loops[n], offers[n], loops[n + 1]));
        assert(loops[n + 1] == loops.last());
        assert(offers[n] == offers.last());
    }
}

/// What the included transactions of a run earn the proposer together.
pub open spec fn earned(limits: BlockLimits, offers: Seq<Offer>) -> nat
    decreases offers.len(),
{
    if offers.len() == 0 {
        0
    } else {
        let before = totals_after(limits, offers.drop_last());
        let offer = offers.last();
        earned(limits, offers.drop_last()) + (if is_included(limits, before, offer) {
            gas::revenue(offer.fees, offer.gas_used->0, limits.base_fee)
        } else {
            0
        })
    }
}

/// No transaction uses more gas than its limit.
pub open spec fn within_gas_limits(offers: Seq<Offer>) -> bool {
    forall|i: int|
        0 <= i < offers.len() ==> ((#[trigger] offers[i]).gas_used matches Some(gas_used)
            ==> gas_used <= offers[i].gas_limit)
}

/// As long as no transaction uses more gas than its own limit, the transactions
/// of a block never use more gas than the block's limit, and so never too much
/// for 64 bits.
pub proof fn law_block_gas_limit_holds(limits: BlockLimits, offers: Seq<Offer>)
    requires
        within_gas_limits(offers),
    ensures
        totals_after(limits, offers).gas <= limits.block_gas_limit,
    decreases offers.len(),
{
    if offers.len() > 0 {
        assert(within_gas_limits(offers.drop_last())) by {
            assert forall|i: int| 0 <= i < offers.drop_last().len() implies ((
            #[trigger] offers.drop_last()[i]).gas_used matches Some(gas_used)
                ==> gas_used <= offers.drop_last()[i].gas_limit) by {
                assert(offers.drop_last()[i] == offers[i]);
            }
        }
        law_block_gas_limit_holds(limits, offers.drop_last());
        assert(offers[offers.len() - 1] == offers.last());
    }
}

/// Once Osaka is active, a block with transactions is estimated within the size limit:
/// its transactions, its withdrawals and the header's share together.
pub proof fn law_osaka_size_limit_holds(limits: BlockLimits, offers: Seq<Offer>)
    requires
        limits.is_osaka,
    ensures
        ({
            let length = totals_after(limits, offers).rlp_length;
            length == 0 || length + limits.withdrawals_rlp_length + BLOCK_HEADER_OVERHEAD
                <= MAX_RLP_BLOCK_SIZE
        }),
    decreases offers.len(),
{
    if offers.len() > 0 {
        law_osaka_size_limit_holds(limits, offers.drop_last());
    }
}

/// What is counted as a block's fees is exactly what its transactions earn: the
/// count never wraps around.
pub proof fn law_fees_are_exact(limits: BlockLimits, offers: Seq<Offer>)
    requires
        totals_after(limits, offers).gas <= u64::MAX,
    ensures
        totals_after(limits, offers).fees == earned(limits, offers),
        earned(limits, offers) <= u128::MAX * totals_after(limits, offers).gas,
    decreases offers.len(),
{
    if offers.len() > 0 {
        let before = totals_after(limits, offers.drop_last());
        let offer = offers.last();
        law_fees_are_exact(limits, offers.drop_last());
        if is_included(limits, before, offer) {
            let gas_used = offer.gas_used->0;
            let price = gas::effective_price(offer.fees, limits.base_fee);
            let after = totals_after(limits, offers);
            assert(0 <= price * gas_used <= u128::MAX * gas_used) by (nonlinear_arith)
                requires
                    0 <= price <= u128::MAX,
                    0 <= gas_used,
            ;
            assert(u128::MAX * before.gas + u128::MAX * gas_used == u128::MAX * after.gas)
                by (nonlinear_arith)
                requires
                    after.gas == before.gas + gas_used,
            ;
            assert(u128::MAX * after.gas <= u128::MAX * u64::MAX) by (nonlinear_arith)
                requires
                    after.gas <= u64::MAX,
            ;
            vstd::arithmetic::div_mod::lemma_small_mod(
                earned(limits, offers),
                u256::modulus(),
            );
        }
    }
}

/// Once the time is up, no further transaction gets into the block, however many
/// the pool still offers.
pub proof fn law_nothing_is_included_after_the_deadline(
    limits: BlockLimits,
    offers: Seq<Offer>,
    late: Seq<Offer>,
)
    requires
        forall|i: int|
            0 <= i < late.len() ==> gas::budget_used_up(
                (#[trigger] late[i]).elapsed,
                limits.loop_time_limit,
            ),
    ensures
        totals_after(limits, offers + late) == totals_after(limits, offers),
    decreases late.len(),
{
    if late.len() == 0 {
        assert(offers + late =~= offers);
    } else {
        assert((offers + late).drop_last() =~= offers + late.drop_last());
        assert((offers + late).last() == late[late.len() - 1]);
        assert forall|i: int| 0 <= i < late.drop_last().len() implies gas::budget_used_up(
            (#[trigger] late.drop_last()[i]).elapsed,
            limits.loop_time_limit,
        ) by {
            assert(late.drop_last()[i] == late[i]);
        }
        law_nothing_is_included_after_the_deadline(limits, offers, late.drop_last());
    }
}

/// What the transactions of a run come to in some respect.
pub open spec fn total(offers: Seq<Offer>, part: spec_fn(Offer) -> nat) -> nat
    decreases offers.len(),
{
    if offers.len() == 0 {
        0
    } else {
        total(offers.drop_last(), part) + part(offers.last())
    }
}

/// A transaction gets into the block just when it is valid, the build goes on, there
/// is time left, what the block used and its own gas limit together do not exceed
/// the block's gas limit, and, once Osaka is active, the block with it, its
/// withdrawals and one KiB for the header do not exceed 8 MiB.
pub proof fn law_only_what_does_not_fit_is_left_out(
    limits: BlockLimits,
    totals: Totals,
    offer: Offer,
)
    ensures
        is_included(limits, totals, offer) <==> {
            &&& offer.gas_used is Some
            &&& !offer.cancelled
            &&& limits.loop_time_limit matches Some(limit) ==> offer.elapsed < limit
            &&& totals.gas + offer.gas_limit <= limits.block_gas_limit
            &&& limits.is_osaka ==> totals.rlp_length + offer.rlp_length
                + limits.withdrawals_rlp_length + 1024 <= 8 * 1024 * 1024
        },
        is_executed(limits, totals, offer) <==> {
            &&& !offer.cancelled
            &&& limits.loop_time_limit matches Some(limit) ==> offer.elapsed < limit
            &&& totals.gas + offer.gas_limit <= limits.block_gas_limit
            &&& limits.is_osaka ==> totals.rlp_length + offer.rlp_length
                + limits.withdrawals_rlp_length + 1024 <= 8 * 1024 * 1024
        },
{
}

/// As long as there is time and the build goes on, a transaction whose gas limit is
/// at most what the run before it left of the block's gas is not left out for gas:
/// after any run, only the sum of the gas used so far and its own limit decides.
pub proof fn law_gas_check_is_complete(limits: BlockLimits, offers: Seq<Offer>, offer: Offer)
    requires
        offer.gas_used is Some,
        !offer.cancelled,
        limits.loop_time_limit matches Some(limit) ==> offer.elapsed < limit,
        limits.is_osaka ==> totals_after(limits, offers).rlp_length + offer.rlp_length
            + limits.withdrawals_rlp_length + 1024 <= 8 * 1024 * 1024,
    ensures
        ({
            let before = totals_after(limits, offers);
            let after = totals_after(limits, offers.push(offer));
            if offer.gas_limit <= limits.block_gas_limit - before.gas {
                after.gas == before.gas + offer.gas_used->0
            } else {
                after == before
            }
        }),
{
    assert(offers.push(offer).drop_last() =~= offers);
    assert(offers.push(offer).last() == offer);
}

/// When all gas limits of a run together fit the block, and once Osaka is active all
/// lengths too, with time left and no cancellation, every valid transaction of the
/// run is in the block: gas, fees and length are the sums over the run.
pub proof fn law_everything_that_fits_is_included(limits: BlockLimits, offers: Seq<Offer>)
    requires
        forall|i: int|
            0 <= i < offers.len() ==> {
                &&& (#[trigger] offers[i]).gas_used matches Some(gas_used)
                &&& gas_used <= offers[i].gas_limit
                &&& !offers[i].cancelled
                &&& limits.loop_time_limit matches Some(limit) ==> offers[i].elapsed < limit
            },
        total(offers, |o: Offer| o.gas_limit as nat) <= limits.block_gas_limit,
        limits.is_osaka ==> total(offers, |o: Offer| o.rlp_length as nat)
            + limits.withdrawals_rlp_length + 1024 <= 8 * 1024 * 1024,
        total(offers, |o: Offer| o.rlp_length as nat) <= usize::MAX,
    ensures
        totals_after(limits, offers).gas == total(offers, |o: Offer| o.gas_used->0 as nat),
        totals_after(limits, offers).rlp_length == total(offers, |o: Offer| o.rlp_length as nat),
        totals_after(limits, offers).fees == total(
            offers,
            |o: Offer| price_at(o.fees, limits.base_fee) * (o.gas_used->0 as nat),
        ),
{
    lemma_run_is_included(limits, offers);
    law_fees_are_exact(limits, offers);
}

/// The price per gas: a fixed one as it is, a dynamic one as high as the base fee and
/// the tip, but no higher than its maximum.
pub open spec fn price_at(fees: TxFees, base_fee: u64) -> nat {
    match fees {
        TxFees::GasPrice(price) => price as nat,
        TxFees::DynamicFee { max_fee_per_gas, max_priority_fee_per_gas } => vstd::math::min(
            max_fee_per_gas as int,
            base_fee + max_priority_fee_per_gas,
        ) as nat,
    }
}

/// The sums over a run in which everything fits.
proof fn lemma_run_is_included(limits: BlockLimits, offers: Seq<Offer>)
    requires
        forall|i: int|
            0 <= i < offers.len() ==> {
                &&& (#[trigger] offers[i]).gas_used matches Some(gas_used)
                &&& gas_used <= offers[i].gas_limit
                &&& !offers[i].cancelled
                &&& limits.loop_time_limit matches Some(limit) ==> offers[i].elapsed < limit
            },
        total(offers, |o: Offer| o.gas_limit as nat) <= limits.block_gas_limit,
        limits.is_osaka ==> total(offers, |o: Offer| o.rlp_length as nat)
            + limits.withdrawals_rlp_length + 1024 <= 8 * 1024 * 1024,
        total(offers, |o: Offer| o.rlp_length as nat) <= usize::MAX,
    ensures
        totals_after(limits, offers).gas == total(offers, |o: Offer| o.gas_used->0 as nat),
        totals_after(limits, offers).gas <= total(offers, |o: Offer| o.gas_limit as nat),
        totals_after(limits, offers).rlp_length == total(offers, |o: Offer| o.rlp_length as nat),
        earned(limits, offers) == total(
            offers,
            |o: Offer| price_at(o.fees, limits.base_fee) * (o.gas_used->0 as nat),
        ),
    decreases offers.len(),
{
    if offers.len() > 0 {
        let shorter = offers.drop_last();
        let offer = offers.last();
        assert(offers[offers.len() - 1] == offer);
        assert forall|i: int| 0 <= i < shorter.len() implies {
            &&& (#[trigger] shorter[i]).gas_used matches Some(gas_used)
            &&& gas_used <= shorter[i].gas_limit
            &&& !shorter[i].cancelled
            &&& limits.loop_time_limit matches Some(limit) ==> shorter[i].elapsed < limit
        } by {
            assert(shorter[i] == offers[i]);
        }
        lemma_run_is_included(limits, shorter);
        law_only_what_does_not_fit_is_left_out(limits, totals_after(limits, shorter), offer);
        let price = gas::effective_price(offer.fees, limits.base_fee);
        assert(price == price_at(offer.fees, limits.base_fee));
        assert(0 <= price * (offer.gas_used->0)) by (nonlinear_arith)
            requires
                0 <= price,
                0 <= offer.gas_used->0,
        ;
    }
}

/// Taking in an outcome adds exactly one transaction or nothing. One that was
/// executed adds its gas, its length and what it earns, unless the gas then exceeds 64
/// bits, which ends the build. Any other leaves gas, fees and length as they were, and
/// is answered as its outcome asks.
pub proof fn law_recording_adds_exactly_one_transaction<E>(
    before: PayloadLoop,
    outcome: TxOutcome<E>,
    tx_hash: TxHash,
    fees: TxFees,
    tx_rlp_length: usize,
    answer: Recorded<E>,
    after: PayloadLoop,
)
    requires
        recorded(before, outcome, tx_hash, fees, tx_rlp_length, answer, after),
    ensures
        after.limits() == before.limits(),
        match outcome {
            TxOutcome::Included(gas_used) => {
                let earned = price_at(fees, before.limits().base_fee) * (gas_used as nat);
                &&& before.totals().fees + earned < u256::modulus() ==> after.totals().fees
                    == before.totals().fees + earned
                &&& before.totals().rlp_length + tx_rlp_length <= usize::MAX
                    ==> after.totals().rlp_length == before.totals().rlp_length + tx_rlp_length
                &&& before.totals().rlp_length + tx_rlp_length > usize::MAX
                    ==> after.totals().rlp_length == usize::MAX
                &&& if before.totals().gas + gas_used <= u64::MAX {
                    answer is Included && after.totals().gas == before.totals().gas + gas_used
                } else {
                    &&& answer == Recorded::<E>::Failed(
                        PayloadBuilderError::Other(OtherError::CumulativeGasUsedOverflow),
                    )
                    &&& after.totals().gas == before.totals().gas
                }
            },
            TxOutcome::Skip => answer is Skipped && after.totals() == before.totals(),
            TxOutcome::SkipAndMarkInvalid => {
                &&& answer matches Recorded::Reject { error, eviction }
                &&& error == InvalidPoolTransactionError::Consensus(
                    InvalidTransactionError::TxTypeNotSupported,
                )
                &&& eviction is None
                &&& after.totals() == before.totals()
            },
            TxOutcome::SkipMarkInvalidAndEvictBlocked => {
                &&& answer matches Recorded::Reject { error, eviction: Some(plan) }
                &&& error == InvalidPoolTransactionError::Consensus(
                    InvalidTransactionError::TxTypeNotSupported,
                )
                &&& plan.remove@ == seq![tx_hash]
                &&& plan.quarantine@.len() == 0
                &&& after.totals() == before.totals()
            },
            TxOutcome::SkipExceedsGasLimit { transaction_gas_limit, block_available_gas } => {
                &&& answer matches Recorded::Reject { error, eviction }
                &&& error == InvalidPoolTransactionError::ExceedsGasLimit(
                    transaction_gas_limit,
                    block_available_gas,
                )
                &&& eviction is None
                &&& after.totals() == before.totals()
            },
            TxOutcome::Fatal(e) => answer == Recorded::Failed(e) && after.totals()
                == before.totals(),
        },
{
    if let TxOutcome::Included(gas_used) = outcome {
        let price = gas::effective_price(fees, before.limits().base_fee);
        assert(price == price_at(fees, before.limits().base_fee));
        assert(0 <= price * gas_used) by (nonlinear_arith)
            requires
                0 <= price,
                0 <= gas_used,
        ;
        let earned = price_at(fees, before.limits().base_fee) * (gas_used as nat);
        if before.totals().fees + earned < u256::modulus() {
            vstd::arithmetic::div_mod::lemma_small_mod(
                before.totals().fees + earned,
                u256::modulus(),
            );
        }
    }
}

/// One more transaction adds to the totals of a run just what it is: where it is included,
/// its gas, its length and what it earns, and where it is not, nothing. The empty run
/// comes to nothing.
pub proof fn law_totals_grow_by_one_transaction(
    limits: BlockLimits,
    offers: Seq<Offer>,
    offer: Offer,
)
    ensures
        totals_after(limits, Seq::<Offer>::empty()) == (Totals { gas: 0, fees: 0, rlp_length: 0 }),
        ({
            let before = totals_after(limits, offers);
            let after = totals_after(limits, offers.push(offer));
            let gas_used = offer.gas_used->0;
            let price = price_at(offer.fees, limits.base_fee);
            if is_included(limits, before, offer) {
                &&& after.gas == before.gas + gas_used
                &&& before.rlp_length + offer.rlp_length <= usize::MAX ==> after.rlp_length
                    == before.rlp_length + offer.rlp_length
                &&& before.rlp_length + offer.rlp_length > usize::MAX ==> after.rlp_length
                    == usize::MAX
                &&& before.gas + gas_used <= u64::MAX ==> after.fees == before.fees + price
                    * (gas_used as nat)
            } else {
                after == before
            }
        }),
{
    let before = totals_after(limits, offers);
    let longer = offers.push(offer);
    assert(longer.drop_last() =~= offers);
    assert(longer.last() == offer);
    if is_included(limits, before, offer) {
        let gas_used = offer.gas_used->0;
        let price = gas::effective_price(offer.fees, limits.base_fee);
        assert(price == price_at(offer.fees, limits.base_fee));
        assert(0 <= price * gas_used) by (nonlinear_arith)
            requires
                0 <= price,
                0 <= gas_used,
        ;
        if before.gas + gas_used <= u64::MAX {
            law_fees_are_exact(limits, offers);
            law_fees_are_exact(limits, longer);
        }
    }
}

} // verus!
