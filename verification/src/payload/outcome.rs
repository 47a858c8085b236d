//! What became of one transaction, and the errors of a build.
use super::u256::U256;
use crate::text;
use vstd::prelude::*;

verus! {

/// The hash of a transaction.
pub type TxHash = [u8; 32];

/// Why the EVM holds a transaction invalid, as far as the builder looks at it.
#[derive(Debug)]
pub enum InvalidTransaction {
    /// A reason in words.
    Str(String),
    /// The nonce has been used already.
    NonceTooLow { tx: u64, state: u64 },
    /// The balance does not cover the highest possible fee.
    LackOfFundForMaxFee { fee: U256, balance: U256 },
    /// Any other reason.
    Other,
}

/// A transaction's rejection by the executor: what it answers to the builder's
/// two questions.
#[derive(Debug)]
pub struct InvalidTxError {
    /// Whether the nonce has been used already.
    pub nonce_too_low: bool,
    /// The EVM's own error, where that is what the rejection wraps.
    pub invalid_tx: Option<InvalidTransaction>,
}

/// A validation error of the executor. `E` is an error that the builder only hands on.
#[derive(Debug)]
pub enum BlockValidationError<E> {
    /// The transaction is invalid.
    InvalidTx { error: InvalidTxError },
    /// The transaction's gas limit exceeds the gas that is left in the block.
    TransactionGasLimitMoreThanAvailableBlockGas {
        transaction_gas_limit: u64,
        block_available_gas: u64,
    },
    /// Any other validation error.
    Other(E),
}

/// An error of the executor. `E` is an error that the builder only hands on.
#[derive(Debug)]
pub enum BlockExecutionError<E> {
    /// The block or one of its transactions is not valid.
    Validation(BlockValidationError<E>),
    /// Any other error.
    Internal(E),
}

/// A transaction whose execution panicked.
#[derive(Clone, Copy, Debug, PartialEq, Eq)]
pub struct UnprocessableTransactionError {
    pub tx_hash: TxHash,
}

/// The errors that a build reports under [`PayloadBuilderError::Other`].
#[derive(Debug)]
pub enum OtherError<E> {
    /// The execution of a transaction panicked.
    UnprocessableTransaction(UnprocessableTransactionError),
    /// The gas used so far does not fit 64 bits.
    CumulativeGasUsedOverflow,
    /// The sealed block is larger than Osaka allows.
    BlockTooLarge { rlp_length: usize, max_rlp_length: usize },
    /// An error from outside.
    Outside(E),
}

impl<E> OtherError<E> {
    /// The error in words, where the builder has words of its own for it.
    pub fn message(&self) -> (text: Option<String>)
        ensures
            match text {
                Some(text) => *self is CumulativeGasUsedOverflow && text@
                    == "cumulative gas used overflow"@,
                None => !(*self is CumulativeGasUsedOverflow),
            },
    {
        match self {
            OtherError::CumulativeGasUsedOverflow => Some("cumulative gas used overflow".to_owned()),
            _ => None,
        }
    }
}

/// An error of a payload build. `E` is an error from outside.
#[derive(Debug)]
pub enum PayloadBuilderError<E> {
    /// There is no payload to hand out.
    MissingPayload,
    /// An error while the block was set up.
    Internal(E),
    /// An error of the executor.
    EvmExecution(BlockExecutionError<E>),
    /// Any other error.
    Other(OtherError<E>),
}

/// The error is the given blocklist message, and so a blocklist hit.
pub open spec fn blocked_address(err: Option<InvalidTransaction>, blocked: Seq<char>) -> bool {
    err matches Some(InvalidTransaction::Str(message)) && message@ == blocked
}

/// True when an EVM rejection is a blocklist hit: the message that the blocklist
/// rejects with, and nothing else. Such a transaction cannot be included until the
/// address is taken off the list.
pub fn is_blocked_address_error(
    err: Option<&InvalidTransaction>,
    blocked_address_message: &str,
) -> (hit: bool)
    ensures
        hit == (err matches Some(e) && blocked_address(Some(*e), blocked_address_message@)),
        match err {
            Some(InvalidTransaction::Str(message)) => hit == (message@ == blocked_address_message@),
            _ => !hit,
        },
{
    match err {
        Some(InvalidTransaction::Str(message)) => text::str_eq(
            message.as_str(),
            blocked_address_message,
        ),
        _ => false,
    }
}

/// What became of a transaction in the building loop.
#[derive(Debug)]
pub enum TxOutcome<E> {
    /// Executed: count `gas_used` and go on.
    Included(u64),
    /// Skip it silently: its nonce has been used already.
    Skip,
    /// Skip it and mark it invalid, so that its descendants are skipped too.
    SkipAndMarkInvalid,
    /// Its sender or recipient is on the blocklist: skip it, mark it invalid, and
    /// evict it from the pool.
    SkipMarkInvalidAndEvictBlocked,
    /// Its gas limit exceeds the gas that is left: skip it and mark it invalid
    /// with the limits that the executor reported.
    SkipExceedsGasLimit { transaction_gas_limit: u64, block_available_gas: u64 },
    /// This build cannot go on.
    Fatal(PayloadBuilderError<E>),
}

/// The outcome that belongs to an execution result.
pub open spec fn outcome_of<E, P>(
    result: Result<Result<u64, BlockExecutionError<E>>, P>,
    tx_hash: TxHash,
    blocked: Seq<char>,
) -> TxOutcome<E> {
    match result {
        Ok(Ok(gas_used)) => TxOutcome::Included(gas_used),
        Ok(Err(BlockExecutionError::Validation(BlockValidationError::InvalidTx { error }))) => {
            if error.nonce_too_low {
                TxOutcome::Skip
            } else if blocked_address(error.invalid_tx, blocked) {
                TxOutcome::SkipMarkInvalidAndEvictBlocked
            } else {
                TxOutcome::SkipAndMarkInvalid
            }
        },
        Ok(
            Err(
                BlockExecutionError::Validation(
                    BlockValidationError::TransactionGasLimitMoreThanAvailableBlockGas {
                        transaction_gas_limit,
                        block_available_gas,
                    },
                ),
            ),
        ) => TxOutcome::SkipExceedsGasLimit { transaction_gas_limit, block_available_gas },
        Ok(Err(err)) => TxOutcome::Fatal(PayloadBuilderError::EvmExecution(err)),
        Err(_) => TxOutcome::Fatal(
            PayloadBuilderError::Other(
                OtherError::UnprocessableTransaction(UnprocessableTransactionError { tx_hash }),
            ),
        ),
    }
}

/// Sorts the result of executing one transaction into an outcome for the loop.
/// The outer error is the payload of a panic that was caught during execution.
///
/// The executor is the source of truth for the gas that is left in the block: a
/// transaction that it finds too large is skipped, and does not end the build.
pub fn classify_tx_outcome<E, P>(
    result: Result<Result<u64, BlockExecutionError<E>>, P>,
    tx_hash: TxHash,
    blocked_address_message: &str,
) -> (outcome: TxOutcome<E>)
    ensures
        outcome == outcome_of(result, tx_hash, blocked_address_message@),
{
    match result {
        Ok(Ok(gas_used)) => TxOutcome::Included(gas_used),
        Ok(Err(BlockExecutionError::Validation(BlockValidationError::InvalidTx { error }))) => {
            if error.nonce_too_low {
                TxOutcome::Skip
            } else if is_blocked_address_error(error.invalid_tx.as_ref(), blocked_address_message) {
                TxOutcome::SkipMarkInvalidAndEvictBlocked
            } else {
                TxOutcome::SkipAndMarkInvalid
            }
        },
        Ok(
            Err(
                BlockExecutionError::Validation(
                    BlockValidationError::TransactionGasLimitMoreThanAvailableBlockGas {
                        transaction_gas_limit,
                        block_available_gas,
                    },
                ),
            ),
        ) => TxOutcome::SkipExceedsGasLimit { transaction_gas_limit, block_available_gas },
        Ok(Err(err)) => TxOutcome::Fatal(PayloadBuilderError::EvmExecution(err)),
        Err(_) => TxOutcome::Fatal(
            PayloadBuilderError::Other(
                OtherError::UnprocessableTransaction(UnprocessableTransactionError { tx_hash }),
            ),
        ),
    }
}

/// The transaction whose execution panicked, where that is what the error says.
pub open spec fn unprocessable_tx<E>(err: PayloadBuilderError<E>) -> Option<TxHash> {
    match err {
        PayloadBuilderError::Other(OtherError::UnprocessableTransaction(e)) => Some(e.tx_hash),
        _ => None,
    }
}

/// The hash of the transaction whose execution panicked, where that is what the
/// error says.
pub fn extract_unprocessable_tx_hash<E>(err: &PayloadBuilderError<E>) -> (tx_hash: Option<TxHash>)
    ensures
        tx_hash == unprocessable_tx(*err),
        match *err {
            PayloadBuilderError::Other(OtherError::UnprocessableTransaction(e)) => tx_hash == Some(
                e.tx_hash,
            ),
            _ => tx_hash is None,
        },
{
    match err {
        PayloadBuilderError::Other(OtherError::UnprocessableTransaction(e)) => Some(e.tx_hash),
        _ => None,
    }
}

/// A panic during a transaction's execution ends the build with an error from which
/// the transaction's hash is found again.
pub proof fn law_panic_names_its_transaction<E, P>(panic: P, tx_hash: TxHash, blocked: Seq<char>)
    ensures
        outcome_of::<E, P>(Err(panic), tx_hash, blocked) matches TxOutcome::Fatal(err)
            && unprocessable_tx(err) == Some(tx_hash),
{
}

/// A transaction that the executor rejects as invalid, or as too large for the
/// gas that is left, never ends the build.
pub proof fn law_rejected_transaction_is_not_fatal<E, P>(
    error: InvalidTxError,
    transaction_gas_limit: u64,
    block_available_gas: u64,
    tx_hash: TxHash,
    blocked: Seq<char>,
)
    ensures
        !(outcome_of::<E, P>(
            Ok(Err(BlockExecutionError::Validation(BlockValidationError::InvalidTx { error }))),
            tx_hash,
            blocked,
        ) is Fatal),
        !(outcome_of::<E, P>(
            Ok(
                Err(
                    BlockExecutionError::Validation(
                        BlockValidationError::TransactionGasLimitMoreThanAvailableBlockGas {
                            transaction_gas_limit,
                            block_available_gas,
                        },
                    ),
                ),
            ),
            tx_hash,
            blocked,
        ) is Fatal),
{
}

/// A transaction that was executed is included with the gas that it used.
pub proof fn law_executed_transaction_is_included<E, P>(
    gas_used: u64,
    tx_hash: TxHash,
    blocked: Seq<char>,
)
    ensures
        outcome_of::<E, P>(Ok(Ok(gas_used)), tx_hash, blocked) == TxOutcome::<E>::Included(
            gas_used,
        ),
{
}

/// A transaction that the executor holds invalid is skipped silently when its nonce
/// is too low, whatever else is wrong with it. Otherwise it is evicted when the
/// error is the blocklist's message, letter for letter, and only marked invalid on
/// any other error.
pub proof fn law_invalid_transactions_are_told_apart<E, P>(
    message: String,
    nonce_too_low: bool,
    error: Option<InvalidTransaction>,
    tx_hash: TxHash,
    blocked: Seq<char>,
)
    ensures
        ({
            let rejected = |nonce_too_low: bool, invalid_tx: Option<InvalidTransaction>|
                outcome_of::<E, P>(
                    Ok(
                        Err(
                            BlockExecutionError::Validation(
                                BlockValidationError::InvalidTx {
                                    error: InvalidTxError { nonce_too_low, invalid_tx },
                                },
                            ),
                        ),
                    ),
                    tx_hash,
                    blocked,
                );
            let in_words = Some(InvalidTransaction::Str(message));
            &&& rejected(true, error) is Skip
            &&& message@ == blocked ==> rejected(false, in_words) is SkipMarkInvalidAndEvictBlocked
            &&& message@ != blocked ==> rejected(false, in_words) is SkipAndMarkInvalid
            &&& !(error matches Some(InvalidTransaction::Str(_))) ==> rejected(
                false,
                error,
            ) is SkipAndMarkInvalid
        }),
{
}

/// A transaction that the executor finds too large for the gas that is left is
/// skipped, with the executor's own numbers.
pub proof fn law_executor_decides_what_gas_is_left<E, P>(
    transaction_gas_limit: u64,
    block_available_gas: u64,
    tx_hash: TxHash,
    blocked: Seq<char>,
)
    ensures
        outcome_of::<E, P>(
            Ok(
                Err(
                    BlockExecutionError::Validation(
                        BlockValidationError::TransactionGasLimitMoreThanAvailableBlockGas {
                            transaction_gas_limit,
                            block_available_gas,
                        },
                    ),
                ),
            ),
            tx_hash,
            blocked,
        ) == (TxOutcome::<E>::SkipExceedsGasLimit { transaction_gas_limit, block_available_gas }),
{
}

/// Any other error of the executor ends the build, and is handed on as it is.
pub proof fn law_other_executor_errors_end_the_build<E, P>(
    error: E,
    tx_hash: TxHash,
    blocked: Seq<char>,
)
    ensures
        outcome_of::<E, P>(Ok(Err(BlockExecutionError::Internal(error))), tx_hash, blocked)
            == TxOutcome::Fatal(
            PayloadBuilderError::EvmExecution(BlockExecutionError::Internal(error)),
        ),
        outcome_of::<E, P>(
            Ok(Err(BlockExecutionError::Validation(BlockValidationError::Other(error)))),
            tx_hash,
            blocked,
        ) == TxOutcome::Fatal(
            PayloadBuilderError::EvmExecution(
                BlockExecutionError::Validation(BlockValidationError::Other(error)),
            ),
        ),
{
}

/// An error names a transaction just when it is the one about a panic in its execution.
pub proof fn law_only_panics_name_a_transaction<E>(err: PayloadBuilderError<E>, tx_hash: TxHash)
    ensures
        unprocessable_tx(err) == Some(tx_hash) <==> err == PayloadBuilderError::<E>::Other(
            OtherError::UnprocessableTransaction(UnprocessableTransactionError { tx_hash }),
        ),
{
}

} // verus!
