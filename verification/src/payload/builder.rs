//! The payload builders and their settings.
use super::eviction;
use super::eviction::{evict_unincludable_txs, handle_build_res, BuildResolution, EvictionPlan};
use super::outcome::{PayloadBuilderError, TxHash};
use super::u256::U256;
use vstd::prelude::*;

verus! {

/// What came of a build. `T` is the payload, and `R` is what was read from the state
/// on the way, kept for the next build.
#[derive(Debug)]
pub enum BuildOutcome<T, R> {
    /// A payload better than the best one so far.
    Better { payload: T, cached_reads: R },
    /// The block was no better than the best one so far.
    Aborted { fees: U256, cached_reads: R },
    /// The build was cancelled.
    Cancelled,
}

/// What to do when a payload is asked for and none is there yet.
#[derive(Clone, Copy, Debug, PartialEq, Eq, Structural)]
pub enum MissingPayloadBehaviour {
    /// Wait for the build in flight.
    AwaitInProgress,
    /// Build an empty payload at the same time.
    RaceEmptyPayload,
}

/// The settings of an Ethereum payload builder.
#[derive(Clone, Copy, Debug, PartialEq, Eq, Structural)]
pub struct EthereumBuilderConfig {
    /// The gas limit to aim for.
    pub gas_limit: u64,
    /// Whether a missing payload waits for the build in flight.
    pub await_payload_on_missing: bool,
}

/// Makes the node's payload builder. `L` is an invalid-transaction list.
#[derive(Clone, Debug)]
pub struct ArcNetworkPayloadBuilderBuilder<L> {
    /// The list for transactions that must not come back, if there is one.
    pub invalid_tx_list: Option<L>,
    /// How long a build may take, in milliseconds. Without it the node's own
    /// deadline holds.
    pub payload_builder_deadline_ms: Option<u64>,
    /// Whether a missing payload waits for the build in flight.
    pub wait_for_payload: bool,
}

impl<L> ArcNetworkPayloadBuilderBuilder<L> {
    pub fn new(
        invalid_tx_list: Option<L>,
        payload_builder_deadline_ms: Option<u64>,
        wait_for_payload: bool,
    ) -> (made: Self)
        ensures
            made.invalid_tx_list == invalid_tx_list,
            made.payload_builder_deadline_ms == payload_builder_deadline_ms,
            made.wait_for_payload == wait_for_payload,
    {
        ArcNetworkPayloadBuilderBuilder {
            invalid_tx_list,
            payload_builder_deadline_ms,
            wait_for_payload,
        }
    }

    /// The deadline of a build, in nanoseconds: the own one, or else that of the node.
    pub fn deadline(&self, node_deadline: u128) -> (nanos: u128)
        ensures
            nanos == (match self.payload_builder_deadline_ms {
                Some(ms) => ms * 1_000_000,
                None => node_deadline as int,
            }),
    {
        match self.payload_builder_deadline_ms {
            Some(ms) => ms as u128 * 1_000_000,
            None => node_deadline,
        }
    }

    /// Makes the payload builder: an Ethereum builder with the node's gas limit and
    /// the deadline, behind the filter for transactions that cannot be included.
    /// `pool_for_builder` and `pool` are handles to the same pool.
    pub fn build_payload_builder<Pool, Client, EvmConfig>(
        self,
        client: Client,
        pool_for_builder: Pool,
        pool: Pool,
        evm_config: EvmConfig,
        gas_limit: u64,
        node_deadline: u128,
    ) -> (made: InvalidTxFilteringPayloadBuilder<
        ArcEthereumPayloadBuilder<Pool, Client, EvmConfig>,
        Pool,
        L,
    >)
        ensures
            made.pool == pool,
            made.invalid_tx_list == self.invalid_tx_list,
            made.inner.client == client,
            made.inner.pool == pool_for_builder,
            made.inner.evm_config == evm_config,
            made.inner.builder_config == (EthereumBuilderConfig {
                gas_limit,
                await_payload_on_missing: self.wait_for_payload,
            }),
            made.inner.loop_time_limit matches Some(nanos) && nanos == (
            match self.payload_builder_deadline_ms {
                Some(ms) => ms * 1_000_000,
                None => node_deadline as int,
            }),
    {
        let nanos: u128 = self.deadline(node_deadline);
        let inner = ArcEthereumPayloadBuilder::new(
            client,
            pool_for_builder,
            evm_config,
            EthereumBuilderConfig { gas_limit, await_payload_on_missing: self.wait_for_payload },
            Some(nanos),
        );
        InvalidTxFilteringPayloadBuilder { inner, pool, invalid_tx_list: self.invalid_tx_list }
    }
}

/// A payload builder that evicts the transactions which made the inner one fail
/// or panic. `L` is an invalid-transaction list.
#[derive(Clone, Debug)]
pub struct InvalidTxFilteringPayloadBuilder<B, P, L> {
    pub inner: B,
    pub pool: P,
    pub invalid_tx_list: Option<L>,
}

impl<B, P, L> InvalidTxFilteringPayloadBuilder<B, P, L> {
    /// Decides what to do about a result of the inner builder. `C` is the payload
    /// of a caught panic.
    pub fn resolve<T, E, C>(&self, res: Result<Result<T, PayloadBuilderError<E>>, C>) -> (resolution:
        BuildResolution<T, E, C>)
        ensures
            eviction::resolves(resolution, res, self.invalid_tx_list is Some),
            match res {
                Ok(result) => resolution matches BuildResolution::Return { result: returned, .. }
                    && returned == result,
                Err(panic) => resolution == (BuildResolution::<T, E, C>::PurgePendingAndResume {
                    panic,
                }),
            },
    {
        handle_build_res(res, self.invalid_tx_list.is_some())
    }

    /// Plans the eviction of every pending transaction after a panic.
    pub fn purge_pending(&self, pending_hashes: Vec<TxHash>) -> (plan: EvictionPlan)
        ensures
            eviction::evicts(plan, self.invalid_tx_list is Some, pending_hashes@),
            plan.remove@ == pending_hashes@,
            self.invalid_tx_list is Some ==> plan.quarantine@ == pending_hashes@,
            self.invalid_tx_list is None ==> plan.quarantine@.len() == 0,
    {
        evict_unincludable_txs(self.invalid_tx_list.is_some(), pending_hashes)
    }
}

/// An Ethereum payload builder with a time budget for its loop, so that a full pool
/// does not delay the block.
#[derive(Clone, Debug, PartialEq, Eq)]
pub struct ArcEthereumPayloadBuilder<Pool, Client, EvmConfig> {
    /// Access to the node's state.
    pub client: Client,
    /// The transaction pool.
    pub pool: Pool,
    /// What makes the EVM.
    pub evm_config: EvmConfig,
    /// The settings of the builder.
    pub builder_config: EthereumBuilderConfig,
    /// How long the loop may run, in nanoseconds, if that is limited.
    pub loop_time_limit: Option<u128>,
}

/// The payload of a build that must have one.
pub open spec fn payload_or_missing<T, R, E>(
    outcome: Result<BuildOutcome<T, R>, PayloadBuilderError<E>>,
) -> Result<T, PayloadBuilderError<E>> {
    match outcome {
        Ok(BuildOutcome::Better { payload, .. }) => Ok(payload),
        Ok(_) => Err(PayloadBuilderError::MissingPayload),
        Err(e) => Err(e),
    }
}

impl<Pool, Client, EvmConfig> ArcEthereumPayloadBuilder<Pool, Client, EvmConfig> {
    pub fn new(
        client: Client,
        pool: Pool,
        evm_config: EvmConfig,
        builder_config: EthereumBuilderConfig,
        loop_time_limit: Option<u128>,
    ) -> (made: Self)
        ensures
            made.client == client,
            made.pool == pool,
            made.evm_config == evm_config,
            made.builder_config == builder_config,
            made.loop_time_limit == loop_time_limit,
    {
        ArcEthereumPayloadBuilder { client, pool, evm_config, builder_config, loop_time_limit }
    }

    /// A missing payload waits for the build in flight where the settings say so,
    /// in place of racing a second build.
    pub fn on_missing_payload(&self) -> (behaviour: MissingPayloadBehaviour)
        ensures
            behaviour == (if self.builder_config.await_payload_on_missing {
                MissingPayloadBehaviour::AwaitInProgress
            } else {
                MissingPayloadBehaviour::RaceEmptyPayload
            }),
    {
        if self.builder_config.await_payload_on_missing {
            MissingPayloadBehaviour::AwaitInProgress
        } else {
            MissingPayloadBehaviour::RaceEmptyPayload
        }
    }

    /// The payload of a build without a best payload to beat: an outcome without a
    /// payload is an error.
    pub fn build_empty_payload<T, R, E>(
        &self,
        outcome: Result<BuildOutcome<T, R>, PayloadBuilderError<E>>,
    ) -> (payload: Result<T, PayloadBuilderError<E>>)
        ensures
            payload == payload_or_missing(outcome),
            match outcome {
                Ok(BuildOutcome::Better { payload: built, .. }) => payload == Ok::<
                    T,
                    PayloadBuilderError<E>,
                >(built),
                Ok(_) => payload == Err::<T, PayloadBuilderError<E>>(
                    PayloadBuilderError::MissingPayload,
                ),
                Err(e) => payload == Err::<T, PayloadBuilderError<E>>(e),
            },
    {
        match outcome {
            Ok(BuildOutcome::Better { payload, .. }) => Ok(payload),
            Ok(_) => Err(PayloadBuilderError::MissingPayload),
            Err(e) => Err(e),
        }
    }
}

/// A build that must have a payload gives its own one; without one it gives the error for
/// a missing payload, and an error of the build as it is.
pub proof fn law_only_a_better_payload_counts<T, R, E>(
    payload: T,
    fees: U256,
    cached_reads: R,
    error: PayloadBuilderError<E>,
)
    ensures
        payload_or_missing::<T, R, E>(Ok(BuildOutcome::Better { payload, cached_reads })) == Ok::<
            T,
            PayloadBuilderError<E>,
        >(payload),
        payload_or_missing::<T, R, E>(Ok(BuildOutcome::Aborted { fees, cached_reads })) == Err::<
            T,
            PayloadBuilderError<E>,
        >(PayloadBuilderError::MissingPayload),
        payload_or_missing::<T, R, E>(Ok(BuildOutcome::Cancelled)) == Err::<
            T,
            PayloadBuilderError<E>,
        >(PayloadBuilderError::MissingPayload),
        payload_or_missing::<T, R, E>(Err(error)) == Err::<T, PayloadBuilderError<E>>(error),
{
}

} // verus!
