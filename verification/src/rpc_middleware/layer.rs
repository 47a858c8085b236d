//! The stack of middleware that the node puts round its RPC service.
use super::batch::{BatchSizeLimitMiddleware, ARC_RPC_MAX_BATCH_ENTRIES_DEFAULT};
use super::pending::NoPendingTransactionsRpcMiddleware;
use super::relay;
use super::relay::{TxRelayMiddleware, TxRelays};
use super::replay::RejectUnprotectedTxsMiddleware;
use crate::text;
use std::time::Duration;
use vstd::prelude::*;

verus! {

/// One of two services.
#[derive(Clone, Debug)]
pub enum Either<A, B> {
    Left(A),
    Right(B),
}

/// The service, with the relay before it where there is one.
pub type Relayed<S> = Either<TxRelayMiddleware<S>, S>;

/// The service, with the relay and the filter for pending data before it where
/// they are switched on.
pub type Filtered<S> = Either<NoPendingTransactionsRpcMiddleware<Relayed<S>>, Relayed<S>>;

/// The whole stack.
pub type Stack<S> = BatchSizeLimitMiddleware<RejectUnprotectedTxsMiddleware<Filtered<S>>>;

/// The settings of the stack.
#[derive(Clone, Debug)]
pub struct ArcRpcLayer {
    /// Whether pending transactions and the pending block are kept from clients.
    pub filter_pending_txs: bool,
    /// Whether raw transactions without replay protection are let through.
    pub allow_unprotected_txs: bool,
    /// The most bytes that a response may take.
    pub max_response_body_size: usize,
    /// The most entries that a batch may have.
    pub max_batch_entries: usize,
    /// The upstreams that raw transactions are relayed to, if they are.
    pub tx_relays: Option<TxRelays>,
}

impl Default for ArcRpcLayer {
    fn default() -> (layer: ArcRpcLayer)
        ensures
            layer.filter_pending_txs,
            !layer.allow_unprotected_txs,
            layer.max_response_body_size == usize::MAX,
            layer.max_batch_entries == ARC_RPC_MAX_BATCH_ENTRIES_DEFAULT,
            layer.max_batch_entries == 100,
            layer.tx_relays is None,
    {
        ArcRpcLayer {
            filter_pending_txs: true,
            allow_unprotected_txs: false,
            max_response_body_size: usize::MAX,
            max_batch_entries: ARC_RPC_MAX_BATCH_ENTRIES_DEFAULT,
            tx_relays: None,
        }
    }
}

impl ArcRpcLayer {
    pub fn new(
        filter_pending_txs: bool,
        allow_unprotected_txs: bool,
        max_response_body_size: usize,
        max_batch_entries: usize,
        tx_relays: Vec<String>,
        tx_relay_timeout: Duration,
    ) -> (layer: ArcRpcLayer)
        ensures
            layer.filter_pending_txs == filter_pending_txs,
            layer.allow_unprotected_txs == allow_unprotected_txs,
            layer.max_response_body_size == max_response_body_size,
            layer.max_batch_entries == max_batch_entries,
            match layer.tx_relays {
                Some(relays) => {
                    &&& relay::valid_urls(text::texts(tx_relays@)).len() > 0
                    &&& text::texts(relays.upstreams@) == relay::valid_urls(
                        text::texts(tx_relays@),
                    )
                    &&& relays.max_response_body_size == max_response_body_size
                    &&& relays.request_timeout == tx_relay_timeout
                },
                None => relay::valid_urls(text::texts(tx_relays@)).len() == 0,
            },
    {
        ArcRpcLayer {
            filter_pending_txs,
            allow_unprotected_txs,
            max_response_body_size,
            max_batch_entries,
            tx_relays: TxRelays::new(
                tx_relays.as_slice(),
                max_response_body_size,
                tx_relay_timeout,
            ),
        }
    }

    /// The stack round `inner`: the size limit for batches, then the check for replay
    /// protection, then the filter for pending data if it is on, then the relay
    /// if there are upstreams.
    pub fn layer<S>(&self, inner: S) -> (stack: Stack<S>)
        ensures
            stack == layered(*self, inner),
    {
        let relayed: Relayed<S> = match &self.tx_relays {
            Some(relays) => Either::Left(
                TxRelayMiddleware { service: inner, relays: relays.clone() },
            ),
            None => Either::Right(inner),
        };
        let filtered: Filtered<S> = if self.filter_pending_txs {
            Either::Left(
                NoPendingTransactionsRpcMiddleware {
                    service: relayed,
                    max_response_body_size: self.max_response_body_size,
                },
            )
        } else {
            Either::Right(relayed)
        };
        BatchSizeLimitMiddleware {
            service: RejectUnprotectedTxsMiddleware {
                service: filtered,
                allow_unprotected_txs: self.allow_unprotected_txs,
                max_response_body_size: self.max_response_body_size,
            },
            max_entries: self.max_batch_entries,
        }
    }
}

/// The stack round a service.
pub open spec fn layered<S>(layer: ArcRpcLayer, inner: S) -> Stack<S> {
    let relayed: Relayed<S> = match layer.tx_relays {
        Some(relays) => Either::Left(TxRelayMiddleware { service: inner, relays }),
        None => Either::Right(inner),
    };
    let filtered: Filtered<S> = if layer.filter_pending_txs {
        Either::Left(
            NoPendingTransactionsRpcMiddleware {
                service: relayed,
                max_response_body_size: layer.max_response_body_size,
            },
        )
    } else {
        Either::Right(relayed)
    };
    BatchSizeLimitMiddleware {
        service: RejectUnprotectedTxsMiddleware {
            service: filtered,
            allow_unprotected_txs: layer.allow_unprotected_txs,
            max_response_body_size: layer.max_response_body_size,
        },
        max_entries: layer.max_batch_entries,
    }
}

/// The size limit for batches and the check for replay protection are there
/// whether pending data is filtered or not.
pub proof fn law_limits_hold_with_and_without_the_filter<S>(layer: ArcRpcLayer, inner: S)
    ensures
        layered(layer, inner).max_entries == layer.max_batch_entries,
        layered(layer, inner).service.allow_unprotected_txs == layer.allow_unprotected_txs,
        layered(layer, inner).service.service is Left <==> layer.filter_pending_txs,
{
}

/// The relay stands innermost, and is there just when there are upstreams; the filter stands
/// before it, and is there just when it is switched on. All of them keep to the limit for
/// responses, and whatever is switched on, the service itself is the given one.
pub proof fn law_stack_follows_the_settings<S>(layer: ArcRpcLayer, inner: S)
    ensures
        layered(layer, inner).service.max_response_body_size == layer.max_response_body_size,
        layer.filter_pending_txs ==> (layered(layer, inner).service.service matches Either::Left(
            filter,
        ) && filter.max_response_body_size == layer.max_response_body_size && (
        layer.tx_relays matches Some(relays) ==> filter.service == Either::<
            TxRelayMiddleware<S>,
            S,
        >::Left(TxRelayMiddleware { service: inner, relays })) && (layer.tx_relays is None
            ==> filter.service == Either::<TxRelayMiddleware<S>, S>::Right(inner))),
        !layer.filter_pending_txs ==> (layered(layer, inner).service.service matches Either::Right(
            relayed,
        ) && (layer.tx_relays matches Some(relays) ==> relayed == Either::<
            TxRelayMiddleware<S>,
            S,
        >::Left(TxRelayMiddleware { service: inner, relays })) && (layer.tx_relays is None
            ==> relayed == Either::<TxRelayMiddleware<S>, S>::Right(inner))),
{
}

} // verus!
