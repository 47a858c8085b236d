//! Evicting transactions that cannot be included, after a failed build too.
use super::outcome;
use super::outcome::{
    extract_unprocessable_tx_hash, OtherError, PayloadBuilderError, TxHash,
    UnprocessableTransactionError,
};
use vstd::prelude::*;

verus! {

/// What an eviction has to do.
#[derive(Debug)]
pub struct EvictionPlan {
    /// Whether there is an invalid-transaction list to put the hashes on.
    pub quarantined: bool,
    /// The hashes to put on the list first: none without a list.
    pub quarantine: Vec<TxHash>,
    /// The hashes to remove from the pool, descendants included.
    pub remove: Vec<TxHash>,
}

/// The plan evicts exactly `hashes`, and puts them on the list if there is one.
pub open spec fn evicts(plan: EvictionPlan, has_invalid_tx_list: bool, hashes: Seq<TxHash>) -> bool {
    &&& plan.quarantined == has_invalid_tx_list
    &&& plan.quarantine@ == (if has_invalid_tx_list {
        hashes
    } else {
        Seq::<TxHash>::empty()
    })
    &&& plan.remove@ == hashes
}

/// Plans the eviction of transactions that can never be included.
///
/// Removal from the pool frees the slot and the sender's nonce, and happens with
/// or without an invalid-transaction list. Where there is a list, the hashes go
/// on it too, so that they are not gossiped back in.
pub fn evict_unincludable_txs(has_invalid_tx_list: bool, hashes: Vec<TxHash>) -> (plan:
    EvictionPlan)
    ensures
        evicts(plan, has_invalid_tx_list, hashes@),
        plan.remove@ == hashes@,
        has_invalid_tx_list ==> plan.quarantine@ == hashes@,
        !has_invalid_tx_list ==> plan.quarantine@.len() == 0,
{
    let mut quarantine: Vec<TxHash> = Vec::new();
    if has_invalid_tx_list {
        let mut i: usize = 0;
        while i < hashes.len()
            invariant
                i <= hashes.len(),
                quarantine@ =~= hashes@.take(i as int),
            decreases hashes.len() - i,
        {
            quarantine.push(hashes[i]);
            i = i + 1;
        }
        assert(hashes@.take(hashes@.len() as int) =~= hashes@);
    }
    EvictionPlan { quarantined: has_invalid_tx_list, quarantine, remove: hashes }
}

/// Plans the eviction of one transaction without putting it on a list: it may be
/// valid again later, so only its slot in the pool is freed.
pub fn evict_one(hash: TxHash) -> (plan: EvictionPlan)
    ensures
        evicts(plan, false, seq![hash]),
        plan.remove@ == seq![hash],
        plan.quarantine@.len() == 0,
{
    let mut hashes: Vec<TxHash> = Vec::new();
    hashes.push(hash);
    evict_unincludable_txs(false, hashes)
}

/// The eviction that an error of a build calls for: of the transaction whose
/// execution panicked, if the error names one.
pub open spec fn purges<E>(
    plan: Option<EvictionPlan>,
    error: PayloadBuilderError<E>,
    has_invalid_tx_list: bool,
) -> bool {
    match outcome::unprocessable_tx(error) {
        Some(tx_hash) => plan matches Some(p) && evicts(p, has_invalid_tx_list, seq![tx_hash]),
        None => plan is None,
    }
}

/// Plans the eviction of the transaction whose execution panicked, if the error
/// names one. The error itself stays the caller's to hand on.
pub fn purge_unprocessable_tx<E>(error: &PayloadBuilderError<E>, has_invalid_tx_list: bool) -> (plan:
    Option<EvictionPlan>)
    ensures
        purges(plan, *error, has_invalid_tx_list),
        match *error {
            PayloadBuilderError::Other(OtherError::UnprocessableTransaction(e)) => plan matches Some(
                p,
            ) && p.remove@ == seq![e.tx_hash] && p.quarantine@ == (if has_invalid_tx_list {
                seq![e.tx_hash]
            } else {
                Seq::<TxHash>::empty()
            }),
            _ => plan is None,
        },
{
    match extract_unprocessable_tx_hash(error) {
        Some(tx_hash) => {
            let mut hashes: Vec<TxHash> = Vec::new();
            hashes.push(tx_hash);
            assert(hashes@ =~= seq![tx_hash]);
            Some(evict_unincludable_txs(has_invalid_tx_list, hashes))
        },
        None => None,
    }
}

/// What to do about the result of a build. `P` is the payload of a caught panic.
#[derive(Debug)]
pub enum BuildResolution<T, E, P> {
    /// Carry out the eviction, if any, and return the result.
    Return { result: Result<T, PayloadBuilderError<E>>, eviction: Option<EvictionPlan> },
    /// Evict every pending transaction, and let the panic go on.
    PurgePendingAndResume { panic: P },
}

/// The resolution that belongs to the result of a build.
pub open spec fn resolves<T, E, P>(
    resolution: BuildResolution<T, E, P>,
    res: Result<Result<T, PayloadBuilderError<E>>, P>,
    has_invalid_tx_list: bool,
) -> bool {
    match res {
        Ok(Ok(outcome)) => resolution == (BuildResolution::<T, E, P>::Return {
            result: Ok(outcome),
            eviction: None,
        }),
        Ok(Err(e)) => resolution matches BuildResolution::Return { result, eviction } && result
            == Err::<T, PayloadBuilderError<E>>(e) && purges(eviction, e, has_invalid_tx_list),
        Err(panic) => resolution == (BuildResolution::<T, E, P>::PurgePendingAndResume { panic }),
    }
}

/// Decides what to do about the result of a build, panics included:
///
/// * success is returned as it is;
/// * an error is returned as it is, after the transaction that it names, if any,
///   has been evicted;
/// * a panic evicts every pending transaction, and goes on.
pub fn handle_build_res<T, E, P>(
    res: Result<Result<T, PayloadBuilderError<E>>, P>,
    has_invalid_tx_list: bool,
) -> (resolution: BuildResolution<T, E, P>)
    ensures
        resolves(resolution, res, has_invalid_tx_list),
{
    match res {
        Ok(Ok(outcome)) => BuildResolution::Return { result: Ok(outcome), eviction: None },
        Ok(Err(e)) => {
            let eviction: Option<EvictionPlan> = purge_unprocessable_tx(&e, has_invalid_tx_list);
            BuildResolution::Return { result: Err(e), eviction }
        },
        Err(panic) => BuildResolution::PurgePendingAndResume { panic },
    }
}

/// Whatever an eviction puts on the list it also removes from the pool, and a
/// transaction is removed whether there is a list or not.
pub proof fn law_eviction_always_frees_the_pool(
    plan: EvictionPlan,
    has_invalid_tx_list: bool,
    hashes: Seq<TxHash>,
    hash: TxHash,
)
    requires
        evicts(plan, has_invalid_tx_list, hashes),
    ensures
        hashes.contains(hash) ==> plan.remove@.contains(hash),
        plan.quarantine@.contains(hash) ==> plan.remove@.contains(hash),
        !has_invalid_tx_list ==> plan.quarantine@.len() == 0,
{
}

/// An error that names no transaction evicts nothing.
pub proof fn law_other_errors_evict_nothing<T, E, P>(
    resolution: BuildResolution<T, E, P>,
    error: PayloadBuilderError<E>,
    has_invalid_tx_list: bool,
)
    requires
        resolves(resolution, Ok(Err(error)), has_invalid_tx_list),
        outcome::unprocessable_tx(error) is None,
    ensures
        resolution == (BuildResolution::<T, E, P>::Return { result: Err(error), eviction: None }),
{
}

/// A plan evicts the given transactions, each once for each time that it is given,
/// and no other: they are removed in their order, and put on the list just when
/// there is one.
pub proof fn law_eviction_is_exact(
    plan: EvictionPlan,
    has_invalid_tx_list: bool,
    hashes: Seq<TxHash>,
)
    ensures
        evicts(plan, has_invalid_tx_list, hashes) <==> {
            &&& plan.quarantined == has_invalid_tx_list
            &&& plan.remove@.len() == hashes.len()
            &&& forall|i: int| 0 <= i < hashes.len() ==> #[trigger] plan.remove@[i] == hashes[i]
            &&& has_invalid_tx_list ==> plan.quarantine@ == plan.remove@
            &&& !has_invalid_tx_list ==> plan.quarantine@.len() == 0
        },
{
    if plan.remove@.len() == hashes.len() && (forall|i: int|
        0 <= i < hashes.len() ==> #[trigger] plan.remove@[i] == hashes[i]) {
        assert(plan.remove@ =~= hashes);
    }
    if plan.quarantine@.len() == 0 {
        assert(plan.quarantine@ =~= Seq::<TxHash>::empty());
    }
}

/// A build that ends with a result or an error hands it on as it is. Only the error
/// about a panic in a transaction's execution evicts something, and that is this
/// transaction. A panic of the build itself goes on with its own payload.
pub proof fn law_results_are_handed_on<T, E, P>(
    resolution: BuildResolution<T, E, P>,
    outcome: T,
    error: PayloadBuilderError<E>,
    panic: P,
    tx_hash: TxHash,
    has_invalid_tx_list: bool,
)
    ensures
        resolves(resolution, Ok(Ok(outcome)), has_invalid_tx_list) ==> {
            &&& resolution matches BuildResolution::Return { result, eviction }
            &&& result == Ok::<T, PayloadBuilderError<E>>(outcome)
            &&& eviction is None
        },
        resolves(resolution, Ok(Err(error)), has_invalid_tx_list) ==> {
            &&& resolution matches BuildResolution::Return { result, eviction }
            &&& result == Err::<T, PayloadBuilderError<E>>(error)
            &&& error == PayloadBuilderError::<E>::Other(
                OtherError::UnprocessableTransaction(UnprocessableTransactionError { tx_hash }),
            ) ==> (eviction matches Some(plan) && plan.remove@ == seq![tx_hash]
                && plan.quarantine@ == (if has_invalid_tx_list {
                seq![tx_hash]
            } else {
                Seq::<TxHash>::empty()
            }))
            &&& !(error matches PayloadBuilderError::Other(
                OtherError::UnprocessableTransaction(_),
            )) ==> eviction is None
        },
        resolves(resolution, Err(panic), has_invalid_tx_list) ==> resolution == (BuildResolution::<
            T,
            E,
            P,
        >::PurgePendingAndResume { panic }),
{
}

} // verus!
