//! Requests that would show pending transactions or the pending block.
use super::batch;
use super::batch::{BatchAction, BatchEntry, BatchRun, CallAction};
use super::jsonrpc;
use super::jsonrpc::{error_response, null_value, success_response, ErrorObject, Request};
use super::params;
use super::params::{extract_param, BlockId, BlockNumberOrTag, SubscriptionKind};
use crate::text;
use jsonrpsee::MethodResponse;
use vstd::prelude::*;

verus! {

/// The error code for a filter or a subscription on pending transactions.
pub const PENDING_TX_SUBSCRIPTION_ERROR_CODE: i32 = -32001;

/// What the middleware does about a request.
pub enum Verdict {
    /// It is answered with this error.
    Refuse(jsonrpc::ErrorModel),
    /// It is answered with `null`.
    AnswerNull,
    /// It goes to the service behind.
    Pass,
}

/// The error that refuses a filter on pending transactions.
pub open spec fn filter_error() -> jsonrpc::ErrorModel {
    jsonrpc::plain_error(
        PENDING_TX_SUBSCRIPTION_ERROR_CODE as int,
        "Pending transaction filters are not allowed"@,
    )
}

/// The error that refuses a subscription to pending transactions.
pub open spec fn subscription_error() -> jsonrpc::ErrorModel {
    jsonrpc::plain_error(
        PENDING_TX_SUBSCRIPTION_ERROR_CODE as int,
        "Subscriptions to pending transactions are not allowed"@,
    )
}

/// The error for a method, and the kind of subscription that it asks for.
pub open spec fn refusal(method: Seq<char>, kind: Option<SubscriptionKind>) -> Option<
    jsonrpc::ErrorModel,
> {
    if method == "eth_newPendingTransactionFilter"@ {
        Some(filter_error())
    } else if method == "eth_subscribe"@ && kind == Some(SubscriptionKind::NewPendingTransactions) {
        Some(subscription_error())
    } else {
        None
    }
}

/// The kind of subscription that parameters ask for.
pub open spec fn kind_of(params: Option<Seq<char>>) -> Option<SubscriptionKind> {
    params::param::<SubscriptionKind>(params, seq!["kind"@])
}

/// The method reads a block that its parameters name by number or tag.
pub open spec fn reads_block(method: Seq<char>) -> bool {
    ||| method == "eth_getBlockByNumber"@
    ||| method == "eth_getBlockReceipts"@
    ||| method == "eth_getBlockTransactionCountByNumber"@
    ||| method == "eth_getTransactionByBlockNumberAndIndex"@
    ||| method == "eth_getRawTransactionByBlockNumberAndIndex"@
    ||| method == "eth_getUncleCountByBlockNumber"@
    ||| method == "eth_getHeaderByNumber"@
}

/// The name of the parameter that holds the block's number or tag.
pub open spec fn block_key(method: Seq<char>) -> Seq<char> {
    if method == "eth_getHeaderByNumber"@ {
        "hash"@
    } else {
        "number"@
    }
}

/// The block that a method reads is the pending one: the block id of the receipts,
/// the number or tag of any other.
pub open spec fn names_pending_block(
    method: Seq<char>,
    id: Option<BlockId>,
    number: Option<BlockNumberOrTag>,
) -> bool {
    if !reads_block(method) {
        false
    } else if method == "eth_getBlockReceipts"@ {
        id == Some(BlockId::Number(BlockNumberOrTag::Pending))
    } else {
        number == Some(BlockNumberOrTag::Pending)
    }
}

/// The request reads the pending block.
pub open spec fn reads_pending_block(req: jsonrpc::RequestModel) -> bool {
    names_pending_block(
        req.method,
        params::param::<BlockId>(req.params, seq!["block_id"@, "blockId"@]),
        params::param::<BlockNumberOrTag>(req.params, seq![block_key(req.method)]),
    )
}

/// The verdict on a request.
pub open spec fn verdict(req: jsonrpc::RequestModel) -> Verdict {
    match refusal(req.method, kind_of(req.params)) {
        Some(error) => Verdict::Refuse(error),
        None => if req.method == "eth_getTransactionBySenderAndNonce"@ || reads_pending_block(req) {
            Verdict::AnswerNull
        } else {
            Verdict::Pass
        },
    }
}

/// The error for a method, and the kind of subscription that it asks for: filters
/// on pending transactions are refused, and subscriptions to them.
pub fn refuse_pending_tx_rpc(method: &str, kind: Option<SubscriptionKind>) -> (result: Result<
    (),
    ErrorObject,
>)
    ensures
        match refusal(method@, kind) {
            Some(refused) => result matches Err(error) && error@ == refused,
            None => result is Ok,
        },
{
    if text::str_eq(method, "eth_newPendingTransactionFilter") {
        return Err(
            ErrorObject::plain(
                PENDING_TX_SUBSCRIPTION_ERROR_CODE,
                "Pending transaction filters are not allowed",
            ),
        );
    }
    if text::str_eq(method, "eth_subscribe") {
        if let Some(SubscriptionKind::NewPendingTransactions) = kind {
            return Err(
                ErrorObject::plain(
                    PENDING_TX_SUBSCRIPTION_ERROR_CODE,
                    "Subscriptions to pending transactions are not allowed",
                ),
            );
        }
    }
    Ok(())
}

/// The error for a filter on pending transactions or a subscription to them.
pub fn error_if_pending_tx_rpc(req: &Request) -> (result: Result<(), ErrorObject>)
    ensures
        match refusal(req@.method, kind_of(req@.params)) {
            Some(refused) => result matches Err(error) && error@ == refused,
            None => result is Ok,
        },
{
    let method: &str = req.method.as_str();
    let kind: Option<SubscriptionKind> = if text::str_eq(method, "eth_subscribe") {
        proof {
            assert(params::key_texts(["kind"]@) =~= seq!["kind"@]);
        }
        extract_param::<SubscriptionKind>(&req.params, &["kind"])
    } else {
        None
    };
    refuse_pending_tx_rpc(method, kind)
}

/// Whether the request asks the transaction pool for a pending transaction.
pub fn is_pool_pending_tx_lookup(req: &Request) -> (lookup: bool)
    ensures
        lookup == (req@.method == "eth_getTransactionBySenderAndNonce"@),
{
    text::str_eq(req.method.as_str(), "eth_getTransactionBySenderAndNonce")
}

/// Whether the method reads a block that its parameters name by number or tag.
pub fn is_pending_block_method(method: &str) -> (reads: bool)
    ensures
        reads == reads_block(method@),
{
    text::str_eq(method, "eth_getBlockByNumber") || text::str_eq(method, "eth_getBlockReceipts")
        || text::str_eq(method, "eth_getBlockTransactionCountByNumber") || text::str_eq(
        method,
        "eth_getTransactionByBlockNumberAndIndex",
    ) || text::str_eq(method, "eth_getRawTransactionByBlockNumberAndIndex") || text::str_eq(
        method,
        "eth_getUncleCountByBlockNumber",
    ) || text::str_eq(method, "eth_getHeaderByNumber")
}

/// Whether the block that a method reads is the pending one. The block's receipts
/// are asked for by a block id, which can be an object; every other method takes a
/// number or a tag.
pub fn is_pending_block(
    method: &str,
    id: Option<BlockId>,
    number: Option<BlockNumberOrTag>,
) -> (pending: bool)
    ensures
        pending == names_pending_block(method@, id, number),
        pending ==> id == Some(BlockId::Number(BlockNumberOrTag::Pending)) || number == Some(
            BlockNumberOrTag::Pending,
        ),
        method@ == "eth_getBlockReceipts"@ ==> pending == (id == Some(
            BlockId::Number(BlockNumberOrTag::Pending),
        )),
        method@ == "eth_getBlockByNumber"@ || method@ == "eth_getBlockTransactionCountByNumber"@
            || method@ == "eth_getTransactionByBlockNumberAndIndex"@ || method@
            == "eth_getRawTransactionByBlockNumberAndIndex"@ || method@
            == "eth_getUncleCountByBlockNumber"@ || method@ == "eth_getHeaderByNumber"@ ==> pending
            == (number == Some(BlockNumberOrTag::Pending)),
{
    proof {
        lemma_method_names_differ();
    }
    if !is_pending_block_method(method) {
        return false;
    }
    if text::str_eq(method, "eth_getBlockReceipts") {
        return match id {
            Some(id) => id.is_pending(),
            None => false,
        };
    }
    match number {
        Some(number) => number.is_pending(),
        None => false,
    }
}

/// Whether the request reads the pending block.
pub fn is_pending_block_query(req: &Request) -> (pending: bool)
    ensures
        pending == reads_pending_block(req@),
{
    let method: &str = req.method.as_str();
    if !is_pending_block_method(method) {
        return false;
    }
    if text::str_eq(method, "eth_getBlockReceipts") {
        proof {
            assert(params::key_texts(["block_id", "blockId"]@) =~= seq!["block_id"@, "blockId"@]);
        }
        let id: Option<BlockId> = extract_param::<BlockId>(&req.params, &["block_id", "blockId"]);
        return is_pending_block(method, id, None);
    }
    let key: &str = if text::str_eq(method, "eth_getHeaderByNumber") {
        "hash"
    } else {
        "number"
    };
    proof {
        assert(params::key_texts([key]@) =~= seq![key@]);
    }
    let number: Option<BlockNumberOrTag> = extract_param::<BlockNumberOrTag>(&req.params, &[key]);
    is_pending_block(method, None, number)
}

/// The response that answers a request with `null`.
pub fn null_response(req: &Request) -> (response: MethodResponse)
    ensures
        jsonrpc::answers_result(response, req@.id, "null"@),
{
    success_response(&req.id, null_value(), usize::MAX)
}

/// Answers a request that would show pending data, and lets any other pass.
pub fn intercept_or_forward(req: &Request) -> (action: CallAction)
    ensures
        match verdict(req@) {
            Verdict::Refuse(refused) => action matches CallAction::Reply(response)
                && jsonrpc::answers_error(response, req@.id, refused),
            Verdict::AnswerNull => action matches CallAction::Reply(response)
                && jsonrpc::answers_result(response, req@.id, "null"@),
            Verdict::Pass => action is Forward,
        },
{
    if let Err(error) = error_if_pending_tx_rpc(req) {
        return CallAction::Reply(error_response(&req.id, error));
    }
    if is_pool_pending_tx_lookup(req) || is_pending_block_query(req) {
        return CallAction::Reply(null_response(req));
    }
    CallAction::Forward
}

/// Keeps pending transactions and the pending block from RPC clients.
#[derive(Clone, Debug)]
pub struct NoPendingTransactionsRpcMiddleware<S> {
    pub service: S,
    pub max_response_body_size: usize,
}

impl<S> NoPendingTransactionsRpcMiddleware<S> {
    pub fn new(service: S) -> (made: Self)
        ensures
            made.service == service,
            made.max_response_body_size == usize::MAX,
    {
        NoPendingTransactionsRpcMiddleware { service, max_response_body_size: usize::MAX }
    }

    /// Answers a request that would show pending data, and lets any other pass.
    pub fn call(&self, req: &Request) -> (action: CallAction)
        ensures
            match verdict(req@) {
                Verdict::Refuse(refused) => action matches CallAction::Reply(response)
                    && jsonrpc::answers_error(response, req@.id, refused),
                Verdict::AnswerNull => action matches CallAction::Reply(response)
                    && jsonrpc::answers_result(response, req@.id, "null"@),
                Verdict::Pass => action is Forward,
            },
    {
        intercept_or_forward(req)
    }

    /// Begins a batch.
    pub fn batch(&self) -> (run: BatchRun)
        ensures
            run.well_formed(),
            run.replies() == Seq::<Seq<char>>::empty(),
            !run.notified(),
            run.limit() == self.max_response_body_size,
    {
        BatchRun::new(self.max_response_body_size)
    }

    /// Handles the next entry of a batch: each request as it would be on its own.
    pub fn batch_entry(&self, run: &mut BatchRun, entry: BatchEntry) -> (action: BatchAction)
        requires
            old(run).well_formed(),
        ensures
            match entry {
                BatchEntry::Call(req) => match verdict(req@) {
                    Verdict::Refuse(refused) => batch::takes(
                        *old(run),
                        jsonrpc::error_json(req@.id, refused),
                        action,
                        *final(run),
                    ),
                    Verdict::AnswerNull => batch::takes(
                        *old(run),
                        jsonrpc::result_json(req@.id, "null"@),
                        action,
                        *final(run),
                    ),
                    Verdict::Pass => batch::forwards(*old(run), action, *final(run)),
                },
                BatchEntry::Notification => batch::takes_notification(
                    *old(run),
                    action,
                    *final(run),
                ),
                BatchEntry::Invalid { id, error } => batch::takes(
                    *old(run),
                    jsonrpc::error_json(id@, error@),
                    action,
                    *final(run),
                ),
            },
    {
        match entry {
            BatchEntry::Call(req) => {
                let action: CallAction = self.call(&req);
                run.take_action(action)
            },
            BatchEntry::Notification => run.take_notification(),
            BatchEntry::Invalid { id, error } => run.take_invalid(&id, error),
        }
    }

    /// A notification goes to the service behind.
    pub fn notification(&self) -> (action: CallAction)
        ensures
            action is Forward,
    {
        CallAction::Forward
    }
}

/// No request that would show pending data reaches the service behind: none that
/// filters or subscribes to pending transactions, looks one up in the pool, or
/// reads the pending block, whatever the encoding of its parameters.
pub proof fn law_pending_data_is_never_forwarded(req: jsonrpc::RequestModel)
    requires
        verdict(req) is Pass,
    ensures
        req.method != "eth_newPendingTransactionFilter"@,
        req.method != "eth_getTransactionBySenderAndNonce"@,
        req.method == "eth_subscribe"@ ==> kind_of(req.params) != Some(
            SubscriptionKind::NewPendingTransactions,
        ),
        !reads_pending_block(req),
{
}

/// A request of any other method passes, whatever its parameters are.
pub proof fn law_other_methods_pass(req: jsonrpc::RequestModel)
    requires
        req.method != "eth_newPendingTransactionFilter"@,
        req.method != "eth_getTransactionBySenderAndNonce"@,
        req.method != "eth_subscribe"@,
        !reads_block(req.method),
    ensures
        verdict(req) is Pass,
{
}

/// The methods that the middleware knows have names of their own.
proof fn lemma_method_names_differ()
    ensures
        "eth_newPendingTransactionFilter"@.len() == 31,
        "eth_subscribe"@.len() == 13,
        "eth_getTransactionBySenderAndNonce"@.len() == 34,
        "eth_getBlockByNumber"@.len() == 20,
        "eth_getBlockReceipts"@.len() == 20,
        "eth_getBlockByNumber"@ != "eth_getBlockReceipts"@,
        "eth_getBlockTransactionCountByNumber"@.len() == 36,
        "eth_getTransactionByBlockNumberAndIndex"@.len() == 39,
        "eth_getRawTransactionByBlockNumberAndIndex"@.len() == 42,
        "eth_getUncleCountByBlockNumber"@.len() == 30,
        "eth_getHeaderByNumber"@.len() == 21,
{
    reveal_strlit("eth_newPendingTransactionFilter");
    reveal_strlit("eth_subscribe");
    reveal_strlit("eth_getTransactionBySenderAndNonce");
    reveal_strlit("eth_getBlockByNumber");
    reveal_strlit("eth_getBlockReceipts");
    reveal_strlit("eth_getBlockTransactionCountByNumber");
    reveal_strlit("eth_getTransactionByBlockNumberAndIndex");
    reveal_strlit("eth_getRawTransactionByBlockNumberAndIndex");
    reveal_strlit("eth_getUncleCountByBlockNumber");
    reveal_strlit("eth_getHeaderByNumber");
    assert("eth_getBlockByNumber"@[12] == 'B');
    assert("eth_getBlockReceipts"@[12] == 'R');
}

/// A method that names its block by `number` is answered with `null` just when that
/// parameter is the pending tag. The latest, finalized, safe and earliest blocks, any
/// numbered block, and a parameter that cannot be read reach the service behind.
pub proof fn law_only_the_pending_tag_is_answered_null(req: jsonrpc::RequestModel)
    requires
        req.method == "eth_getBlockByNumber"@ || req.method
            == "eth_getBlockTransactionCountByNumber"@ || req.method
            == "eth_getTransactionByBlockNumberAndIndex"@ || req.method
            == "eth_getRawTransactionByBlockNumberAndIndex"@ || req.method
            == "eth_getUncleCountByBlockNumber"@,
    ensures
        match params::param::<BlockNumberOrTag>(req.params, seq!["number"@]) {
            Some(BlockNumberOrTag::Pending) => verdict(req) is AnswerNull,
            Some(BlockNumberOrTag::Latest) => verdict(req) is Pass,
            Some(BlockNumberOrTag::Finalized) => verdict(req) is Pass,
            Some(BlockNumberOrTag::Safe) => verdict(req) is Pass,
            Some(BlockNumberOrTag::Earliest) => verdict(req) is Pass,
            Some(BlockNumberOrTag::Number(_)) => verdict(req) is Pass,
            None => verdict(req) is Pass,
        },
{
    lemma_method_names_differ();
}

/// A header is asked for under the name `hash`, though by number or tag, and likewise
/// answered with `null` just when that is the pending tag.
pub proof fn law_only_the_pending_header_is_answered_null(req: jsonrpc::RequestModel)
    requires
        req.method == "eth_getHeaderByNumber"@,
    ensures
        match params::param::<BlockNumberOrTag>(req.params, seq!["hash"@]) {
            Some(BlockNumberOrTag::Pending) => verdict(req) is AnswerNull,
            Some(BlockNumberOrTag::Latest) => verdict(req) is Pass,
            Some(BlockNumberOrTag::Finalized) => verdict(req) is Pass,
            Some(BlockNumberOrTag::Safe) => verdict(req) is Pass,
            Some(BlockNumberOrTag::Earliest) => verdict(req) is Pass,
            Some(BlockNumberOrTag::Number(_)) => verdict(req) is Pass,
            None => verdict(req) is Pass,
        },
{
    lemma_method_names_differ();
}

/// Receipts are asked for by a block id, under either of its names, and answered with
/// `null` just when that is the pending tag. A block's hash never is.
pub proof fn law_only_pending_receipts_are_answered_null(req: jsonrpc::RequestModel)
    requires
        req.method == "eth_getBlockReceipts"@,
    ensures
        match params::param::<BlockId>(req.params, seq!["block_id"@, "blockId"@]) {
            Some(BlockId::Number(BlockNumberOrTag::Pending)) => verdict(req) is AnswerNull,
            Some(BlockId::Number(BlockNumberOrTag::Latest)) => verdict(req) is Pass,
            Some(BlockId::Number(BlockNumberOrTag::Finalized)) => verdict(req) is Pass,
            Some(BlockId::Number(BlockNumberOrTag::Safe)) => verdict(req) is Pass,
            Some(BlockId::Number(BlockNumberOrTag::Earliest)) => verdict(req) is Pass,
            Some(BlockId::Number(BlockNumberOrTag::Number(_))) => verdict(req) is Pass,
            Some(BlockId::Hash { .. }) => verdict(req) is Pass,
            None => verdict(req) is Pass,
        },
{
    lemma_method_names_differ();
}

/// Whatever the method is and whatever else was read, a block that is named by its hash,
/// its number or another tag than the pending one is not the pending block.
pub proof fn law_other_blocks_are_not_pending(
    method: Seq<char>,
    id: Option<BlockId>,
    number: Option<BlockNumberOrTag>,
)
    ensures
        names_pending_block(method, id, number) ==> (id matches Some(BlockId::Number(tag)) && tag
            is Pending) || (number matches Some(tag) && tag is Pending),
        method == "eth_getBlockReceipts"@ ==> (names_pending_block(method, id, number) <==> (id
            matches Some(BlockId::Number(tag)) && tag is Pending)),
        method == "eth_getBlockByNumber"@ || method == "eth_getBlockTransactionCountByNumber"@
            || method == "eth_getTransactionByBlockNumberAndIndex"@ || method
            == "eth_getRawTransactionByBlockNumberAndIndex"@ || method
            == "eth_getUncleCountByBlockNumber"@ || method == "eth_getHeaderByNumber"@ ==> (
        names_pending_block(method, id, number) <==> (number matches Some(tag) && tag is Pending)),
{
    lemma_method_names_differ();
}

/// A subscription is refused just when it is to pending transactions; one to new heads,
/// logs, the syncing state or receipts, and one whose kind cannot be read, passes.
pub proof fn law_only_pending_subscriptions_are_refused(req: jsonrpc::RequestModel)
    requires
        req.method == "eth_subscribe"@,
    ensures
        match params::param::<SubscriptionKind>(req.params, seq!["kind"@]) {
            Some(SubscriptionKind::NewPendingTransactions) => verdict(req) == Verdict::Refuse(
                jsonrpc::ErrorModel {
                    code: -32001,
                    message: "Subscriptions to pending transactions are not allowed"@,
                    data: None,
                },
            ),
            Some(SubscriptionKind::NewHeads) => verdict(req) is Pass,
            Some(SubscriptionKind::Logs) => verdict(req) is Pass,
            Some(SubscriptionKind::Syncing) => verdict(req) is Pass,
            Some(SubscriptionKind::TransactionReceipts) => verdict(req) is Pass,
            None => verdict(req) is Pass,
        },
{
    lemma_method_names_differ();
}

/// Whatever their parameters are, a filter on pending transactions is refused and a
/// lookup in the pool is answered with `null`.
pub proof fn law_filters_and_lookups_never_pass(req: jsonrpc::RequestModel)
    ensures
        req.method == "eth_newPendingTransactionFilter"@ ==> verdict(req) == Verdict::Refuse(
            jsonrpc::ErrorModel {
                code: -32001,
                message: "Pending transaction filters are not allowed"@,
                data: None,
            },
        ),
        req.method == "eth_getTransactionBySenderAndNonce"@ ==> verdict(req) is AnswerNull,
{
    lemma_method_names_differ();
}

/// Every method without pending data passes, by name: only ten methods are looked at.
pub proof fn law_unlisted_methods_pass(req: jsonrpc::RequestModel)
    requires
        req.method != "eth_newPendingTransactionFilter"@,
        req.method != "eth_getTransactionBySenderAndNonce"@,
        req.method != "eth_subscribe"@,
        req.method != "eth_getBlockByNumber"@,
        req.method != "eth_getBlockReceipts"@,
        req.method != "eth_getBlockTransactionCountByNumber"@,
        req.method != "eth_getTransactionByBlockNumberAndIndex"@,
        req.method != "eth_getRawTransactionByBlockNumberAndIndex"@,
        req.method != "eth_getUncleCountByBlockNumber"@,
        req.method != "eth_getHeaderByNumber"@,
    ensures
        verdict(req) is Pass,
{
}

/// Just seven methods read a block by number or tag.
pub proof fn law_seven_methods_read_a_block(method: Seq<char>)
    ensures
        reads_block(method) <==> method == "eth_getBlockByNumber"@ || method
            == "eth_getBlockReceipts"@ || method == "eth_getBlockTransactionCountByNumber"@
            || method == "eth_getTransactionByBlockNumberAndIndex"@ || method
            == "eth_getRawTransactionByBlockNumberAndIndex"@ || method
            == "eth_getUncleCountByBlockNumber"@ || method == "eth_getHeaderByNumber"@,
{
}

} // verus!
