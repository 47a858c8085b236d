//! Raw transactions without replay protection.
use super::batch::{BatchAction, BatchEntry, BatchRun, CallAction};
use super::jsonrpc;
use super::jsonrpc::{error_response, ErrorObject, Request};
use super::params;
use super::params::{extract_param, Bytes};
use crate::text;
use vstd::prelude::*;

verus! {

/// The error code for a transaction without replay protection.
pub const UNPROTECTED_TX_ERROR_CODE: i32 = -32000;

/// The message that rejects a transaction without replay protection.
pub open spec fn unprotected_tx_message() -> Seq<char> {
    "only replay-protected (EIP-155) transactions allowed over RPC"@
}

/// The method submits a raw transaction.
pub open spec fn submits_raw_transaction(method: Seq<char>) -> bool {
    method == "eth_sendRawTransaction"@ || method == "eth_sendRawTransactionSync"@
}

/// Whether the method submits a raw transaction.
pub fn is_raw_transaction_submission(method: &str) -> (submits: bool)
    ensures
        submits == submits_raw_transaction(method@),
{
    text::str_eq(method, "eth_sendRawTransaction") || text::str_eq(
        method,
        "eth_sendRawTransactionSync",
    )
}

/// The raw transaction that a request submits, in its parameter `bytes` or its
/// first positional one.
pub open spec fn raw_tx_of(params: Option<Seq<char>>) -> Option<Seq<u8>> {
    params::param::<Bytes>(params, seq!["bytes"@])
}

/// Reads the raw transaction that a request submits: named parameters have it
/// under `bytes`, positional ones in the first place, whatever follows. Gives none
/// where it is missing or of another form.
pub fn extract_raw_tx_bytes(req: &Request) -> (bytes: Option<Bytes>)
    ensures
        params::seen(bytes) == raw_tx_of(req@.params),
{
    proof {
        assert(params::key_texts(["bytes"]@) =~= seq!["bytes"@]);
    }
    extract_param::<Bytes>(&req.params, &["bytes"])
}

/// Whether the bytes are one encoded transaction, with nothing behind it, and if
/// so, whether it is replay-protected.
pub uninterp spec fn replay_protection(bytes: Seq<u8>) -> Option<bool>;

/// `alloy_consensus::TxEnvelope::decode_2718_exact`, and of what it decodes
/// `is_replay_protected`: none where the bytes are no transaction, or go on
/// behind it.
#[verifier::external_body]
fn decoded_replay_protection(bytes: &[u8]) -> (protection: Option<bool>)
    ensures
        protection == replay_protection(bytes@),
{
    let decoded: Result<alloy_consensus::TxEnvelope, _> =
        alloy_eips::eip2718::Decodable2718::decode_2718_exact(bytes);
    decoded.ok().map(|envelope| envelope.is_replay_protected())
}

/// The error that rejects a transaction without replay protection.
pub open spec fn unprotected_tx_error() -> jsonrpc::ErrorModel {
    jsonrpc::plain_error(UNPROTECTED_TX_ERROR_CODE as int, unprotected_tx_message())
}

/// Whether a request holds a transaction that is replay-protected; none where it
/// holds nothing that is a transaction.
pub open spec fn protection_of(req: jsonrpc::RequestModel) -> Option<bool> {
    match raw_tx_of(req.params) {
        Some(bytes) => replay_protection(bytes),
        None => None,
    }
}

/// The request submits a transaction without replay protection.
pub open spec fn submits_unprotected(req: jsonrpc::RequestModel) -> bool {
    submits_raw_transaction(req.method) && protection_of(req) == Some(false)
}

/// Rejects a submission whose transaction was decoded and found without replay
/// protection. What could not be decoded is left to the node, which has its own
/// error for it.
pub fn check_replay_protection(method: &str, protection: Option<bool>) -> (result: Result<
    (),
    ErrorObject,
>)
    ensures
        result is Err <==> submits_raw_transaction(method@) && protection == Some(false),
        result is Err <==> (method@ == "eth_sendRawTransaction"@ || method@
            == "eth_sendRawTransactionSync"@) && protection == Some(false),
        result matches Err(error) ==> error@ == unprotected_tx_error(),
{
    if !is_raw_transaction_submission(method) {
        return Ok(());
    }
    match protection {
        Some(false) => Err(
            ErrorObject::plain(
                UNPROTECTED_TX_ERROR_CODE,
                "only replay-protected (EIP-155) transactions allowed over RPC",
            ),
        ),
        _ => Ok(()),
    }
}

/// Rejects a request that submits a transaction without replay protection.
/// Parameters and bytes that are no transaction pass, so that the node can
/// answer with its own error.
pub fn error_if_unprotected_send_raw_tx(req: &Request) -> (result: Result<(), ErrorObject>)
    ensures
        result is Err <==> submits_unprotected(req@),
        result matches Err(error) ==> error@ == unprotected_tx_error(),
{
    if !is_raw_transaction_submission(req.method.as_str()) {
        return Ok(());
    }
    let protection: Option<bool> = match extract_raw_tx_bytes(req) {
        Some(bytes) => decoded_replay_protection(bytes.data.as_slice()),
        None => None,
    };
    check_replay_protection(req.method.as_str(), protection)
}

/// Rejects raw transactions without replay protection. Only their submission over
/// RPC is checked: what comes from peers or in blocks does not pass here.
#[derive(Clone, Debug)]
pub struct RejectUnprotectedTxsMiddleware<S> {
    pub service: S,
    pub allow_unprotected_txs: bool,
    pub max_response_body_size: usize,
}

impl<S> RejectUnprotectedTxsMiddleware<S> {
    pub fn new(service: S) -> (made: Self)
        ensures
            made.service == service,
            !made.allow_unprotected_txs,
            made.max_response_body_size == usize::MAX,
    {
        RejectUnprotectedTxsMiddleware {
            service,
            allow_unprotected_txs: false,
            max_response_body_size: usize::MAX,
        }
    }

    /// The middleware rejects the request.
    pub open spec fn rejects(self, req: jsonrpc::RequestModel) -> bool {
        !self.allow_unprotected_txs && submits_unprotected(req)
    }

    /// Answers a rejected request with an error, and lets any other pass.
    pub fn call(&self, req: &Request) -> (action: CallAction)
        ensures
            if self.rejects(req@) {
                action matches CallAction::Reply(response) && jsonrpc::answers_error(
                    response,
                    req@.id,
                    unprotected_tx_error(),
                )
            } else {
                action is Forward
            },
    {
        if !self.allow_unprotected_txs {
            if let Err(error) = error_if_unprotected_send_raw_tx(req) {
                return CallAction::Reply(error_response(&req.id, error));
            }
        }
        CallAction::Forward
    }

    /// Begins a batch.
    pub fn batch(&self) -> (run: BatchRun)
        ensures
            run.well_formed(),
            run.replies() == Seq::<Seq<char>>::empty(),
            !run.notified(),
            run.limit() == self.max_response_body_size,
    {
        BatchRun::new(self.max_response_body_size)
    }

    /// Handles the next entry of a batch: only the requests that are rejected are
    /// answered here.
    pub fn batch_entry(&self, run: &mut BatchRun, entry: BatchEntry) -> (action: BatchAction)
        requires
            old(run).well_formed(),
        ensures
            match entry {
                BatchEntry::Call(req) => if self.rejects(req@) {
                    super::batch::takes(
                        *old(run),
                        jsonrpc::error_json(req@.id, unprotected_tx_error()),
                        action,
                        *final(run),
                    )
                } else {
                    super::batch::forwards(*old(run), action, *final(run))
                },
                BatchEntry::Notification => super::batch::takes_notification(
                    *old(run),
                    action,
                    *final(run),
                ),
                BatchEntry::Invalid { id, error } => super::batch::takes(
                    *old(run),
                    jsonrpc::error_json(id@, error@),
                    action,
                    *final(run),
                ),
            },
    {
        match entry {
            BatchEntry::Call(req) => {
                let action: CallAction = self.call(&req);
                run.take_action(action)
            },
            BatchEntry::Notification => run.take_notification(),
            BatchEntry::Invalid { id, error } => run.take_invalid(&id, error),
        }
    }

    /// A notification goes to the service behind.
    pub fn notification(&self) -> (action: CallAction)
        ensures
            action is Forward,
    {
        CallAction::Forward
    }
}

/// What is no transaction is never rejected here: bytes that cannot be decoded, or
/// that go on behind a transaction, reach the node, and so does every request of
/// another method.
pub proof fn law_only_decoded_submissions_are_rejected<S>(
    middleware: RejectUnprotectedTxsMiddleware<S>,
    req: jsonrpc::RequestModel,
)
    requires
        middleware.rejects(req),
    ensures
        submits_raw_transaction(req.method),
        raw_tx_of(req.params) matches Some(bytes) && replay_protection(bytes) is Some,
        !middleware.allow_unprotected_txs,
{
}

/// Both methods that submit a raw transaction are treated alike.
pub proof fn law_both_submission_methods_are_rejected_alike<S>(
    middleware: RejectUnprotectedTxsMiddleware<S>,
    params: Option<Seq<char>>,
    id: jsonrpc::IdModel,
)
    ensures
        middleware.rejects(
            (jsonrpc::RequestModel { method: "eth_sendRawTransaction"@, params, id }),
        ) == middleware.rejects(
            (jsonrpc::RequestModel { method: "eth_sendRawTransactionSync"@, params, id }),
        ),
{
}

/// Unless they are allowed, a request is rejected just when it submits, by either
/// method, bytes that are one transaction without replay protection. A protected
/// transaction, bytes that are none, missing bytes and any other method pass.
pub proof fn law_exactly_unprotected_submissions_are_rejected<S>(
    middleware: RejectUnprotectedTxsMiddleware<S>,
    req: jsonrpc::RequestModel,
)
    ensures
        middleware.rejects(req) <==> {
            &&& !middleware.allow_unprotected_txs
            &&& req.method == "eth_sendRawTransaction"@ || req.method
                == "eth_sendRawTransactionSync"@
            &&& params::param::<Bytes>(req.params, seq!["bytes"@]) matches Some(bytes)
            &&& replay_protection(bytes) matches Some(protected)
            &&& !protected
        },
{
}

/// Every rejected submission gets the same error, with code -32000 and no data.
pub proof fn law_rejections_are_alike()
    ensures
        unprotected_tx_error().code == -32000,
        unprotected_tx_error().message
            == "only replay-protected (EIP-155) transactions allowed over RPC"@,
        unprotected_tx_error().data is None,
{
}

} // verus!
