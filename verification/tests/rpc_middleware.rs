//! The JSON-RPC middleware, with services that answer at once.
use alloy_consensus::{SignableTransaction, TxEnvelope, TxLegacy};
use alloy_eips::eip2718::Encodable2718;
use alloy_primitives::{hex, Address, Signature, TxKind, U256};
use arc_node::rpc_middleware::batch::{
    BatchAction, BatchEntry, BatchRun, BatchSizeLimitMiddleware, CallAction,
    ARC_RPC_MAX_BATCH_ENTRIES_DEFAULT, BATCH_TOO_LARGE_ERROR_CODE,
};
use arc_node::rpc_middleware::jsonrpc::{ErrorObject, Id, Request};
use arc_node::rpc_middleware::layer::{ArcRpcLayer, Either};
use arc_node::rpc_middleware::params::{
    extract_param, BlockId, BlockNumberOrTag, Bytes, SubscriptionKind,
};
use arc_node::rpc_middleware::pending::{
    is_pending_block, is_pending_block_method, null_response, refuse_pending_tx_rpc,
    NoPendingTransactionsRpcMiddleware, PENDING_TX_SUBSCRIPTION_ERROR_CODE,
};
use arc_node::rpc_middleware::relay::{
    local_add_request, relay_error_category, relay_or_forward, should_failover, ErrorPayload, RelayCall, RelayEntry,
    RelayError, RelayOutcome, RelayRequest, RelayRun, RelayStep, TransportError,
    TxRelayMiddleware, TxRelays, UpstreamReply, DEFAULT_TX_RELAY_TIMEOUT_SECS,
    INTERNAL_ERROR_CODE, RELAY_UNAVAILABLE_ERROR_CODE,
};
use arc_node::rpc_middleware::replay::{
    check_replay_protection, error_if_unprotected_send_raw_tx, extract_raw_tx_bytes,
    is_raw_transaction_submission, RejectUnprotectedTxsMiddleware, UNPROTECTED_TX_ERROR_CODE,
};
use jsonrpsee::{BatchResponseBuilder, MethodResponse, ResponsePayload};
use serde_json::value::RawValue;
use std::cell::Cell;
use std::rc::Rc;
use std::time::Duration;

const ETH_SUBSCRIBE_METHOD: &str = "eth_subscribe";
const ETH_NEW_PENDING_TX_FILTER_METHOD: &str = "eth_newPendingTransactionFilter";
const ETH_GET_BLOCK_BY_NUMBER_METHOD: &str = "eth_getBlockByNumber";
const ETH_GET_TX_BY_SENDER_AND_NONCE_METHOD: &str = "eth_getTransactionBySenderAndNonce";
const ETH_GET_BLOCK_RECEIPTS_METHOD: &str = "eth_getBlockReceipts";
const ETH_GET_BLOCK_TX_COUNT_BY_NUMBER_METHOD: &str = "eth_getBlockTransactionCountByNumber";
const ETH_GET_TX_BY_BLOCK_NUMBER_AND_INDEX_METHOD: &str = "eth_getTransactionByBlockNumberAndIndex";
const ETH_GET_RAW_TX_BY_BLOCK_NUMBER_AND_INDEX_METHOD: &str =
    "eth_getRawTransactionByBlockNumberAndIndex";
const ETH_GET_UNCLE_COUNT_BY_BLOCK_NUMBER_METHOD: &str = "eth_getUncleCountByBlockNumber";
const ETH_GET_HEADER_BY_NUMBER_METHOD: &str = "eth_getHeaderByNumber";
const ETH_SEND_RAW_TRANSACTION_METHOD: &str = "eth_sendRawTransaction";
const ETH_SEND_RAW_TRANSACTION_SYNC_METHOD: &str = "eth_sendRawTransactionSync";
const UNPROTECTED_TX_ERROR_MSG: &str =
    "only replay-protected (EIP-155) transactions allowed over RPC";

type Entry = Result<BatchEntry, (Id, ErrorObject)>;

fn batch_of(entries: Vec<Entry>) -> Vec<Entry> {
    entries
}

fn entry_of(entry: Entry) -> BatchEntry {
    match entry {
        Ok(entry) => entry,
        Err((id, error)) => BatchEntry::Invalid { id, error },
    }
}

fn rpc_id(id: &Id) -> jsonrpsee::types::Id<'static> {
    match id {
        Id::Null => jsonrpsee::types::Id::Null,
        Id::Number(n) => jsonrpsee::types::Id::Number(*n),
        Id::Str(s) => jsonrpsee::types::Id::Str(s.clone().into()),
    }
}

fn success(id: jsonrpsee::types::Id<'static>, text: &str) -> MethodResponse {
    let payload = ResponsePayload::success(serde_json::Value::String(text.to_string()));
    MethodResponse::response(id, payload, usize::MAX)
}

/// A service that answers at once.
trait Service {
    fn handle_call(&self, req: Request) -> MethodResponse;
    fn handle_batch(&self, batch: Vec<Entry>) -> MethodResponse;
    fn handle_notification(&self) -> MethodResponse;
}

/// Answers every request with success.
#[derive(Clone, Debug)]
struct MockRpcService;

impl Service for MockRpcService {
    fn handle_call(&self, req: Request) -> MethodResponse {
        success(rpc_id(&req.id), "success")
    }
    fn handle_batch(&self, batch: Vec<Entry>) -> MethodResponse {
        let mut response = BatchResponseBuilder::new_with_limit(usize::MAX);
        for entry in batch {
            let reply = match entry_of(entry) {
                BatchEntry::Call(request) => self.handle_call(request),
                BatchEntry::Notification => self.handle_notification(),
                BatchEntry::Invalid { id, error } => MethodResponse::error(
                    rpc_id(&id),
                    jsonrpsee::types::ErrorObject::owned(error.code, error.message, error.data),
                ),
            };
            response.append(reply).unwrap();
        }
        MethodResponse::from_batch(response.finish())
    }
    fn handle_notification(&self) -> MethodResponse {
        success(jsonrpsee::types::Id::Number(0), "notification_success")
    }
}

/// Counts the requests that reach it.
#[derive(Clone, Debug)]
struct CountingRpcService(Rc<Cell<usize>>);

impl Service for CountingRpcService {
    fn handle_call(&self, req: Request) -> MethodResponse {
        self.0.set(self.0.get() + 1);
        success(rpc_id(&req.id), "local")
    }
    fn handle_batch(&self, _batch: Vec<Entry>) -> MethodResponse {
        unreachable!("batches are handled entry by entry")
    }
    fn handle_notification(&self) -> MethodResponse {
        MethodResponse::notification()
    }
}

impl<A: Service, B: Service> Service for Either<A, B> {
    fn handle_call(&self, req: Request) -> MethodResponse {
        match self {
            Either::Left(service) => service.handle_call(req),
            Either::Right(service) => service.handle_call(req),
        }
    }
    fn handle_batch(&self, batch: Vec<Entry>) -> MethodResponse {
        match self {
            Either::Left(service) => service.handle_batch(batch),
            Either::Right(service) => service.handle_batch(batch),
        }
    }
    fn handle_notification(&self) -> MethodResponse {
        match self {
            Either::Left(service) => service.handle_notification(),
            Either::Right(service) => service.handle_notification(),
        }
    }
}

impl<S: Service> Service for BatchSizeLimitMiddleware<S> {
    fn handle_call(&self, req: Request) -> MethodResponse {
        match self.call(&req) {
            CallAction::Reply(response) => response,
            CallAction::Forward => self.service.handle_call(req),
        }
    }
    fn handle_batch(&self, batch: Vec<Entry>) -> MethodResponse {
        match self.batch(batch.len()) {
            CallAction::Reply(response) => response,
            CallAction::Forward => self.service.handle_batch(batch),
        }
    }
    fn handle_notification(&self) -> MethodResponse {
        match self.notification() {
            CallAction::Reply(response) => response,
            CallAction::Forward => self.service.handle_notification(),
        }
    }
}

fn request_of(entry: &BatchEntry) -> Option<Request> {
    match entry {
        BatchEntry::Call(request) => Some(request.clone()),
        _ => None,
    }
}

impl<S: Service> Service for NoPendingTransactionsRpcMiddleware<S> {
    fn handle_call(&self, req: Request) -> MethodResponse {
        match self.call(&req) {
            CallAction::Reply(response) => response,
            CallAction::Forward => self.service.handle_call(req),
        }
    }
    fn handle_batch(&self, batch: Vec<Entry>) -> MethodResponse {
        let mut run = self.batch();
        for entry in batch {
            let entry = entry_of(entry);
            let request = request_of(&entry);
            let mut action = self.batch_entry(&mut run, entry);
            if let BatchAction::CallInner = action {
                action = run.take_reply(self.service.handle_call(request.unwrap()));
            }
            match action {
                BatchAction::Next => {}
                BatchAction::NotifyInner => {
                    self.service.handle_notification();
                }
                BatchAction::Done(response) => return response,
                BatchAction::CallInner => unreachable!("a reply was taken in"),
            }
        }
        run.finish()
    }
    fn handle_notification(&self) -> MethodResponse {
        match self.notification() {
            CallAction::Reply(response) => response,
            CallAction::Forward => self.service.handle_notification(),
        }
    }
}

impl<S: Service> Service for RejectUnprotectedTxsMiddleware<S> {
    fn handle_call(&self, req: Request) -> MethodResponse {
        match self.call(&req) {
            CallAction::Reply(response) => response,
            CallAction::Forward => self.service.handle_call(req),
        }
    }
    fn handle_batch(&self, batch: Vec<Entry>) -> MethodResponse {
        let mut run = self.batch();
        for entry in batch {
            let entry = entry_of(entry);
            let request = request_of(&entry);
            let mut action = self.batch_entry(&mut run, entry);
            if let BatchAction::CallInner = action {
                action = run.take_reply(self.service.handle_call(request.unwrap()));
            }
            match action {
                BatchAction::Next => {}
                BatchAction::NotifyInner => {
                    self.service.handle_notification();
                }
                BatchAction::Done(response) => return response,
                BatchAction::CallInner => unreachable!("a reply was taken in"),
            }
        }
        run.finish()
    }
    fn handle_notification(&self) -> MethodResponse {
        match self.notification() {
            CallAction::Reply(response) => response,
            CallAction::Forward => self.service.handle_notification(),
        }
    }
}

/// How an upstream answers.
#[derive(Clone, Debug)]
enum Upstream {
    Success(String),
    Failure(i64, String),
    Http(u16),
    Unreachable,
    Silent,
}

fn mock_upstream(result: &str) -> Upstream {
    Upstream::Success(result.to_string())
}

fn failing_upstream(message: &str) -> Upstream {
    Upstream::Failure(-32603, message.to_string())
}

fn unreachable_upstream() -> Upstream {
    Upstream::Unreachable
}

fn ask(upstream: &Upstream) -> UpstreamReply<serde_json::Value> {
    match upstream {
        Upstream::Success(result) => {
            UpstreamReply::Answered(Ok(serde_json::Value::String(result.clone())))
        }
        Upstream::Failure(code, message) => {
            UpstreamReply::Answered(Err(RelayError::ErrorResp(ErrorPayload {
                code: *code,
                message: message.clone(),
                data: None,
            })))
        }
        Upstream::Http(status) => {
            UpstreamReply::Answered(Err(http_error(*status, "body".to_string())))
        }
        Upstream::Unreachable => {
            UpstreamReply::Answered(Err(RelayError::Transport(TransportError::Other)))
        }
        Upstream::Silent => UpstreamReply::TimedOut,
    }
}

fn http_error(status: u16, body: String) -> RelayError {
    RelayError::Transport(TransportError::HttpError { status, body })
}

/// Goes through the upstreams as the run says; counts how many were asked.
fn forward(mut run: RelayRun, upstreams: &[Upstream], sticky: &Cell<usize>, asked: &Cell<usize>) -> RelayOutcome<serde_json::Value> {
    while let Some(index) = run.next() {
        asked.set(asked.get() + 1);
        match run.take(ask(&upstreams[index])) {
            RelayStep::Advance => {}
            RelayStep::Settle { outcome, sticky: cursor } => {
                if let Some(index) = cursor {
                    sticky.set(index);
                }
                return outcome;
            }
        }
    }
    RelayOutcome::AllUnreachable
}

/// A relay with its upstreams and the cursor.
struct Relaying<S> {
    middleware: TxRelayMiddleware<S>,
    upstreams: Vec<Upstream>,
    sticky: Cell<usize>,
    asked: Cell<usize>,
}

fn relaying<S>(service: S, upstreams: Vec<Upstream>) -> Relaying<S> {
    let urls: Vec<String> = upstreams.iter().map(|_| "http://127.0.0.1:1".to_string()).collect();
    let relays =
        TxRelays::new(&urls, usize::MAX, Duration::from_secs(DEFAULT_TX_RELAY_TIMEOUT_SECS));
    Relaying {
        middleware: TxRelayMiddleware { service, relays: relays.unwrap() },
        upstreams,
        sticky: Cell::new(0),
        asked: Cell::new(0),
    }
}

impl<S: Service> Relaying<S> {
    fn relay(&self, relayed: RelayRequest) -> MethodResponse {
        let run = self.middleware.forward(self.sticky.get());
        let outcome = forward(run, &self.upstreams, &self.sticky, &self.asked);
        let answer = self.middleware.respond(&relayed.id, outcome);
        if answer.add_locally {
            if let Some(request) = local_add_request(&relayed.bytes) {
                self.middleware.service.handle_call(request);
            }
        }
        answer.response
    }
}

impl<S: Service> Service for Relaying<S> {
    fn handle_call(&self, req: Request) -> MethodResponse {
        match self.middleware.call(&req) {
            RelayCall::Forward => self.middleware.service.handle_call(req),
            RelayCall::Relay(relayed) => self.relay(relayed),
        }
    }
    fn handle_batch(&self, batch: Vec<Entry>) -> MethodResponse {
        let mut run = self.middleware.batch();
        for entry in batch {
            let entry = entry_of(entry);
            let request = request_of(&entry);
            let action = match self.middleware.batch_entry(&mut run, entry) {
                RelayEntry::Relay(relayed) => run.take_reply(self.relay(relayed)),
                RelayEntry::Other(BatchAction::CallInner) => {
                    run.take_reply(self.middleware.service.handle_call(request.unwrap()))
                }
                RelayEntry::Other(action) => action,
            };
            match action {
                BatchAction::Next => {}
                BatchAction::NotifyInner => {
                    self.middleware.service.handle_notification();
                }
                BatchAction::Done(response) => return response,
                BatchAction::CallInner => unreachable!("a reply was taken in"),
            }
        }
        run.finish()
    }
    fn handle_notification(&self) -> MethodResponse {
        self.middleware.service.handle_notification()
    }
}

/// A relay whose upstreams are all unreachable.
impl<S: Service + Clone> Service for TxRelayMiddleware<S> {
    fn handle_call(&self, req: Request) -> MethodResponse {
        let upstreams = self.relays.upstreams.iter().map(|_| Upstream::Unreachable).collect();
        Relaying {
            middleware: self.clone(),
            upstreams,
            sticky: Cell::new(0),
            asked: Cell::new(0),
        }
        .handle_call(req)
    }
    fn handle_batch(&self, _batch: Vec<Entry>) -> MethodResponse {
        unreachable!("batches are handled entry by entry")
    }
    fn handle_notification(&self) -> MethodResponse {
        match self.notification() {
            CallAction::Reply(response) => response,
            CallAction::Forward => self.service.handle_notification(),
        }
    }
}

fn json_str(text: &str) -> serde_json::Value {
    serde_json::Value::String(text.to_string())
}

fn create_request_with_params(method: &str, params: Box<RawValue>, id: u64) -> Request {
    Request {
        method: method.to_string(),
        params: Some(params.get().to_string()),
        id: Id::Number(id),
    }
}

// ── Middleware active (default) ─────────────────────────────────────
//
// When active, the middleware intercepts pending-state RPCs:
// subscriptions, filters, and block queries.
// The binary default is middleware ON; users opt out via
// --arc.expose-pending-txs on trusted/internal nodes.

// -- pending txs: blocked --

#[test]
fn test_enabled_blocks_pending_tx_subscription() {
    let middleware = NoPendingTransactionsRpcMiddleware::new(MockRpcService);
    let params = RawValue::from_string(r#"["newPendingTransactions"]"#.to_string()).unwrap();
    let request = create_request_with_params(ETH_SUBSCRIBE_METHOD, params, 1);
    let response = middleware.handle_call(request);

    assert!(
        response.as_error_code().is_some(),
        "filter_pending_txs=true should block newPendingTransactions subscription"
    );
    assert_eq!(
        response.as_error_code().unwrap(),
        PENDING_TX_SUBSCRIPTION_ERROR_CODE
    );
}

// jsonrpsee accepts object params for subscriptions too, keyed by the trait's
// arg name (`kind`), with the optional second arg omitted or explicitly null.
#[test]
fn test_enabled_blocks_pending_tx_subscription_object_params() {
    let middleware = NoPendingTransactionsRpcMiddleware::new(MockRpcService);
    let cases: &[&str] = &[
        r#"{"kind":"newPendingTransactions"}"#,
        r#"{"kind":"newPendingTransactions","params":null}"#,
    ];
    for params_json in cases {
        let params = RawValue::from_string(params_json.to_string()).unwrap();
        let request = create_request_with_params(ETH_SUBSCRIBE_METHOD, params, 1);
        let response = middleware.handle_call(request);

        assert_eq!(
            response.as_error_code(),
            Some(PENDING_TX_SUBSCRIPTION_ERROR_CODE),
            "filter_pending_txs=true should block {params_json}"
        );
    }
}

// `{"newPendingTransactions":null}` parses to the same kind as the bare string.
#[test]
fn test_enabled_blocks_pending_tx_subscription_map_form_kind() {
    let middleware = NoPendingTransactionsRpcMiddleware::new(MockRpcService);
    let cases: &[&str] = &[
        r#"[{"newPendingTransactions":null}]"#,
        r#"{"kind":{"newPendingTransactions":null}}"#,
    ];
    for params_json in cases {
        let params = RawValue::from_string(params_json.to_string()).unwrap();
        let request = create_request_with_params(ETH_SUBSCRIBE_METHOD, params, 1);
        let response = middleware.handle_call(request);

        assert_eq!(
            response.as_error_code(),
            Some(PENDING_TX_SUBSCRIPTION_ERROR_CODE),
            "filter_pending_txs=true should block {params_json}"
        );
    }
}

#[test]
fn test_enabled_blocks_pending_tx_filter() {
    let middleware = NoPendingTransactionsRpcMiddleware::new(MockRpcService);
    let params = RawValue::from_string(r#"[]"#.to_string()).unwrap();
    let request = create_request_with_params(ETH_NEW_PENDING_TX_FILTER_METHOD, params, 1);
    let response = middleware.handle_call(request);

    assert!(
        response.as_error_code().is_some(),
        "filter_pending_txs=true should block eth_newPendingTransactionFilter"
    );
    assert_eq!(
        response.as_error_code().unwrap(),
        PENDING_TX_SUBSCRIPTION_ERROR_CODE
    );
}

// -- allowed subscriptions and methods --

#[test]
fn test_enabled_allows_non_pending_subscriptions() {
    let middleware = NoPendingTransactionsRpcMiddleware::new(MockRpcService);
    let cases: &[(&str, &str)] = &[
        (r#"["newHeads"]"#, "newHeads"),
        (r#"["logs"]"#, "logs"),
        (r#"["syncing"]"#, "syncing"),
        (r#"["NewPendingTransactions"]"#, "wrong-case pendingTx"),
        ("[]", "empty params"),
        ("[123]", "non-string params"),
        (r#"{"kind":"newHeads"}"#, "object newHeads"),
        (r#"{"kind":"logs"}"#, "object logs"),
        (r#"{"kind":"syncing"}"#, "object syncing"),
        (
            r#"{"kind":"NewPendingTransactions"}"#,
            "object wrong-case pendingTx",
        ),
        ("{}", "object missing kind"),
        (r#"{"kind":123}"#, "object non-string kind"),
    ];
    for (params_json, label) in cases {
        let params = RawValue::from_string(params_json.to_string()).unwrap();
        let request = create_request_with_params(ETH_SUBSCRIBE_METHOD, params, 1);
        let response = middleware.handle_call(request);
        assert!(
            response.as_error_code().is_none(),
            "filter_pending_txs=true should allow {label}"
        );
    }
}

#[test]
fn test_enabled_allows_non_pending_methods() {
    let middleware = NoPendingTransactionsRpcMiddleware::new(MockRpcService);
    let methods = &[
        "eth_blockNumber",
        "eth_getBalance",
        "eth_getTransactionByHash",
        "eth_call",
        "eth_newBlockFilter",
        "net_version",
    ];
    for method in methods {
        let params = RawValue::from_string("[]".to_string()).unwrap();
        let request = create_request_with_params(method, params, 1);
        let response = middleware.handle_call(request);
        assert!(
            response.as_error_code().is_none(),
            "filter_pending_txs=true should allow {method}"
        );
    }
}

#[test]
fn test_enabled_allows_notifications() {
    let middleware = NoPendingTransactionsRpcMiddleware::new(MockRpcService);
    let response = middleware.handle_notification();

    assert!(
        response.as_error_code().is_none(),
        "filter_pending_txs=true should allow notifications"
    );
}

// -- pending block: intercepted --
//
// eth_getBlockByNumber("pending") returns null (success, not error).
// Other block tags ("latest", "0x1", etc.) pass through unchanged.

#[test]
fn test_enabled_pending_block_returns_null() {
    let middleware = NoPendingTransactionsRpcMiddleware::new(MockRpcService);
    let params = RawValue::from_string(r#"["pending", false]"#.to_string()).unwrap();
    let request = create_request_with_params(ETH_GET_BLOCK_BY_NUMBER_METHOD, params, 1);
    let response = middleware.handle_call(request);

    assert!(
        response.as_error_code().is_none(),
        "filter_pending_txs=true should return success (not error) for pending block"
    );
    let json: serde_json::Value = serde_json::from_str(response.into_json().get()).unwrap();
    assert!(
        json["result"].is_null(),
        "filter_pending_txs=true should return null for pending block"
    );
}

#[test]
fn test_enabled_pending_block_full_txs_returns_null() {
    let middleware = NoPendingTransactionsRpcMiddleware::new(MockRpcService);
    let params = RawValue::from_string(r#"["pending", true]"#.to_string()).unwrap();
    let request = create_request_with_params(ETH_GET_BLOCK_BY_NUMBER_METHOD, params, 2);
    let response = middleware.handle_call(request);

    let json: serde_json::Value = serde_json::from_str(response.into_json().get()).unwrap();
    assert!(
        json["result"].is_null(),
        "filter_pending_txs=true should return null for pending block with full txs"
    );
}

#[test]
fn test_enabled_latest_block_passes_through() {
    let middleware = NoPendingTransactionsRpcMiddleware::new(MockRpcService);
    let params = RawValue::from_string(r#"["latest", false]"#.to_string()).unwrap();
    let request = create_request_with_params(ETH_GET_BLOCK_BY_NUMBER_METHOD, params, 3);
    let response = middleware.handle_call(request);

    assert!(
        response.as_error_code().is_none(),
        "filter_pending_txs=true should allow getBlockByNumber(\"latest\")"
    );
}

#[test]
fn test_enabled_numbered_block_passes_through() {
    let middleware = NoPendingTransactionsRpcMiddleware::new(MockRpcService);
    let params = RawValue::from_string(r#"["0x1", false]"#.to_string()).unwrap();
    let request = create_request_with_params(ETH_GET_BLOCK_BY_NUMBER_METHOD, params, 4);
    let response = middleware.handle_call(request);

    assert!(
        response.as_error_code().is_none(),
        "filter_pending_txs=true should allow getBlockByNumber(\"0x1\")"
    );
}

// -- pool pending tx lookup: intercepted --
//
// eth_getTransactionBySenderAndNonce returns null (success, not error)
// because it directly queries the pool for pending tx contents.

#[test]
fn test_enabled_pool_lookup_returns_null() {
    let middleware = NoPendingTransactionsRpcMiddleware::new(MockRpcService);
    let params = RawValue::from_string("[]".to_string()).unwrap();
    let request = create_request_with_params(ETH_GET_TX_BY_SENDER_AND_NONCE_METHOD, params, 1);
    let response = middleware.handle_call(request);

    assert!(
        response.as_error_code().is_none(),
        "should return success, not error"
    );
    let json: serde_json::Value = serde_json::from_str(response.into_json().get()).unwrap();
    assert!(
        json["result"].is_null(),
        "should return null for pool lookup"
    );
}

#[test]
fn test_enabled_pool_lookup_with_params_returns_null() {
    let middleware = NoPendingTransactionsRpcMiddleware::new(MockRpcService);
    let params = RawValue::from_string(
        r#"["0x1234567890abcdef1234567890abcdef12345678", "0x0"]"#.to_string(),
    )
    .unwrap();
    let request = create_request_with_params(ETH_GET_TX_BY_SENDER_AND_NONCE_METHOD, params, 2);
    let response = middleware.handle_call(request);

    assert!(
        response.as_error_code().is_none(),
        "should return success, not error"
    );
    let json: serde_json::Value = serde_json::from_str(response.into_json().get()).unwrap();
    assert!(
        json["result"].is_null(),
        "should return null for pool lookup with params"
    );
}

// -- batch requests --
//
// Batch entries are intercepted per-entry, consistent with the single-request path:
// subscriptions/filters → error, pool lookups/pending block → null.

#[test]
fn test_enabled_batch_blocks_pending_tx_subscription() {
    let middleware = NoPendingTransactionsRpcMiddleware::new(MockRpcService);
    let batch = batch_of(vec![
        Ok(BatchEntry::Call(create_request_with_params(
            "eth_blockNumber",
            RawValue::from_string("[]".to_string()).unwrap(),
            1,
        ))),
        Ok(BatchEntry::Call(create_request_with_params(
            ETH_SUBSCRIBE_METHOD,
            RawValue::from_string(r#"["newPendingTransactions"]"#.to_string()).unwrap(),
            2,
        ))),
    ]);
    let response = middleware.handle_batch(batch);
    let json = response.into_json();
    let responses: Vec<serde_json::Value> = serde_json::from_str(json.get()).unwrap();

    assert!(responses[0].get("result").is_some());
    assert!(responses[1].get("error").is_some());
    let error_code = responses[1]["error"]["code"].as_i64().unwrap();
    assert_eq!(error_code, PENDING_TX_SUBSCRIPTION_ERROR_CODE as i64);
}

#[test]
fn test_enabled_batch_blocks_pending_tx_filter() {
    let middleware = NoPendingTransactionsRpcMiddleware::new(MockRpcService);
    let batch = batch_of(vec![
        Ok(BatchEntry::Call(create_request_with_params(
            "eth_blockNumber",
            RawValue::from_string("[]".to_string()).unwrap(),
            1,
        ))),
        Ok(BatchEntry::Call(create_request_with_params(
            ETH_NEW_PENDING_TX_FILTER_METHOD,
            RawValue::from_string(r#"[]"#.to_string()).unwrap(),
            2,
        ))),
    ]);
    let response = middleware.handle_batch(batch);
    let json = response.into_json();
    let responses: Vec<serde_json::Value> = serde_json::from_str(json.get()).unwrap();

    assert!(responses[0].get("result").is_some());
    assert_eq!(
        responses[1]["error"]["code"].as_i64().unwrap(),
        PENDING_TX_SUBSCRIPTION_ERROR_CODE as i64
    );
}

#[test]
fn test_enabled_batch_pending_block_returns_null() {
    let middleware = NoPendingTransactionsRpcMiddleware::new(MockRpcService);
    let batch = batch_of(vec![
        Ok(BatchEntry::Call(create_request_with_params(
            "eth_blockNumber",
            RawValue::from_string("[]".to_string()).unwrap(),
            1,
        ))),
        Ok(BatchEntry::Call(create_request_with_params(
            ETH_GET_BLOCK_BY_NUMBER_METHOD,
            RawValue::from_string(r#"["pending", false]"#.to_string()).unwrap(),
            2,
        ))),
    ]);
    let response = middleware.handle_batch(batch);
    let json = response.into_json();
    let responses: Vec<serde_json::Value> = serde_json::from_str(json.get()).unwrap();

    assert_eq!(responses.len(), 2);
    assert_eq!(responses[0]["result"], "success");
    assert!(
        responses[1]["result"].is_null(),
        "batch pending block should return null"
    );
}

#[test]
fn test_enabled_batch_new_method_pending_returns_null() {
    let middleware = NoPendingTransactionsRpcMiddleware::new(MockRpcService);
    let batch = batch_of(vec![
        Ok(BatchEntry::Call(create_request_with_params(
            "eth_blockNumber",
            RawValue::from_string("[]".to_string()).unwrap(),
            1,
        ))),
        Ok(BatchEntry::Call(create_request_with_params(
            ETH_GET_BLOCK_RECEIPTS_METHOD,
            RawValue::from_string(r#"["pending"]"#.to_string()).unwrap(),
            2,
        ))),
    ]);
    let response = middleware.handle_batch(batch);
    let json = response.into_json();
    let responses: Vec<serde_json::Value> = serde_json::from_str(json.get()).unwrap();
    assert_eq!(responses.len(), 2);
    assert_eq!(responses[0]["result"], "success");
    assert!(
        responses[1]["result"].is_null(),
        "batch new-method pending should return null"
    );
}

#[test]
fn test_enabled_batch_pool_lookup_returns_null() {
    let middleware = NoPendingTransactionsRpcMiddleware::new(MockRpcService);
    let batch = batch_of(vec![
        Ok(BatchEntry::Call(create_request_with_params(
            "eth_blockNumber",
            RawValue::from_string("[]".to_string()).unwrap(),
            1,
        ))),
        Ok(BatchEntry::Call(create_request_with_params(
            ETH_GET_TX_BY_SENDER_AND_NONCE_METHOD,
            RawValue::from_string(
                r#"["0x1234567890abcdef1234567890abcdef12345678", "0x0"]"#.to_string(),
            )
            .unwrap(),
            2,
        ))),
    ]);
    let response = middleware.handle_batch(batch);
    let json = response.into_json();
    let responses: Vec<serde_json::Value> = serde_json::from_str(json.get()).unwrap();

    assert_eq!(responses.len(), 2);
    assert_eq!(responses[0]["result"], "success");
    assert!(
        responses[1]["result"].is_null(),
        "batch pool lookup should return null"
    );
}

#[test]
fn test_enabled_batch_mixed_interceptions() {
    let middleware = NoPendingTransactionsRpcMiddleware::new(MockRpcService);
    let batch = batch_of(vec![
        // 0: normal method → success
        Ok(BatchEntry::Call(create_request_with_params(
            "eth_blockNumber",
            RawValue::from_string("[]".to_string()).unwrap(),
            1,
        ))),
        // 1: pool lookup → null
        Ok(BatchEntry::Call(create_request_with_params(
            ETH_GET_TX_BY_SENDER_AND_NONCE_METHOD,
            RawValue::from_string("[]".to_string()).unwrap(),
            2,
        ))),
        // 2: pending block → null
        Ok(BatchEntry::Call(create_request_with_params(
            ETH_GET_BLOCK_BY_NUMBER_METHOD,
            RawValue::from_string(r#"["pending", false]"#.to_string()).unwrap(),
            3,
        ))),
        // 3: pending tx subscription → error
        Ok(BatchEntry::Call(create_request_with_params(
            ETH_SUBSCRIBE_METHOD,
            RawValue::from_string(r#"["newPendingTransactions"]"#.to_string()).unwrap(),
            4,
        ))),
    ]);
    let response = middleware.handle_batch(batch);
    let json = response.into_json();
    let responses: Vec<serde_json::Value> = serde_json::from_str(json.get()).unwrap();

    assert_eq!(responses.len(), 4);
    assert_eq!(
        responses[0]["result"], "success",
        "normal method should succeed"
    );
    assert!(
        responses[1]["result"].is_null(),
        "pool lookup should return null"
    );
    assert!(
        responses[2]["result"].is_null(),
        "pending block should return null"
    );
    assert!(
        responses[3].get("error").is_some(),
        "pending tx subscription should error"
    );
}

#[test]
fn test_enabled_batch_notification_excluded_from_response() {
    let middleware = NoPendingTransactionsRpcMiddleware::new(MockRpcService);
    let batch = batch_of(vec![
        Ok(BatchEntry::Call(create_request_with_params(
            "eth_blockNumber",
            RawValue::from_string("[]".to_string()).unwrap(),
            1,
        ))),
        Ok(BatchEntry::Notification),
        Ok(BatchEntry::Call(create_request_with_params(
            "eth_chainId",
            RawValue::from_string("[]".to_string()).unwrap(),
            2,
        ))),
    ]);
    let response = middleware.handle_batch(batch);
    let json = response.into_json();
    let responses: Vec<serde_json::Value> = serde_json::from_str(json.get()).unwrap();

    assert_eq!(
        responses.len(),
        2,
        "notification must not produce a response entry"
    );
    assert_eq!(responses[0]["result"], "success");
    assert_eq!(responses[1]["result"], "success");
}

// ── Middleware disabled (--arc.expose-pending-txs) ──────────────────
//
// The middleware is bypassed entirely. All requests pass through.

#[test]
fn test_disabled_allows_pending_tx_subscription() {
    let layer = ArcRpcLayer {
        filter_pending_txs: false,
        ..Default::default()
    };
    let middleware = layer.layer(MockRpcService);
    let params = RawValue::from_string(r#"["newPendingTransactions"]"#.to_string()).unwrap();
    let request = create_request_with_params(ETH_SUBSCRIBE_METHOD, params, 99);
    let response = middleware.handle_call(request);

    assert!(
        response.as_error_code().is_none(),
        "filter_pending_txs=false should allow newPendingTransactions"
    );
    let json: serde_json::Value = serde_json::from_str(response.into_json().get()).unwrap();
    assert_eq!(
        json["result"], "success",
        "filter_pending_txs=false should forward to inner service"
    );
}

#[test]
fn test_disabled_allows_pending_tx_filter() {
    let layer = ArcRpcLayer {
        filter_pending_txs: false,
        ..Default::default()
    };
    let middleware = layer.layer(MockRpcService);
    let params = RawValue::from_string(r#"[]"#.to_string()).unwrap();
    let request = create_request_with_params(ETH_NEW_PENDING_TX_FILTER_METHOD, params, 101);
    let response = middleware.handle_call(request);
    assert!(
        response.as_error_code().is_none(),
        "filter_pending_txs=false should allow newPendingTransactionFilter"
    );
    let json: serde_json::Value = serde_json::from_str(response.into_json().get()).unwrap();
    assert_eq!(
        json["result"], "success",
        "filter_pending_txs=false should forward to inner service"
    );
}

#[test]
fn test_disabled_allows_pool_lookup() {
    let layer = ArcRpcLayer {
        filter_pending_txs: false,
        ..Default::default()
    };
    let middleware = layer.layer(MockRpcService);
    let params = RawValue::from_string(
        r#"["0x1234567890abcdef1234567890abcdef12345678", "0x0"]"#.to_string(),
    )
    .unwrap();
    let request =
        create_request_with_params(ETH_GET_TX_BY_SENDER_AND_NONCE_METHOD, params, 102);
    let response = middleware.handle_call(request);
    assert!(
        response.as_error_code().is_none(),
        "filter_pending_txs=false should allow eth_getTransactionBySenderAndNonce"
    );
    let json: serde_json::Value = serde_json::from_str(response.into_json().get()).unwrap();
    assert_eq!(
        json["result"], "success",
        "filter_pending_txs=false should forward to inner service"
    );
}

#[test]
fn test_disabled_allows_pending_block() {
    let layer = ArcRpcLayer {
        filter_pending_txs: false,
        ..Default::default()
    };
    let middleware = layer.layer(MockRpcService);
    let params = RawValue::from_string(r#"["pending", false]"#.to_string()).unwrap();
    let request = create_request_with_params(ETH_GET_BLOCK_BY_NUMBER_METHOD, params, 1);
    let response = middleware.handle_call(request);

    assert!(
        response.as_error_code().is_none(),
        "filter_pending_txs=false should allow getBlockByNumber(\"pending\")"
    );
    let json: serde_json::Value = serde_json::from_str(response.into_json().get()).unwrap();
    assert_eq!(
        json["result"], "success",
        "filter_pending_txs=false should forward to inner service"
    );
}

#[test]
fn test_disabled_allows_new_pending_block_methods() {
    let layer = ArcRpcLayer {
        filter_pending_txs: false,
        ..Default::default()
    };
    let middleware = layer.layer(MockRpcService);
    let methods = [
        ETH_GET_BLOCK_RECEIPTS_METHOD,
        ETH_GET_BLOCK_TX_COUNT_BY_NUMBER_METHOD,
        ETH_GET_TX_BY_BLOCK_NUMBER_AND_INDEX_METHOD,
        ETH_GET_RAW_TX_BY_BLOCK_NUMBER_AND_INDEX_METHOD,
        ETH_GET_UNCLE_COUNT_BY_BLOCK_NUMBER_METHOD,
    ];
    for method in methods {
        let params = RawValue::from_string(r#"["pending"]"#.to_string()).unwrap();
        let request = create_request_with_params(method, params, 1);
        let response = middleware.handle_call(request);
        assert!(
            response.as_error_code().is_none(),
            "filter_pending_txs=false should allow {method}"
        );
        let json: serde_json::Value = serde_json::from_str(response.into_json().get()).unwrap();
        assert_eq!(
            json["result"], "success",
            "filter_pending_txs=false should forward {method}"
        );
    }
}

// ── ArcRpcLayer::default() ──────────────────────────────────────────

#[test]
fn test_arc_rpc_layer_default_has_filter_enabled() {
    let layer = ArcRpcLayer::default();
    assert!(
        layer.filter_pending_txs,
        "Default ArcRpcLayer should have filter enabled (opt out via --arc.expose-pending-txs)"
    );
}

#[test]
fn test_arc_rpc_layer_default_max_batch_entries() {
    let layer = ArcRpcLayer::default();
    assert_eq!(layer.max_batch_entries, ARC_RPC_MAX_BATCH_ENTRIES_DEFAULT);
}

// ── BatchSizeLimitMiddleware ────────────────────────────────────────

fn make_call_entry(method: &str, id: u64) -> BatchEntry {
    BatchEntry::Call(create_request_with_params(
        method,
        RawValue::from_string("[]".to_string()).unwrap(),
        id,
    ))
}

#[test]
fn test_batch_size_limit_at_limit_passes_through() {
    let middleware = BatchSizeLimitMiddleware::new(MockRpcService, 3);
    let batch = batch_of(vec![
        Ok(make_call_entry("eth_blockNumber", 1)),
        Ok(make_call_entry("eth_blockNumber", 2)),
        Ok(make_call_entry("eth_blockNumber", 3)),
    ]);
    let response = middleware.handle_batch(batch);
    let responses: Vec<serde_json::Value> =
        serde_json::from_str(response.into_json().get()).unwrap();
    assert_eq!(responses.len(), 3);
    for r in &responses {
        assert_eq!(r["result"], "success");
    }
}

#[test]
fn test_batch_size_limit_below_limit_passes_through() {
    let middleware = BatchSizeLimitMiddleware::new(MockRpcService, 10);
    let batch = batch_of(vec![
        Ok(make_call_entry("eth_blockNumber", 1)),
        Ok(make_call_entry("eth_chainId", 2)),
    ]);
    let response = middleware.handle_batch(batch);
    let responses: Vec<serde_json::Value> =
        serde_json::from_str(response.into_json().get()).unwrap();
    assert_eq!(responses.len(), 2);
}

#[test]
fn test_batch_size_limit_above_limit_rejected() {
    let middleware = BatchSizeLimitMiddleware::new(MockRpcService, 2);
    let batch = batch_of(vec![
        Ok(make_call_entry("eth_blockNumber", 1)),
        Ok(make_call_entry("eth_blockNumber", 2)),
        Ok(make_call_entry("eth_blockNumber", 3)),
    ]);
    let response = middleware.handle_batch(batch);
    assert_eq!(
        response.as_error_code(),
        Some(BATCH_TOO_LARGE_ERROR_CODE),
        "oversized batch should be rejected with BATCH_TOO_LARGE_ERROR_CODE"
    );
    let json: serde_json::Value = serde_json::from_str(response.into_json().get()).unwrap();
    assert!(json["id"].is_null(), "batch rejection should use Id::Null");
    let message = json["error"]["message"].as_str().unwrap_or("");
    assert!(
        message.contains("batch size 3") && message.contains("limit of 2"),
        "error message should name the offending size and limit; got: {message}"
    );
}

#[test]
fn test_batch_size_limit_single_call_passes_through() {
    let middleware = BatchSizeLimitMiddleware::new(MockRpcService, 1);
    let params = RawValue::from_string("[]".to_string()).unwrap();
    let request = create_request_with_params("eth_blockNumber", params, 1);
    let response = middleware.handle_call(request);
    let json: serde_json::Value = serde_json::from_str(response.into_json().get()).unwrap();
    assert_eq!(json["result"], "success");
}

#[test]
fn test_batch_size_limit_composes_with_pending_filter() {
    // ArcRpcLayer composes BatchSizeLimit ∘ NoPendingTransactions. Verify that
    // an oversized batch is rejected before the pending-tx filter iterates entries.
    let layer = ArcRpcLayer {
        filter_pending_txs: true,
        max_batch_entries: 2,
        ..Default::default()
    };
    let middleware = layer.layer(MockRpcService);
    let batch = batch_of(vec![
        Ok(make_call_entry("eth_blockNumber", 1)),
        Ok(make_call_entry("eth_blockNumber", 2)),
        Ok(make_call_entry("eth_blockNumber", 3)),
    ]);
    let response = middleware.handle_batch(batch);
    assert_eq!(response.as_error_code(), Some(BATCH_TOO_LARGE_ERROR_CODE));
}

#[test]
fn test_batch_size_limit_applies_when_pending_filter_disabled() {
    // The batch cap must apply even when --arc.expose-pending-txs disables
    // the pending-tx filter (the other half of the composition).
    let layer = ArcRpcLayer {
        filter_pending_txs: false,
        max_batch_entries: 2,
        ..Default::default()
    };
    let middleware = layer.layer(MockRpcService);
    let batch = batch_of(vec![
        Ok(make_call_entry("eth_blockNumber", 1)),
        Ok(make_call_entry("eth_blockNumber", 2)),
        Ok(make_call_entry("eth_blockNumber", 3)),
    ]);
    let response = middleware.handle_batch(batch);
    assert_eq!(response.as_error_code(), Some(BATCH_TOO_LARGE_ERROR_CODE));
}

// ── RejectUnprotectedTxsMiddleware ──────────────────────────────────

/// Dummy non-zero signature scalars. Sufficient for envelope decoding; we
/// never recover the signer or verify the signature in middleware.
fn dummy_signature() -> Signature {
    Signature::new(U256::from(1u64), U256::from(1u64), false)
}

fn legacy_tx(chain_id: Option<u64>) -> TxLegacy {
    TxLegacy {
        chain_id,
        nonce: 0,
        gas_price: 1_000_000_000,
        gas_limit: 21_000,
        to: TxKind::Call(Address::ZERO),
        value: U256::ZERO,
        input: Default::default(),
    }
}

fn encode_legacy_bytes(chain_id: Option<u64>) -> Vec<u8> {
    let tx = legacy_tx(chain_id);
    let signed = tx.into_signed(dummy_signature());
    let envelope: TxEnvelope = signed.into();
    envelope.encoded_2718()
}

fn encode_legacy_raw(chain_id: Option<u64>) -> String {
    format!("0x{}", hex::encode(encode_legacy_bytes(chain_id)))
}

fn raw_tx_request_with_params(method: &str, params_json: String, id: u64) -> Request {
    let params = RawValue::from_string(params_json).unwrap();
    create_request_with_params(method, params, id)
}

fn send_raw_tx_request_with_params(params_json: String, id: u64) -> Request {
    raw_tx_request_with_params(ETH_SEND_RAW_TRANSACTION_METHOD, params_json, id)
}

fn send_raw_tx_request(raw_hex: &str, id: u64) -> Request {
    send_raw_tx_request_with_params(format!("[\"{raw_hex}\"]"), id)
}

fn send_raw_tx_sync_request(raw_hex: &str, id: u64) -> Request {
    raw_tx_request_with_params(
        ETH_SEND_RAW_TRANSACTION_SYNC_METHOD,
        format!("[\"{raw_hex}\"]"),
        id,
    )
}

fn send_raw_tx_object_request(raw_hex: &str, id: u64) -> Request {
    send_raw_tx_request_with_params(format!("{{\"bytes\":\"{raw_hex}\"}}"), id)
}

fn send_raw_tx_bytes_request(bytes: &[u8], id: u64) -> Request {
    let bytes_json = serde_json::to_string(bytes).unwrap();
    send_raw_tx_request_with_params(format!("[{bytes_json}]"), id)
}

fn send_raw_tx_object_bytes_request(bytes: &[u8], id: u64) -> Request {
    let bytes_json = serde_json::to_string(bytes).unwrap();
    send_raw_tx_request_with_params(format!("{{\"bytes\":{bytes_json}}}"), id)
}

fn assert_unprotected_tx_rejected(response: MethodResponse) {
    assert_eq!(
        response.as_error_code(),
        Some(UNPROTECTED_TX_ERROR_CODE),
        "pre-EIP-155 tx must be rejected with UNPROTECTED_TX_ERROR_CODE"
    );
    let json: serde_json::Value = serde_json::from_str(response.into_json().get()).unwrap();
    assert_eq!(json["error"]["message"], UNPROTECTED_TX_ERROR_MSG);
}

#[test]
fn test_rejects_pre_eip155_send_raw_transaction() {
    let middleware = RejectUnprotectedTxsMiddleware::new(MockRpcService);
    let request = send_raw_tx_request(&encode_legacy_raw(None), 1);
    let response = middleware.handle_call(request);

    assert_unprotected_tx_rejected(response);
}

#[test]
fn test_rejects_pre_eip155_send_raw_transaction_sync() {
    let middleware = RejectUnprotectedTxsMiddleware::new(MockRpcService);
    let request = send_raw_tx_sync_request(&encode_legacy_raw(None), 1);
    let response = middleware.handle_call(request);

    assert_unprotected_tx_rejected(response);
}

#[test]
fn test_rejects_pre_eip155_raw_transaction_with_extra_positional_param() {
    let raw_hex = encode_legacy_raw(None);
    for method in [
        ETH_SEND_RAW_TRANSACTION_METHOD,
        ETH_SEND_RAW_TRANSACTION_SYNC_METHOD,
    ] {
        let middleware = RejectUnprotectedTxsMiddleware::new(MockRpcService);
        let request = raw_tx_request_with_params(
            method,
            format!("[\"{raw_hex}\",\"ignored\"]"),
            1,
        );
        let response = middleware.handle_call(request);

        assert_unprotected_tx_rejected(response);
    }
}

#[test]
fn test_rejects_pre_eip155_send_raw_transaction_object_hex_params() {
    let middleware = RejectUnprotectedTxsMiddleware::new(MockRpcService);
    let request = send_raw_tx_object_request(&encode_legacy_raw(None), 1);
    let response = middleware.handle_call(request);

    assert_unprotected_tx_rejected(response);
}

#[test]
fn test_rejects_pre_eip155_send_raw_transaction_positional_bytes_params() {
    let middleware = RejectUnprotectedTxsMiddleware::new(MockRpcService);
    let bytes = encode_legacy_bytes(None);
    let request = send_raw_tx_bytes_request(&bytes, 1);
    let response = middleware.handle_call(request);

    assert_unprotected_tx_rejected(response);
}

#[test]
fn test_rejects_pre_eip155_send_raw_transaction_object_bytes_params() {
    let middleware = RejectUnprotectedTxsMiddleware::new(MockRpcService);
    let bytes = encode_legacy_bytes(None);
    let request = send_raw_tx_object_bytes_request(&bytes, 1);
    let response = middleware.handle_call(request);

    assert_unprotected_tx_rejected(response);
}

#[test]
fn test_allows_eip155_send_raw_transaction() {
    let middleware = RejectUnprotectedTxsMiddleware::new(MockRpcService);
    let request = send_raw_tx_request(&encode_legacy_raw(Some(1337)), 2);
    let response = middleware.handle_call(request);

    assert!(
        response.as_error_code().is_none(),
        "EIP-155-protected legacy tx must be forwarded to the inner service"
    );
    let json: serde_json::Value = serde_json::from_str(response.into_json().get()).unwrap();
    assert_eq!(json["result"], "success");
}

#[test]
fn test_allows_eip155_raw_transaction_with_extra_positional_param() {
    let raw_hex = encode_legacy_raw(Some(1337));
    for method in [
        ETH_SEND_RAW_TRANSACTION_METHOD,
        ETH_SEND_RAW_TRANSACTION_SYNC_METHOD,
    ] {
        let middleware = RejectUnprotectedTxsMiddleware::new(MockRpcService);
        let request = raw_tx_request_with_params(
            method,
            format!("[\"{raw_hex}\",\"ignored\"]"),
            2,
        );
        let response = middleware.handle_call(request);

        assert!(
            response.as_error_code().is_none(),
            "EIP-155-protected legacy tx with trailing positional params must be forwarded"
        );
        let json: serde_json::Value =
            serde_json::from_str(response.into_json().get()).unwrap();
        assert_eq!(json["result"], "success");
    }
}

#[test]
fn test_malformed_raw_tx_forwarded() {
    // Bad hex / undecodable RLP must reach the inner handler so it can
    // return its own precise error — middleware must not pre-empt.
    let middleware = RejectUnprotectedTxsMiddleware::new(MockRpcService);
    let request = send_raw_tx_request("0xdeadbeef", 4);
    let response = middleware.handle_call(request);

    assert!(
        response.as_error_code().is_none(),
        "undecodable raw tx must be forwarded to inner handler"
    );
}

#[test]
fn test_raw_tx_with_trailing_bytes_forwarded() {
    // Trailing bytes make the payload malformed. The middleware must not
    // convert that into its replay-protection error.
    let middleware = RejectUnprotectedTxsMiddleware::new(MockRpcService);
    let mut bytes = encode_legacy_bytes(None);
    bytes.push(0);
    let raw_hex = format!("0x{}", hex::encode(bytes));
    let request = send_raw_tx_request(&raw_hex, 5);
    let response = middleware.handle_call(request);

    assert!(
        response.as_error_code().is_none(),
        "raw tx with trailing bytes must be forwarded to inner handler"
    );
    let json: serde_json::Value = serde_json::from_str(response.into_json().get()).unwrap();
    assert_eq!(json["result"], "success");
}

#[test]
fn test_batch_partial_reject() {
    // A mixed batch: only the unprotected entry must be rejected; the
    // protected and unrelated entries must reach the inner handler.
    let middleware = RejectUnprotectedTxsMiddleware::new(MockRpcService);
    let unprotected = send_raw_tx_request(&encode_legacy_raw(None), 1);
    let protected = send_raw_tx_request(&encode_legacy_raw(Some(1337)), 2);
    let other = create_request_with_params(
        "eth_blockNumber",
        RawValue::from_string("[]".to_string()).unwrap(),
        3,
    );
    let batch = batch_of(vec![
        Ok(BatchEntry::Call(unprotected)),
        Ok(BatchEntry::Call(protected)),
        Ok(BatchEntry::Call(other)),
    ]);
    let response = middleware.handle_batch(batch);
    let responses: Vec<serde_json::Value> =
        serde_json::from_str(response.into_json().get()).unwrap();

    assert_eq!(responses.len(), 3);
    assert_eq!(responses[0]["error"]["code"], UNPROTECTED_TX_ERROR_CODE);
    assert_eq!(responses[0]["error"]["message"], UNPROTECTED_TX_ERROR_MSG);
    assert_eq!(responses[1]["result"], "success");
    assert_eq!(responses[2]["result"], "success");
}

#[test]
fn test_batch_rejects_unprotected_with_extra_positional_param() {
    let middleware = RejectUnprotectedTxsMiddleware::new(MockRpcService);
    let unprotected_hex = encode_legacy_raw(None);
    let protected_hex = encode_legacy_raw(Some(1337));
    let unprotected = send_raw_tx_request_with_params(
        format!("[\"{unprotected_hex}\",\"ignored\"]"),
        1,
    );
    let protected = send_raw_tx_request_with_params(
        format!("[\"{protected_hex}\",\"ignored\"]"),
        2,
    );
    let batch = batch_of(vec![
        Ok(BatchEntry::Call(unprotected)),
        Ok(BatchEntry::Call(protected)),
    ]);
    let response = middleware.handle_batch(batch);
    let responses: Vec<serde_json::Value> =
        serde_json::from_str(response.into_json().get()).unwrap();

    assert_eq!(responses.len(), 2);
    assert_eq!(responses[0]["error"]["code"], UNPROTECTED_TX_ERROR_CODE);
    assert_eq!(responses[0]["error"]["message"], UNPROTECTED_TX_ERROR_MSG);
    assert_eq!(responses[1]["result"], "success");
}

#[test]
fn test_batch_partial_rejects_send_raw_transaction_sync() {
    let middleware = RejectUnprotectedTxsMiddleware::new(MockRpcService);
    let unprotected = send_raw_tx_sync_request(&encode_legacy_raw(None), 1);
    let other = create_request_with_params(
        "eth_blockNumber",
        RawValue::from_string("[]".to_string()).unwrap(),
        2,
    );
    let batch = batch_of(vec![
        Ok(BatchEntry::Call(unprotected)),
        Ok(BatchEntry::Call(other)),
    ]);
    let response = middleware.handle_batch(batch);
    let responses: Vec<serde_json::Value> =
        serde_json::from_str(response.into_json().get()).unwrap();

    assert_eq!(responses.len(), 2);
    assert_eq!(responses[0]["error"]["code"], UNPROTECTED_TX_ERROR_CODE);
    assert_eq!(responses[0]["error"]["message"], UNPROTECTED_TX_ERROR_MSG);
    assert_eq!(responses[1]["result"], "success");
}

#[test]
fn test_default_layer_rejects_unprotected_and_pending_entries_in_batch() {
    let layer = ArcRpcLayer::default();
    let middleware = layer.layer(MockRpcService);
    let unprotected = send_raw_tx_request(&encode_legacy_raw(None), 1);
    let pending_subscription = create_request_with_params(
        ETH_SUBSCRIBE_METHOD,
        RawValue::from_string(r#"["newPendingTransactions"]"#.to_string()).unwrap(),
        2,
    );
    let other = create_request_with_params(
        "eth_blockNumber",
        RawValue::from_string("[]".to_string()).unwrap(),
        3,
    );
    let batch = batch_of(vec![
        Ok(BatchEntry::Call(unprotected)),
        Ok(BatchEntry::Call(pending_subscription)),
        Ok(BatchEntry::Call(other)),
    ]);
    let response = middleware.handle_batch(batch);
    let responses: Vec<serde_json::Value> =
        serde_json::from_str(response.into_json().get()).unwrap();

    assert_eq!(responses.len(), 3);
    assert_eq!(responses[0]["error"]["code"], UNPROTECTED_TX_ERROR_CODE);
    assert_eq!(responses[0]["error"]["message"], UNPROTECTED_TX_ERROR_MSG);
    assert_eq!(
        responses[1]["error"]["code"],
        PENDING_TX_SUBSCRIPTION_ERROR_CODE
    );
    assert_eq!(responses[2]["result"], "success");
}

#[test]
fn test_flag_off_via_layer_allows_unprotected() {
    // With --arc.rpc.allow-unprotected-txs, the rejecting middleware is
    // bypassed entirely and pre-EIP-155 txs reach the inner service.
    let layer = ArcRpcLayer {
        allow_unprotected_txs: true,
        ..Default::default()
    };
    let middleware = layer.layer(MockRpcService);
    let request = send_raw_tx_request(&encode_legacy_raw(None), 10);
    let response = middleware.handle_call(request);

    assert!(
        response.as_error_code().is_none(),
        "allow_unprotected_txs=true must let pre-EIP-155 txs through"
    );
    let json: serde_json::Value = serde_json::from_str(response.into_json().get()).unwrap();
    assert_eq!(json["result"], "success");
}

// ── Case-insensitive "pending" tag + additional block-content methods ──
//
// All six block-content methods accept a block number/tag as first param.
// When that tag is "pending" (any case) the middleware returns null.

#[test]
fn test_pending_block_methods_all_tags_return_null() {
    let middleware = NoPendingTransactionsRpcMiddleware::new(MockRpcService);
    let cases = [
        (ETH_GET_BLOCK_BY_NUMBER_METHOD, "pending"),
        (ETH_GET_BLOCK_BY_NUMBER_METHOD, "Pending"),
        (ETH_GET_BLOCK_BY_NUMBER_METHOD, "PENDING"),
        (ETH_GET_BLOCK_RECEIPTS_METHOD, "pending"),
        (ETH_GET_BLOCK_RECEIPTS_METHOD, "Pending"),
        (ETH_GET_BLOCK_RECEIPTS_METHOD, "PENDING"),
        (ETH_GET_BLOCK_TX_COUNT_BY_NUMBER_METHOD, "pending"),
        (ETH_GET_BLOCK_TX_COUNT_BY_NUMBER_METHOD, "Pending"),
        (ETH_GET_BLOCK_TX_COUNT_BY_NUMBER_METHOD, "PENDING"),
        (ETH_GET_TX_BY_BLOCK_NUMBER_AND_INDEX_METHOD, "pending"),
        (ETH_GET_TX_BY_BLOCK_NUMBER_AND_INDEX_METHOD, "Pending"),
        (ETH_GET_TX_BY_BLOCK_NUMBER_AND_INDEX_METHOD, "PENDING"),
        (ETH_GET_RAW_TX_BY_BLOCK_NUMBER_AND_INDEX_METHOD, "pending"),
        (ETH_GET_RAW_TX_BY_BLOCK_NUMBER_AND_INDEX_METHOD, "Pending"),
        (ETH_GET_RAW_TX_BY_BLOCK_NUMBER_AND_INDEX_METHOD, "PENDING"),
        (ETH_GET_UNCLE_COUNT_BY_BLOCK_NUMBER_METHOD, "pending"),
        (ETH_GET_UNCLE_COUNT_BY_BLOCK_NUMBER_METHOD, "Pending"),
        (ETH_GET_UNCLE_COUNT_BY_BLOCK_NUMBER_METHOD, "PENDING"),
        (ETH_GET_HEADER_BY_NUMBER_METHOD, "pending"),
        (ETH_GET_HEADER_BY_NUMBER_METHOD, "Pending"),
        (ETH_GET_HEADER_BY_NUMBER_METHOD, "PENDING"),
    ];
    for (method, tag) in cases {
        let params = RawValue::from_string(format!("[\"{tag}\"]")).unwrap();
        let request = create_request_with_params(method, params, 1);
        let response = middleware.handle_call(request);
        assert!(
            response.as_error_code().is_none(),
            "{method} with \"{tag}\" should not error"
        );
        let json: serde_json::Value = serde_json::from_str(response.into_json().get()).unwrap();
        assert!(
            json["result"].is_null(),
            "{method} with \"{tag}\" should return null"
        );
    }
}

#[test]
fn test_additional_pending_block_methods_non_pending_tag_passes_through() {
    let middleware = NoPendingTransactionsRpcMiddleware::new(MockRpcService);
    let cases: &[(&str, &str)] = &[
        (ETH_GET_BLOCK_RECEIPTS_METHOD, r#"["latest"]"#),
        (ETH_GET_BLOCK_TX_COUNT_BY_NUMBER_METHOD, r#"["latest"]"#),
        (
            ETH_GET_TX_BY_BLOCK_NUMBER_AND_INDEX_METHOD,
            r#"["0x1", "0x0"]"#,
        ),
        (
            ETH_GET_RAW_TX_BY_BLOCK_NUMBER_AND_INDEX_METHOD,
            r#"["0x1", "0x0"]"#,
        ),
        (ETH_GET_UNCLE_COUNT_BY_BLOCK_NUMBER_METHOD, r#"["latest"]"#),
        (ETH_GET_HEADER_BY_NUMBER_METHOD, r#"["latest"]"#),
    ];
    for (method, params_json) in cases {
        let params = RawValue::from_string(params_json.to_string()).unwrap();
        let request = create_request_with_params(method, params, 1);
        let response = middleware.handle_call(request);

        assert!(
            response.as_error_code().is_none(),
            "{method} with non-pending tag should pass through"
        );
        let json: serde_json::Value = serde_json::from_str(response.into_json().get()).unwrap();
        assert_eq!(
            json["result"], "success",
            "{method} with non-pending tag should return inner service response"
        );
    }
}

// ── Object-style params bypass ──────────────────────────────────────
//
// jsonrpsee handlers accept both array and object params. The middleware
// must intercept object-style pending-block queries too.

#[test]
fn test_object_params_pending_block_returns_null() {
    let middleware = NoPendingTransactionsRpcMiddleware::new(MockRpcService);
    let cases: &[(&str, &str)] = &[
        // Five methods use "number" key
        (
            ETH_GET_BLOCK_BY_NUMBER_METHOD,
            r#"{"number": "pending", "full": false}"#,
        ),
        (
            ETH_GET_BLOCK_TX_COUNT_BY_NUMBER_METHOD,
            r#"{"number": "pending"}"#,
        ),
        (
            ETH_GET_TX_BY_BLOCK_NUMBER_AND_INDEX_METHOD,
            r#"{"number": "pending", "index": "0x0"}"#,
        ),
        (
            ETH_GET_RAW_TX_BY_BLOCK_NUMBER_AND_INDEX_METHOD,
            r#"{"number": "pending", "index": "0x0"}"#,
        ),
        (
            ETH_GET_UNCLE_COUNT_BY_BLOCK_NUMBER_METHOD,
            r#"{"number": "pending"}"#,
        ),
        // eth_getBlockReceipts uses "block_id" (snake) or "blockId" (camel)
        (ETH_GET_BLOCK_RECEIPTS_METHOD, r#"{"block_id": "pending"}"#),
        (ETH_GET_BLOCK_RECEIPTS_METHOD, r#"{"blockId": "pending"}"#),
        // eth_getHeaderByNumber uses "hash" (Reth's proc-macro arg name)
        (ETH_GET_HEADER_BY_NUMBER_METHOD, r#"{"hash": "pending"}"#),
        // Case-insensitive variant via object params — guards that BlockNumberOrTag deserialization lowercases tags
        (
            ETH_GET_BLOCK_BY_NUMBER_METHOD,
            r#"{"number": "PENDING", "full": false}"#,
        ),
    ];
    for (method, params_json) in cases {
        let params = RawValue::from_string(params_json.to_string()).unwrap();
        let request = create_request_with_params(method, params, 1);
        let response = middleware.handle_call(request);
        assert!(
            response.as_error_code().is_none(),
            "{method} with object params should not error"
        );
        let json: serde_json::Value = serde_json::from_str(response.into_json().get()).unwrap();
        assert!(
            json["result"].is_null(),
            "{method} with object params {{...\"pending\"...}} should return null"
        );
    }
}

#[test]
fn test_object_params_non_pending_passes_through() {
    let middleware = NoPendingTransactionsRpcMiddleware::new(MockRpcService);
    let cases: &[(&str, &str)] = &[
        (
            ETH_GET_BLOCK_BY_NUMBER_METHOD,
            r#"{"number": "0x1", "full": false}"#,
        ),
        (ETH_GET_BLOCK_RECEIPTS_METHOD, r#"{"block_id": "latest"}"#),
        (ETH_GET_HEADER_BY_NUMBER_METHOD, r#"{"hash": "latest"}"#),
        // Unknown field → passes through (Reth returns parse error, not middleware)
        (ETH_GET_BLOCK_BY_NUMBER_METHOD, r#"{"garbage": "pending"}"#),
    ];
    for (method, params_json) in cases {
        let params = RawValue::from_string(params_json.to_string()).unwrap();
        let request = create_request_with_params(method, params, 1);
        let response = middleware.handle_call(request);
        assert!(
            response.as_error_code().is_none(),
            "{method} with non-pending object params should pass through"
        );
        let json: serde_json::Value = serde_json::from_str(response.into_json().get()).unwrap();
        assert_eq!(
            json["result"], "success",
            "{method} with non-pending object params should reach inner service"
        );
    }
}

// ── EIP-1898 BlockId object form ────────────────────────────────────
//
// eth_getBlockReceipts accepts BlockId, which allows an EIP-1898 object
// form in addition to the plain string form.  {"blockNumber": "pending"}
// deserializes to BlockId::Number(Pending) and must also be intercepted.

#[test]
fn test_eip1898_block_receipts_pending_returns_null() {
    let middleware = NoPendingTransactionsRpcMiddleware::new(MockRpcService);
    let cases: &[&str] = &[
        // Array-style: element is an EIP-1898 object
        r#"[{"blockNumber": "pending"}]"#,
        // Named params (snake_case key) with EIP-1898 value
        r#"{"block_id": {"blockNumber": "pending"}}"#,
        // Named params (camelCase key) with EIP-1898 value
        r#"{"blockId": {"blockNumber": "pending"}}"#,
    ];
    for params_json in cases {
        let params = RawValue::from_string(params_json.to_string()).unwrap();
        let request = create_request_with_params(ETH_GET_BLOCK_RECEIPTS_METHOD, params, 1);
        let response = middleware.handle_call(request);
        assert!(
            response.as_error_code().is_none(),
            "eth_getBlockReceipts EIP-1898 pending should not error"
        );
        let json: serde_json::Value = serde_json::from_str(response.into_json().get()).unwrap();
        assert!(
            json["result"].is_null(),
            "eth_getBlockReceipts with EIP-1898 pending ({params_json}) should return null"
        );
    }
}

#[test]
fn test_eip1898_block_receipts_non_pending_passes_through() {
    let middleware = NoPendingTransactionsRpcMiddleware::new(MockRpcService);
    let cases: &[&str] = &[
        r#"[{"blockNumber": "0x1"}]"#,
        r#"{"block_id": {"blockNumber": "0x1"}}"#,
    ];
    for params_json in cases {
        let params = RawValue::from_string(params_json.to_string()).unwrap();
        let request = create_request_with_params(ETH_GET_BLOCK_RECEIPTS_METHOD, params, 1);
        let response = middleware.handle_call(request);
        assert!(
            response.as_error_code().is_none(),
            "eth_getBlockReceipts EIP-1898 non-pending should pass through"
        );
        let json: serde_json::Value = serde_json::from_str(response.into_json().get()).unwrap();
        assert_eq!(
            json["result"], "success",
            "eth_getBlockReceipts with EIP-1898 non-pending ({params_json}) should reach inner service"
        );
    }
}

// ── Transaction relay middleware ────────────────────────────────────

fn result_of(resp: MethodResponse) -> serde_json::Value {
    let json: serde_json::Value = serde_json::from_str(resp.into_json().get()).unwrap();
    json["result"].clone()
}

const RAW_TX_HEX: &str = "0xdeadbeef";

#[test]
fn should_failover_classifies_http_status() {
    // 5xx and 429 are transient: advance to the next upstream.
    assert!(should_failover(&http_error(
        500,
        String::new()
    )));
    assert!(should_failover(&http_error(
        503,
        String::new()
    )));
    assert!(should_failover(&http_error(
        429,
        String::new()
    )));
    // Other 4xx are the upstream's verdict, not an outage: return verbatim.
    assert!(!should_failover(&http_error(
        400,
        String::new()
    )));
    assert!(!should_failover(&http_error(
        403,
        String::new()
    )));
}

#[test]
fn relay_error_category_never_leaks_upstream_url() {
    // Relay URLs can carry API keys in path or query; the logged category
    // must expose only the failure shape, never the URL or response body.
    const SECRET: &str = "relay-secret-sentinel";
    let leaky_body = format!("https://upstream/v3/{SECRET}?api_key={SECRET}");

    let category = relay_error_category(&http_error(503, leaky_body));
    assert_eq!(category, "http status 503");
    assert!(!category.contains(SECRET));
}

#[test]
fn relay_forwards_to_upstream_and_adds_locally() {
    let counter = Rc::new(Cell::new(0));
    let mw = relaying(CountingRpcService(counter.clone()), vec![mock_upstream("0xupstream")]);
    let resp = mw.handle_call(send_raw_tx_request(RAW_TX_HEX, 1));
    assert_eq!(result_of(resp), json_str("0xupstream"));
    assert_eq!(
        counter.get(),
        1,
        "tx should be added to local pool"
    );
    assert_eq!(mw.sticky.get(), 0);
}

#[test]
fn relay_intercepts_sync_method() {
    let counter = Rc::new(Cell::new(0));
    let mw = relaying(CountingRpcService(counter.clone()), vec![mock_upstream("0xreceipt")]);
    let resp = mw.handle_call(send_raw_tx_sync_request(RAW_TX_HEX, 1));
    assert_eq!(result_of(resp), json_str("0xreceipt"));
    assert_eq!(
        counter.get(),
        1,
        "sync submission should still add locally"
    );
}

#[test]
fn relay_fails_over_on_transport_error() {
    let counter = Rc::new(Cell::new(0));
    let mw = relaying(CountingRpcService(counter.clone()), vec![unreachable_upstream(), mock_upstream("0xsecond")]);
    let resp = mw.handle_call(send_raw_tx_request(RAW_TX_HEX, 1));
    assert_eq!(result_of(resp), json_str("0xsecond"));
    assert_eq!(
        mw.sticky.get(),
        1,
        "sticky should advance to the good upstream"
    );
    assert_eq!(counter.get(), 1);
}

#[test]
fn relay_sticky_starts_at_cursor() {
    let mw = relaying(CountingRpcService(Rc::new(Cell::new(0))), vec![mock_upstream("0xfirst"), mock_upstream("0xsecond")]);
    mw.sticky.set(1);
    let resp = mw.handle_call(send_raw_tx_request(RAW_TX_HEX, 1));
    assert_eq!(
        result_of(resp),
        json_str("0xsecond"),
        "should start at the sticky upstream, not index 0"
    );
}

#[test]
fn relay_advance_wraps_past_end() {
    let mw = relaying(CountingRpcService(Rc::new(Cell::new(0))), vec![mock_upstream("0xfirst"), unreachable_upstream()]);
    mw.sticky.set(1);
    let resp = mw.handle_call(send_raw_tx_request(RAW_TX_HEX, 1));
    assert_eq!(
        result_of(resp),
        json_str("0xfirst"),
        "advance from last upstream should wrap to index 0"
    );
    assert_eq!(mw.sticky.get(), 0);
}

#[test]
fn relay_all_unreachable_errors_without_local_add() {
    let counter = Rc::new(Cell::new(0));
    let mw = relaying(CountingRpcService(counter.clone()), vec![unreachable_upstream(), unreachable_upstream()]);
    let resp = mw.handle_call(send_raw_tx_request(RAW_TX_HEX, 1));
    assert_eq!(resp.as_error_code(), Some(RELAY_UNAVAILABLE_ERROR_CODE));
    assert_eq!(
        counter.get(),
        0,
        "no local add when all upstreams fail"
    );
}

#[test]
fn relay_returns_upstream_error_verbatim_without_failover() {
    let counter = Rc::new(Cell::new(0));
    let mw = relaying(CountingRpcService(counter.clone()), vec![
            failing_upstream("nonce too low"),
            mock_upstream("0xsecond"),
        ]);
    let resp = mw.handle_call(send_raw_tx_request(RAW_TX_HEX, 1));
    assert!(
        resp.as_error_code().is_some(),
        "reachable-upstream error must be returned, not failed over"
    );
    let json: serde_json::Value = serde_json::from_str(resp.into_json().get()).unwrap();
    assert_eq!(json["error"]["message"], "nonce too low");
    assert_eq!(
        counter.get(),
        0,
        "rejected tx must not be added locally"
    );
    assert_eq!(
        mw.sticky.get(),
        0,
        "must stick to the reachable upstream"
    );
}

#[test]
fn relay_extracts_object_form_params() {
    let mw = relaying(CountingRpcService(Rc::new(Cell::new(0))), vec![mock_upstream("0xok")]);
    let resp = mw.handle_call(send_raw_tx_object_request(RAW_TX_HEX, 1));
    assert_eq!(result_of(resp), json_str("0xok"));
}

#[test]
fn relay_passes_through_non_raw_tx_methods() {
    let counter = Rc::new(Cell::new(0));
    // Upstream is unreachable; a non-relayed method must never touch it.
    let mw = relaying(CountingRpcService(counter.clone()), vec![unreachable_upstream()]);
    let params = RawValue::from_string("[]".to_string()).unwrap();
    let req = create_request_with_params("eth_blockNumber", params, 1);
    let resp = mw.handle_call(req);
    assert_eq!(result_of(resp), json_str("local"));
    assert_eq!(counter.get(), 1);
}

#[test]
fn arc_rpc_layer_relays_when_configured() {
    let layer = ArcRpcLayer::new(
        true,
        false,
        usize::MAX,
        ARC_RPC_MAX_BATCH_ENTRIES_DEFAULT,
        vec!["http://127.0.0.1:1".to_string()],
        Duration::from_secs(DEFAULT_TX_RELAY_TIMEOUT_SECS),
    );
    let middleware = layer.layer(MockRpcService);
    // EIP-155-protected tx clears the replay guard; the sole upstream is unreachable.
    let resp = middleware.handle_call(send_raw_tx_request(&encode_legacy_raw(Some(1)), 1));
    assert_eq!(resp.as_error_code(), Some(RELAY_UNAVAILABLE_ERROR_CODE));
}

#[test]
fn arc_rpc_layer_without_relays_passes_through() {
    let layer = ArcRpcLayer::new(
        true,
        false,
        usize::MAX,
        ARC_RPC_MAX_BATCH_ENTRIES_DEFAULT,
        Vec::new(),
        Duration::from_secs(DEFAULT_TX_RELAY_TIMEOUT_SECS),
    );
    assert!(layer.tx_relays.is_none());
    let middleware = layer.layer(MockRpcService);
    let resp = middleware.handle_call(send_raw_tx_request(&encode_legacy_raw(Some(1)), 1));
    assert_eq!(result_of(resp), json_str("success"));
}

// ── Texts of responses ──────────────────────────────────────────────

fn json_of(response: MethodResponse) -> String {
    response.into_json().get().to_string()
}

#[test]
fn responses_are_written_out_exactly() {
    let middleware = NoPendingTransactionsRpcMiddleware::new(MockRpcService);
    let filter = Request {
        method: ETH_NEW_PENDING_TX_FILTER_METHOD.to_string(),
        params: None,
        id: Id::Str("a\"b\\\u{1}\u{7f}\n\u{e9}".to_string()),
    };
    assert_eq!(
        json_of(middleware.handle_call(filter)),
        "{\"jsonrpc\":\"2.0\",\"id\":\"a\\\"b\\\\\\u0001\u{7f}\\n\u{e9}\",\"error\":\
         {\"code\":-32001,\"message\":\"Pending transaction filters are not allowed\"}}"
    );
    let lookup = Request {
        method: ETH_GET_TX_BY_SENDER_AND_NONCE_METHOD.to_string(),
        params: None,
        id: Id::Null,
    };
    assert_eq!(json_of(null_response(&lookup)), "{\"jsonrpc\":\"2.0\",\"id\":null,\"result\":null}");
    let limit = BatchSizeLimitMiddleware::new(MockRpcService, 0);
    match limit.batch(7) {
        CallAction::Reply(response) => assert_eq!(
            json_of(response),
            "{\"jsonrpc\":\"2.0\",\"id\":null,\"error\":{\"code\":-32600,\
             \"message\":\"batch size 7 exceeds limit of 0\"}}"
        ),
        CallAction::Forward => panic!("the batch is too large"),
    }
}

#[test]
fn batches_without_replies() {
    let middleware = NoPendingTransactionsRpcMiddleware::new(MockRpcService);
    let empty = middleware.handle_batch(batch_of(vec![]));
    assert_eq!(empty.as_error_code(), None);
    assert_eq!(
        json_of(empty),
        "{\"jsonrpc\":\"2.0\",\"id\":null,\"error\":{\"code\":-32600,\"message\":\"Invalid request\"}}"
    );
    let notified = middleware.handle_batch(batch_of(vec![Ok(BatchEntry::Notification)]));
    assert!(notified.is_notification());
    assert_eq!(json_of(notified), "null");
}

#[test]
fn invalid_entries_are_answered_with_their_error() {
    let error = || ErrorObject {
        code: -32600,
        message: "Invalid request".to_string(),
        data: Some(RawValue::from_string("{\"x\":1}".to_string()).unwrap()),
    };
    let expected = "[{\"jsonrpc\":\"2.0\",\"id\":5,\"error\":{\"code\":-32600,\"message\":\
                    \"Invalid request\",\"data\":{\"x\":1}}},\
                    {\"jsonrpc\":\"2.0\",\"id\":2,\"result\":\"success\"}]";
    let batch = || {
        batch_of(vec![
            Err((Id::Number(5), error())),
            Ok(make_call_entry("eth_blockNumber", 2)),
        ])
    };
    let pending = NoPendingTransactionsRpcMiddleware::new(MockRpcService).handle_batch(batch());
    assert!(pending.is_batch());
    assert_eq!(json_of(pending), expected);
    let replay = RejectUnprotectedTxsMiddleware::new(MockRpcService).handle_batch(batch());
    assert_eq!(json_of(replay), expected);
    let relay = relaying(MockRpcService, vec![unreachable_upstream()]).handle_batch(batch());
    assert_eq!(json_of(relay), expected);
}

#[test]
fn batch_responses_are_limited() {
    let reply = "{\"jsonrpc\":\"2.0\",\"id\":1,\"result\":\"success\"}";
    let limit = 1 + reply.len() + 1;
    let fitting = NoPendingTransactionsRpcMiddleware {
        service: MockRpcService,
        max_response_body_size: limit,
    };
    let batch = || batch_of(vec![Ok(make_call_entry("eth_blockNumber", 1))]);
    let text = json_of(fitting.handle_batch(batch()));
    assert_eq!(text, format!("[{reply}]"));
    assert_eq!(text.len(), limit);
    let tight = NoPendingTransactionsRpcMiddleware {
        service: MockRpcService,
        max_response_body_size: limit - 1,
    };
    let response = tight.handle_batch(batch());
    assert_eq!(response.as_error_code(), Some(-32011));
    assert_eq!(
        json_of(response),
        format!(
            "{{\"jsonrpc\":\"2.0\",\"id\":null,\"error\":{{\"code\":-32011,\"message\":\
             \"The batch response was too large\",\"data\":\"Exceeded max limit of {}\"}}}}",
            limit - 1
        )
    );
}

#[test]
fn a_run_takes_replies_in_order() {
    let mut run = BatchRun::new(usize::MAX);
    for (id, word) in [(1, "a"), (2, "b")] {
        let action = run.take_reply(success(jsonrpsee::types::Id::Number(id), word));
        assert!(matches!(action, BatchAction::Next));
    }
    assert!(matches!(run.take_action(CallAction::Forward), BatchAction::CallInner));
    assert!(matches!(run.take_notification(), BatchAction::NotifyInner));
    assert_eq!(
        json_of(run.finish()),
        "[{\"jsonrpc\":\"2.0\",\"id\":1,\"result\":\"a\"},{\"jsonrpc\":\"2.0\",\"id\":2,\"result\":\"b\"}]"
    );
}

// ── Parameters ──────────────────────────────────────────────────────

fn params(text: &str) -> Option<String> {
    Some(text.to_string())
}

#[test]
fn parameters_are_read_by_name_and_by_position() {
    assert_eq!(extract_param::<Bytes>(&None, &["bytes"]), None);
    assert_eq!(
        extract_param::<Bytes>(&params("[\"0x0102\"]"), &["bytes"]),
        Some(Bytes { data: vec![1, 2] })
    );
    assert_eq!(
        extract_param::<Bytes>(&params(" \n{\"bytes\":[3,4]}"), &["bytes"]),
        Some(Bytes { data: vec![3, 4] })
    );
    assert_eq!(extract_param::<Bytes>(&params("{\"bytes\":"), &["bytes"]), None);
    assert_eq!(extract_param::<Bytes>(&params("[null]"), &["bytes"]), None);
    assert_eq!(
        extract_param::<SubscriptionKind>(&params("[\"logs\"]"), &["kind"]),
        Some(SubscriptionKind::Logs)
    );
    assert_eq!(
        extract_param::<SubscriptionKind>(&params("{\"kind\":\"newHeads\"}"), &["kind"]),
        Some(SubscriptionKind::NewHeads)
    );
    assert_eq!(
        extract_param::<BlockNumberOrTag>(&params("[\"0x10\"]"), &["number"]),
        Some(BlockNumberOrTag::Number(16))
    );
    assert_eq!(
        extract_param::<BlockNumberOrTag>(&params("{\"number\":\"safe\"}"), &["number"]),
        Some(BlockNumberOrTag::Safe)
    );
    let hash = "0x".to_string() + &"11".repeat(32);
    assert_eq!(
        extract_param::<BlockId>(&params(&format!("[\"{hash}\"]")), &["block_id"]),
        Some(BlockId::Hash { block_hash: [0x11; 32], require_canonical: None })
    );
    assert_eq!(
        extract_param::<BlockId>(
            &params(&format!("{{\"blockId\":{{\"blockHash\":\"{hash}\",\"requireCanonical\":true}}}}")),
            &["block_id", "blockId"]
        ),
        Some(BlockId::Hash { block_hash: [0x11; 32], require_canonical: Some(true) })
    );
    // The first key that is there decides.
    assert_eq!(
        extract_param::<BlockId>(
            &params("{\"blockId\":\"latest\",\"block_id\":\"pending\"}"),
            &["block_id", "blockId"]
        ),
        Some(BlockId::Number(BlockNumberOrTag::Pending))
    );
    assert_eq!(
        extract_param::<BlockId>(
            &params("{\"blockId\":\"latest\",\"block_id\":7}"),
            &["block_id", "blockId"]
        ),
        None
    );
}

#[test]
fn pending_blocks_are_told_apart() {
    assert!(BlockNumberOrTag::Pending.is_pending());
    assert!(!BlockNumberOrTag::Latest.is_pending());
    assert!(BlockId::Number(BlockNumberOrTag::Pending).is_pending());
    assert!(!BlockId::Number(BlockNumberOrTag::Number(1)).is_pending());
    assert!(!BlockId::Hash { block_hash: [0; 32], require_canonical: None }.is_pending());
    assert!(is_pending_block_method(ETH_GET_HEADER_BY_NUMBER_METHOD));
    assert!(!is_pending_block_method("eth_getBlockByHash"));

    let pending_id = Some(BlockId::Number(BlockNumberOrTag::Pending));
    let pending_tag = Some(BlockNumberOrTag::Pending);
    assert!(is_pending_block(ETH_GET_BLOCK_RECEIPTS_METHOD, pending_id, None));
    assert!(!is_pending_block(ETH_GET_BLOCK_RECEIPTS_METHOD, None, pending_tag));
    assert!(is_pending_block(ETH_GET_BLOCK_BY_NUMBER_METHOD, None, pending_tag));
    assert!(!is_pending_block(ETH_GET_BLOCK_BY_NUMBER_METHOD, pending_id, None));
    assert!(!is_pending_block("eth_getBlockByHash", pending_id, pending_tag));
}

#[test]
fn refusals_depend_on_method_and_kind() {
    let pending = Some(SubscriptionKind::NewPendingTransactions);
    let refused = refuse_pending_tx_rpc(ETH_SUBSCRIBE_METHOD, pending).unwrap_err();
    assert_eq!(refused.code, PENDING_TX_SUBSCRIPTION_ERROR_CODE);
    assert_eq!(refused.message, "Subscriptions to pending transactions are not allowed");
    assert!(refuse_pending_tx_rpc("eth_unsubscribe", pending).is_ok());
    assert!(refuse_pending_tx_rpc(ETH_SUBSCRIBE_METHOD, Some(SubscriptionKind::Logs)).is_ok());
    assert!(refuse_pending_tx_rpc(ETH_SUBSCRIBE_METHOD, None).is_ok());
    assert!(refuse_pending_tx_rpc(ETH_NEW_PENDING_TX_FILTER_METHOD, None).is_err());
}

// ── Replay protection ───────────────────────────────────────────────

#[test]
fn replay_protection_is_only_asked_of_submissions() {
    assert!(is_raw_transaction_submission(ETH_SEND_RAW_TRANSACTION_METHOD));
    assert!(is_raw_transaction_submission(ETH_SEND_RAW_TRANSACTION_SYNC_METHOD));
    assert!(!is_raw_transaction_submission("eth_sendTransaction"));
    let rejected = check_replay_protection(ETH_SEND_RAW_TRANSACTION_METHOD, Some(false));
    assert_eq!(rejected.unwrap_err().code, UNPROTECTED_TX_ERROR_CODE);
    assert!(check_replay_protection(ETH_SEND_RAW_TRANSACTION_METHOD, Some(true)).is_ok());
    assert!(check_replay_protection(ETH_SEND_RAW_TRANSACTION_METHOD, None).is_ok());
    assert!(check_replay_protection("eth_call", Some(false)).is_ok());

    let unprotected = send_raw_tx_request(&encode_legacy_raw(None), 1);
    let error = error_if_unprotected_send_raw_tx(&unprotected).unwrap_err();
    assert_eq!(error.message, UNPROTECTED_TX_ERROR_MSG);
    let protected = send_raw_tx_request(&encode_legacy_raw(Some(7)), 1);
    assert!(error_if_unprotected_send_raw_tx(&protected).is_ok());
    let other = raw_tx_request_with_params("eth_call", "[]".to_string(), 1);
    assert!(error_if_unprotected_send_raw_tx(&other).is_ok());
}

// ── Relaying ────────────────────────────────────────────────────────

#[test]
fn only_urls_become_upstreams() {
    let urls = vec![
        "http://one.example".to_string(),
        "not a url".to_string(),
        "https://two.example/path?key=1".to_string(),
        "".to_string(),
    ];
    let relays = TxRelays::new(&urls, 10, Duration::from_secs(3)).unwrap();
    assert_eq!(
        relays.upstreams.as_slice(),
        &["http://one.example".to_string(), "https://two.example/path?key=1".to_string()]
    );
    assert_eq!(relays.max_response_body_size, 10);
    assert_eq!(relays.request_timeout, Duration::from_secs(3));
    assert!(TxRelays::new(&["nothing".to_string()], 10, Duration::from_secs(3)).is_none());
    assert!(TxRelays::new(&[], 10, Duration::from_secs(3)).is_none());
    assert_eq!(
        relays.answer_timeout(ETH_SEND_RAW_TRANSACTION_METHOD),
        Some(Duration::from_secs(3))
    );
    assert_eq!(relays.answer_timeout(ETH_SEND_RAW_TRANSACTION_SYNC_METHOD), None);
    let given = TxRelays::with_upstreams(vec!["any".to_string()], 1, Duration::from_secs(2));
    assert_eq!(given.unwrap().upstreams.as_slice(), &["any".to_string()]);
    assert!(TxRelays::with_upstreams(vec![], 1, Duration::from_secs(2)).is_none());
}

#[test]
fn submissions_with_bytes_are_relayed() {
    let request = send_raw_tx_sync_request(RAW_TX_HEX, 8);
    match relay_or_forward(&request, Some(Bytes { data: vec![1] })) {
        RelayCall::Relay(relayed) => {
            assert_eq!(relayed.id, Id::Number(8));
            assert_eq!(relayed.method, ETH_SEND_RAW_TRANSACTION_SYNC_METHOD);
            assert_eq!(relayed.bytes, Bytes { data: vec![1] });
        }
        RelayCall::Forward => panic!("the transaction must be relayed"),
    }
    assert!(matches!(relay_or_forward(&request, None), RelayCall::Forward));
    let other = raw_tx_request_with_params("eth_call", "[]".to_string(), 1);
    let bytes = Some(Bytes { data: vec![1] });
    assert!(matches!(relay_or_forward(&other, bytes), RelayCall::Forward));
}

#[test]
fn a_pass_asks_every_upstream_once() {
    let silent = vec![Upstream::Silent; 3];
    let mw = relaying(MockRpcService, silent);
    mw.sticky.set(9);
    let response = mw.handle_call(send_raw_tx_request(RAW_TX_HEX, 1));
    assert_eq!(response.as_error_code(), Some(RELAY_UNAVAILABLE_ERROR_CODE));
    assert_eq!(mw.asked.get(), 3);
    assert_eq!(mw.sticky.get(), 9, "the cursor stays where it was");

    let mut run = RelayRun::new(3, 1);
    let mut order = Vec::new();
    while let Some(index) = run.next() {
        order.push(index);
        let _ = run.take::<u8>(UpstreamReply::TimedOut);
    }
    assert_eq!(order, vec![1, 2, 0]);
    assert_eq!(RelayRun::new(3, 7).next(), Some(2));
    assert_eq!(RelayRun::new(0, 7).next(), None);
}

#[test]
fn upstream_errors_are_shown_as_they_may_be() {
    for (upstream, code, message) in [
        (Upstream::Failure(-32000, "nonce".to_string()), -32000, "nonce"),
        (Upstream::Failure(i32::MAX as i64 + 1, "wide".to_string()), INTERNAL_ERROR_CODE, "wide"),
        (Upstream::Failure(i64::MIN, "low".to_string()), INTERNAL_ERROR_CODE, "low"),
        (Upstream::Failure(i32::MIN as i64, "edge".to_string()), i32::MIN, "edge"),
        (Upstream::Http(404), INTERNAL_ERROR_CODE, "transaction relay upstream error"),
    ] {
        let counter = Rc::new(Cell::new(0));
        let mw = relaying(CountingRpcService(counter.clone()), vec![Upstream::Http(503), upstream]);
        let response = mw.handle_call(send_raw_tx_request(RAW_TX_HEX, 1));
        assert_eq!(response.as_error_code(), Some(code));
        let json: serde_json::Value = serde_json::from_str(response.into_json().get()).unwrap();
        assert_eq!(json["error"]["message"], message);
        assert_eq!(mw.sticky.get(), 1);
        assert_eq!(counter.get(), 0);
    }
}

#[test]
fn unreachable_upstreams_have_their_own_error() {
    let mw = relaying(MockRpcService, vec![unreachable_upstream()]);
    assert_eq!(
        json_of(mw.handle_call(send_raw_tx_request(RAW_TX_HEX, 3))),
        "{\"jsonrpc\":\"2.0\",\"id\":3,\"error\":{\"code\":-32010,\"message\":\
         \"all transaction relay upstreams are unreachable\"}}"
    );
}

#[test]
fn results_that_are_too_big_become_errors() {
    let urls = vec!["http://127.0.0.1:1".to_string()];
    let small = TxRelays::new(&urls, 20, Duration::from_secs(1)).unwrap();
    let mw = TxRelayMiddleware { service: MockRpcService, relays: small };
    let answer = mw.respond(&Id::Number(1), RelayOutcome::Accepted(json_str("0xhash")));
    assert!(answer.add_locally);
    assert_eq!(answer.response.as_error_code(), Some(-32008));
    assert_eq!(
        json_of(answer.response),
        "{\"jsonrpc\":\"2.0\",\"id\":1,\"error\":{\"code\":-32008,\"message\":\"Response is too big\",\
         \"data\":\"Exceeded max limit of 20\"}}"
    );
}

#[test]
fn local_additions_hold_the_same_transaction() {
    for data in [vec![], vec![0xde, 0xad, 0xbe, 0xef], vec![0; 40]] {
        let request = local_add_request(&Bytes { data: data.clone() }).unwrap();
        assert_eq!(request.method, ETH_SEND_RAW_TRANSACTION_METHOD);
        assert_eq!(request.id, Id::Null);
        assert_eq!(request.params, Some(format!("[\"0x{}\"]", hex::encode(&data))));
        assert_eq!(extract_raw_tx_bytes(&request), Some(Bytes { data }));
    }
}

#[test]
fn submissions_without_bytes_reach_the_node() {
    let counter = Rc::new(Cell::new(0));
    let mw = relaying(CountingRpcService(counter.clone()), vec![mock_upstream("0xup")]);
    let resp = mw.handle_call(send_raw_tx_request_with_params("[42]".to_string(), 1));
    assert_eq!(result_of(resp), json_str("local"));
    assert_eq!(counter.get(), 1);
    assert_eq!(mw.asked.get(), 0);
}

#[test]
fn batches_relay_entry_by_entry() {
    let counter = Rc::new(Cell::new(0));
    let mw = relaying(CountingRpcService(counter.clone()), vec![mock_upstream("0xup")]);
    let response = mw.handle_batch(batch_of(vec![
        Ok(BatchEntry::Call(send_raw_tx_request(RAW_TX_HEX, 1))),
        Ok(BatchEntry::Notification),
        Ok(make_call_entry("eth_chainId", 2)),
    ]));
    assert_eq!(
        json_of(response),
        "[{\"jsonrpc\":\"2.0\",\"id\":1,\"result\":\"0xup\"},{\"jsonrpc\":\"2.0\",\"id\":2,\"result\":\"local\"}]"
    );
    assert_eq!(counter.get(), 2, "one local addition and one request");
}

#[test]
fn error_categories_name_the_kind_only() {
    assert_eq!(relay_error_category(&RelayError::Other), "rpc error");
    assert_eq!(
        relay_error_category(&RelayError::Transport(TransportError::Other)),
        "transport error"
    );
    let payload = ErrorPayload { code: 1, message: "secret".to_string(), data: None };
    assert_eq!(relay_error_category(&RelayError::ErrorResp(payload)), "json-rpc error response");
    assert!(should_failover(&RelayError::Other));
    assert!(should_failover(&RelayError::Transport(TransportError::Other)));
    let payload = ErrorPayload { code: 1, message: "secret".to_string(), data: None };
    assert!(!should_failover(&RelayError::ErrorResp(payload)));
}

#[test]
fn the_layer_takes_over_its_settings() {
    let layer = ArcRpcLayer::new(
        false,
        true,
        77,
        5,
        vec!["http://127.0.0.1:1".to_string(), "bad".to_string()],
        Duration::from_secs(1),
    );
    assert_eq!(layer.tx_relays.as_ref().unwrap().upstreams.len(), 1);
    let stack = layer.layer(MockRpcService);
    assert_eq!(stack.max_entries, 5);
    assert!(stack.service.allow_unprotected_txs);
    assert_eq!(stack.service.max_response_body_size, 77);
    assert!(matches!(stack.service.service, Either::Right(Either::Left(_))));
    let default = ArcRpcLayer::default().layer(MockRpcService);
    assert!(matches!(default.service.service, Either::Left(_)));
    assert_eq!(default.max_entries, 100);
}
