//! Raw transactions that are relayed to other nodes.
//!
//! [`TxRelayMiddleware::call`] says whether a request is relayed. If so, the caller
//! goes through the upstreams as [`RelayRun`] says, and answers with
//! [`TxRelayMiddleware::respond`].
use super::batch;
use super::batch::{BatchAction, BatchEntry, BatchRun, CallAction};
use super::jsonrpc;
use super::jsonrpc::{error_response, success_response, ErrorObject, Id, Request};
use super::params;
use super::params::Bytes;
use super::replay;
use super::replay::{extract_raw_tx_bytes, is_raw_transaction_submission};
use crate::text;
use jsonrpsee::MethodResponse;
use serde_json::value::RawValue;
use serde_json::Value;
use std::sync::Arc;
use std::time::Duration;
use vstd::prelude::*;

verus! {

/// The error code for a transaction that no upstream could be reached for.
pub const RELAY_UNAVAILABLE_ERROR_CODE: i32 = -32010;

/// The error code for an internal error.
pub const INTERNAL_ERROR_CODE: i32 = -32603;

/// How long an upstream has to answer, in seconds, where nothing else is said.
pub const DEFAULT_TX_RELAY_TIMEOUT_SECS: u64 = 10;

/// Whether a text is a URL.
pub uninterp spec fn is_url(url: Seq<char>) -> bool;

/// `reqwest::Url::parse`: whether it accepts the text as a URL.
#[verifier::external_body]
fn url_parses(url: &str) -> (valid: bool)
    ensures
        valid == is_url(url@),
{
    reqwest::Url::parse(url).is_ok()
}

/// The upstreams that raw transactions are relayed to, the preferred one first.
/// Clones share the list.
#[derive(Debug)]
pub struct TxRelays {
    pub upstreams: Arc<Vec<String>>,
    pub max_response_body_size: usize,
    /// How long an upstream has for the connection, and for its answer where that
    /// is limited: see [`TxRelays::answer_timeout`].
    pub request_timeout: Duration,
}

impl Clone for TxRelays {
    fn clone(&self) -> (copy: TxRelays)
        ensures
            copy == *self,
    {
        TxRelays {
            upstreams: self.upstreams.clone(),
            max_response_body_size: self.max_response_body_size,
            request_timeout: self.request_timeout,
        }
    }
}

/// The texts among `urls` that are URLs, in their order.
pub open spec fn valid_urls(urls: Seq<Seq<char>>) -> Seq<Seq<char>> {
    urls.filter(|url: Seq<char>| is_url(url))
}

impl TxRelays {
    /// The upstreams among `urls`, in their order; texts that are no URL are left
    /// out. Without any upstream, nothing is relayed.
    pub fn new(urls: &[String], max_response_body_size: usize, timeout: Duration) -> (relays: Option<
        TxRelays,
    >)
        ensures
            match relays {
                Some(relays) => {
                    &&& valid_urls(text::texts(urls@)).len() > 0
                    &&& text::texts(relays.upstreams@) == valid_urls(text::texts(urls@))
                    &&& relays.max_response_body_size == max_response_body_size
                    &&& relays.request_timeout == timeout
                },
                None => valid_urls(text::texts(urls@)).len() == 0,
            },
    {
        let mut upstreams: Vec<String> = Vec::new();
        let mut i: usize = 0;
        let ghost all = text::texts(urls@);
        let ghost valid = |url: Seq<char>| is_url(url);
        proof {
            assert(all.take(0) =~= Seq::<Seq<char>>::empty());
            reveal(Seq::filter);
        }
        while i < urls.len()
            invariant
                i <= urls.len(),
                all == text::texts(urls@),
                valid == (|url: Seq<char>| is_url(url)),
                text::texts(upstreams@) =~= all.take(i as int).filter(valid),
            decreases urls.len() - i,
        {
            proof {
                reveal(Seq::filter);
                assert(all.take(i + 1).drop_last() =~= all.take(i as int));
                assert(all.take(i + 1).last() == urls@[i as int]@);
            }
            if url_parses(urls[i].as_str()) {
                upstreams.push(urls[i].clone());
            }
            i = i + 1;
        }
        proof {
            assert(all.take(all.len() as int) =~= all);
            assert(text::texts(upstreams@).len() == upstreams@.len());
        }
        TxRelays::with_upstreams(upstreams, max_response_body_size, timeout)
    }

    /// How long an upstream has for its answer to a submission by `method`. A
    /// submission that waits for the transaction's receipt is not limited.
    pub fn answer_timeout(&self, method: &str) -> (timeout: Option<Duration>)
        ensures
            timeout == (if method@ == "eth_sendRawTransactionSync"@ {
                None
            } else {
                Some(self.request_timeout)
            }),
    {
        if text::str_eq(method, "eth_sendRawTransactionSync") {
            None
        } else {
            Some(self.request_timeout)
        }
    }

    /// The given upstreams, in their order. Without any, nothing is relayed.
    pub fn with_upstreams(
        upstreams: Vec<String>,
        max_response_body_size: usize,
        timeout: Duration,
    ) -> (relays: Option<TxRelays>)
        ensures
            match relays {
                Some(relays) => {
                    &&& upstreams@.len() > 0
                    &&& relays.upstreams@ == upstreams@
                    &&& relays.max_response_body_size == max_response_body_size
                    &&& relays.request_timeout == timeout
                },
                None => upstreams@.len() == 0,
            },
    {
        if upstreams.len() == 0 {
            return None;
        }
        Some(
            TxRelays {
                upstreams: Arc::new(upstreams),
                max_response_body_size,
                request_timeout: timeout,
            },
        )
    }
}

/// A JSON-RPC error that an upstream answered with.
#[derive(Debug)]
pub struct ErrorPayload {
    pub code: i64,
    pub message: String,
    pub data: Option<Box<RawValue>>,
}

/// Why the connection to an upstream failed.
#[derive(Debug)]
pub enum TransportError {
    /// It answered with an HTTP error.
    HttpError { status: u16, body: String },
    /// Anything else.
    Other,
}

/// Why an upstream gave no result.
#[derive(Debug)]
pub enum RelayError {
    /// It answered with a JSON-RPC error.
    ErrorResp(ErrorPayload),
    /// The connection failed.
    Transport(TransportError),
    /// Anything else.
    Other,
}

/// The upstream is of no use, and the next one is tried.
pub open spec fn fails_over(err: RelayError) -> bool {
    match err {
        RelayError::Transport(TransportError::HttpError { status, .. }) => status == 429 || status
            >= 500,
        RelayError::ErrorResp(_) => false,
        _ => true,
    }
}

/// True when the upstream is of no use and the next one is to be tried: on any
/// failure of the connection, and on an HTTP status of 429 or from 500 on. Any
/// other HTTP status and a JSON-RPC error are the upstream's answer.
pub fn should_failover(err: &RelayError) -> (failover: bool)
    ensures
        failover == fails_over(*err),
        match *err {
            RelayError::Transport(TransportError::HttpError { status, .. }) => failover == (status
                == 429 || status >= 500),
            RelayError::Transport(TransportError::Other) => failover,
            RelayError::ErrorResp(_) => !failover,
            RelayError::Other => failover,
        },
{
    match err {
        RelayError::Transport(TransportError::HttpError { status, .. }) => *status == 429
            || *status >= 500,
        RelayError::ErrorResp(_) => false,
        _ => true,
    }
}

/// What is logged of an error.
pub open spec fn category(err: RelayError) -> Seq<char> {
    match err {
        RelayError::Transport(TransportError::HttpError { status, .. }) => "http status "@
            + text::decimal(status as nat),
        RelayError::Transport(_) => "transport error"@,
        RelayError::ErrorResp(_) => "json-rpc error response"@,
        RelayError::Other => "rpc error"@,
    }
}

/// What may be logged of an error: its kind. Messages and bodies can hold the
/// upstream's URL, and with it a key.
pub fn relay_error_category(err: &RelayError) -> (kind: String)
    ensures
        kind@ == category(*err),
{
    match err {
        RelayError::Transport(TransportError::HttpError { status, .. }) => {
            let mut kind: String = "http status ".to_owned();
            text::push_decimal(&mut kind, *status as u64);
            kind
        },
        RelayError::Transport(_) => "transport error".to_owned(),
        RelayError::ErrorResp(_) => "json-rpc error response".to_owned(),
        RelayError::Other => "rpc error".to_owned(),
    }
}

/// What came of asking one upstream. `R` is a result.
#[derive(Debug)]
pub enum UpstreamReply<R> {
    /// It did not answer in time.
    TimedOut,
    /// It answered, or the connection failed.
    Answered(Result<R, RelayError>),
}

/// What came of relaying a transaction. `R` is a result.
#[derive(Debug)]
pub enum RelayOutcome<R> {
    /// An upstream took the transaction.
    Accepted(R),
    /// An upstream answered with an error.
    UpstreamError(ErrorObject),
    /// No upstream could be reached.
    AllUnreachable,
}

/// What to do after the reply of an upstream. `R` is a result.
#[derive(Debug)]
pub enum RelayStep<R> {
    /// Go on with the next upstream.
    Advance,
    /// The relaying is over. The next one begins with the upstream `sticky`, or as
    /// this one did.
    Settle { outcome: RelayOutcome<R>, sticky: Option<usize> },
}

/// The reply settles the relaying: the next upstream is not tried.
pub open spec fn settles<R>(reply: UpstreamReply<R>) -> bool {
    match reply {
        UpstreamReply::TimedOut => false,
        UpstreamReply::Answered(Ok(_)) => true,
        UpstreamReply::Answered(Err(err)) => !fails_over(err),
    }
}

/// The error that a client gets to see of an upstream's error: a JSON-RPC error
/// as it is, its code where it fits, and nothing of any other.
pub open spec fn shown_error(err: RelayError) -> jsonrpc::ErrorModel {
    match err {
        RelayError::ErrorResp(payload) => jsonrpc::ErrorModel {
            code: if i32::MIN <= payload.code <= i32::MAX {
                payload.code as int
            } else {
                INTERNAL_ERROR_CODE as int
            },
            message: payload.message@,
            data: match payload.data {
                Some(data) => Some(jsonrpc::raw_json(data)),
                None => None,
            },
        },
        _ => jsonrpc::plain_error(
            INTERNAL_ERROR_CODE as int,
            "transaction relay upstream error"@,
        ),
    }
}

/// One pass through the upstreams: from the one that answered last on, each of
/// them once, back to the first behind the last.
#[derive(Clone, Copy, Debug)]
pub struct RelayRun {
    upstreams: usize,
    start: usize,
    tried: usize,
}

/// The upstream that is tried as number `attempt` of a pass.
pub open spec fn upstream_at(start: int, attempt: int, upstreams: int) -> int {
    (start + attempt) % upstreams
}

impl RelayRun {
    /// How many upstreams there are.
    pub closed spec fn upstreams(self) -> nat {
        self.upstreams as nat
    }

    /// Where the pass began.
    pub closed spec fn start(self) -> nat {
        self.start as nat
    }

    /// How many upstreams have been tried.
    pub closed spec fn tried(self) -> nat {
        self.tried as nat
    }

    /// The pass begins with an upstream, and tries each at most once.
    pub open spec fn well_formed(self) -> bool {
        &&& self.tried() <= self.upstreams()
        &&& self.upstreams() > 0 ==> self.start() < self.upstreams()
    }

    /// Begins a pass with the upstream `sticky`, or with the last one where there is
    /// no such upstream.
    pub fn new(upstreams: usize, sticky: usize) -> (run: RelayRun)
        ensures
            run.well_formed(),
            run.upstreams() == upstreams,
            run.tried() == 0,
            upstreams > 0 ==> run.start() == (if sticky < upstreams {
                sticky as int
            } else {
                upstreams - 1
            }),
    {
        let start: usize = if sticky < upstreams {
            sticky
        } else if upstreams > 0 {
            upstreams - 1
        } else {
            0
        };
        RelayRun { upstreams, start, tried: 0 }
    }

    /// The upstream to try next, or none when all have been tried.
    pub fn next(&self) -> (upstream: Option<usize>)
        requires
            self.well_formed(),
        ensures
            match upstream {
                Some(upstream) => {
                    &&& self.tried() < self.upstreams()
                    &&& upstream < self.upstreams()
                    &&& upstream == upstream_at(
                        self.start() as int,
                        self.tried() as int,
                        self.upstreams() as int,
                    )
                },
                None => self.tried() == self.upstreams(),
            },
    {
        if self.tried == self.upstreams {
            return None;
        }
        let until_end: usize = self.upstreams - self.start;
        if self.tried < until_end {
            proof {
                vstd::arithmetic::div_mod::lemma_small_mod(
                    (self.start + self.tried) as nat,
                    self.upstreams as nat,
                );
            }
            Some(self.start + self.tried)
        } else {
            proof {
                let wrapped = self.tried - until_end;
                vstd::arithmetic::div_mod::lemma_mod_add_multiples_vanish(
                    wrapped,
                    self.upstreams as int,
                );
                vstd::arithmetic::div_mod::lemma_small_mod(wrapped as nat, self.upstreams as nat);
            }
            Some(self.tried - until_end)
        }
    }

    /// Takes in the reply of the upstream that [`RelayRun::next`] named.
    ///
    /// A result and an error that the upstream stands by settle the relaying; a
    /// timeout and any other failure leave it to the next upstream. When the last
    /// one has failed too, all are unreachable.
    pub fn take<R>(&mut self, reply: UpstreamReply<R>) -> (step: RelayStep<R>)
        requires
            old(self).well_formed(),
            old(self).tried() < old(self).upstreams(),
        ensures
            took(*old(self), reply, step, *final(self)),
    {
        let sticky: Option<usize> = self.next();
        self.tried = self.tried + 1;
        let failed: RelayStep<R> = if self.tried == self.upstreams {
            RelayStep::Settle { outcome: RelayOutcome::AllUnreachable, sticky: None }
        } else {
            RelayStep::Advance
        };
        match reply {
            UpstreamReply::TimedOut => failed,
            UpstreamReply::Answered(Ok(result)) => RelayStep::Settle {
                outcome: RelayOutcome::Accepted(result),
                sticky,
            },
            UpstreamReply::Answered(Err(RelayError::ErrorResp(payload))) => {
                let code: i32 = if payload.code >= -2147483648 && payload.code <= 2147483647 {
                    payload.code as i32
                } else {
                    INTERNAL_ERROR_CODE
                };
                RelayStep::Settle {
                    outcome: RelayOutcome::UpstreamError(
                        ErrorObject { code, message: payload.message, data: payload.data },
                    ),
                    sticky,
                }
            },
            UpstreamReply::Answered(Err(err)) => {
                if should_failover(&err) {
                    return failed;
                }
                RelayStep::Settle {
                    outcome: RelayOutcome::UpstreamError(
                        ErrorObject::plain(INTERNAL_ERROR_CODE, "transaction relay upstream error"),
                    ),
                    sticky,
                }
            },
        }
    }
}

/// The run took in a reply. One that settles the relaying ends it, and the next
/// pass begins with the upstream that gave it. When the last upstream has failed
/// too, all are unreachable.
pub open spec fn took<R>(
    before: RelayRun,
    reply: UpstreamReply<R>,
    step: RelayStep<R>,
    after: RelayRun,
) -> bool {
    &&& after.well_formed()
    &&& after.upstreams() == before.upstreams()
    &&& after.start() == before.start()
    &&& after.tried() == before.tried() + 1
    &&& if settles(reply) {
        &&& step matches RelayStep::Settle { outcome, sticky: Some(sticky) }
        &&& sticky == upstream_at(
            before.start() as int,
            before.tried() as int,
            before.upstreams() as int,
        )
        &&& match reply {
            UpstreamReply::Answered(Ok(result)) => outcome == RelayOutcome::Accepted(result),
            UpstreamReply::Answered(Err(err)) => outcome matches RelayOutcome::UpstreamError(error)
                && error@ == shown_error(err),
            UpstreamReply::TimedOut => false,
        }
    } else if after.tried() == after.upstreams() {
        step == (RelayStep::<R>::Settle { outcome: RelayOutcome::AllUnreachable, sticky: None })
    } else {
        step is Advance
    }
}

/// A raw transaction that is relayed, and the request that it came with.
#[derive(Debug)]
pub struct RelayRequest {
    pub id: Id,
    pub method: String,
    pub bytes: Bytes,
}

/// What the relay does about a request.
#[derive(Debug)]
pub enum RelayCall {
    /// The service behind handles the request.
    Forward,
    /// The transaction is relayed.
    Relay(RelayRequest),
}

/// What the relay does about an entry of a batch.
#[derive(Debug)]
pub enum RelayEntry {
    /// The transaction is relayed, and the response handed to
    /// [`BatchRun::take_reply`].
    Relay(RelayRequest),
    /// What to do about any other entry.
    Other(BatchAction),
}

/// The answer to a request that was relayed.
#[derive(Debug)]
pub struct RelayResponse {
    /// Whether to add the transaction to the local pool first.
    pub add_locally: bool,
    /// The response.
    pub response: MethodResponse,
}

/// The JSON parameters that hold one hexadecimal string with the given bytes.
pub open spec fn bytes_params(bytes: Seq<u8>) -> Seq<char> {
    "[\"0x"@ + text::hex_text(bytes) + "\"]"@
}

/// `serde_json::value::to_raw_value`, of a list with one `alloy_primitives::Bytes`:
/// a JSON array with one hexadecimal string, from which the bytes are read again.
#[verifier::external_body]
fn write_bytes_params(bytes: &Bytes) -> (written: Option<String>)
    ensures
        written is Some,
        written->0@ == bytes_params(bytes@),
        params::first_bytes(Some(written->0@)) == Some(bytes@),
{
    let bytes = alloy_primitives::Bytes::copy_from_slice(&bytes.data);
    let raw = serde_json::value::to_raw_value(&(bytes,)).ok()?;
    Some(raw.get().to_owned())
}

/// Parameters in a JSON array are not by name.
proof fn lemma_bytes_params_by_position(bytes: Seq<u8>)
    ensures
        !params::by_name(Some(bytes_params(bytes))),
{
    reveal_strlit("[\"0x");
    let text = bytes_params(bytes);
    assert(text[0] == '[');
    assert(!params::is_white_space(text[0]));
}

/// The request that adds a transaction to the local pool.
pub fn local_add_request(bytes: &Bytes) -> (req: Option<Request>)
    ensures
        req matches Some(req) && {
            &&& req@ == (jsonrpc::RequestModel {
                method: "eth_sendRawTransaction"@,
                params: Some(bytes_params(bytes@)),
                id: jsonrpc::IdModel::Null,
            })
            &&& replay::raw_tx_of(req@.params) == Some(bytes@)
        },
{
    proof {
        lemma_bytes_params_by_position(bytes@);
    }
    match write_bytes_params(bytes) {
        Some(params) => Some(
            Request {
                method: "eth_sendRawTransaction".to_owned(),
                params: Some(params),
                id: Id::Null,
            },
        ),
        None => None,
    }
}

/// Relays raw transactions to the first upstream that answers, and adds those
/// that it took to the local pool.
#[derive(Clone, Debug)]
pub struct TxRelayMiddleware<S> {
    pub service: S,
    pub relays: TxRelays,
}

/// The request is relayed.
pub open spec fn is_relayed(req: jsonrpc::RequestModel) -> bool {
    replay::submits_raw_transaction(req.method) && replay::raw_tx_of(req.params) is Some
}

/// What is relayed is the transaction of the request.
pub open spec fn relays(relayed: RelayRequest, req: jsonrpc::RequestModel) -> bool {
    &&& relayed.id@ == req.id
    &&& relayed.method@ == req.method
    &&& replay::raw_tx_of(req.params) == Some(relayed.bytes@)
}

/// The error for a transaction that no upstream could be reached for.
pub open spec fn unreachable_error() -> jsonrpc::ErrorModel {
    jsonrpc::plain_error(
        RELAY_UNAVAILABLE_ERROR_CODE as int,
        "all transaction relay upstreams are unreachable"@,
    )
}

/// What the relay does about a request in whose parameters `bytes` were read: a
/// raw transaction is relayed, any other request passes.
pub fn relay_or_forward(req: &Request, bytes: Option<Bytes>) -> (action: RelayCall)
    ensures
        match bytes {
            Some(bytes) if replay::submits_raw_transaction(req@.method) => action
                matches RelayCall::Relay(relayed) && relayed.id@ == req@.id && relayed.method@
                == req@.method && relayed.bytes == bytes,
            _ => action is Forward,
        },
{
    if !is_raw_transaction_submission(req.method.as_str()) {
        return RelayCall::Forward;
    }
    match bytes {
        Some(bytes) => RelayCall::Relay(
            RelayRequest { id: req.id.clone(), method: req.method.clone(), bytes },
        ),
        None => RelayCall::Forward,
    }
}

impl<S> TxRelayMiddleware<S> {
    /// Relays a raw transaction, and lets any other request pass. A submission whose
    /// parameters hold no bytes passes too, so that the node can answer with its
    /// own error.
    pub fn call(&self, req: &Request) -> (action: RelayCall)
        ensures
            if is_relayed(req@) {
                action matches RelayCall::Relay(relayed) && relays(relayed, req@)
            } else {
                action is Forward
            },
    {
        if !is_raw_transaction_submission(req.method.as_str()) {
            return RelayCall::Forward;
        }
        relay_or_forward(req, extract_raw_tx_bytes(req))
    }

    /// Begins a pass through the upstreams.
    pub fn forward(&self, sticky: usize) -> (run: RelayRun)
        ensures
            run.well_formed(),
            run.upstreams() == self.relays.upstreams@.len(),
            run.tried() == 0,
            self.relays.upstreams@.len() > 0 ==> run.start() == (if sticky
                < self.relays.upstreams@.len() {
                sticky as int
            } else {
                self.relays.upstreams@.len() - 1
            }),
    {
        RelayRun::new(self.relays.upstreams.len(), sticky)
    }

    /// The answer to a request that was relayed. Only a transaction that an
    /// upstream took is added to the local pool.
    pub fn respond(&self, id: &Id, outcome: RelayOutcome<Value>) -> (answer: RelayResponse)
        ensures
            answer.add_locally == (outcome is Accepted),
            match outcome {
                RelayOutcome::Accepted(result) => {
                    let limit = self.relays.max_response_body_size;
                    let json = jsonrpc::value_json(result);
                    if limit == usize::MAX || jsonrpc::byte_length(jsonrpc::result_json(id@, json))
                        <= limit {
                        jsonrpc::answers_result(answer.response, id@, json)
                    } else {
                        jsonrpc::answers_error(
                            answer.response,
                            id@,
                            jsonrpc::oversized_response(limit),
                        )
                    }
                },
                RelayOutcome::UpstreamError(error) => jsonrpc::answers_error(
                    answer.response,
                    id@,
                    error@,
                ),
                RelayOutcome::AllUnreachable => jsonrpc::answers_error(
                    answer.response,
                    id@,
                    unreachable_error(),
                ),
            },
    {
        match outcome {
            RelayOutcome::Accepted(result) => RelayResponse {
                add_locally: true,
                response: success_response(id, result, self.relays.max_response_body_size),
            },
            RelayOutcome::UpstreamError(error) => RelayResponse {
                add_locally: false,
                response: error_response(id, error),
            },
            RelayOutcome::AllUnreachable => RelayResponse {
                add_locally: false,
                response: error_response(
                    id,
                    ErrorObject::plain(
                        RELAY_UNAVAILABLE_ERROR_CODE,
                        "all transaction relay upstreams are unreachable",
                    ),
                ),
            },
        }
    }

    /// Begins a batch.
    pub fn batch(&self) -> (run: BatchRun)
        ensures
            run.well_formed(),
            run.replies() == Seq::<Seq<char>>::empty(),
            !run.notified(),
            run.limit() == self.relays.max_response_body_size,
    {
        BatchRun::new(self.relays.max_response_body_size)
    }

    /// Handles the next entry of a batch: each request as it would be on its own.
    pub fn batch_entry(&self, run: &mut BatchRun, entry: BatchEntry) -> (action: RelayEntry)
        requires
            old(run).well_formed(),
        ensures
            match entry {
                BatchEntry::Call(req) => if is_relayed(req@) {
                    &&& action matches RelayEntry::Relay(relayed)
                    &&& relays(relayed, req@)
                    &&& *final(run) == *old(run)
                } else {
                    action matches RelayEntry::Other(next) && batch::forwards(
                        *old(run),
                        next,
                        *final(run),
                    )
                },
                BatchEntry::Notification => action matches RelayEntry::Other(next)
                    && batch::takes_notification(*old(run), next, *final(run)),
                BatchEntry::Invalid { id, error } => action matches RelayEntry::Other(next)
                    && batch::takes(
                    *old(run),
                    jsonrpc::error_json(id@, error@),
                    next,
                    *final(run),
                ),
            },
    {
        match entry {
            BatchEntry::Call(req) => match self.call(&req) {
                RelayCall::Forward => RelayEntry::Other(BatchAction::CallInner),
                RelayCall::Relay(relayed) => RelayEntry::Relay(relayed),
            },
            BatchEntry::Notification => RelayEntry::Other(run.take_notification()),
            BatchEntry::Invalid { id, error } => RelayEntry::Other(run.take_invalid(&id, error)),
        }
    }

    /// A notification goes to the service behind.
    pub fn notification(&self) -> (action: CallAction)
        ensures
            action is Forward,
    {
        CallAction::Forward
    }
}

/// A pass tries every upstream exactly once.
pub proof fn law_pass_tries_every_upstream_once(start: int, upstreams: int, upstream: int)
    requires
        0 <= start < upstreams,
        0 <= upstream < upstreams,
    ensures
        exists|attempt: int|
            0 <= attempt < upstreams && #[trigger] upstream_at(start, attempt, upstreams)
                == upstream,
        forall|first: int, second: int|
            0 <= first < upstreams && 0 <= second < upstreams && #[trigger] upstream_at(
                start,
                first,
                upstreams,
            ) == #[trigger] upstream_at(start, second, upstreams) ==> first == second,
{
    let attempt = if start <= upstream {
        upstream - start
    } else {
        upstream - start + upstreams
    };
    lemma_upstream_at(start, attempt, upstreams);
    assert(upstream_at(start, attempt, upstreams) == upstream);
    assert forall|first: int, second: int|
        0 <= first < upstreams && 0 <= second < upstreams && #[trigger] upstream_at(
            start,
            first,
            upstreams,
        ) == #[trigger] upstream_at(start, second, upstreams) implies first == second by {
        lemma_upstream_at(start, first, upstreams);
        lemma_upstream_at(start, second, upstreams);
    }
}

/// Behind the last upstream comes the first one.
proof fn lemma_upstream_at(start: int, attempt: int, upstreams: int)
    requires
        0 <= start < upstreams,
        0 <= attempt < upstreams,
    ensures
        upstream_at(start, attempt, upstreams) == (if start + attempt < upstreams {
            start + attempt
        } else {
            start + attempt - upstreams
        }),
{
    if start + attempt < upstreams {
        vstd::arithmetic::div_mod::lemma_small_mod((start + attempt) as nat, upstreams as nat);
    } else {
        let wrapped = start + attempt - upstreams;
        vstd::arithmetic::div_mod::lemma_mod_add_multiples_vanish(wrapped, upstreams);
        vstd::arithmetic::div_mod::lemma_small_mod(wrapped as nat, upstreams as nat);
    }
}

/// What is logged of an error, and what a client gets to see of one that is no
/// JSON-RPC error, does not depend on the body of an HTTP response.
pub proof fn law_http_bodies_are_not_shown(status: u16, body: String, other_body: String)
    ensures
        ({
            let err = RelayError::Transport(TransportError::HttpError { status, body });
            let other = RelayError::Transport(
                TransportError::HttpError { status, body: other_body },
            );
            category(err) == category(other) && shown_error(err) == shown_error(other)
        }),
{
}

/// A JSON-RPC error of an upstream always settles the relaying, with its message
/// and data as they are, and a timeout never does.
pub proof fn law_upstream_verdicts_are_final<R>(payload: ErrorPayload)
    ensures
        settles(UpstreamReply::<R>::Answered(Err(RelayError::ErrorResp(payload)))),
        shown_error(RelayError::ErrorResp(payload)).message == payload.message@,
        !settles(UpstreamReply::<R>::TimedOut),
{
}

/// A pass through the upstreams ends with the first reply that settles it, and the
/// next pass begins with the upstream that gave that reply. Without such a reply
/// it ends when every upstream has been asked, and all are unreachable.
pub proof fn law_first_answer_settles_the_pass<R>(
    runs: Seq<RelayRun>,
    replies: Seq<UpstreamReply<R>>,
    steps: Seq<RelayStep<R>>,
)
    requires
        replies.len() > 0,
        runs.len() == replies.len() + 1,
        steps.len() == replies.len(),
        runs[0].tried() == 0,
        forall|i: int|
            0 <= i < replies.len() ==> took(runs[i], replies[i], #[trigger] steps[i], runs[i + 1]),
        forall|i: int| 0 <= i < replies.len() - 1 ==> (#[trigger] steps[i]) is Advance,
        steps.last() is Settle,
    ensures
        forall|i: int| 0 <= i < replies.len() - 1 ==> !settles(#[trigger] replies[i]),
        if settles(replies.last()) {
            steps.last() matches RelayStep::Settle { sticky: Some(sticky), .. } && sticky
                == upstream_at(
                runs[0].start() as int,
                replies.len() - 1,
                runs[0].upstreams() as int,
            )
        } else {
            &&& replies.len() == runs[0].upstreams()
            &&& steps.last() == (RelayStep::<R>::Settle {
                outcome: RelayOutcome::AllUnreachable,
                sticky: None,
            })
        },
{
    lemma_runs_count_attempts(runs, replies, steps, replies.len() - 1);
    lemma_runs_count_attempts(runs, replies, steps, replies.len() as int);
    let last = replies.len() - 1;
    assert(took(runs[last], replies[last], steps[last], runs[last + 1]));
    assert forall|i: int| 0 <= i < replies.len() - 1 implies !settles(#[trigger] replies[i]) by {
        assert(took(runs[i], replies[i], steps[i], runs[i + 1]));
        assert(steps[i] is Advance);
    }
}

/// Each reply counts as one attempt of the same pass.
proof fn lemma_runs_count_attempts<R>(
    runs: Seq<RelayRun>,
    replies: Seq<UpstreamReply<R>>,
    steps: Seq<RelayStep<R>>,
    n: int,
)
    requires
        0 <= n <= replies.len(),
        runs.len() == replies.len() + 1,
        steps.len() == replies.len(),
        runs[0].tried() == 0,
        forall|i: int|
            0 <= i < replies.len() ==> took(runs[i], replies[i], #[trigger] steps[i], runs[i + 1]),
    ensures
        runs[n].tried() == n,
        runs[n].start() == runs[0].start(),
        runs[n].upstreams() == runs[0].upstreams(),
    decreases n,
{
    if n > 0 {
        lemma_runs_count_attempts(runs, replies, steps, n - 1);
        assert(took(runs[n - 1], replies[n - 1], steps[n - 1], runs[n - 1 + 1]));
    }
}

/// Which upstream a pass is at: the one that it began with, and behind it one after the
/// other, with the first one behind the last.
pub proof fn law_upstreams_take_turns(start: int, attempt: int, upstreams: int)
    requires
        0 <= start < upstreams,
        0 <= attempt < upstreams,
    ensures
        upstream_at(start, 0, upstreams) == start,
        0 <= upstream_at(start, attempt, upstreams) < upstreams,
        attempt + 1 < upstreams ==> upstream_at(start, attempt + 1, upstreams) == (if upstream_at(
            start,
            attempt,
            upstreams,
        ) == upstreams - 1 {
            0
        } else {
            upstream_at(start, attempt, upstreams) + 1
        }),
{
    lemma_upstream_at(start, 0, upstreams);
    lemma_upstream_at(start, attempt, upstreams);
    if attempt + 1 < upstreams {
        lemma_upstream_at(start, attempt + 1, upstreams);
    }
}

/// For every HTTP status: 429 and everything from 500 on leave the transaction to the next
/// upstream, and where there is none left, all are unreachable. Any other status settles
/// the pass, with an error that shows nothing of it, and the next pass begins with the
/// upstream that answered.
pub proof fn law_http_status_decides<R>(
    before: RelayRun,
    status: u16,
    body: String,
    step: RelayStep<R>,
    after: RelayRun,
)
    requires
        before.well_formed(),
        before.tried() < before.upstreams(),
        took(
            before,
            UpstreamReply::Answered(
                Err(RelayError::Transport(TransportError::HttpError { status, body })),
            ),
            step,
            after,
        ),
    ensures
        if status == 429 || status >= 500 {
            if before.tried() + 1 < before.upstreams() {
                step is Advance
            } else {
                step == (RelayStep::<R>::Settle {
                    outcome: RelayOutcome::AllUnreachable,
                    sticky: None,
                })
            }
        } else {
            &&& step matches RelayStep::Settle { outcome, sticky: Some(sticky) }
            &&& sticky == before.start() + before.tried() || sticky == before.start()
                + before.tried() - before.upstreams()
            &&& sticky < before.upstreams()
            &&& outcome matches RelayOutcome::UpstreamError(error)
            &&& error@ == (jsonrpc::ErrorModel {
                code: -32603,
                message: "transaction relay upstream error"@,
                data: None,
            })
        },
{
    lemma_upstream_at(before.start() as int, before.tried() as int, before.upstreams() as int);
}

/// A timeout, a failed connection and any other failure never settle the pass: the next
/// upstream is tried, and where there is none left, all are unreachable.
pub proof fn law_unanswered_requests_go_on<R>(
    before: RelayRun,
    reply: UpstreamReply<R>,
    step: RelayStep<R>,
    after: RelayRun,
)
    requires
        before.tried() < before.upstreams(),
        took(before, reply, step, after),
        reply is TimedOut || (reply matches UpstreamReply::Answered(Err(err)) && (err is Other
            || err == RelayError::Transport(TransportError::Other))),
    ensures
        before.tried() + 1 < before.upstreams() ==> step is Advance,
        before.tried() + 1 == before.upstreams() ==> step == (RelayStep::<R>::Settle {
            outcome: RelayOutcome::AllUnreachable,
            sticky: None,
        }),
{
}

/// A result and a JSON-RPC error settle the pass whichever upstream gives them, and the
/// next pass begins with that upstream. The result is handed on as it is; so are the
/// message and the data of the error, and its code where 32 bits hold it.
pub proof fn law_answers_are_handed_on<R>(
    before: RelayRun,
    answer: Result<R, ErrorPayload>,
    step: RelayStep<R>,
    after: RelayRun,
)
    requires
        before.well_formed(),
        before.tried() < before.upstreams(),
        took(
            before,
            UpstreamReply::Answered(
                match answer {
                    Ok(result) => Ok(result),
                    Err(payload) => Err(RelayError::ErrorResp(payload)),
                },
            ),
            step,
            after,
        ),
    ensures
        step matches RelayStep::Settle { outcome, sticky: Some(sticky) } && {
            &&& sticky == before.start() + before.tried() || sticky == before.start()
                + before.tried() - before.upstreams()
            &&& sticky < before.upstreams()
            &&& match answer {
                Ok(result) => outcome == RelayOutcome::Accepted(result),
                Err(payload) => outcome matches RelayOutcome::UpstreamError(error) && {
                    &&& error@.message == payload.message@
                    &&& -0x8000_0000 <= payload.code <= 0x7fff_ffff ==> error@.code == payload.code
                    &&& !(-0x8000_0000 <= payload.code <= 0x7fff_ffff) ==> error@.code == -32603
                    &&& match payload.data {
                        Some(data) => error@.data == Some(jsonrpc::raw_json(data)),
                        None => error@.data is None,
                    }
                },
            }
        },
{
    lemma_upstream_at(before.start() as int, before.tried() as int, before.upstreams() as int);
}

/// What settles a pass, by the reply alone: a result, a JSON-RPC error, and an HTTP status
/// below 500 other than 429.
pub proof fn law_what_settles_a_pass<R>(reply: UpstreamReply<R>)
    ensures
        settles(reply) <==> match reply {
            UpstreamReply::TimedOut => false,
            UpstreamReply::Answered(Ok(_)) => true,
            UpstreamReply::Answered(Err(RelayError::ErrorResp(_))) => true,
            UpstreamReply::Answered(
                Err(RelayError::Transport(TransportError::HttpError { status, .. })),
            ) => status != 429 && status < 500,
            UpstreamReply::Answered(Err(RelayError::Transport(TransportError::Other))) => false,
            UpstreamReply::Answered(Err(RelayError::Other)) => false,
        },
{
}

/// What is logged of an error tells its kind apart, and of an HTTP error the status.
pub proof fn law_errors_are_logged_by_kind(status: u16, body: String, payload: ErrorPayload)
    ensures
        category(RelayError::Transport(TransportError::HttpError { status, body }))
            == "http status "@ + text::decimal(status as nat),
        category(RelayError::Transport(TransportError::Other)) == "transport error"@,
        category(RelayError::ErrorResp(payload)) == "json-rpc error response"@,
        category(RelayError::Other) == "rpc error"@,
{
}

/// Whether a text is an upstream depends on that text alone: each URL is one, in the order
/// of the list, and nothing else is.
pub proof fn law_upstreams_are_picked_one_by_one(
    urls: Seq<Seq<char>>,
    more: Seq<Seq<char>>,
    url: Seq<char>,
)
    ensures
        valid_urls(urls + more) == valid_urls(urls) + valid_urls(more),
        is_url(url) ==> valid_urls(seq![url]) == seq![url],
        !is_url(url) ==> valid_urls(seq![url]) == Seq::<Seq<char>>::empty(),
{
    Seq::filter_distributes_over_add(urls, more, |url: Seq<char>| is_url(url));
    reveal(Seq::filter);
    assert(seq![url].drop_last() =~= Seq::<Seq<char>>::empty());
    assert(seq![url].drop_last().filter(|url: Seq<char>| is_url(url)) =~= Seq::<Seq<char>>::empty());
}

/// A request is relayed just when it submits, by either method, bytes that can be read.
/// What is relayed then are these bytes, under the request's own method and id.
pub proof fn law_exactly_raw_transactions_are_relayed(
    req: jsonrpc::RequestModel,
    relayed: RelayRequest,
)
    ensures
        is_relayed(req) <==> (req.method == "eth_sendRawTransaction"@ || req.method
            == "eth_sendRawTransactionSync"@) && params::param::<Bytes>(
            req.params,
            seq!["bytes"@],
        ) is Some,
        relays(relayed, req) <==> relayed.id@ == req.id && relayed.method@ == req.method
            && params::param::<Bytes>(req.params, seq!["bytes"@]) == Some(relayed.bytes@),
        unreachable_error() == (jsonrpc::ErrorModel {
            code: -32010,
            message: "all transaction relay upstreams are unreachable"@,
            data: None,
        }),
{
}

} // verus!
