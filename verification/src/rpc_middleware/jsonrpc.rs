//! JSON-RPC requests, errors and responses.
use crate::text;
use jsonrpsee::{BatchResponseBuilder, MethodResponse};
use serde_json::value::RawValue;
use serde_json::Value;
use vstd::prelude::*;

verus! {

/// `jsonrpsee::MethodResponse`: a finished response.
#[verifier::external_type_specification]
#[verifier::external_body]
pub struct ExMethodResponse(jsonrpsee::MethodResponse);

/// `jsonrpsee::BatchResponseBuilder`: the responses to a batch, so far.
#[verifier::external_type_specification]
#[verifier::external_body]
pub struct ExBatchResponseBuilder(jsonrpsee::BatchResponseBuilder);

/// `serde_json::Value`: a JSON value.
#[verifier::external_type_specification]
#[verifier::external_body]
pub struct ExValue(serde_json::Value);

/// `serde_json::value::RawValue`: the text of a JSON value.
#[verifier::external_type_specification]
#[verifier::external_body]
pub struct ExRawValue(serde_json::value::RawValue);

/// The JSON text of a response.
pub uninterp spec fn response_json(response: MethodResponse) -> Seq<char>;

/// The error code of a response, where it is an error.
pub uninterp spec fn response_error_code(response: MethodResponse) -> Option<i32>;

/// What a response is sent as: nothing is sent for a notification.
#[derive(Clone, Copy, Debug, PartialEq, Eq, Structural)]
pub enum ResponseKind {
    MethodCall,
    Subscription,
    Batch,
    Notification,
}

/// What a response is sent as.
pub uninterp spec fn response_kind(response: MethodResponse) -> ResponseKind;

/// What a batch's responses have been written down as: an opening bracket, and
/// each response with a comma behind it.
pub uninterp spec fn batch_text(builder: BatchResponseBuilder) -> Seq<char>;

/// The limit that a batch's response was made with, in bytes.
pub uninterp spec fn batch_limit(builder: BatchResponseBuilder) -> usize;

/// The compact JSON text of a value.
pub uninterp spec fn value_json(value: Value) -> Seq<char>;

/// The text of a raw JSON value.
pub uninterp spec fn raw_json(value: Box<RawValue>) -> Seq<char>;

/// The id of a request.
#[derive(Debug, PartialEq, Eq)]
pub enum Id {
    Null,
    Number(u64),
    Str(String),
}

/// A request: its method, the JSON text of its parameters, if it has any, and its id.
#[derive(Debug, PartialEq, Eq)]
pub struct Request {
    pub method: String,
    pub params: Option<String>,
    pub id: Id,
}

/// An error to answer with.
#[derive(Debug)]
pub struct ErrorObject {
    pub code: i32,
    pub message: String,
    pub data: Option<Box<RawValue>>,
}

/// What an [`Id`] says.
pub enum IdModel {
    Null,
    Number(u64),
    Str(Seq<char>),
}

impl View for Id {
    type V = IdModel;

    open spec fn view(&self) -> IdModel {
        match self {
            Id::Null => IdModel::Null,
            Id::Number(n) => IdModel::Number(*n),
            Id::Str(s) => IdModel::Str(s@),
        }
    }
}

/// What a [`Request`] says.
pub struct RequestModel {
    pub method: Seq<char>,
    pub params: Option<Seq<char>>,
    pub id: IdModel,
}

/// The text that an optional string holds.
pub open spec fn text_of(s: Option<String>) -> Option<Seq<char>> {
    match s {
        Some(s) => Some(s@),
        None => None,
    }
}

impl View for Request {
    type V = RequestModel;

    open spec fn view(&self) -> RequestModel {
        RequestModel { method: self.method@, params: text_of(self.params), id: self.id@ }
    }
}

/// What an [`ErrorObject`] says.
pub struct ErrorModel {
    pub code: int,
    pub message: Seq<char>,
    pub data: Option<Seq<char>>,
}

impl View for ErrorObject {
    type V = ErrorModel;

    open spec fn view(&self) -> ErrorModel {
        ErrorModel {
            code: self.code as int,
            message: self.message@,
            data: match self.data {
                Some(data) => Some(raw_json(data)),
                None => None,
            },
        }
    }
}

/// An error without data.
pub open spec fn plain_error(code: int, message: Seq<char>) -> ErrorModel {
    ErrorModel { code, message, data: None }
}

/// A character inside a JSON string.
pub open spec fn escaped(c: char) -> Seq<char> {
    if c == '"' {
        seq!['\\', '"']
    } else if c == '\\' {
        seq!['\\', '\\']
    } else if c as int == 8 {
        seq!['\\', 'b']
    } else if c == '\t' {
        seq!['\\', 't']
    } else if c == '\n' {
        seq!['\\', 'n']
    } else if c as int == 12 {
        seq!['\\', 'f']
    } else if c == '\r' {
        seq!['\\', 'r']
    } else if (c as int) < 32 {
        seq!['\\', 'u'] + text::padded_hex(c as nat, 4)
    } else {
        seq![c]
    }
}

/// The characters of `s` inside a JSON string.
pub open spec fn all_escaped(s: Seq<char>) -> Seq<char>
    decreases s.len(),
{
    if s.len() == 0 {
        Seq::<char>::empty()
    } else {
        all_escaped(s.drop_last()) + escaped(s.last())
    }
}

/// The JSON string for `s`.
pub open spec fn json_string(s: Seq<char>) -> Seq<char> {
    seq!['"'] + all_escaped(s) + seq!['"']
}

/// The JSON text of an id.
pub open spec fn id_json(id: IdModel) -> Seq<char> {
    match id {
        IdModel::Null => "null"@,
        IdModel::Number(n) => text::decimal(n as nat),
        IdModel::Str(s) => json_string(s),
    }
}

/// The JSON text of an error object.
pub open spec fn error_object_json(error: ErrorModel) -> Seq<char> {
    "{\"code\":"@ + text::signed_decimal(error.code) + ",\"message\":"@ + json_string(
        error.message,
    ) + (match error.data {
        Some(data) => ",\"data\":"@ + data,
        None => Seq::<char>::empty(),
    }) + "}"@
}

/// The JSON text of the response that answers the request `id` with `error`.
pub open spec fn error_json(id: IdModel, error: ErrorModel) -> Seq<char> {
    "{\"jsonrpc\":\"2.0\",\"id\":"@ + id_json(id) + ",\"error\":"@ + error_object_json(error) + "}"@
}

/// The JSON text of the response that answers the request `id` with `result`.
pub open spec fn result_json(id: IdModel, result: Seq<char>) -> Seq<char> {
    "{\"jsonrpc\":\"2.0\",\"id\":"@ + id_json(id) + ",\"result\":"@ + result + "}"@
}

/// The data of an error about a limit, in bytes, that was exceeded.
pub open spec fn limit_exceeded(limit: usize) -> Seq<char> {
    json_string("Exceeded max limit of "@ + text::decimal(limit as nat))
}

/// The error in place of a response that is larger than `limit`.
pub open spec fn oversized_response(limit: usize) -> ErrorModel {
    ErrorModel {
        code: -32008,
        message: "Response is too big"@,
        data: Some(limit_exceeded(limit)),
    }
}

/// The error in place of a batch whose response is larger than `limit`.
pub open spec fn oversized_batch(limit: usize) -> ErrorModel {
    ErrorModel {
        code: -32011,
        message: "The batch response was too large"@,
        data: Some(limit_exceeded(limit)),
    }
}

/// The error in place of a batch without a response.
pub open spec fn empty_batch() -> ErrorModel {
    plain_error(-32600, "Invalid request"@)
}

/// How many bytes `s` takes.
pub open spec fn byte_length(s: Seq<char>) -> nat {
    vstd::utf8::encode_utf8(s).len()
}

/// The response answers the request `id` with `error`.
pub open spec fn answers_error(response: MethodResponse, id: IdModel, error: ErrorModel) -> bool {
    &&& response_json(response) == error_json(id, error)
    &&& response_kind(response) is MethodCall
    &&& response_error_code(response) matches Some(code)
    &&& code == error.code
}

/// The response answers the request `id` with `result`.
pub open spec fn answers_result(response: MethodResponse, id: IdModel, result: Seq<char>) -> bool {
    &&& response_json(response) == result_json(id, result)
    &&& response_kind(response) is MethodCall
    &&& response_error_code(response) is None
}

/// `jsonrpsee::MethodResponse::error`: the response that answers the request `id`
/// with an error.
#[verifier::external_body]
pub(crate) fn error_response(id: &Id, error: ErrorObject) -> (response: MethodResponse)
    ensures
        answers_error(
            response,
            id@,
            (ErrorModel {
                code: error.code as int,
                message: error.message@,
                data: match error.data {
                    Some(data) => Some(raw_json(data)),
                    None => None,
                },
            }),
        ),
{
    let id = match id {
        Id::Null => jsonrpsee::types::Id::Null,
        Id::Number(n) => jsonrpsee::types::Id::Number(*n),
        Id::Str(s) => jsonrpsee::types::Id::Str(s.as_str().into()),
    };
    let ErrorObject { code, message, data } = error;
    MethodResponse::error(id, jsonrpsee::types::ErrorObject::owned(code, message, data))
}

/// `jsonrpsee::MethodResponse::response`, of a successful result: the response
/// that answers the request `id` with `result`, or an error in its place where it
/// takes more than `limit` bytes. A limit of `usize::MAX` is never exceeded.
#[verifier::external_body]
pub(crate) fn success_response(id: &Id, result: Value, limit: usize) -> (response: MethodResponse)
    ensures
        if limit == usize::MAX || byte_length(result_json(id@, value_json(result))) <= limit {
            answers_result(response, id@, value_json(result))
        } else {
            answers_error(response, id@, oversized_response(limit))
        },
{
    let id = match id {
        Id::Null => jsonrpsee::types::Id::Null,
        Id::Number(n) => jsonrpsee::types::Id::Number(*n),
        Id::Str(s) => jsonrpsee::types::Id::Str(s.as_str().into()),
    };
    MethodResponse::response(id, jsonrpsee::ResponsePayload::success(result), limit)
}

/// `jsonrpsee::MethodResponse::notification`: the response to a notification,
/// which is `null` and no error, and is not sent.
#[verifier::external_body]
pub(crate) fn notification_response() -> (response: MethodResponse)
    ensures
        response_json(response) == "null"@,
        response_kind(response) is Notification,
        response_error_code(response) is None,
{
    MethodResponse::notification()
}

/// `serde_json::Value::Null`, whose text is `null`.
#[verifier::external_body]
pub(crate) fn null_value() -> (value: Value)
    ensures
        value_json(value) == "null"@,
{
    Value::Null
}

/// `jsonrpsee::BatchResponseBuilder::new_with_limit`: no response yet.
#[verifier::external_body]
pub(crate) fn new_batch(limit: usize) -> (builder: BatchResponseBuilder)
    ensures
        batch_text(builder) == "["@,
        batch_limit(builder) == limit,
{
    BatchResponseBuilder::new_with_limit(limit)
}

/// `jsonrpsee::BatchResponseBuilder::append`: adds a response with a comma behind
/// it, unless the batch would then take more bytes than its limit; that leaves
/// the batch's text as it is and gives the error to answer with. A limit of
/// `usize::MAX` is never exceeded. The extensions of the response go over to the
/// batch, of which nothing is said here.
#[verifier::external_body]
pub(crate) fn append_to_batch(builder: &mut BatchResponseBuilder, response: MethodResponse) -> (result:
    Result<(), MethodResponse>)
    ensures
        batch_limit(*final(builder)) == batch_limit(*old(builder)),
        ({
            let limit = batch_limit(*old(builder));
            let size = byte_length(batch_text(*old(builder))) + byte_length(
                response_json(response),
            ) + 1;
            if limit == usize::MAX || size <= limit {
                &&& result is Ok
                &&& batch_text(*final(builder)) == batch_text(*old(builder)) + response_json(
                    response,
                ) + ","@
            } else {
                &&& result matches Err(too_large)
                &&& answers_error(too_large, IdModel::Null, oversized_batch(limit))
                &&& batch_text(*final(builder)) == batch_text(*old(builder))
            }
        }),
{
    builder.append(response)
}

/// `jsonrpsee::BatchResponseBuilder::is_empty`: whether there is nothing behind the
/// opening bracket.
#[verifier::external_body]
pub(crate) fn batch_is_empty(builder: &BatchResponseBuilder) -> (empty: bool)
    ensures
        empty == (byte_length(batch_text(*builder)) <= 1),
{
    builder.is_empty()
}

/// `jsonrpsee::BatchResponseBuilder::finish`, made a response by
/// `jsonrpsee::MethodResponse::from_batch`: the last comma becomes a closing
/// bracket. A batch of one byte only, the opening bracket, is the error for an
/// invalid request. Either way the response as such is that of a batch, and counts
/// as a success. Nothing is said here of the extensions that it takes over.
#[verifier::external_body]
pub(crate) fn finish_batch(builder: BatchResponseBuilder) -> (response: MethodResponse)
    requires
        batch_text(builder) != "["@ ==> batch_text(builder).len() >= 2,
    ensures
        response_kind(response) is Batch,
        response_error_code(response) is None,
        response_json(response) == (if batch_text(builder) == "["@ {
            error_json(IdModel::Null, empty_batch())
        } else {
            batch_text(builder).drop_last() + "]"@
        }),
{
    MethodResponse::from_batch(builder.finish())
}

impl Clone for Id {
    fn clone(&self) -> (copy: Id)
        ensures
            copy@ == self@,
    {
        match self {
            Id::Null => Id::Null,
            Id::Number(n) => Id::Number(*n),
            Id::Str(s) => Id::Str(s.clone()),
        }
    }
}

impl Clone for Request {
    fn clone(&self) -> (copy: Request)
        ensures
            copy@ == self@,
    {
        let params: Option<String> = match &self.params {
            Some(params) => Some(params.clone()),
            None => None,
        };
        Request { method: self.method.clone(), params, id: self.id.clone() }
    }
}

impl ErrorObject {
    /// An error without data.
    pub fn plain(code: i32, message: &str) -> (error: ErrorObject)
        ensures
            error@ == plain_error(code as int, message@),
    {
        ErrorObject { code, message: message.to_owned(), data: None }
    }
}

/// What a request, an id and an error say is what they hold, each part for itself: nothing
/// of them is left out or changed, and different ids say different things.
pub proof fn law_models_say_what_is_held(req: Request, error: ErrorObject, n: u64, s: String)
    ensures
        req@.method == req.method@,
        req@.id == req.id@,
        match req.params {
            Some(params) => req@.params == Some(params@),
            None => req@.params is None,
        },
        Id::Null@ is Null,
        Id::Number(n)@ == IdModel::Number(n),
        Id::Str(s)@ == IdModel::Str(s@),
        error@.code == error.code,
        error@.message == error.message@,
        match error.data {
            Some(data) => error@.data == Some(raw_json(data)),
            None => error@.data is None,
        },
{
}

} // verus!
