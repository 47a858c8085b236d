//! The parameters of a request, and the one that a middleware looks at.
use super::jsonrpc;
use serde_json::Value;
use vstd::prelude::*;

verus! {

/// What an optional value looks like.
pub open spec fn seen<T: View>(value: Option<T>) -> Option<T::V> {
    match value {
        Some(v) => Some(v@),
        None => None,
    }
}

/// The JSON value that the parameters of a request are, where they are one.
pub uninterp spec fn parsed_params(params: Option<Seq<char>>) -> Option<Value>;

/// The field `key` of a JSON object; none of another value.
pub uninterp spec fn value_field(value: Value, key: Seq<char>) -> Option<Value>;

/// The bytes that a JSON value denotes.
pub uninterp spec fn value_bytes(value: Value) -> Option<Seq<u8>>;

/// The bytes that the first positional parameter denotes.
pub uninterp spec fn first_bytes(params: Option<Seq<char>>) -> Option<Seq<u8>>;

/// The subscription kind that a JSON value denotes.
pub uninterp spec fn value_subscription_kind(value: Value) -> Option<SubscriptionKind>;

/// The subscription kind that the first positional parameter denotes.
pub uninterp spec fn first_subscription_kind(params: Option<Seq<char>>) -> Option<SubscriptionKind>;

/// The block number or tag that a JSON value denotes.
pub uninterp spec fn value_block_number(value: Value) -> Option<BlockNumberOrTag>;

/// The block number or tag that the first positional parameter denotes.
pub uninterp spec fn first_block_number(params: Option<Seq<char>>) -> Option<BlockNumberOrTag>;

/// The block id that a JSON value denotes.
pub uninterp spec fn value_block_id(value: Value) -> Option<BlockId>;

/// The block id that the first positional parameter denotes.
pub uninterp spec fn first_block_id(params: Option<Seq<char>>) -> Option<BlockId>;

/// Bytes, as a raw transaction is.
#[derive(Debug, PartialEq, Eq)]
pub struct Bytes {
    pub data: Vec<u8>,
}

/// What a subscription is to.
#[derive(Clone, Copy, Debug, PartialEq, Eq, Structural)]
pub enum SubscriptionKind {
    NewHeads,
    Logs,
    NewPendingTransactions,
    Syncing,
    TransactionReceipts,
}

/// A block, by its number or a tag.
#[derive(Clone, Copy, Debug, PartialEq, Eq, Structural)]
pub enum BlockNumberOrTag {
    Latest,
    Finalized,
    Safe,
    Earliest,
    Pending,
    Number(u64),
}

/// A block, by its hash, its number or a tag.
#[derive(Clone, Copy, Debug, PartialEq, Eq)]
pub enum BlockId {
    Hash { block_hash: [u8; 32], require_canonical: Option<bool> },
    Number(BlockNumberOrTag),
}

impl View for Bytes {
    type V = Seq<u8>;

    open spec fn view(&self) -> Seq<u8> {
        self.data@
    }
}

impl View for SubscriptionKind {
    type V = SubscriptionKind;

    open spec fn view(&self) -> SubscriptionKind {
        *self
    }
}

impl View for BlockNumberOrTag {
    type V = BlockNumberOrTag;

    open spec fn view(&self) -> BlockNumberOrTag {
        *self
    }
}

impl View for BlockId {
    type V = BlockId;

    open spec fn view(&self) -> BlockId {
        *self
    }
}

impl BlockNumberOrTag {
    /// Whether this is the pending block.
    pub fn is_pending(&self) -> (pending: bool)
        ensures
            pending == (*self is Pending),
    {
        matches!(self, BlockNumberOrTag::Pending)
    }
}

impl BlockId {
    /// Whether this is the pending block.
    pub fn is_pending(&self) -> (pending: bool)
        ensures
            pending == (*self == BlockId::Number(BlockNumberOrTag::Pending)),
    {
        match self {
            BlockId::Number(number) => number.is_pending(),
            BlockId::Hash { .. } => false,
        }
    }
}

/// A character that counts as white space in Unicode.
pub open spec fn is_white_space(c: char) -> bool {
    let code = c as int;
    ||| 0x9 <= code <= 0xd
    ||| code == 0x20
    ||| code == 0x85
    ||| code == 0xa0
    ||| code == 0x1680
    ||| 0x2000 <= code <= 0x200a
    ||| code == 0x2028
    ||| code == 0x2029
    ||| code == 0x202f
    ||| code == 0x205f
    ||| code == 0x3000
}

/// The parameters are by name: behind white space, they begin with a brace.
pub open spec fn by_name(params: Option<Seq<char>>) -> bool {
    params matches Some(text) && exists|i: int|
        0 <= i < text.len() && #[trigger] text[i] == '{' && forall|j: int|
            0 <= j < i ==> is_white_space(#[trigger] text[j])
}

/// `jsonrpsee::types::Params::is_object`: whether the text, without the white space
/// around it, begins with a brace.
#[verifier::external_body]
fn is_object(params: &Option<String>) -> (object: bool)
    ensures
        object == by_name(jsonrpc::text_of(*params)),
{
    jsonrpsee::types::Params::new(params.as_deref()).is_object()
}

/// `jsonrpsee::types::Params::parse`, to a `serde_json::Value`: the JSON value that
/// the parameters are, or none where they are none.
#[verifier::external_body]
fn parse_params(params: &Option<String>) -> (value: Option<Value>)
    ensures
        value == parsed_params(jsonrpc::text_of(*params)),
{
    jsonrpsee::types::Params::new(params.as_deref()).parse::<Value>().ok()
}

/// `serde_json::Value::get`, with a key: a field of a JSON object.
#[verifier::external_body]
fn get_field(value: &Value, key: &str) -> (field: Option<Value>)
    ensures
        field == value_field(*value, key@),
{
    value.get(key).cloned()
}

/// `serde_json::from_value`, to `alloy_primitives::Bytes`.
#[verifier::external_body]
fn bytes_from_value(value: Value) -> (bytes: Option<Bytes>)
    ensures
        seen(bytes) == value_bytes(value),
{
    let bytes = serde_json::from_value::<alloy_primitives::Bytes>(value).ok()?;
    Some(Bytes { data: bytes.to_vec() })
}

/// `jsonrpsee::types::ParamsSequence::optional_next`, to `alloy_primitives::Bytes`, on
/// the first positional parameter.
#[verifier::external_body]
fn bytes_from_first(params: &Option<String>) -> (bytes: Option<Bytes>)
    ensures
        seen(bytes) == first_bytes(jsonrpc::text_of(*params)),
{
    let params = jsonrpsee::types::Params::new(params.as_deref());
    let bytes = params.sequence().optional_next::<alloy_primitives::Bytes>().ok()??;
    Some(Bytes { data: bytes.to_vec() })
}

/// `serde_json::from_value`, to `alloy_rpc_types_eth::pubsub::SubscriptionKind`.
#[verifier::external_body]
fn subscription_kind_from_value(value: Value) -> (kind: Option<SubscriptionKind>)
    ensures
        kind == value_subscription_kind(value),
{
    let kind = serde_json::from_value::<alloy_rpc_types_eth::pubsub::SubscriptionKind>(value).ok()?;
    Some(match kind {
        alloy_rpc_types_eth::pubsub::SubscriptionKind::NewHeads => SubscriptionKind::NewHeads,
        alloy_rpc_types_eth::pubsub::SubscriptionKind::Logs => SubscriptionKind::Logs,
        alloy_rpc_types_eth::pubsub::SubscriptionKind::NewPendingTransactions =>
            SubscriptionKind::NewPendingTransactions,
        alloy_rpc_types_eth::pubsub::SubscriptionKind::Syncing => SubscriptionKind::Syncing,
        alloy_rpc_types_eth::pubsub::SubscriptionKind::TransactionReceipts =>
            SubscriptionKind::TransactionReceipts,
    })
}

/// `jsonrpsee::types::ParamsSequence::optional_next`, to
/// `alloy_rpc_types_eth::pubsub::SubscriptionKind`, on the first positional parameter.
#[verifier::external_body]
fn subscription_kind_from_first(params: &Option<String>) -> (kind: Option<SubscriptionKind>)
    ensures
        kind == first_subscription_kind(jsonrpc::text_of(*params)),
{
    let params = jsonrpsee::types::Params::new(params.as_deref());
    let kind = params.sequence().optional_next::<alloy_rpc_types_eth::pubsub::SubscriptionKind>();
    Some(match kind.ok()?? {
        alloy_rpc_types_eth::pubsub::SubscriptionKind::NewHeads => SubscriptionKind::NewHeads,
        alloy_rpc_types_eth::pubsub::SubscriptionKind::Logs => SubscriptionKind::Logs,
        alloy_rpc_types_eth::pubsub::SubscriptionKind::NewPendingTransactions =>
            SubscriptionKind::NewPendingTransactions,
        alloy_rpc_types_eth::pubsub::SubscriptionKind::Syncing => SubscriptionKind::Syncing,
        alloy_rpc_types_eth::pubsub::SubscriptionKind::TransactionReceipts =>
            SubscriptionKind::TransactionReceipts,
    })
}

/// `serde_json::from_value`, to `alloy_eips::BlockNumberOrTag`.
#[verifier::external_body]
fn block_number_from_value(value: Value) -> (number: Option<BlockNumberOrTag>)
    ensures
        number == value_block_number(value),
{
    let number = serde_json::from_value::<alloy_eips::BlockNumberOrTag>(value).ok()?;
    Some(match number {
        alloy_eips::BlockNumberOrTag::Latest => BlockNumberOrTag::Latest,
        alloy_eips::BlockNumberOrTag::Finalized => BlockNumberOrTag::Finalized,
        alloy_eips::BlockNumberOrTag::Safe => BlockNumberOrTag::Safe,
        alloy_eips::BlockNumberOrTag::Earliest => BlockNumberOrTag::Earliest,
        alloy_eips::BlockNumberOrTag::Pending => BlockNumberOrTag::Pending,
        alloy_eips::BlockNumberOrTag::Number(n) => BlockNumberOrTag::Number(n),
    })
}

/// `jsonrpsee::types::ParamsSequence::optional_next`, to `alloy_eips::BlockNumberOrTag`,
/// on the first positional parameter.
#[verifier::external_body]
fn block_number_from_first(params: &Option<String>) -> (number: Option<BlockNumberOrTag>)
    ensures
        number == first_block_number(jsonrpc::text_of(*params)),
{
    let params = jsonrpsee::types::Params::new(params.as_deref());
    let number = params.sequence().optional_next::<alloy_eips::BlockNumberOrTag>().ok()??;
    Some(match number {
        alloy_eips::BlockNumberOrTag::Latest => BlockNumberOrTag::Latest,
        alloy_eips::BlockNumberOrTag::Finalized => BlockNumberOrTag::Finalized,
        alloy_eips::BlockNumberOrTag::Safe => BlockNumberOrTag::Safe,
        alloy_eips::BlockNumberOrTag::Earliest => BlockNumberOrTag::Earliest,
        alloy_eips::BlockNumberOrTag::Pending => BlockNumberOrTag::Pending,
        alloy_eips::BlockNumberOrTag::Number(n) => BlockNumberOrTag::Number(n),
    })
}

/// `serde_json::from_value`, to `alloy_eips::BlockId`.
#[verifier::external_body]
fn block_id_from_value(value: Value) -> (id: Option<BlockId>)
    ensures
        id == value_block_id(value),
{
    Some(match serde_json::from_value::<alloy_eips::BlockId>(value).ok()? {
        alloy_eips::BlockId::Hash(h) =>
            BlockId::Hash { block_hash: h.block_hash.0, require_canonical: h.require_canonical },
        alloy_eips::BlockId::Number(number) => BlockId::Number(match number {
            alloy_eips::BlockNumberOrTag::Latest => BlockNumberOrTag::Latest,
            alloy_eips::BlockNumberOrTag::Finalized => BlockNumberOrTag::Finalized,
            alloy_eips::BlockNumberOrTag::Safe => BlockNumberOrTag::Safe,
            alloy_eips::BlockNumberOrTag::Earliest => BlockNumberOrTag::Earliest,
            alloy_eips::BlockNumberOrTag::Pending => BlockNumberOrTag::Pending,
            alloy_eips::BlockNumberOrTag::Number(n) => BlockNumberOrTag::Number(n),
        }),
    })
}

/// `jsonrpsee::types::ParamsSequence::optional_next`, to `alloy_eips::BlockId`, on the
/// first positional parameter.
#[verifier::external_body]
fn block_id_from_first(params: &Option<String>) -> (id: Option<BlockId>)
    ensures
        id == first_block_id(jsonrpc::text_of(*params)),
{
    let params = jsonrpsee::types::Params::new(params.as_deref());
    Some(match params.sequence().optional_next::<alloy_eips::BlockId>().ok()?? {
        alloy_eips::BlockId::Hash(h) =>
            BlockId::Hash { block_hash: h.block_hash.0, require_canonical: h.require_canonical },
        alloy_eips::BlockId::Number(number) => BlockId::Number(match number {
            alloy_eips::BlockNumberOrTag::Latest => BlockNumberOrTag::Latest,
            alloy_eips::BlockNumberOrTag::Finalized => BlockNumberOrTag::Finalized,
            alloy_eips::BlockNumberOrTag::Safe => BlockNumberOrTag::Safe,
            alloy_eips::BlockNumberOrTag::Earliest => BlockNumberOrTag::Earliest,
            alloy_eips::BlockNumberOrTag::Pending => BlockNumberOrTag::Pending,
            alloy_eips::BlockNumberOrTag::Number(n) => BlockNumberOrTag::Number(n),
        }),
    })
}

/// A type that a parameter can have.
pub trait ParamType: View + Sized {
    /// What a JSON value denotes.
    spec fn of_value(value: Value) -> Option<Self::V>;

    /// What the first positional parameter denotes.
    spec fn of_first(params: Option<Seq<char>>) -> Option<Self::V>;

    /// Reads a JSON value.
    fn from_value(value: Value) -> (read: Option<Self>)
        ensures
            seen(read) == Self::of_value(value),
    ;

    /// Reads the first positional parameter.
    fn from_first(params: &Option<String>) -> (read: Option<Self>)
        ensures
            seen(read) == Self::of_first(jsonrpc::text_of(*params)),
    ;
}

impl ParamType for Bytes {
    open spec fn of_value(value: Value) -> Option<Seq<u8>> {
        value_bytes(value)
    }

    open spec fn of_first(params: Option<Seq<char>>) -> Option<Seq<u8>> {
        first_bytes(params)
    }

    fn from_value(value: Value) -> (read: Option<Bytes>) {
        bytes_from_value(value)
    }

    fn from_first(params: &Option<String>) -> (read: Option<Bytes>) {
        bytes_from_first(params)
    }
}

impl ParamType for SubscriptionKind {
    open spec fn of_value(value: Value) -> Option<SubscriptionKind> {
        value_subscription_kind(value)
    }

    open spec fn of_first(params: Option<Seq<char>>) -> Option<SubscriptionKind> {
        first_subscription_kind(params)
    }

    fn from_value(value: Value) -> (read: Option<SubscriptionKind>) {
        subscription_kind_from_value(value)
    }

    fn from_first(params: &Option<String>) -> (read: Option<SubscriptionKind>) {
        subscription_kind_from_first(params)
    }
}

impl ParamType for BlockNumberOrTag {
    open spec fn of_value(value: Value) -> Option<BlockNumberOrTag> {
        value_block_number(value)
    }

    open spec fn of_first(params: Option<Seq<char>>) -> Option<BlockNumberOrTag> {
        first_block_number(params)
    }

    fn from_value(value: Value) -> (read: Option<BlockNumberOrTag>) {
        block_number_from_value(value)
    }

    fn from_first(params: &Option<String>) -> (read: Option<BlockNumberOrTag>) {
        block_number_from_first(params)
    }
}

impl ParamType for BlockId {
    open spec fn of_value(value: Value) -> Option<BlockId> {
        value_block_id(value)
    }

    open spec fn of_first(params: Option<Seq<char>>) -> Option<BlockId> {
        first_block_id(params)
    }

    fn from_value(value: Value) -> (read: Option<BlockId>) {
        block_id_from_value(value)
    }

    fn from_first(params: &Option<String>) -> (read: Option<BlockId>) {
        block_id_from_first(params)
    }
}

/// The texts of some keys.
pub open spec fn key_texts(keys: Seq<&str>) -> Seq<Seq<char>> {
    keys.map_values(|key: &str| key@)
}

/// The field of a JSON object under the first of `keys` that it has.
pub open spec fn first_named(object: Value, keys: Seq<Seq<char>>) -> Option<Value>
    decreases keys.len(),
{
    if keys.len() == 0 {
        None
    } else {
        match value_field(object, keys[0]) {
            Some(field) => Some(field),
            None => first_named(object, keys.skip(1)),
        }
    }
}

/// The parameter that a request has under the first of `keys`, or, where its
/// parameters are by position, as the first of them.
pub open spec fn param<T: ParamType>(params: Option<Seq<char>>, keys: Seq<Seq<char>>) -> Option<
    T::V,
> {
    if by_name(params) {
        match parsed_params(params) {
            Some(object) => match first_named(object, keys) {
                Some(field) => T::of_value(field),
                None => None,
            },
            None => None,
        }
    } else {
        T::of_first(params)
    }
}

/// The field of a JSON object under the first of `keys` that it has.
fn find_named(object: &Value, keys: &[&str]) -> (found: Option<Value>)
    ensures
        found == first_named(*object, key_texts(keys@)),
{
    let ghost texts = key_texts(keys@);
    let mut i: usize = 0;
    proof {
        assert(texts.skip(0) =~= texts);
    }
    while i < keys.len()
        invariant
            i <= keys.len(),
            texts == key_texts(keys@),
            first_named(*object, texts) == first_named(*object, texts.skip(i as int)),
        decreases keys.len() - i,
    {
        proof {
            assert(texts.skip(i as int)[0] == keys@[i as int]@);
            assert(texts.skip(i as int).skip(1) =~= texts.skip(i + 1));
        }
        let field: Option<Value> = get_field(object, keys[i]);
        if field.is_some() {
            return field;
        }
        i = i + 1;
    }
    None
}

/// Reads the parameter that a middleware looks at: of named parameters the one
/// under the first of `keys` that is there, of positional ones the first. Gives
/// none where it is missing or of another form.
pub fn extract_param<T: ParamType>(params: &Option<String>, keys: &[&str]) -> (read: Option<T>)
    ensures
        seen(read) == param::<T>(jsonrpc::text_of(*params), key_texts(keys@)),
{
    if is_object(params) {
        match parse_params(params) {
            Some(object) => match find_named(&object, keys) {
                Some(field) => T::from_value(field),
                None => None,
            },
            None => None,
        }
    } else {
        T::from_first(params)
    }
}

/// Of the names that a parameter can have, the first one that is there decides, whatever
/// stands under those behind it; without any of them there is nothing.
pub proof fn law_first_name_decides(object: Value, keys: Seq<Seq<char>>, first: int)
    requires
        0 <= first <= keys.len(),
        forall|i: int| 0 <= i < first ==> value_field(object, #[trigger] keys[i]) is None,
    ensures
        first < keys.len() && value_field(object, keys[first]) is Some ==> first_named(object, keys)
            == value_field(object, keys[first]),
        first == keys.len() ==> first_named(object, keys) is None,
    decreases keys.len(),
{
    if first > 0 {
        assert(value_field(object, keys[0]) is None);
        assert forall|i: int| 0 <= i < first - 1 implies value_field(
            object,
            #[trigger] keys.skip(1)[i],
        ) is None by {
            assert(keys.skip(1)[i] == keys[i + 1]);
        }
        law_first_name_decides(object, keys.skip(1), first - 1);
        if first < keys.len() {
            assert(keys.skip(1)[first - 1] == keys[first]);
        }
    }
}

/// Positional parameters are read at the first place, whatever the names are. Named ones
/// are read under the first name that is there, and nowhere else: not by position, and
/// not under a later name where the first cannot be read.
pub proof fn law_parameters_are_read_by_their_form<T: ParamType>(
    params: Option<Seq<char>>,
    keys: Seq<Seq<char>>,
    first: int,
)
    requires
        0 <= first <= keys.len(),
        parsed_params(params) matches Some(object) ==> forall|i: int|
            0 <= i < first ==> value_field(object, #[trigger] keys[i]) is None,
    ensures
        !by_name(params) ==> param::<T>(params, keys) == T::of_first(params),
        by_name(params) && parsed_params(params) is None ==> param::<T>(params, keys) is None,
        by_name(params) ==> (parsed_params(params) matches Some(object) ==> {
            &&& first == keys.len() ==> param::<T>(params, keys) is None
            &&& first < keys.len() ==> (value_field(object, keys[first]) matches Some(field)
                ==> param::<T>(params, keys) == T::of_value(field))
        }),
{
    if let Some(object) = parsed_params(params) {
        law_first_name_decides(object, keys, first);
    }
}

/// A value that was read is seen as it is, and so are the names that it is looked for under.
pub proof fn law_what_is_read_is_seen(
    bytes: Bytes,
    kind: SubscriptionKind,
    number: BlockNumberOrTag,
    id: BlockId,
    keys: Seq<&str>,
    i: int,
)
    ensures
        seen(Some(bytes)) == Some(bytes.data@),
        seen(Some(kind)) == Some(kind),
        seen(Some(number)) == Some(number),
        seen(Some(id)) == Some(id),
        seen(None::<Bytes>) is None,
        seen(None::<SubscriptionKind>) is None,
        seen(None::<BlockNumberOrTag>) is None,
        seen(None::<BlockId>) is None,
        key_texts(keys).len() == keys.len(),
        0 <= i < keys.len() ==> key_texts(keys)[i] == keys[i]@,
{
}

} // verus!
