//! Batches of requests: their size limit, and the response to them.
use super::jsonrpc;
use super::jsonrpc::{
    append_to_batch, batch_is_empty, error_response, finish_batch, new_batch,
    notification_response, ErrorObject, Id, Request,
};
use crate::text;
use jsonrpsee::{BatchResponseBuilder, MethodResponse};
use vstd::prelude::*;

verus! {

/// The error code for a batch with too many entries.
pub const BATCH_TOO_LARGE_ERROR_CODE: i32 = -32600;

/// The most entries that a batch may have, where nothing else is said.
pub const ARC_RPC_MAX_BATCH_ENTRIES_DEFAULT: usize = 100;

/// What a middleware does about a request.
#[derive(Debug)]
pub enum CallAction {
    /// The service behind it handles the request, and its reply is the response.
    Forward,
    /// This is the response; the service behind it never sees the request.
    Reply(MethodResponse),
}

/// An entry of a batch.
#[derive(Debug)]
pub enum BatchEntry {
    /// A request.
    Call(Request),
    /// A notification, which is not answered.
    Notification,
    /// Something that is neither, and the error that it is answered with.
    Invalid { id: Id, error: ErrorObject },
}

/// What to do next about a batch.
#[derive(Debug)]
pub enum BatchAction {
    /// Go on with the next entry.
    Next,
    /// Let the service behind the middleware handle the request, and hand its
    /// reply to [`BatchRun::take_reply`].
    CallInner,
    /// Hand the notification to the service behind the middleware, drop its
    /// reply, and go on with the next entry.
    NotifyInner,
    /// This is the response to the whole batch; no further entry is handled.
    Done(MethodResponse),
}

/// Rejects batches with too many entries before any entry is handled.
#[derive(Clone, Debug)]
pub struct BatchSizeLimitMiddleware<S> {
    pub service: S,
    pub max_entries: usize,
}

/// The message that rejects a batch of `size` entries.
pub open spec fn batch_too_large_message(size: nat, limit: nat) -> Seq<char> {
    "batch size "@ + text::decimal(size) + " exceeds limit of "@ + text::decimal(limit)
}

impl<S> BatchSizeLimitMiddleware<S> {
    pub fn new(service: S, max_entries: usize) -> (made: Self)
        ensures
            made.service == service,
            made.max_entries == max_entries,
    {
        BatchSizeLimitMiddleware { service, max_entries }
    }

    /// A single request is not limited.
    pub fn call(&self, _req: &Request) -> (action: CallAction)
        ensures
            action is Forward,
    {
        CallAction::Forward
    }

    /// A batch with more entries than the limit is answered with an error; any
    /// other goes on as a whole.
    pub fn batch(&self, entries: usize) -> (action: CallAction)
        ensures
            if entries > self.max_entries {
                &&& action matches CallAction::Reply(response)
                &&& jsonrpc::answers_error(
                    response,
                    jsonrpc::IdModel::Null,
                    jsonrpc::plain_error(
                        BATCH_TOO_LARGE_ERROR_CODE as int,
                        batch_too_large_message(entries as nat, self.max_entries as nat),
                    ),
                )
            } else {
                action is Forward
            },
            action matches CallAction::Reply(response) ==> jsonrpc::response_json(response)
                == jsonrpc::error_json(
                jsonrpc::IdModel::Null,
                (jsonrpc::ErrorModel {
                    code: -32600,
                    message: "batch size "@ + text::decimal(entries as nat) + " exceeds limit of "@
                        + text::decimal(self.max_entries as nat),
                    data: None,
                }),
            ),
    {
        if entries > self.max_entries {
            let mut message: String = "batch size ".to_owned();
            text::push_decimal(&mut message, entries as u64);
            message.append(" exceeds limit of ");
            text::push_decimal(&mut message, self.max_entries as u64);
            let error = ErrorObject { code: BATCH_TOO_LARGE_ERROR_CODE, message, data: None };
            return CallAction::Reply(error_response(&Id::Null, error));
        }
        CallAction::Forward
    }

    /// A notification goes to the service behind.
    pub fn notification(&self) -> (action: CallAction)
        ensures
            action is Forward,
    {
        CallAction::Forward
    }
}

/// The replies of a batch as they are written down so far.
pub open spec fn written(replies: Seq<Seq<char>>) -> Seq<char>
    decreases replies.len(),
{
    if replies.len() == 0 {
        "["@
    } else {
        written(replies.drop_last()) + replies.last() + ","@
    }
}

/// The JSON array of the replies of a batch.
pub open spec fn batch_array(replies: Seq<Seq<char>>) -> Seq<char> {
    written(replies).drop_last() + "]"@
}

/// There is room for one more reply.
pub open spec fn has_room(replies: Seq<Seq<char>>, reply: Seq<char>, limit: usize) -> bool {
    limit == usize::MAX || jsonrpc::byte_length(written(replies)) + jsonrpc::byte_length(reply) + 1
        <= limit
}

/// The response to a batch, while its entries are handled one by one.
pub struct BatchRun {
    builder: BatchResponseBuilder,
    got_notif: bool,
    replies: Ghost<Seq<Seq<char>>>,
}

/// The run took in a reply, if there was room for it, and otherwise ends with an error.
pub open spec fn takes(
    before: BatchRun,
    reply: Seq<char>,
    action: BatchAction,
    after: BatchRun,
) -> bool {
    &&& after.well_formed()
    &&& after.limit() == before.limit()
    &&& after.notified() == before.notified()
    &&& if has_room(before.replies(), reply, before.limit()) {
        action is Next && after.replies() == before.replies().push(reply)
    } else {
        &&& after.replies() == before.replies()
        &&& action matches BatchAction::Done(too_large)
        &&& jsonrpc::answers_error(
            too_large,
            jsonrpc::IdModel::Null,
            jsonrpc::oversized_batch(before.limit()),
        )
    }
}

/// The run took in a notification, which leaves no reply.
pub open spec fn takes_notification(
    before: BatchRun,
    action: BatchAction,
    after: BatchRun,
) -> bool {
    &&& action is NotifyInner
    &&& after.well_formed()
    &&& after.limit() == before.limit()
    &&& after.notified()
    &&& after.replies() == before.replies()
}

/// The run waits for the service's reply, and is as it was.
pub open spec fn forwards(before: BatchRun, action: BatchAction, after: BatchRun) -> bool {
    action is CallInner && after == before
}

impl BatchRun {
    /// The JSON texts of the replies so far.
    pub closed spec fn replies(self) -> Seq<Seq<char>> {
        self.replies@
    }

    /// There was a notification.
    pub closed spec fn notified(self) -> bool {
        self.got_notif
    }

    /// The most bytes that the response may take.
    pub closed spec fn limit(self) -> usize {
        jsonrpc::batch_limit(self.builder)
    }

    /// What is written down are the replies.
    pub closed spec fn well_formed(self) -> bool {
        jsonrpc::batch_text(self.builder) == written(self.replies@)
    }

    /// No entry handled yet.
    pub fn new(max_response_body_size: usize) -> (run: BatchRun)
        ensures
            run.well_formed(),
            run.replies() == Seq::<Seq<char>>::empty(),
            !run.notified(),
            run.limit() == max_response_body_size,
    {
        BatchRun {
            builder: new_batch(max_response_body_size),
            got_notif: false,
            replies: Ghost(Seq::<Seq<char>>::empty()),
        }
    }

    /// Takes in the reply to an entry. A reply for which there is no room ends the
    /// batch with an error.
    pub fn take_reply(&mut self, response: MethodResponse) -> (action: BatchAction)
        requires
            old(self).well_formed(),
        ensures
            takes(*old(self), jsonrpc::response_json(response), action, *final(self)),
    {
        let ghost reply = jsonrpc::response_json(response);
        let ghost before = self.replies@;
        match append_to_batch(&mut self.builder, response) {
            Ok(_) => {
                self.replies = Ghost(before.push(reply));
                assert(before.push(reply).drop_last() =~= before);
                BatchAction::Next
            },
            Err(too_large) => BatchAction::Done(too_large),
        }
    }

    /// Takes in what a middleware does about a request of the batch.
    pub fn take_action(&mut self, action: CallAction) -> (next: BatchAction)
        requires
            old(self).well_formed(),
        ensures
            match action {
                CallAction::Forward => forwards(*old(self), next, *final(self)),
                CallAction::Reply(response) => takes(
                    *old(self),
                    jsonrpc::response_json(response),
                    next,
                    *final(self),
                ),
            },
    {
        match action {
            CallAction::Forward => BatchAction::CallInner,
            CallAction::Reply(response) => self.take_reply(response),
        }
    }

    /// Takes in a notification.
    pub fn take_notification(&mut self) -> (action: BatchAction)
        requires
            old(self).well_formed(),
        ensures
            takes_notification(*old(self), action, *final(self)),
    {
        self.got_notif = true;
        BatchAction::NotifyInner
    }

    /// Takes in an entry that is neither a request nor a notification: it is
    /// answered with its error.
    pub fn take_invalid(&mut self, id: &Id, error: ErrorObject) -> (action: BatchAction)
        requires
            old(self).well_formed(),
        ensures
            takes(*old(self), jsonrpc::error_json(id@, error@), action, *final(self)),
    {
        let response: MethodResponse = error_response(id, error);
        self.take_reply(response)
    }

    /// The response to the batch, when all of its entries have been handled: the
    /// replies in their order. A batch of notifications only is not answered, and
    /// an empty one is an invalid request.
    pub fn finish(self) -> (response: MethodResponse)
        requires
            self.well_formed(),
        ensures
            jsonrpc::response_error_code(response) is None,
            jsonrpc::response_kind(response) == (if self.replies().len() == 0 && self.notified() {
                jsonrpc::ResponseKind::Notification
            } else {
                jsonrpc::ResponseKind::Batch
            }),
            jsonrpc::response_json(response) == (if self.replies().len() > 0 {
                batch_array(self.replies())
            } else if self.notified() {
                "null"@
            } else {
                jsonrpc::error_json(jsonrpc::IdModel::Null, jsonrpc::empty_batch())
            }),
    {
        proof {
            lemma_written(self.replies@);
        }
        if batch_is_empty(&self.builder) && self.got_notif {
            return notification_response();
        }
        finish_batch(self.builder)
    }
}

/// What is written down is the opening bracket alone just when there is no reply,
/// and otherwise longer, in characters and in bytes.
proof fn lemma_written(replies: Seq<Seq<char>>)
    ensures
        replies.len() == 0 ==> written(replies) == "["@ && jsonrpc::byte_length(written(replies))
            == 1,
        replies.len() > 0 ==> written(replies) != "["@ && written(replies).len() >= 2
            && jsonrpc::byte_length(written(replies)) > 1,
    decreases replies.len(),
{
    reveal_strlit("[");
    reveal_strlit(",");
    if replies.len() == 0 {
        assert(written(replies) =~= seq!['[']);
        lemma_bytes_at_least_chars(seq!['[']);
        reveal_with_fuel(vstd::utf8::encode_utf8, 2);
    } else {
        lemma_written(replies.drop_last());
        assert(written(replies).len() >= 2);
        lemma_bytes_at_least_chars(written(replies));
    }
}

/// Text takes at least one byte for each character.
proof fn lemma_bytes_at_least_chars(s: Seq<char>)
    ensures
        jsonrpc::byte_length(s) >= s.len(),
    decreases s.len(),
{
    reveal_with_fuel(vstd::utf8::encode_utf8, 1);
    if s.len() > 0 {
        lemma_bytes_at_least_chars(s.drop_first());
    }
}

/// Replies with a comma between any two of them.
pub open spec fn joined(replies: Seq<Seq<char>>) -> Seq<char>
    decreases replies.len(),
{
    if replies.len() == 0 {
        Seq::<char>::empty()
    } else if replies.len() == 1 {
        replies[0]
    } else {
        joined(replies.drop_last()) + ","@ + replies.last()
    }
}

/// The response to a batch is the JSON array of its replies, in their order.
pub proof fn law_batch_is_the_array_of_its_replies(replies: Seq<Seq<char>>)
    requires
        replies.len() > 0,
    ensures
        batch_array(replies) == "["@ + joined(replies) + "]"@,
    decreases replies.len(),
{
    reveal_strlit("[");
    reveal_strlit("]");
    reveal_strlit(",");
    let shorter = replies.drop_last();
    if replies.len() == 1 {
        assert(written(shorter) == "["@);
        assert(written(replies).drop_last() =~= "["@ + replies[0]);
    } else {
        law_batch_is_the_array_of_its_replies(shorter);
        lemma_written(shorter);
        lemma_written_ends_with_comma(shorter);
        assert(batch_array(shorter).drop_last() =~= written(shorter).drop_last());
        assert(("["@ + joined(shorter) + "]"@).drop_last() =~= "["@ + joined(shorter));
        assert(written(shorter) =~= written(shorter).drop_last() + ","@);
        assert(written(replies).drop_last() =~= written(shorter) + replies.last());
        assert(batch_array(replies) =~= "["@ + joined(replies) + "]"@);
    }
}

/// Every reply that is written down has a comma behind it.
proof fn lemma_written_ends_with_comma(replies: Seq<Seq<char>>)
    requires
        replies.len() > 0,
    ensures
        written(replies).len() > 0,
        written(replies).last() == ',',
{
    reveal_strlit(",");
}

/// A batch's response never takes more bytes than its limit, whatever its replies
/// are: a reply is only taken in when there is room for it.
pub proof fn law_batch_response_stays_within_limit(
    replies: Seq<Seq<char>>,
    reply: Seq<char>,
    limit: usize,
)
    requires
        limit < usize::MAX,
        has_room(replies, reply, limit),
    ensures
        jsonrpc::byte_length(batch_array(replies.push(reply))) <= limit,
{
    let longer = replies.push(reply);
    reveal_strlit("]");
    reveal_strlit(",");
    assert(longer.drop_last() =~= replies);
    assert(written(longer).drop_last() =~= written(replies) + reply);
    lemma_byte_length_adds(written(replies), reply);
    lemma_byte_length_adds(written(replies) + reply, "]"@);
    assert("]"@ =~= seq![']']);
    assert(seq![']'].drop_first() =~= Seq::<char>::empty());
    reveal_with_fuel(vstd::utf8::encode_utf8, 2);
}

/// The bytes of two texts add up.
proof fn lemma_byte_length_adds(s: Seq<char>, t: Seq<char>)
    ensures
        jsonrpc::byte_length(s + t) == jsonrpc::byte_length(s) + jsonrpc::byte_length(t),
    decreases s.len(),
{
    reveal_with_fuel(vstd::utf8::encode_utf8, 1);
    if s.len() == 0 {
        assert(s + t =~= t);
    } else {
        assert((s + t).drop_first() =~= s.drop_first() + t);
        lemma_byte_length_adds(s.drop_first(), t);
    }
}

/// The replies among the entries of a batch; a notification has none.
pub open spec fn replies_of(entries: Seq<Option<Seq<char>>>) -> Seq<Seq<char>>
    decreases entries.len(),
{
    if entries.len() == 0 {
        Seq::<Seq<char>>::empty()
    } else {
        match entries.last() {
            Some(reply) => replies_of(entries.drop_last()).push(reply),
            None => replies_of(entries.drop_last()),
        }
    }
}

/// A batch whose replies all fit holds one reply for each entry that has one, in
/// the order of the entries, and nothing for its notifications.
pub proof fn law_batch_keeps_the_order_of_its_entries(
    runs: Seq<BatchRun>,
    entries: Seq<Option<Seq<char>>>,
    actions: Seq<BatchAction>,
)
    requires
        runs.len() == entries.len() + 1,
        actions.len() == entries.len(),
        runs[0].replies() == Seq::<Seq<char>>::empty(),
        forall|i: int|
            0 <= i < entries.len() ==> match entries[i] {
                Some(reply) => takes(runs[i], reply, #[trigger] actions[i], runs[i + 1])
                    && actions[i] is Next,
                None => takes_notification(runs[i], actions[i], runs[i + 1]),
            },
    ensures
        runs.last().replies() == replies_of(entries),
    decreases entries.len(),
{
    if entries.len() > 0 {
        let n = entries.len() - 1;
        assert(runs.drop_last().last() == runs[n]);
        assert(runs.drop_last()[0] == runs[0]);
        assert forall|i: int| 0 <= i < n implies match entries.drop_last()[i] {
            Some(reply) => takes(
                runs.drop_last()[i],
                reply,
                #[trigger] actions.drop_last()[i],
                runs.drop_last()[i + 1],
            ) && actions.drop_last()[i] is Next,
            None => takes_notification(
                runs.drop_last()[i],
                actions.drop_last()[i],
                runs.drop_last()[i + 1],
            ),
        } by {
            assert(actions.drop_last()[i] == actions[i]);
            assert(entries.drop_last()[i] == entries[i]);
            assert(runs.drop_last()[i] == runs[i]);
            assert(runs.drop_last()[i + 1] == runs[i + 1]);
        }
        law_batch_keeps_the_order_of_its_entries(
            runs.drop_last(),
            entries.drop_last(),
            actions.drop_last(),
        );
        assert(actions[n] == actions.last());
        assert(runs[n + 1] == runs.last());
    }
}

/// A reply is taken in just when the array of all replies, with this one at its end, stays
/// within the limit; it then stands behind the others. Otherwise the batch ends with an
/// error, and the replies stay as they were.
pub proof fn law_reply_is_taken_in_just_when_it_fits(
    before: BatchRun,
    reply: Seq<char>,
    action: BatchAction,
    after: BatchRun,
)
    requires
        takes(before, reply, action, after),
    ensures
        ({
            let array = "["@ + joined(before.replies().push(reply)) + "]"@;
            if before.limit() == usize::MAX || jsonrpc::byte_length(array) <= before.limit() {
                action is Next && after.replies() == before.replies().push(reply)
            } else {
                &&& action matches BatchAction::Done(response)
                &&& jsonrpc::response_error_code(response) == Some(-32011i32)
                &&& after.replies() == before.replies()
            }
        }),
        after.notified() == before.notified(),
        after.limit() == before.limit(),
{
    let replies = before.replies();
    lemma_array_bytes(replies, reply);
    law_batch_is_the_array_of_its_replies(replies.push(reply));
}

/// The array with one more reply takes the bytes written so far, those of the reply,
/// and one for the closing bracket.
proof fn lemma_array_bytes(replies: Seq<Seq<char>>, reply: Seq<char>)
    ensures
        jsonrpc::byte_length(batch_array(replies.push(reply))) == jsonrpc::byte_length(
            written(replies),
        ) + jsonrpc::byte_length(reply) + 1,
{
    let longer = replies.push(reply);
    reveal_strlit("]");
    reveal_strlit(",");
    assert(longer.drop_last() =~= replies);
    assert(written(longer).drop_last() =~= written(replies) + reply);
    lemma_byte_length_adds(written(replies), reply);
    lemma_byte_length_adds(written(replies) + reply, "]"@);
    assert("]"@ =~= seq![']']);
    assert(seq![']'].drop_first() =~= Seq::<char>::empty());
    reveal_with_fuel(vstd::utf8::encode_utf8, 2);
}

/// A notification is handed to the service behind and remembered, and a request that passes
/// is handed there too; neither adds a reply nor changes the limit.
pub proof fn law_what_is_handed_on_leaves_no_reply(
    before: BatchRun,
    action: BatchAction,
    after: BatchRun,
)
    ensures
        takes_notification(before, action, after) ==> action is NotifyInner && after.notified()
            && after.replies() == before.replies() && after.limit() == before.limit(),
        forwards(before, action, after) ==> action is CallInner && after.notified()
            == before.notified() && after.replies() == before.replies() && after.limit()
            == before.limit(),
{
}

/// A batch that is rejected is told its size first and the limit behind it.
pub proof fn law_rejected_batch_is_told_its_size(size: nat, limit: nat)
    ensures
        batch_too_large_message(size, limit) == "batch size "@ + text::decimal(size)
            + " exceeds limit of "@ + text::decimal(limit),
{
}

} // verus!
