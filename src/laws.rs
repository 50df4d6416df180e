//! Properties that relate several operations of the engine, proved from
//! their contracts.
use vstd::prelude::*;
use actix_web::dev::ServerHandle;
use crate::endpoint::url_parts;
use crate::error::{error_message, ProxyError};
use crate::forward::{
    chat_call_result, content_of, first_choice_content, is_upstream_error, models_call_result,
    top_message_content, unreadable_body, ChatCall, ChatRequest, ChatResponse, ModelsCall,
};
use crate::consumer::{stepped, ConsumerAction, StreamConsumer};
use crate::proxy::{recorded, took_running, ProxyState};
use crate::registry::{cancelled, StreamRegistry};
use crate::text::decimal;

verus! {

/// `t` occurs in `s` at position `i`.
pub open spec fn occurs_at(s: Seq<char>, t: Seq<char>, i: int) -> bool {
    0 <= i && i + t.len() <= s.len() && s.subrange(i, i + t.len()) == t
}

/// A response whose first choice holds a message with text gives exactly that
/// text.
pub proof fn law_choice_text_is_returned(r: ChatResponse)
    requires
        first_choice_content(r) is Some,
    ensures
        content_of(r) == first_choice_content(r)->Some_0,
{
}

/// A response without `choices` whose top-level message holds text gives
/// exactly that text.
pub proof fn law_message_text_is_returned(r: ChatResponse)
    requires
        r.choices is None,
        top_message_content(r) is Some,
    ensures
        content_of(r) == top_message_content(r)->Some_0,
{
}

/// A response with neither shape populated gives the empty text.
pub proof fn law_unrecognized_response_is_empty(r: ChatResponse)
    requires
        first_choice_content(r) is None,
        top_message_content(r) is None,
    ensures
        content_of(r) == Seq::<char>::empty(),
{
}

/// The message of an upstream error names the status code and then the
/// body text (or the placeholder where the body was unreadable).
pub proof fn law_upstream_message_names_status_and_body(
    e: ProxyError,
    status: u16,
    body: Option<String>,
)
    requires
        is_upstream_error(e, status, body),
    ensures
        occurs_at(error_message(e), decimal(status as nat), 11),
        ({
            let b = match body {
                Some(t) => t@,
                None => unreadable_body(),
            };
            occurs_at(error_message(e), b, error_message(e).len() - b.len())
        }),
{
    let m = error_message(e);
    let d = decimal(status as nat);
    let b = e->Upstream_body@;
    assert("API error: "@.len() == 11) by {
        reveal_strlit("API error: ");
    }
    assert(m == "API error: "@ + d + " - "@ + b);
    assert(m.subrange(11, 11 + d.len() as int) =~= d);
    assert(m.subrange(m.len() - b.len(), m.len() as int) =~= b);
}

/// Once an active stream is cancelled, looking its id up fails, and every
/// other stream stays active with the token it had.
pub proof fn law_cancelled_stream_is_gone(
    before: StreamRegistry,
    after: StreamRegistry,
    id: Seq<char>,
    found: bool,
)
    requires
        before.active().contains(id),
        cancelled(before, after, id, found),
    ensures
        found,
        !after.active().contains(id),
        forall|x: Seq<char>| x != id && before.active().contains(x) ==> after.active().contains(x)
            && after.token_of(x) == before.token_of(x),
{
    assert forall|x: Seq<char>| x != id && before.active().contains(x) implies after.active().contains(
        x,
    ) && after.token_of(x) == before.token_of(x) by {
        assert(after.active().contains(x));
        assert(after.token_of(x) == before.token_of(x));
    }
}

/// Once a running consumer finds its token cancelled, it emits nothing for that item
/// nor for any later one, and its stream is no longer active.
pub proof fn law_cancelled_consumer_emits_nothing_more(
    c0: StreamConsumer,
    c1: StreamConsumer,
    c2: StreamConsumer,
    item: Option<Result<String, String>>,
    later_cancelled: bool,
    later_item: Option<Result<String, String>>,
    a0: Set<Seq<char>>,
    a1: Set<Seq<char>>,
    a2: Set<Seq<char>>,
    r1: ConsumerAction,
    r2: ConsumerAction,
)
    requires
        !c0.is_done(),
        stepped(c0, c1, true, item, a0, a1, r1),
        stepped(c1, c2, later_cancelled, later_item, a1, a2, r2),
    ensures
        r1 is Stop,
        r2 is Stop,
        !a1.contains(c0.id()),
        !a2.contains(c0.id()),
        c2.transcript_text() == c0.transcript_text(),
{
}

/// Cancelling an id that is not active finds nothing and leaves the
/// registry as it was.
pub proof fn law_cancel_unknown_changes_nothing(
    before: StreamRegistry,
    after: StreamRegistry,
    id: Seq<char>,
    found: bool,
)
    requires
        !before.active().contains(id),
        cancelled(before, after, id, found),
    ensures
        !found,
        after == before,
{
}

/// A second cancel of the same id finds nothing and changes nothing.
pub proof fn law_second_cancel_changes_nothing(
    start: StreamRegistry,
    once: StreamRegistry,
    twice: StreamRegistry,
    id: Seq<char>,
    first: bool,
    second: bool,
)
    requires
        cancelled(start, once, id, first),
        cancelled(once, twice, id, second),
    ensures
        !second,
        twice == once,
{
}

/// Enabling the server twice: the first enable stops whatever ran and binds
/// `first_port`; the second takes out exactly the first server to stop it,
/// nothing is bound in between, and only `second_port` stays bound.
pub proof fn law_second_enable_replaces_first(
    start: ProxyState,
    taken_first: ProxyState,
    bound_first: ProxyState,
    taken_second: ProxyState,
    bound_second: ProxyState,
    stopped_first: Option<ServerHandle>,
    stopped_second: Option<ServerHandle>,
    first: ServerHandle,
    first_port: u16,
    second: ServerHandle,
    second_port: u16,
)
    requires
        took_running(start, taken_first, stopped_first),
        recorded(bound_first, first, first_port),
        took_running(bound_first, taken_second, stopped_second),
        recorded(bound_second, second, second_port),
    ensures
        stopped_second == Some(first),
        taken_second.bound() is None,
        bound_second.bound() == Some(second_port),
        bound_second.handle() == Some(second),
{
}

/// An endpoint that does not parse is refused with `InvalidEndpoint` both by
/// the forwarder and by the model lister.
pub proof fn law_malformed_endpoint_is_refused(
    endpoint: Seq<char>,
    key: Option<Seq<char>>,
    request: ChatRequest,
    chat: Result<ChatCall, ProxyError>,
    models: Result<ModelsCall, ProxyError>,
)
    requires
        url_parts(endpoint) is None,
        chat_call_result(endpoint, key, request, chat),
        models_call_result(endpoint, key, models),
    ensures
        chat is Err && chat->Err_0 is InvalidEndpoint,
        models is Err && models->Err_0 is InvalidEndpoint,
{
}

} // verus!
