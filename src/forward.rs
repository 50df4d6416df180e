//! The forwarder: the outbound calls it makes, the decisions on what comes
//! back, and the normalizer of the two response shapes.
use vstd::prelude::*;
use vstd::string::*;
use crate::endpoint::{endpoint_ok, hostless, missing_host, opt_text, parse_endpoint, tags_url, tags_url_of};
use crate::error::ProxyError;
use crate::sse::SseReframer;

verus! {

/// A JSON value, carried through to the upstream untouched.
#[verifier::external_type_specification]
#[verifier::external_body]
pub struct ExJsonValue(serde_json::Value);

/// One message of a conversation.
#[derive(Debug)]
pub struct ChatMessage {
    pub role: String,
    pub content: serde_json::Value,
    pub images: Option<Vec<String>>,
}

/// A chat request, sent to the upstream as it stands.
#[derive(Debug)]
pub struct ChatRequest {
    pub model: String,
    pub messages: Vec<ChatMessage>,
    pub stream: bool,
    pub options: Option<serde_json::Value>,
}

/// `message` of a response, or of one of its choices.
#[derive(Clone, Debug)]
pub struct Message {
    pub content: Option<String>,
}

/// `delta` of a streamed choice.
#[derive(Clone, Debug)]
pub struct Delta {
    pub content: Option<String>,
}

/// One entry of `choices`.
#[derive(Clone, Debug)]
pub struct Choice {
    pub delta: Option<Delta>,
    pub message: Option<Message>,
}

/// A non-stream response, in either shape: `choices[].message` or a single
/// top-level `message`.
#[derive(Clone, Debug)]
pub struct ChatResponse {
    pub choices: Option<Vec<Choice>>,
    pub message: Option<Message>,
}

/// `choices[0].message.content`, where present.
pub open spec fn first_choice_content(r: ChatResponse) -> Option<Seq<char>> {
    match r.choices {
        Some(cs) => if cs@.len() > 0 {
            match cs@[0].message {
                Some(m) => match m.content {
                    Some(c) => Some(c@),
                    None => None,
                },
                None => None,
            }
        } else {
            None
        },
        None => None,
    }
}

/// `message.content`, where present.
pub open spec fn top_message_content(r: ChatResponse) -> Option<Seq<char>> {
    match r.message {
        Some(m) => match m.content {
            Some(c) => Some(c@),
            None => None,
        },
        None => None,
    }
}

/// Which of the two known shapes a response has populated.
#[derive(Clone, Copy, Debug, PartialEq, Eq, Structural)]
pub enum ResponseShape {
    /// `choices[0].message.content` is present.
    OpenAiStyle,
    /// It is not, but the top-level `message.content` is.
    SingleMessageStyle,
    /// Neither is.
    Unrecognized,
}

pub open spec fn shape_of(r: ChatResponse) -> ResponseShape {
    if first_choice_content(r) is Some {
        ResponseShape::OpenAiStyle
    } else if top_message_content(r) is Some {
        ResponseShape::SingleMessageStyle
    } else {
        ResponseShape::Unrecognized
    }
}

/// The text of a response: `choices[0].message.content`, else
/// `message.content`, else empty.
pub open spec fn content_of(r: ChatResponse) -> Seq<char> {
    match shape_of(r) {
        ResponseShape::OpenAiStyle => first_choice_content(r)->Some_0,
        ResponseShape::SingleMessageStyle => top_message_content(r)->Some_0,
        ResponseShape::Unrecognized => Seq::<char>::empty(),
    }
}

fn message_text(m: &Option<Message>) -> (r: Option<String>)
    ensures
        r is Some <==> (m is Some && m->Some_0.content is Some),
        r matches Some(t) ==> t@ == m->Some_0.content->Some_0@,
{
    match m {
        Some(msg) => match &msg.content {
            Some(c) => Some(c.clone()),
            None => None,
        },
        None => None,
    }
}

fn first_choice_text(resp: &ChatResponse) -> (r: Option<String>)
    ensures
        opt_text(r) == first_choice_content(*resp),
{
    match &resp.choices {
        Some(cs) => if cs.len() > 0 {
            message_text(&cs[0].message)
        } else {
            None
        },
        None => None,
    }
}

/// Tells the shape of a response by probing its fields.
pub fn response_shape(resp: &ChatResponse) -> (r: ResponseShape)
    ensures
        r == shape_of(*resp),
{
    if first_choice_text(resp).is_some() {
        ResponseShape::OpenAiStyle
    } else if message_text(&resp.message).is_some() {
        ResponseShape::SingleMessageStyle
    } else {
        ResponseShape::Unrecognized
    }
}

/// Extracts the text of a non-stream response.
pub fn extract_content(resp: &ChatResponse) -> (r: String)
    ensures
        r@ == content_of(*resp),
{
    match first_choice_text(resp) {
        Some(c) => c,
        None => match message_text(&resp.message) {
            Some(c) => c,
            None => String::new(),
        },
    }
}

/// Whether an HTTP status is a success (2xx).
pub open spec fn success_status(status: u16) -> bool {
    200 <= status && status <= 299
}

pub fn is_success_status(status: u16) -> (r: bool)
    ensures
        r == success_status(status),
{
    200 <= status && status <= 299
}

/// The body text reported when the error body could not be read.
pub open spec fn unreadable_body() -> Seq<char> {
    "Failed to read error response"@
}

/// `e` reports a non-success `status` with the body text where it could be
/// read.
pub open spec fn is_upstream_error(e: ProxyError, status: u16, body: Option<String>) -> bool {
    &&& e is Upstream
    &&& e->Upstream_status == status
    &&& e->Upstream_body@ == match body {
        Some(t) => t@,
        None => unreadable_body(),
    }
}

/// The error for a non-success status.
pub fn upstream_error(status: u16, body: Option<String>) -> (r: ProxyError)
    ensures
        is_upstream_error(r, status, body),
{
    let text = match body {
        Some(t) => t,
        None => String::from_str("Failed to read error response"),
    };
    ProxyError::Upstream { status, body: text }
}

/// The outcome of a non-stream chat call from what the upstream sent back:
/// the status, the error body where the status is no success, and the
/// decoded body (or the decoder's message) where it is.
pub fn chat_outcome(
    status: u16,
    error_body: Option<String>,
    decoded: Result<ChatResponse, String>,
) -> (r: Result<String, ProxyError>)
    ensures
        !success_status(status) ==> r is Err && is_upstream_error(r->Err_0, status, error_body),
        success_status(status) ==> match decoded {
            Ok(resp) => r is Ok && r->Ok_0@ == content_of(resp),
            Err(m) => r is Err && r->Err_0 is Decode && r->Err_0->Decode_0@ == m@,
        },
{
    if !is_success_status(status) {
        return Err(upstream_error(status, error_body));
    }
    match decoded {
        Ok(resp) => Ok(extract_content(&resp)),
        Err(m) => Err(ProxyError::Decode(m)),
    }
}

/// The header that carries a bearer key.
pub open spec fn bearer_of(key: Seq<char>) -> (Seq<char>, Seq<char>) {
    ("Authorization"@, "Bearer "@ + key)
}

/// The headers of an outbound call: JSON content, and the bearer key where
/// one is given.
pub open spec fn headers_for(key: Option<Seq<char>>) -> Seq<(Seq<char>, Seq<char>)> {
    let base = seq![("Content-Type"@, "application/json"@)];
    match key {
        Some(k) => base.push(bearer_of(k)),
        None => base,
    }
}

/// The characters of each header name and value.
pub open spec fn header_texts(h: Seq<(String, String)>) -> Seq<(Seq<char>, Seq<char>)> {
    h.map_values(|p: (String, String)| (p.0@, p.1@))
}

/// Builds the headers of an outbound call.
pub fn outbound_headers(api_key: Option<String>) -> (r: Vec<(String, String)>)
    ensures
        header_texts(r@) == headers_for(opt_text(api_key)),
{
    let mut h: Vec<(String, String)> = Vec::new();
    h.push((String::from_str("Content-Type"), String::from_str("application/json")));
    match api_key {
        Some(k) => {
            h.push((String::from_str("Authorization"), String::from_str("Bearer ").concat(k.as_str())));
        },
        None => {},
    }
    assert(header_texts(h@) =~= headers_for(opt_text(api_key)));
    h
}

/// Seconds allowed for a chat call, streamed or not.
pub const CHAT_TIMEOUT_SECS: u64 = 300;

/// Seconds allowed for a model-list call.
pub const LIST_TIMEOUT_SECS: u64 = 30;

/// An outbound POST of a chat request.
pub struct ChatCall {
    pub url: String,
    pub headers: Vec<(String, String)>,
    pub timeout_secs: u64,
    pub body: ChatRequest,
}

/// `r` is the planned call for a chat request to `endpoint`: refused with
/// `InvalidEndpoint` where the endpoint is no URL with a host, else a POST
/// to it with the request as body.
pub open spec fn chat_call_result(
    endpoint: Seq<char>,
    key: Option<Seq<char>>,
    request: ChatRequest,
    r: Result<ChatCall, ProxyError>,
) -> bool {
    &&& r is Ok <==> endpoint_ok(endpoint)
    &&& r is Err ==> r->Err_0 is InvalidEndpoint
    &&& hostless(endpoint) ==> r is Err && r->Err_0->InvalidEndpoint_0@ == missing_host()
    &&& r is Ok ==> {
        &&& r->Ok_0.url@ == endpoint
        &&& header_texts(r->Ok_0.headers@) == headers_for(key)
        &&& r->Ok_0.timeout_secs == CHAT_TIMEOUT_SECS
        &&& r->Ok_0.body == request
    }
}

/// Plans the outbound call for a chat request, after checking the endpoint.
pub fn chat_call(api_endpoint: String, api_key: Option<String>, request: ChatRequest) -> (r: Result<
    ChatCall,
    ProxyError,
>)
    ensures
        chat_call_result(api_endpoint@, opt_text(api_key), request, r),
{
    let _checked = parse_endpoint(api_endpoint.as_str())?;
    let headers = outbound_headers(api_key);
    Ok(ChatCall { url: api_endpoint, headers, timeout_secs: CHAT_TIMEOUT_SECS, body: request })
}

/// An outbound GET of the model list.
pub struct ModelsCall {
    pub url: String,
    pub headers: Vec<(String, String)>,
    pub timeout_secs: u64,
}

/// `r` is the planned call that lists the models of `endpoint`: refused with
/// `InvalidEndpoint` where the endpoint is no URL with a host, else a GET of
/// the endpoint's model-list URL.
pub open spec fn models_call_result(
    endpoint: Seq<char>,
    key: Option<Seq<char>>,
    r: Result<ModelsCall, ProxyError>,
) -> bool {
    &&& r is Ok <==> endpoint_ok(endpoint)
    &&& r is Err ==> r->Err_0 is InvalidEndpoint
    &&& hostless(endpoint) ==> r is Err && r->Err_0->InvalidEndpoint_0@ == missing_host()
    &&& r is Ok ==> {
        &&& r->Ok_0.url@ == tags_url_of(endpoint)
        &&& header_texts(r->Ok_0.headers@) == headers_for(key)
        &&& r->Ok_0.timeout_secs == LIST_TIMEOUT_SECS
    }
}

/// Plans the outbound call that lists the models of an endpoint.
pub fn models_call(api_endpoint: &str, api_key: Option<String>) -> (r: Result<ModelsCall, ProxyError>)
    ensures
        models_call_result(api_endpoint@, opt_text(api_key), r),
{
    let url = tags_url(api_endpoint)?;
    let headers = outbound_headers(api_key);
    Ok(ModelsCall { url, headers, timeout_secs: LIST_TIMEOUT_SECS })
}

/// The start of a streamed chat call from the upstream's status: a fresh
/// re-framer on success, else the upstream error with the body text where it
/// could be read.
pub fn stream_outcome(status: u16, error_body: Option<String>) -> (r: Result<SseReframer, ProxyError>)
    ensures
        r is Ok <==> success_status(status),
        r matches Ok(s) ==> s.pending() == Seq::<u8>::empty() && !s.is_ended(),
        !success_status(status) ==> r is Err && is_upstream_error(r->Err_0, status, error_body),
{
    if !is_success_status(status) {
        return Err(upstream_error(status, error_body));
    }
    Ok(SseReframer::new())
}

} // verus!
