use neox::consumer::{resolve_stream_id, ConsumerAction, StreamConsumer};
use neox::endpoint::{parse_endpoint, tags_url, tags_url_for, Endpoint};
use neox::error::{ProxyError, StreamError};
use neox::forward::{
    chat_call, chat_outcome, extract_content, is_success_status, models_call, outbound_headers,
    stream_outcome, upstream_error, response_shape, ChatMessage, ChatRequest, ChatResponse, Choice, Delta, Message,
    ResponseShape,
};
use neox::models::{model_names, models_outcome, OllamaModel, OllamaTagsResponse};
use neox::proxy::{bind_address, bind_error, target_port, ProxyState};
use neox::registry::StreamRegistry;
use neox::sse::{classify_line, reframe_line, LineDecoder, LineKind, SseReframer};
use neox::text::{decimal_text, same_text, trim_text};

fn msg(text: Option<&str>) -> Option<Message> {
    Some(Message { content: text.map(|t| t.to_string()) })
}

fn choice(text: Option<&str>) -> Choice {
    Choice { delta: None, message: msg(text) }
}

fn request() -> ChatRequest {
    ChatRequest {
        model: "llama3".to_string(),
        messages: vec![ChatMessage {
            role: "user".to_string(),
            content: serde_json::Value::String("hi".to_string()),
            images: None,
        }],
        stream: false,
        options: None,
    }
}

fn drain(r: &mut SseReframer) -> Vec<Result<String, String>> {
    let mut out = Vec::new();
    while let Some(item) = r.pull() {
        match item {
            Ok(chunks) => out.extend(chunks.into_iter().map(Ok)),
            Err(e) => out.push(Err(e)),
        }
    }
    out
}

#[test]
fn choices_shape_gives_message_content() {
    let resp = ChatResponse { choices: Some(vec![choice(Some("X"))]), message: None };
    assert_eq!(extract_content(&resp), "X");
    let both = ChatResponse { choices: Some(vec![choice(Some("first"))]), message: msg(Some("top")) };
    assert_eq!(extract_content(&both), "first");
}

#[test]
fn single_message_shape_gives_content() {
    let resp = ChatResponse { choices: None, message: msg(Some("X")) };
    assert_eq!(extract_content(&resp), "X");
}

#[test]
fn empty_choices_fall_back_to_message() {
    let resp = ChatResponse { choices: Some(vec![]), message: msg(Some("top")) };
    assert_eq!(extract_content(&resp), "top");
    let delta_only = ChatResponse {
        choices: Some(vec![Choice { delta: Some(Delta { content: Some("d".to_string()) }), message: None }]),
        message: None,
    };
    assert_eq!(extract_content(&delta_only), "");
}

#[test]
fn unrecognized_shape_gives_empty_text() {
    let resp = ChatResponse { choices: None, message: None };
    assert_eq!(chat_outcome(200, None, Ok(resp)), Ok(String::new()));
    let no_content = ChatResponse { choices: Some(vec![choice(None)]), message: msg(None) };
    assert_eq!(extract_content(&no_content), "");
}

#[test]
fn chat_outcome_on_success_extracts_text() {
    let resp = ChatResponse { choices: Some(vec![choice(Some("hello"))]), message: None };
    assert_eq!(chat_outcome(204, None, Ok(resp)), Ok("hello".to_string()));
}

#[test]
fn chat_outcome_reports_decode_error() {
    let r = chat_outcome(200, None, Err("expected value".to_string()));
    assert_eq!(r, Err(ProxyError::Decode("expected value".to_string())));
    assert_eq!(r.unwrap_err().message(), "Failed to parse response: expected value");
}

#[test]
fn non_success_status_reports_code_and_body() {
    let resp = ChatResponse { choices: None, message: msg(Some("ignored")) };
    let r = chat_outcome(404, Some("no such model".to_string()), Ok(resp));
    let e = r.unwrap_err();
    assert_eq!(e, ProxyError::Upstream { status: 404, body: "no such model".to_string() });
    assert_eq!(e.message(), "API error: 404 - no such model");
}

#[test]
fn unreadable_error_body_uses_placeholder() {
    let e = upstream_error(503, None);
    assert_eq!(e.message(), "API error: 503 - Failed to read error response");
    match stream_outcome(500, Some("boom".to_string())) {
        Err(e) => assert_eq!(e.message(), "API error: 500 - boom"),
        Ok(_) => panic!("a 500 must not start a stream"),
    }
    assert!(stream_outcome(200, None).is_ok());
}

#[test]
fn success_status_range() {
    assert!(!is_success_status(199));
    assert!(is_success_status(200));
    assert!(is_success_status(299));
    assert!(!is_success_status(300));
}

#[test]
fn sse_reframing_scenario() {
    let mut r = SseReframer::new();
    r.push(b"data: {\"a\":1}\n\n: comment\n[DONE]\n");
    let out = drain(&mut r);
    let expected: Vec<Result<String, String>> = vec![
        Ok("data: {\"a\":1}\n".to_string()),
        Ok("\n".to_string()),
        Ok("\n".to_string()),
        Ok("data: [DONE]\n".to_string()),
        Ok("\n".to_string()),
    ];
    assert_eq!(out, expected);
    assert!(r.ended());
    r.push(b"data: late\n");
    assert!(r.pull().is_none());
    assert!(r.finish().is_none());
}

#[test]
fn sse_lines_split_across_chunks() {
    let mut r = SseReframer::new();
    r.push(b"data: hel");
    assert!(r.pull().is_none());
    r.push(b"lo\r\nda");
    assert_eq!(drain(&mut r), vec![Ok("data: hello\n".to_string()), Ok("\n".to_string())]);
    r.push(b"ta: tail");
    assert!(r.pull().is_none());
    assert_eq!(r.finish(), Some(Ok(vec!["data: tail\n".to_string(), "\n".to_string()])));
    assert!(r.ended());
}

#[test]
fn sse_stream_ends_cleanly_without_sentinel() {
    let mut r = SseReframer::new();
    r.push(b"data: x\n");
    assert_eq!(drain(&mut r).len(), 2);
    assert!(r.finish().is_none());
    assert!(r.ended());
}

#[test]
fn sse_invalid_utf8_is_an_error_item() {
    let mut r = SseReframer::new();
    r.push(&[0x64, 0xff, 0x0a, 0x61, 0x0a]);
    assert_eq!(drain(&mut r), vec![Err("stream did not contain valid UTF-8".to_string())]);
    assert!(r.ended());
}

#[test]
fn line_decoder_strips_newline_and_carriage_return() {
    let mut d = LineDecoder::new();
    d.push(b"a\r\nb\n\r\n");
    assert_eq!(d.next_line(), Some(b"a".to_vec()));
    assert_eq!(d.next_line(), Some(b"b".to_vec()));
    assert_eq!(d.next_line(), Some(Vec::new()));
    assert_eq!(d.next_line(), None);
    d.push(b"rest\r");
    assert_eq!(d.next_line(), None);
    assert_eq!(d.finish(), Some(b"rest\r".to_vec()));
    assert_eq!(d.finish(), None);
}

#[test]
fn line_classification() {
    assert_eq!(classify_line(""), LineKind::Blank);
    assert_eq!(classify_line(" \t\u{3000}"), LineKind::Blank);
    assert_eq!(classify_line("  : keep-alive"), LineKind::Comment);
    assert_eq!(classify_line(" [DONE] "), LineKind::Done);
    assert_eq!(classify_line("data: [DONE]"), LineKind::Data);
    assert_eq!(reframe_line(": c"), Vec::<String>::new());
    assert_eq!(reframe_line(" [DONE]"), vec!["data: [DONE]\n".to_string(), "\n".to_string()]);
    assert_eq!(reframe_line("  x "), vec!["  x \n".to_string(), "\n".to_string()]);
}

#[test]
fn text_helpers() {
    assert_eq!(decimal_text(0), "0");
    assert_eq!(decimal_text(8080), "8080");
    assert_eq!(decimal_text(18446744073709551615), "18446744073709551615");
    assert_eq!(trim_text("\u{a0} a b \n"), "a b");
    assert_eq!(trim_text("   "), "");
    assert!(same_text("abc", "abc"));
    assert!(!same_text("abc", "abd"));
    assert!(!same_text("abc", "ab"));
}

#[test]
fn cancel_active_stream_removes_it() {
    let mut reg = StreamRegistry::new();
    let token = reg.open("s1".to_string());
    assert!(reg.contains("s1"));
    assert!(!token.is_cancelled());
    assert!(reg.cancel("s1"));
    assert!(token.is_cancelled());
    assert!(!reg.contains("s1"));
    assert!(!reg.cancel("s1"));
}

#[test]
fn cancel_unknown_stream_changes_nothing() {
    let mut reg = StreamRegistry::new();
    let token = reg.open("a".to_string());
    assert!(!reg.cancel("b"));
    assert!(reg.contains("a"));
    assert!(!token.is_cancelled());
}

#[test]
fn reopening_an_id_keeps_one_entry() {
    let mut reg = StreamRegistry::new();
    let first = reg.open("x".to_string());
    let second = reg.open("x".to_string());
    assert!(reg.remove("x").is_some());
    assert!(!reg.contains("x"));
    assert!(!first.is_cancelled());
    assert!(!second.is_cancelled());
}

#[test]
fn consumer_forwards_chunks_and_cleans_up() {
    let mut reg = StreamRegistry::new();
    let _token = reg.open("id7".to_string());
    let mut c = StreamConsumer::new("id7".to_string());
    match c.step(false, Some(Ok("data: a\n".to_string())), &mut reg) {
        ConsumerAction::Emit { event, payload } => {
            assert_eq!(event, "stream-id7");
            assert_eq!(payload, "data: a\n");
        }
        other => panic!("unexpected {:?}", other),
    }
    assert!(reg.contains("id7"));
    assert!(matches!(c.step(false, Some(Ok("\n".to_string())), &mut reg), ConsumerAction::Emit { .. }));
    assert_eq!(c.transcript(), "data: a\n\n");
    assert!(matches!(c.step(false, None, &mut reg), ConsumerAction::Stop));
    assert!(c.is_finished());
    assert!(!reg.contains("id7"));
    assert!(matches!(c.step(false, Some(Ok("late".to_string())), &mut reg), ConsumerAction::Stop));
}

#[test]
fn consumer_stops_after_cancellation() {
    let mut reg = StreamRegistry::new();
    let token = reg.open("s".to_string());
    let mut c = StreamConsumer::new("s".to_string());
    assert!(reg.cancel("s"));
    assert!(!reg.contains("s"));
    let action = c.step(token.is_cancelled(), Some(Ok("chunk".to_string())), &mut reg);
    assert!(matches!(action, ConsumerAction::Stop));
    assert_eq!(c.transcript(), "");
    assert!(matches!(c.step(false, Some(Ok("more".to_string())), &mut reg), ConsumerAction::Stop));
}

#[test]
fn consumer_reports_error_and_cleans_up() {
    let mut reg = StreamRegistry::new();
    let _token = reg.open("e".to_string());
    let mut c = StreamConsumer::new("e".to_string());
    match c.step(false, Some(Err("reset".to_string())), &mut reg) {
        ConsumerAction::EmitError { event, message } => {
            assert_eq!(event, "stream-error-e");
            assert_eq!(message, "reset");
        }
        other => panic!("unexpected {:?}", other),
    }
    assert!(!reg.contains("e"));
    assert!(c.is_finished());
}

#[test]
fn stream_id_resolution() {
    assert_eq!(resolve_stream_id(Some("mine".to_string())), "mine");
    let a = resolve_stream_id(None);
    let b = resolve_stream_id(None);
    assert_eq!(a.len(), 36);
    assert_ne!(a, b);
}

#[test]
fn tags_url_drops_path() {
    assert_eq!(tags_url("http://host:9999/v1/extra/path"), Ok("http://host:9999/api/tags".to_string()));
    assert_eq!(tags_url("https://api.example.com/v1?x=1"), Ok("https://api.example.com/api/tags".to_string()));
    assert_eq!(tags_url("http://localhost:80/x"), Ok("http://localhost/api/tags".to_string()));
}

#[test]
fn malformed_endpoint_is_invalid() {
    let e = tags_url("not a url").unwrap_err();
    assert!(matches!(e, ProxyError::InvalidEndpoint(_)));
    assert!(e.message().starts_with("Invalid API endpoint URL: "));
    assert!(matches!(chat_call("not a url".to_string(), None, request()), Err(ProxyError::InvalidEndpoint(_))));
    assert!(matches!(models_call("::", None), Err(ProxyError::InvalidEndpoint(_))));
}

#[test]
fn hostless_endpoint_is_invalid() {
    let e = parse_endpoint("mailto:someone@example.com").unwrap_err();
    assert_eq!(e, ProxyError::InvalidEndpoint("Missing host".to_string()));
}

#[test]
fn chat_call_plans_post() {
    let call = chat_call("http://h:1/v1/chat".to_string(), Some("k1".to_string()), request()).unwrap();
    assert_eq!(call.url, "http://h:1/v1/chat");
    assert_eq!(call.timeout_secs, 300);
    assert_eq!(call.body.model, "llama3");
    assert_eq!(
        call.headers,
        vec![
            ("Content-Type".to_string(), "application/json".to_string()),
            ("Authorization".to_string(), "Bearer k1".to_string()),
        ]
    );
}

#[test]
fn models_call_plans_get() {
    let call = models_call("http://h:11434/v1", None).unwrap();
    assert_eq!(call.url, "http://h:11434/api/tags");
    assert_eq!(call.timeout_secs, 30);
    assert_eq!(outbound_headers(None), call.headers);
}

#[test]
fn model_names_keep_order() {
    let m = |n: &str| OllamaModel { name: n.to_string(), modified_at: None, size: Some(1) };
    let tags = OllamaTagsResponse { models: vec![m("b"), m("a"), m("c")] };
    assert_eq!(model_names(tags.clone()), vec!["b", "a", "c"]);
    assert_eq!(models_outcome(200, None, Ok(tags)), Ok(vec!["b".to_string(), "a".to_string(), "c".to_string()]));
    assert_eq!(
        models_outcome(401, Some("denied".to_string()), Err("x".to_string())).unwrap_err().message(),
        "API error: 401 - denied"
    );
}

#[test]
fn proxy_defaults_and_errors() {
    assert_eq!(target_port(None), 8080);
    assert_eq!(target_port(Some(9000)), 9000);
    assert_eq!(bind_address(8080), "127.0.0.1:8080");
    let e = bind_error(80, "permission denied".to_string());
    assert_eq!(e.message(), "Failed to bind HTTP server to port 80: permission denied");
    let mut state = ProxyState::new();
    assert_eq!(state.bound_port(), None);
    assert!(state.take_running().is_none());
}

#[test]
fn stream_error_body() {
    let e = StreamError::from_error(&ProxyError::Transport("timed out".to_string()));
    assert_eq!(e.error, "Request failed: timed out");
    assert_eq!(StreamError::new("x".to_string()).error, "x");
    assert_eq!(ProxyError::Lock("poisoned".to_string()).message(), "Lock error: poisoned");
}

#[test]
fn response_shapes_are_told_apart() {
    let openai = ChatResponse { choices: Some(vec![choice(Some("a"))]), message: msg(Some("b")) };
    assert_eq!(response_shape(&openai), ResponseShape::OpenAiStyle);
    let single = ChatResponse { choices: Some(vec![choice(None)]), message: msg(Some("b")) };
    assert_eq!(response_shape(&single), ResponseShape::SingleMessageStyle);
    let neither = ChatResponse { choices: None, message: msg(None) };
    assert_eq!(response_shape(&neither), ResponseShape::Unrecognized);
}

#[test]
fn hostless_endpoint_refused_by_lister_and_forwarder() {
    let missing = ProxyError::InvalidEndpoint("Missing host".to_string());
    assert_eq!(tags_url("mailto:a@b.c"), Err(missing.clone()));
    assert!(matches!(models_call("data:text/plain,x", None), Err(e) if e == missing));
    assert!(matches!(chat_call("mailto:a@b.c".to_string(), None, request()), Err(e) if e == missing));
}

#[test]
fn tags_url_from_parsed_parts() {
    let with_port = Endpoint { scheme: "http".to_string(), host: "host".to_string(), port: Some(9999) };
    assert_eq!(tags_url_for(&with_port), "http://host:9999/api/tags");
    let without = Endpoint { scheme: "https".to_string(), host: "[::1]".to_string(), port: None };
    assert_eq!(tags_url_for(&without), "https://[::1]/api/tags");
}

#[test]
fn opened_token_is_the_registered_one() {
    let mut reg = StreamRegistry::new();
    let token = reg.open("shared".to_string());
    let other = reg.open("other".to_string());
    assert!(reg.cancel("shared"));
    assert!(token.is_cancelled());
    assert!(!other.is_cancelled());
}

#[test]
fn sse_read_failure_ends_with_error_item() {
    let mut r = SseReframer::new();
    r.push(b"data: a\ndata: par");
    assert_eq!(drain(&mut r).len(), 2);
    assert_eq!(r.fail("Request failed: reset".to_string()), Some("Request failed: reset".to_string()));
    assert!(r.ended());
    assert!(r.pull().is_none());
    assert_eq!(r.fail("again".to_string()), None);
    assert!(r.finish().is_none());
}

#[test]
fn abandoned_stream_leaves_no_entry() {
    let mut reg = StreamRegistry::new();
    let _token = reg.open("gone".to_string());
    let _other = reg.open("kept".to_string());
    let mut c = StreamConsumer::new("gone".to_string());
    c.abandon(&mut reg);
    assert!(c.is_finished());
    assert!(!reg.contains("gone"));
    assert!(reg.contains("kept"));
    c.abandon(&mut reg);
    assert!(reg.contains("kept"));
}

#[test]
fn generated_stream_id_is_uuid_v4_text() {
    let id: Vec<char> = resolve_stream_id(None).chars().collect();
    assert_eq!(id.len(), 36);
    for (i, c) in id.iter().enumerate() {
        if [8, 13, 18, 23].contains(&i) {
            assert_eq!(*c, '-');
        } else {
            assert!(c.is_ascii_digit() || ('a'..='f').contains(c));
        }
    }
    assert_eq!(id[14], '4');
    assert!(['8', '9', 'a', 'b'].contains(&id[19]));
}

#[test]
fn cancel_keeps_other_streams_tokens() {
    let mut reg = StreamRegistry::new();
    let a = reg.open("a".to_string());
    let b = reg.open("b".to_string());
    assert!(!reg.cancel("zzz"));
    assert!(reg.cancel("a"));
    assert!(a.is_cancelled());
    assert!(!b.is_cancelled());
    assert!(reg.contains("b"));
    assert!(!reg.cancel("a"));
    assert!(reg.cancel("b"));
    assert!(b.is_cancelled());
}
