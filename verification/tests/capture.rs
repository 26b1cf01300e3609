use harness_capture::handler::{
    capture_request, captured_request, error_response, request_path, response_headers,
    upstream_request, Header, StreamCapture, MAX_BODY_BYTES,
};
use harness_capture::hook_server::{read_hook, HookEvent};
use harness_capture::raw_processor::{reassemble, Direction, RawProcessor};
use harness_capture::{BlockType, Json, RawEvent, UpstreamConfig, RAW_CHANNEL_CAPACITY};

fn header(name: &str, value: Option<&str>) -> Header {
    Header { name: name.to_string(), value: value.map(|v| v.to_string()) }
}

fn chunk(id: u128, seq: u64, text: &str) -> RawEvent {
    RawEvent::ResponseChunk { id, seq, chunk: text.as_bytes().to_vec() }
}

fn request(id: u128) -> RawEvent {
    captured_request(id, "POST", "/v1/messages", &Vec::new(), b"req".to_vec())
}

#[test]
fn limits() {
    assert_eq!(MAX_BODY_BYTES, 67_108_864);
    assert_eq!(RAW_CHANNEL_CAPACITY, 1024);
}

#[test]
fn request_is_captured() {
    let headers = vec![
        header("accept", Some("a")),
        header("x-bin", None),
        header("accept", Some("b")),
        header("authorization", Some("secret")),
    ];
    match captured_request(9, "POST", "/p?q=1", &headers, vec![1, 2]) {
        RawEvent::Request { id, method, path, headers, body } => {
            assert_eq!(id, 9);
            assert_eq!((method.as_str(), path.as_str()), ("POST", "/p?q=1"));
            assert_eq!(
                headers.to_text().unwrap(),
                r#"{"accept":"b","authorization":"secret","x-bin":""}"#
            );
            assert_eq!(body, vec![1, 2]);
        }
        _ => panic!("no request"),
    }
    let (a, event) = capture_request("GET", "/", &Vec::new(), Vec::new());
    let (b, _) = capture_request("GET", "/", &Vec::new(), Vec::new());
    assert_ne!(a, b);
    assert_eq!(uuid::Uuid::from_u128(a).get_version_num(), 4);
    assert!(matches!(event, RawEvent::Request { id, .. } if id == a));
}

#[test]
fn path_defaults_to_the_root() {
    assert_eq!(request_path(Some("/a?b")), "/a?b");
    assert_eq!(request_path(None), "/");
}

#[test]
fn upstream_request_has_the_key_of_the_proxy() {
    let upstream = UpstreamConfig::anthropic("http://up");
    let headers = vec![
        header("host", Some("localhost")),
        header("content-type", Some("application/json")),
        header("x-api-key", Some("harness")),
        header("authorization", Some("harness")),
        header("content-length", Some("3")),
        header("connection", Some("close")),
        header("x-bin", None),
        header("x-twice", Some("1")),
        header("x-twice", Some("2")),
    ];
    let r = upstream_request(&upstream, "/v1/messages", Some("sk-test-123"), &headers);
    assert_eq!(r.url, "http://up/v1/messages");
    let pair = |n: &str, v: &str| (n.to_string(), v.to_string());
    assert_eq!(
        r.headers,
        vec![
            pair("x-api-key", "sk-test-123"),
            pair("content-type", "application/json"),
            pair("x-twice", "1"),
            pair("x-twice", "2"),
        ]
    );
    let r = upstream_request(&UpstreamConfig::openai(""), "/", Some("k"), &Vec::new());
    assert_eq!(r.url, "/");
    assert_eq!(r.headers, vec![pair("authorization", "Bearer k")]);
    let r = upstream_request(&upstream, "/", None, &headers);
    assert_eq!(r.headers.len(), 3);
    assert!(r.headers.iter().all(|(n, _)| n != "x-api-key" && n != "authorization"));
}

#[test]
fn response_keeps_what_is_not_of_the_hop() {
    let headers = vec![
        header("transfer-encoding", Some("chunked")),
        header("content-type", Some("text/event-stream")),
        header("content-length", Some("1")),
        header("connection", Some("keep-alive")),
        header("host", Some("kept")),
        header("x-bin", None),
    ];
    assert_eq!(
        response_headers(&headers),
        vec![
            ("content-type".to_string(), "text/event-stream".to_string()),
            ("host".to_string(), "kept".to_string()),
        ]
    );
    assert_eq!(error_response("boom"), (502, "zap proxy error: boom".to_string()));
}

#[test]
fn proxy_passthrough_and_capture() {
    let mut capture = StreamCapture::new(5, 200);
    let mut events = vec![captured_request(
        5,
        "POST",
        "/v1/messages",
        &Vec::new(),
        br#"{"model":"model-3","stream":true}"#.to_vec(),
    )];
    events.push(capture.chunk(b"data: hello\n\n".to_vec()));
    events.push(capture.chunk(b"data: [DONE]\n\n".to_vec()));
    events.push(capture.finish().unwrap());
    assert!(capture.finish().is_none());
    assert!(matches!(&events[0], RawEvent::Request { path, .. } if path == "/v1/messages"));
    assert!(matches!(&events[1], RawEvent::ResponseChunk { id: 5, seq: 0, .. }));
    assert!(matches!(&events[2], RawEvent::ResponseChunk { id: 5, seq: 1, .. }));
    assert!(matches!(&events[3], RawEvent::ResponseDone { id: 5, status: 200 }));

    let mut processor = RawProcessor::new();
    let captures: Vec<_> = events.into_iter().filter_map(|e| processor.step(e)).collect();
    assert_eq!(captures.len(), 2);
    assert_eq!(captures[0].direction, Direction::Request);
    assert!(String::from_utf8_lossy(&captures[0].body).contains("model-3"));
    assert_eq!(captures[1].direction, Direction::Response);
    assert_eq!(captures[1].body, b"data: hello\n\ndata: [DONE]\n\n");
}

#[test]
fn chunks_are_put_in_order() {
    let body = |chunks: Vec<(u64, &str)>| {
        let owned = chunks.into_iter().map(|(n, t)| (n, t.as_bytes().to_vec())).collect();
        String::from_utf8(reassemble(owned)).unwrap()
    };
    assert_eq!(body(vec![]), "");
    assert_eq!(body(vec![(2, "c"), (0, "a"), (1, "b")]), "abc");
    assert_eq!(body(vec![(0, "a"), (1, "b"), (2, "c")]), "abc");
    // Chunks of one number stay in order of arrival.
    assert_eq!(body(vec![(1, "b"), (0, "a"), (1, "c"), (u64::MAX, "e"), (1, "d")]), "abcde");
    assert_eq!(body(vec![(3, ""), (1, "x")]), "x");
}

#[test]
fn exchanges_do_not_mix() {
    let mut p = RawProcessor::new();
    assert!(p.step(request(1)).is_some());
    assert!(p.step(request(2)).is_some());
    assert!(p.step(chunk(2, 1, "d")).is_none());
    assert!(p.step(chunk(1, 0, "a")).is_none());
    assert!(p.step(chunk(2, 0, "c")).is_none());
    assert!(p.step(chunk(1, 1, "b")).is_none());
    let done = |id| RawEvent::ResponseDone { id, status: 200 };
    assert_eq!(p.step(done(1)).unwrap().body, b"ab");
    assert!(p.step(done(1)).is_none());
    assert!(p.step(done(3)).is_none());
    assert_eq!(p.step(done(2)).unwrap().body, b"cd");
    // A response without chunks has an empty body.
    p.step(request(4));
    assert!(p.step(done(4)).unwrap().body.is_empty());
    // Chunks may come before their request.
    p.step(chunk(5, 0, "x"));
    p.step(request(5));
    assert_eq!(p.step(done(5)).unwrap().body, b"x");
}

#[test]
fn hooks_say_what_happened() {
    let body = |t: &str| Json::parse(t.as_bytes()).unwrap();
    let cases = [
        (HookEvent::UserPromptSubmit, r#"{"prompt":"now"}"#, BlockType::UserPrompt, "now"),
        (HookEvent::UserPromptSubmit, r#"{"prompt":7}"#, BlockType::UserPrompt, ""),
        (HookEvent::PreToolUse, r#"{"tool_name":"t"}"#, BlockType::ToolCall, "t"),
        (HookEvent::PostToolUse, r#"{"tool_name":"t","result":"ok"}"#, BlockType::ToolResult, "t"),
        (HookEvent::PostToolUse, r#"[]"#, BlockType::ToolResult, ""),
        (HookEvent::Stop, r#"{"exit_code":-3}"#, BlockType::Exit, "-3"),
        (HookEvent::Stop, r#"{"exit_code":"1"}"#, BlockType::Exit, "0"),
        (HookEvent::Stop, r#"{"exit_code":9223372036854775808}"#, BlockType::Exit, "0"),
        (HookEvent::Stop, r#"{}"#, BlockType::Exit, "0"),
    ];
    for (event, text, block_type, content) in cases {
        let draft = read_hook(event, body(text));
        assert_eq!(draft.block_type, block_type);
        assert_eq!(draft.content, content.as_bytes());
        assert_eq!(draft.metadata.get("source").unwrap().as_str(), Some("hook"));
        assert_eq!(draft.metadata.get("event").unwrap().as_str(), Some(event.as_str()));
        assert_eq!(draft.metadata.get("raw").unwrap(), &body(text));
    }
    assert_eq!(HookEvent::UserPromptSubmit.path(), "/hooks/user_prompt_submit");
    assert_eq!(HookEvent::PreToolUse.path(), "/hooks/pre_tool_use");
    assert_eq!(HookEvent::PostToolUse.path(), "/hooks/post_tool_use");
    assert_eq!(HookEvent::Stop.path(), "/hooks/stop");
}
