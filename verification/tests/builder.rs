use harness_capture::block_builder::{
    parse_json_response, parse_response_text, parse_sse_response, read_request, stream_payloads,
};
use harness_capture::{
    parse_anthropic_request, parse_anthropic_response, BlockType, HarnessBlock, Json,
    SessionContext,
};

fn ctx() -> SessionContext {
    SessionContext::new("test-session", "aider")
}

fn text(b: &HarnessBlock) -> String {
    String::from_utf8_lossy(&b.content).into_owned()
}

fn meta<'a>(b: &'a HarnessBlock, key: &str) -> &'a Json {
    b.metadata.get(key).unwrap()
}

#[test]
fn parse_request_string_system() {
    let body = br#"{
            "model": "model-3-5",
            "max_tokens": 1024,
            "system": "You are a helpful assistant.",
            "messages": [
                {"role": "user", "content": "Hello"},
                {"role": "assistant", "content": "Hi there"},
                {"role": "user", "content": "What is 2+2?"}
            ],
            "tools": [{"name": "calc", "description": "calculator", "input_schema": {}}],
            "stream": true
        }"#;
    let mut c = ctx();
    let blocks = parse_anthropic_request(body, &mut c);

    // 1 SystemPrompt + 2 UserPrompt (assistant skipped)
    assert_eq!(blocks.len(), 3);

    assert_eq!(blocks[0].block_type, BlockType::SystemPrompt);
    assert_eq!(text(&blocks[0]), "You are a helpful assistant.");
    assert_eq!(meta(&blocks[0], "source").as_str(), Some("anthropic_request"));
    assert_eq!(meta(&blocks[0], "model").as_str(), Some("model-3-5"));
    assert!(meta(&blocks[0], "tools").is_array());

    assert_eq!(blocks[1].block_type, BlockType::UserPrompt);
    assert_eq!(text(&blocks[1]), "Hello");

    assert_eq!(blocks[2].block_type, BlockType::UserPrompt);
    assert_eq!(text(&blocks[2]), "What is 2+2?");
}

#[test]
fn parse_request_array_system_and_content() {
    let body = br#"{
            "model": "model-3",
            "max_tokens": 256,
            "system": [{"type":"text","text":"Line one"},{"type":"text","text":"Line two"}],
            "messages": [
                {"role": "user", "content": [{"type":"text","text":"Hello "},{"type":"text","text":"world"}]}
            ]
        }"#;
    let mut c = ctx();
    let blocks = parse_anthropic_request(body, &mut c);

    assert_eq!(blocks.len(), 2);
    assert_eq!(blocks[0].block_type, BlockType::SystemPrompt);
    assert_eq!(text(&blocks[0]), "Line one\nLine two");
    assert_eq!(blocks[1].block_type, BlockType::UserPrompt);
    assert_eq!(text(&blocks[1]), "Hello world");
}

#[test]
fn parse_request_no_system() {
    let body = br#"{"model":"aider","max_tokens":1,"messages":[{"role":"user","content":"hi"}]}"#;
    let mut c = ctx();
    let blocks = parse_anthropic_request(body, &mut c);
    assert_eq!(blocks.len(), 1);
    assert_eq!(blocks[0].block_type, BlockType::UserPrompt);
}

#[test]
fn parse_request_invalid_json() {
    let mut c = ctx();
    let blocks = parse_anthropic_request(b"not json", &mut c);
    assert!(blocks.is_empty());
}

#[test]
fn parse_response_json() {
    let body = br#"{
            "id": "msg_01",
            "type": "message",
            "role": "assistant",
            "content": [{"type": "text", "text": "Hello!"}],
            "model": "model-3-5",
            "stop_reason": "end_turn",
            "usage": {"input_tokens": 25, "output_tokens": 150}
        }"#;
    let mut c = ctx();
    let blocks = parse_anthropic_response(body, &mut c);
    assert_eq!(blocks.len(), 1);
    assert_eq!(blocks[0].block_type, BlockType::Response);
    assert_eq!(text(&blocks[0]), "Hello!");
    assert_eq!(meta(&blocks[0], "model").as_str(), Some("model-3-5"));
    assert_eq!(meta(&blocks[0], "stop_reason").as_str(), Some("end_turn"));
    let usage = meta(&blocks[0], "usage");
    assert_eq!(usage.get("input_tokens").unwrap().as_u64(), Some(25));
    assert_eq!(usage.get("output_tokens").unwrap().as_u64(), Some(150));
}

#[test]
fn parse_response_sse() {
    let body = b"\
event: message_start\n\
data: {\"type\":\"message_start\",\"message\":{\"id\":\"msg_01\",\"type\":\"message\",\"role\":\"assistant\",\"model\":\"model-3\",\"content\":[],\"stop_reason\":null,\"usage\":{\"input_tokens\":10,\"output_tokens\":1}}}\n\
\n\
event: content_block_start\n\
data: {\"type\":\"content_block_start\",\"index\":0,\"content_block\":{\"type\":\"text\",\"text\":\"\"}}\n\
\n\
event: content_block_delta\n\
data: {\"type\":\"content_block_delta\",\"index\":0,\"delta\":{\"type\":\"text_delta\",\"text\":\"Hello\"}}\n\
\n\
event: content_block_delta\n\
data: {\"type\":\"content_block_delta\",\"index\":0,\"delta\":{\"type\":\"text_delta\",\"text\":\" world\"}}\n\
\n\
event: content_block_stop\n\
data: {\"type\":\"content_block_stop\",\"index\":0}\n\
\n\
event: message_delta\n\
data: {\"type\":\"message_delta\",\"delta\":{\"stop_reason\":\"end_turn\",\"stop_sequence\":null},\"usage\":{\"output_tokens\":5}}\n\
\n\
event: message_stop\n\
data: {\"type\":\"message_stop\"}\n";

    let mut c = ctx();
    let blocks = parse_anthropic_response(body, &mut c);
    assert_eq!(blocks.len(), 1);
    assert_eq!(blocks[0].block_type, BlockType::Response);
    assert_eq!(text(&blocks[0]), "Hello world");
    assert_eq!(meta(&blocks[0], "model").as_str(), Some("model-3"));
    assert_eq!(meta(&blocks[0], "stop_reason").as_str(), Some("end_turn"));
    let usage = meta(&blocks[0], "usage");
    assert_eq!(usage.get("input_tokens").unwrap().as_u64(), Some(10));
    assert_eq!(usage.get("output_tokens").unwrap().as_u64(), Some(5));
}

#[test]
fn parse_response_unrecognised() {
    let mut c = ctx();
    let blocks = parse_anthropic_response(b"garbage", &mut c);
    assert!(blocks.is_empty());
}

#[test]
fn blocks_take_the_next_sequence_numbers() {
    let mut c = ctx();
    assert_eq!(c.next_seq(), 0);
    let body = br#"{"model":"m","system":"s","messages":[{"role":"user","content":"u"}]}"#;
    let blocks = parse_anthropic_request(body, &mut c);
    assert_eq!(blocks.iter().map(|b| b.sequence).collect::<Vec<_>>(), vec![1, 2]);
    assert_eq!(blocks[0].session_id, "test-session");
    assert_eq!(blocks[0].harness_type, "aider");
    assert_eq!(blocks[0].parent_id, None);
    assert!(blocks[0].timestamp > 1_600_000_000_000);
    // A body that says nothing takes no number.
    assert!(parse_anthropic_request(b"[]", &mut c).is_empty());
    assert_eq!(c.next_seq(), 3);
}

#[test]
fn tools_alone_make_a_system_prompt() {
    let mut c = ctx();
    let blocks = parse_anthropic_request(br#"{"tools":[{"name":"t"}]}"#, &mut c);
    assert_eq!(blocks.len(), 1);
    assert_eq!(blocks[0].block_type, BlockType::SystemPrompt);
    assert_eq!(text(&blocks[0]), "");
    assert_eq!(
        blocks[0].metadata.to_text().unwrap(),
        r#"{"model":"","source":"anthropic_request","tools":[{"name":"t"}]}"#
    );
    let blocks = parse_anthropic_request(br#"{"system":"s","tools":null}"#, &mut c);
    assert_eq!(
        blocks[0].metadata.to_text().unwrap(),
        r#"{"model":"","source":"anthropic_request","tools":null}"#
    );
    assert!(parse_anthropic_request(br#"{"system":"","tools":null}"#, &mut c).is_empty());
    assert!(parse_anthropic_request(br#"{"system":7}"#, &mut c).is_empty());
}

#[test]
fn every_user_message_is_a_prompt() {
    let root = Json::parse(
        br#"{"model":"m","messages":[
            {"role":"user","content":[{"type":"image","text":"no"},{"type":"text"}]},
            {"role":"user"},
            {"role":"system","content":"no"},
            {"content":"no role"},
            {"role":"user","content":[{"type":"text","text":"a"},{"type":"tool_result"},{"type":"text","text":"b"}]},
            {"role":"user","content":"c"}]}"#,
    )
    .unwrap();
    let drafts = read_request(&root);
    let texts: Vec<String> =
        drafts.iter().map(|d| String::from_utf8(d.content.clone()).unwrap()).collect();
    assert_eq!(texts, vec!["", "", "ab", "c"]);
    for d in &drafts {
        assert_eq!(d.block_type, BlockType::UserPrompt);
        assert_eq!(d.metadata.to_text().unwrap(), r#"{"model":"m","source":"anthropic_request"}"#);
    }
}

#[test]
fn later_keys_count() {
    let root = Json::parse(br#"{"model":"a","model":"b","system":"s"}"#).unwrap();
    assert_eq!(read_request(&root)[0].metadata.get("model").unwrap().as_str(), Some("b"));
}

#[test]
fn json_response_defaults() {
    let p = parse_json_response("{}").unwrap();
    assert_eq!((p.text.as_str(), p.model.as_str(), p.stop_reason.as_str()), ("", "", ""));
    assert_eq!((p.input_tokens, p.output_tokens), (0, 0));
    let p = parse_json_response(
        r#"{"content":"plain","usage":{"input_tokens":-1,"output_tokens":1.5},"stop_reason":null}"#,
    )
    .unwrap();
    assert_eq!(p.text, "");
    assert_eq!((p.input_tokens, p.output_tokens), (0, 0));
    assert!(parse_json_response("{").is_none());
}

#[test]
fn stream_lines() {
    let payloads = stream_payloads("event: x\r\n  data: a \r\ndata:b\ndata:  c\nDATA: d\ndata");
    assert_eq!(payloads, vec!["a", "b", " c"]);
    assert!(parse_sse_response("data: [DONE]\n\ndata: hello").is_none());
    assert!(parse_sse_response("").is_none());
}

#[test]
fn stream_without_usage() {
    let p = parse_sse_response(
        "data: {\"type\":\"message_start\",\"message\":{\"usage\":{}}}\ndata: 7\n",
    )
    .unwrap();
    assert_eq!((p.input_tokens, p.output_tokens), (0, 1));
    assert_eq!(p.model, "");
    let p = parse_sse_response(
        "data: {\"type\":\"message_delta\",\"delta\":{\"stop_reason\":\"a\"},\"usage\":{\"output_tokens\":3}}\n\
         data: {\"type\":\"message_delta\",\"delta\":{},\"usage\":{\"output_tokens\":\"x\"}}\n\
         data: {\"type\":\"message_delta\"}\n",
    )
    .unwrap();
    assert_eq!(p.stop_reason, "");
    assert_eq!(p.output_tokens, 3);
}

#[test]
fn stream_text_is_its_deltas() {
    let mut stream = String::new();
    for t in ["H", "", "é", "llo"] {
        stream.push_str(&format!(
            "data: {{\"type\":\"content_block_delta\",\"delta\":{{\"type\":\"text_delta\",\"text\":\"{t}\"}}}}\n"
        ));
        stream.push_str(
            "data: {\"type\":\"content_block_delta\",\"delta\":{\"type\":\"input_json_delta\",\"text\":\"no\"}}\n",
        );
    }
    stream.push_str("data: {broken\ndata: {\"type\":\"ping\",\"delta\":{\"type\":\"text_delta\",\"text\":\"no\"}}\n");
    assert_eq!(parse_sse_response(&stream).unwrap().text, "Héllo");
}

#[test]
fn response_form_is_told_by_the_first_character() {
    let mut c = ctx();
    let json = b"\n\t {\"content\":[{\"type\":\"text\",\"text\":\"a\"},{\"type\":\"text\",\"text\":\"b\"}]}";
    assert_eq!(text(&parse_anthropic_response(json, &mut c)[0]), "ab");
    assert_eq!(parse_response_text(" {\"model\":\"m\"}").unwrap().model, "m");
    assert_eq!(
        parse_response_text("data: {\"type\":\"message_start\",\"message\":{\"model\":\"m\"}}")
            .unwrap()
            .model,
        "m"
    );
    assert!(parse_response_text("[]").is_none());
    // A broken document is not read as a stream.
    assert!(parse_anthropic_response(b"{\ndata: {}\n", &mut c).is_empty());
    assert!(parse_anthropic_response(b"", &mut c).is_empty());
    // Bytes that are no UTF-8 stand as replacement characters.
    let stream =
        b"data: {\"type\":\"content_block_delta\",\"delta\":{\"type\":\"text_delta\",\"text\":\"\xff\"}}";
    assert_eq!(text(&parse_anthropic_response(stream, &mut c)[0]), "\u{fffd}");
    assert_eq!(
        parse_anthropic_response(b"data: {}", &mut c)[0].metadata.to_text().unwrap(),
        r#"{"model":"","source":"anthropic_response","stop_reason":"","usage":{"input_tokens":0,"output_tokens":0}}"#
    );
}

#[test]
fn lines_without_event_do_not_count() {
    let first = "data: {\"type\":\"content_block_delta\",\"delta\":{\"type\":\"text_delta\",\"text\":\"a\"}}\n";
    let second = "data: {\"type\":\"content_block_delta\",\"delta\":{\"type\":\"text_delta\",\"text\":\"b\"}}\n";
    for line in ["", "event: ping", "data: [DONE]", "data: {", ": comment", "\r", "data:"] {
        let p = parse_sse_response(&format!("{first}{line}\n{second}")).unwrap();
        assert_eq!(p.text, "ab", "{line:?}");
    }
    assert_eq!(parse_sse_response(&format!("{first}{second}")).unwrap().text, "ab");
}
