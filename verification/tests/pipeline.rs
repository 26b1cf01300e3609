use harness_capture::handler::{captured_request, StreamCapture};
use harness_capture::hook_server::HookEvent;
use harness_capture::raw_processor::RawProcessor;
use harness_capture::{
    list_blocks_by_session, run_raw_processor, BlockStore, BlockType, HarnessBlock, Integration,
    InterceptMode, Json, ProxyHandle, RawCache, RawEvent, SessionContext,
};

fn json(text: &str) -> Json {
    Json::parse(text.as_bytes()).unwrap()
}

fn find(blocks: &[HarnessBlock], t: BlockType) -> &HarnessBlock {
    blocks.iter().find(|b| b.block_type == t).unwrap()
}

fn text(b: &HarnessBlock) -> String {
    String::from_utf8_lossy(&b.content).into_owned()
}

/// Simulate a full session:
///   Spawn → (proxy) SystemPrompt + UserPrompt → (proxy) Response
///         → (hook) UserPrompt → (hook) ToolCall → (hook) ToolResult
///         → (hook) Exit → Exit
#[test]
fn full_session_block_sequence() {
    let session = format!("test-{}", uuid::Uuid::new_v4());
    let mut integ = Integration::in_memory(&session, "aider").unwrap();
    integ.start_hooks(34567);
    assert_eq!(integ.hook_url().unwrap(), "http://127.0.0.1:34567");

    integ.record_spawn(InterceptMode::Full).1.unwrap();

    let req_body = br#"{
        "model": "model-3-5",
        "max_tokens": 1024,
        "system": "You are a coding assistant.",
        "messages": [{"role": "user", "content": "Write hello world in Rust"}],
        "stream": true
    }"#;
    let resp_body = b"\
event: message_start\n\
data: {\"type\":\"message_start\",\"message\":{\"model\":\"model-3\",\"usage\":{\"input_tokens\":10,\"output_tokens\":1}}}\n\
\n\
event: content_block_delta\n\
data: {\"type\":\"content_block_delta\",\"delta\":{\"type\":\"text_delta\",\"text\":\"fn main() { println!(\\\"hello\\\"); }\"}}\n\
\n\
event: message_delta\n\
data: {\"type\":\"message_delta\",\"delta\":{\"stop_reason\":\"end_turn\"},\"usage\":{\"output_tokens\":12}}\n";
    let records = integ.process(vec![
        captured_request(1, "POST", "/v1/messages", &Vec::new(), req_body.to_vec()),
        RawEvent::ResponseChunk { id: 1, seq: 1, chunk: resp_body[100..].to_vec() },
        RawEvent::ResponseChunk { id: 1, seq: 0, chunk: resp_body[..100].to_vec() },
        RawEvent::ResponseDone { id: 1, status: 200 },
    ]);
    assert_eq!(records.len(), 2);
    assert!(records.iter().all(|r| r.raw.is_ok() && r.stored.iter().all(|s| s.is_ok())));

    for (event, body) in [
        (HookEvent::UserPromptSubmit, r#"{"prompt": "now refactor it"}"#),
        (HookEvent::PreToolUse, r#"{"tool_name": "str_replace_editor"}"#),
        (HookEvent::PostToolUse, r#"{"tool_name": "str_replace_editor", "result": "ok"}"#),
        (HookEvent::Stop, r#"{"exit_code": 0}"#),
    ] {
        integ.record_hook(event, json(body)).1.unwrap();
    }

    integ.record_exit(0).1.unwrap();

    let blocks: Vec<HarnessBlock> =
        integ.with_store(|s| list_blocks_by_session(s, &session).unwrap());
    let types: Vec<BlockType> = blocks.iter().map(|b| b.block_type).collect();
    assert_eq!(
        types,
        vec![
            BlockType::Spawn,
            BlockType::SystemPrompt,
            BlockType::UserPrompt,
            BlockType::Response,
            BlockType::UserPrompt,
            BlockType::ToolCall,
            BlockType::ToolResult,
            BlockType::Exit,
            BlockType::Exit,
        ]
    );

    let sys = find(&blocks, BlockType::SystemPrompt);
    assert_eq!(text(sys), "You are a coding assistant.");
    assert_eq!(sys.metadata.get("source").unwrap().as_str(), Some("anthropic_request"));

    let resp = find(&blocks, BlockType::Response);
    assert!(text(resp).contains("fn main()"));
    let usage = resp.metadata.get("usage").unwrap();
    assert_eq!(usage.get("input_tokens").unwrap().as_u64(), Some(10));
    assert_eq!(usage.get("output_tokens").unwrap().as_u64(), Some(12));

    let tc = find(&blocks, BlockType::ToolCall);
    assert_eq!(text(tc), "str_replace_editor");
    assert_eq!(tc.metadata.get("source").unwrap().as_str(), Some("hook"));

    let seqs: Vec<u32> = blocks.iter().map(|b| b.sequence).collect();
    assert_eq!(seqs, (0..9).collect::<Vec<u32>>());
    assert!(blocks.len() >= 8);
}

#[test]
fn real_proxy_full_session() {
    let session = format!("real-{}", uuid::Uuid::new_v4());
    let mut store = BlockStore::open_in_memory().unwrap();
    let mut cache = RawCache::open_in_memory().unwrap();
    let mut processor = RawProcessor::new();
    let mut ctx = SessionContext::new(&session, "aider");

    let mut b = HarnessBlock::new(
        &session,
        "aider",
        BlockType::Spawn,
        ctx.next_seq(),
        Vec::new(),
        ctx.now_ms(),
    );
    b.metadata = json(r#"{"mode": "full"}"#);
    store.insert_block(&b).unwrap();

    let request = r#"{
        "model": "model-3-5",
        "max_tokens": 1024,
        "system": "You are a helpful assistant.",
        "messages": [{"role": "user", "content": "Say hello"}],
        "stream": true
    }"#;
    let chunks = [
        "data: {\"type\":\"message_start\",\"message\":{\"model\":\"model-3\",\"usage\":{\"input_tokens\":10,\"output_tokens\":1}}}\n\n",
        "data: {\"type\":\"content_block_delta\",\"delta\":{\"type\":\"text_delta\",\"text\":\"Hello from mock!\"}}\n\n",
        "data: {\"type\":\"message_delta\",\"delta\":{\"stop_reason\":\"end_turn\"},\"usage\":{\"output_tokens\":5}}\n\n",
        "data: {\"type\":\"message_stop\"}\n\n",
    ];
    let mut events =
        vec![captured_request(7, "POST", "/v1/messages", &Vec::new(), request.as_bytes().to_vec())];
    let mut capture = StreamCapture::new(7, 200);
    for c in chunks {
        events.push(capture.chunk(c.as_bytes().to_vec()));
    }
    events.push(capture.finish().unwrap());
    // Events may come in parts.
    let late = events.split_off(3);
    let first = run_raw_processor(events, &mut processor, &mut store, &mut cache, &mut ctx);
    assert_eq!(first.len(), 1);
    let second = run_raw_processor(late, &mut processor, &mut store, &mut cache, &mut ctx);
    assert_eq!(second.len(), 1);

    let mut b = HarnessBlock::new(
        &session,
        "aider",
        BlockType::Exit,
        ctx.next_seq(),
        Vec::new(),
        ctx.now_ms(),
    );
    b.metadata = json(r#"{"exit_code": 0}"#);
    store.insert_block(&b).unwrap();

    let blocks = list_blocks_by_session(&store, &session).unwrap();
    let types: Vec<BlockType> = blocks.iter().map(|b| b.block_type).collect();
    assert_eq!(types[0], BlockType::Spawn, "Spawn first: {types:?}");
    assert!(types.contains(&BlockType::SystemPrompt), "no SystemPrompt: {types:?}");
    assert!(types.contains(&BlockType::UserPrompt), "no UserPrompt: {types:?}");
    assert!(types.contains(&BlockType::Response), "no Response: {types:?}");
    assert_eq!(*types.last().unwrap(), BlockType::Exit, "Exit last: {types:?}");

    assert_eq!(text(find(&blocks, BlockType::SystemPrompt)), "You are a helpful assistant.");
    assert_eq!(text(find(&blocks, BlockType::UserPrompt)), "Say hello");
    let resp = find(&blocks, BlockType::Response);
    assert_eq!(text(resp), "Hello from mock!");
    let usage = resp.metadata.get("usage").unwrap();
    assert_eq!(usage.get("input_tokens").unwrap().as_u64(), Some(10));
    assert_eq!(usage.get("output_tokens").unwrap().as_u64(), Some(5));

    let entries = cache.peek(&session).unwrap();
    assert_eq!(entries.len(), 2, "raw cache should have request + response");
    assert!(entries[0].timestamp <= entries[1].timestamp);
    // Payloads of one millisecond may stand in either order.
    let (request_at, response_at) = if entries[0].timestamp < entries[1].timestamp
        || entries[0].direction == "request"
    {
        (0, 1)
    } else {
        (1, 0)
    };
    assert_eq!(entries[request_at].direction, "request");
    assert_eq!(entries[request_at].content, request.as_bytes());
    assert_eq!(entries[response_at].direction, "response");
    assert_eq!(entries[response_at].content, chunks.concat().as_bytes());
}

#[test]
fn integration_start_proxy_and_hook_url() {
    let session = format!("integ-{}", uuid::Uuid::new_v4());
    let mut integ = Integration::in_memory(&session, "aider").unwrap();
    assert!(integ.hook_url().is_none());
    assert!(integ.proxy_port().is_none());
    assert!(integ.ca_cert_path().is_none());
    assert!(integ.proxy_handle().is_none());

    assert_eq!(integ.start_hooks(1111).port(), 1111);
    let hook_url = integ.hook_url();
    assert!(hook_url.is_some());
    // The first server stays.
    assert_eq!(integ.start_hooks(2222).port(), 1111);
    assert_eq!(integ.hook_url(), hook_url);

    let handle = |port| ProxyHandle { port, ca_cert_path: format!("/ca-{port}.pem") };
    let port = integ.start_proxy(handle(3333));
    assert!(port > 0);
    assert_eq!(port, 3333);
    assert_eq!(integ.start_proxy(handle(4444)), 3333);
    assert!(integ.proxy_port().is_some());
    assert!(integ.ca_cert_path().is_some());
    assert_eq!(integ.ca_cert_path(), Some("/ca-3333.pem"));
    assert_eq!(integ.proxy_handle().unwrap().port, 3333);
    assert_eq!(integ.ctx().session(), session);
}

#[test]
fn refused_blocks_do_not_stop_the_others() {
    let name = "file:refused_blocks?mode=memory&cache=shared";
    let mut store = BlockStore::open(name).unwrap();
    let conn = rusqlite::Connection::open(name).unwrap();
    conn.execute(
        "CREATE TRIGGER no_system BEFORE INSERT ON harness_blocks WHEN NEW.block_type = 'system_prompt'
         BEGIN SELECT RAISE(ABORT, 'no'); END",
        (),
    )
    .unwrap();
    let mut cache = RawCache::open_in_memory().unwrap();
    let mut ctx = SessionContext::new("s", "aider");
    let body = br#"{"system":"s","messages":[{"role":"user","content":"u"}]}"#;
    let records = run_raw_processor(
        vec![captured_request(1, "POST", "/", &Vec::new(), body.to_vec())],
        &mut RawProcessor::new(),
        &mut store,
        &mut cache,
        &mut ctx,
    );
    assert_eq!(records[0].blocks.len(), 2);
    assert!(records[0].stored[0].is_err());
    assert!(records[0].stored[1].is_ok());
    let blocks = list_blocks_by_session(&store, "s").unwrap();
    assert_eq!(blocks, vec![records[0].blocks[1].clone()]);
    assert_eq!(blocks[0].sequence, 1);
    assert_eq!(cache.peek("s").unwrap()[0].id, *records[0].raw.as_ref().unwrap());
}
