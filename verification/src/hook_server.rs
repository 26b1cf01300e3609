//! Hook callbacks of an agent harness, converted into [`HarnessBlock`]s.
//!
//! | Method | Path                         | Block produced |
//! |--------|------------------------------|----------------|
//! | POST   | /hooks/user_prompt_submit    | `UserPrompt`   |
//! | POST   | /hooks/pre_tool_use          | `ToolCall`     |
//! | POST   | /hooks/post_tool_use         | `ToolResult`   |
//! | POST   | /hooks/stop                  | `Exit`         |
//!
//! Each callback carries a JSON body (fields are best-effort extracted) and
//! creates a block with metadata `{ source: "hook", event: <name>, raw: <body> }`.
use vstd::prelude::*;
use vstd::string::*;
use vstd::utf8::*;

use crate::block_builder::{make_block, Draft, DraftView};
use crate::json::{put, text_json, Json, JsonView};
use crate::schema::{BlockType, HarnessBlock};
use crate::session::SessionContext;
use crate::store::{BlockStore, StoreError};
use crate::text::{decimal_text, joined, signed_text};

verus! {

/// A hook callback.
#[derive(Debug, Clone, Copy, PartialEq, Eq, Structural)]
pub enum HookEvent {
    UserPromptSubmit,
    PreToolUse,
    PostToolUse,
    Stop,
}

impl HookEvent {
    /// The name of the event.
    pub open spec fn name(self) -> Seq<char> {
        match self {
            HookEvent::UserPromptSubmit => "user_prompt_submit"@,
            HookEvent::PreToolUse => "pre_tool_use"@,
            HookEvent::PostToolUse => "post_tool_use"@,
            HookEvent::Stop => "stop"@,
        }
    }

    /// The type of the block that the event produces.
    pub open spec fn produces(self) -> BlockType {
        match self {
            HookEvent::UserPromptSubmit => BlockType::UserPrompt,
            HookEvent::PreToolUse => BlockType::ToolCall,
            HookEvent::PostToolUse => BlockType::ToolResult,
            HookEvent::Stop => BlockType::Exit,
        }
    }

    pub fn as_str(&self) -> (r: &'static str)
        ensures
            r@ == self.name(),
    {
        match self {
            HookEvent::UserPromptSubmit => "user_prompt_submit",
            HookEvent::PreToolUse => "pre_tool_use",
            HookEvent::PostToolUse => "post_tool_use",
            HookEvent::Stop => "stop",
        }
    }

    /// The path of the callback.
    pub fn path(&self) -> (r: String)
        ensures
            r@ == "/hooks/"@ + self.name(),
    {
        joined("/hooks/", self.as_str())
    }

    /// The type of the block that the event produces.
    pub fn block_type(&self) -> (r: BlockType)
        ensures
            r == self.produces(),
    {
        match self {
            HookEvent::UserPromptSubmit => BlockType::UserPrompt,
            HookEvent::PreToolUse => BlockType::ToolCall,
            HookEvent::PostToolUse => BlockType::ToolResult,
            HookEvent::Stop => BlockType::Exit,
        }
    }
}

/// The text that a callback carries: the prompt, the name of the tool, or the
/// exit code (zero where there is none).
pub open spec fn hook_text(event: HookEvent, body: JsonView) -> Seq<char> {
    match event {
        HookEvent::UserPromptSubmit => body.text_or_empty("prompt"@),
        HookEvent::PreToolUse | HookEvent::PostToolUse => body.text_or_empty("tool_name"@),
        HookEvent::Stop => crate::text::signed_decimal(
            match body.field("exit_code"@) {
                Some(v) => match v.signed() {
                    Some(code) => code as int,
                    None => 0,
                },
                None => 0,
            },
        ),
    }
}

/// The metadata of a block from a callback.
pub open spec fn hook_metadata(event: HookEvent, body: JsonView) -> JsonView {
    JsonView::Object(
        map![
            "source"@ => JsonView::Str("hook"@),
            "event"@ => JsonView::Str(event.name()),
            "raw"@ => body,
        ],
    )
}

/// What a callback says.
pub open spec fn hook_draft(event: HookEvent, body: JsonView) -> DraftView {
    DraftView {
        block_type: event.produces(),
        content: encode_utf8(hook_text(event, body)),
        metadata: hook_metadata(event, body),
    }
}

fn hook_text_of(event: HookEvent, body: &Json) -> (r: String)
    ensures
        r@ == hook_text(event, body@),
{
    match event {
        HookEvent::UserPromptSubmit => body.text_or_empty("prompt"),
        HookEvent::PreToolUse | HookEvent::PostToolUse => body.text_or_empty("tool_name"),
        HookEvent::Stop => {
            let code: i64 = match body.get("exit_code") {
                Some(v) => match v.as_i64() {
                    Some(code) => code,
                    None => 0,
                },
                None => 0,
            };
            signed_text(code)
        },
    }
}

/// The draft of the block of a callback.
pub fn read_hook(event: HookEvent, body: Json) -> (r: Draft)
    ensures
        r@ == hook_draft(event, body@),
{
    let text = hook_text_of(event, &body);
    let mut entries: Vec<(String, Json)> = Vec::new();
    put(&mut entries, "source", text_json("hook"));
    put(&mut entries, "event", text_json(event.as_str()));
    put(&mut entries, "raw", body);
    Draft {
        block_type: event.block_type(),
        content: text.as_str().as_bytes_vec(),
        metadata: Json::Object(entries),
    }
}

/// Record a draft as the next block of the session. Gives the block, and
/// whether the store took it.
pub fn store_draft(store: &mut BlockStore, ctx: &mut SessionContext, draft: Draft) -> (r: (
    HarnessBlock,
    Result<(), StoreError>,
))
    ensures
        crate::block_builder::stamped(draft@, old(ctx)@, 0, r.0@),
        final(ctx)@ == old(ctx)@.advanced(1),
        crate::store::only_sqlite_fails(r.1),
        crate::store::reads_back(r.0@),
        final(store).same_database(*old(store)),
        old(store).in_memory() ==> stored_as(old(store).table(), final(store).table(), r.0, r.1),
{
    let block = make_block(ctx, draft);
    let result = store.insert_block(&block);
    (block, result)
}

/// Whether a table took up a block, if the store took it, and is as it was
/// where SQLite failed.
pub open spec fn stored_as(
    before: Map<Seq<char>, crate::store::BlockRecord>,
    after: Map<Seq<char>, crate::store::BlockRecord>,
    block: HarnessBlock,
    result: Result<(), StoreError>,
) -> bool {
    match result {
        Ok(_) => !before.contains_key(block@.id) && after == before.insert(
            block@.id,
            crate::store::encoded(block@),
        ),
        Err(e) => after == before && e is Database,
    }
}

/// Record a callback as the next block of the session. Gives the block, and
/// whether the store took it.
pub fn insert_hook_block(
    store: &mut BlockStore,
    ctx: &mut SessionContext,
    event: HookEvent,
    body: Json,
) -> (r: (HarnessBlock, Result<(), StoreError>))
    ensures
        crate::block_builder::stamped(hook_draft(event, body@), old(ctx)@, 0, r.0@),
        final(ctx)@ == old(ctx)@.advanced(1),
        crate::store::only_sqlite_fails(r.1),
        crate::store::reads_back(r.0@),
        final(store).same_database(*old(store)),
        old(store).in_memory() ==> stored_as(old(store).table(), final(store).table(), r.0, r.1),
{
    store_draft(store, ctx, read_hook(event, body))
}

/// A running hook server, as a harness reaches it.
#[derive(Debug, Clone)]
pub struct HookServer {
    pub port: u16,
}

/// The base URL of a hook server on `port`.
pub open spec fn hook_url(port: u16) -> Seq<char> {
    "http://127.0.0.1:"@ + crate::text::decimal(port as nat)
}

impl HookServer {
    pub fn port(&self) -> (r: u16)
        ensures
            r == self.port,
    {
        self.port
    }

    /// Base URL for hook callbacks, e.g. `http://127.0.0.1:34567`.
    pub fn base_url(&self) -> (r: String)
        ensures
            r@ == hook_url(self.port),
    {
        joined("http://127.0.0.1:", decimal_text(self.port as u64).as_str())
    }
}

}
