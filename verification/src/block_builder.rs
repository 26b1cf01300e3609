//! Block builder: parse Anthropic Messages API request and response bodies
//! into typed [`HarnessBlock`]s.
//!
//! ## Request parsing
//! [`parse_anthropic_request`] extracts:
//! - a `SystemPrompt` block from the `system` field (string or content-block
//!   array), with the tool definitions in its metadata
//! - a `UserPrompt` block for each user-role message
//!
//! ## Response parsing
//! [`parse_anthropic_response`] handles both:
//! - non-streaming JSON (a single `message` object)
//! - streaming SSE (reconstructed from accumulated chunks)
//!
//! It produces a single `Response` block with the assistant text as `content`
//! and token `usage`, `stop_reason` and `model` in `metadata`.
use vstd::prelude::*;
use vstd::string::*;
use vstd::utf8::*;

use crate::json::{put, text_json, Json, JsonView};
use crate::schema::{BlockType, BlockView, HarnessBlock};
use crate::session::{ContextView, SessionContext};
use crate::text::{after_prefix, first_visible, join_texts, lines_of, lossy, same_text, trimmed};

verus! {

// ── drafts ───────────────────────────────────────────────────────────────

/// What the body of a request or response says of one block, before the block
/// takes its id, sequence number and time.
#[derive(Debug)]
pub struct Draft {
    pub block_type: BlockType,
    pub content: Vec<u8>,
    pub metadata: Json,
}

/// What a [`Draft`] says.
pub struct DraftView {
    pub block_type: BlockType,
    pub content: Seq<u8>,
    pub metadata: JsonView,
}

impl View for Draft {
    type V = DraftView;

    open spec fn view(&self) -> DraftView {
        DraftView {
            block_type: self.block_type,
            content: self.content@,
            metadata: self.metadata@,
        }
    }
}

/// Whether `block` is `draft` as the session `ctx` records it `steps` sequence
/// numbers on: under a fresh id, at the time of a reading of the clock.
pub open spec fn stamped(
    draft: DraftView,
    ctx: ContextView,
    steps: nat,
    block: BlockView,
) -> bool {
    &&& crate::schema::random_uuid_text(block.id)
    &&& crate::session::clock_time(block.timestamp)
    &&& block == BlockView {
        id: block.id,
        session_id: ctx.session_id,
        parent_id: None,
        harness_type: ctx.harness_type,
        block_type: draft.block_type,
        sequence: ctx.advanced(steps).upcoming,
        content: draft.content,
        metadata: draft.metadata,
        timestamp: block.timestamp,
    }
}

/// Whether `blocks` are `drafts`, in order, as the session `ctx` records them
/// under consecutive sequence numbers.
pub open spec fn all_stamped(
    drafts: Seq<DraftView>,
    ctx: ContextView,
    blocks: Seq<HarnessBlock>,
) -> bool {
    &&& blocks.len() == drafts.len()
    &&& forall|i: int|
        0 <= i < drafts.len() ==> stamped(drafts[i], ctx, i as nat, #[trigger] blocks[i]@)
}

pub open spec fn draft_views(drafts: Seq<Draft>) -> Seq<DraftView> {
    drafts.map_values(|d: Draft| d@)
}

/// Record a draft as the next block of the session.
pub fn make_block(ctx: &mut SessionContext, draft: Draft) -> (r: HarnessBlock)
    ensures
        stamped(draft@, old(ctx)@, 0, r@),
        final(ctx)@ == old(ctx)@.advanced(1),
{
    let sequence: u32 = ctx.next_seq();
    let timestamp: i64 = ctx.now_ms();
    let mut block = HarnessBlock::new(
        ctx.session(),
        ctx.harness(),
        draft.block_type,
        sequence,
        draft.content,
        timestamp,
    );
    block.metadata = draft.metadata;
    block
}

/// Record drafts as the next blocks of the session, in order.
pub fn make_blocks(ctx: &mut SessionContext, drafts: Vec<Draft>) -> (r: Vec<HarnessBlock>)
    ensures
        all_stamped(draft_views(drafts@), old(ctx)@, r@),
        final(ctx)@ == old(ctx)@.advanced(drafts@.len()),
{
    let ghost all = drafts@;
    let ghost start = ctx@;
    let mut out: Vec<HarnessBlock> = Vec::new();
    for draft in it: drafts
        invariant
            it.seq() == all,
            out@.len() == it.index(),
            ctx@ == start.advanced(it.index() as nat),
            forall|i: int|
                0 <= i < out@.len() ==> stamped(all[i]@, start, i as nat, #[trigger] out@[i]@),
    {
        let block = make_block(ctx, draft);
        out.push(block);
    }
    out
}

// ── text of content ──────────────────────────────────────────────────────

/// The text of a content block of type `text`.
pub open spec fn text_block(block: JsonView) -> Option<Seq<char>> {
    let kind = match block.field("type"@) {
        Some(v) => v.text(),
        None => None,
    };
    if kind == Some("text"@) {
        match block.field("text"@) {
            Some(v) => v.text(),
            None => None,
        }
    } else {
        None
    }
}

/// The texts of those `blocks` that are text blocks, in order.
pub open spec fn block_texts(blocks: Seq<JsonView>) -> Seq<Seq<char>>
    decreases blocks.len(),
{
    if blocks.len() == 0 {
        Seq::empty()
    } else {
        let front = block_texts(blocks.drop_last());
        match text_block(blocks.last()) {
            Some(t) => front.push(t),
            None => front,
        }
    }
}

/// The text of a content field, which is a string or an array of content
/// blocks; `sep` stands between the texts of neighbouring text blocks.
pub open spec fn content_text(content: JsonView, sep: Seq<char>) -> Seq<char> {
    match content {
        JsonView::Str(t) => t,
        JsonView::Array(blocks) => crate::text::join(block_texts(blocks), sep),
        _ => Seq::empty(),
    }
}

fn text_block_of(block: &Json) -> (r: Option<String>)
    ensures
        match r {
            Some(t) => text_block(block@) == Some(t@),
            None => text_block(block@) is None,
        },
{
    match block.get("type") {
        Some(kind) => match kind.as_str() {
            Some(k) => if same_text(k, "text") {
                match block.get("text") {
                    Some(v) => match v.as_str() {
                        Some(t) => Some(t.to_string()),
                        None => None,
                    },
                    None => None,
                }
            } else {
                None
            },
            None => None,
        },
        None => None,
    }
}

fn block_texts_of(blocks: &Vec<Json>) -> (r: Vec<String>)
    ensures
        r@.map_values(|t: String| t@) == block_texts(crate::json::items_view(blocks@)),
{
    let ghost view = |t: String| t@;
    let mut out: Vec<String> = Vec::new();
    let mut i: usize = 0;
    assert(out@.map_values(view) =~= block_texts(crate::json::items_view(blocks@.take(0))));
    while i < blocks.len()
        invariant
            i <= blocks@.len(),
            view == (|t: String| t@),
            out@.map_values(view) == block_texts(crate::json::items_view(blocks@.take(i as int))),
        decreases blocks@.len() - i,
    {
        proof {
            assert(blocks@.take(i + 1).drop_last() =~= blocks@.take(i as int));
            assert(crate::json::items_view(blocks@.take(i + 1)).drop_last() =~= crate::json::items_view(
                blocks@.take(i as int),
            ));
        }
        match text_block_of(&blocks[i]) {
            Some(t) => {
                assert(out@.push(t).map_values(view) =~= out@.map_values(view).push(t@));
                out.push(t);
            },
            None => {},
        }
        i = i + 1;
    }
    assert(blocks@.take(blocks@.len() as int) =~= blocks@);
    out
}

fn content_text_of(content: &Json, sep: &str) -> (r: String)
    ensures
        r@ == content_text(content@, sep@),
{
    match content {
        Json::Str(t) => t.clone(),
        Json::Array(blocks) => join_texts(&block_texts_of(blocks), sep),
        _ => String::new(),
    }
}

/// Extract plain text from an Anthropic `system` field.
///
/// The field is either a bare string or an array of content blocks
/// (`[{"type":"text","text":"..."}, ...]`), whose texts stand on lines of
/// their own.
pub fn extract_system_text(system: &Json) -> (r: String)
    ensures
        r@ == content_text(system@, "\n"@),
{
    content_text_of(system, "\n")
}

/// Extract plain text from a message `content` field.
///
/// Content is either a bare string or an array of content blocks. Only
/// `text` blocks are extracted (image and tool blocks are skipped for the
/// text payload).
pub fn extract_content_text(content: &Json) -> (r: String)
    ensures
        r@ == content_text(content@, ""@),
{
    content_text_of(content, "")
}

// ── request ──────────────────────────────────────────────────────────────

/// The metadata of a `SystemPrompt` block of a request.
pub open spec fn system_metadata(model: Seq<char>, tools: JsonView) -> JsonView {
    JsonView::Object(
        map![
            "source"@ => JsonView::Str("anthropic_request"@),
            "model"@ => JsonView::Str(model),
            "tools"@ => tools,
        ],
    )
}

/// The metadata of a `UserPrompt` block of a request.
pub open spec fn prompt_metadata(model: Seq<char>) -> JsonView {
    JsonView::Object(
        map![
            "source"@ => JsonView::Str("anthropic_request"@),
            "model"@ => JsonView::Str(model),
        ],
    )
}

/// The text of a message with the role `user`; nothing for other roles.
pub open spec fn user_text(message: JsonView) -> Option<Seq<char>> {
    if message.text_or_empty("role"@) == "user"@ {
        match message.field("content"@) {
            Some(content) => Some(content_text(content, ""@)),
            None => Some(Seq::empty()),
        }
    } else {
        None
    }
}

/// One `UserPrompt` per user-role message, in order, with the text of the message.
pub open spec fn user_drafts(messages: Seq<JsonView>, model: Seq<char>) -> Seq<DraftView>
    decreases messages.len(),
{
    if messages.len() == 0 {
        Seq::empty()
    } else {
        let front = user_drafts(messages.drop_last(), model);
        match user_text(messages.last()) {
            Some(t) => front.push(
                DraftView {
                    block_type: BlockType::UserPrompt,
                    content: encode_utf8(t),
                    metadata: prompt_metadata(model),
                },
            ),
            None => front,
        }
    }
}

/// The system prompt of a request: the text of its `system` field.
pub open spec fn system_text(root: JsonView) -> Seq<char> {
    match root.field("system"@) {
        Some(system) => content_text(system, "\n"@),
        None => Seq::empty(),
    }
}

/// The tool definitions of a request, `null` where it has none.
pub open spec fn tool_definitions(root: JsonView) -> JsonView {
    match root.field("tools"@) {
        Some(tools) => tools,
        None => JsonView::Null,
    }
}

/// The messages of a request.
pub open spec fn request_messages(root: JsonView) -> Seq<JsonView> {
    match root.field("messages"@) {
        Some(v) => match v.items() {
            Some(items) => items,
            None => Seq::empty(),
        },
        None => Seq::empty(),
    }
}

/// The system prompt draft of a request: one where there is a system prompt or
/// a tool definition, none else.
pub open spec fn system_drafts(root: JsonView) -> Seq<DraftView> {
    let text = system_text(root);
    let tools = tool_definitions(root);
    if text.len() > 0 || tools !is Null {
        seq![
            DraftView {
                block_type: BlockType::SystemPrompt,
                content: encode_utf8(text),
                metadata: system_metadata(root.text_or_empty("model"@), tools),
            },
        ]
    } else {
        Seq::empty()
    }
}

/// What a request says: its system prompt, then its user prompts.
pub open spec fn request_drafts(root: JsonView) -> Seq<DraftView> {
    system_drafts(root) + user_drafts(request_messages(root), root.text_or_empty("model"@))
}

/// What the body of a request says; nothing where it is no JSON.
pub open spec fn request_body_drafts(body: Seq<u8>) -> Seq<DraftView> {
    match crate::json::read_document(body) {
        Some(root) => request_drafts(root),
        None => Seq::empty(),
    }
}

fn system_metadata_of(model: &str, tools: Json) -> (r: Json)
    ensures
        r@ == system_metadata(model@, tools@),
{
    let mut entries: Vec<(String, Json)> = Vec::new();
    put(&mut entries, "source", text_json("anthropic_request"));
    put(&mut entries, "model", text_json(model));
    put(&mut entries, "tools", tools);
    Json::Object(entries)
}

fn prompt_metadata_of(model: &str) -> (r: Json)
    ensures
        r@ == prompt_metadata(model@),
{
    let mut entries: Vec<(String, Json)> = Vec::new();
    put(&mut entries, "source", text_json("anthropic_request"));
    put(&mut entries, "model", text_json(model));
    Json::Object(entries)
}

fn user_text_of(message: &Json) -> (r: Option<String>)
    ensures
        match r {
            Some(t) => user_text(message@) == Some(t@),
            None => user_text(message@) is None,
        },
{
    let role = message.text_or_empty("role");
    if !same_text(role.as_str(), "user") {
        return None;
    }
    match message.get("content") {
        Some(content) => Some(extract_content_text(content)),
        None => Some(String::new()),
    }
}

/// The drafts of a request that was read as `root`: at most one `SystemPrompt`
/// (carrying tool definitions in metadata), then one `UserPrompt` per
/// user-role message.
pub fn read_request(root: &Json) -> (r: Vec<Draft>)
    ensures
        draft_views(r@) == request_drafts(root@),
{
    let model = root.text_or_empty("model");
    let system_text = match root.get("system") {
        Some(system) => extract_system_text(system),
        None => String::new(),
    };
    let tools = match root.get("tools") {
        Some(tools) => tools.clone(),
        None => Json::Null,
    };
    let mut out: Vec<Draft> = Vec::new();
    if !system_text.as_str().is_empty() || !tools.is_null() {
        out.push(
            Draft {
                block_type: BlockType::SystemPrompt,
                content: system_text.as_str().as_bytes_vec(),
                metadata: system_metadata_of(model.as_str(), tools),
            },
        );
    }
    let ghost head = draft_views(out@);
    assert(head =~= system_drafts(root@));
    if let Some(value) = root.get("messages") {
        if let Some(messages) = value.as_array() {
            let mut i: usize = 0;
            assert(draft_views(out@) =~= head + user_drafts(
                crate::json::items_view(messages@.take(0)),
                model@,
            ));
            while i < messages.len()
                invariant
                    i <= messages@.len(),
                    draft_views(out@) == head + user_drafts(
                        crate::json::items_view(messages@.take(i as int)),
                        model@,
                    ),
                decreases messages@.len() - i,
            {
                proof {
                    assert(messages@.take(i + 1).drop_last() =~= messages@.take(i as int));
                    assert(crate::json::items_view(messages@.take(i + 1)).drop_last() =~= crate::json::items_view(
                        messages@.take(i as int),
                    ));
                }
                if let Some(text) = user_text_of(&messages[i]) {
                    let draft = Draft {
                        block_type: BlockType::UserPrompt,
                        content: text.as_str().as_bytes_vec(),
                        metadata: prompt_metadata_of(model.as_str()),
                    };
                    let ghost before = out@;
                    out.push(draft);
                    assert(draft_views(out@) =~= draft_views(before).push(draft@));
                }
                i = i + 1;
                assert(draft_views(out@) =~= head + user_drafts(
                    crate::json::items_view(messages@.take(i as int)),
                    model@,
                ));
            }
            assert(messages@.take(messages@.len() as int) =~= messages@);
            return out;
        }
    }
    assert(draft_views(out@) =~= request_drafts(root@));
    out
}

/// Parse an Anthropic Messages API request body into blocks.
///
/// Produces at most one `SystemPrompt` block (carrying tool definitions in
/// metadata) plus one `UserPrompt` block per user-role message.
/// Silently returns an empty vec on invalid JSON so the capture pipeline
/// never crashes on a malformed payload.
pub fn parse_anthropic_request(body: &[u8], ctx: &mut SessionContext) -> (r: Vec<HarnessBlock>)
    ensures
        all_stamped(request_body_drafts(body@), old(ctx)@, r@),
        final(ctx)@ == old(ctx)@.advanced(r@.len()),
{
    let drafts = match Json::parse(body) {
        Some(root) => read_request(&root),
        None => {
            let none: Vec<Draft> = Vec::new();
            assert(draft_views(none@) =~= Seq::empty());
            none
        },
    };
    make_blocks(ctx, drafts)
}

// ── response ─────────────────────────────────────────────────────────────

/// What a response says, apart from its form.
#[derive(Debug)]
pub struct ParsedResponse {
    pub text: String,
    pub model: String,
    pub stop_reason: String,
    pub input_tokens: u64,
    pub output_tokens: u64,
}

/// What a [`ParsedResponse`] says.
pub struct ResponseView {
    pub text: Seq<char>,
    pub model: Seq<char>,
    pub stop_reason: Seq<char>,
    pub input_tokens: u64,
    pub output_tokens: u64,
}

impl View for ParsedResponse {
    type V = ResponseView;

    open spec fn view(&self) -> ResponseView {
        ResponseView {
            text: self.text@,
            model: self.model@,
            stop_reason: self.stop_reason@,
            input_tokens: self.input_tokens,
            output_tokens: self.output_tokens,
        }
    }
}

/// The metadata of a `Response` block.
pub open spec fn response_metadata(p: ResponseView) -> JsonView {
    JsonView::Object(
        map![
            "source"@ => JsonView::Str("anthropic_response"@),
            "model"@ => JsonView::Str(p.model),
            "stop_reason"@ => JsonView::Str(p.stop_reason),
            "usage"@ => JsonView::Object(
                map![
                    "input_tokens"@ => JsonView::Integer(p.input_tokens as int),
                    "output_tokens"@ => JsonView::Integer(p.output_tokens as int),
                ],
            ),
        ],
    )
}

/// The `Response` block of a response.
pub open spec fn response_draft(p: ResponseView) -> DraftView {
    DraftView {
        block_type: BlockType::Response,
        content: encode_utf8(p.text),
        metadata: response_metadata(p),
    }
}

/// What a non-streaming response says.
pub open spec fn json_response(root: JsonView) -> ResponseView {
    let usage = match root.field("usage"@) {
        Some(u) => u,
        None => JsonView::Null,
    };
    ResponseView {
        text: match root.field("content"@) {
            Some(JsonView::Array(blocks)) => crate::text::join(block_texts(blocks), ""@),
            _ => Seq::empty(),
        },
        model: root.text_or_empty("model"@),
        stop_reason: root.text_or_empty("stop_reason"@),
        input_tokens: usage.unsigned_or("input_tokens"@, 0),
        output_tokens: usage.unsigned_or("output_tokens"@, 0),
    }
}

/// A stream of which no event has been seen.
pub open spec fn empty_response() -> ResponseView {
    ResponseView {
        text: Seq::empty(),
        model: Seq::empty(),
        stop_reason: Seq::empty(),
        input_tokens: 0,
        output_tokens: 0,
    }
}

/// `message_start` names the model and the first token counts.
pub open spec fn after_message_start(state: ResponseView, event: JsonView) -> ResponseView {
    match event.field("message"@) {
        Some(message) => {
            let named = ResponseView { model: message.text_or_empty("model"@), ..state };
            match message.field("usage"@) {
                Some(usage) => ResponseView {
                    input_tokens: usage.unsigned_or("input_tokens"@, 0),
                    output_tokens: usage.unsigned_or("output_tokens"@, 1),
                    ..named
                },
                None => named,
            }
        },
        None => state,
    }
}

/// The text of a `text_delta`.
pub open spec fn delta_text(event: JsonView) -> Seq<char> {
    match event.field("delta"@) {
        Some(delta) => if delta.field("type"@) is Some && delta.field("type"@)->0.text() == Some(
            "text_delta"@,
        ) {
            delta.text_or_empty("text"@)
        } else {
            Seq::empty()
        },
        None => Seq::empty(),
    }
}

/// `message_delta` gives the stop reason and the last output token count.
pub open spec fn after_message_delta(state: ResponseView, event: JsonView) -> ResponseView {
    ResponseView {
        stop_reason: match event.field("delta"@) {
            Some(delta) => delta.text_or_empty("stop_reason"@),
            None => state.stop_reason,
        },
        output_tokens: match event.field("usage"@) {
            Some(usage) => usage.unsigned_or("output_tokens"@, state.output_tokens),
            None => state.output_tokens,
        },
        ..state
    }
}

/// What a stream says after one more event.
pub open spec fn after_event(state: ResponseView, event: JsonView) -> ResponseView {
    let kind = match event.field("type"@) {
        Some(v) => v.text(),
        None => None,
    };
    if kind == Some("message_start"@) {
        after_message_start(state, event)
    } else if kind == Some("content_block_delta"@) {
        ResponseView { text: state.text + delta_text(event), ..state }
    } else if kind == Some("message_delta"@) {
        after_message_delta(state, event)
    } else {
        state
    }
}

/// What the events of a stream say, in order.
pub open spec fn after_events(events: Seq<JsonView>) -> ResponseView
    decreases events.len(),
{
    if events.len() == 0 {
        empty_response()
    } else {
        after_event(after_events(events.drop_last()), events.last())
    }
}

/// What follows `data:` on a line of a stream, if the line carries data.
pub open spec fn data_payload(line: Seq<char>) -> Option<Seq<char>> {
    let l = crate::text::trim(line);
    if crate::text::starts_with(l, "data: "@) {
        Some(l.skip(6))
    } else if crate::text::starts_with(l, "data:"@) {
        Some(l.skip(5))
    } else {
        None
    }
}

/// The payloads of the data lines among `lines`, in order.
pub open spec fn data_payloads(lines: Seq<Seq<char>>) -> Seq<Seq<char>>
    decreases lines.len(),
{
    if lines.len() == 0 {
        Seq::empty()
    } else {
        let front = data_payloads(lines.drop_last());
        match data_payload(lines.last()) {
            Some(p) => front.push(p),
            None => front,
        }
    }
}

/// The documents among `payloads`, in order; what is no JSON is passed over.
pub open spec fn payload_events(payloads: Seq<Seq<char>>) -> Seq<JsonView>
    decreases payloads.len(),
{
    if payloads.len() == 0 {
        Seq::empty()
    } else {
        let front = payload_events(payloads.drop_last());
        match crate::json::read_document(encode_utf8(payloads.last())) {
            Some(event) => front.push(event),
            None => front,
        }
    }
}

/// What a stream of `events` says; nothing where it has none.
pub open spec fn stream_response(events: Seq<JsonView>) -> Option<ResponseView> {
    if events.len() == 0 {
        None
    } else {
        Some(after_events(events))
    }
}

/// The events of the stream `text`.
pub open spec fn stream_events(text: Seq<char>) -> Seq<JsonView> {
    payload_events(data_payloads(crate::text::lines(text)))
}

/// Whether `text` is taken for a JSON document rather than for a stream.
pub open spec fn looks_like_json(text: Seq<char>) -> bool {
    let t = crate::text::trim_start(text);
    t.len() > 0 && t[0] == '{'
}

/// What the text of a response says, if it is one.
pub open spec fn text_response(text: Seq<char>) -> Option<ResponseView> {
    if looks_like_json(text) {
        match crate::json::read_document(encode_utf8(text)) {
            Some(root) => Some(json_response(root)),
            None => None,
        }
    } else {
        stream_response(stream_events(text))
    }
}

/// The one block of a response, or none where it is not recognised.
pub open spec fn response_drafts(response: Option<ResponseView>) -> Seq<DraftView> {
    match response {
        Some(p) => seq![response_draft(p)],
        None => Seq::empty(),
    }
}

/// What the body of a response says.
pub open spec fn response_body_drafts(body: Seq<u8>) -> Seq<DraftView> {
    response_drafts(text_response(crate::text::lossy_text(body)))
}

fn response_metadata_of(p: &ParsedResponse) -> (r: Json)
    ensures
        r@ == response_metadata(p@),
{
    let mut usage: Vec<(String, Json)> = Vec::new();
    put(&mut usage, "input_tokens", Json::Unsigned(p.input_tokens));
    put(&mut usage, "output_tokens", Json::Unsigned(p.output_tokens));
    let mut entries: Vec<(String, Json)> = Vec::new();
    put(&mut entries, "source", text_json("anthropic_response"));
    put(&mut entries, "model", text_json(p.model.as_str()));
    put(&mut entries, "stop_reason", text_json(p.stop_reason.as_str()));
    put(&mut entries, "usage", Json::Object(usage));
    Json::Object(entries)
}

/// What a non-streaming response that was read as `root` says.
pub fn read_json_response(root: &Json) -> (r: ParsedResponse)
    ensures
        r@ == json_response(root@),
{
    let text = match root.get("content") {
        Some(content) => match content.as_array() {
            Some(blocks) => join_texts(&block_texts_of(blocks), ""),
            None => String::new(),
        },
        None => String::new(),
    };
    let (input_tokens, output_tokens): (u64, u64) = match root.get("usage") {
        Some(usage) => (
            usage.unsigned_or("input_tokens", 0),
            usage.unsigned_or("output_tokens", 0),
        ),
        None => (0, 0),
    };
    ParsedResponse {
        text,
        model: root.text_or_empty("model"),
        stop_reason: root.text_or_empty("stop_reason"),
        input_tokens,
        output_tokens,
    }
}

/// A non-streaming response from its text.
pub fn parse_json_response(text: &str) -> (r: Option<ParsedResponse>)
    ensures
        match r {
            Some(p) => crate::json::read_document(encode_utf8(text@)) is Some && p@ == json_response(
                crate::json::read_document(encode_utf8(text@))->0,
            ),
            None => crate::json::read_document(encode_utf8(text@)) is None,
        },
{
    match Json::parse(text.as_bytes()) {
        Some(root) => Some(read_json_response(&root)),
        None => None,
    }
}

fn note_message_start(state: &mut ParsedResponse, event: &Json)
    ensures
        final(state)@ == after_message_start(old(state)@, event@),
{
    if let Some(message) = event.get("message") {
        state.model = message.text_or_empty("model");
        if let Some(usage) = message.get("usage") {
            state.input_tokens = usage.unsigned_or("input_tokens", 0);
            state.output_tokens = usage.unsigned_or("output_tokens", 1);
        }
    }
}

fn note_content_delta(state: &mut ParsedResponse, event: &Json)
    ensures
        final(state)@ == (ResponseView {
            text: old(state)@.text + delta_text(event@),
            ..old(state)@
        }),
{
    assert(state@.text + Seq::<char>::empty() =~= state@.text);
    if let Some(delta) = event.get("delta") {
        if let Some(kind) = delta.get("type") {
            if let Some(k) = kind.as_str() {
                if same_text(k, "text_delta") {
                    let text = delta.text_or_empty("text");
                    state.text.append(text.as_str());
                }
            }
        }
    }
}

fn note_message_delta(state: &mut ParsedResponse, event: &Json)
    ensures
        final(state)@ == after_message_delta(old(state)@, event@),
{
    if let Some(delta) = event.get("delta") {
        state.stop_reason = delta.text_or_empty("stop_reason");
    }
    if let Some(usage) = event.get("usage") {
        // The count accumulates across the stream; the last reported value counts.
        state.output_tokens = usage.unsigned_or("output_tokens", state.output_tokens);
    }
}

fn note_event(state: &mut ParsedResponse, event: &Json)
    ensures
        final(state)@ == after_event(old(state)@, event@),
{
    proof {
        reveal_strlit("message_start");
        reveal_strlit("content_block_delta");
        reveal_strlit("message_delta");
    }
    if let Some(value) = event.get("type") {
        if let Some(kind) = value.as_str() {
            if same_text(kind, "message_start") {
                note_message_start(state, event);
            } else if same_text(kind, "content_block_delta") {
                note_content_delta(state, event);
            } else if same_text(kind, "message_delta") {
                note_message_delta(state, event);
            }
        }
    }
}

/// What a stream whose events were read as `events` says.
pub fn read_stream(events: &Vec<Json>) -> (r: Option<ParsedResponse>)
    ensures
        match r {
            Some(p) => stream_response(crate::json::items_view(events@)) == Some(p@),
            None => stream_response(crate::json::items_view(events@)) is None,
        },
{
    let mut state = ParsedResponse {
        text: String::new(),
        model: String::new(),
        stop_reason: String::new(),
        input_tokens: 0,
        output_tokens: 0,
    };
    let mut i: usize = 0;
    assert(events@.take(0) =~= Seq::empty());
    while i < events.len()
        invariant
            i <= events@.len(),
            state@ == after_events(crate::json::items_view(events@.take(i as int))),
        decreases events@.len() - i,
    {
        proof {
            assert(events@.take(i + 1).drop_last() =~= events@.take(i as int));
            assert(crate::json::items_view(events@.take(i + 1)).drop_last() =~= crate::json::items_view(
                events@.take(i as int),
            ));
        }
        note_event(&mut state, &events[i]);
        i = i + 1;
    }
    assert(events@.take(events@.len() as int) =~= events@);
    if events.len() == 0 {
        return None;
    }
    Some(state)
}

/// The payloads of the data lines of a stream, in order.
pub fn stream_payloads(text: &str) -> (r: Vec<String>)
    ensures
        r@.map_values(|p: String| p@) == data_payloads(crate::text::lines(text@)),
{
    let lines = lines_of(text);
    let ghost view = |p: String| p@;
    let ghost views = lines@.map_values(view);
    let mut out: Vec<String> = Vec::new();
    let mut i: usize = 0;
    assert(out@.map_values(view) =~= data_payloads(views.take(0)));
    proof {
        reveal_strlit("data: ");
        reveal_strlit("data:");
        assert("data: "@.len() == 6);
        assert("data:"@.len() == 5);
    }
    while i < lines.len()
        invariant
            i <= lines@.len(),
            view == (|p: String| p@),
            views == lines@.map_values(view),
            "data: "@.len() == 6,
            "data:"@.len() == 5,
            out@.map_values(view) == data_payloads(views.take(i as int)),
        decreases lines@.len() - i,
    {
        assert(views.take(i + 1).drop_last() =~= views.take(i as int));
        let line = trimmed(lines[i].as_str());
        let payload = match after_prefix(line.as_str(), "data: ") {
            Some(rest) => Some(rest),
            None => after_prefix(line.as_str(), "data:"),
        };
        if let Some(p) = payload {
            assert(out@.push(p).map_values(view) =~= out@.map_values(view).push(p@));
            out.push(p);
        }
        i = i + 1;
    }
    assert(views.take(views.len() as int) =~= views);
    out
}

/// Parse a reconstructed SSE stream (concatenated chunks) into a response.
///
/// Walks every `data: {json}` line, accumulating `text_delta` content and
/// capturing usage from `message_start` and `message_delta`.
pub fn parse_sse_response(text: &str) -> (r: Option<ParsedResponse>)
    ensures
        match r {
            Some(p) => stream_response(stream_events(text@)) == Some(p@),
            None => stream_response(stream_events(text@)) is None,
        },
{
    let payloads = stream_payloads(text);
    let ghost views = payloads@.map_values(|p: String| p@);
    let mut events: Vec<Json> = Vec::new();
    let mut i: usize = 0;
    assert(crate::json::items_view(events@) =~= payload_events(views.take(0)));
    while i < payloads.len()
        invariant
            i <= payloads@.len(),
            views == payloads@.map_values(|p: String| p@),
            crate::json::items_view(events@) == payload_events(views.take(i as int)),
        decreases payloads@.len() - i,
    {
        assert(views.take(i + 1).drop_last() =~= views.take(i as int));
        if let Some(event) = Json::parse(payloads[i].as_str().as_bytes()) {
            let ghost before = events@;
            events.push(event);
            assert(events@.drop_last() =~= before);
        }
        i = i + 1;
    }
    assert(views.take(views.len() as int) =~= views);
    read_stream(&events)
}

/// What the text of a response says, if it is one: a text that begins with a
/// brace is read as a JSON document, any other as a stream.
pub fn parse_response_text(text: &str) -> (r: Option<ParsedResponse>)
    ensures
        match r {
            Some(p) => text_response(text@) == Some(p@),
            None => text_response(text@) is None,
        },
{
    if first_visible(text) == Some('{') {
        parse_json_response(text)
    } else {
        parse_sse_response(text)
    }
}

/// Parse an Anthropic Messages API response body into a `Response` block.
///
/// Handles both non-streaming JSON, which begins with a brace, and streaming
/// SSE, which is recognised by the presence of `data:` lines. Produces a
/// single block with:
/// - `content` = concatenated assistant text
/// - `metadata` = `{ source, model, stop_reason, usage: { input_tokens, output_tokens } }`
pub fn parse_anthropic_response(body: &[u8], ctx: &mut SessionContext) -> (r: Vec<HarnessBlock>)
    ensures
        all_stamped(response_body_drafts(body@), old(ctx)@, r@),
        valid_utf8(body@) ==> all_stamped(
            response_drafts(text_response(decode_utf8(body@))),
            old(ctx)@,
            r@,
        ),
        final(ctx)@ == old(ctx)@.advanced(r@.len()),
{
    let text = lossy(body);
    let mut drafts: Vec<Draft> = Vec::new();
    if let Some(p) = parse_response_text(text.as_str()) {
        drafts.push(
            Draft {
                block_type: BlockType::Response,
                content: p.text.as_str().as_bytes_vec(),
                metadata: response_metadata_of(&p),
            },
        );
    }
    assert(draft_views(drafts@) =~= response_body_drafts(body@));
    make_blocks(ctx, drafts)
}

}
