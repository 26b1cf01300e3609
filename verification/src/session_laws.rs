//! Laws of a session: how its blocks are named, numbered and recorded, and what
//! its callbacks, its start and its end say.
use vstd::prelude::*;
use vstd::string::*;
use vstd::utf8::*;

use crate::block_builder::DraftView;
use crate::hook_server::HookEvent;
use crate::integration::Integration;
use crate::json::JsonView;
use crate::manager::ProxyHandle;
use crate::schema::{BlockType, BlockView, HarnessBlock, InterceptMode};
use crate::session::ContextView;
use crate::store::StoreError;
use crate::upstream::HarnessType;

verus! {

// ── names ────────────────────────────────────────────────────────────────

/// The name of each block type.
pub proof fn law_name_of_each_block_type()
    ensures
        BlockType::Spawn.name() == "spawn"@,
        BlockType::SystemPrompt.name() == "system_prompt"@,
        BlockType::PromptSegment.name() == "prompt_segment"@,
        BlockType::UserPrompt.name() == "user_prompt"@,
        BlockType::Response.name() == "response"@,
        BlockType::ResponseChunk.name() == "response_chunk"@,
        BlockType::ToolCall.name() == "tool_call"@,
        BlockType::ToolResult.name() == "tool_result"@,
        BlockType::PtyRaw.name() == "pty_raw"@,
        BlockType::Exit.name() == "exit"@,
{
}

/// The name of each intercept mode.
pub proof fn law_name_of_each_mode()
    ensures
        InterceptMode::Full.name() == "full"@,
        InterceptMode::HooksOnly.name() == "hooks_only"@,
        InterceptMode::Bypass.name() == "bypass"@,
{
}

/// The explicit mode counts, whatever the environment says; else the mode that
/// the environment names; else, and where it names no mode, `Full`.
pub proof fn law_mode_of_a_session(
    mode: InterceptMode,
    from_env: Option<Seq<char>>,
    name: Seq<char>,
)
    ensures
        crate::harness_spawn::effective_mode(Some(mode), from_env) == mode,
        crate::harness_spawn::effective_mode(None, Some("full"@)) == InterceptMode::Full,
        crate::harness_spawn::effective_mode(None, Some("hooks_only"@)) == InterceptMode::HooksOnly,
        crate::harness_spawn::effective_mode(None, Some("bypass"@)) == InterceptMode::Bypass,
        name != "hooks_only"@ && name != "bypass"@ ==> crate::harness_spawn::effective_mode(
            None,
            Some(name),
        ) == InterceptMode::Full,
        crate::harness_spawn::effective_mode(None, None) == InterceptMode::Full,
{
    reveal_strlit("full");
    reveal_strlit("hooks_only");
    reveal_strlit("bypass");
    assert("full"@.len() == 4);
    assert("hooks_only"@.len() == 10);
    assert("bypass"@.len() == 6);
}

// ── numbers and times ────────────────────────────────────────────────────

/// A counter stands still without steps, and a step leads to the next number,
/// and from the largest one to zero.
pub proof fn law_next_sequence_number(start: u32)
    ensures
        crate::session::sequence_after(start, 0) == start,
        start < 0xffff_ffff ==> crate::session::sequence_after(start, 1) == start + 1,
        start == 0xffff_ffff ==> crate::session::sequence_after(start, 1) == 0,
{
}

/// Taking numbers leaves the session and its harness as they are.
pub proof fn law_context_keeps_its_session(ctx: ContextView, steps: nat)
    ensures
        ctx.advanced(steps).session_id == ctx.session_id,
        ctx.advanced(steps).harness_type == ctx.harness_type,
        ctx.advanced(steps).upcoming == (ctx.upcoming + steps) % 0x1_0000_0000,
{
}

/// The time of a reading is its milliseconds since the epoch, as far as an
/// `i64` holds them, and zero before the epoch.
pub proof fn law_time_of_a_reading(reading: std::time::SystemTime)
    ensures
        crate::session::clock_time(crate::session::reading_ms(reading)),
        crate::session::span_since_epoch(reading) is None ==> crate::session::reading_ms(reading)
            == 0,
        crate::session::span_since_epoch(reading) matches Some(span) ==> (
        crate::session::whole_millis(span) <= i64::MAX ==> crate::session::reading_ms(reading)
            == crate::session::whole_millis(span)),
{
}

/// A recorded block says what its draft says, in the session and under the
/// harness of the context, with the number that is due, without a parent, at a
/// time of the clock.
pub proof fn law_recorded_block(draft: DraftView, ctx: ContextView, steps: nat, block: BlockView)
    requires
        crate::block_builder::stamped(draft, ctx, steps, block),
    ensures
        crate::schema::random_uuid_text(block.id),
        block.session_id == ctx.session_id,
        block.parent_id is None,
        block.harness_type == ctx.harness_type,
        block.block_type == draft.block_type,
        block.sequence == (ctx.upcoming + steps) % 0x1_0000_0000,
        block.content == draft.content,
        block.metadata == draft.metadata,
        crate::session::clock_time(block.timestamp),
{
}

/// Drafts are recorded one block each, in order, with consecutive numbers from
/// the one that is due.
pub proof fn law_recorded_blocks(
    drafts: Seq<DraftView>,
    ctx: ContextView,
    blocks: Seq<HarnessBlock>,
    i: int,
)
    requires
        crate::block_builder::all_stamped(drafts, ctx, blocks),
        0 <= i < drafts.len(),
    ensures
        blocks.len() == drafts.len(),
        blocks[i]@.session_id == ctx.session_id,
        blocks[i]@.harness_type == ctx.harness_type,
        blocks[i]@.block_type == drafts[i].block_type,
        blocks[i]@.sequence == (ctx.upcoming + i) % 0x1_0000_0000,
        blocks[i]@.content == drafts[i].content,
        blocks[i]@.metadata == drafts[i].metadata,
        crate::schema::random_uuid_text(blocks[i]@.id),
        crate::session::clock_time(blocks[i]@.timestamp),
{
    law_recorded_block(drafts[i], ctx, i as nat, blocks[i]@);
}

/// The text of a random UUID has 36 characters: hyphens behind the digits 8,
/// 12, 16 and 20, the version digit 4, and lower-case hexadecimal digits else.
pub proof fn law_text_of_a_uuid(s: Seq<char>, i: int)
    requires
        crate::schema::random_uuid_text(s),
        0 <= i < 36,
    ensures
        s.len() == 36,
        s[i] == '-' <==> i == 8 || i == 13 || i == 18 || i == 23,
        s[i] != '-' ==> '0' <= s[i] <= '9' || 'a' <= s[i] <= 'f',
        s[14] == '4',
{
}

// ── callbacks ────────────────────────────────────────────────────────────

/// The name of each callback, and the type of the block that it makes.
pub proof fn law_callbacks()
    ensures
        HookEvent::UserPromptSubmit.name() == "user_prompt_submit"@,
        HookEvent::PreToolUse.name() == "pre_tool_use"@,
        HookEvent::PostToolUse.name() == "post_tool_use"@,
        HookEvent::Stop.name() == "stop"@,
        HookEvent::UserPromptSubmit.produces() == BlockType::UserPrompt,
        HookEvent::PreToolUse.produces() == BlockType::ToolCall,
        HookEvent::PostToolUse.produces() == BlockType::ToolResult,
        HookEvent::Stop.produces() == BlockType::Exit,
{
}

/// The block of a callback.
pub open spec fn called_back(
    block_type: BlockType,
    text: Seq<char>,
    event: Seq<char>,
    body: JsonView,
) -> DraftView {
    DraftView {
        block_type,
        content: encode_utf8(text),
        metadata: JsonView::Object(
            map![
                "source"@ => JsonView::Str("hook"@),
                "event"@ => JsonView::Str(event),
                "raw"@ => body,
            ],
        ),
    }
}

/// A submitted prompt makes a `UserPrompt` with the string under `prompt`, and
/// the use of a tool a `ToolCall` before it and a `ToolResult` behind it, with
/// the string under `tool_name`; a missing string counts as empty. The body
/// stands in the metadata as it came, beside the name of the callback.
pub proof fn law_blocks_of_prompts_and_tools(body: JsonView)
    ensures
        crate::hook_server::hook_draft(HookEvent::UserPromptSubmit, body) == called_back(
            BlockType::UserPrompt,
            crate::request_laws::text_under(body, "prompt"@),
            "user_prompt_submit"@,
            body,
        ),
        crate::hook_server::hook_draft(HookEvent::PreToolUse, body) == called_back(
            BlockType::ToolCall,
            crate::request_laws::text_under(body, "tool_name"@),
            "pre_tool_use"@,
            body,
        ),
        crate::hook_server::hook_draft(HookEvent::PostToolUse, body) == called_back(
            BlockType::ToolResult,
            crate::request_laws::text_under(body, "tool_name"@),
            "post_tool_use"@,
            body,
        ),
{
}

/// A stop makes an `Exit` with the decimal of the integer under `exit_code`,
/// where an `i64` holds it, and with a zero else.
pub proof fn law_block_of_a_stop(body: JsonView, code: int)
    ensures
        crate::request_laws::carries(body, "exit_code"@, JsonView::Integer(code))
            && -0x8000_0000_0000_0000 <= code <= 0x7fff_ffff_ffff_ffff
            ==> crate::hook_server::hook_draft(HookEvent::Stop, body) == called_back(
            BlockType::Exit,
            crate::text::signed_decimal(code),
            "stop"@,
            body,
        ),
        !(body is Object && body->Object_0.contains_key("exit_code"@)
            && body->Object_0["exit_code"@] is Integer && -0x8000_0000_0000_0000
            <= body->Object_0["exit_code"@]->Integer_0 <= 0x7fff_ffff_ffff_ffff)
            ==> crate::hook_server::hook_draft(HookEvent::Stop, body) == called_back(
            BlockType::Exit,
            seq!['0'],
            "stop"@,
            body,
        ),
{
    assert(crate::text::signed_decimal(0) =~= seq!['0']);
}

/// The hook server is reached on this machine, by its port.
pub proof fn law_url_of_the_hook_server(port: u16)
    ensures
        crate::hook_server::hook_url(port) == "http://127.0.0.1:"@ + crate::text::decimal(
            port as nat,
        ),
{
}

// ── start and end ────────────────────────────────────────────────────────

/// A session starts with an empty `Spawn` that names its mode and its harness.
pub proof fn law_block_of_a_spawn(harness_type: Seq<char>, mode: InterceptMode)
    ensures
        crate::harness_spawn::spawn_draft(mode, harness_type) == (DraftView {
            block_type: BlockType::Spawn,
            content: Seq::empty(),
            metadata: JsonView::Object(
                map![
                    "mode"@ => JsonView::Str(
                        match mode {
                            InterceptMode::Full => "full"@,
                            InterceptMode::HooksOnly => "hooks_only"@,
                            InterceptMode::Bypass => "bypass"@,
                        },
                    ),
                    "harness_type"@ => JsonView::Str(harness_type),
                ],
            ),
        }),
{
}

/// A session ends with an empty `Exit` that names its exit code, whatever that
/// is.
pub proof fn law_block_of_an_exit(exit_code: i32)
    ensures
        crate::harness_spawn::exit_draft(exit_code) == (DraftView {
            block_type: BlockType::Exit,
            content: Seq::empty(),
            metadata: JsonView::Object(map!["exit_code"@ => JsonView::Integer(exit_code as int)]),
        }),
{
}

/// A harness learns of the hook server through one variable, and gets none
/// where there is no server.
pub proof fn law_variable_of_the_hook_server(url: &str)
    ensures
        crate::harness_spawn::hook_env(Some(url)) == seq![("ZAP_HOOK_SERVER_URL"@, url@)],
        crate::harness_spawn::hook_env(None).len() == 0,
{
}

/// In `Full` mode the variables of the proxy come first, whether or not there
/// is a hook server.
pub proof fn law_variables_of_the_proxy_come_first(
    proxy: ProxyHandle,
    hook_url: Option<&str>,
    harness: HarnessType,
    i: int,
)
    requires
        0 <= i < crate::manager::injected(proxy, harness).len(),
    ensures
        crate::harness_spawn::spawn_env(InterceptMode::Full, Some(&proxy), hook_url, harness).len()
            == crate::manager::injected(proxy, harness).len() + (if hook_url is Some {
            1int
        } else {
            0
        }),
        crate::harness_spawn::spawn_env(InterceptMode::Full, Some(&proxy), hook_url, harness)[i]
            == crate::manager::injected(proxy, harness)[i],
{
}

/// Of two variables with one name the later counts: what stands behind
/// overrides what stands before.
pub proof fn law_later_variables_count(a: Seq<(String, String)>, b: Seq<(String, String)>)
    ensures
        crate::harness_spawn::env_map_of(a + b) == crate::harness_spawn::env_map_of(
            a,
        ).union_prefer_right(crate::harness_spawn::env_map_of(b)),
    decreases b.len(),
{
    if b.len() == 0 {
        assert(a + b =~= a);
        assert(crate::harness_spawn::env_map_of(a).union_prefer_right(
            crate::harness_spawn::env_map_of(b),
        ) =~= crate::harness_spawn::env_map_of(a));
    } else {
        law_later_variables_count(a, b.drop_last());
        assert((a + b).drop_last() =~= a + b.drop_last());
        assert(crate::harness_spawn::env_map_of(a + b) =~= crate::harness_spawn::env_map_of(
            a,
        ).union_prefer_right(crate::harness_spawn::env_map_of(b)));
    }
}

/// One variable makes a map of its name to its value.
pub proof fn law_one_variable(name: String, value: String)
    ensures
        crate::harness_spawn::env_map_of(seq![(name, value)]) == map![name@ => value@],
{
    let one = seq![(name, value)];
    assert(one.drop_last() =~= Seq::empty());
    assert(crate::harness_spawn::env_map_of(one.drop_last()) =~= Map::empty());
    assert(crate::harness_spawn::env_map_of(one) =~= map![name@ => value@]);
}

/// A map of texts has the keys of the map of strings, and their characters.
pub proof fn law_texts_of_values(m: Map<Seq<char>, String>, name: Seq<char>)
    ensures
        crate::harness_spawn::value_texts(m).contains_key(name) <==> m.contains_key(name),
        m.contains_key(name) ==> crate::harness_spawn::value_texts(m)[name] == m[name]@,
{
}

// ── what is recorded ─────────────────────────────────────────────────────

/// A block that the store took stands in its table under its id, and is new;
/// every other row stays as it was. A block that it did not take changes
/// nothing.
pub proof fn law_recording_adds_one_row(
    before: Map<Seq<char>, crate::store::BlockRecord>,
    after: Map<Seq<char>, crate::store::BlockRecord>,
    block: HarnessBlock,
    result: Result<(), StoreError>,
    other: Seq<char>,
)
    requires
        crate::hook_server::stored_as(before, after, block, result),
        other != block@.id,
    ensures
        result is Ok ==> !before.contains_key(block@.id) && after.contains_key(block@.id)
            && after[block@.id] == crate::store::encoded(block@),
        result is Ok ==> (after.contains_key(other) <==> before.contains_key(other)),
        result is Ok && before.contains_key(other) ==> after[other] == before[other],
        result is Err ==> after == before,
{
}

/// Recording a block takes one number and leaves all of the session but its
/// store and its counter as it was.
pub proof fn law_recording_leaves_the_rest(
    before: Integration,
    after: Integration,
    block: HarnessBlock,
    result: Result<(), StoreError>,
)
    requires
        crate::integration::only_recorded(before, after, block, result),
    ensures
        after.context@.session_id == before.context@.session_id,
        after.context@.harness_type == before.context@.harness_type,
        after.context@.upcoming == (before.context@.upcoming + 1) % 0x1_0000_0000,
        result matches Err(e) ==> e is Database,
        after.raw_cache == before.raw_cache,
        after.processor == before.processor,
        after.hook_server == before.hook_server,
        after.proxy == before.proxy,
        after.store.same_database(before.store),
        before.store.in_memory() && result is Err ==> after.store.table() == before.store.table(),
        before.store.in_memory() && result is Ok ==> after.store.table()
            == before.store.table().insert(block@.id, crate::store::encoded(block@)),
{
}

}
