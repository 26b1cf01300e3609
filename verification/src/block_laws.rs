//! Laws of block construction: which blocks a request and a response give, and
//! which of them a store gives back as they were.
use vstd::prelude::*;
use vstd::seq_lib::*;
use vstd::string::*;
use vstd::utf8::*;

use crate::block_builder::{DraftView, ResponseView};
use crate::json::JsonView;
use crate::raw_processor::{CaptureView, Recorded};
use crate::schema::{BlockType, BlockView, InterceptMode};
use crate::session::ContextView;
use crate::store::BlockRecord;

verus! {

// ── requests ─────────────────────────────────────────────────────────────

/// Every draft of user messages is a `UserPrompt` with the model of the request.
proof fn lemma_user_drafts_are_prompts(messages: Seq<JsonView>, model: Seq<char>)
    ensures
        forall|i: int|
            0 <= i < crate::block_builder::user_drafts(messages, model).len() ==> (
            #[trigger] crate::block_builder::user_drafts(messages, model)[i]).block_type
                == BlockType::UserPrompt,
    decreases messages.len(),
{
    if messages.len() > 0 {
        lemma_user_drafts_are_prompts(messages.drop_last(), model);
    }
}

/// A request gives at most one `SystemPrompt`, and before all else; what
/// follows are `UserPrompt`s.
pub proof fn law_system_prompt_comes_first(root: JsonView)
    ensures
        forall|i: int|
            #![trigger crate::block_builder::request_drafts(root)[i]]
            0 <= i < crate::block_builder::request_drafts(root).len() ==> {
                let t = crate::block_builder::request_drafts(root)[i].block_type;
                (t == BlockType::SystemPrompt || t == BlockType::UserPrompt) && (t
                    == BlockType::SystemPrompt ==> i == 0)
            },
{
    lemma_user_drafts_are_prompts(
        crate::block_builder::request_messages(root),
        root.text_or_empty("model"@),
    );
}

/// The messages with the role `user`, in order.
pub open spec fn user_messages(messages: Seq<JsonView>) -> Seq<JsonView>
    decreases messages.len(),
{
    if messages.len() == 0 {
        Seq::empty()
    } else if messages.last().text_or_empty("role"@) == "user"@ {
        user_messages(messages.drop_last()).push(messages.last())
    } else {
        user_messages(messages.drop_last())
    }
}

/// A request gives one `UserPrompt` for each user-role message, in order, with
/// the text of the message.
pub proof fn law_one_prompt_per_user_message(messages: Seq<JsonView>, model: Seq<char>)
    ensures
        crate::block_builder::user_drafts(messages, model).len() == user_messages(messages).len(),
        forall|i: int|
            0 <= i < user_messages(messages).len() ==> (
            #[trigger] crate::block_builder::user_drafts(messages, model)[i]) == (DraftView {
                block_type: BlockType::UserPrompt,
                content: encode_utf8(
                    crate::block_builder::user_text(user_messages(messages)[i])->0,
                ),
                metadata: crate::block_builder::prompt_metadata(model),
            }),
    decreases messages.len(),
{
    if messages.len() > 0 {
        law_one_prompt_per_user_message(messages.drop_last(), model);
    }
}

// ── responses ────────────────────────────────────────────────────────────

/// A response gives at most one block, and that is a `Response`.
pub proof fn law_at_most_one_response(body: Seq<u8>)
    ensures
        crate::block_builder::response_body_drafts(body).len() <= 1,
        forall|i: int|
            0 <= i < crate::block_builder::response_body_drafts(body).len() ==> (
            #[trigger] crate::block_builder::response_body_drafts(body)[i]).block_type
                == BlockType::Response,
{
}

/// A response is recognised by its form: a text that begins with an object
/// where it is a document, any other text where its data lines carry events.
pub proof fn law_response_is_told_by_its_form(text: Seq<char>)
    ensures
        crate::block_builder::looks_like_json(text) ==> (crate::block_builder::text_response(
            text,
        ) is Some <==> crate::json::read_document(encode_utf8(text)) is Some),
        !crate::block_builder::looks_like_json(text) ==> (crate::block_builder::text_response(
            text,
        ) is Some <==> crate::block_builder::stream_events(text).len() > 0),
{
}

/// The text that an event adds to the response of its stream.
pub open spec fn added_text(event: JsonView) -> Seq<char> {
    if event.field("type"@) is Some && event.field("type"@)->0.text() == Some(
        "content_block_delta"@,
    ) {
        crate::block_builder::delta_text(event)
    } else {
        Seq::empty()
    }
}

/// The text of a streamed response is what its text deltas say, one after
/// another.
pub proof fn law_stream_text_is_its_deltas(events: Seq<JsonView>)
    ensures
        crate::block_builder::after_events(events).text == events.map_values(
            |e: JsonView| added_text(e),
        ).flatten(),
    decreases events.len(),
{
    let added = events.map_values(|e: JsonView| added_text(e));
    added.lemma_flatten_and_flatten_alt_are_equivalent();
    if events.len() > 0 {
        let front = events.drop_last();
        let before = front.map_values(|e: JsonView| added_text(e));
        law_stream_text_is_its_deltas(front);
        before.lemma_flatten_and_flatten_alt_are_equivalent();
        assert(added.drop_last() =~= before);
        lemma_kinds_distinct();
        assert(crate::block_builder::after_events(events).text =~= before.flatten() + added_text(
            events.last(),
        ));
    }
}

proof fn lemma_kinds_distinct()
    ensures
        "message_start"@ != "content_block_delta"@,
        "message_delta"@ != "content_block_delta"@,
{
    reveal_strlit("message_start");
    reveal_strlit("message_delta");
    reveal_strlit("content_block_delta");
    assert("message_start"@[0] == 'm');
    assert("message_delta"@[0] == 'm');
    assert("content_block_delta"@[0] == 'c');
}

/// Whether a line of a stream carries an event.
pub open spec fn carries_event(line: Seq<char>) -> bool {
    match crate::block_builder::data_payload(line) {
        Some(payload) => crate::json::read_document(encode_utf8(payload)) is Some,
        None => false,
    }
}

/// The events of the lines of a stream.
pub open spec fn line_events(lines: Seq<Seq<char>>) -> Seq<JsonView> {
    crate::block_builder::payload_events(crate::block_builder::data_payloads(lines))
}

proof fn lemma_payloads_add(a: Seq<Seq<char>>, b: Seq<Seq<char>>)
    ensures
        crate::block_builder::data_payloads(a + b) == crate::block_builder::data_payloads(a)
            + crate::block_builder::data_payloads(b),
    decreases b.len(),
{
    if b.len() == 0 {
        assert(a + b =~= a);
        assert(crate::block_builder::data_payloads(a) + crate::block_builder::data_payloads(b)
            =~= crate::block_builder::data_payloads(a));
    } else {
        lemma_payloads_add(a, b.drop_last());
        assert((a + b).drop_last() =~= a + b.drop_last());
        assert(crate::block_builder::data_payloads(a + b) =~= crate::block_builder::data_payloads(
            a,
        ) + crate::block_builder::data_payloads(b));
    }
}

proof fn lemma_payload_events_add(a: Seq<Seq<char>>, b: Seq<Seq<char>>)
    ensures
        crate::block_builder::payload_events(a + b) == crate::block_builder::payload_events(a)
            + crate::block_builder::payload_events(b),
    decreases b.len(),
{
    if b.len() == 0 {
        assert(a + b =~= a);
        assert(crate::block_builder::payload_events(a) + crate::block_builder::payload_events(b)
            =~= crate::block_builder::payload_events(a));
    } else {
        lemma_payload_events_add(a, b.drop_last());
        assert((a + b).drop_last() =~= a + b.drop_last());
        assert(crate::block_builder::payload_events(a + b) =~= crate::block_builder::payload_events(
            a,
        ) + crate::block_builder::payload_events(b));
    }
}

/// The events of lines follow those of the lines before them.
pub proof fn lemma_line_events_add(a: Seq<Seq<char>>, b: Seq<Seq<char>>)
    ensures
        line_events(a + b) == line_events(a) + line_events(b),
{
    lemma_payloads_add(a, b);
    lemma_payload_events_add(
        crate::block_builder::data_payloads(a),
        crate::block_builder::data_payloads(b),
    );
}

proof fn lemma_no_event(line: Seq<char>)
    requires
        !carries_event(line),
    ensures
        line_events(seq![line]).len() == 0,
{
    let one = seq![line];
    assert(one.drop_last() =~= Seq::empty());
    assert(crate::block_builder::data_payloads(one.drop_last()).len() == 0);
    let payloads = crate::block_builder::data_payloads(one);
    if payloads.len() > 0 {
        assert(payloads.drop_last() =~= Seq::empty());
        assert(crate::block_builder::payload_events(payloads.drop_last()).len() == 0);
    }
}

/// A line that carries no event changes nothing between the lines of a stream:
/// an `event:` line, a blank line, or data that is no document.
pub proof fn law_lines_without_event_do_not_count(
    before: Seq<Seq<char>>,
    line: Seq<char>,
    after: Seq<Seq<char>>,
)
    requires
        !carries_event(line),
    ensures
        line_events(before + seq![line] + after) == line_events(before + after),
        crate::block_builder::stream_response(line_events(before + seq![line] + after))
            == crate::block_builder::stream_response(line_events(before + after)),
{
    lemma_line_events_add(before + seq![line], after);
    lemma_line_events_add(before, seq![line]);
    lemma_line_events_add(before, after);
    lemma_no_event(line);
    assert(line_events(before) + line_events(seq![line]) =~= line_events(before));
}

/// A line that carries no event may stand anywhere between the lines of the
/// text of a stream.
pub proof fn law_text_without_event_does_not_count(
    before: Seq<char>,
    line: Seq<char>,
    after: Seq<char>,
)
    requires
        before.len() == 0 || before.last() == '\n',
        !line.contains('\n'),
        !carries_event(crate::text::strip_cr(line)),
    ensures
        crate::block_builder::stream_events(before + line.push('\n') + after)
            == crate::block_builder::stream_events(before + after),
{
    let lines = crate::text::lines(before);
    crate::text_laws::law_lines_of_parts(before + line.push('\n'), after);
    crate::text_laws::law_lines_of_parts(before, line.push('\n'));
    crate::text_laws::law_lines_of_parts(before, after);
    crate::text_laws::lemma_ended_line(line);
    law_lines_without_event_do_not_count(
        lines,
        crate::text::strip_cr(line),
        crate::text::lines(after),
    );
}

// ── metadata ─────────────────────────────────────────────────────────────

/// No key that the library writes is kept by `serde_json` for itself.
proof fn lemma_keys_are_not_reserved()
    ensures
        "source"@ != crate::json::RAW_KEY@,
        "model"@ != crate::json::RAW_KEY@,
        "tools"@ != crate::json::RAW_KEY@,
        "stop_reason"@ != crate::json::RAW_KEY@,
        "usage"@ != crate::json::RAW_KEY@,
        "input_tokens"@ != crate::json::RAW_KEY@,
        "output_tokens"@ != crate::json::RAW_KEY@,
        "mode"@ != crate::json::RAW_KEY@,
        "harness_type"@ != crate::json::RAW_KEY@,
        "exit_code"@ != crate::json::RAW_KEY@,
        "event"@ != crate::json::RAW_KEY@,
        "raw"@ != crate::json::RAW_KEY@,
{
    reveal_strlit("$serde_json::private::RawValue");
    assert(crate::json::RAW_KEY@[0] == '$');
    reveal_strlit("source");
    assert("source"@[0] == 's');
    reveal_strlit("model");
    assert("model"@[0] == 'm');
    reveal_strlit("tools");
    assert("tools"@[0] == 't');
    reveal_strlit("stop_reason");
    assert("stop_reason"@[0] == 's');
    reveal_strlit("usage");
    assert("usage"@[0] == 'u');
    reveal_strlit("input_tokens");
    assert("input_tokens"@[0] == 'i');
    reveal_strlit("output_tokens");
    assert("output_tokens"@[0] == 'o');
    reveal_strlit("mode");
    assert("mode"@[0] == 'm');
    reveal_strlit("harness_type");
    assert("harness_type"@[0] == 'h');
    reveal_strlit("exit_code");
    assert("exit_code"@[0] == 'e');
    reveal_strlit("event");
    assert("event"@[0] == 'e');
    reveal_strlit("raw");
    assert("raw"@[0] == 'r');
}

/// The metadata of `Response` blocks, of the blocks of the life of a session,
/// and of prompts is restorable, so that a store gives these blocks back as
/// they were.
pub proof fn law_metadata_is_restorable(
    response: ResponseView,
    model: Seq<char>,
    mode: InterceptMode,
    harness_type: Seq<char>,
    exit_code: i32,
)
    ensures
        crate::json::restorable(crate::block_builder::response_metadata(response)),
        crate::json::restorable(crate::block_builder::prompt_metadata(model)),
        crate::json::restorable(
            crate::harness_spawn::spawn_draft(mode, harness_type).metadata,
        ),
        crate::json::restorable(crate::harness_spawn::exit_draft(exit_code).metadata),
{
    reveal_with_fuel(crate::json::plain, 4);
    lemma_keys_are_not_reserved();
}

/// The metadata of a `SystemPrompt` is restorable where the tool definitions
/// leave one level of nesting to the object around them.
pub proof fn law_system_metadata_is_restorable(model: Seq<char>, tools: JsonView)
    requires
        crate::json::plain(tools, 126),
    ensures
        crate::json::restorable(crate::block_builder::system_metadata(model, tools)),
{
    reveal_with_fuel(crate::json::plain, 2);
    lemma_keys_are_not_reserved();
}

/// The metadata of a block of a hook is restorable where the body of the
/// callback leaves one level of nesting to the object around it.
pub proof fn law_hook_metadata_is_restorable(
    event: crate::hook_server::HookEvent,
    body: JsonView,
)
    requires
        crate::json::plain(body, 126),
    ensures
        crate::json::restorable(crate::hook_server::hook_metadata(event, body)),
{
    reveal_with_fuel(crate::json::plain, 2);
    lemma_keys_are_not_reserved();
}

// ── the life of a session ────────────────────────────────────────────────

/// In every mode, `Bypass` too, a session that recorded its spawn and its exit
/// lists these two blocks, and nothing else where nothing else was recorded.
pub proof fn law_spawn_and_exit_are_listed(
    ctx: ContextView,
    mode: InterceptMode,
    exit_code: i32,
    spawn: BlockView,
    exit: BlockView,
    rows: Seq<BlockRecord>,
)
    requires
        crate::block_builder::stamped(
            crate::harness_spawn::spawn_draft(mode, ctx.harness_type),
            ctx,
            0,
            spawn,
        ),
        crate::block_builder::stamped(
            crate::harness_spawn::exit_draft(exit_code),
            ctx.advanced(1),
            0,
            exit,
        ),
        ctx.upcoming < u32::MAX,
        spawn.id != exit.id,
        crate::store::selects(
            crate::store_laws::table_of(seq![spawn, exit]),
            crate::store::blocks_of(ctx.session_id, None, None),
            rows,
        ),
    ensures
        rows == seq![crate::store::encoded(spawn), crate::store::encoded(exit)],
{
    let blocks = seq![spawn, exit];
    assert(spawn.sequence == ctx.upcoming);
    assert(exit.sequence == ctx.upcoming + 1);
    crate::store_laws::law_listing_is_what_was_inserted(blocks, ctx.session_id, rows);
    assert(crate::store_laws::rows_of(blocks) =~= seq![
        crate::store::encoded(spawn),
        crate::store::encoded(exit),
    ]);
}

// ── sequence numbers ─────────────────────────────────────────────────────

proof fn lemma_blocks_before(records: Seq<Recorded>, i: int, j: int)
    requires
        0 <= i < j <= records.len(),
    ensures
        crate::raw_processor::blocks_in(records.take(i)) + records[i].blocks@.len()
            <= crate::raw_processor::blocks_in(records.take(j)),
    decreases j,
{
    assert(records.take(j).drop_last() =~= records.take(j - 1));
    if i < j - 1 {
        lemma_blocks_before(records, i, j - 1);
    }
}

/// No two blocks of a run of events have one sequence number, unless the run
/// gives more than 2^32 blocks.
pub proof fn law_recorded_sequences_differ(
    captures: Seq<CaptureView>,
    records: Seq<Recorded>,
    ctx: ContextView,
    i: int,
    a: int,
    j: int,
    b: int,
)
    requires
        crate::raw_processor::recorded_in_turn(captures, records, ctx),
        crate::raw_processor::blocks_in(records) <= 0x1_0000_0000,
        0 <= i < records.len(),
        0 <= a < records[i].blocks@.len(),
        0 <= j < records.len(),
        0 <= b < records[j].blocks@.len(),
        i < j || (i == j && a < b),
    ensures
        records[i].blocks@[a]@.sequence != records[j].blocks@[b]@.sequence,
{
    let before_i = crate::raw_processor::blocks_in(records.take(i));
    let before_j = crate::raw_processor::blocks_in(records.take(j));
    lemma_blocks_before(records, j, records.len() as int);
    assert(records.take(records.len() as int) =~= records);
    if i < j {
        lemma_blocks_before(records, i, j);
    }
    let m = (before_i + a) as nat;
    let n = (before_j + b) as nat;
    crate::session::law_sequence_numbers_unique(ctx.upcoming, m, n);
    crate::session::law_sequence_steps_add(ctx.upcoming, before_i, a as nat);
    crate::session::law_sequence_steps_add(ctx.upcoming, before_j, b as nat);
    assert(records[i].blocks@[a]@.sequence == crate::session::sequence_after(ctx.upcoming, m));
    assert(records[j].blocks@[b]@.sequence == crate::session::sequence_after(ctx.upcoming, n));
}

}
