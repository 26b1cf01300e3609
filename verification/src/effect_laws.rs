//! Laws of operations that change what they are given: what is after them, and
//! what stays.
use vstd::prelude::*;
use vstd::string::*;
use vstd::utf8::*;

use crate::block_builder::{
    make_block, parse_anthropic_request, parse_anthropic_response, Draft,
};
use crate::event::{EventView, RawEvent};
use crate::handler::StreamCapture;
use crate::harness_spawn::{record_exit, record_spawn};
use crate::hook_server::{insert_hook_block, HookEvent, HookServer};
use crate::integration::Integration;
use crate::json::{Json, JsonView};
use crate::manager::ProxyHandle;
use crate::raw_cache::{RawCache, RawEntry};
use crate::raw_processor::{run_raw_processor, Capture, Direction, RawProcessor, Recorded};
use crate::schema::{BlockType, HarnessBlock, InterceptMode};
use crate::session::SessionContext;
use crate::store::{BlockStore, StoreError};

verus! {

// ── sessions ─────────────────────────────────────────────────────────────

/// A session hands out the number that is due, and the next is due then.
pub proof fn law_taking_a_number(ctx: &mut SessionContext, r: u32)
    requires
        call_ensures(SessionContext::next_seq, (ctx,), r),
    ensures
        r == old(ctx)@.upcoming,
        final(ctx)@.upcoming == (r + 1) % 0x1_0000_0000,
        final(ctx)@.session_id == old(ctx)@.session_id,
        final(ctx)@.harness_type == old(ctx)@.harness_type,
{
}

/// A draft becomes a block of its session, with the number that is due.
pub proof fn law_recording_a_draft(ctx: &mut SessionContext, draft: Draft, r: HarnessBlock)
    requires
        call_ensures(make_block, (ctx, draft), r),
    ensures
        r.session_id@ == old(ctx)@.session_id,
        r.harness_type@ == old(ctx)@.harness_type,
        r.parent_id is None,
        r.block_type == draft.block_type,
        r.sequence == old(ctx)@.upcoming,
        r.content@ == draft.content@,
        r.metadata@ == draft.metadata@,
        crate::schema::random_uuid_text(r.id@),
        crate::session::clock_time(r.timestamp),
        final(ctx)@.upcoming == (old(ctx)@.upcoming + 1) % 0x1_0000_0000,
{
    assert(crate::block_builder::stamped(draft@, old(ctx)@, 0, r@));
    crate::session_laws::law_recorded_block(draft@, old(ctx)@, 0, r@);
    assert(r@.parent_id is None);
    crate::session_laws::law_next_sequence_number(old(ctx)@.upcoming);
}

/// A body that is no document gives no block and takes no number.
pub proof fn law_parsing_what_is_no_request(
    body: &[u8],
    ctx: &mut SessionContext,
    r: Vec<HarnessBlock>,
)
    requires
        call_ensures(parse_anthropic_request, (body, ctx), r),
        crate::json::read_document(body@) is None,
    ensures
        r@.len() == 0,
        final(ctx)@.upcoming == old(ctx)@.upcoming,
{
    crate::session_laws::law_context_keeps_its_session(old(ctx)@, 0);
}

/// Each user message of a request becomes a block, in order, behind that of the
/// system prompt: a request of one message and nothing else gives one block,
/// with the texts of the message.
pub proof fn law_parsing_a_message(
    body: &[u8],
    ctx: &mut SessionContext,
    r: Vec<HarnessBlock>,
    root: JsonView,
    message: JsonView,
    items: Seq<JsonView>,
)
    requires
        call_ensures(parse_anthropic_request, (body, ctx), r),
        crate::json::read_document(body@) == Some(root),
        root is Object,
        !root->Object_0.contains_key("system"@),
        !root->Object_0.contains_key("tools"@),
        crate::request_laws::carries(root, "messages"@, JsonView::Array(seq![message])),
        crate::request_laws::carries(message, "role"@, JsonView::Str("user"@)),
        crate::request_laws::carries(message, "content"@, JsonView::Array(items)),
    ensures
        r@.len() == 1,
        r@[0].block_type == BlockType::UserPrompt,
        r@[0].content@ == encode_utf8(crate::request_laws::item_texts(items).flatten()),
        r@[0].sequence == old(ctx)@.upcoming,
        r@[0].session_id@ == old(ctx)@.session_id,
        final(ctx)@.upcoming == (old(ctx)@.upcoming + 1) % 0x1_0000_0000,
{
    let model = crate::request_laws::text_under(root, "model"@);
    crate::request_laws::law_request(root);
    crate::request_laws::law_prompt_of_a_user_message(message, items, Seq::empty(), model);
    let drafts = crate::block_builder::request_body_drafts(body@);
    assert(drafts.len() == 1);
    crate::session_laws::law_recorded_blocks(drafts, old(ctx)@, r@, 0);
}

/// A response in one document becomes one block, with its texts.
pub proof fn law_parsing_a_response(
    body: &[u8],
    ctx: &mut SessionContext,
    r: Vec<HarnessBlock>,
    root: JsonView,
    items: Seq<JsonView>,
)
    requires
        call_ensures(parse_anthropic_response, (body, ctx), r),
        valid_utf8(body@),
        decode_utf8(body@).len() > 0,
        decode_utf8(body@)[0] == '{',
        crate::json::read_document(encode_utf8(decode_utf8(body@))) == Some(root),
        crate::request_laws::carries(root, "content"@, JsonView::Array(items)),
    ensures
        r@.len() == 1,
        r@[0].block_type == BlockType::Response,
        r@[0].content@ == encode_utf8(crate::request_laws::item_texts(items).flatten()),
        r@[0].sequence == old(ctx)@.upcoming,
        r@[0].session_id@ == old(ctx)@.session_id,
        final(ctx)@.upcoming == (old(ctx)@.upcoming + 1) % 0x1_0000_0000,
{
    let text = decode_utf8(body@);
    crate::text_laws::law_white_space('{');
    assert(text =~= Seq::<char>::empty() + text);
    crate::response_laws::law_text_of_a_response(Seq::empty(), text, text);
    crate::response_laws::law_json_response(root);
    let response = crate::block_builder::json_response(root);
    crate::response_laws::law_block_of_a_response(response);
    let drafts = crate::block_builder::response_drafts(crate::block_builder::text_response(text));
    assert(drafts.len() == 1);
    crate::session_laws::law_recorded_blocks(drafts, old(ctx)@, r@, 0);
}

// ── captures ─────────────────────────────────────────────────────────────

/// A chunk is captured whole, under the next number.
pub proof fn law_capturing_a_chunk(capture: &mut StreamCapture, bytes: Vec<u8>, r: RawEvent)
    requires
        call_ensures(StreamCapture::chunk, (capture, bytes), r),
        old(capture).seq < u64::MAX,
    ensures
        r is ResponseChunk,
        r->ResponseChunk_id == old(capture).id,
        r->seq == old(capture).seq,
        r->chunk@ == bytes@,
        final(capture).seq == old(capture).seq + 1,
        final(capture).id == old(capture).id,
        final(capture).status == old(capture).status,
        final(capture).done == old(capture).done,
{
}

/// The end of a response is captured once: a second end is none.
pub proof fn law_ending_a_capture(
    capture: &mut StreamCapture,
    again: &mut StreamCapture,
    first: Option<RawEvent>,
    second: Option<RawEvent>,
)
    requires
        call_ensures(StreamCapture::finish, (capture,), first),
        call_ensures(StreamCapture::finish, (again,), second),
        *old(again) == *final(capture),
    ensures
        !old(capture).done ==> first is Some && first->0@ == (EventView::ResponseDone {
            id: old(capture).id,
            status: old(capture).status,
        }),
        old(capture).done ==> first is None,
        second is None,
{
}

/// The processor completes a request at once, with its bytes.
pub proof fn law_processing_a_request(
    processor: &mut RawProcessor,
    event: RawEvent,
    r: Option<Capture>,
)
    requires
        call_ensures(RawProcessor::step, (processor, event), r),
        event is Request,
    ensures
        r is Some,
        r->0.direction == Direction::Request,
        r->0.body@ == event->body@,
{
}

/// The processor completes a response at its end, where it knows the exchange,
/// and keeps nothing of it; a chunk completes nothing.
pub proof fn law_processing_a_response(
    processor: &mut RawProcessor,
    event: RawEvent,
    r: Option<Capture>,
)
    requires
        call_ensures(RawProcessor::step, (processor, event), r),
        event !is Request,
    ensures
        event is ResponseChunk ==> r is None,
        event is ResponseDone ==> (r is Some <==> old(processor)@.contains_key(
            event->ResponseDone_id,
        )),
        event is ResponseDone && r is Some ==> r->0.direction == Direction::Response
            && r->0.body@ == crate::raw_processor::reassembled(
            old(processor)@[event->ResponseDone_id],
        ),
        event is ResponseDone ==> !final(processor)@.contains_key(event->ResponseDone_id),
{
}

/// A run of events has one record for each payload that the events complete,
/// in order, with the blocks of that payload, and takes one number for each of
/// them.
pub proof fn law_running_events(
    events: Vec<RawEvent>,
    processor: &mut RawProcessor,
    store: &mut BlockStore,
    cache: &mut RawCache,
    ctx: &mut SessionContext,
    r: Vec<Recorded>,
    i: int,
)
    requires
        call_ensures(run_raw_processor, (events, processor, store, cache, ctx), r),
        0 <= i < r@.len(),
    ensures
        ({
            let captures = crate::raw_processor::captures_through(
                old(processor)@,
                crate::raw_processor::event_views(events@),
            );
            &&& r@.len() == captures.len()
            &&& r@[i].blocks@.len() == crate::raw_processor::capture_drafts(captures[i]).len()
            &&& r@[i].stored@.len() == r@[i].blocks@.len()
        }),
        final(ctx)@.session_id == old(ctx)@.session_id,
        final(ctx)@.upcoming == (old(ctx)@.upcoming + crate::raw_processor::blocks_in(r@))
            % 0x1_0000_0000,
{
    assert(crate::raw_processor::faithfully_reported(r@[i]));
}

// ── stores ───────────────────────────────────────────────────────────────

/// A block that was inserted stands in the table, as its row; a block with its
/// id was not there before.
pub proof fn law_inserting_a_block(
    store: &mut BlockStore,
    block: HarnessBlock,
    r: Result<(), StoreError>,
    other: Seq<char>,
)
    requires
        call_ensures(BlockStore::insert_block, (store, &block), r),
        old(store).in_memory(),
        other != block.id@,
    ensures
        r is Ok ==> !old(store).table().contains_key(block.id@),
        r is Ok ==> final(store).table().contains_key(block.id@),
        r is Ok ==> final(store).table()[block.id@] == crate::store::encoded(block@),
        r is Err ==> final(store).table() == old(store).table(),
        final(store).table().contains_key(other) == old(store).table().contains_key(other),
        old(store).table().contains_key(other) ==> final(store).table()[other]
            == old(store).table()[other],
{
}

/// Deleting a session takes its rows, all of them and no others, and counts
/// them.
pub proof fn law_deleting_a_session(
    store: &mut BlockStore,
    session_id: &str,
    r: Result<usize, StoreError>,
    id: Seq<char>,
)
    requires
        call_ensures(BlockStore::delete_session, (store, session_id), r),
        old(store).in_memory(),
        r is Ok,
    ensures
        final(store).table().contains_key(id) <==> old(store).table().contains_key(id)
            && old(store).table()[id].session_id != session_id@,
        final(store).table().contains_key(id) ==> final(store).table()[id]
            == old(store).table()[id],
        r->Ok_0 == crate::store::session_ids(old(store).table(), session_id@).len(),
{
}

/// Draining a session gives its entries and takes them, all of them and no
/// others.
pub proof fn law_draining_a_session(
    cache: &mut RawCache,
    session_id: &str,
    r: Result<Vec<RawEntry>, StoreError>,
    id: Seq<char>,
)
    requires
        call_ensures(RawCache::drain, (cache, session_id), r),
        old(cache).in_memory(),
        r is Ok,
    ensures
        crate::raw_cache::entries_of(old(cache).table(), session_id@, r->Ok_0@),
        final(cache).table().contains_key(id) <==> old(cache).table().contains_key(id)
            && old(cache).table()[id].session_id != session_id@,
        final(cache).table().contains_key(id) ==> final(cache).table()[id]
            == old(cache).table()[id],
{
}

/// A payload is kept as it was given, under a new id.
pub proof fn law_keeping_a_payload(
    cache: &mut RawCache,
    session_id: &str,
    direction: &str,
    content: &[u8],
    timestamp: i64,
    r: Result<String, StoreError>,
)
    requires
        call_ensures(
            RawCache::insert_raw,
            (cache, session_id, direction, content, timestamp),
            r,
        ),
        old(cache).in_memory(),
        r is Ok,
    ensures
        ({
            let id = r->Ok_0@;
            let row = final(cache).table()[id];
            &&& !old(cache).table().contains_key(id)
            &&& final(cache).table().contains_key(id)
            &&& row.id == id
            &&& row.session_id == session_id@
            &&& row.direction == direction@
            &&& row.content == Some(content@)
            &&& row.timestamp == timestamp
        }),
{
}

// ── what a session records ───────────────────────────────────────────────

/// The start of a session is recorded as a `Spawn` with its mode and harness,
/// under the number that is due.
pub proof fn law_recording_a_spawn(
    store: &mut BlockStore,
    ctx: &mut SessionContext,
    mode: InterceptMode,
    r: (HarnessBlock, Result<(), StoreError>),
)
    requires
        call_ensures(record_spawn, (store, ctx, mode), r),
    ensures
        r.0.block_type == BlockType::Spawn,
        r.0.content@.len() == 0,
        r.0.sequence == old(ctx)@.upcoming,
        r.0.session_id@ == old(ctx)@.session_id,
        r.0.metadata@ is Object,
        r.0.metadata@->Object_0["mode"@] == JsonView::Str(mode.name()),
        r.0.metadata@->Object_0["harness_type"@] == JsonView::Str(old(ctx)@.harness_type),
        old(store).in_memory() && r.1 is Ok ==> final(store).table() == old(store).table().insert(
            r.0.id@,
            crate::store::encoded(r.0@),
        ),
        old(store).in_memory() && r.1 is Err ==> final(store).table() == old(store).table(),
{
    let draft = crate::harness_spawn::spawn_draft(mode, old(ctx)@.harness_type);
    crate::session_laws::law_recorded_block(draft, old(ctx)@, 0, r.0@);
    crate::session_laws::law_block_of_a_spawn(old(ctx)@.harness_type, mode);
    crate::session_laws::law_next_sequence_number(old(ctx)@.upcoming);
    reveal_strlit("mode");
    reveal_strlit("harness_type");
    assert("mode"@.len() == 4);
    assert("harness_type"@.len() == 12);
}

/// The end of a session is recorded as an `Exit` with its exit code, under the
/// number that is due.
pub proof fn law_recording_an_exit(
    store: &mut BlockStore,
    ctx: &mut SessionContext,
    exit_code: i32,
    r: (HarnessBlock, Result<(), StoreError>),
)
    requires
        call_ensures(record_exit, (store, ctx, exit_code), r),
    ensures
        r.0.block_type == BlockType::Exit,
        r.0.content@.len() == 0,
        r.0.sequence == old(ctx)@.upcoming,
        r.0.session_id@ == old(ctx)@.session_id,
        r.0.metadata@ == JsonView::Object(
            map!["exit_code"@ => JsonView::Integer(exit_code as int)],
        ),
        old(store).in_memory() && r.1 is Ok ==> final(store).table() == old(store).table().insert(
            r.0.id@,
            crate::store::encoded(r.0@),
        ),
        old(store).in_memory() && r.1 is Err ==> final(store).table() == old(store).table(),
{
    let draft = crate::harness_spawn::exit_draft(exit_code);
    crate::session_laws::law_recorded_block(draft, old(ctx)@, 0, r.0@);
    crate::session_laws::law_next_sequence_number(old(ctx)@.upcoming);
}

/// A callback is recorded with its body, under the number that is due, and
/// stands in the store where the store took it.
pub proof fn law_recording_a_callback(
    store: &mut BlockStore,
    ctx: &mut SessionContext,
    event: HookEvent,
    body: Json,
    r: (HarnessBlock, Result<(), StoreError>),
)
    requires
        call_ensures(insert_hook_block, (store, ctx, event, body), r),
    ensures
        r.0.sequence == old(ctx)@.upcoming,
        r.0.session_id@ == old(ctx)@.session_id,
        r.0.block_type == event.produces(),
        r.0.metadata@ is Object,
        r.0.metadata@->Object_0.contains_key("raw"@),
        r.0.metadata@->Object_0["raw"@] == body@,
        old(store).in_memory() && r.1 is Ok ==> final(store).table() == old(store).table().insert(
            r.0.id@,
            crate::store::encoded(r.0@),
        ),
        old(store).in_memory() && r.1 is Err ==> final(store).table() == old(store).table(),
{
    let draft = crate::hook_server::hook_draft(event, body@);
    crate::session_laws::law_recorded_block(draft, old(ctx)@, 0, r.0@);
    crate::session_laws::law_next_sequence_number(old(ctx)@.upcoming);
}

// ── servers of a session ─────────────────────────────────────────────────

/// The first hook server of a session stays, whatever port a second one has.
pub proof fn law_first_hook_server_stays(
    session: &mut Integration,
    later: &mut Integration,
    port: u16,
    other: u16,
    first: HookServer,
    second: HookServer,
)
    requires
        call_ensures(Integration::start_hooks, (session, port), first),
        call_ensures(Integration::start_hooks, (later, other), second),
        *old(later) == *final(session),
    ensures
        old(session).hook_server is None ==> first.port == port,
        second.port == first.port,
        final(later).proxy == old(session).proxy,
        final(later).store == old(session).store,
        final(later).context == old(session).context,
{
}

/// The first proxy of a session stays, whatever handle a second one has.
pub proof fn law_first_proxy_stays(
    session: &mut Integration,
    later: &mut Integration,
    handle: ProxyHandle,
    other: ProxyHandle,
    first: u16,
    second: u16,
)
    requires
        call_ensures(Integration::start_proxy, (session, handle), first),
        call_ensures(Integration::start_proxy, (later, other), second),
        *old(later) == *final(session),
    ensures
        old(session).proxy is None ==> first == handle.port && final(session).proxy == Some(handle),
        second == first,
        final(later).proxy == final(session).proxy,
        final(later).hook_server == old(session).hook_server,
        final(later).store == old(session).store,
        final(later).context == old(session).context,
{
}

}
