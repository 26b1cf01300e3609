//! Laws of captured exchanges: what each event of the proxy leads to, and what
//! becomes of the payloads that are complete.
use vstd::prelude::*;
use vstd::string::*;

use crate::event::EventView;
use crate::json::JsonView;
use crate::raw_cache::{EntryView, RawCache, RawRecord};
use crate::raw_processor::{CaptureView, ChunkView, Direction, Pending, Recorded};
use crate::schema::HarnessBlock;
use crate::session::{ContextView, SessionContext};
use crate::store::{BlockRecord, BlockStore, StoreError};

verus! {

// ── events ───────────────────────────────────────────────────────────────

/// The body that chunks make up is their bytes, one behind the other, once the
/// chunks stand by ascending number.
pub proof fn law_body_of_chunks(chunks: Seq<ChunkView>)
    ensures
        crate::raw_processor::reassembled(chunks) == crate::raw_processor::in_order(
            chunks,
        ).map_values(|c: ChunkView| c.1).flatten(),
{
    lemma_bytes_of(crate::raw_processor::in_order(chunks));
}

proof fn lemma_bytes_of(chunks: Seq<ChunkView>)
    ensures
        crate::raw_processor::bytes_of(chunks) == chunks.map_values(|c: ChunkView| c.1).flatten(),
    decreases chunks.len(),
{
    let bytes = chunks.map_values(|c: ChunkView| c.1);
    bytes.lemma_flatten_and_flatten_alt_are_equivalent();
    if chunks.len() > 0 {
        let front = chunks.drop_last().map_values(|c: ChunkView| c.1);
        lemma_bytes_of(chunks.drop_last());
        front.lemma_flatten_and_flatten_alt_are_equivalent();
        assert(bytes.drop_last() =~= front);
    }
}

/// A request is complete at once, with the body that it has, whatever else it
/// says and whatever waits. Its exchange is known from then on, and what waits
/// stays.
pub proof fn law_request_is_complete_at_once(
    pending: Pending,
    id: u128,
    method: Seq<char>,
    path: Seq<char>,
    headers: JsonView,
    body: Seq<u8>,
    other: u128,
)
    requires
        other != id,
    ensures
        ({
            let event = EventView::Request { id, method, path, headers, body };
            let after = crate::raw_processor::pending_after(pending, event);
            &&& crate::raw_processor::completed_by(pending, event) == Some(
                CaptureView { direction: Direction::Request, body },
            )
            &&& after.contains_key(id)
            &&& pending.contains_key(id) ==> after[id] == pending[id]
            &&& !pending.contains_key(id) ==> after[id].len() == 0
            &&& after.contains_key(other) == pending.contains_key(other)
            &&& pending.contains_key(other) ==> after[other] == pending[other]
        }),
{
}

/// A chunk completes nothing: it waits behind the chunks of its exchange, and
/// other exchanges do not see it.
pub proof fn law_chunk_waits(pending: Pending, id: u128, seq: u64, chunk: Seq<u8>, other: u128)
    requires
        other != id,
    ensures
        ({
            let event = EventView::ResponseChunk { id, seq, chunk };
            let after = crate::raw_processor::pending_after(pending, event);
            &&& crate::raw_processor::completed_by(pending, event) is None
            &&& after.contains_key(id)
            &&& pending.contains_key(id) ==> after[id] == pending[id].push((seq, chunk))
            &&& !pending.contains_key(id) ==> after[id] == seq![(seq, chunk)]
            &&& after.contains_key(other) == pending.contains_key(other)
            &&& pending.contains_key(other) ==> after[other] == pending[other]
        }),
{
    assert(Seq::<ChunkView>::empty().push((seq, chunk)) =~= seq![(seq, chunk)]);
}

/// The end of a response completes the body that its chunks make up, whatever
/// its status is, where its exchange is known. Nothing waits for it then, and
/// other exchanges stay as they were.
pub proof fn law_end_completes_a_response(pending: Pending, id: u128, status: u16, other: u128)
    requires
        other != id,
    ensures
        ({
            let event = EventView::ResponseDone { id, status };
            let after = crate::raw_processor::pending_after(pending, event);
            &&& pending.contains_key(id) ==> crate::raw_processor::completed_by(pending, event)
                == Some(
                CaptureView {
                    direction: Direction::Response,
                    body: crate::raw_processor::reassembled(pending[id]),
                },
            )
            &&& !pending.contains_key(id) ==> crate::raw_processor::completed_by(pending, event)
                is None
            &&& !after.contains_key(id)
            &&& after.contains_key(other) == pending.contains_key(other)
            &&& pending.contains_key(other) ==> after[other] == pending[other]
        }),
{
}

/// A run of events leads from one state to the next with each event, and
/// collects what the events complete.
pub proof fn law_one_event_more(pending: Pending, events: Seq<EventView>, event: EventView)
    ensures
        crate::raw_processor::pending_through(pending, Seq::empty()) == pending,
        crate::raw_processor::captures_through(pending, Seq::empty()).len() == 0,
        crate::raw_processor::pending_through(pending, events.push(event))
            == crate::raw_processor::pending_after(
            crate::raw_processor::pending_through(pending, events),
            event,
        ),
        crate::raw_processor::captures_through(pending, events.push(event))
            == crate::raw_processor::captures_through(pending, events) + (
        match crate::raw_processor::completed_by(
            crate::raw_processor::pending_through(pending, events),
            event,
        ) {
            Some(capture) => seq![capture],
            None => Seq::empty(),
        }),
{
    assert(events.push(event).drop_last() =~= events);
    let front = crate::raw_processor::captures_through(pending, events);
    assert(front + Seq::<CaptureView>::empty() =~= front);
}

// ── payloads ─────────────────────────────────────────────────────────────

/// The names of the directions.
pub proof fn law_names_of_directions()
    ensures
        Direction::Request.name() == "request"@,
        Direction::Response.name() == "response"@,
{
}

/// A request stands for what its body says as a request, and a response for
/// what its body says as a response.
pub proof fn law_blocks_of_a_payload(body: Seq<u8>)
    ensures
        crate::raw_processor::capture_drafts(
            (CaptureView { direction: Direction::Request, body }),
        ) == crate::block_builder::request_body_drafts(body),
        crate::raw_processor::capture_drafts(
            (CaptureView { direction: Direction::Response, body }),
        ) == crate::block_builder::response_body_drafts(body),
{
}

/// The entry of a payload has its bytes and the name of its direction, and the
/// id, session and time that are given.
pub proof fn law_entry_of_a_payload(
    id: Seq<char>,
    session_id: Seq<char>,
    body: Seq<u8>,
    timestamp: i64,
)
    ensures
        crate::raw_processor::raw_entry(
            id,
            session_id,
            (CaptureView { direction: Direction::Request, body }),
            timestamp,
        ) == (EntryView { id, session_id, direction: "request"@, content: body, timestamp }),
        crate::raw_processor::raw_entry(
            id,
            session_id,
            (CaptureView { direction: Direction::Response, body }),
            timestamp,
        ) == (EntryView { id, session_id, direction: "response"@, content: body, timestamp }),
{
}

/// A table gets the row of each block that was taken and of no other, and keeps
/// what it had under other ids.
pub proof fn law_rows_that_are_inserted(
    table: Map<Seq<char>, BlockRecord>,
    blocks: Seq<HarnessBlock>,
    results: Seq<Result<(), StoreError>>,
)
    requires
        blocks.len() <= results.len(),
        crate::raw_processor::all_new(table, blocks, results),
    ensures
        forall|i: int|
            #![trigger blocks[i]]
            0 <= i < blocks.len() && results[i] is Ok ==> !table.contains_key(blocks[i]@.id)
                && crate::raw_processor::with_inserted(table, blocks, results).contains_key(
                blocks[i]@.id,
            ) && crate::raw_processor::with_inserted(table, blocks, results)[blocks[i]@.id]
                == crate::store::encoded(blocks[i]@),
        forall|id: Seq<char>| #[trigger]
            table.contains_key(id) ==> crate::raw_processor::with_inserted(
                table,
                blocks,
                results,
            ).contains_key(id) && crate::raw_processor::with_inserted(table, blocks, results)[id]
                == table[id],
        forall|id: Seq<char>| #[trigger]
            crate::raw_processor::with_inserted(table, blocks, results).contains_key(id)
                ==> table.contains_key(id) || exists|i: int|
                0 <= i < blocks.len() && results[i] is Ok && (#[trigger] blocks[i])@.id == id,
    decreases blocks.len(),
{
    if blocks.len() > 0 {
        let front = blocks.drop_last();
        let n = blocks.len() - 1;
        law_rows_that_are_inserted(table, front, results);
        let before = crate::raw_processor::with_inserted(table, front, results);
        let after = crate::raw_processor::with_inserted(table, blocks, results);
        assert forall|i: int|
            #![trigger blocks[i]]
            0 <= i < blocks.len() && results[i] is Ok implies !table.contains_key(blocks[i]@.id)
            && after.contains_key(blocks[i]@.id) && after[blocks[i]@.id] == crate::store::encoded(
            blocks[i]@,
        ) by {
            if i < n {
                assert(front[i] == blocks[i]);
            } else if table.contains_key(blocks[i]@.id) {
                assert(before.contains_key(blocks[i]@.id));
            }
        }
        assert forall|id: Seq<char>| #[trigger] after.contains_key(id) implies table.contains_key(
            id,
        ) || exists|i: int|
            0 <= i < blocks.len() && results[i] is Ok && (#[trigger] blocks[i])@.id == id by {
            if before.contains_key(id) {
                if !table.contains_key(id) {
                    let i = choose|i: int|
                        0 <= i < front.len() && results[i] is Ok && (#[trigger] front[i])@.id == id;
                    assert(blocks[i]@.id == id);
                }
            } else {
                assert(blocks[n]@.id == id);
            }
        }
    }
}

/// A table after one payload more is the table with the blocks of that payload
/// that were taken, each under an id that was new.
pub proof fn law_table_of_one_record_more(
    table: Map<Seq<char>, BlockRecord>,
    records: Seq<Recorded>,
    record: Recorded,
)
    ensures
        crate::raw_processor::table_after(table, Seq::empty()) == table,
        crate::raw_processor::table_after(table, records.push(record))
            == crate::raw_processor::with_inserted(
            crate::raw_processor::table_after(table, records),
            record.blocks@,
            record.stored@,
        ),
        crate::raw_processor::all_recorded_new(table, records.push(record))
            <==> crate::raw_processor::all_recorded_new(table, records)
            && crate::raw_processor::all_new(
            crate::raw_processor::table_after(table, records),
            record.blocks@,
            record.stored@,
        ),
        crate::raw_processor::blocks_in(Seq::empty()) == 0,
        crate::raw_processor::blocks_in(records.push(record)) == crate::raw_processor::blocks_in(
            records,
        ) + record.blocks@.len(),
{
    assert(records.push(record).drop_last() =~= records);
}

/// Each payload has its record, in order. The record has one block for each
/// draft of the payload, under the numbers that follow those of the payloads
/// before it, and says of each block what became of it; only SQLite fails.
pub proof fn law_records_in_turn(
    captures: Seq<CaptureView>,
    records: Seq<Recorded>,
    ctx: ContextView,
    i: int,
    k: int,
)
    requires
        crate::raw_processor::recorded_in_turn(captures, records, ctx),
        0 <= i < captures.len(),
        0 <= k < crate::raw_processor::capture_drafts(captures[i]).len(),
    ensures
        ({
            let drafts = crate::raw_processor::capture_drafts(captures[i]);
            let block = records[i].blocks@[k]@;
            &&& records.len() == captures.len()
            &&& records[i].blocks@.len() == drafts.len()
            &&& records[i].stored@.len() == drafts.len()
            &&& block.session_id == ctx.session_id
            &&& block.harness_type == ctx.harness_type
            &&& block.block_type == drafts[k].block_type
            &&& block.content == drafts[k].content
            &&& block.metadata == drafts[k].metadata
            &&& block.sequence == (ctx.upcoming + crate::raw_processor::blocks_in(records.take(i))
                + k) % 0x1_0000_0000
            &&& records[i].stored@[k] matches Err(e) ==> e is Database
            &&& records[i].raw matches Err(e) ==> e is Database
        }),
{
    let before = crate::raw_processor::blocks_in(records.take(i));
    let at = ctx.advanced(before);
    assert(crate::block_builder::all_stamped(
        crate::raw_processor::capture_drafts(captures[i]),
        at,
        records[i].blocks@,
    ));
    crate::session_laws::law_recorded_blocks(
        crate::raw_processor::capture_drafts(captures[i]),
        at,
        records[i].blocks@,
        k,
    );
    crate::session::law_sequence_steps_add(ctx.upcoming, before, k as nat);
    assert(crate::store::only_sqlite_fails(records[i].stored@[k]));
}

/// A payload that the raw cache took stands in its table under the reported id,
/// with its bytes and its direction, in its session.
pub proof fn law_payloads_are_cached(
    before: Map<Seq<char>, RawRecord>,
    after: Map<Seq<char>, RawRecord>,
    session_id: Seq<char>,
    captures: Seq<CaptureView>,
    records: Seq<Recorded>,
    times: Seq<i64>,
    i: int,
)
    requires
        crate::raw_processor::cached_at(before, after, session_id, captures, records, times),
        captures.len() == records.len(),
        0 <= i < records.len(),
        records[i].raw is Ok,
    ensures
        ({
            let id = records[i].raw->Ok_0@;
            &&& after.contains_key(id)
            &&& after[id].id == id
            &&& after[id].session_id == session_id
            &&& after[id].direction == captures[i].direction.name()
            &&& after[id].content == Some(captures[i].body)
            &&& crate::session::clock_time(after[id].timestamp)
        }),
    decreases records.len(),
{
    let n = records.len() - 1;
    if i < n {
        let rest = match records.last().raw {
            Ok(id) => after.remove(id@),
            Err(_) => after,
        };
        assert(records.drop_last()[i] == records[i]);
        assert(captures.drop_last()[i] == captures[i]);
        law_payloads_are_cached(
            before,
            rest,
            session_id,
            captures.drop_last(),
            records.drop_last(),
            times.drop_last(),
            i,
        );
    }
}

/// What the raw cache had it keeps as long as no payload takes its id, and what
/// it has more are payloads that it took.
pub proof fn law_cached_rows_stay(
    before: Map<Seq<char>, RawRecord>,
    after: Map<Seq<char>, RawRecord>,
    session_id: Seq<char>,
    captures: Seq<CaptureView>,
    records: Seq<Recorded>,
    times: Seq<i64>,
    id: Seq<char>,
)
    requires
        crate::raw_processor::cached_at(before, after, session_id, captures, records, times),
        forall|i: int|
            0 <= i < records.len() && (#[trigger] records[i]).raw is Ok ==> records[i].raw->Ok_0@
                != id,
    ensures
        after.contains_key(id) <==> before.contains_key(id),
        before.contains_key(id) ==> after[id] == before[id],
    decreases records.len(),
{
    if records.len() > 0 {
        let n = records.len() - 1;
        assert(records[n] == records.last());
        let rest = match records.last().raw {
            Ok(taken) => after.remove(taken@),
            Err(_) => after,
        };
        assert forall|i: int|
            0 <= i < records.drop_last().len() && (
            #[trigger] records.drop_last()[i]).raw is Ok implies records.drop_last()[i].raw->Ok_0@
            != id by {
            assert(records.drop_last()[i] == records[i]);
        }
        law_cached_rows_stay(
            before,
            rest,
            session_id,
            captures.drop_last(),
            records.drop_last(),
            times.drop_last(),
            id,
        );
    }
}

/// Recording a payload takes one number for each of its blocks, in the session
/// that it belongs to; a table in memory gets the blocks that were taken, and a
/// raw cache in memory the payload, where it took it.
pub proof fn law_record_of_a_payload(
    r: Recorded,
    capture: CaptureView,
    store_before: BlockStore,
    store_after: BlockStore,
    cache_before: RawCache,
    cache_after: RawCache,
    ctx_before: SessionContext,
    ctx_after: SessionContext,
)
    requires
        crate::raw_processor::recorded_as(
            r,
            capture,
            store_before,
            store_after,
            cache_before,
            cache_after,
            ctx_before,
            ctx_after,
        ),
    ensures
        r.blocks@.len() == crate::raw_processor::capture_drafts(capture).len(),
        r.stored@.len() == r.blocks@.len(),
        ctx_after@.session_id == ctx_before@.session_id,
        ctx_after@.upcoming == (ctx_before@.upcoming + r.blocks@.len()) % 0x1_0000_0000,
        store_before.in_memory() ==> store_after.table() == crate::raw_processor::with_inserted(
            store_before.table(),
            r.blocks@,
            r.stored@,
        ),
        cache_before.in_memory() && r.raw is Err ==> cache_after.table() == cache_before.table(),
        cache_before.in_memory() && r.raw is Ok ==> !cache_before.table().contains_key(
            r.raw->Ok_0@,
        ) && cache_after.table().contains_key(r.raw->Ok_0@)
            && cache_after.table()[r.raw->Ok_0@].session_id == ctx_before@.session_id
            && cache_after.table()[r.raw->Ok_0@].direction == capture.direction.name()
            && cache_after.table()[r.raw->Ok_0@].content == Some(capture.body)
            && cache_after.table().remove(r.raw->Ok_0@) == cache_before.table(),
{
    if cache_before.in_memory() && r.raw is Ok {
        assert(cache_after.table().remove(r.raw->Ok_0@) =~= cache_before.table());
    }
}

}
