//! Raw-event processor: converts captured traffic into blocks.
//!
//! Data flow per request and response:
//! ```text
//! RawEvent::Request       → RawCache("request") + parse_anthropic_request → BlockStore
//! RawEvent::ResponseChunk → accumulate per request id
//! RawEvent::ResponseDone  → RawCache("response") + parse_anthropic_response → BlockStore
//! ```
use std::collections::HashMap;

use vstd::prelude::*;
use vstd::string::*;

use crate::block_builder::{parse_anthropic_request, parse_anthropic_response, DraftView};
use crate::event::{EventView, RawEvent};
use crate::raw_cache::{EntryView, RawCache, RawRecord};
use crate::schema::HarnessBlock;
use crate::session::{ContextView, SessionContext};
use crate::store::{BlockRecord, BlockStore, StoreError};

verus! {

// ── reassembly ───────────────────────────────────────────────────────────

/// A chunk of a response body with its place in the body.
pub type ChunkView = (u64, Seq<u8>);

pub open spec fn chunk_views(chunks: Seq<(u64, Vec<u8>)>) -> Seq<ChunkView> {
    chunks.map_values(|c: (u64, Vec<u8>)| (c.0, c.1@))
}

/// Ordered chunks with one more chunk, behind those of its own and lower numbers.
pub open spec fn placed(ordered: Seq<ChunkView>, chunk: ChunkView) -> Seq<ChunkView>
    decreases ordered.len(),
{
    if ordered.len() == 0 || ordered.last().0 <= chunk.0 {
        ordered.push(chunk)
    } else {
        placed(ordered.drop_last(), chunk).push(ordered.last())
    }
}

/// Chunks by ascending number; chunks of one number stay in order of arrival.
pub open spec fn in_order(chunks: Seq<ChunkView>) -> Seq<ChunkView>
    decreases chunks.len(),
{
    if chunks.len() == 0 {
        Seq::empty()
    } else {
        placed(in_order(chunks.drop_last()), chunks.last())
    }
}

/// The bytes of chunks one after another.
pub open spec fn bytes_of(chunks: Seq<ChunkView>) -> Seq<u8>
    decreases chunks.len(),
{
    if chunks.len() == 0 {
        Seq::empty()
    } else {
        bytes_of(chunks.drop_last()) + chunks.last().1
    }
}

/// The body that chunks make up.
pub open spec fn reassembled(chunks: Seq<ChunkView>) -> Seq<u8> {
    bytes_of(in_order(chunks))
}

proof fn lemma_placed_at(ordered: Seq<ChunkView>, chunk: ChunkView, i: int)
    requires
        0 <= i <= ordered.len(),
        i == 0 || ordered[i - 1].0 <= chunk.0,
        forall|j: int| i <= j < ordered.len() ==> (#[trigger] ordered[j]).0 > chunk.0,
    ensures
        placed(ordered, chunk) == ordered.insert(i, chunk),
    decreases ordered.len(),
{
    if i == ordered.len() {
        assert(ordered.insert(i, chunk) =~= ordered.push(chunk));
    } else {
        assert forall|j: int| i <= j < ordered.drop_last().len() implies (
        #[trigger] ordered.drop_last()[j]).0 > chunk.0 by {
            assert(ordered.drop_last()[j] == ordered[j]);
        }
        lemma_placed_at(ordered.drop_last(), chunk, i);
        assert(ordered.insert(i, chunk) =~= ordered.drop_last().insert(i, chunk).push(
            ordered.last(),
        ));
    }
}

/// The body that chunks make up, whatever order they came in.
pub fn reassemble(chunks: Vec<(u64, Vec<u8>)>) -> (r: Vec<u8>)
    ensures
        r@ == reassembled(chunk_views(chunks@)),
{
    let ghost all = chunks@;
    let ghost views = chunk_views(all);
    let mut ordered: Vec<(u64, Vec<u8>)> = Vec::new();
    assert(chunk_views(ordered@) =~= in_order(views.take(0)));
    for chunk in it: chunks
        invariant
            it.seq() == all,
            views == chunk_views(all),
            chunk_views(ordered@) == in_order(views.take(it.index())),
    {
        let mut i: usize = ordered.len();
        while i > 0 && ordered[i - 1].0 > chunk.0
            invariant
                i <= ordered@.len(),
                forall|j: int| i <= j < ordered@.len() ==> (#[trigger] ordered@[j]).0 > chunk.0,
            decreases i,
        {
            i = i - 1;
        }
        proof {
            let before = chunk_views(ordered@);
            let c = (chunk.0, chunk.1@);
            assert(views[it.index()] == c);
            assert(views.take(it.index() + 1).drop_last() =~= views.take(it.index()));
            assert forall|j: int| i <= j < before.len() implies (#[trigger] before[j]).0 > c.0 by {
                assert(ordered@[j].0 > chunk.0);
            }
            lemma_placed_at(before, c, i as int);
            assert(chunk_views(ordered@.insert(i as int, chunk)) =~= before.insert(i as int, c));
        }
        ordered.insert(i, chunk);
    }
    assert(views.take(views.len() as int) =~= views);
    let ghost sorted = chunk_views(ordered@);
    let ghost kept = ordered@;
    let mut body: Vec<u8> = Vec::new();
    assert(body@ =~= bytes_of(sorted.take(0)));
    for chunk in it: ordered
        invariant
            it.seq() == kept,
            sorted == chunk_views(kept),
            body@ == bytes_of(sorted.take(it.index())),
    {
        let (seq, mut bytes) = chunk;
        assert(sorted.take(it.index() + 1).drop_last() =~= sorted.take(it.index()));
        assert(sorted[it.index()] == (seq, bytes@));
        body.append(&mut bytes);
    }
    assert(sorted.take(sorted.len() as int) =~= sorted);
    body
}

// ── events ───────────────────────────────────────────────────────────────

/// Which way a payload went.
#[derive(Debug, Clone, Copy, PartialEq, Eq, Structural)]
pub enum Direction {
    Request,
    Response,
}

impl Direction {
    /// The name under which the raw cache keeps payloads of this direction.
    pub open spec fn name(self) -> Seq<char> {
        match self {
            Direction::Request => "request"@,
            Direction::Response => "response"@,
        }
    }

    pub fn as_str(&self) -> (r: &'static str)
        ensures
            r@ == self.name(),
    {
        match self {
            Direction::Request => "request",
            Direction::Response => "response",
        }
    }
}

/// A payload that is complete.
#[derive(Debug)]
pub struct Capture {
    pub direction: Direction,
    pub body: Vec<u8>,
}

/// What a [`Capture`] says.
pub struct CaptureView {
    pub direction: Direction,
    pub body: Seq<u8>,
}

impl View for Capture {
    type V = CaptureView;

    open spec fn view(&self) -> CaptureView {
        CaptureView { direction: self.direction, body: self.body@ }
    }
}

/// The response chunks that wait for the end of their response, by request id.
pub type Pending = Map<u128, Seq<ChunkView>>;

/// The chunks that wait under `id`.
pub open spec fn waiting(pending: Pending, id: u128) -> Seq<ChunkView> {
    if pending.contains_key(id) {
        pending[id]
    } else {
        Seq::empty()
    }
}

/// What waits after an event.
pub open spec fn pending_after(pending: Pending, event: EventView) -> Pending {
    match event {
        EventView::Request { id, .. } => pending.insert(id, waiting(pending, id)),
        EventView::ResponseChunk { id, seq, chunk } => pending.insert(
            id,
            waiting(pending, id).push((seq, chunk)),
        ),
        EventView::ResponseDone { id, .. } => pending.remove(id),
    }
}

/// The payload that an event completes: a request at once, a response when it
/// is done, unless nothing is known of its request id.
pub open spec fn completed_by(pending: Pending, event: EventView) -> Option<CaptureView> {
    match event {
        EventView::Request { body, .. } => Some(
            CaptureView { direction: Direction::Request, body },
        ),
        EventView::ResponseChunk { .. } => None,
        EventView::ResponseDone { id, .. } => if pending.contains_key(id) {
            Some(CaptureView { direction: Direction::Response, body: reassembled(pending[id]) })
        } else {
            None
        },
    }
}

/// The blocks that a payload stands for.
pub open spec fn capture_drafts(capture: CaptureView) -> Seq<DraftView> {
    match capture.direction {
        Direction::Request => crate::block_builder::request_body_drafts(capture.body),
        Direction::Response => crate::block_builder::response_body_drafts(capture.body),
    }
}

/// A table after `blocks` were inserted, in order; `results` says which were taken.
pub open spec fn with_inserted(
    table: Map<Seq<char>, BlockRecord>,
    blocks: Seq<HarnessBlock>,
    results: Seq<Result<(), StoreError>>,
) -> Map<Seq<char>, BlockRecord>
    decreases blocks.len(),
{
    if blocks.len() == 0 {
        table
    } else {
        let front = with_inserted(table, blocks.drop_last(), results);
        if results[blocks.len() - 1] is Ok {
            front.insert(blocks.last()@.id, crate::store::encoded(blocks.last()@))
        } else {
            front
        }
    }
}

/// Whether each block that was taken had an id that the table did not have yet.
pub open spec fn all_new(
    table: Map<Seq<char>, BlockRecord>,
    blocks: Seq<HarnessBlock>,
    results: Seq<Result<(), StoreError>>,
) -> bool
    decreases blocks.len(),
{
    blocks.len() == 0 || (all_new(table, blocks.drop_last(), results) && (results[blocks.len() - 1]
        is Ok ==> !with_inserted(table, blocks.drop_last(), results).contains_key(
        blocks.last()@.id,
    )))
}

proof fn lemma_with_inserted_prefix(
    table: Map<Seq<char>, BlockRecord>,
    blocks: Seq<HarnessBlock>,
    shorter: Seq<Result<(), StoreError>>,
    longer: Seq<Result<(), StoreError>>,
)
    requires
        blocks.len() <= shorter.len() <= longer.len(),
        forall|i: int| 0 <= i < shorter.len() ==> shorter[i] == longer[i],
    ensures
        with_inserted(table, blocks, shorter) == with_inserted(table, blocks, longer),
        all_new(table, blocks, shorter) == all_new(table, blocks, longer),
    decreases blocks.len(),
{
    if blocks.len() > 0 {
        lemma_with_inserted_prefix(table, blocks.drop_last(), shorter, longer);
    }
}

/// Whether every failure is one that SQLite reported.
pub open spec fn all_by_sqlite(results: Seq<Result<(), StoreError>>) -> bool {
    forall|i: int|
        0 <= i < results.len() ==> crate::store::only_sqlite_fails(#[trigger] results[i])
}

/// Whether the rows of blocks read back as the blocks, where their metadata is
/// restorable.
pub open spec fn all_read_back(blocks: Seq<HarnessBlock>) -> bool {
    forall|i: int| 0 <= i < blocks.len() ==> crate::store::reads_back(#[trigger] blocks[i]@)
}

/// Insert blocks, in order; a block that is refused does not stop the others.
pub fn insert_blocks(store: &mut BlockStore, blocks: &Vec<HarnessBlock>) -> (r: Vec<
    Result<(), StoreError>,
>)
    ensures
        r@.len() == blocks@.len(),
        all_by_sqlite(r@),
        all_read_back(blocks@),
        final(store).same_database(*old(store)),
        old(store).in_memory() ==> all_new(old(store).table(), blocks@, r@) && final(store).table()
            == with_inserted(old(store).table(), blocks@, r@),
{
    let ghost start = store.table();
    let mut out: Vec<Result<(), StoreError>> = Vec::new();
    let mut i: usize = 0;
    assert(blocks@.take(0) =~= Seq::empty());
    while i < blocks.len()
        invariant
            i <= blocks@.len(),
            out@.len() == i,
            all_by_sqlite(out@),
            all_read_back(blocks@.take(i as int)),
            start == old(store).table(),
            store.same_database(*old(store)),
            old(store).in_memory() ==> all_new(start, blocks@.take(i as int), out@)
                && store.table() == with_inserted(start, blocks@.take(i as int), out@),
        decreases blocks@.len() - i,
    {
        let ghost before = out@;
        let result = store.insert_block(&blocks[i]);
        out.push(result);
        proof {
            assert(blocks@.take(i + 1).drop_last() =~= blocks@.take(i as int));
            lemma_with_inserted_prefix(start, blocks@.take(i as int), before, out@);
            assert forall|j: int| 0 <= j <= i implies crate::store::reads_back(
                #[trigger] blocks@.take(i + 1)[j]@,
            ) by {
                if j < i {
                    assert(blocks@.take(i + 1)[j] == blocks@.take(i as int)[j]);
                }
            }
        }
        i = i + 1;
    }
    assert(blocks@.take(blocks@.len() as int) =~= blocks@);
    out
}

/// What became of a payload.
#[derive(Debug)]
pub struct Recorded {
    /// The id under which the raw cache keeps the payload.
    pub raw: Result<String, StoreError>,
    /// The blocks of the payload.
    pub blocks: Vec<HarnessBlock>,
    /// Whether the store took each of the blocks.
    pub stored: Vec<Result<(), StoreError>>,
}

/// Keep a payload in the raw cache, and its blocks in the store.
pub fn record_capture(
    capture: &Capture,
    store: &mut BlockStore,
    cache: &mut RawCache,
    ctx: &mut SessionContext,
) -> (r: Recorded)
    ensures
        recorded_as(
            r,
            capture@,
            *old(store),
            *final(store),
            *old(cache),
            *final(cache),
            *old(ctx),
            *final(ctx),
        ),
{
    let timestamp: i64 = ctx.now_ms();
    let raw = cache.insert_raw(
        ctx.session(),
        capture.direction.as_str(),
        capture.body.as_slice(),
        timestamp,
    );
    proof {
        if old(cache).in_memory() && raw is Ok {
            let entry = raw_entry(raw->Ok_0@, ctx@.session_id, capture@, timestamp);
            assert(same_rows_but(old(cache).table(), cache.table(), entry));
        }
    }
    let blocks = match capture.direction {
        Direction::Request => parse_anthropic_request(capture.body.as_slice(), ctx),
        Direction::Response => parse_anthropic_response(capture.body.as_slice(), ctx),
    };
    let stored = insert_blocks(store, &blocks);
    Recorded { raw, blocks, stored }
}

/// Whether `after` is `before` with the new row of `entry`.
pub open spec fn same_rows_but(
    before: Map<Seq<char>, crate::raw_cache::RawRecord>,
    after: Map<Seq<char>, crate::raw_cache::RawRecord>,
    entry: EntryView,
) -> bool {
    !before.contains_key(entry.id) && after == before.insert(
        entry.id,
        crate::raw_cache::row_of(entry),
    )
}

/// Whether `r` is what became of a payload: the raw cache has it under the
/// reported id, at the time of a reading of the clock, and the store has the blocks that it took; the
/// blocks are those of the payload, under the next sequence numbers of the
/// session.
pub open spec fn recorded_as(
    r: Recorded,
    capture: CaptureView,
    store_before: BlockStore,
    store_after: BlockStore,
    cache_before: RawCache,
    cache_after: RawCache,
    ctx_before: SessionContext,
    ctx_after: SessionContext,
) -> bool {
    &&& crate::block_builder::all_stamped(capture_drafts(capture), ctx_before@, r.blocks@)
    &&& ctx_after@ == ctx_before@.advanced(r.blocks@.len())
    &&& faithfully_reported(r)
    &&& store_after.same_database(store_before)
    &&& store_before.in_memory() ==> all_new(store_before.table(), r.blocks@, r.stored@)
        && store_after.table() == with_inserted(store_before.table(), r.blocks@, r.stored@)
    &&& cache_after.same_database(cache_before)
    &&& cache_before.in_memory() ==> match r.raw {
        Ok(id) => exists|timestamp: i64|
            crate::session::clock_time(timestamp) && same_rows_but(
                cache_before.table(),
                cache_after.table(),
                #[trigger] raw_entry(id@, ctx_before@.session_id, capture, timestamp),
            ),
        Err(_) => cache_after.table() == cache_before.table(),
    }
}

/// The raw cache entry of a payload.
pub open spec fn raw_entry(
    id: Seq<char>,
    session_id: Seq<char>,
    capture: CaptureView,
    timestamp: i64,
) -> EntryView {
    EntryView {
        id,
        session_id,
        direction: capture.direction.name(),
        content: capture.body,
        timestamp,
    }
}

/// The state of the raw-event processor.
pub struct RawProcessor {
    pending: HashMap<u128, Vec<(u64, Vec<u8>)>>,
}

impl View for RawProcessor {
    type V = Pending;

    closed spec fn view(&self) -> Pending {
        self.pending@.map_values(|chunks: Vec<(u64, Vec<u8>)>| chunk_views(chunks@))
    }
}

impl RawProcessor {
    pub fn new() -> (r: RawProcessor)
        ensures
            r@ == Map::<u128, Seq<ChunkView>>::empty(),
    {
        broadcast use vstd::std_specs::hash::group_hash_axioms;

        let r = RawProcessor { pending: HashMap::new() };
        assert(r@ =~= Map::empty());
        r
    }

    /// The chunks that wait under `id`, taken out.
    fn take_waiting(&mut self, id: u128) -> (r: Option<Vec<(u64, Vec<u8>)>>)
        ensures
            final(self)@ == old(self)@.remove(id),
            match r {
                Some(chunks) => old(self)@.contains_key(id) && chunk_views(chunks@) == old(self)@[id],
                None => !old(self)@.contains_key(id),
            },
    {
        broadcast use vstd::std_specs::hash::group_hash_axioms;

        let r = self.pending.remove(&id);
        assert(self@ =~= old(self)@.remove(id));
        r
    }

    fn put_waiting(&mut self, id: u128, chunks: Vec<(u64, Vec<u8>)>)
        ensures
            final(self)@ == old(self)@.insert(id, chunk_views(chunks@)),
    {
        broadcast use vstd::std_specs::hash::group_hash_axioms;

        self.pending.insert(id, chunks);
        assert(self@ =~= old(self)@.insert(id, chunk_views(chunks@)));
    }

    /// Take in an event, and give the payload that it completes.
    pub fn step(&mut self, event: RawEvent) -> (r: Option<Capture>)
        ensures
            final(self)@ == pending_after(old(self)@, event@),
            match r {
                Some(capture) => completed_by(old(self)@, event@) == Some(capture@),
                None => completed_by(old(self)@, event@) is None,
            },
    {
        match event {
            RawEvent::Request { id, body, .. } => {
                // Track the id so that the response can be correlated.
                let chunks = match self.take_waiting(id) {
                    Some(chunks) => chunks,
                    None => Vec::new(),
                };
                self.put_waiting(id, chunks);
                assert(chunk_views(chunks@) =~= waiting(old(self)@, id));
                assert(self@ =~= pending_after(old(self)@, event@));
                Some(Capture { direction: Direction::Request, body })
            },
            RawEvent::ResponseChunk { id, seq, chunk } => {
                let mut chunks = match self.take_waiting(id) {
                    Some(chunks) => chunks,
                    None => Vec::new(),
                };
                assert(chunk_views(chunks@) =~= waiting(old(self)@, id));
                let ghost before = chunks@;
                chunks.push((seq, chunk));
                assert(chunk_views(chunks@) =~= chunk_views(before).push((seq, chunk@)));
                self.put_waiting(id, chunks);
                assert(self@ =~= pending_after(old(self)@, event@));
                None
            },
            RawEvent::ResponseDone { id, .. } => match self.take_waiting(id) {
                Some(chunks) => Some(
                    Capture { direction: Direction::Response, body: reassemble(chunks) },
                ),
                None => None,
            },
        }
    }

    /// Take in an event, and record the payload that it completes.
    pub fn handle(
        &mut self,
        event: RawEvent,
        store: &mut BlockStore,
        cache: &mut RawCache,
        ctx: &mut SessionContext,
    ) -> (r: Option<Recorded>)
        ensures
            final(self)@ == pending_after(old(self)@, event@),
            match completed_by(old(self)@, event@) {
                Some(capture) => r is Some && recorded_as(
                    r->0,
                    capture,
                    *old(store),
                    *final(store),
                    *old(cache),
                    *final(cache),
                    *old(ctx),
                    *final(ctx),
                ),
                None => r is None && *final(store) == *old(store) && *final(cache) == *old(cache)
                    && *final(ctx) == *old(ctx),
            },
    {
        match self.step(event) {
            Some(capture) => Some(record_capture(&capture, store, cache, ctx)),
            None => None,
        }
    }
}

// ── runs of events ───────────────────────────────────────────────────────

pub open spec fn event_views(events: Seq<RawEvent>) -> Seq<EventView> {
    events.map_values(|e: RawEvent| e@)
}

/// What waits after events, in order.
pub open spec fn pending_through(pending: Pending, events: Seq<EventView>) -> Pending
    decreases events.len(),
{
    if events.len() == 0 {
        pending
    } else {
        pending_after(pending_through(pending, events.drop_last()), events.last())
    }
}

/// The payloads that events complete, in order.
pub open spec fn captures_through(pending: Pending, events: Seq<EventView>) -> Seq<CaptureView>
    decreases events.len(),
{
    if events.len() == 0 {
        Seq::empty()
    } else {
        let front = captures_through(pending, events.drop_last());
        match completed_by(pending_through(pending, events.drop_last()), events.last()) {
            Some(capture) => front.push(capture),
            None => front,
        }
    }
}

/// How many blocks payloads had.
pub open spec fn blocks_in(records: Seq<Recorded>) -> nat
    decreases records.len(),
{
    if records.len() == 0 {
        0
    } else {
        blocks_in(records.drop_last()) + records.last().blocks@.len()
    }
}

/// Whether a record says of each of its blocks what became of it, every failure
/// is one that SQLite reported, and blocks read back from their rows.
pub open spec fn faithfully_reported(record: Recorded) -> bool {
    &&& record.stored@.len() == record.blocks@.len()
    &&& all_by_sqlite(record.stored@)
    &&& all_read_back(record.blocks@)
    &&& record.raw matches Err(e) ==> e is Database
}

/// Whether the records have the blocks of the payloads, numbered on through all
/// of them.
pub open spec fn recorded_in_turn(
    captures: Seq<CaptureView>,
    records: Seq<Recorded>,
    ctx: ContextView,
) -> bool {
    &&& records.len() == captures.len()
    &&& forall|i: int|
        #![trigger records[i]]
        0 <= i < records.len() ==> crate::block_builder::all_stamped(
            capture_drafts(captures[i]),
            ctx.advanced(blocks_in(records.take(i))),
            records[i].blocks@,
        ) && faithfully_reported(records[i])
}

/// A block table after payloads were recorded.
pub open spec fn table_after(
    table: Map<Seq<char>, BlockRecord>,
    records: Seq<Recorded>,
) -> Map<Seq<char>, BlockRecord>
    decreases records.len(),
{
    if records.len() == 0 {
        table
    } else {
        with_inserted(
            table_after(table, records.drop_last()),
            records.last().blocks@,
            records.last().stored@,
        )
    }
}

/// Whether each block that was taken had an id that the table did not have yet.
pub open spec fn all_recorded_new(
    table: Map<Seq<char>, BlockRecord>,
    records: Seq<Recorded>,
) -> bool
    decreases records.len(),
{
    records.len() == 0 || (all_recorded_new(table, records.drop_last()) && all_new(
        table_after(table, records.drop_last()),
        records.last().blocks@,
        records.last().stored@,
    ))
}

/// Whether `after` is `before` with the payloads that the raw cache took, each
/// under a new id, at the given times, each that of a reading of the clock.
pub open spec fn cached_at(
    before: Map<Seq<char>, RawRecord>,
    after: Map<Seq<char>, RawRecord>,
    session_id: Seq<char>,
    captures: Seq<CaptureView>,
    records: Seq<Recorded>,
    times: Seq<i64>,
) -> bool
    decreases records.len(),
{
    if records.len() == 0 {
        after == before
    } else {
        match records.last().raw {
            Ok(id) => {
                let entry = raw_entry(id@, session_id, captures.last(), times.last());
                &&& crate::session::clock_time(times.last())
                &&& after.contains_key(entry.id)
                &&& after[entry.id] == crate::raw_cache::row_of(entry)
                &&& cached_at(
                    before,
                    after.remove(entry.id),
                    session_id,
                    captures.drop_last(),
                    records.drop_last(),
                    times.drop_last(),
                )
            },
            Err(_) => cached_at(
                before,
                after,
                session_id,
                captures.drop_last(),
                records.drop_last(),
                times.drop_last(),
            ),
        }
    }
}

proof fn lemma_cached_one_more(
    before: Map<Seq<char>, RawRecord>,
    middle: Map<Seq<char>, RawRecord>,
    after: Map<Seq<char>, RawRecord>,
    session_id: Seq<char>,
    captures: Seq<CaptureView>,
    records: Seq<Recorded>,
    times: Seq<i64>,
    capture: CaptureView,
    record: Recorded,
    time: i64,
)
    requires
        cached_at(before, middle, session_id, captures, records, times),
        match record.raw {
            Ok(id) => crate::session::clock_time(time) && same_rows_but(
                middle,
                after,
                raw_entry(id@, session_id, capture, time),
            ),
            Err(_) => after == middle,
        },
    ensures
        cached_at(
            before,
            after,
            session_id,
            captures.push(capture),
            records.push(record),
            times.push(time),
        ),
{
    assert(captures.push(capture).drop_last() =~= captures);
    assert(records.push(record).drop_last() =~= records);
    assert(times.push(time).drop_last() =~= times);
    if record.raw is Ok {
        assert(after.remove(record.raw->Ok_0@) =~= middle);
    }
}

/// Take in events, in order, and record the payloads that they complete. A
/// payload or block that is refused does not stop the others.
pub fn run_raw_processor(
    events: Vec<RawEvent>,
    processor: &mut RawProcessor,
    store: &mut BlockStore,
    cache: &mut RawCache,
    ctx: &mut SessionContext,
) -> (r: Vec<Recorded>)
    ensures
        final(processor)@ == pending_through(old(processor)@, event_views(events@)),
        recorded_in_turn(
            captures_through(old(processor)@, event_views(events@)),
            r@,
            old(ctx)@,
        ),
        final(ctx)@ == old(ctx)@.advanced(blocks_in(r@)),
        final(store).same_database(*old(store)),
        old(store).in_memory() ==> all_recorded_new(old(store).table(), r@)
            && final(store).table() == table_after(old(store).table(), r@),
        final(cache).same_database(*old(cache)),
        old(cache).in_memory() ==> exists|times: Seq<i64>|
            cached_at(
                old(cache).table(),
                final(cache).table(),
                old(ctx)@.session_id,
                captures_through(old(processor)@, event_views(events@)),
                r@,
                times,
            ),
{
    let ghost all = events@;
    let ghost views = event_views(all);
    let ghost pending = processor@;
    let ghost mut times: Seq<i64> = Seq::empty();
    let mut out: Vec<Recorded> = Vec::new();
    assert(views.take(0) =~= Seq::empty());
    assert(old(ctx)@.advanced(0) == old(ctx)@) by {
        assert(old(ctx)@.advanced(0).upcoming == old(ctx)@.upcoming);
    }
    for event in it: events
        invariant
            it.seq() == all,
            views == event_views(all),
            pending == old(processor)@,
            processor@ == pending_through(pending, views.take(it.index())),
            recorded_in_turn(captures_through(pending, views.take(it.index())), out@, old(ctx)@),
            ctx@ == old(ctx)@.advanced(blocks_in(out@)),
            store.same_database(*old(store)),
            old(store).in_memory() ==> all_recorded_new(old(store).table(), out@)
                && store.table() == table_after(old(store).table(), out@),
            cache.same_database(*old(cache)),
            old(cache).in_memory() ==> cached_at(
                old(cache).table(),
                cache.table(),
                old(ctx)@.session_id,
                captures_through(pending, views.take(it.index())),
                out@,
                times,
            ),
    {
        let ghost front = captures_through(pending, views.take(it.index()));
        let ghost before = out@;
        let ghost rows = cache.table();
        let ghost ctx_before = ctx@;
        proof {
            assert(views.take(it.index() + 1).drop_last() =~= views.take(it.index()));
            assert(views.take(it.index() + 1).last() == event@);
        }
        match processor.handle(event, store, cache, ctx) {
            Some(record) => {
                out.push(record);
                proof {
                    let captures = captures_through(pending, views.take(it.index() + 1));
                    let capture = captures.last();
                    assert(captures.drop_last() =~= front);
                    assert(out@.drop_last() =~= before);
                    assert forall|i: int| 0 <= i < out@.len() implies
                        crate::block_builder::all_stamped(
                            capture_drafts(captures[i]),
                            old(ctx)@.advanced(blocks_in(out@.take(i))),
                            #[trigger] out@[i].blocks@,
                        ) && faithfully_reported(out@[i]) by {
                        assert(out@.take(i) =~= before.take(i));
                        if i < before.len() {
                            assert(captures[i] == front[i]);
                            assert(out@[i] == before[i]);
                        } else {
                            assert(before.take(i) =~= before);
                        }
                    }
                    crate::session::law_sequence_steps_add(
                        old(ctx)@.upcoming,
                        blocks_in(before),
                        record.blocks@.len(),
                    );
                    if old(cache).in_memory() {
                        let time = choose|timestamp: i64|
                            crate::session::clock_time(timestamp) && same_rows_but(
                                rows,
                                cache.table(),
                                #[trigger] raw_entry(
                                    record.raw->Ok_0@,
                                    ctx_before.session_id,
                                    capture,
                                    timestamp,
                                ),
                            );
                        lemma_cached_one_more(
                            old(cache).table(),
                            rows,
                            cache.table(),
                            old(ctx)@.session_id,
                            front,
                            before,
                            times,
                            capture,
                            record,
                            time,
                        );
                        times = times.push(time);
                    }
                }
            },
            None => {},
        }
    }
    assert(views.take(views.len() as int) =~= views);
    out
}

}
