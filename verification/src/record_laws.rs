//! Laws of rows and listings: what a row says of a block or a payload, which
//! rows a query gives, and what a summary says.
use vstd::prelude::*;
use vstd::string::*;
use vstd::utf8::*;

use crate::query::SessionSummary;
use crate::raw_cache::{EntryView, RawCache, RawEntry, RawRecord};
use crate::schema::{BlockType, BlockView, HarnessBlock, UnknownBlockType};
use crate::store::{BlockRecord, BlockStore, Wanted};

verus! {

// ── rows of blocks ───────────────────────────────────────────────────────

/// The row of a block has what the block says, with the type by its name and
/// the metadata as text.
pub proof fn law_row_of_a_block(block: BlockView)
    ensures
        crate::store::encoded(block).id == block.id,
        crate::store::encoded(block).session_id == block.session_id,
        crate::store::encoded(block).parent_id == block.parent_id,
        crate::store::encoded(block).harness_type == block.harness_type,
        crate::store::encoded(block).block_type == block.block_type.name(),
        crate::store::encoded(block).sequence == block.sequence,
        crate::store::encoded(block).content == Some(block.content),
        crate::store::encoded(block).metadata == Some(crate::json::written(block.metadata)),
        crate::store::encoded(block).timestamp == block.timestamp,
{
}

/// A name stands for the block type of that name, and for none where no type
/// has it.
pub proof fn law_type_of_a_name(name: Seq<char>, t: BlockType)
    ensures
        t.name() == name ==> crate::store::type_named(name) == Some(t),
        crate::store::type_named(name) == Some(t) ==> t.name() == name,
        (forall|u: BlockType| #[trigger] u.name() != name) ==> crate::store::type_named(
            name,
        ) is None,
{
    if t.name() == name {
        let u = crate::store::type_named(name)->0;
        crate::schema::law_block_type_names_distinct(t, u);
    }
}

/// The block of a row has what the row says, with the type that its name stands
/// for; a row with any other name is no block. A row without content has none,
/// and one whose metadata is no document, or missing, has `null`.
pub proof fn law_block_of_a_row(row: BlockRecord, t: BlockType)
    ensures
        crate::store::decoded(row) is Some <==> exists|u: BlockType| #[trigger]
            u.name() == row.block_type,
        t.name() == row.block_type ==> ({
            let block = crate::store::decoded(row)->0;
            &&& crate::store::decoded(row) is Some
            &&& block.id == row.id
            &&& block.session_id == row.session_id
            &&& block.parent_id == row.parent_id
            &&& block.harness_type == row.harness_type
            &&& block.block_type == t
            &&& 0 <= row.sequence <= u32::MAX ==> block.sequence == row.sequence
            &&& row.content matches Some(bytes) ==> block.content == bytes
            &&& row.content is None ==> block.content.len() == 0
            &&& row.metadata is None ==> block.metadata is Null
            &&& row.metadata matches Some(text) ==> match crate::json::read_document(
                encode_utf8(text),
            ) {
                Some(document) => block.metadata == document,
                None => block.metadata is Null,
            }
            &&& block.timestamp == row.timestamp
        }),
{
    law_type_of_a_name(row.block_type, t);
}

/// A block whose metadata is restorable reads back as it was written, field by
/// field.
pub proof fn law_block_reads_back(block: BlockView)
    requires
        crate::store::reads_back(block),
        crate::json::restorable(block.metadata),
    ensures
        crate::store::decoded(crate::store::encoded(block)) == Some(block),
{
}

// ── queries ──────────────────────────────────────────────────────────────

/// A query for a session asks for all its rows, and only for those with the
/// type and under the parent that it names.
pub proof fn law_query_for_a_session(
    session_id: Seq<char>,
    block_type: BlockType,
    parent_id: &str,
    row: BlockRecord,
)
    ensures
        crate::store::blocks_of(session_id, None, None).asks_for(row) <==> row.session_id
            == session_id,
        crate::store::blocks_of(session_id, Some(block_type), None).asks_for(row)
            <==> row.session_id == session_id && row.block_type == block_type.name(),
        crate::store::blocks_of(session_id, None, Some(parent_id)).asks_for(row)
            <==> row.session_id == session_id && row.parent_id == Some(parent_id@),
        crate::store::blocks_of(session_id, Some(block_type), Some(parent_id)).asks_for(row)
            <==> row.session_id == session_id && row.block_type == block_type.name()
            && row.parent_id == Some(parent_id@),
{
}

/// A query for roots asks for the rows of a session without parent, and a query
/// for children for the rows under a parent, in whatever session.
pub proof fn law_query_for_roots_and_children(
    session_id: Seq<char>,
    parent_id: Seq<char>,
    row: BlockRecord,
)
    ensures
        (Wanted::Roots { session_id }).asks_for(row) <==> row.session_id == session_id
            && row.parent_id is None,
        (Wanted::Children { parent_id }).asks_for(row) <==> row.parent_id == Some(parent_id),
{
}

/// The rows that a query gives are those of the table that it asks for, each
/// once, by ascending number.
pub proof fn law_rows_of_a_query(
    table: Map<Seq<char>, BlockRecord>,
    wanted: Wanted,
    rows: Seq<BlockRecord>,
    row: BlockRecord,
    i: int,
    j: int,
)
    requires
        crate::store::selects(table, wanted, rows),
    ensures
        rows.contains(row) <==> table.contains_key(row.id) && table[row.id] == row
            && wanted.asks_for(row),
        0 <= i < j < rows.len() ==> rows[i].sequence <= rows[j].sequence && rows[i] != rows[j],
{
    if table.contains_key(row.id) && table[row.id] == row {
        assert(crate::store::holds(table, row));
    }
}

/// The blocks that a query lists are those of the rows that it gives, one for
/// one.
pub proof fn law_blocks_of_a_query(
    table: Map<Seq<char>, BlockRecord>,
    wanted: Wanted,
    blocks: Seq<HarnessBlock>,
) -> (rows: Seq<BlockRecord>)
    requires
        crate::store::lists(table, wanted, blocks),
    ensures
        crate::store::selects(table, wanted, rows),
        blocks.len() == rows.len(),
        forall|i: int|
            0 <= i < rows.len() ==> crate::store::decoded(rows[i]) == Some(#[trigger] blocks[i]@),
{
    choose|rows: Seq<BlockRecord>| #[trigger]
        crate::store::selects(table, wanted, rows) && crate::store::are_blocks_of(rows, blocks)
}

/// A listing that is in order comes of rows by ascending number, one for one.
pub proof fn law_order_of_a_listing(blocks: Seq<HarnessBlock>) -> (rows: Seq<BlockRecord>)
    requires
        crate::store::in_listing_order(blocks),
    ensures
        blocks.len() == rows.len(),
        forall|i: int|
            0 <= i < rows.len() ==> crate::store::decoded(rows[i]) == Some(#[trigger] blocks[i]@),
        forall|i: int, j: int|
            0 <= i < j < rows.len() ==> (#[trigger] rows[i]).sequence <= (
            #[trigger] rows[j]).sequence,
{
    choose|rows: Seq<BlockRecord>| #[trigger]
        crate::store::are_blocks_of(rows, blocks) && crate::store::by_sequence(rows)
}

/// A query fails on a type that is not known where a row that it asks for has
/// that type, and all rows before it have types that are known.
pub proof fn law_unknown_type_of_a_query(
    table: Map<Seq<char>, BlockRecord>,
    wanted: Wanted,
    e: UnknownBlockType,
) -> (found: (Seq<BlockRecord>, int))
    requires
        crate::store::unknown_type_in(table, wanted, e),
    ensures
        crate::store::selects(table, wanted, found.0),
        0 <= found.1 < found.0.len(),
        found.0[found.1].block_type == e.0@,
        forall|t: BlockType| #[trigger] t.name() != e.0@,
        forall|j: int|
            0 <= j < found.1 ==> crate::store::decoded(#[trigger] found.0[j]) is Some,
{
    let rows = choose|rows: Seq<BlockRecord>| #[trigger]
        crate::store::selects(table, wanted, rows) && crate::store::first_unknown(rows, e);
    let i = choose|i: int|
        0 <= i < rows.len() && crate::store::decoded(#[trigger] rows[i]) is None
            && rows[i].block_type == e.0@ && forall|j: int|
            0 <= j < i ==> crate::store::decoded(#[trigger] rows[j]) is Some;
    assert(crate::store::type_named(rows[i].block_type) is None);
    (rows, i)
}

/// The rows of a session go with it, and no others.
pub proof fn law_rows_of_a_session(
    table: Map<Seq<char>, BlockRecord>,
    session_id: Seq<char>,
    id: Seq<char>,
)
    ensures
        crate::store::session_ids(table, session_id).contains(id) <==> table.contains_key(id)
            && table[id].session_id == session_id,
{
}

/// The latest block is that of a row that the query asks for, and no row that
/// it asks for has a greater number.
pub proof fn law_latest_block(
    table: Map<Seq<char>, BlockRecord>,
    wanted: Wanted,
    block: BlockView,
    other: BlockRecord,
) -> (row: BlockRecord)
    requires
        crate::query::is_latest(table, wanted, block),
    ensures
        table.contains_key(row.id),
        table[row.id] == row,
        wanted.asks_for(row),
        crate::store::decoded(row) == Some(block),
        table.contains_key(other.id) && table[other.id] == other && wanted.asks_for(other)
            ==> other.sequence <= row.sequence,
{
    let row = choose|row: BlockRecord| #[trigger]
        crate::store::holds(table, row) && wanted.asks_for(row) && crate::store::decoded(row)
            == Some(block) && forall|other: BlockRecord| #[trigger]
            crate::store::holds(table, other) && wanted.asks_for(other) ==> other.sequence
                <= row.sequence;
    if table.contains_key(other.id) && table[other.id] == other {
        assert(crate::store::holds(table, other));
    }
    row
}

// ── summaries ────────────────────────────────────────────────────────────

/// The count of a type is the number of blocks of that type.
pub proof fn law_count_of_a_type(blocks: Seq<HarnessBlock>, t: BlockType)
    ensures
        crate::query::count_of(blocks, t) == blocks.filter(
            |b: HarnessBlock| b.block_type == t,
        ).len(),
    decreases blocks.len(),
{
    reveal(Seq::filter);
    if blocks.len() > 0 {
        law_count_of_a_type(blocks.drop_last(), t);
    }
}

/// The counts of types, one behind the other, are the name and number of each
/// that occurs.
pub proof fn law_counts_of_types(
    blocks: Seq<HarnessBlock>,
    types: Seq<BlockType>,
    t: BlockType,
)
    requires
        blocks.len() <= u64::MAX,
    ensures
        crate::query::counts_of(blocks, Seq::empty()).len() == 0,
        blocks.filter(|b: HarnessBlock| b.block_type == t).len() > 0 ==> crate::query::counts_of(
            blocks,
            types.push(t),
        ) == crate::query::counts_of(blocks, types).push(
            (t.name(), blocks.filter(|b: HarnessBlock| b.block_type == t).len() as u64),
        ),
        blocks.filter(|b: HarnessBlock| b.block_type == t).len() == 0 ==> crate::query::counts_of(
            blocks,
            types.push(t),
        ) == crate::query::counts_of(blocks, types),
{
    law_count_of_a_type(blocks, t);
    assert(types.push(t).drop_last() =~= types);
}

/// A summary names its session, counts its blocks, and has the time of the
/// first and of the last, none where there is no block.
pub proof fn law_summary(
    summary: SessionSummary,
    session_id: Seq<char>,
    blocks: Seq<HarnessBlock>,
)
    requires
        crate::query::sums_up(summary, session_id, blocks),
    ensures
        summary.session_id@ == session_id,
        summary.block_count == blocks.len(),
        blocks.len() > 0 ==> summary.first_timestamp == Some(blocks[0].timestamp)
            && summary.last_timestamp == Some(blocks[blocks.len() - 1].timestamp),
        blocks.len() == 0 ==> summary.first_timestamp is None && summary.last_timestamp is None,
        summary.block_type_counts@ == crate::query::counts_of(
            blocks,
            seq![
                BlockType::Exit,
                BlockType::PromptSegment,
                BlockType::PtyRaw,
                BlockType::Response,
                BlockType::ResponseChunk,
                BlockType::Spawn,
                BlockType::SystemPrompt,
                BlockType::ToolCall,
                BlockType::ToolResult,
                BlockType::UserPrompt,
            ],
        ),
{
    assert(crate::query::BY_NAME@ =~= seq![
        BlockType::Exit,
        BlockType::PromptSegment,
        BlockType::PtyRaw,
        BlockType::Response,
        BlockType::ResponseChunk,
        BlockType::Spawn,
        BlockType::SystemPrompt,
        BlockType::ToolCall,
        BlockType::ToolResult,
        BlockType::UserPrompt,
    ]);
}

// ── payloads ─────────────────────────────────────────────────────────────

/// The row of a payload has what its entry says, and reads back as the entry; a
/// row without content has none.
pub proof fn law_row_of_a_payload(entry: EntryView, row: RawRecord)
    ensures
        crate::raw_cache::row_of(entry).id == entry.id,
        crate::raw_cache::row_of(entry).session_id == entry.session_id,
        crate::raw_cache::row_of(entry).direction == entry.direction,
        crate::raw_cache::row_of(entry).content == Some(entry.content),
        crate::raw_cache::row_of(entry).timestamp == entry.timestamp,
        crate::raw_cache::entry_of(crate::raw_cache::row_of(entry)) == entry,
        crate::raw_cache::entry_of(row).id == row.id,
        crate::raw_cache::entry_of(row).session_id == row.session_id,
        crate::raw_cache::entry_of(row).direction == row.direction,
        row.content matches Some(bytes) ==> crate::raw_cache::entry_of(row).content == bytes,
        row.content is None ==> crate::raw_cache::entry_of(row).content.len() == 0,
        crate::raw_cache::entry_of(row).timestamp == row.timestamp,
{
}

/// The entries of a session are those of its rows, each once, oldest first.
pub proof fn law_entries_of_a_session(
    table: Map<Seq<char>, RawRecord>,
    session_id: Seq<char>,
    entries: Seq<RawEntry>,
) -> (rows: Seq<RawRecord>)
    requires
        crate::raw_cache::entries_of(table, session_id, entries),
    ensures
        entries.len() == rows.len(),
        rows.no_duplicates(),
        forall|i: int|
            0 <= i < rows.len() ==> #[trigger] entries[i]@ == crate::raw_cache::entry_of(rows[i]),
        forall|i: int, j: int|
            0 <= i < j < rows.len() ==> (#[trigger] rows[i]).timestamp <= (
            #[trigger] rows[j]).timestamp,
        forall|r: RawRecord| #[trigger]
            rows.contains(r) <==> table.contains_key(r.id) && table[r.id] == r && r.session_id
                == session_id,
{
    let rows = choose|rows: Seq<RawRecord>| #[trigger]
        crate::raw_cache::oldest_first(table, session_id, rows) && entries.len() == rows.len()
            && forall|i: int|
            0 <= i < rows.len() ==> #[trigger] entries[i]@ == crate::raw_cache::entry_of(rows[i]);
    assert forall|r: RawRecord| #[trigger] rows.contains(r) <==> table.contains_key(r.id)
        && table[r.id] == r && r.session_id == session_id by {
        assert(crate::raw_cache::holds_raw(table, r) <==> table.contains_key(r.id) && table[r.id]
            == r);
    }
    rows
}

/// Entries that stand by time ascend in time.
pub proof fn law_entries_ascend(entries: Seq<RawEntry>, i: int, j: int)
    requires
        crate::raw_cache::entries_by_time(entries),
        0 <= i < j < entries.len(),
    ensures
        entries[i].timestamp <= entries[j].timestamp,
{
}

/// The payloads of a session go with it, and no others.
pub proof fn law_payloads_of_a_session(
    table: Map<Seq<char>, RawRecord>,
    session_id: Seq<char>,
    id: Seq<char>,
)
    ensures
        crate::raw_cache::raw_session_ids(table, session_id).contains(id) <==> table.contains_key(
            id,
        ) && table[id].session_id == session_id,
{
}

// ── databases ────────────────────────────────────────────────────────────

/// The statements that the store and the raw cache run.
pub proof fn law_statements()
    ensures
        crate::store::INSERT_BLOCK@ == "INSERT INTO harness_blocks
                (id, session_id, parent_id, harness_type, block_type, sequence, content, metadata, timestamp)
             VALUES (?1, ?2, ?3, ?4, ?5, ?6, ?7, ?8, ?9)"@,
        crate::store::SELECT_BLOCK@ == "SELECT * FROM harness_blocks WHERE id = ?1"@,
        crate::store::SELECT_BLOCKS@ == "SELECT * FROM harness_blocks
             WHERE session_id = ?1
               AND (?2 IS NULL OR block_type = ?2)
               AND (?3 IS NULL OR parent_id = ?3)
             ORDER BY sequence ASC"@,
        crate::store::SELECT_ROOTS@ == "SELECT * FROM harness_blocks WHERE session_id = ?1 AND parent_id IS NULL
             ORDER BY sequence ASC"@,
        crate::store::SELECT_CHILDREN@ == "SELECT * FROM harness_blocks WHERE parent_id = ?1 ORDER BY sequence ASC"@,
        crate::store::DELETE_SESSION@ == "DELETE FROM harness_blocks WHERE session_id = ?1"@,
        crate::raw_cache::INSERT_RAW@ == "INSERT INTO raw_cache (id, session_id, direction, content, timestamp)
             VALUES (?1, ?2, ?3, ?4, ?5)"@,
        crate::raw_cache::SELECT_RAW@ == "SELECT * FROM raw_cache WHERE session_id = ?1 ORDER BY timestamp ASC"@,
        crate::raw_cache::DELETE_RAW@ == "DELETE FROM raw_cache WHERE session_id = ?1"@,
{
}

/// The schema has the two tables and their indexes.
pub proof fn law_schema(name: Seq<char>)
    ensures
        crate::migration::schema_objects().contains(name) <==> name == "harness_blocks"@ || name
            == "idx_blocks_session"@ || name == "idx_blocks_parent"@ || name == "idx_blocks_type"@
            || name == "raw_cache"@ || name == "idx_raw_session"@,
{
}

/// Running the schema takes nothing away and adds nothing but its own tables
/// and indexes, and all of them where it runs to its end.
pub proof fn law_schema_adds_its_objects(
    before: Set<Seq<char>>,
    after: Set<Seq<char>>,
    whole: bool,
    name: Seq<char>,
)
    requires
        crate::migration::schema_applied(before, after, whole),
    ensures
        before.contains(name) ==> after.contains(name),
        after.contains(name) ==> before.contains(name)
            || crate::migration::schema_objects().contains(name),
        whole && crate::migration::schema_objects().contains(name) ==> after.contains(name),
{
}

/// A new store and a new cache are in memory, with the tables and without rows.
pub proof fn law_new_databases(store: BlockStore, cache: RawCache, id: Seq<char>)
    ensures
        store.is_new() ==> store.in_memory() && !store.table().contains_key(id)
            && store.objects().contains("harness_blocks"@) && store.objects().contains(
            "raw_cache"@,
        ),
        cache.is_new() ==> cache.in_memory() && !cache.table().contains_key(id)
            && cache.objects().contains("harness_blocks"@) && cache.objects().contains(
            "raw_cache"@,
        ),
{
    law_schema("harness_blocks"@);
    law_schema("raw_cache"@);
}

/// A store that stays on its database keeps its path, its journal mode, its
/// schema and, in memory, its tables and indexes; so does a cache.
pub proof fn law_same_database(a: BlockStore, b: BlockStore, c: RawCache, d: RawCache)
    ensures
        a.same_database(b) ==> a.path() == b.path() && a.wal() == b.wal() && a.has_schema()
            == b.has_schema() && a.in_memory() == b.in_memory() && (b.in_memory() ==> a.objects()
            == b.objects()),
        c.same_database(d) ==> c.path() == d.path() && c.wal() == d.wal() && c.has_schema()
            == d.has_schema() && c.in_memory() == d.in_memory() && (d.in_memory() ==> c.objects()
            == d.objects()),
{
}

}
