//! Read-oriented query helpers on top of [`BlockStore`].
use vstd::prelude::*;
use vstd::string::*;

use crate::schema::{BlockType, BlockView, HarnessBlock};
use crate::store::{BlockRecord, BlockStore, StoreError, Wanted};
use crate::text::same_text;

verus! {

/// All blocks of a session, ordered by sequence.
pub fn list_blocks_by_session(store: &BlockStore, session_id: &str) -> (r: Result<
    Vec<HarnessBlock>,
    StoreError,
>)
    ensures
        r matches Err(StoreError::UnknownBlockType(e)) ==> crate::store::type_named(e.0@) is None,
        r matches Ok(blocks) ==> crate::store::in_listing_order(blocks@),
        store.in_memory() ==> match r {
            Ok(blocks) => crate::store::lists(
                store.table(),
                crate::store::blocks_of(session_id@, None, None),
                blocks@,
            ),
            Err(StoreError::UnknownBlockType(e)) => crate::store::unknown_type_in(
                store.table(),
                crate::store::blocks_of(session_id@, None, None),
                e,
            ),
            Err(StoreError::Database(_)) => true,
        },
{
    store.list_blocks(session_id, None, None)
}

/// All blocks of a session with the given type, ordered by sequence.
pub fn list_blocks_by_type(
    store: &BlockStore,
    session_id: &str,
    block_type: BlockType,
) -> (r: Result<Vec<HarnessBlock>, StoreError>)
    ensures
        r matches Err(StoreError::UnknownBlockType(e)) ==> crate::store::type_named(e.0@) is None,
        r matches Ok(blocks) ==> crate::store::in_listing_order(blocks@),
        store.in_memory() ==> match r {
            Ok(blocks) => crate::store::lists(
                store.table(),
                crate::store::blocks_of(session_id@, Some(block_type), None),
                blocks@,
            ),
            Err(StoreError::UnknownBlockType(e)) => false,
            Err(StoreError::Database(_)) => true,
        },
{
    let r = store.list_blocks(session_id, Some(block_type), None);
    proof {
        if r is Err && r->Err_0 is UnknownBlockType {
            if store.in_memory() {
                let e = r->Err_0->UnknownBlockType_0;
                let wanted = crate::store::blocks_of(session_id@, Some(block_type), None);
                let rows = choose|rows: Seq<BlockRecord>| #[trigger]
                    crate::store::selects(store.table(), wanted, rows)
                        && crate::store::first_unknown(rows, e);
                let i = choose|i: int|
                    0 <= i < rows.len() && crate::store::decoded(#[trigger] rows[i]) is None;
                let row = rows[i];
                assert(rows.contains(row));
                assert(block_type.name() == row.block_type);
            }
        }
    }
    r
}

/// All blocks whose parent is `parent_id` (across sessions), ordered by sequence.
pub fn list_child_blocks(store: &BlockStore, parent_id: &str) -> (r: Result<
    Vec<HarnessBlock>,
    StoreError,
>)
    ensures
        r matches Err(StoreError::UnknownBlockType(e)) ==> crate::store::type_named(e.0@) is None,
        r matches Ok(blocks) ==> crate::store::in_listing_order(blocks@),
        store.in_memory() ==> match r {
            Ok(blocks) => crate::store::lists(
                store.table(),
                (Wanted::Children { parent_id: parent_id@ }),
                blocks@,
            ),
            Err(StoreError::UnknownBlockType(e)) => crate::store::unknown_type_in(
                store.table(),
                (Wanted::Children { parent_id: parent_id@ }),
                e,
            ),
            Err(StoreError::Database(_)) => true,
        },
{
    store.list_children(parent_id)
}

/// Whether `block` is a block that a query asks for, and none has a later
/// sequence number.
pub open spec fn is_latest(
    table: Map<Seq<char>, BlockRecord>,
    wanted: Wanted,
    block: BlockView,
) -> bool {
    exists|row: BlockRecord| #[trigger]
        crate::store::holds(table, row) && wanted.asks_for(row) && crate::store::decoded(row)
            == Some(block) && forall|other: BlockRecord| #[trigger]
            crate::store::holds(table, other) && wanted.asks_for(other) ==> other.sequence
                <= row.sequence
}

/// The most recent `system_prompt` block of a session, if any.
pub fn get_system_prompt(store: &BlockStore, session_id: &str) -> (r: Result<
    Option<HarnessBlock>,
    StoreError,
>)
    ensures
        r matches Err(StoreError::UnknownBlockType(e)) ==> crate::store::type_named(e.0@) is None,
        store.in_memory() ==> match r {
            Ok(Some(block)) => is_latest(
                store.table(),
                crate::store::blocks_of(session_id@, Some(BlockType::SystemPrompt), None),
                block@,
            ),
            Ok(None) => forall|row: BlockRecord| #[trigger]
                crate::store::holds(store.table(), row) ==> !crate::store::blocks_of(
                    session_id@,
                    Some(BlockType::SystemPrompt),
                    None,
                ).asks_for(row),
            Err(StoreError::UnknownBlockType(_)) => false,
            Err(StoreError::Database(_)) => true,
        },
{
    let ghost wanted = crate::store::blocks_of(session_id@, Some(BlockType::SystemPrompt), None);
    match list_blocks_by_type(store, session_id, BlockType::SystemPrompt) {
        Ok(mut blocks) => {
            let ghost all = blocks@;
            let last = blocks.pop();
            proof {
                if store.in_memory() {
                    let rows = choose|rows: Seq<BlockRecord>| #[trigger]
                        crate::store::selects(store.table(), wanted, rows)
                            && crate::store::are_blocks_of(rows, all);
                    if rows.len() > 0 {
                        let n = rows.len() - 1;
                        assert(rows.contains(rows[n]));
                        assert forall|other: BlockRecord| #[trigger]
                            crate::store::holds(store.table(), other) && wanted.asks_for(
                                other,
                            ) implies other.sequence <= rows[n].sequence by {
                            assert(rows.contains(other));
                        }
                        assert(crate::store::holds(store.table(), rows[n]));
                        assert(crate::store::decoded(rows[n]) == Some(all[n]@));
                    } else {
                        assert forall|row: BlockRecord| #[trigger]
                            crate::store::holds(store.table(), row) implies !wanted.asks_for(
                            row,
                        ) by {
                            if wanted.asks_for(row) {
                                assert(rows.contains(row));
                            }
                        }
                    }
                }
            }
            Ok(last)
        },
        Err(e) => Err(e),
    }
}

// ── summaries ────────────────────────────────────────────────────────────

/// How many blocks of each type a session has: the name of the type and the
/// number, by ascending name, without types that do not occur.
#[derive(Debug, Clone, PartialEq)]
pub struct TypeCounts {
    pub entries: Vec<(String, u64)>,
}

impl TypeCounts {
    pub open spec fn view(&self) -> Seq<(Seq<char>, u64)> {
        self.entries@.map_values(|e: (String, u64)| (e.0@, e.1))
    }

    /// The number of blocks of the type with the given name.
    pub fn get(&self, name: &str) -> (r: Option<&u64>)
        ensures
            match r {
                Some(n) => self@.contains((name@, *n)),
                None => forall|n: u64| !self@.contains((name@, n)),
            },
    {
        let mut i: usize = 0;
        while i < self.entries.len()
            invariant
                i <= self.entries@.len(),
                forall|j: int| 0 <= j < i ==> (#[trigger] self.entries@[j]).0@ != name@,
            decreases self.entries@.len() - i,
        {
            if same_text(self.entries[i].0.as_str(), name) {
                assert(self@[i as int] == (name@, self.entries@[i as int].1));
                return Some(&self.entries[i].1);
            }
            i = i + 1;
        }
        assert forall|n: u64| !self@.contains((name@, n)) by {
            if self@.contains((name@, n)) {
                let j = choose|j: int| 0 <= j < self@.len() && self@[j] == (name@, n);
                assert(self.entries@[j].0@ == name@);
            }
        }
        None
    }
}

/// Aggregate counts for a session.
#[derive(Debug, Clone, PartialEq)]
pub struct SessionSummary {
    pub session_id: String,
    pub block_count: u64,
    pub first_timestamp: Option<i64>,
    pub last_timestamp: Option<i64>,
    pub block_type_counts: TypeCounts,
}

/// The block types by ascending name.
pub const BY_NAME: [BlockType; 10] = [
    BlockType::Exit,
    BlockType::PromptSegment,
    BlockType::PtyRaw,
    BlockType::Response,
    BlockType::ResponseChunk,
    BlockType::Spawn,
    BlockType::SystemPrompt,
    BlockType::ToolCall,
    BlockType::ToolResult,
    BlockType::UserPrompt,
];

/// How many of `blocks` have the type `t`.
pub open spec fn count_of(blocks: Seq<HarnessBlock>, t: BlockType) -> nat
    decreases blocks.len(),
{
    if blocks.len() == 0 {
        0
    } else {
        count_of(blocks.drop_last(), t) + if blocks.last().block_type == t {
            1nat
        } else {
            0nat
        }
    }
}

/// The counts of those `types` that occur among `blocks`, in order.
pub open spec fn counts_of(blocks: Seq<HarnessBlock>, types: Seq<BlockType>) -> Seq<
    (Seq<char>, u64),
>
    decreases types.len(),
{
    if types.len() == 0 {
        Seq::empty()
    } else {
        let front = counts_of(blocks, types.drop_last());
        let n = count_of(blocks, types.last());
        if n > 0 {
            front.push((types.last().name(), n as u64))
        } else {
            front
        }
    }
}

/// Whether `summary` sums up `blocks`, which are in order.
pub open spec fn sums_up(
    summary: SessionSummary,
    session_id: Seq<char>,
    blocks: Seq<HarnessBlock>,
) -> bool {
    &&& summary.session_id@ == session_id
    &&& summary.block_count == blocks.len()
    &&& summary.first_timestamp == if blocks.len() > 0 {
        Some(blocks.first().timestamp)
    } else {
        None
    }
    &&& summary.last_timestamp == if blocks.len() > 0 {
        Some(blocks.last().timestamp)
    } else {
        None
    }
    &&& summary.block_type_counts@ == counts_of(blocks, BY_NAME@)
}

fn count_type(blocks: &Vec<HarnessBlock>, t: BlockType) -> (r: u64)
    ensures
        r == count_of(blocks@, t),
        r <= blocks@.len(),
{
    let mut n: u64 = 0;
    let mut i: usize = 0;
    assert(blocks@.take(0) =~= Seq::empty());
    while i < blocks.len()
        invariant
            i <= blocks@.len(),
            n <= i,
            n == count_of(blocks@.take(i as int), t),
        decreases blocks@.len() - i,
    {
        assert(blocks@.take(i + 1).drop_last() =~= blocks@.take(i as int));
        if blocks[i].block_type == t {
            n = n + 1;
        }
        i = i + 1;
    }
    assert(blocks@.take(blocks@.len() as int) =~= blocks@);
    n
}

/// Sum up the blocks of a session, which are in order.
pub fn summarize(session_id: &str, blocks: &Vec<HarnessBlock>) -> (r: SessionSummary)
    ensures
        sums_up(r, session_id@, blocks@),
{
    let ghost view = |e: (String, u64)| (e.0@, e.1);
    let mut entries: Vec<(String, u64)> = Vec::new();
    let mut i: usize = 0;
    assert(entries@.map_values(view) =~= counts_of(blocks@, BY_NAME@.take(0)));
    while i < 10
        invariant
            i <= 10,
            view == (|e: (String, u64)| (e.0@, e.1)),
            entries@.map_values(view) == counts_of(blocks@, BY_NAME@.take(i as int)),
        decreases 10 - i,
    {
        let t = BY_NAME[i];
        assert(BY_NAME@.take(i + 1).drop_last() =~= BY_NAME@.take(i as int));
        assert(BY_NAME@.take(i + 1).last() == t);
        let n = count_type(blocks, t);
        if n > 0 {
            let entry = (t.to_string(), n);
            assert(entries@.push(entry).map_values(view) =~= entries@.map_values(view).push(
                (t.name(), n),
            ));
            entries.push(entry);
        }
        i = i + 1;
    }
    assert(BY_NAME@.take(10) =~= BY_NAME@);
    let (first_timestamp, last_timestamp): (Option<i64>, Option<i64>) = if blocks.len() > 0 {
        (Some(blocks[0].timestamp), Some(blocks[blocks.len() - 1].timestamp))
    } else {
        (None, None)
    };
    SessionSummary {
        session_id: session_id.to_string(),
        block_count: blocks.len() as u64,
        first_timestamp,
        last_timestamp,
        block_type_counts: TypeCounts { entries },
    }
}

/// Aggregate counts for a session.
pub fn get_session_summary(store: &BlockStore, session_id: &str) -> (r: Result<
    SessionSummary,
    StoreError,
>)
    ensures
        r matches Err(StoreError::UnknownBlockType(e)) ==> crate::store::type_named(e.0@) is None,
        r matches Ok(summary) ==> exists|blocks: Seq<HarnessBlock>| #[trigger]
            sums_up(summary, session_id@, blocks) && crate::store::in_listing_order(blocks) && (
            store.in_memory() ==> crate::store::lists(
                store.table(),
                crate::store::blocks_of(session_id@, None, None),
                blocks,
            )),
        store.in_memory() ==> (r matches Err(StoreError::UnknownBlockType(e))
            ==> crate::store::unknown_type_in(
            store.table(),
            crate::store::blocks_of(session_id@, None, None),
            e,
        )),
{
    match list_blocks_by_session(store, session_id) {
        Ok(blocks) => {
            let summary = summarize(session_id, &blocks);
            assert(sums_up(summary, session_id@, blocks@));
            Ok(summary)
        },
        Err(e) => Err(e),
    }
}

}
