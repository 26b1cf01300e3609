//! Laws of the store: what listings show of the blocks that were inserted, and
//! what deleting a session leaves.
use vstd::prelude::*;
use vstd::string::*;

use crate::schema::{BlockType, BlockView, HarnessBlock};
use crate::store::{BlockRecord, Wanted};

verus! {

/// The rows of a block store, by id.
pub type Table = Map<Seq<char>, BlockRecord>;

/// Whether every row has a sequence number as blocks have them.
pub open spec fn numbered_rows(table: Table) -> bool {
    forall|r: BlockRecord| #[trigger]
        crate::store::holds(table, r) ==> 0 <= r.sequence <= u32::MAX
}

/// A listing shows each block in the store that it asks for.
pub proof fn law_stored_block_is_listed(
    table: Table,
    wanted: Wanted,
    blocks: Seq<HarnessBlock>,
    row: BlockRecord,
)
    requires
        crate::store::lists(table, wanted, blocks),
        crate::store::holds(table, row),
        wanted.asks_for(row),
    ensures
        exists|i: int|
            0 <= i < blocks.len() && crate::store::decoded(row) == Some(#[trigger] blocks[i]@),
{
    let rows = choose|rows: Seq<BlockRecord>| #[trigger]
        crate::store::selects(table, wanted, rows) && crate::store::are_blocks_of(rows, blocks);
    assert(rows.contains(row));
    let i = choose|i: int| 0 <= i < rows.len() && rows[i] == row;
    assert(crate::store::decoded(row) == Some(blocks[i]@));
}

/// A listing shows nothing but blocks in the store that it asks for.
pub proof fn law_listed_block_is_stored(
    table: Table,
    wanted: Wanted,
    blocks: Seq<HarnessBlock>,
    i: int,
)
    requires
        crate::store::lists(table, wanted, blocks),
        0 <= i < blocks.len(),
    ensures
        exists|row: BlockRecord| #[trigger]
            crate::store::holds(table, row) && wanted.asks_for(row) && crate::store::decoded(row)
                == Some(blocks[i]@),
{
    let rows = choose|rows: Seq<BlockRecord>| #[trigger]
        crate::store::selects(table, wanted, rows) && crate::store::are_blocks_of(rows, blocks);
    assert(rows.contains(rows[i]));
    assert(crate::store::holds(table, rows[i]));
}

/// A listing shows blocks by ascending sequence number.
pub proof fn law_listing_ascends(
    table: Table,
    wanted: Wanted,
    blocks: Seq<HarnessBlock>,
    i: int,
    j: int,
)
    requires
        crate::store::lists(table, wanted, blocks),
        numbered_rows(table),
        0 <= i < j < blocks.len(),
    ensures
        blocks[i]@.sequence <= blocks[j]@.sequence,
{
    let rows = choose|rows: Seq<BlockRecord>| #[trigger]
        crate::store::selects(table, wanted, rows) && crate::store::are_blocks_of(rows, blocks);
    assert(rows.contains(rows[i]) && rows.contains(rows[j]));
    assert(crate::store::holds(table, rows[i]) && crate::store::holds(table, rows[j]));
    assert(crate::store::decoded(rows[i]) == Some(blocks[i]@));
    assert(crate::store::decoded(rows[j]) == Some(blocks[j]@));
}

/// Inserting blocks keeps the sequence numbers of all rows as blocks have them.
pub proof fn law_inserting_keeps_rows_numbered(table: Table, block: BlockView)
    requires
        numbered_rows(table),
    ensures
        numbered_rows(table.insert(block.id, crate::store::encoded(block))),
{
    let after = table.insert(block.id, crate::store::encoded(block));
    assert forall|r: BlockRecord| #[trigger] crate::store::holds(after, r) implies 0 <= r.sequence
        <= u32::MAX by {
        if r.id != block.id {
            assert(crate::store::holds(table, r));
        }
    }
}

/// Inserting a block adds it to the listings that ask for it, and changes
/// nothing else in any listing.
pub proof fn law_insert_adds_one_block(
    table: Table,
    block: BlockView,
    wanted: Wanted,
    row: BlockRecord,
)
    requires
        !table.contains_key(block.id),
    ensures
        ({
            let after = table.insert(block.id, crate::store::encoded(block));
            (crate::store::holds(after, row) && wanted.asks_for(row)) == ((crate::store::holds(
                table,
                row,
            ) || row == crate::store::encoded(block)) && wanted.asks_for(row))
        }),
{
}

/// Deleting a session leaves none of its rows, whatever listing asks for them.
pub proof fn law_deleted_session_is_gone(
    table: Table,
    session_id: Seq<char>,
    wanted: Wanted,
    rows: Seq<BlockRecord>,
)
    requires
        crate::store::selects(
            table.remove_keys(crate::store::session_ids(table, session_id)),
            wanted,
            rows,
        ),
    ensures
        forall|i: int| 0 <= i < rows.len() ==> (#[trigger] rows[i]).session_id != session_id,
{
    let after = table.remove_keys(crate::store::session_ids(table, session_id));
    assert forall|i: int| 0 <= i < rows.len() implies (#[trigger] rows[i]).session_id
        != session_id by {
        assert(rows.contains(rows[i]));
        assert(crate::store::holds(after, rows[i]));
        if rows[i].session_id == session_id {
            assert(crate::store::session_ids(table, session_id).contains(rows[i].id));
        }
    }
}

/// Deleting a session leaves every row of the other sessions as it was.
pub proof fn law_other_sessions_stay(table: Table, session_id: Seq<char>, row: BlockRecord)
    requires
        row.session_id != session_id,
    ensures
        crate::store::holds(
            table.remove_keys(crate::store::session_ids(table, session_id)),
            row,
        ) == crate::store::holds(table, row),
{
    if crate::store::holds(table, row) {
        assert(!crate::store::session_ids(table, session_id).contains(row.id));
    }
}

/// What a session lists does not change when another session is deleted.
pub proof fn law_listing_survives_other_deletions(
    table: Table,
    deleted: Seq<char>,
    session_id: Seq<char>,
    block_type: Option<Seq<char>>,
    parent_id: Option<Seq<char>>,
    rows: Seq<BlockRecord>,
)
    requires
        session_id != deleted,
    ensures
        crate::store::selects(
            table.remove_keys(crate::store::session_ids(table, deleted)),
            (Wanted::OfSession { session_id, block_type, parent_id }),
            rows,
        ) == crate::store::selects(
            table,
            (Wanted::OfSession { session_id, block_type, parent_id }),
            rows,
        ),
{
    let after = table.remove_keys(crate::store::session_ids(table, deleted));
    let wanted = Wanted::OfSession { session_id, block_type, parent_id };
    assert forall|r: BlockRecord|
        (#[trigger] crate::store::holds(after, r) && wanted.asks_for(r)) == (crate::store::holds(
            table,
            r,
        ) && wanted.asks_for(r)) by {
        if r.session_id == session_id {
            law_other_sessions_stay(table, deleted, r);
        }
    }
    if crate::store::selects(table, wanted, rows) {
        assert forall|r: BlockRecord| #[trigger] rows.contains(r) <==> crate::store::holds(after, r)
            && wanted.asks_for(r) by {
            assert((crate::store::holds(after, r) && wanted.asks_for(r)) == (crate::store::holds(
                table,
                r,
            ) && wanted.asks_for(r)));
        }
    }
    if crate::store::selects(after, wanted, rows) {
        assert forall|r: BlockRecord| #[trigger] rows.contains(r) <==> crate::store::holds(table, r)
            && wanted.asks_for(r) by {
            assert((crate::store::holds(after, r) && wanted.asks_for(r)) == (crate::store::holds(
                table,
                r,
            ) && wanted.asks_for(r)));
        }
    }
}

/// Whether no two rows have one sequence number.
pub open spec fn distinct_sequences(rows: Seq<BlockRecord>) -> bool {
    forall|i: int, j: int|
        0 <= i < j < rows.len() ==> (#[trigger] rows[i]).sequence != (#[trigger] rows[j]).sequence
}

proof fn lemma_same_rows(a: Seq<BlockRecord>, b: Seq<BlockRecord>)
    requires
        crate::store::by_sequence(a),
        crate::store::by_sequence(b),
        distinct_sequences(a),
        distinct_sequences(b),
        forall|r: BlockRecord| #[trigger] a.contains(r) <==> b.contains(r),
    ensures
        a == b,
    decreases a.len(),
{
    if a.len() == 0 {
        if b.len() > 0 {
            assert(b.contains(b[0]));
            assert(a.contains(b[0]));
        }
        assert(a =~= b);
    } else {
        assert(a.contains(a.last()));
        let i = choose|i: int| 0 <= i < b.len() && b[i] == a.last();
        assert(b.contains(b.last()));
        assert(a.contains(b.last()));
        let j = choose|j: int| 0 <= j < a.len() && a[j] == b.last();
        assert(a[j].sequence <= a.last().sequence);
        assert(b[i].sequence <= b.last().sequence);
        assert(i == b.len() - 1) by {
            if i < b.len() - 1 {
                assert(b[i].sequence != b[b.len() - 1].sequence);
            }
        }
        let x = a.drop_last();
        let y = b.drop_last();
        assert forall|r: BlockRecord| #[trigger] x.contains(r) <==> y.contains(r) by {
            if x.contains(r) {
                let k = choose|k: int| 0 <= k < x.len() && x[k] == r;
                assert(a[k] == r && a[k].sequence != a[a.len() - 1].sequence);
                assert(a.contains(r));
                let l = choose|l: int| 0 <= l < b.len() && b[l] == r;
                assert(l != b.len() - 1);
                assert(y[l] == r);
            }
            if y.contains(r) {
                let k = choose|k: int| 0 <= k < y.len() && y[k] == r;
                assert(b[k] == r && b[k].sequence != b[b.len() - 1].sequence);
                assert(b.contains(r));
                assert(a.contains(r));
                let l = choose|l: int| 0 <= l < a.len() && a[l] == r;
                assert(l != a.len() - 1);
                assert(x[l] == r);
            }
        }
        lemma_same_rows(x, y);
        assert(a =~= x.push(a.last()));
        assert(b =~= y.push(b.last()));
    }
}

/// A query has one answer where the sequence numbers of the rows that it asks
/// for are distinct.
pub proof fn law_listing_is_unique(
    table: Table,
    wanted: Wanted,
    a: Seq<BlockRecord>,
    b: Seq<BlockRecord>,
)
    requires
        crate::store::selects(table, wanted, a),
        crate::store::selects(table, wanted, b),
        distinct_sequences(a),
    ensures
        a == b,
{
    assert forall|r: BlockRecord| #[trigger] a.contains(r) <==> b.contains(r) by {}
    assert forall|i: int, j: int| 0 <= i < j < b.len() implies (#[trigger] b[i]).sequence != (
    #[trigger] b[j]).sequence by {
        assert(b.contains(b[i]) && b.contains(b[j]));
        assert(a.contains(b[i]) && a.contains(b[j]));
        let k = choose|k: int| 0 <= k < a.len() && a[k] == b[i];
        let l = choose|l: int| 0 <= l < a.len() && a[l] == b[j];
        assert(k != l);
    }
    lemma_same_rows(a, b);
}

/// Every row of a session is listed among its roots, or else as a child of the
/// one parent that it names.
pub proof fn law_row_is_root_or_child(row: BlockRecord, parent_id: Seq<char>)
    ensures
        (Wanted::Roots { session_id: row.session_id }).asks_for(row) == (row.parent_id is None),
        (Wanted::Children { parent_id }).asks_for(row) == (row.parent_id == Some(parent_id)),
{
}

/// A listing by type shows what the listing of the whole session shows of that
/// type.
pub proof fn law_listing_by_type_is_a_part(
    session_id: Seq<char>,
    block_type: BlockType,
    row: BlockRecord,
)
    ensures
        crate::store::blocks_of(session_id, Some(block_type), None).asks_for(row) == (
        crate::store::blocks_of(session_id, None, None).asks_for(row) && row.block_type
            == block_type.name()),
{
}

/// The table of blocks that were inserted, in order, into an empty store.
pub open spec fn table_of(blocks: Seq<BlockView>) -> Table
    decreases blocks.len(),
{
    if blocks.len() == 0 {
        Map::empty()
    } else {
        table_of(blocks.drop_last()).insert(
            blocks.last().id,
            crate::store::encoded(blocks.last()),
        )
    }
}

/// The rows of blocks, in order.
pub open spec fn rows_of(blocks: Seq<BlockView>) -> Seq<BlockRecord> {
    blocks.map_values(|b: BlockView| crate::store::encoded(b))
}

proof fn lemma_table_holds(blocks: Seq<BlockView>, r: BlockRecord)
    requires
        forall|i: int, j: int|
            0 <= i < j < blocks.len() ==> (#[trigger] blocks[i]).id != (#[trigger] blocks[j]).id,
    ensures
        crate::store::holds(table_of(blocks), r) <==> rows_of(blocks).contains(r),
    decreases blocks.len(),
{
    if blocks.len() > 0 {
        let front = blocks.drop_last();
        let all = rows_of(blocks);
        assert forall|i: int, j: int| 0 <= i < j < front.len() implies (#[trigger] front[i]).id != (
        #[trigger] front[j]).id by {
            assert(front[i] == blocks[i] && front[j] == blocks[j]);
        }
        lemma_table_holds(front, r);
        assert(all[blocks.len() - 1] == crate::store::encoded(blocks.last()));
        if crate::store::holds(table_of(blocks), r) && r.id != blocks.last().id {
            assert(crate::store::holds(table_of(front), r));
            let k = choose|k: int| 0 <= k < rows_of(front).len() && rows_of(front)[k] == r;
            assert(all[k] == r);
        }
        if all.contains(r) {
            let k = choose|k: int| 0 <= k < all.len() && all[k] == r;
            if k < front.len() {
                assert(blocks[k].id != blocks[blocks.len() - 1].id);
                assert(rows_of(front)[k] == r);
            }
        }
    }
}

/// A store that was empty lists the blocks of a session that were inserted, all
/// of them and nothing else, by ascending sequence number.
pub proof fn law_listing_is_what_was_inserted(
    blocks: Seq<BlockView>,
    session_id: Seq<char>,
    rows: Seq<BlockRecord>,
)
    requires
        forall|i: int| 0 <= i < blocks.len() ==> (#[trigger] blocks[i]).session_id == session_id,
        forall|i: int, j: int|
            0 <= i < j < blocks.len() ==> (#[trigger] blocks[i]).id != (#[trigger] blocks[j]).id,
        forall|i: int, j: int|
            0 <= i < j < blocks.len() ==> (#[trigger] blocks[i]).sequence < (
            #[trigger] blocks[j]).sequence,
        crate::store::selects(
            table_of(blocks),
            crate::store::blocks_of(session_id, None, None),
            rows,
        ),
    ensures
        rows == rows_of(blocks),
{
    let table = table_of(blocks);
    let wanted = crate::store::blocks_of(session_id, None, None);
    let all = rows_of(blocks);
    assert forall|i: int, j: int| 0 <= i < j < all.len() implies (#[trigger] all[i]).sequence < (
    #[trigger] all[j]).sequence by {
        assert(blocks[i].sequence < blocks[j].sequence);
    }
    assert forall|r: BlockRecord| #[trigger] all.contains(r) <==> crate::store::holds(table, r)
        && wanted.asks_for(r) by {
        lemma_table_holds(blocks, r);
        if all.contains(r) {
            let k = choose|k: int| 0 <= k < all.len() && all[k] == r;
            assert(blocks[k].session_id == session_id);
        }
    }
    assert(crate::store::selects(table, wanted, all));
    law_listing_is_unique(table, wanted, all, rows);
}

}
