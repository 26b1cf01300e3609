//! CRUD store for harness blocks, backed by SQLite (WAL mode).
use vstd::prelude::*;
use vstd::string::*;
use vstd::utf8::*;

use crate::json::{Json, JsonView};
use crate::migration::{open_memory, open_path, run, use_wal};
use crate::schema::{BlockType, BlockView, HarnessBlock, UnknownBlockType};

verus! {

// ── rows ─────────────────────────────────────────────────────────────────

/// One row of the table `harness_blocks`.
#[derive(Debug)]
pub struct BlockRow {
    pub id: String,
    pub session_id: String,
    pub parent_id: Option<String>,
    pub harness_type: String,
    pub block_type: String,
    pub sequence: i64,
    pub content: Option<Vec<u8>>,
    pub metadata: Option<String>,
    pub timestamp: i64,
}

/// What a [`BlockRow`] says.
pub struct BlockRecord {
    pub id: Seq<char>,
    pub session_id: Seq<char>,
    pub parent_id: Option<Seq<char>>,
    pub harness_type: Seq<char>,
    pub block_type: Seq<char>,
    pub sequence: i64,
    pub content: Option<Seq<u8>>,
    pub metadata: Option<Seq<char>>,
    pub timestamp: i64,
}

impl View for BlockRow {
    type V = BlockRecord;

    open spec fn view(&self) -> BlockRecord {
        BlockRecord {
            id: self.id@,
            session_id: self.session_id@,
            parent_id: crate::schema::text_option(self.parent_id),
            harness_type: self.harness_type@,
            block_type: self.block_type@,
            sequence: self.sequence,
            content: match self.content {
                Some(bytes) => Some(bytes@),
                None => None,
            },
            metadata: crate::schema::text_option(self.metadata),
            timestamp: self.timestamp,
        }
    }
}

pub open spec fn records(rows: Seq<BlockRow>) -> Seq<BlockRecord> {
    rows.map_values(|r: BlockRow| r@)
}

/// The row of a block.
pub open spec fn encoded(block: BlockView) -> BlockRecord {
    BlockRecord {
        id: block.id,
        session_id: block.session_id,
        parent_id: block.parent_id,
        harness_type: block.harness_type,
        block_type: block.block_type.name(),
        sequence: block.sequence as i64,
        content: Some(block.content),
        metadata: Some(crate::json::written(block.metadata)),
        timestamp: block.timestamp,
    }
}

/// The block type that `name` names.
pub open spec fn type_named(name: Seq<char>) -> Option<BlockType> {
    if exists|t: BlockType| #[trigger] t.name() == name {
        Some(choose|t: BlockType| #[trigger] t.name() == name)
    } else {
        None
    }
}

/// The metadata that the text in a row stands for; `null` where there is no
/// text or it is no JSON.
pub open spec fn decoded_metadata(text: Option<Seq<char>>) -> JsonView {
    match text {
        Some(t) => match crate::json::read_document(encode_utf8(t)) {
            Some(document) => document,
            None => JsonView::Null,
        },
        None => JsonView::Null,
    }
}

/// The block of a row; none where its block type is unknown.
pub open spec fn decoded(row: BlockRecord) -> Option<BlockView> {
    match type_named(row.block_type) {
        Some(block_type) => Some(
            BlockView {
                id: row.id,
                session_id: row.session_id,
                parent_id: row.parent_id,
                harness_type: row.harness_type,
                block_type,
                sequence: row.sequence as u32,
                content: match row.content {
                    Some(bytes) => bytes,
                    None => Seq::empty(),
                },
                metadata: decoded_metadata(row.metadata),
                timestamp: row.timestamp,
            },
        ),
        None => None,
    }
}

/// Whether the row of a block reads back as the block, where its metadata is
/// restorable.
pub open spec fn reads_back(block: BlockView) -> bool {
    crate::json::restorable(block.metadata) ==> decoded(encoded(block)) == Some(block)
}

/// The row of a block. Reading it gives the block back where the metadata is
/// restorable.
pub fn block_to_row(block: &HarnessBlock) -> (r: BlockRow)
    ensures
        r@ == encoded(block@),
        reads_back(block@),
{
    let row = BlockRow {
        id: block.id.clone(),
        session_id: block.session_id.clone(),
        parent_id: block.parent_id.clone(),
        harness_type: block.harness_type.clone(),
        block_type: block.block_type.to_string(),
        sequence: block.sequence as i64,
        content: Some(block.content.clone()),
        metadata: block.metadata.to_text(),
        timestamp: block.timestamp,
    };
    proof {
        let t = block.block_type;
        assert(t.name() == row@.block_type);
        let u = type_named(row@.block_type)->0;
        crate::schema::law_block_type_names_distinct(t, u);
        assert(row@.content == Some(block@.content));
    }
    row
}

/// The block of a row.
pub fn row_to_block(row: BlockRow) -> (r: Result<HarnessBlock, UnknownBlockType>)
    ensures
        match r {
            Ok(block) => decoded(row@) == Some(block@),
            Err(e) => decoded(row@) is None && e.0@ == row@.block_type,
        },
{
    let block_type = match BlockType::from_name(row.block_type.as_str()) {
        Ok(t) => t,
        Err(e) => {
            return Err(e);
        },
    };
    assert(block_type.name() == row@.block_type);
    let metadata = match &row.metadata {
        Some(text) => match Json::parse(text.as_str().as_bytes()) {
            Some(document) => document,
            None => Json::Null,
        },
        None => Json::Null,
    };
    let content = match row.content {
        Some(bytes) => bytes,
        None => Vec::new(),
    };
    Ok(
        HarnessBlock {
            id: row.id,
            session_id: row.session_id,
            parent_id: row.parent_id,
            harness_type: row.harness_type,
            block_type,
            sequence: row.sequence as u32,
            content,
            metadata,
            timestamp: row.timestamp,
        },
    )
}

// ── statements ───────────────────────────────────────────────────────────

/// Which rows of a table a query asks for.
pub enum Wanted {
    /// The rows of a session, of one block type and under one parent where these are given.
    OfSession {
        session_id: Seq<char>,
        block_type: Option<Seq<char>>,
        parent_id: Option<Seq<char>>,
    },
    /// The rows of a session without parent.
    Roots { session_id: Seq<char> },
    /// The rows under a parent, of any session.
    Children { parent_id: Seq<char> },
}

impl Wanted {
    pub open spec fn asks_for(self, row: BlockRecord) -> bool {
        match self {
            Wanted::OfSession { session_id, block_type, parent_id } => {
                &&& row.session_id == session_id
                &&& block_type is Some ==> row.block_type == block_type->0
                &&& parent_id is Some ==> row.parent_id == parent_id
            },
            Wanted::Roots { session_id } => row.session_id == session_id && row.parent_id is None,
            Wanted::Children { parent_id } => row.parent_id == Some(parent_id),
        }
    }
}

/// Whether `table` holds the row `r`.
pub open spec fn holds(table: Map<Seq<char>, BlockRecord>, r: BlockRecord) -> bool {
    table.contains_key(r.id) && table[r.id] == r
}

/// Whether sequence numbers ascend; the order of rows with one number is open.
pub open spec fn by_sequence(rows: Seq<BlockRecord>) -> bool {
    forall|i: int, j: int|
        0 <= i < j < rows.len() ==> (#[trigger] rows[i]).sequence <= (#[trigger] rows[j]).sequence
}

/// Whether `rows` are the rows of `table` that a query asks for: each once, by
/// ascending sequence number.
pub open spec fn selects(
    table: Map<Seq<char>, BlockRecord>,
    wanted: Wanted,
    rows: Seq<BlockRecord>,
) -> bool {
    &&& by_sequence(rows)
    &&& rows.no_duplicates()
    &&& forall|r: BlockRecord| #[trigger]
        rows.contains(r) <==> holds(table, r) && wanted.asks_for(r)
}

/// The ids of the rows of a session.
pub open spec fn session_ids(table: Map<Seq<char>, BlockRecord>, session_id: Seq<char>) -> Set<
    Seq<char>,
> {
    table.dom().filter(|id: Seq<char>| table[id].session_id == session_id)
}

pub const INSERT_BLOCK: &'static str = "INSERT INTO harness_blocks
                (id, session_id, parent_id, harness_type, block_type, sequence, content, metadata, timestamp)
             VALUES (?1, ?2, ?3, ?4, ?5, ?6, ?7, ?8, ?9)";

pub const SELECT_BLOCK: &'static str = "SELECT * FROM harness_blocks WHERE id = ?1";

/// `(?N IS NULL OR col = ?N)` keeps the parameter count fixed so one prepared
/// statement serves every filter combination.
pub const SELECT_BLOCKS: &'static str = "SELECT * FROM harness_blocks
             WHERE session_id = ?1
               AND (?2 IS NULL OR block_type = ?2)
               AND (?3 IS NULL OR parent_id = ?3)
             ORDER BY sequence ASC";

pub const SELECT_ROOTS: &'static str = "SELECT * FROM harness_blocks WHERE session_id = ?1 AND parent_id IS NULL
             ORDER BY sequence ASC";

pub const SELECT_CHILDREN: &'static str = "SELECT * FROM harness_blocks WHERE parent_id = ?1 ORDER BY sequence ASC";

pub const DELETE_SESSION: &'static str = "DELETE FROM harness_blocks WHERE session_id = ?1";

/// `Connection::execute` of [`INSERT_BLOCK`]: where it succeeds, no row had the
/// id and the table holds the new row besides the old ones; where it fails,
/// the table is as it was. A taken id fails; so may anything that SQLite runs
/// short of.
#[verifier::external_body]
fn insert_row(conn: &mut rusqlite::Connection, sql: &str, row: &BlockRow) -> (r: Result<
    usize,
    rusqlite::Error,
>)
    requires
        sql@ == INSERT_BLOCK@,
    ensures
        crate::migration::same_database(*old(conn), *final(conn)),
        crate::migration::in_memory(*old(conn)) ==> match r {
            Ok(_) => !crate::migration::block_table(*old(conn)).contains_key(row@.id)
                && crate::migration::block_table(*final(conn)) == crate::migration::block_table(
                *old(conn),
            ).insert(row@.id, row@),
            Err(_) => crate::migration::block_table(*final(conn)) == crate::migration::block_table(
                *old(conn),
            ),
        },
{
    conn.execute(
        sql,
        (
            &row.id, &row.session_id, &row.parent_id, &row.harness_type, &row.block_type,
            row.sequence, &row.content, &row.metadata, row.timestamp,
        ),
    )
}

/// `Connection::query_row` of [`SELECT_BLOCK`], with a missing row as `None`:
/// the row with the id, where there is one.
#[verifier::external_body]
fn select_row(conn: &rusqlite::Connection, sql: &str, id: &str) -> (r: Result<
    Option<BlockRow>,
    rusqlite::Error,
>)
    requires
        sql@ == SELECT_BLOCK@,
    ensures
        crate::migration::in_memory(*conn) ==> match r {
            Ok(Some(row)) => row@.id == id@ && holds(crate::migration::block_table(*conn), row@),
            Ok(None) => !crate::migration::block_table(*conn).contains_key(id@),
            Err(_) => true,
        },
{
    let found = conn.query_row(sql, (id,), |row| {
            Ok(BlockRow {
                id: row.get("id")?, session_id: row.get("session_id")?,
                parent_id: row.get("parent_id")?, harness_type: row.get("harness_type")?,
                block_type: row.get("block_type")?, sequence: row.get("sequence")?,
                content: row.get("content")?, metadata: row.get("metadata")?,
                timestamp: row.get("timestamp")?,
            })
        });
    rusqlite::OptionalExtension::optional(found)
}

/// `Connection::prepare` and `Statement::query_map` of [`SELECT_BLOCKS`]: the
/// rows of the session, of the block type and under the parent where these
/// are given, by ascending sequence number. The order holds on
/// disk too, whatever rows the file holds.
#[verifier::external_body]
fn select_rows(
    conn: &rusqlite::Connection,
    sql: &str,
    session_id: &str,
    block_type: Option<&str>,
    parent_id: Option<&str>,
) -> (r: Result<Vec<BlockRow>, rusqlite::Error>)
    requires
        sql@ == SELECT_BLOCKS@,
    ensures
        r matches Ok(rows) ==> by_sequence(records(rows@)),
        crate::migration::in_memory(*conn) ==> match r {
            Ok(rows) => selects(
                crate::migration::block_table(*conn),
                of_session(session_id, block_type, parent_id),
                records(rows@),
            ),
            Err(_) => true,
        },
{
    conn.prepare(sql)?
        .query_map((session_id, block_type, parent_id), |row| {
            Ok(BlockRow {
                id: row.get("id")?, session_id: row.get("session_id")?,
                parent_id: row.get("parent_id")?, harness_type: row.get("harness_type")?,
                block_type: row.get("block_type")?, sequence: row.get("sequence")?,
                content: row.get("content")?, metadata: row.get("metadata")?,
                timestamp: row.get("timestamp")?,
            })
        })?
        .collect()
}

/// `Connection::prepare` and `Statement::query_map` of [`SELECT_ROOTS`]: the
/// rows of the session without parent, by ascending sequence number. The order holds on
/// disk too, whatever rows the file holds.
#[verifier::external_body]
fn select_roots(conn: &rusqlite::Connection, sql: &str, session_id: &str) -> (r: Result<
    Vec<BlockRow>,
    rusqlite::Error,
>)
    requires
        sql@ == SELECT_ROOTS@,
    ensures
        r matches Ok(rows) ==> by_sequence(records(rows@)),
        crate::migration::in_memory(*conn) ==> match r {
            Ok(rows) => selects(
                crate::migration::block_table(*conn),
                (Wanted::Roots { session_id: session_id@ }),
                records(rows@),
            ),
            Err(_) => true,
        },
{
    conn.prepare(sql)?
        .query_map((session_id,), |row| {
            Ok(BlockRow {
                id: row.get("id")?, session_id: row.get("session_id")?,
                parent_id: row.get("parent_id")?, harness_type: row.get("harness_type")?,
                block_type: row.get("block_type")?, sequence: row.get("sequence")?,
                content: row.get("content")?, metadata: row.get("metadata")?,
                timestamp: row.get("timestamp")?,
            })
        })?
        .collect()
}

/// `Connection::prepare` and `Statement::query_map` of [`SELECT_CHILDREN`]: the
/// rows under the parent, by ascending sequence number. The order holds on
/// disk too, whatever rows the file holds.
#[verifier::external_body]
fn select_children(conn: &rusqlite::Connection, sql: &str, parent_id: &str) -> (r: Result<
    Vec<BlockRow>,
    rusqlite::Error,
>)
    requires
        sql@ == SELECT_CHILDREN@,
    ensures
        r matches Ok(rows) ==> by_sequence(records(rows@)),
        crate::migration::in_memory(*conn) ==> match r {
            Ok(rows) => selects(
                crate::migration::block_table(*conn),
                (Wanted::Children { parent_id: parent_id@ }),
                records(rows@),
            ),
            Err(_) => true,
        },
{
    conn.prepare(sql)?
        .query_map((parent_id,), |row| {
            Ok(BlockRow {
                id: row.get("id")?, session_id: row.get("session_id")?,
                parent_id: row.get("parent_id")?, harness_type: row.get("harness_type")?,
                block_type: row.get("block_type")?, sequence: row.get("sequence")?,
                content: row.get("content")?, metadata: row.get("metadata")?,
                timestamp: row.get("timestamp")?,
            })
        })?
        .collect()
}

/// `Connection::execute` of [`DELETE_SESSION`]: where it succeeds, the rows of
/// the session are gone and all others stay, and the result counts the rows
/// that went; where it fails, the table is as it was.
#[verifier::external_body]
fn delete_rows(conn: &mut rusqlite::Connection, sql: &str, session_id: &str) -> (r: Result<
    usize,
    rusqlite::Error,
>)
    requires
        sql@ == DELETE_SESSION@,
    ensures
        crate::migration::same_database(*old(conn), *final(conn)),
        crate::migration::in_memory(*old(conn)) ==> match r {
            Ok(n) => crate::migration::block_table(*final(conn)) == crate::migration::block_table(
                *old(conn),
            ).remove_keys(session_ids(crate::migration::block_table(*old(conn)), session_id@)) && n
                == session_ids(crate::migration::block_table(*old(conn)), session_id@).len(),
            Err(_) => crate::migration::block_table(*final(conn)) == crate::migration::block_table(
                *old(conn),
            ),
        },
{
    conn.execute(sql, (session_id,))
}

/// The query for the rows of a session.
pub open spec fn of_session(
    session_id: &str,
    block_type: Option<&str>,
    parent_id: Option<&str>,
) -> Wanted {
    Wanted::OfSession {
        session_id: session_id@,
        block_type: match block_type {
            Some(t) => Some(t@),
            None => None,
        },
        parent_id: match parent_id {
            Some(p) => Some(p@),
            None => None,
        },
    }
}

// ── the store ────────────────────────────────────────────────────────────

/// Why a store operation failed.
#[derive(Debug)]
pub enum StoreError {
    /// SQLite reported a failure.
    Database(rusqlite::Error),
    /// A row names a block type that is not known.
    UnknownBlockType(UnknownBlockType),
}

/// Whether a failure, if there is one, is one that SQLite reported.
pub open spec fn only_sqlite_fails(r: Result<(), StoreError>) -> bool {
    r matches Err(e) ==> e is Database
}

/// A block store. Use `":memory:"` as path for an in-memory store, or any
/// filesystem path for a persistent one.
pub struct BlockStore {
    conn: rusqlite::Connection,
}

/// Whether `blocks` are the blocks of the rows of `table` that a query asks
/// for, by ascending sequence number.
pub open spec fn lists(
    table: Map<Seq<char>, BlockRecord>,
    wanted: Wanted,
    blocks: Seq<HarnessBlock>,
) -> bool {
    exists|rows: Seq<BlockRecord>| #[trigger]
        selects(table, wanted, rows) && are_blocks_of(rows, blocks)
}

/// Whether `blocks` are the blocks of `rows`, one for one.
pub open spec fn are_blocks_of(rows: Seq<BlockRecord>, blocks: Seq<HarnessBlock>) -> bool {
    &&& blocks.len() == rows.len()
    &&& forall|i: int| 0 <= i < rows.len() ==> decoded(rows[i]) == Some(#[trigger] blocks[i]@)
}

/// Whether `blocks` are the blocks of some rows by ascending sequence number.
pub open spec fn in_listing_order(blocks: Seq<HarnessBlock>) -> bool {
    exists|rows: Seq<BlockRecord>| #[trigger] are_blocks_of(rows, blocks) && by_sequence(rows)
}

/// Whether `e` names the block type of the first of `rows` whose type is unknown.
pub open spec fn first_unknown(rows: Seq<BlockRecord>, e: UnknownBlockType) -> bool {
    exists|i: int|
        0 <= i < rows.len() && decoded(#[trigger] rows[i]) is None && rows[i].block_type == e.0@
            && forall|j: int| 0 <= j < i ==> decoded(#[trigger] rows[j]) is Some
}

/// Whether `e` names the first unknown block type among the rows that a query
/// asks for, by ascending sequence number.
pub open spec fn unknown_type_in(
    table: Map<Seq<char>, BlockRecord>,
    wanted: Wanted,
    e: UnknownBlockType,
) -> bool {
    exists|rows: Seq<BlockRecord>| #[trigger]
        selects(table, wanted, rows) && first_unknown(rows, e)
}

/// The blocks of rows, in order; the first row of an unknown type stops it.
fn rows_to_blocks(rows: Vec<BlockRow>) -> (r: Result<Vec<HarnessBlock>, StoreError>)
    ensures
        match r {
            Ok(blocks) => are_blocks_of(records(rows@), blocks@),
            Err(StoreError::UnknownBlockType(e)) => first_unknown(records(rows@), e),
            Err(_) => false,
        },
{
    let ghost all = rows@;
    let mut out: Vec<HarnessBlock> = Vec::new();
    for row in it: rows
        invariant
            it.seq() == all,
            out@.len() == it.index(),
            forall|i: int|
                0 <= i < out@.len() ==> decoded(all[i]@) == Some(#[trigger] out@[i]@),
    {
        assert(row == all[it.index()]);
        match row_to_block(row) {
            Ok(block) => {
                out.push(block);
            },
            Err(e) => {
                proof {
                    let views = records(all);
                    assert(decoded(views[it.index()]) is None);
                    assert forall|j: int| 0 <= j < it.index() implies decoded(
                        #[trigger] views[j],
                    ) is Some by {
                        assert(decoded(all[j]@) == Some(out@[j]@));
                    }
                }
                return Err(StoreError::UnknownBlockType(e));
            },
        }
    }
    Ok(out)
}

impl BlockStore {
    /// The path that the store was opened at.
    pub closed spec fn path(&self) -> Seq<char> {
        crate::migration::opened_at(self.conn)
    }

    /// Whether write-ahead logging was asked of the store.
    pub closed spec fn wal(&self) -> bool {
        crate::migration::wal_asked(self.conn)
    }

    /// Whether the schema was run on the store.
    pub closed spec fn has_schema(&self) -> bool {
        crate::migration::schema_run(self.conn)
    }

    /// The tables and indexes of the store. For a store on disk nothing is said of them.
    pub closed spec fn objects(&self) -> Set<Seq<char>> {
        crate::migration::object_names(self.conn)
    }

    /// Whether the store is in memory, with its tables, and without rows.
    pub open spec fn is_new(&self) -> bool {
        &&& self.in_memory()
        &&& self.table().is_empty()
        &&& crate::migration::schema_objects().subset_of(self.objects())
    }

    /// Whether the store is on the database that `other` is on, with the same
    /// tables and indexes.
    pub open spec fn same_database(&self, other: BlockStore) -> bool {
        &&& self.path() == other.path()
        &&& self.wal() == other.wal()
        &&& self.has_schema() == other.has_schema()
        &&& self.in_memory() == other.in_memory()
        &&& other.in_memory() ==> self.objects() == other.objects()
    }

    /// Whether the store is in memory.
    pub closed spec fn in_memory(&self) -> bool {
        crate::migration::in_memory(self.conn)
    }

    /// The rows of the store, by id. For a store on disk nothing is said of them.
    pub closed spec fn table(&self) -> Map<Seq<char>, BlockRecord> {
        crate::migration::block_table(self.conn)
    }

    pub fn open(path: &str) -> (r: Result<BlockStore, StoreError>)
        ensures
            match r {
                Ok(store) => store.path() == path@ && store.wal() && store.has_schema() && (path@ == ":memory:"@ ==> store.is_new()),
                Err(e) => e is Database,
            },
    {
        let mut conn = match open_path(path) {
            Ok(conn) => conn,
            Err(e) => {
                return Err(StoreError::Database(e));
            },
        };
        if let Err(e) = use_wal(&mut conn) {
            return Err(StoreError::Database(e));
        }
        if let Err(e) = run(&mut conn) {
            return Err(StoreError::Database(e));
        }
        Ok(BlockStore { conn })
    }

    /// Create an in-memory store (mainly for tests).
    pub fn open_in_memory() -> (r: Result<BlockStore, StoreError>)
        ensures
            match r {
                Ok(store) => store.path() == ":memory:"@ && !store.wal() && store.has_schema()
                    && store.is_new(),
                Err(e) => e is Database,
            },
    {
        let mut conn = match open_memory() {
            Ok(conn) => conn,
            Err(e) => {
                return Err(StoreError::Database(e));
            },
        };
        if let Err(e) = run(&mut conn) {
            return Err(StoreError::Database(e));
        }
        Ok(BlockStore { conn })
    }

    /// Add a block. A block whose id is taken is refused.
    ///
    /// A block with restorable metadata reads back as it was written.
    pub fn insert_block(&mut self, block: &HarnessBlock) -> (r: Result<(), StoreError>)
        ensures
            final(self).same_database(*old(self)),
            reads_back(block@),
            r matches Err(e) ==> e is Database,
            old(self).in_memory() ==> match r {
                Ok(_) => {
                    &&& !old(self).table().contains_key(block@.id)
                    &&& final(self).table() == old(self).table().insert(block@.id, encoded(block@))
                },
                Err(_) => final(self).table() == old(self).table(),
            },
    {
        let row = block_to_row(block);
        match insert_row(&mut self.conn, INSERT_BLOCK, &row) {
            Ok(_) => Ok(()),
            Err(e) => Err(StoreError::Database(e)),
        }
    }

    /// The block with the given id.
    pub fn get_block(&self, id: &str) -> (r: Result<Option<HarnessBlock>, StoreError>)
        ensures
            r matches Err(StoreError::UnknownBlockType(e)) ==> type_named(e.0@) is None,
            self.in_memory() ==> match r {
                Ok(Some(block)) => self.table().contains_key(id@) && decoded(self.table()[id@])
                    == Some(block@),
                Ok(None) => !self.table().contains_key(id@),
                Err(StoreError::UnknownBlockType(e)) => self.table().contains_key(id@) && decoded(
                    self.table()[id@],
                ) is None && self.table()[id@].block_type == e.0@,
                Err(StoreError::Database(_)) => true,
            },
    {
        match select_row(&self.conn, SELECT_BLOCK, id) {
            Ok(Some(row)) => match row_to_block(row) {
                Ok(block) => Ok(Some(block)),
                Err(e) => Err(StoreError::UnknownBlockType(e)),
            },
            Ok(None) => Ok(None),
            Err(e) => Err(StoreError::Database(e)),
        }
    }

    /// List blocks of a session ordered by sequence. `block_type` and
    /// `parent_id` are optional filters; blocks without parent come from
    /// [`BlockStore::list_root_blocks`].
    pub fn list_blocks(
        &self,
        session_id: &str,
        block_type: Option<BlockType>,
        parent_id: Option<&str>,
    ) -> (r: Result<Vec<HarnessBlock>, StoreError>)
        ensures
            r matches Ok(blocks) ==> in_listing_order(blocks@),
            r matches Err(StoreError::UnknownBlockType(e)) ==> type_named(e.0@) is None,
            self.in_memory() ==> match r {
                Ok(blocks) => lists(
                    self.table(),
                    blocks_of(session_id@, block_type, parent_id),
                    blocks@,
                ),
                Err(StoreError::UnknownBlockType(e)) => unknown_type_in(
                    self.table(),
                    blocks_of(session_id@, block_type, parent_id),
                    e,
                ),
                Err(StoreError::Database(_)) => true,
            },
    {
        let name: Option<&str> = match &block_type {
            Some(t) => Some(t.as_str()),
            None => None,
        };
        let ghost wanted = of_session(session_id, name, parent_id);
        assert(wanted == blocks_of(session_id@, block_type, parent_id));
        match select_rows(&self.conn, SELECT_BLOCKS, session_id, name, parent_id) {
            Ok(rows) => {
                let ghost all = rows@;
                let blocks = rows_to_blocks(rows);
                proof {
                    assert(blocks matches Ok(out) ==> are_blocks_of(records(all), out@));
                    if self.in_memory() {
                        lemma_listing(self.table(), wanted, all, blocks);
                    }
                }
                blocks
            },
            Err(e) => Err(StoreError::Database(e)),
        }
    }

    /// List blocks with no parent (top of a block tree) for a session.
    pub fn list_root_blocks(&self, session_id: &str) -> (r: Result<Vec<HarnessBlock>, StoreError>)
        ensures
            r matches Ok(blocks) ==> in_listing_order(blocks@),
            r matches Err(StoreError::UnknownBlockType(e)) ==> type_named(e.0@) is None,
            self.in_memory() ==> match r {
                Ok(blocks) => lists(
                    self.table(),
                    (Wanted::Roots { session_id: session_id@ }),
                    blocks@,
                ),
                Err(StoreError::UnknownBlockType(e)) => unknown_type_in(
                    self.table(),
                    (Wanted::Roots { session_id: session_id@ }),
                    e,
                ),
                Err(StoreError::Database(_)) => true,
            },
    {
        match select_roots(&self.conn, SELECT_ROOTS, session_id) {
            Ok(rows) => {
                let ghost all = rows@;
                let blocks = rows_to_blocks(rows);
                proof {
                    assert(blocks matches Ok(out) ==> are_blocks_of(records(all), out@));
                    if self.in_memory() {
                        lemma_listing(
                            self.table(),
                            Wanted::Roots { session_id: session_id@ },
                            all,
                            blocks,
                        );
                    }
                }
                blocks
            },
            Err(e) => Err(StoreError::Database(e)),
        }
    }

    /// List all blocks whose parent is `parent_id`, ordered by sequence.
    pub fn list_children(&self, parent_id: &str) -> (r: Result<Vec<HarnessBlock>, StoreError>)
        ensures
            r matches Ok(blocks) ==> in_listing_order(blocks@),
            r matches Err(StoreError::UnknownBlockType(e)) ==> type_named(e.0@) is None,
            self.in_memory() ==> match r {
                Ok(blocks) => lists(
                    self.table(),
                    (Wanted::Children { parent_id: parent_id@ }),
                    blocks@,
                ),
                Err(StoreError::UnknownBlockType(e)) => unknown_type_in(
                    self.table(),
                    (Wanted::Children { parent_id: parent_id@ }),
                    e,
                ),
                Err(StoreError::Database(_)) => true,
            },
    {
        match select_children(&self.conn, SELECT_CHILDREN, parent_id) {
            Ok(rows) => {
                let ghost all = rows@;
                let blocks = rows_to_blocks(rows);
                proof {
                    assert(blocks matches Ok(out) ==> are_blocks_of(records(all), out@));
                    if self.in_memory() {
                        lemma_listing(
                            self.table(),
                            Wanted::Children { parent_id: parent_id@ },
                            all,
                            blocks,
                        );
                    }
                }
                blocks
            },
            Err(e) => Err(StoreError::Database(e)),
        }
    }

    /// Delete all blocks of a session. Returns the number of rows removed.
    pub fn delete_session(&mut self, session_id: &str) -> (r: Result<usize, StoreError>)
        ensures
            final(self).same_database(*old(self)),
            r matches Err(e) ==> e is Database,
            old(self).in_memory() ==> match r {
                Ok(n) => {
                    &&& final(self).table() == old(self).table().remove_keys(
                        session_ids(old(self).table(), session_id@),
                    )
                    &&& n == session_ids(old(self).table(), session_id@).len()
                },
                Err(_) => final(self).table() == old(self).table(),
            },
    {
        match delete_rows(&mut self.conn, DELETE_SESSION, session_id) {
            Ok(n) => Ok(n),
            Err(e) => Err(StoreError::Database(e)),
        }
    }
}

/// The query for the blocks of a session.
pub open spec fn blocks_of(
    session_id: Seq<char>,
    block_type: Option<BlockType>,
    parent_id: Option<&str>,
) -> Wanted {
    Wanted::OfSession {
        session_id,
        block_type: match block_type {
            Some(t) => Some(t.name()),
            None => None,
        },
        parent_id: match parent_id {
            Some(p) => Some(p@),
            None => None,
        },
    }
}

proof fn lemma_listing(
    table: Map<Seq<char>, BlockRecord>,
    wanted: Wanted,
    rows: Seq<BlockRow>,
    r: Result<Vec<HarnessBlock>, StoreError>,
)
    requires
        selects(table, wanted, records(rows)),
        match r {
            Ok(blocks) => are_blocks_of(records(rows), blocks@),
            Err(StoreError::UnknownBlockType(e)) => first_unknown(records(rows), e),
            Err(_) => false,
        },
    ensures
        match r {
            Ok(blocks) => lists(table, wanted, blocks@),
            Err(StoreError::UnknownBlockType(e)) => unknown_type_in(table, wanted, e),
            Err(_) => true,
        },
{
}

}
