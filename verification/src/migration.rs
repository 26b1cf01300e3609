//! The SQLite database: opening it, and creating its tables.
//!
//! What a database on disk holds is also in the hands of whoever else opens
//! the file. What is said of table contents here is said of databases in
//! memory that one connection keeps to itself and that nothing but the
//! statements of this library has touched.
use vstd::prelude::*;

use crate::raw_cache::RawRecord;
use crate::store::BlockRecord;

verus! {

/// A connection to a SQLite database.
#[verifier::external_type_specification]
#[verifier::external_body]
pub struct ExConnection(rusqlite::Connection);

/// A failure that `rusqlite` reports.
#[verifier::external_type_specification]
#[verifier::external_body]
pub struct ExSqliteError(rusqlite::Error);

/// Whether the database of a connection is in memory, out of reach of any other
/// connection, and touched by the statements of this library alone.
pub uninterp spec fn in_memory(conn: rusqlite::Connection) -> bool;

/// The rows of the table `harness_blocks`, by id.
pub uninterp spec fn block_table(conn: rusqlite::Connection) -> Map<Seq<char>, BlockRecord>;

/// The rows of the table `raw_cache`, by id.
pub uninterp spec fn raw_table(conn: rusqlite::Connection) -> Map<Seq<char>, RawRecord>;

/// The names of the tables and indexes, apart from those that SQLite keeps for
/// itself.
pub uninterp spec fn object_names(conn: rusqlite::Connection) -> Set<Seq<char>>;

/// The path that a connection was opened at.
pub uninterp spec fn opened_at(conn: rusqlite::Connection) -> Seq<char>;

/// Whether write-ahead logging was asked of a connection, and not refused.
pub uninterp spec fn wal_asked(conn: rusqlite::Connection) -> bool;

/// Whether [`SCHEMA`] was run on a connection to its end, and not refused.
pub uninterp spec fn schema_run(conn: rusqlite::Connection) -> bool;

/// Whether two connections, or one before and after a statement, are to one
/// database with the same tables and indexes, on which the schema was run and
/// the journal mode asked for alike.
pub open spec fn same_database(a: rusqlite::Connection, b: rusqlite::Connection) -> bool {
    &&& opened_at(a) == opened_at(b)
    &&& wal_asked(a) == wal_asked(b)
    &&& schema_run(a) == schema_run(b)
    &&& in_memory(a) == in_memory(b)
    &&& in_memory(a) ==> object_names(a) == object_names(b)
}

/// `Connection::open_in_memory`: where it succeeds, a database in memory
/// without tables, opened as `:memory:`, of which no journal mode was asked.
#[verifier::external_body]
pub(crate) fn open_memory() -> (r: Result<rusqlite::Connection, rusqlite::Error>)
    ensures
        r matches Ok(conn) ==> opened_at(conn) == ":memory:"@ && !wal_asked(conn) && in_memory(conn)
            && block_table(conn).is_empty() && raw_table(conn).is_empty() && object_names(
            conn,
        ).is_empty(),
{
    rusqlite::Connection::open_in_memory()
}

/// `Connection::open`: where it succeeds, the database at `path`; the path
/// `:memory:` stands for a new database in memory. What a file holds rests on
/// the disk.
#[verifier::external_body]
pub(crate) fn open_path(path: &str) -> (r: Result<rusqlite::Connection, rusqlite::Error>)
    ensures
        r matches Ok(conn) ==> opened_at(conn) == path@ && (path@ == ":memory:"@ ==> in_memory(
            conn,
        ) && block_table(conn).is_empty() && raw_table(conn).is_empty() && object_names(
            conn,
        ).is_empty()),
{
    rusqlite::Connection::open(path)
}

/// `Connection::pragma_update` of `journal_mode` to `WAL`: where it succeeds,
/// write-ahead logging was asked of the connection. It leaves the tables
/// of a database in memory alone. Whether a file takes the mode rests on the
/// disk.
#[verifier::external_body]
pub(crate) fn use_wal(conn: &mut rusqlite::Connection) -> (r: Result<(), rusqlite::Error>)
    ensures
        opened_at(*final(conn)) == opened_at(*old(conn)),
        r is Ok ==> wal_asked(*final(conn)),
        schema_run(*final(conn)) == schema_run(*old(conn)),
        in_memory(*final(conn)) == in_memory(*old(conn)),
        in_memory(*old(conn)) ==> object_names(*final(conn)) == object_names(*old(conn)),
        in_memory(*old(conn)) ==> block_table(*final(conn)) == block_table(*old(conn)),
        in_memory(*old(conn)) ==> raw_table(*final(conn)) == raw_table(*old(conn)),
{
    conn.pragma_update(None, "journal_mode", "WAL")
}

/// The tables and indexes that [`SCHEMA`] creates.
pub open spec fn schema_objects() -> Set<Seq<char>> {
    set![
        "harness_blocks"@,
        "idx_blocks_session"@,
        "idx_blocks_parent"@,
        "idx_blocks_type"@,
        "raw_cache"@,
        "idx_raw_session"@,
    ]
}

/// Whether the tables and indexes of the schema were added to those that were
/// there: all of them where the schema ran to its end, some of them where a
/// statement failed.
pub open spec fn schema_applied(before: Set<Seq<char>>, after: Set<Seq<char>>, whole: bool) -> bool {
    if whole {
        after == before.union(schema_objects())
    } else {
        before.subset_of(after) && after.subset_of(before.union(schema_objects()))
    }
}

/// `Connection::execute_batch` of the schema: every table and index is created
/// only if it does not exist yet, so that rows stay as they are. The statements
/// run one after another, and the first that fails ends the batch: where it
/// succeeds, the schema was run to its end, and in a database in memory all its
/// tables and indexes are there.
#[verifier::external_body]
fn create_tables(conn: &mut rusqlite::Connection, schema: &str) -> (r: Result<(), rusqlite::Error>)
    requires
        schema@ == SCHEMA@,
    ensures
        opened_at(*final(conn)) == opened_at(*old(conn)),
        wal_asked(*final(conn)) == wal_asked(*old(conn)),
        r is Ok ==> schema_run(*final(conn)),
        in_memory(*final(conn)) == in_memory(*old(conn)),
        in_memory(*old(conn)) ==> block_table(*final(conn)) == block_table(*old(conn)),
        in_memory(*old(conn)) ==> raw_table(*final(conn)) == raw_table(*old(conn)),
        in_memory(*old(conn)) ==> schema_applied(
            object_names(*old(conn)),
            object_names(*final(conn)),
            r is Ok,
        ),
{
    conn.execute_batch(schema)
}

/// The tables and indexes of the database.
pub const SCHEMA: &'static str = "
        CREATE TABLE IF NOT EXISTS harness_blocks (
            id TEXT PRIMARY KEY,
            session_id TEXT NOT NULL,
            parent_id TEXT,
            harness_type TEXT NOT NULL,
            block_type TEXT NOT NULL,
            sequence INTEGER NOT NULL,
            content BLOB,
            metadata TEXT,
            timestamp INTEGER NOT NULL
        );
        CREATE INDEX IF NOT EXISTS idx_blocks_session ON harness_blocks(session_id, sequence);
        CREATE INDEX IF NOT EXISTS idx_blocks_parent ON harness_blocks(parent_id);
        CREATE INDEX IF NOT EXISTS idx_blocks_type ON harness_blocks(session_id, block_type);

        CREATE TABLE IF NOT EXISTS raw_cache (
            id TEXT PRIMARY KEY,
            session_id TEXT NOT NULL,
            direction TEXT NOT NULL,
            content BLOB,
            timestamp INTEGER NOT NULL
        );
        CREATE INDEX IF NOT EXISTS idx_raw_session ON raw_cache(session_id, timestamp);
        ";

/// Create all tables and indexes if they do not exist yet. Rows stay as they are.
/// A failure may leave some of them created.
pub fn run(conn: &mut rusqlite::Connection) -> (r: Result<(), rusqlite::Error>)
    ensures
        opened_at(*final(conn)) == opened_at(*old(conn)),
        wal_asked(*final(conn)) == wal_asked(*old(conn)),
        r is Ok ==> schema_run(*final(conn)),
        in_memory(*final(conn)) == in_memory(*old(conn)),
        in_memory(*old(conn)) ==> block_table(*final(conn)) == block_table(*old(conn)),
        in_memory(*old(conn)) ==> raw_table(*final(conn)) == raw_table(*old(conn)),
        in_memory(*old(conn)) ==> schema_applied(
            object_names(*old(conn)),
            object_names(*final(conn)),
            r is Ok,
        ),
{
    create_tables(conn, SCHEMA)
}

}
