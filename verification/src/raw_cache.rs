//! Write-through cache of raw harness request and response payloads.
use vstd::prelude::*;
use vstd::string::*;

use crate::migration::{open_memory, open_path, run, use_wal};
use crate::schema::fresh_id;
use crate::store::StoreError;

verus! {

/// One cached raw payload.
#[derive(Debug, Clone, PartialEq)]
pub struct RawEntry {
    pub id: String,
    pub session_id: String,
    /// "request" or "response" (free-form, kept as stored).
    pub direction: String,
    pub content: Vec<u8>,
    pub timestamp: i64,
}

/// What a [`RawEntry`] says.
pub struct EntryView {
    pub id: Seq<char>,
    pub session_id: Seq<char>,
    pub direction: Seq<char>,
    pub content: Seq<u8>,
    pub timestamp: i64,
}

impl View for RawEntry {
    type V = EntryView;

    open spec fn view(&self) -> EntryView {
        EntryView {
            id: self.id@,
            session_id: self.session_id@,
            direction: self.direction@,
            content: self.content@,
            timestamp: self.timestamp,
        }
    }
}

/// One row of the table `raw_cache`.
#[derive(Debug)]
pub struct RawRow {
    pub id: String,
    pub session_id: String,
    pub direction: String,
    pub content: Option<Vec<u8>>,
    pub timestamp: i64,
}

/// What a [`RawRow`] says.
pub struct RawRecord {
    pub id: Seq<char>,
    pub session_id: Seq<char>,
    pub direction: Seq<char>,
    pub content: Option<Seq<u8>>,
    pub timestamp: i64,
}

impl View for RawRow {
    type V = RawRecord;

    open spec fn view(&self) -> RawRecord {
        RawRecord {
            id: self.id@,
            session_id: self.session_id@,
            direction: self.direction@,
            content: match self.content {
                Some(bytes) => Some(bytes@),
                None => None,
            },
            timestamp: self.timestamp,
        }
    }
}

pub open spec fn raw_records(rows: Seq<RawRow>) -> Seq<RawRecord> {
    rows.map_values(|r: RawRow| r@)
}

/// The entry of a row.
pub open spec fn entry_of(row: RawRecord) -> EntryView {
    EntryView {
        id: row.id,
        session_id: row.session_id,
        direction: row.direction,
        content: match row.content {
            Some(bytes) => bytes,
            None => Seq::empty(),
        },
        timestamp: row.timestamp,
    }
}

/// The row of an entry.
pub open spec fn row_of(entry: EntryView) -> RawRecord {
    RawRecord {
        id: entry.id,
        session_id: entry.session_id,
        direction: entry.direction,
        content: Some(entry.content),
        timestamp: entry.timestamp,
    }
}

/// The entry of a row.
pub fn row_to_entry(row: RawRow) -> (r: RawEntry)
    ensures
        r@ == entry_of(row@),
{
    let content = match row.content {
        Some(bytes) => bytes,
        None => Vec::new(),
    };
    RawEntry {
        id: row.id,
        session_id: row.session_id,
        direction: row.direction,
        content,
        timestamp: row.timestamp,
    }
}

// ── statements ───────────────────────────────────────────────────────────

/// Whether `table` holds the row `r`.
pub open spec fn holds_raw(table: Map<Seq<char>, RawRecord>, r: RawRecord) -> bool {
    table.contains_key(r.id) && table[r.id] == r
}

/// Whether timestamps ascend; the order of rows with one timestamp is open.
pub open spec fn by_time(rows: Seq<RawRecord>) -> bool {
    forall|i: int, j: int|
        0 <= i < j < rows.len() ==> (#[trigger] rows[i]).timestamp <= (#[trigger] rows[j]).timestamp
}

/// Whether `rows` are the rows of a session: each once, oldest first. The
/// order of rows with one timestamp is open.
pub open spec fn oldest_first(
    table: Map<Seq<char>, RawRecord>,
    session_id: Seq<char>,
    rows: Seq<RawRecord>,
) -> bool {
    &&& by_time(rows)
    &&& rows.no_duplicates()
    &&& forall|r: RawRecord| #[trigger]
        rows.contains(r) <==> holds_raw(table, r) && r.session_id == session_id
}

/// The ids of the rows of a session.
pub open spec fn raw_session_ids(table: Map<Seq<char>, RawRecord>, session_id: Seq<char>) -> Set<
    Seq<char>,
> {
    table.dom().filter(|id: Seq<char>| table[id].session_id == session_id)
}

pub const INSERT_RAW: &'static str = "INSERT INTO raw_cache (id, session_id, direction, content, timestamp)
             VALUES (?1, ?2, ?3, ?4, ?5)";

pub const SELECT_RAW: &'static str = "SELECT * FROM raw_cache WHERE session_id = ?1 ORDER BY timestamp ASC";

pub const DELETE_RAW: &'static str = "DELETE FROM raw_cache WHERE session_id = ?1";

/// `Connection::execute` of [`INSERT_RAW`]: where it succeeds, no row had the
/// id and the table holds the new row besides the old ones; where it fails,
/// the table is as it was. A taken id fails; so may anything that SQLite runs
/// short of.
#[verifier::external_body]
fn insert_raw_row(
    conn: &mut rusqlite::Connection,
    sql: &str,
    id: &str,
    session_id: &str,
    direction: &str,
    content: &[u8],
    timestamp: i64,
) -> (r: Result<usize, rusqlite::Error>)
    requires
        sql@ == INSERT_RAW@,
    ensures
        crate::migration::same_database(*old(conn), *final(conn)),
        crate::migration::in_memory(*old(conn)) ==> match r {
            Ok(_) => !crate::migration::raw_table(*old(conn)).contains_key(id@)
                && crate::migration::raw_table(*final(conn)) == crate::migration::raw_table(
                *old(conn),
            ).insert(
                id@,
                (RawRecord {
                    id: id@,
                    session_id: session_id@,
                    direction: direction@,
                    content: Some(content@),
                    timestamp,
                }),
            ),
            Err(_) => crate::migration::raw_table(*final(conn)) == crate::migration::raw_table(
                *old(conn),
            ),
        },
{
    conn.execute(sql, (id, session_id, direction, content, timestamp))
}

/// `Connection::prepare` and `Statement::query_map` of [`SELECT_RAW`]: the rows
/// of the session, by ascending timestamp. The order holds on disk too, whatever
/// rows the file holds.
#[verifier::external_body]
fn select_raw_rows(conn: &rusqlite::Connection, sql: &str, session_id: &str) -> (r: Result<
    Vec<RawRow>,
    rusqlite::Error,
>)
    requires
        sql@ == SELECT_RAW@,
    ensures
        r matches Ok(rows) ==> by_time(raw_records(rows@)),
        crate::migration::in_memory(*conn) ==> match r {
            Ok(rows) => oldest_first(
                crate::migration::raw_table(*conn),
                session_id@,
                raw_records(rows@),
            ),
            Err(_) => true,
        },
{
    conn.prepare(sql)?
        .query_map((session_id,), |row| {
            Ok(RawRow {
                id: row.get("id")?, session_id: row.get("session_id")?,
                direction: row.get("direction")?, content: row.get("content")?,
                timestamp: row.get("timestamp")?,
            })
        })?
        .collect()
}

/// `Connection::execute` of [`DELETE_RAW`]: where it succeeds, the rows of the
/// session are gone and all others stay; where it fails, the table is as it
/// was.
#[verifier::external_body]
fn delete_raw_rows(conn: &mut rusqlite::Connection, sql: &str, session_id: &str) -> (r: Result<
    usize,
    rusqlite::Error,
>)
    requires
        sql@ == DELETE_RAW@,
    ensures
        crate::migration::same_database(*old(conn), *final(conn)),
        crate::migration::in_memory(*old(conn)) ==> match r {
            Ok(_) => crate::migration::raw_table(*final(conn)) == crate::migration::raw_table(
                *old(conn),
            ).remove_keys(raw_session_ids(crate::migration::raw_table(*old(conn)), session_id@)),
            Err(_) => crate::migration::raw_table(*final(conn)) == crate::migration::raw_table(
                *old(conn),
            ),
        },
{
    conn.execute(sql, (session_id,))
}

// ── the cache ────────────────────────────────────────────────────────────

pub struct RawCache {
    conn: rusqlite::Connection,
}

/// Whether the timestamps of entries ascend.
pub open spec fn entries_by_time(entries: Seq<RawEntry>) -> bool {
    forall|i: int, j: int|
        0 <= i < j < entries.len() ==> (#[trigger] entries[i]).timestamp <= (
        #[trigger] entries[j]).timestamp
}

/// Whether `entries` are the entries of a session, each once, oldest first.
pub open spec fn entries_of(
    table: Map<Seq<char>, RawRecord>,
    session_id: Seq<char>,
    entries: Seq<RawEntry>,
) -> bool {
    exists|rows: Seq<RawRecord>| #[trigger]
        oldest_first(table, session_id, rows) && entries.len() == rows.len() && forall|i: int|
            0 <= i < rows.len() ==> #[trigger] entries[i]@ == entry_of(rows[i])
}

impl RawCache {
    /// The path that the cache was opened at.
    pub closed spec fn path(&self) -> Seq<char> {
        crate::migration::opened_at(self.conn)
    }

    /// Whether write-ahead logging was asked of the cache.
    pub closed spec fn wal(&self) -> bool {
        crate::migration::wal_asked(self.conn)
    }

    /// Whether the schema was run on the cache.
    pub closed spec fn has_schema(&self) -> bool {
        crate::migration::schema_run(self.conn)
    }

    /// The tables and indexes of the cache. For a cache on disk nothing is said of them.
    pub closed spec fn objects(&self) -> Set<Seq<char>> {
        crate::migration::object_names(self.conn)
    }

    /// Whether the cache is in memory, with its tables, and without rows.
    pub open spec fn is_new(&self) -> bool {
        &&& self.in_memory()
        &&& self.table().is_empty()
        &&& crate::migration::schema_objects().subset_of(self.objects())
    }

    /// Whether the cache is on the database that `other` is on, with the same
    /// tables and indexes.
    pub open spec fn same_database(&self, other: RawCache) -> bool {
        &&& self.path() == other.path()
        &&& self.wal() == other.wal()
        &&& self.has_schema() == other.has_schema()
        &&& self.in_memory() == other.in_memory()
        &&& other.in_memory() ==> self.objects() == other.objects()
    }

    /// Whether the cache is in memory.
    pub closed spec fn in_memory(&self) -> bool {
        crate::migration::in_memory(self.conn)
    }

    /// The rows of the cache, by id. For a cache on disk nothing is said of them.
    pub closed spec fn table(&self) -> Map<Seq<char>, RawRecord> {
        crate::migration::raw_table(self.conn)
    }

    pub fn open(path: &str) -> (r: Result<RawCache, StoreError>)
        ensures
            match r {
                Ok(cache) => cache.path() == path@ && cache.wal() && cache.has_schema() && (path@ == ":memory:"@ ==> cache.is_new()),
                Err(e) => e is Database,
            },
    {
        let mut conn = match open_path(path) {
            Ok(conn) => conn,
            Err(e) => {
                return Err(StoreError::Database(e));
            },
        };
        if let Err(e) = use_wal(&mut conn) {
            return Err(StoreError::Database(e));
        }
        if let Err(e) = run(&mut conn) {
            return Err(StoreError::Database(e));
        }
        Ok(RawCache { conn })
    }

    pub fn open_in_memory() -> (r: Result<RawCache, StoreError>)
        ensures
            match r {
                Ok(cache) => cache.path() == ":memory:"@ && !cache.wal() && cache.has_schema()
                    && cache.is_new(),
                Err(e) => e is Database,
            },
    {
        let mut conn = match open_memory() {
            Ok(conn) => conn,
            Err(e) => {
                return Err(StoreError::Database(e));
            },
        };
        if let Err(e) = run(&mut conn) {
            return Err(StoreError::Database(e));
        }
        Ok(RawCache { conn })
    }

    /// Store one raw payload; returns the generated entry id.
    pub fn insert_raw(
        &mut self,
        session_id: &str,
        direction: &str,
        content: &[u8],
        timestamp: i64,
    ) -> (r: Result<String, StoreError>)
        ensures
            final(self).same_database(*old(self)),
            match r {
                Ok(id) => crate::schema::random_uuid_text(id@),
                Err(e) => e is Database,
            },
            old(self).in_memory() ==> match r {
                Ok(id) => {
                    &&& !old(self).table().contains_key(id@)
                    &&& final(self).table() == old(self).table().insert(
                        id@,
                        row_of(
                            EntryView {
                                id: id@,
                                session_id: session_id@,
                                direction: direction@,
                                content: content@,
                                timestamp,
                            },
                        ),
                    )
                },
                Err(_) => final(self).table() == old(self).table(),
            },
    {
        let id = fresh_id();
        match insert_raw_row(
            &mut self.conn,
            INSERT_RAW,
            id.as_str(),
            session_id,
            direction,
            content,
            timestamp,
        ) {
            Ok(_) => Ok(id),
            Err(e) => Err(StoreError::Database(e)),
        }
    }

    /// Read all cached payloads for a session (oldest first) without removing them.
    pub fn peek(&self, session_id: &str) -> (r: Result<Vec<RawEntry>, StoreError>)
        ensures
            r matches Ok(entries) ==> entries_by_time(entries@),
            r matches Err(e) ==> e is Database,
            self.in_memory() && r is Ok ==> entries_of(self.table(), session_id@, r->Ok_0@),
    {
        match select_raw_rows(&self.conn, SELECT_RAW, session_id) {
            Ok(rows) => {
                let ghost all = rows@;
                let mut out: Vec<RawEntry> = Vec::new();
                for row in it: rows
                    invariant
                        it.seq() == all,
                        out@.len() == it.index(),
                        forall|i: int|
                            0 <= i < out@.len() ==> #[trigger] out@[i]@ == entry_of(all[i]@),
                {
                    out.push(row_to_entry(row));
                }
                proof {
                    assert forall|i: int, j: int| 0 <= i < j < out@.len() implies (
                    #[trigger] out@[i]).timestamp <= (#[trigger] out@[j]).timestamp by {
                        assert(raw_records(all)[i].timestamp <= raw_records(all)[j].timestamp);
                        assert(out@[i]@ == entry_of(all[i]@) && out@[j]@ == entry_of(all[j]@));
                    }
                    if self.in_memory() {
                        assert(oldest_first(self.table(), session_id@, raw_records(all)));
                    }
                }
                Ok(out)
            },
            Err(e) => Err(StoreError::Database(e)),
        }
    }

    /// Take all cached payloads for a session (oldest first) and delete them.
    pub fn drain(&mut self, session_id: &str) -> (r: Result<Vec<RawEntry>, StoreError>)
        ensures
            final(self).same_database(*old(self)),
            r matches Ok(entries) ==> entries_by_time(entries@),
            r matches Err(e) ==> e is Database,
            old(self).in_memory() ==> match r {
                Ok(entries) => {
                    &&& entries_of(old(self).table(), session_id@, entries@)
                    &&& final(self).table() == old(self).table().remove_keys(
                        raw_session_ids(old(self).table(), session_id@),
                    )
                },
                Err(_) => final(self).table() == old(self).table(),
            },
    {
        let entries = match self.peek(session_id) {
            Ok(entries) => entries,
            Err(e) => {
                return Err(e);
            },
        };
        match delete_raw_rows(&mut self.conn, DELETE_RAW, session_id) {
            Ok(_) => Ok(entries),
            Err(e) => Err(StoreError::Database(e)),
        }
    }
}

// ── laws ─────────────────────────────────────────────────────────────────

/// An entry reads back from its row as it was written.
pub proof fn law_entry_reads_back(entry: EntryView)
    ensures
        entry_of(row_of(entry)) == entry,
{
}

/// After a session is drained, nothing of it is left, and the entries of every
/// other session are as they were.
pub proof fn law_drain_empties_one_session(
    table: Map<Seq<char>, RawRecord>,
    session_id: Seq<char>,
    other: Seq<char>,
    rows: Seq<RawRecord>,
)
    ensures
        oldest_first(table.remove_keys(raw_session_ids(table, session_id)), session_id, rows)
            ==> rows.len() == 0,
        other != session_id ==> (oldest_first(
            table.remove_keys(raw_session_ids(table, session_id)),
            other,
            rows,
        ) <==> oldest_first(table, other, rows)),
{
    let rest = table.remove_keys(raw_session_ids(table, session_id));
    if oldest_first(rest, session_id, rows) && rows.len() > 0 {
        assert(rows.contains(rows[0]));
        assert(holds_raw(rest, rows[0]));
    }
    if other != session_id {
        assert forall|r: RawRecord| r.session_id == other implies (holds_raw(rest, r)
            <==> holds_raw(table, r)) by {}
    }
}

/// A payload that was stored is among those that its session gives back.
pub proof fn law_stored_payload_comes_back(
    table: Map<Seq<char>, RawRecord>,
    entry: EntryView,
    rows: Seq<RawRecord>,
)
    requires
        oldest_first(table.insert(entry.id, row_of(entry)), entry.session_id, rows),
    ensures
        exists|i: int| 0 <= i < rows.len() && entry_of(#[trigger] rows[i]) == entry,
{
    let r = row_of(entry);
    assert(holds_raw(table.insert(entry.id, r), r));
    assert(rows.contains(r));
    let i = choose|i: int| 0 <= i < rows.len() && rows[i] == r;
    assert(entry_of(rows[i]) == entry);
}

}
