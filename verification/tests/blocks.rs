use harness_capture::query::TypeCounts;
use harness_capture::{
    get_session_summary, get_system_prompt, list_blocks_by_session, list_blocks_by_type,
    list_child_blocks, BlockStore, BlockType, HarnessBlock, InterceptMode, Json, RawCache,
    StoreError,
};

fn json(text: &str) -> Json {
    Json::parse(text.as_bytes()).unwrap()
}

fn block(session: &str, block_type: BlockType, sequence: u32) -> HarnessBlock {
    let mut b = HarnessBlock::new(
        session,
        "aider",
        block_type,
        sequence,
        b"hello".to_vec(),
        1_700_000_000 + i64::from(sequence),
    );
    b.metadata = json(&format!("{{\"seq\": {sequence}}}"));
    b
}

#[test]
fn block_type_roundtrip() {
    for t in BlockType::ALL {
        assert_eq!(t.to_string().parse::<BlockType>().unwrap(), t);
    }
    assert_eq!("system_prompt".parse::<BlockType>().unwrap(), BlockType::SystemPrompt);
    assert!("nope".parse::<BlockType>().is_err());
    assert_eq!("hooks_only".parse::<InterceptMode>().unwrap(), InterceptMode::HooksOnly);
    assert_eq!(InterceptMode::Bypass.to_string(), "bypass");
}

#[test]
fn block_crud() {
    let mut store = BlockStore::open_in_memory().unwrap();
    let b = block("s1", BlockType::UserPrompt, 0);
    store.insert_block(&b).unwrap();

    let got = store.get_block(&b.id).unwrap().unwrap();
    assert_eq!(got, b);

    assert!(store.get_block("missing").unwrap().is_none());

    store.insert_block(&block("s1", BlockType::Response, 1)).unwrap();
    store.insert_block(&block("s2", BlockType::Exit, 0)).unwrap();
    assert_eq!(store.list_blocks("s1", None, None).unwrap().len(), 2);
    assert_eq!(
        store
            .list_blocks("s1", Some(BlockType::Response), None)
            .unwrap()
            .iter()
            .map(|b| b.sequence)
            .collect::<Vec<_>>(),
        vec![1]
    );

    assert_eq!(store.delete_session("s1").unwrap(), 2);
    assert!(store.list_blocks("s1", None, None).unwrap().is_empty());
    assert_eq!(store.list_blocks("s2", None, None).unwrap().len(), 1);
}

#[test]
fn parent_child() {
    let mut store = BlockStore::open_in_memory().unwrap();
    let mut parent = block("s1", BlockType::Response, 0);
    parent.id = "parent-1".to_string();
    store.insert_block(&parent).unwrap();

    let mut child = block("s1", BlockType::ResponseChunk, 1);
    child.parent_id = Some(parent.id.clone());
    store.insert_block(&child).unwrap();
    let mut other = block("s1", BlockType::ResponseChunk, 2);
    other.parent_id = Some("orphan".to_string());
    store.insert_block(&other).unwrap();

    let children = list_child_blocks(&store, &parent.id).unwrap();
    assert_eq!(children.len(), 1);
    assert_eq!(children[0].id, child.id);

    let roots = store.list_root_blocks("s1").unwrap();
    assert_eq!(roots.len(), 1);
    assert_eq!(roots[0].id, parent.id);
}

#[test]
fn query_api() {
    let mut store = BlockStore::open_in_memory().unwrap();
    let mut prompt = block("s1", BlockType::SystemPrompt, 0);
    prompt.content = b"you are a harness".to_vec();
    store.insert_block(&prompt).unwrap();
    let mut older_prompt = block("s1", BlockType::SystemPrompt, 1);
    older_prompt.content = b"older".to_vec();
    store.insert_block(&older_prompt).unwrap();
    store.insert_block(&block("s1", BlockType::UserPrompt, 2)).unwrap();

    // get_system_prompt returns the latest by sequence
    let sp = get_system_prompt(&store, "s1").unwrap().unwrap();
    assert_eq!(sp.content, b"older".to_vec());

    assert_eq!(list_blocks_by_session(&store, "s1").unwrap().len(), 3);
    assert_eq!(list_blocks_by_type(&store, "s1", BlockType::UserPrompt).unwrap().len(), 1);

    let summary = get_session_summary(&store, "s1").unwrap();
    assert_eq!(summary.block_count, 3);
    assert_eq!(summary.first_timestamp, Some(1_700_000_000));
    assert_eq!(summary.last_timestamp, Some(1_700_000_002));
    assert_eq!(summary.block_type_counts.get("system_prompt"), Some(&2));
    assert_eq!(summary.block_type_counts.get("user_prompt"), Some(&1));
}

#[test]
fn raw_cache_insert_drain_peek() {
    let mut cache = RawCache::open_in_memory().unwrap();
    cache.insert_raw("s1", "request", b"req-1", 100).unwrap();
    cache.insert_raw("s1", "response", b"resp-1", 200).unwrap();
    cache.insert_raw("s2", "request", b"req-2", 300).unwrap();

    let peeked = cache.peek("s1").unwrap();
    assert_eq!(peeked.len(), 2);
    assert_eq!(peeked[0].content, b"req-1".to_vec());
    assert_eq!(peeked[0].direction, "request");

    let drained = cache.drain("s1").unwrap();
    assert_eq!(drained.len(), 2);
    assert!(cache.peek("s1").unwrap().is_empty());
    assert_eq!(cache.drain("s1").unwrap().len(), 0);
    assert_eq!(cache.peek("s2").unwrap().len(), 1); // other session untouched
}

#[test]
fn unknown_names_are_reported() {
    let e = "nope".parse::<BlockType>().unwrap_err();
    assert_eq!(e.0, "nope");
    assert_eq!(e.to_string(), "unknown block type: nope");
    let e = "half".parse::<InterceptMode>().unwrap_err();
    assert_eq!(e.0, "half");
    assert_eq!(e.to_string(), "unknown intercept mode: half");
    assert!("Spawn".parse::<BlockType>().is_err());
    assert!("".parse::<InterceptMode>().is_err());
}

#[test]
fn new_block_has_a_random_id_and_an_empty_object() {
    let a = HarnessBlock::new("s", "aider", BlockType::Spawn, 7, vec![1, 2], -3);
    let b = HarnessBlock::new("s", "aider", BlockType::Spawn, 7, vec![1, 2], -3);
    assert_ne!(a.id, b.id);
    let id: Vec<char> = a.id.chars().collect();
    assert_eq!(id.len(), 36);
    assert_eq!((id[8], id[13], id[18], id[23]), ('-', '-', '-', '-'));
    assert_eq!(id[14], '4');
    assert!(matches!(id[19], '8' | '9' | 'a' | 'b'));
    assert_eq!(a.metadata.to_text().unwrap(), "{}");
    assert_eq!(a.parent_id, None);
    assert_eq!((a.sequence, a.timestamp), (7, -3));
    assert_eq!(a.content, vec![1, 2]);
    // The id is the one that the crate reads back as a version 4 UUID.
    let parsed: uuid::Uuid = a.id.parse().unwrap();
    assert_eq!(parsed.get_version_num(), 4);
}

#[test]
fn taken_id_is_refused() {
    let mut store = BlockStore::open_in_memory().unwrap();
    let b = block("s1", BlockType::Spawn, 0);
    store.insert_block(&b).unwrap();
    let mut again = block("s2", BlockType::Exit, 5);
    again.id = b.id.clone();
    assert!(matches!(store.insert_block(&again), Err(StoreError::Database(_))));
    assert_eq!(store.get_block(&b.id).unwrap().unwrap(), b);
    assert!(store.list_blocks("s2", None, None).unwrap().is_empty());
}

#[test]
fn blocks_come_back_as_they_were() {
    let mut store = BlockStore::open_in_memory().unwrap();
    let mut b = block("séance\u{0}1", BlockType::PtyRaw, u32::MAX);
    b.parent_id = Some("p'; --".to_string());
    b.content = (0u8..=255).collect();
    b.metadata = json(
        "{\"b\": [1, -2, 18446744073709551615, true, null, \"\\u0000\\n\\\"\"], \"a\": {\"x\": {}}}",
    );
    b.timestamp = i64::MIN;
    store.insert_block(&b).unwrap();
    assert_eq!(store.get_block(&b.id).unwrap().unwrap(), b);
    assert_eq!(store.list_blocks("séance\u{0}1", None, None).unwrap(), vec![b.clone()]);
    assert_eq!(store.list_children("p'; --").unwrap(), vec![b.clone()]);
    assert!(store.list_blocks("séance", None, None).unwrap().is_empty());
    let mut empty = block("s", BlockType::Exit, 0);
    empty.content = Vec::new();
    empty.metadata = Json::Null;
    store.insert_block(&empty).unwrap();
    assert_eq!(store.get_block(&empty.id).unwrap().unwrap(), empty);
}

#[test]
fn listings_ascend_and_filter() {
    let mut store = BlockStore::open_in_memory().unwrap();
    for n in [5u32, 1, 4, 2, 3] {
        let t = if n % 2 == 0 { BlockType::ToolCall } else { BlockType::ToolResult };
        let mut b = block("s1", t, n);
        if n > 3 {
            b.parent_id = Some("p".to_string());
        }
        store.insert_block(&b).unwrap();
    }
    let seqs = |blocks: Vec<HarnessBlock>| blocks.iter().map(|b| b.sequence).collect::<Vec<u32>>();
    assert_eq!(seqs(store.list_blocks("s1", None, None).unwrap()), vec![1, 2, 3, 4, 5]);
    assert_eq!(
        seqs(store.list_blocks("s1", Some(BlockType::ToolCall), None).unwrap()),
        vec![2, 4]
    );
    assert_eq!(seqs(store.list_blocks("s1", None, Some("p")).unwrap()), vec![4, 5]);
    assert_eq!(
        seqs(store.list_blocks("s1", Some(BlockType::ToolCall), Some("p")).unwrap()),
        vec![4]
    );
    assert_eq!(seqs(store.list_root_blocks("s1").unwrap()), vec![1, 2, 3]);
    assert_eq!(seqs(store.list_children("p").unwrap()), vec![4, 5]);
    assert!(store.list_blocks("s1", None, Some("")).unwrap().is_empty());
}

#[test]
fn deleting_one_session_leaves_the_others() {
    let mut store = BlockStore::open_in_memory().unwrap();
    for n in 0..3u32 {
        store.insert_block(&block("gone", BlockType::UserPrompt, n)).unwrap();
        store.insert_block(&block("kept", BlockType::UserPrompt, n)).unwrap();
    }
    let before = store.list_blocks("kept", None, None).unwrap();
    assert_eq!(store.delete_session("gone").unwrap(), 3);
    assert_eq!(store.delete_session("gone").unwrap(), 0);
    assert!(store.list_root_blocks("gone").unwrap().is_empty());
    assert_eq!(store.list_blocks("kept", None, None).unwrap(), before);
}

#[test]
fn open_gives_an_empty_store() {
    let mut store = BlockStore::open(":memory:").unwrap();
    assert!(store.list_blocks("s", None, None).unwrap().is_empty());
    store.insert_block(&block("s", BlockType::Spawn, 0)).unwrap();
    assert_eq!(store.list_blocks("s", None, None).unwrap().len(), 1);
    // Another in-memory store is another database.
    assert!(BlockStore::open(":memory:").unwrap().list_blocks("s", None, None).unwrap().is_empty());
    assert!(matches!(
        BlockStore::open("/nonexistent-directory/blocks.db"),
        Err(StoreError::Database(_))
    ));
    assert!(matches!(
        RawCache::open("/nonexistent-directory/raw.db"),
        Err(StoreError::Database(_))
    ));
    let mut cache = RawCache::open(":memory:").unwrap();
    cache.insert_raw("s", "request", b"", 1).unwrap();
    assert_eq!(cache.peek("s").unwrap()[0].content, Vec::<u8>::new());
}

#[test]
fn rows_of_unknown_type_are_reported() {
    let name = "file:rows_of_unknown_type?mode=memory&cache=shared";
    let mut store = BlockStore::open(name).unwrap();
    store.insert_block(&block("s1", BlockType::Spawn, 0)).unwrap();
    let conn = rusqlite::Connection::open(name).unwrap();
    conn.execute(
        "INSERT INTO harness_blocks VALUES ('x', 's2', NULL, 'h', 'mystery', 4294967297, NULL, 'no json', 9)",
        (),
    )
    .unwrap();
    let e = store.list_blocks("s2", None, None).unwrap_err();
    assert!(matches!(e, StoreError::UnknownBlockType(t) if t.0 == "mystery"));
    conn.execute(
        "INSERT INTO harness_blocks VALUES ('y', 's2', NULL, 'h', 'riddle', 7, NULL, NULL, 9)",
        (),
    )
    .unwrap();
    // The first of them, by sequence, is the one that is reported.
    let e = store.list_blocks("s2", None, None).unwrap_err();
    assert!(matches!(e, StoreError::UnknownBlockType(t) if t.0 == "riddle"));
    let e = store.get_block("x").unwrap_err();
    assert!(matches!(e, StoreError::UnknownBlockType(t) if t.0 == "mystery"));
    assert_eq!(store.list_blocks("s1", None, None).unwrap().len(), 1);
    conn.execute("UPDATE harness_blocks SET block_type = 'exit' WHERE id = 'x'", ()).unwrap();
    let got = store.get_block("x").unwrap().unwrap();
    assert_eq!(got.block_type, BlockType::Exit);
    assert_eq!(got.sequence, 1); // cut to 32 bits
    assert_eq!(got.content, Vec::<u8>::new());
    assert!(got.metadata.is_null());
    assert_eq!(got.timestamp, 9);
}

#[test]
fn two_stores_share_one_database() {
    let name = "file:two_stores_share?mode=memory&cache=shared";
    let mut first = BlockStore::open(name).unwrap();
    first.insert_block(&block("s1", BlockType::Spawn, 0)).unwrap();
    let second = BlockStore::open(name).unwrap();
    assert_eq!(second.list_blocks("s1", None, None).unwrap().len(), 1);
}

#[test]
fn no_system_prompt_is_none() {
    let mut store = BlockStore::open_in_memory().unwrap();
    assert!(get_system_prompt(&store, "s1").unwrap().is_none());
    store.insert_block(&block("s1", BlockType::UserPrompt, 0)).unwrap();
    store.insert_block(&block("s2", BlockType::SystemPrompt, 0)).unwrap();
    assert!(get_system_prompt(&store, "s1").unwrap().is_none());
}

#[test]
fn summary_counts_stand_by_name_and_add_up() {
    let mut store = BlockStore::open_in_memory().unwrap();
    let empty = get_session_summary(&store, "s1").unwrap();
    assert_eq!(empty.block_count, 0);
    assert_eq!((empty.first_timestamp, empty.last_timestamp), (None, None));
    assert_eq!(empty.block_type_counts, TypeCounts { entries: Vec::new() });
    for (n, t) in BlockType::ALL.iter().enumerate() {
        store.insert_block(&block("s1", *t, n as u32)).unwrap();
        store.insert_block(&block("s1", BlockType::ToolCall, 100 + n as u32)).unwrap();
    }
    let summary = get_session_summary(&store, "s1").unwrap();
    assert_eq!(summary.session_id, "s1");
    assert_eq!(summary.block_count, 20);
    assert_eq!(summary.block_type_counts.get("tool_call"), Some(&11));
    assert_eq!(summary.block_type_counts.get("mystery"), None);
    let names: Vec<String> =
        summary.block_type_counts.entries.iter().map(|e| e.0.clone()).collect();
    let mut sorted = names.clone();
    sorted.sort();
    assert_eq!(names, sorted);
    assert_eq!(names.len(), 10);
    assert_eq!(summary.block_type_counts.entries.iter().map(|e| e.1).sum::<u64>(), 20);
}

#[test]
fn raw_payloads_come_back_oldest_first() {
    let mut cache = RawCache::open_in_memory().unwrap();
    let late = cache.insert_raw("s1", "response", &[0, 255, 10], 900).unwrap();
    let early = cache.insert_raw("s1", "request", b"", -1).unwrap();
    assert_ne!(late, early);
    assert_eq!(early.parse::<uuid::Uuid>().unwrap().get_version_num(), 4);
    let entries = cache.drain("s1").unwrap();
    assert_eq!(entries[0].id, early);
    assert_eq!(entries[0].session_id, "s1");
    assert_eq!(entries[0].timestamp, -1);
    assert_eq!(entries[1].id, late);
    assert_eq!(entries[1].direction, "response");
    assert_eq!(entries[1].content, vec![0, 255, 10]);
}

#[test]
fn schema_is_created_once() {
    let mut conn = rusqlite::Connection::open_in_memory().unwrap();
    harness_capture::migration::run(&mut conn).unwrap();
    conn.execute(
        "INSERT INTO raw_cache VALUES ('i', 's', 'request', NULL, 1)",
        (),
    )
    .unwrap();
    harness_capture::migration::run(&mut conn).unwrap();
    let names: Vec<String> = conn
        .prepare("SELECT name FROM sqlite_master WHERE name NOT LIKE 'sqlite_%' ORDER BY name")
        .unwrap()
        .query_map((), |row| row.get(0))
        .unwrap()
        .collect::<Result<_, _>>()
        .unwrap();
    assert_eq!(
        names,
        vec![
            "harness_blocks",
            "idx_blocks_parent",
            "idx_blocks_session",
            "idx_blocks_type",
            "idx_raw_session",
            "raw_cache",
        ]
    );
    let rows: i64 = conn.query_row("SELECT COUNT(*) FROM raw_cache", (), |r| r.get(0)).unwrap();
    assert_eq!(rows, 1);
}
