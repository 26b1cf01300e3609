//! Laws of summaries: the counts are those of the blocks, they add up, and they
//! stand by name.
use vstd::prelude::*;
use vstd::string::*;

use crate::query::{SessionSummary, BY_NAME};
use crate::schema::{BlockType, HarnessBlock};

verus! {

/// The sum of counts.
pub open spec fn total(counts: Seq<(Seq<char>, u64)>) -> nat
    decreases counts.len(),
{
    if counts.len() == 0 {
        0
    } else {
        total(counts.drop_last()) + counts.last().1 as nat
    }
}

/// How many of `blocks` have one of the `types`, each type counted on its own.
spec fn count_all(blocks: Seq<HarnessBlock>, types: Seq<BlockType>) -> nat
    decreases types.len(),
{
    if types.len() == 0 {
        0
    } else {
        count_all(blocks, types.drop_last()) + crate::query::count_of(blocks, types.last())
    }
}

/// How often `t` stands among `types`.
spec fn times_in(types: Seq<BlockType>, t: BlockType) -> nat
    decreases types.len(),
{
    if types.len() == 0 {
        0
    } else {
        times_in(types.drop_last(), t) + if types.last() == t {
            1nat
        } else {
            0nat
        }
    }
}

proof fn lemma_count_bounded(blocks: Seq<HarnessBlock>, t: BlockType)
    ensures
        crate::query::count_of(blocks, t) <= blocks.len(),
    decreases blocks.len(),
{
    if blocks.len() > 0 {
        lemma_count_bounded(blocks.drop_last(), t);
    }
}

proof fn lemma_total_counts(blocks: Seq<HarnessBlock>, types: Seq<BlockType>)
    requires
        blocks.len() <= u64::MAX,
    ensures
        total(crate::query::counts_of(blocks, types)) == count_all(blocks, types),
    decreases types.len(),
{
    if types.len() > 0 {
        lemma_total_counts(blocks, types.drop_last());
        lemma_count_bounded(blocks, types.last());
        let front = crate::query::counts_of(blocks, types.drop_last());
        let n = crate::query::count_of(blocks, types.last());
        let entry = (types.last().name(), n as u64);
        assert(front.push(entry).drop_last() =~= front);
    }
}

proof fn lemma_count_all_step(blocks: Seq<HarnessBlock>, types: Seq<BlockType>)
    requires
        blocks.len() > 0,
    ensures
        count_all(blocks, types) == count_all(blocks.drop_last(), types) + times_in(
            types,
            blocks.last().block_type,
        ),
    decreases types.len(),
{
    if types.len() > 0 {
        lemma_count_all_step(blocks, types.drop_last());
    }
}

proof fn lemma_count_all_empty(blocks: Seq<HarnessBlock>, types: Seq<BlockType>)
    requires
        blocks.len() == 0,
    ensures
        count_all(blocks, types) == 0,
    decreases types.len(),
{
    if types.len() > 0 {
        lemma_count_all_empty(blocks, types.drop_last());
    }
}

proof fn lemma_times_in_prefix(types: Seq<BlockType>, t: BlockType, i: int)
    requires
        0 <= i < types.len(),
    ensures
        times_in(types.take(i + 1), t) == times_in(types.take(i), t) + if types[i] == t {
            1nat
        } else {
            0nat
        },
{
    assert(types.take(i + 1).drop_last() =~= types.take(i));
}

proof fn lemma_every_type_once(t: BlockType)
    ensures
        times_in(BY_NAME@, t) == 1,
{
    let all = BY_NAME@;
    assert(all.take(10) =~= all);
    assert(times_in(all.take(0), t) == 0);
    lemma_times_in_prefix(all, t, 0);
    lemma_times_in_prefix(all, t, 1);
    lemma_times_in_prefix(all, t, 2);
    lemma_times_in_prefix(all, t, 3);
    lemma_times_in_prefix(all, t, 4);
    lemma_times_in_prefix(all, t, 5);
    lemma_times_in_prefix(all, t, 6);
    lemma_times_in_prefix(all, t, 7);
    lemma_times_in_prefix(all, t, 8);
    lemma_times_in_prefix(all, t, 9);
}

proof fn lemma_every_block_counts(blocks: Seq<HarnessBlock>)
    ensures
        count_all(blocks, BY_NAME@) == blocks.len(),
    decreases blocks.len(),
{
    if blocks.len() == 0 {
        lemma_count_all_empty(blocks, BY_NAME@);
    } else {
        lemma_every_block_counts(blocks.drop_last());
        lemma_count_all_step(blocks, BY_NAME@);
        lemma_every_type_once(blocks.last().block_type);
    }
}

/// The counts of a summary add up to its number of blocks.
pub proof fn law_counts_add_up(
    summary: SessionSummary,
    session_id: Seq<char>,
    blocks: Seq<HarnessBlock>,
)
    requires
        crate::query::sums_up(summary, session_id, blocks),
    ensures
        total(summary.block_type_counts@) == summary.block_count,
{
    lemma_total_counts(blocks, BY_NAME@);
    lemma_every_block_counts(blocks);
}

/// Whether `entry` is the count of the type at `k`, which occurs.
spec fn counts_type(
    entry: (Seq<char>, u64),
    blocks: Seq<HarnessBlock>,
    types: Seq<BlockType>,
    k: int,
) -> bool {
    &&& 0 <= k < types.len()
    &&& crate::query::count_of(blocks, types[k]) > 0
    &&& entry == (types[k].name(), crate::query::count_of(blocks, types[k]) as u64)
}

proof fn lemma_count_names_type(
    blocks: Seq<HarnessBlock>,
    types: Seq<BlockType>,
    i: int,
) -> (k: int)
    requires
        0 <= i < crate::query::counts_of(blocks, types).len(),
    ensures
        counts_type(crate::query::counts_of(blocks, types)[i], blocks, types, k),
    decreases types.len(),
{
    let front_types = types.drop_last();
    let front = crate::query::counts_of(blocks, front_types);
    let all = crate::query::counts_of(blocks, types);
    if i < front.len() {
        assert(all[i] == front[i]);
        lemma_count_names_type(blocks, front_types, i)
    } else {
        types.len() - 1
    }
}

proof fn lemma_type_is_counted(
    blocks: Seq<HarnessBlock>,
    types: Seq<BlockType>,
    k: int,
    entry: (Seq<char>, u64),
)
    requires
        counts_type(entry, blocks, types, k),
    ensures
        crate::query::counts_of(blocks, types).contains(entry),
    decreases types.len(),
{
    let front_types = types.drop_last();
    let front = crate::query::counts_of(blocks, front_types);
    let all = crate::query::counts_of(blocks, types);
    if k < front_types.len() {
        lemma_type_is_counted(blocks, front_types, k, entry);
        let i = choose|i: int| 0 <= i < front.len() && front[i] == entry;
        assert(all[i] == entry);
    } else {
        assert(all[front.len() as int] == entry);
    }
}

proof fn lemma_type_stands_by_name(t: BlockType)
    ensures
        exists|k: int| 0 <= k < 10 && #[trigger] BY_NAME@[k] == t,
{
    let all = BY_NAME@;
    match t {
        BlockType::Exit => assert(all[0] == t),
        BlockType::PromptSegment => assert(all[1] == t),
        BlockType::PtyRaw => assert(all[2] == t),
        BlockType::Response => assert(all[3] == t),
        BlockType::ResponseChunk => assert(all[4] == t),
        BlockType::Spawn => assert(all[5] == t),
        BlockType::SystemPrompt => assert(all[6] == t),
        BlockType::ToolCall => assert(all[7] == t),
        BlockType::ToolResult => assert(all[8] == t),
        BlockType::UserPrompt => assert(all[9] == t),
    }
}

/// A summary counts a type under its name where it occurs, and says how often
/// it occurs.
pub proof fn law_summary_counts_each_type(
    summary: SessionSummary,
    session_id: Seq<char>,
    blocks: Seq<HarnessBlock>,
    t: BlockType,
    n: u64,
)
    requires
        crate::query::sums_up(summary, session_id, blocks),
    ensures
        summary.block_type_counts@.contains((t.name(), n)) <==> n > 0 && n == crate::query::count_of(blocks, t),
{
    let counts = summary.block_type_counts@;
    lemma_type_stands_by_name(t);
    lemma_count_bounded(blocks, t);
    let at = choose|k: int| 0 <= k < 10 && #[trigger] BY_NAME@[k] == t;
    if n > 0 && n == crate::query::count_of(blocks, t) {
        lemma_type_is_counted(blocks, BY_NAME@, at, (t.name(), n));
    }
    if counts.contains((t.name(), n)) {
        let i = choose|i: int| 0 <= i < counts.len() && counts[i] == (t.name(), n);
        let k = lemma_count_names_type(blocks, BY_NAME@, i);
        crate::schema::law_block_type_names_distinct(BY_NAME@[k], t);
    }
}

/// Whether `a` and `b` differ first at `k`, where `a` ends or has the lower character.
pub open spec fn lower_at(a: Seq<char>, b: Seq<char>, k: int) -> bool {
    &&& 0 <= k < b.len()
    &&& k <= a.len()
    &&& forall|i: int| 0 <= i < k ==> a[i] == b[i]
    &&& k == a.len() || a[k] < b[k]
}

/// Whether `a` stands before `b` in the order of strings.
pub open spec fn text_before(a: Seq<char>, b: Seq<char>) -> bool {
    exists|k: int| #[trigger] lower_at(a, b, k)
}

proof fn lemma_types_stand_by_name(k: int, l: int)
    requires
        0 <= k < l < 10,
    ensures
        text_before(BY_NAME@[k].name(), BY_NAME@[l].name()),
{
    reveal_strlit("exit");
    reveal_strlit("prompt_segment");
    reveal_strlit("pty_raw");
    reveal_strlit("response");
    reveal_strlit("response_chunk");
    reveal_strlit("spawn");
    reveal_strlit("system_prompt");
    reveal_strlit("tool_call");
    reveal_strlit("tool_result");
    reveal_strlit("user_prompt");
    assert("exit"@[0] == 'e');
    assert("prompt_segment"@[0] == 'p' && "prompt_segment"@[1] == 'r');
    assert("pty_raw"@[0] == 'p' && "pty_raw"@[1] == 't');
    assert("response"@.len() == 8 && "response"@[0] == 'r');
    assert("response_chunk"@.len() == 14 && "response_chunk"@[0] == 'r');
    assert("spawn"@[0] == 's' && "spawn"@[1] == 'p');
    assert("system_prompt"@[0] == 's' && "system_prompt"@[1] == 'y');
    assert("tool_call"@.len() == 9 && "tool_call"@[0] == 't');
    assert("tool_result"@.len() == 11 && "tool_result"@[0] == 't');
    assert("user_prompt"@[0] == 'u');
    let a = BY_NAME@[k].name();
    let b = BY_NAME@[l].name();
    assert(lower_at("prompt_segment"@, "pty_raw"@, 1));
    assert(lower_at("response"@, "response_chunk"@, 8)) by {
        assert("response_chunk"@.take(8) =~= "response"@);
        assert forall|i: int| 0 <= i < 8 implies "response"@[i] == "response_chunk"@[i] by {
            assert("response_chunk"@.take(8)[i] == "response_chunk"@[i]);
        }
    }
    assert(lower_at("spawn"@, "system_prompt"@, 1));
    assert(lower_at("tool_call"@, "tool_result"@, 5)) by {
        assert("tool_call"@.take(5) =~= "tool_result"@.take(5));
        assert forall|i: int| 0 <= i < 5 implies "tool_call"@[i] == "tool_result"@[i] by {
            assert("tool_call"@.take(5)[i] == "tool_result"@.take(5)[i]);
        }
    }
    if a[0] < b[0] {
        assert(lower_at(a, b, 0));
    }
}

proof fn lemma_counts_stand_by_name(blocks: Seq<HarnessBlock>, types: Seq<BlockType>)
    requires
        forall|k: int, l: int|
            0 <= k < l < types.len() ==> text_before(
                (#[trigger] types[k]).name(),
                (#[trigger] types[l]).name(),
            ),
    ensures
        forall|i: int, j: int|
            0 <= i < j < crate::query::counts_of(blocks, types).len() ==> text_before(
                (#[trigger] crate::query::counts_of(blocks, types)[i]).0,
                (#[trigger] crate::query::counts_of(blocks, types)[j]).0,
            ),
    decreases types.len(),
{
    if types.len() > 0 {
        let front_types = types.drop_last();
        let front = crate::query::counts_of(blocks, front_types);
        let all = crate::query::counts_of(blocks, types);
        assert forall|k: int, l: int| 0 <= k < l < front_types.len() implies text_before(
            (#[trigger] front_types[k]).name(),
            (#[trigger] front_types[l]).name(),
        ) by {
            assert(front_types[k] == types[k] && front_types[l] == types[l]);
        }
        lemma_counts_stand_by_name(blocks, front_types);
        assert forall|i: int, j: int| 0 <= i < j < all.len() implies text_before(
            (#[trigger] all[i]).0,
            (#[trigger] all[j]).0,
        ) by {
            assert(all[i] == front[i]);
            if j < front.len() {
                assert(all[j] == front[j]);
            } else {
                let k = lemma_count_names_type(blocks, front_types, i);
                assert(types[k] == front_types[k]);
                assert(types[types.len() - 1] == types.last());
            }
        }
    }
}

/// The counts of a summary stand by ascending name, each name once.
pub proof fn law_counts_stand_by_name(
    summary: SessionSummary,
    session_id: Seq<char>,
    blocks: Seq<HarnessBlock>,
    i: int,
    j: int,
)
    requires
        crate::query::sums_up(summary, session_id, blocks),
        0 <= i < j < summary.block_type_counts@.len(),
    ensures
        text_before(summary.block_type_counts@[i].0, summary.block_type_counts@[j].0),
{
    assert forall|k: int, l: int| 0 <= k < l < BY_NAME@.len() implies text_before(
        (#[trigger] BY_NAME@[k]).name(),
        (#[trigger] BY_NAME@[l]).name(),
    ) by {
        lemma_types_stand_by_name(k, l);
    }
    lemma_counts_stand_by_name(blocks, BY_NAME@);
}

}
