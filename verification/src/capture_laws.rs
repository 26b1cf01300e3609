//! Laws of the capture: chunks make up the body that was sent, whatever order
//! they came in, and exchanges that go on at one time do not mix.
use vstd::prelude::*;
use vstd::seq_lib::*;

use crate::event::EventView;
use crate::raw_processor::{CaptureView, ChunkView, Direction, Pending};

verus! {

// ── chunks ───────────────────────────────────────────────────────────────

/// Whether chunks stand by ascending number.
pub open spec fn ascending(chunks: Seq<ChunkView>) -> bool {
    forall|i: int, j: int|
        0 <= i <= j < chunks.len() ==> (#[trigger] chunks[i]).0 <= (#[trigger] chunks[j]).0
}

/// Whether no two chunks have one number.
pub open spec fn distinct_numbers(chunks: Seq<ChunkView>) -> bool {
    forall|i: int, j: int|
        0 <= i < j < chunks.len() ==> (#[trigger] chunks[i]).0 != (#[trigger] chunks[j]).0
}

/// The chunks with the number `n`, in order.
pub open spec fn of_number(chunks: Seq<ChunkView>, n: u64) -> Seq<ChunkView>
    decreases chunks.len(),
{
    if chunks.len() == 0 {
        Seq::empty()
    } else if chunks.last().0 == n {
        of_number(chunks.drop_last(), n).push(chunks.last())
    } else {
        of_number(chunks.drop_last(), n)
    }
}

proof fn lemma_placed(ordered: Seq<ChunkView>, chunk: ChunkView)
    requires
        ascending(ordered),
    ensures
        ascending(crate::raw_processor::placed(ordered, chunk)),
        crate::raw_processor::placed(ordered, chunk).to_multiset() == ordered.to_multiset().insert(
            chunk,
        ),
        forall|k: int|
            0 <= k < crate::raw_processor::placed(ordered, chunk).len() ==> {
                let c = #[trigger] crate::raw_processor::placed(ordered, chunk)[k];
                c.0 <= chunk.0 || (ordered.len() > 0 && c.0 <= ordered.last().0)
            },
        forall|n: u64| #[trigger]
            of_number(crate::raw_processor::placed(ordered, chunk), n) == if chunk.0 == n {
                of_number(ordered, n).push(chunk)
            } else {
                of_number(ordered, n)
            },
    decreases ordered.len(),
{
    let all = crate::raw_processor::placed(ordered, chunk);
    if ordered.len() == 0 || ordered.last().0 <= chunk.0 {
        assert(all == ordered.push(chunk));
        assert(all.drop_last() =~= ordered);
        to_multiset_build(ordered, chunk);
    } else {
        let front = ordered.drop_last();
        lemma_placed(front, chunk);
        let rest = crate::raw_processor::placed(front, chunk);
        assert(all == rest.push(ordered.last()));
        assert(all.drop_last() =~= rest);
        to_multiset_build(rest, ordered.last());
        to_multiset_build(front, ordered.last());
        assert(front.push(ordered.last()) =~= ordered);
        assert(all.to_multiset() =~= ordered.to_multiset().insert(chunk));
        assert forall|k: int| 0 <= k < rest.len() implies (#[trigger] rest[k]).0
            <= ordered.last().0 by {
            if front.len() > 0 {
                assert(front.last() == ordered[ordered.len() - 2]);
            }
        }
        assert forall|n: u64| #[trigger] of_number(all, n) == if chunk.0 == n {
            of_number(ordered, n).push(chunk)
        } else {
            of_number(ordered, n)
        } by {
            assert(of_number(rest, n) == if chunk.0 == n {
                of_number(front, n).push(chunk)
            } else {
                of_number(front, n)
            });
        }
    }
}

/// Putting chunks in order sorts them by number, keeps each of them, and leaves
/// chunks of one number in order of arrival.
pub proof fn law_in_order_is_a_stable_sort(chunks: Seq<ChunkView>)
    ensures
        ascending(crate::raw_processor::in_order(chunks)),
        crate::raw_processor::in_order(chunks).to_multiset() == chunks.to_multiset(),
        forall|n: u64| #[trigger]
            of_number(crate::raw_processor::in_order(chunks), n) == of_number(chunks, n),
    decreases chunks.len(),
{
    if chunks.len() > 0 {
        law_in_order_is_a_stable_sort(chunks.drop_last());
        lemma_placed(crate::raw_processor::in_order(chunks.drop_last()), chunks.last());
        to_multiset_build(chunks.drop_last(), chunks.last());
        assert(chunks.drop_last().push(chunks.last()) =~= chunks);
    } else {
        assert(crate::raw_processor::in_order(chunks) =~= chunks);
    }
}

/// Chunks that came in order stay as they came.
pub proof fn law_ordered_chunks_stay(chunks: Seq<ChunkView>)
    requires
        ascending(chunks),
    ensures
        crate::raw_processor::in_order(chunks) == chunks,
    decreases chunks.len(),
{
    if chunks.len() > 0 {
        law_ordered_chunks_stay(chunks.drop_last());
        assert(chunks.drop_last().push(chunks.last()) =~= chunks);
        if chunks.len() > 1 {
            assert(chunks.drop_last().last() == chunks[chunks.len() - 2]);
        }
    }
}

proof fn lemma_number_present(chunks: Seq<ChunkView>, k: int)
    requires
        0 <= k < chunks.len(),
    ensures
        of_number(chunks, chunks[k].0).contains(chunks[k]),
    decreases chunks.len(),
{
    let n = chunks[k].0;
    if k == chunks.len() - 1 {
        let front = of_number(chunks.drop_last(), n);
        assert(front.push(chunks.last())[front.len() as int] == chunks.last());
    } else {
        lemma_number_present(chunks.drop_last(), k);
        let front = of_number(chunks.drop_last(), n);
        let i = choose|i: int| 0 <= i < front.len() && front[i] == chunks[k];
        assert(of_number(chunks, n)[i] == chunks[k]);
    }
}

proof fn lemma_of_number_has_number(chunks: Seq<ChunkView>, n: u64)
    ensures
        forall|i: int|
            0 <= i < of_number(chunks, n).len() ==> (#[trigger] of_number(chunks, n)[i]).0 == n
                && chunks.contains(of_number(chunks, n)[i]),
    decreases chunks.len(),
{
    if chunks.len() > 0 {
        let front = chunks.drop_last();
        lemma_of_number_has_number(front, n);
        assert forall|i: int| 0 <= i < of_number(chunks, n).len() implies (
        #[trigger] of_number(chunks, n)[i]).0 == n && chunks.contains(of_number(chunks, n)[i]) by {
            if i < of_number(front, n).len() {
                assert(of_number(chunks, n)[i] == of_number(front, n)[i]);
                let k = choose|k: int| 0 <= k < front.len() && front[k] == of_number(front, n)[i];
                assert(chunks[k] == front[k]);
            } else {
                assert(of_number(chunks, n)[i] == chunks[chunks.len() - 1]);
            }
        }
    }
}

proof fn lemma_same_by_number(a: Seq<ChunkView>, b: Seq<ChunkView>)
    requires
        ascending(a),
        ascending(b),
        forall|n: u64| #[trigger] of_number(a, n) == of_number(b, n),
    ensures
        a == b,
    decreases a.len(),
{
    if a.len() == 0 {
        if b.len() > 0 {
            lemma_number_present(b, b.len() - 1);
            assert(of_number(a, b.last().0).len() == 0);
        }
        assert(a =~= b);
    } else {
        let m = a.last().0;
        lemma_number_present(a, a.len() - 1);
        assert(of_number(b, m).contains(a.last()));
        let at = choose|i: int| 0 <= i < of_number(b, m).len() && of_number(b, m)[i] == a.last();
        lemma_of_number_has_number(b, m);
        assert(b.contains(of_number(b, m)[at]));
        lemma_number_present(b, b.len() - 1);
        let top = b.last().0;
        lemma_of_number_has_number(a, top);
        let back = choose|i: int|
            0 <= i < of_number(a, top).len() && of_number(a, top)[i] == b.last();
        assert(of_number(a, top)[back] == b.last());
        assert(a.contains(b.last()));
        assert(top == m);
        assert(of_number(a, m).last() == a.last());
        assert(of_number(b, m).last() == b.last());
        assert forall|n: u64| #[trigger] of_number(a.drop_last(), n) == of_number(
            b.drop_last(),
            n,
        ) by {
            assert(of_number(a, n) == of_number(b, n));
            if n == m {
                assert(of_number(a, n).drop_last() =~= of_number(a.drop_last(), n));
                assert(of_number(b, n).drop_last() =~= of_number(b.drop_last(), n));
            }
        }
        lemma_same_by_number(a.drop_last(), b.drop_last());
        assert(a =~= a.drop_last().push(a.last()));
        assert(b =~= b.drop_last().push(b.last()));
    }
}

/// A body depends on nothing but the order of arrival within each number.
pub proof fn law_body_fixed_by_each_number(a: Seq<ChunkView>, b: Seq<ChunkView>)
    requires
        forall|n: u64| #[trigger] of_number(a, n) == of_number(b, n),
    ensures
        crate::raw_processor::reassembled(a) == crate::raw_processor::reassembled(b),
{
    law_in_order_is_a_stable_sort(a);
    law_in_order_is_a_stable_sort(b);
    assert forall|n: u64| #[trigger] of_number(crate::raw_processor::in_order(a), n) == of_number(
        crate::raw_processor::in_order(b),
        n,
    ) by {
        assert(of_number(a, n) == of_number(b, n));
    }
    lemma_same_by_number(crate::raw_processor::in_order(a), crate::raw_processor::in_order(b));
}

proof fn lemma_single_of_number(chunks: Seq<ChunkView>, n: u64)
    requires
        distinct_numbers(chunks),
    ensures
        of_number(chunks, n).len() <= 1,
    decreases chunks.len(),
{
    if chunks.len() > 0 {
        let front = chunks.drop_last();
        lemma_single_of_number(front, n);
        if chunks.last().0 == n && of_number(front, n).len() > 0 {
            lemma_of_number_has_number(front, n);
            assert(front.contains(of_number(front, n)[0]));
            let k = choose|k: int| 0 <= k < front.len() && front[k] == of_number(front, n)[0];
            assert(chunks[k].0 == chunks[chunks.len() - 1].0);
        }
    }
}

proof fn lemma_permutation_has_distinct_numbers(a: Seq<ChunkView>, b: Seq<ChunkView>)
    requires
        a.to_multiset() == b.to_multiset(),
        distinct_numbers(a),
    ensures
        distinct_numbers(b),
{
    a.to_multiset_ensures();
    b.to_multiset_ensures();
    a.lemma_multiset_has_no_duplicates();
    b.lemma_multiset_has_no_duplicates_conv();
    assert forall|i: int, j: int| 0 <= i < j < b.len() implies (#[trigger] b[i]).0 != (
    #[trigger] b[j]).0 by {
        assert(b.contains(b[i]) && b.contains(b[j]));
        assert(a.to_multiset().count(b[i]) > 0 && a.to_multiset().count(b[j]) > 0);
        assert(a.contains(b[i]) && a.contains(b[j]));
        let k = choose|k: int| 0 <= k < a.len() && a[k] == b[i];
        let l = choose|l: int| 0 <= l < a.len() && a[l] == b[j];
        assert(k != l);
    }
}

proof fn lemma_number_carries_over(a: Seq<ChunkView>, b: Seq<ChunkView>, n: u64)
    requires
        a.to_multiset() == b.to_multiset(),
        distinct_numbers(b),
        of_number(a, n).len() == 1,
    ensures
        of_number(b, n) == of_number(a, n),
{
    a.to_multiset_ensures();
    b.to_multiset_ensures();
    lemma_of_number_has_number(a, n);
    let x = of_number(a, n)[0];
    assert(a.contains(x));
    assert(b.to_multiset().count(x) > 0);
    let k = choose|k: int| 0 <= k < b.len() && b[k] == x;
    lemma_number_present(b, k);
    lemma_single_of_number(b, n);
    assert(of_number(b, n) =~= of_number(a, n));
}

/// Chunks with distinct numbers make up one body, whatever order they came in.
pub proof fn law_arrival_order_does_not_matter(a: Seq<ChunkView>, b: Seq<ChunkView>)
    requires
        a.to_multiset() == b.to_multiset(),
        distinct_numbers(a),
    ensures
        crate::raw_processor::reassembled(a) == crate::raw_processor::reassembled(b),
{
    lemma_permutation_has_distinct_numbers(a, b);
    assert forall|n: u64| #[trigger] of_number(a, n) == of_number(b, n) by {
        lemma_single_of_number(a, n);
        lemma_single_of_number(b, n);
        if of_number(a, n).len() == 1 {
            lemma_number_carries_over(a, b, n);
        } else if of_number(b, n).len() == 1 {
            lemma_number_carries_over(b, a, n);
        } else {
            assert(of_number(a, n) =~= of_number(b, n));
        }
    }
    law_body_fixed_by_each_number(a, b);
}

// ── exchanges ────────────────────────────────────────────────────────────

/// The exchange that an event belongs to.
pub open spec fn exchange_of(event: EventView) -> u128 {
    match event {
        EventView::Request { id, .. } => id,
        EventView::ResponseChunk { id, .. } => id,
        EventView::ResponseDone { id, .. } => id,
    }
}

/// The events of one exchange, in order.
pub open spec fn of_exchange(events: Seq<EventView>, id: u128) -> Seq<EventView>
    decreases events.len(),
{
    if events.len() == 0 {
        Seq::empty()
    } else if exchange_of(events.last()) == id {
        of_exchange(events.drop_last(), id).push(events.last())
    } else {
        of_exchange(events.drop_last(), id)
    }
}

/// What waits under an id, and so what the end of its response completes,
/// depends on the events of that exchange alone.
pub proof fn law_exchanges_do_not_mix(pending: Pending, events: Seq<EventView>, next: EventView)
    ensures
        crate::raw_processor::pending_through(pending, events).contains_key(exchange_of(next))
            == crate::raw_processor::pending_through(
            pending,
            of_exchange(events, exchange_of(next)),
        ).contains_key(exchange_of(next)),
        crate::raw_processor::waiting(
            crate::raw_processor::pending_through(pending, events),
            exchange_of(next),
        ) == crate::raw_processor::waiting(
            crate::raw_processor::pending_through(
                pending,
                of_exchange(events, exchange_of(next)),
            ),
            exchange_of(next),
        ),
        crate::raw_processor::completed_by(
            crate::raw_processor::pending_through(pending, events),
            next,
        ) == crate::raw_processor::completed_by(
            crate::raw_processor::pending_through(
                pending,
                of_exchange(events, exchange_of(next)),
            ),
            next,
        ),
    decreases events.len(),
{
    if events.len() > 0 {
        let id = exchange_of(next);
        law_exchanges_do_not_mix(pending, events.drop_last(), next);
        if exchange_of(events.last()) == id {
            let own = of_exchange(events, id);
            assert(own.drop_last() =~= of_exchange(events.drop_last(), id));
        }
    }
}

/// The events of the chunks of a response, numbered in order.
pub open spec fn chunk_events(id: u128, chunks: Seq<Seq<u8>>) -> Seq<EventView> {
    Seq::new(
        chunks.len(),
        |i: int| EventView::ResponseChunk { id, seq: i as u64, chunk: chunks[i] },
    )
}

/// The chunks of a response with their numbers.
pub open spec fn numbered(chunks: Seq<Seq<u8>>) -> Seq<ChunkView> {
    Seq::new(chunks.len(), |i: int| (i as u64, chunks[i]))
}

proof fn lemma_bytes_of_numbered(chunks: Seq<Seq<u8>>)
    ensures
        crate::raw_processor::bytes_of(numbered(chunks)) == chunks.flatten(),
    decreases chunks.len(),
{
    if chunks.len() == 0 {
        assert(numbered(chunks) =~= Seq::empty());
    } else {
        lemma_bytes_of_numbered(chunks.drop_last());
        assert(numbered(chunks).drop_last() =~= numbered(chunks.drop_last()));
        chunks.lemma_flatten_and_flatten_alt_are_equivalent();
        chunks.drop_last().lemma_flatten_and_flatten_alt_are_equivalent();
    }
}

proof fn lemma_chunks_wait(pending: Pending, request: EventView, chunks: Seq<Seq<u8>>)
    requires
        request is Request,
        !pending.contains_key(exchange_of(request)),
        chunks.len() <= u64::MAX,
    ensures
        ({
            let id = exchange_of(request);
            let events = seq![request] + chunk_events(id, chunks);
            &&& crate::raw_processor::pending_through(pending, events) == pending.insert(
                id,
                numbered(chunks),
            )
            &&& crate::raw_processor::captures_through(pending, events) == seq![
                CaptureView { direction: Direction::Request, body: request->Request_body },
            ]
        }),
    decreases chunks.len(),
{
    let id = exchange_of(request);
    let events = seq![request] + chunk_events(id, chunks);
    if chunks.len() == 0 {
        assert(events =~= seq![request]);
        assert(crate::raw_processor::pending_through(pending, events.drop_last()) == pending);
        assert(crate::raw_processor::captures_through(pending, events.drop_last()).len() == 0);
        assert(numbered(chunks) =~= Seq::empty());
        assert(crate::raw_processor::captures_through(pending, events) =~= seq![
            CaptureView { direction: Direction::Request, body: request->Request_body },
        ]);
    } else {
        lemma_chunks_wait(pending, request, chunks.drop_last());
        assert(events.drop_last() =~= seq![request] + chunk_events(id, chunks.drop_last()));
        let number = (chunks.len() - 1) as u64;
        assert(events.last() == EventView::ResponseChunk {
            id,
            seq: number,
            chunk: chunks.last(),
        });
        assert(numbered(chunks) =~= numbered(chunks.drop_last()).push((number, chunks.last())));
        assert(pending.insert(id, numbered(chunks.drop_last())).insert(id, numbered(chunks))
            =~= pending.insert(id, numbered(chunks)));
    }
}

/// When a response ends, its capture is complete: the request of its exchange
/// and then its chunks, numbered in order, give back all bytes of the response,
/// whatever other exchanges went on meanwhile.
pub proof fn law_response_is_captured_whole(
    pending: Pending,
    events: Seq<EventView>,
    request: EventView,
    chunks: Seq<Seq<u8>>,
    status: u16,
)
    requires
        request is Request,
        !pending.contains_key(exchange_of(request)),
        chunks.len() <= u64::MAX,
        of_exchange(events, exchange_of(request)) == seq![request] + chunk_events(
            exchange_of(request),
            chunks,
        ),
    ensures
        crate::raw_processor::completed_by(
            crate::raw_processor::pending_through(pending, events),
            EventView::ResponseDone { id: exchange_of(request), status },
        ) == Some(CaptureView { direction: Direction::Response, body: chunks.flatten() }),
{
    let id = exchange_of(request);
    let done = EventView::ResponseDone { id, status };
    law_exchanges_do_not_mix(pending, events, done);
    lemma_chunks_wait(pending, request, chunks);
    law_ordered_chunks_stay(numbered(chunks));
    lemma_bytes_of_numbered(chunks);
}

/// The events of an exchange give two payloads: the body of the request, and
/// all bytes of the response. Nothing is left waiting.
pub proof fn law_exchange_gives_request_and_response(
    pending: Pending,
    request: EventView,
    chunks: Seq<Seq<u8>>,
    status: u16,
)
    requires
        request is Request,
        !pending.contains_key(exchange_of(request)),
        chunks.len() <= u64::MAX,
    ensures
        ({
            let id = exchange_of(request);
            let events = seq![request] + chunk_events(id, chunks) + seq![
                EventView::ResponseDone { id, status },
            ];
            &&& crate::raw_processor::captures_through(pending, events) == seq![
                CaptureView { direction: Direction::Request, body: request->Request_body },
                CaptureView { direction: Direction::Response, body: chunks.flatten() },
            ]
            &&& crate::raw_processor::pending_through(pending, events) == pending
        }),
{
    let id = exchange_of(request);
    let done = EventView::ResponseDone { id, status };
    let front = seq![request] + chunk_events(id, chunks);
    let events = front + seq![done];
    lemma_chunks_wait(pending, request, chunks);
    law_ordered_chunks_stay(numbered(chunks));
    lemma_bytes_of_numbered(chunks);
    assert(events.drop_last() =~= front);
    assert(events.last() == done);
    assert(pending.insert(id, numbered(chunks)).remove(id) =~= pending);
    assert(crate::raw_processor::captures_through(pending, events) =~= seq![
        CaptureView { direction: Direction::Request, body: request->Request_body },
        CaptureView { direction: Direction::Response, body: chunks.flatten() },
    ]);
}

/// Events may be taken in at once or in parts.
pub proof fn law_runs_compose(pending: Pending, first: Seq<EventView>, second: Seq<EventView>)
    ensures
        crate::raw_processor::pending_through(pending, first + second)
            == crate::raw_processor::pending_through(
            crate::raw_processor::pending_through(pending, first),
            second,
        ),
        crate::raw_processor::captures_through(pending, first + second)
            == crate::raw_processor::captures_through(pending, first)
            + crate::raw_processor::captures_through(
            crate::raw_processor::pending_through(pending, first),
            second,
        ),
    decreases second.len(),
{
    if second.len() == 0 {
        assert(first + second =~= first);
        assert(crate::raw_processor::captures_through(pending, first) + Seq::<
            CaptureView,
        >::empty() =~= crate::raw_processor::captures_through(pending, first));
    } else {
        law_runs_compose(pending, first, second.drop_last());
        assert((first + second).drop_last() =~= first + second.drop_last());
        let after = crate::raw_processor::pending_through(pending, first);
        let early = crate::raw_processor::captures_through(pending, first);
        let late = crate::raw_processor::captures_through(after, second.drop_last());
        match crate::raw_processor::completed_by(
            crate::raw_processor::pending_through(after, second.drop_last()),
            second.last(),
        ) {
            Some(capture) => {
                assert((early + late).push(capture) =~= early + late.push(capture));
            },
            None => {},
        }
    }
}

}
