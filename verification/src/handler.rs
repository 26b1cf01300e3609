//! Interception and pass-through: what a request looks like to the capture and
//! to the upstream, what a response looks like to the harness, and which
//! events the capture sees meanwhile.
use vstd::prelude::*;
use vstd::string::*;

use crate::event::{EventView, RawEvent};
use crate::json::{put, Json, JsonView};
use crate::schema::random_id;
use crate::text::{joined, same_text};
use crate::upstream::{UpstreamConfig, UpstreamView};

verus! {

/// The largest request body that is accepted: 64 MiB.
pub const MAX_BODY_BYTES: usize = 64 * 1024 * 1024;

/// The status of a response that reports a failure of the proxy.
pub const BAD_GATEWAY: u16 = 502;

/// A header: its name in lower case, and its value where that is text.
#[derive(Debug, Clone)]
pub struct Header {
    pub name: String,
    pub value: Option<String>,
}

/// What a [`Header`] says.
pub struct HeaderView {
    pub name: Seq<char>,
    pub value: Option<Seq<char>>,
}

impl View for Header {
    type V = HeaderView;

    open spec fn view(&self) -> HeaderView {
        HeaderView { name: self.name@, value: crate::schema::text_option(self.value) }
    }
}

pub open spec fn header_views(headers: Seq<Header>) -> Seq<HeaderView> {
    headers.map_values(|h: Header| h@)
}

// ── what the capture sees of a request ───────────────────────────────────

/// The headers of a request by name: of two with one name the later counts,
/// and a value that is no text counts as empty.
pub open spec fn captured_headers(headers: Seq<HeaderView>) -> Map<Seq<char>, JsonView>
    decreases headers.len(),
{
    if headers.len() == 0 {
        Map::empty()
    } else {
        captured_headers(headers.drop_last()).insert(
            headers.last().name,
            JsonView::Str(
                match headers.last().value {
                    Some(v) => v,
                    None => Seq::empty(),
                },
            ),
        )
    }
}

/// The path of a request, with its query; the root where the request has none.
pub open spec fn effective_path(path_and_query: Option<Seq<char>>) -> Seq<char> {
    match path_and_query {
        Some(p) => p,
        None => "/"@,
    }
}

/// The path of a request, with its query; the root where the request has none.
pub fn request_path(path_and_query: Option<&str>) -> (r: String)
    ensures
        r@ == effective_path(
            match path_and_query {
                Some(p) => Some(p@),
                None => None,
            },
        ),
{
    match path_and_query {
        Some(p) => p.to_string(),
        None => "/".to_string(),
    }
}

fn headers_json(headers: &Vec<Header>) -> (r: Json)
    ensures
        r@ == JsonView::Object(captured_headers(header_views(headers@))),
{
    let ghost views = header_views(headers@);
    let mut entries: Vec<(String, Json)> = Vec::new();
    let mut i: usize = 0;
    assert(views.take(0) =~= Seq::empty());
    while i < headers.len()
        invariant
            i <= headers@.len(),
            views == header_views(headers@),
            crate::json::entries_view(entries@) == captured_headers(views.take(i as int)),
        decreases headers@.len() - i,
    {
        assert(views.take(i + 1).drop_last() =~= views.take(i as int));
        let value = match &headers[i].value {
            Some(v) => v.clone(),
            None => String::new(),
        };
        put(&mut entries, headers[i].name.as_str(), Json::Str(value));
        i = i + 1;
    }
    assert(views.take(views.len() as int) =~= views);
    Json::Object(entries)
}

/// The event of a request that came in.
pub fn captured_request(
    id: u128,
    method: &str,
    path: &str,
    headers: &Vec<Header>,
    body: Vec<u8>,
) -> (r: RawEvent)
    ensures
        r@ == (EventView::Request {
            id,
            method: method@,
            path: path@,
            headers: JsonView::Object(captured_headers(header_views(headers@))),
            body: body@,
        }),
{
    RawEvent::Request {
        id,
        method: method.to_string(),
        path: path.to_string(),
        headers: headers_json(headers),
        body,
    }
}

/// The event of a request that came in, under a new identifier, which is given
/// too: the events of the response carry it.
pub fn capture_request(method: &str, path: &str, headers: &Vec<Header>, body: Vec<u8>) -> (r: (
    u128,
    RawEvent,
))
    ensures
        crate::schema::random_uuid(r.0),
        r.1@ == (EventView::Request {
            id: r.0,
            method: method@,
            path: path@,
            headers: JsonView::Object(captured_headers(header_views(headers@))),
            body: body@,
        }),
{
    let id: u128 = random_id();
    (id, captured_request(id, method, path, headers, body))
}

// ── what goes to the upstream, and back ──────────────────────────────────

/// The request headers that are not forwarded: the host is another one, the
/// proxy injects the authorization, and the client computes the length.
pub open spec fn skipped_in_request(name: Seq<char>) -> bool {
    name == "host"@ || name == "authorization"@ || name == "x-api-key"@ || name
        == "content-length"@ || name == "connection"@
}

/// The response headers that are not passed on: they belong to the one hop, or
/// the server rewrites them.
pub open spec fn skipped_in_response(name: Seq<char>) -> bool {
    name == "transfer-encoding"@ || name == "connection"@ || name == "content-length"@
}

/// Which way headers go.
#[derive(Debug, Clone, Copy, PartialEq, Eq, Structural)]
pub enum Way {
    Upstream,
    Downstream,
}

pub open spec fn skipped(way: Way, name: Seq<char>) -> bool {
    match way {
        Way::Upstream => skipped_in_request(name),
        Way::Downstream => skipped_in_response(name),
    }
}

/// The headers that are passed on, in order: those that are not skipped and
/// whose value is text.
pub open spec fn passed_on(way: Way, headers: Seq<HeaderView>) -> Seq<(Seq<char>, Seq<char>)>
    decreases headers.len(),
{
    if headers.len() == 0 {
        Seq::empty()
    } else {
        let front = passed_on(way, headers.drop_last());
        if skipped(way, headers.last().name) {
            front
        } else {
            match headers.last().value {
                Some(v) => front.push((headers.last().name, v)),
                None => front,
            }
        }
    }
}

pub open spec fn pair_views(pairs: Seq<(String, String)>) -> Seq<(Seq<char>, Seq<char>)> {
    pairs.map_values(|p: (String, String)| (p.0@, p.1@))
}

/// The header that authorizes a request to the upstream with `key`.
pub open spec fn auth_header(upstream: UpstreamView, key: Seq<char>) -> (Seq<char>, Seq<char>) {
    (upstream.auth_header, upstream.auth_prefix + key)
}

/// The headers of a request to the upstream: the authorization where there is
/// a key, then the headers of the harness that are passed on.
pub open spec fn upstream_headers(
    upstream: UpstreamView,
    key: Option<Seq<char>>,
    headers: Seq<HeaderView>,
) -> Seq<(Seq<char>, Seq<char>)> {
    (match key {
        Some(k) => seq![auth_header(upstream, k)],
        None => Seq::empty(),
    }) + passed_on(Way::Upstream, headers)
}

fn is_skipped(way: Way, name: &str) -> (r: bool)
    ensures
        r == skipped(way, name@),
{
    match way {
        Way::Upstream => same_text(name, "host") || same_text(name, "authorization") || same_text(
            name,
            "x-api-key",
        ) || same_text(name, "content-length") || same_text(name, "connection"),
        Way::Downstream => same_text(name, "transfer-encoding") || same_text(name, "connection")
            || same_text(name, "content-length"),
    }
}

/// Appends the headers that are passed on.
fn pass_on(way: Way, headers: &Vec<Header>, out: &mut Vec<(String, String)>)
    ensures
        pair_views(final(out)@) == pair_views(old(out)@) + passed_on(way, header_views(headers@)),
{
    let ghost start = pair_views(out@);
    let ghost views = header_views(headers@);
    let mut i: usize = 0;
    assert(start + passed_on(way, views.take(0)) =~= start);
    while i < headers.len()
        invariant
            i <= headers@.len(),
            views == header_views(headers@),
            pair_views(out@) == start + passed_on(way, views.take(i as int)),
        decreases headers@.len() - i,
    {
        assert(views.take(i + 1).drop_last() =~= views.take(i as int));
        if !is_skipped(way, headers[i].name.as_str()) {
            if let Some(v) = &headers[i].value {
                let pair = (headers[i].name.clone(), v.clone());
                let ghost before = out@;
                out.push(pair);
                assert(pair_views(out@) =~= pair_views(before).push((pair.0@, pair.1@)));
            }
        }
        i = i + 1;
        assert(pair_views(out@) =~= start + passed_on(way, views.take(i as int)));
    }
    assert(views.take(views.len() as int) =~= views);
}

/// A request to the upstream, apart from method and body, which are those of
/// the request of the harness.
#[derive(Debug)]
pub struct UpstreamRequest {
    pub url: String,
    pub headers: Vec<(String, String)>,
}

/// The request to the upstream for a request of the harness. `key` is the API
/// key, which is read anew for each request and never stored.
pub fn upstream_request(
    upstream: &UpstreamConfig,
    path: &str,
    key: Option<&str>,
    headers: &Vec<Header>,
) -> (r: UpstreamRequest)
    ensures
        r.url@ == upstream@.api_base + path@,
        pair_views(r.headers@) == upstream_headers(
            upstream@,
            match key {
                Some(k) => Some(k@),
                None => None,
            },
            header_views(headers@),
        ),
{
    let url = joined(upstream.api_base.as_str(), path);
    let mut out: Vec<(String, String)> = Vec::new();
    if let Some(k) = key {
        out.push((upstream.auth_header.clone(), joined(upstream.auth_prefix.as_str(), k)));
        assert(pair_views(out@) =~= seq![auth_header(upstream@, k@)]);
    } else {
        assert(pair_views(out@) =~= Seq::empty());
    }
    pass_on(Way::Upstream, headers, &mut out);
    UpstreamRequest { url, headers: out }
}

/// The headers of the response to the harness for a response of the upstream.
pub fn response_headers(headers: &Vec<Header>) -> (r: Vec<(String, String)>)
    ensures
        pair_views(r@) == passed_on(Way::Downstream, header_views(headers@)),
{
    let mut out: Vec<(String, String)> = Vec::new();
    assert(pair_views(out@) =~= Seq::empty());
    pass_on(Way::Downstream, headers, &mut out);
    assert(pair_views(out@) =~= passed_on(Way::Downstream, header_views(headers@)));
    out
}

/// The status and body of the response that reports a failure of the proxy.
pub fn error_response(message: &str) -> (r: (u16, String))
    ensures
        r.0 == 502,
        r.1@ == "zap proxy error: "@ + message@,
{
    (BAD_GATEWAY, joined("zap proxy error: ", message))
}

// ── what the capture sees of a response ──────────────────────────────────

/// The capture of the body of one response while it is passed through.
#[derive(Debug)]
pub struct StreamCapture {
    pub id: u128,
    pub status: u16,
    /// The number of the next chunk.
    pub seq: u64,
    /// Whether the end of the response was captured.
    pub done: bool,
}

impl StreamCapture {
    /// The event of a chunk that comes next.
    pub open spec fn chunk_event(self, bytes: Seq<u8>) -> EventView {
        EventView::ResponseChunk { id: self.id, seq: self.seq, chunk: bytes }
    }

    /// The capture after one more chunk.
    pub open spec fn after_chunk(self) -> StreamCapture {
        StreamCapture { seq: (self.seq + 1) as u64, ..self }
    }

    /// The capture of a response of which nothing has been passed through yet.
    pub fn new(id: u128, status: u16) -> (r: StreamCapture)
        ensures
            r == (StreamCapture { id, status, seq: 0, done: false }),
    {
        StreamCapture { id, status, seq: 0, done: false }
    }

    /// The event of a chunk that is passed through. Chunks are numbered in
    /// order, and none follows the end of the response.
    pub fn chunk(&mut self, bytes: Vec<u8>) -> (r: RawEvent)
        requires
            !old(self).done,
            old(self).seq < u64::MAX,
        ensures
            r@ == old(self).chunk_event(bytes@),
            *final(self) == old(self).after_chunk(),
    {
        let seq: u64 = self.seq;
        self.seq = seq + 1;
        RawEvent::ResponseChunk { id: self.id, seq, chunk: bytes }
    }

    /// The event of the end of the response, behind all its chunks; there is
    /// one only.
    pub fn finish(&mut self) -> (r: Option<RawEvent>)
        ensures
            match r {
                Some(event) => !old(self).done && event@ == (EventView::ResponseDone {
                    id: old(self).id,
                    status: old(self).status,
                }),
                None => old(self).done,
            },
            *final(self) == (StreamCapture { done: true, ..*old(self) }),
    {
        if self.done {
            return None;
        }
        self.done = true;
        Some(RawEvent::ResponseDone { id: self.id, status: self.status })
    }
}

// ── laws ─────────────────────────────────────────────────────────────────

proof fn lemma_passed_on(way: Way, headers: Seq<HeaderView>)
    ensures
        forall|i: int|
            0 <= i < passed_on(way, headers).len() ==> !skipped(
                way,
                (#[trigger] passed_on(way, headers)[i]).0,
            ) && headers.contains(
                (HeaderView {
                    name: passed_on(way, headers)[i].0,
                    value: Some(passed_on(way, headers)[i].1),
                }),
            ),
        forall|k: int|
            #![trigger headers[k]]
            0 <= k < headers.len() && !skipped(way, headers[k].name) && headers[k].value is Some
                ==> passed_on(way, headers).contains((headers[k].name, headers[k].value->0)),
    decreases headers.len(),
{
    if headers.len() > 0 {
        let front = headers.drop_last();
        lemma_passed_on(way, front);
        let before = passed_on(way, front);
        let all = passed_on(way, headers);
        assert forall|i: int| 0 <= i < all.len() implies !skipped(way, (#[trigger] all[i]).0)
            && headers.contains((HeaderView { name: all[i].0, value: Some(all[i].1) })) by {
            let h = HeaderView { name: all[i].0, value: Some(all[i].1) };
            if i < before.len() {
                assert(all[i] == before[i]);
                assert(front.contains(h));
                let k = choose|k: int| 0 <= k < front.len() && front[k] == h;
                assert(headers[k] == h);
            } else {
                assert(headers[headers.len() - 1] == h);
            }
        }
        assert forall|k: int|
            #![trigger headers[k]]
            0 <= k < headers.len() && !skipped(way, headers[k].name)
                && headers[k].value is Some implies all.contains(
            (headers[k].name, headers[k].value->0),
        ) by {
            let pair = (headers[k].name, headers[k].value->0);
            if k < front.len() {
                assert(front[k] == headers[k]);
                assert(before.contains(pair));
                let i = choose|i: int| 0 <= i < before.len() && before[i] == pair;
                assert(all[i] == pair);
            } else {
                assert(all[before.len() as int] == pair);
            }
        }
    }
}

/// A header is passed on if and only if it is not skipped and its value is text.
pub proof fn law_headers_pass_unless_skipped(
    way: Way,
    headers: Seq<HeaderView>,
    name: Seq<char>,
    value: Seq<char>,
)
    ensures
        passed_on(way, headers).contains((name, value)) <==> !skipped(way, name)
            && headers.contains((HeaderView { name, value: Some(value) })),
{
    lemma_passed_on(way, headers);
    if headers.contains((HeaderView { name, value: Some(value) })) {
        let k = choose|k: int|
            0 <= k < headers.len() && headers[k] == (HeaderView { name, value: Some(value) });
        assert(headers[k].name == name);
    }
}

/// The credentials of a request to the upstream are those of the proxy: none
/// of the harness go through.
pub proof fn law_credentials_are_injected(
    upstream: UpstreamView,
    key: Option<Seq<char>>,
    headers: Seq<HeaderView>,
    i: int,
)
    requires
        0 <= i < upstream_headers(upstream, key, headers).len(),
        ({
            let name = upstream_headers(upstream, key, headers)[i].0;
            name == "authorization"@ || name == "x-api-key"@
        }),
    ensures
        i == 0,
        key is Some,
        upstream_headers(upstream, key, headers)[i] == auth_header(upstream, key->0),
{
    lemma_passed_on(Way::Upstream, headers);
    let injected: int = if key is Some {
        1
    } else {
        0
    };
    if i >= injected {
        assert(upstream_headers(upstream, key, headers)[i] == passed_on(
            Way::Upstream,
            headers,
        )[i - injected]);
    }
}

/// A capture after `n` chunks.
pub open spec fn capture_after(start: StreamCapture, n: nat) -> StreamCapture
    decreases n,
{
    if n == 0 {
        start
    } else {
        capture_after(start, (n - 1) as nat).after_chunk()
    }
}

/// The events that a capture gives for `chunks`, in order.
pub open spec fn captured_chunks(start: StreamCapture, chunks: Seq<Seq<u8>>) -> Seq<EventView>
    decreases chunks.len(),
{
    if chunks.len() == 0 {
        Seq::empty()
    } else {
        captured_chunks(start, chunks.drop_last()).push(
            capture_after(start, (chunks.len() - 1) as nat).chunk_event(chunks.last()),
        )
    }
}

proof fn lemma_capture_after(start: StreamCapture, n: nat)
    requires
        start.seq + n <= u64::MAX,
    ensures
        capture_after(start, n) == (StreamCapture { seq: (start.seq + n) as u64, ..start }),
    decreases n,
{
    if n > 0 {
        lemma_capture_after(start, (n - 1) as nat);
    }
}

/// The events that a new capture gives are the chunks of the response, numbered
/// in order.
pub proof fn law_capture_numbers_in_order(id: u128, status: u16, chunks: Seq<Seq<u8>>)
    requires
        chunks.len() <= u64::MAX,
    ensures
        captured_chunks((StreamCapture { id, status, seq: 0, done: false }), chunks)
            == crate::capture_laws::chunk_events(id, chunks),
    decreases chunks.len(),
{
    let start = StreamCapture { id, status, seq: 0, done: false };
    if chunks.len() == 0 {
        assert(crate::capture_laws::chunk_events(id, chunks) =~= Seq::empty());
    } else {
        law_capture_numbers_in_order(id, status, chunks.drop_last());
        lemma_capture_after(start, (chunks.len() - 1) as nat);
        assert(crate::capture_laws::chunk_events(id, chunks) =~= crate::capture_laws::chunk_events(
            id,
            chunks.drop_last(),
        ).push(
            EventView::ResponseChunk {
                id,
                seq: (chunks.len() - 1) as u64,
                chunk: chunks.last(),
            },
        ));
    }
}

}
