//! Laws of operations: how what they give relates to what they are given.
use vstd::hash_map::StringHashMap;
use vstd::prelude::*;
use vstd::string::*;
use vstd::utf8::*;

use crate::block_builder::{
    extract_content_text, extract_system_text, read_json_response, read_request, read_stream, Draft,
    ParsedResponse,
};
use crate::ca::{ensure_local_ca, CaPlan, FilesPresent, LocalCA};
use crate::event::RawEvent;
use crate::handler::{
    captured_request, error_response, request_path, response_headers, upstream_request, Header,
    StreamCapture, UpstreamRequest,
};
use crate::harness_spawn::{build_spawn_env, resolve_intercept_mode, SpawnedSession};
use crate::hook_server::{read_hook, HookEvent, HookServer};
use crate::integration::Integration;
use crate::json::{Json, JsonView};
use crate::manager::{ProxyHandle, ProxyManager};
use crate::query::{
    get_system_prompt, list_blocks_by_session, list_blocks_by_type, list_child_blocks, summarize,
    SessionSummary, TypeCounts,
};
use crate::raw_cache::{RawCache, RawEntry};
use crate::raw_processor::reassemble;
use crate::schema::{
    BlockType, HarnessBlock, InterceptMode, UnknownBlockType, UnknownInterceptMode,
};
use crate::session::{epoch_ms, SessionContext};
use crate::store::{BlockRecord, BlockStore, StoreError, Wanted};
use crate::upstream::{
    default_key_env, omp_config_path, HarnessType, OmpSource, ResponseFormat, UpstreamConfig,
    UpstreamError,
};

verus! {

// ── bodies ───────────────────────────────────────────────────────────────

/// Reading a request that has one message gives one prompt where the role of the
/// message is `user`, with the texts of its content, and none else.
pub proof fn law_reading_a_message(root: Json, message: JsonView, items: Seq<JsonView>, r: Vec<Draft>)
    requires
        call_ensures(read_request, (&root,), r),
        root@ is Object,
        !root@->Object_0.contains_key("system"@),
        !root@->Object_0.contains_key("tools"@),
        crate::request_laws::carries(root@, "messages"@, JsonView::Array(seq![message])),
        crate::request_laws::carries(message, "content"@, JsonView::Array(items)),
    ensures
        crate::request_laws::carries(message, "role"@, JsonView::Str("user"@)) ==> r@.len() == 1
            && r@[0].block_type == BlockType::UserPrompt && r@[0].content@ == encode_utf8(
            crate::request_laws::item_texts(items).flatten(),
        ),
        !crate::request_laws::carries(message, "role"@, JsonView::Str("user"@)) ==> r@.len() == 0,
{
    let model = crate::request_laws::text_under(root@, "model"@);
    crate::request_laws::law_request(root@);
    let views = crate::block_builder::draft_views(r@);
    assert(views.len() == r@.len());
    if crate::request_laws::carries(message, "role"@, JsonView::Str("user"@)) {
        crate::request_laws::law_prompt_of_a_user_message(message, items, Seq::empty(), model);
        assert(views[0] == r@[0]@);
    } else {
        crate::request_laws::law_no_prompt_of_other_messages(message, model);
    }
}

/// Reading a response gives the concatenation of the texts of its content, its
/// model and stop reason, and its token counts.
pub proof fn law_reading_a_response(root: Json, items: Seq<JsonView>, r: ParsedResponse)
    requires
        call_ensures(read_json_response, (&root,), r),
    ensures
        crate::request_laws::carries(root@, "content"@, JsonView::Array(items)) ==> r.text@
            == crate::request_laws::item_texts(items).flatten(),
        r.model@ == crate::request_laws::text_under(root@, "model"@),
        r.stop_reason@ == crate::request_laws::text_under(root@, "stop_reason"@),
        r.input_tokens == crate::response_laws::count_under(
            crate::response_laws::under(root@, "usage"@),
            "input_tokens"@,
            0,
        ),
        r.output_tokens == crate::response_laws::count_under(
            crate::response_laws::under(root@, "usage"@),
            "output_tokens"@,
            0,
        ),
{
    crate::response_laws::law_json_response(root@);
}

/// Reading a stream gives what its events say, one behind the other, and
/// nothing where it has no events.
pub proof fn law_reading_a_stream(events: Vec<Json>, r: Option<ParsedResponse>)
    requires
        call_ensures(read_stream, (&events,), r),
    ensures
        r is None <==> events@.len() == 0,
        r matches Some(p) ==> p.text@ == Seq::new(
            events@.len(),
            |i: int| crate::response_laws::said(events@[i]@),
        ).flatten(),
{
    let views = crate::json::items_view(events@);
    crate::json_laws::law_items_in_order(events@);
    crate::response_laws::law_stream_says_its_deltas(views);
    assert(views.map_values(|e: JsonView| crate::response_laws::said(e)) =~= Seq::new(
        events@.len(),
        |i: int| crate::response_laws::said(events@[i]@),
    ));
}

/// The text of a message content runs on, and that of a system prompt has a
/// line for each of its texts.
pub proof fn law_texts_of_contents(content: Json, items: Seq<JsonView>, text: Seq<char>, m: String, s: String)
    requires
        call_ensures(extract_content_text, (&content,), m),
        call_ensures(extract_system_text, (&content,), s),
    ensures
        content@ == JsonView::Array(items) ==> m@ == crate::request_laws::item_texts(
            items,
        ).flatten() && s@ == crate::request_laws::on_lines(crate::request_laws::item_texts(items)),
        content@ == JsonView::Str(text) ==> m@ == text && s@ == text,
        !(content@ is Array) && !(content@ is Str) ==> m@.len() == 0 && s@.len() == 0,
{
    crate::request_laws::law_content_text(text, items, content@, ""@);
    crate::request_laws::law_content_text(text, items, content@, "\n"@);
}

/// The body that chunks make up has all their bytes: that of chunks in order is
/// their concatenation.
pub proof fn law_reassembling(chunks: Vec<(u64, Vec<u8>)>, r: Vec<u8>)
    requires
        call_ensures(reassemble, (chunks,), r),
        forall|i: int, j: int|
            0 <= i <= j < chunks@.len() ==> (#[trigger] chunks@[i]).0 <= (
            #[trigger] chunks@[j]).0,
    ensures
        r@ == Seq::new(chunks@.len(), |i: int| chunks@[i].1@).flatten(),
{
    let views = crate::raw_processor::chunk_views(chunks@);
    assert forall|i: int, j: int| 0 <= i <= j < views.len() implies (#[trigger] views[i]).0 <= (
    #[trigger] views[j]).0 by {
        assert(chunks@[i].0 <= chunks@[j].0);
    }
    crate::capture_laws::law_ordered_chunks_stay(views);
    crate::exchange_laws::law_body_of_chunks(views);
    assert(views.map_values(|c: crate::raw_processor::ChunkView| c.1) =~= Seq::new(
        chunks@.len(),
        |i: int| chunks@[i].1@,
    ));
}

// ── proxy ────────────────────────────────────────────────────────────────

/// The request to the upstream goes to the path of the request of the harness,
/// behind the base, and has every header of it whose value is text and whose
/// name is none of the five that the proxy sets itself.
pub proof fn law_request_to_the_upstream(
    upstream: UpstreamConfig,
    path: &str,
    key: Option<&str>,
    headers: Vec<Header>,
    r: UpstreamRequest,
    i: int,
)
    requires
        call_ensures(upstream_request, (&upstream, path, key, &headers), r),
        0 <= i < headers@.len(),
        headers@[i].value is Some,
        headers@[i].name@ != "host"@,
        headers@[i].name@ != "authorization"@,
        headers@[i].name@ != "x-api-key"@,
        headers@[i].name@ != "content-length"@,
        headers@[i].name@ != "connection"@,
    ensures
        r.url@ == upstream.api_base@ + path@,
        exists|j: int|
            0 <= j < r.headers@.len() && (#[trigger] r.headers@[j]).0@ == headers@[i].name@
                && r.headers@[j].1@ == headers@[i].value->0@,
{
    let views = crate::handler::header_views(headers@);
    let named: Option<Seq<char>> = match key {
        Some(k) => Some(k@),
        None => None,
    };
    let name = headers@[i].name@;
    let value = headers@[i].value->0@;
    assert(views[i] == headers@[i]@);
    assert(views.contains((crate::handler::HeaderView { name, value: Some(value) })));
    crate::proxy_laws::law_other_headers_reach_the_upstream(
        upstream@,
        named,
        views,
        name,
        value,
    );
    let pairs = crate::handler::pair_views(r.headers@);
    let j = choose|j: int| 0 <= j < pairs.len() && pairs[j] == (name, value);
    assert(r.headers@[j].0@ == name);
}

/// Of the three headers that belong to the hop, none reaches the harness.
pub proof fn law_response_to_the_harness(headers: Vec<Header>, r: Vec<(String, String)>, i: int)
    requires
        call_ensures(response_headers, (&headers,), r),
        0 <= i < r@.len(),
    ensures
        r@[i].0@ != "transfer-encoding"@,
        r@[i].0@ != "connection"@,
        r@[i].0@ != "content-length"@,
        exists|j: int|
            0 <= j < headers@.len() && (#[trigger] headers@[j]).name@ == r@[i].0@
                && headers@[j].value is Some && headers@[j].value->0@ == r@[i].1@,
{
    let views = crate::handler::header_views(headers@);
    let pairs = crate::handler::pair_views(r@);
    let name = r@[i].0@;
    let value = r@[i].1@;
    assert(pairs[i] == (name, value));
    assert(pairs.contains((name, value)));
    crate::handler::law_headers_pass_unless_skipped(
        crate::handler::Way::Downstream,
        views,
        name,
        value,
    );
    let j = choose|j: int|
        0 <= j < views.len() && views[j] == (crate::handler::HeaderView {
            name,
            value: Some(value),
        });
    assert(headers@[j]@ == views[j]);
    assert(headers@[j].name@ == name);
}

/// The event of a request has its identifier, method, path and body as they
/// came.
pub proof fn law_captured_request(
    id: u128,
    method: &str,
    path: &str,
    headers: Vec<Header>,
    body: Vec<u8>,
    r: RawEvent,
)
    requires
        call_ensures(captured_request, (id, method, path, &headers, body), r),
    ensures
        r is Request,
        r->Request_id == id,
        r->method@ == method@,
        r->path@ == path@,
        r->body@ == body@,
        r->headers@ is Object,
        forall|i: int|
            0 <= i < headers@.len() ==> r->headers@->Object_0.contains_key(
                (#[trigger] headers@[i]).name@,
            ),
{
    let views = crate::handler::header_views(headers@);
    assert forall|i: int| 0 <= i < headers@.len() implies r->headers@->Object_0.contains_key(
        (#[trigger] headers@[i]).name@,
    ) by {
        lemma_captured_name(views, i);
        assert(views[i] == headers@[i]@);
    }
}

proof fn lemma_captured_name(headers: Seq<crate::handler::HeaderView>, i: int)
    requires
        0 <= i < headers.len(),
    ensures
        crate::handler::captured_headers(headers).contains_key(headers[i].name),
    decreases headers.len(),
{
    if i < headers.len() - 1 {
        lemma_captured_name(headers.drop_last(), i);
    }
}

/// The path of a request is the one that it has, and the root else.
pub proof fn law_path_of_the_request(path: Option<&str>, r: String)
    requires
        call_ensures(request_path, (path,), r),
    ensures
        path matches Some(p) ==> r@ == p@,
        path is None ==> r@ == "/"@,
{
}

/// A failure of the proxy is reported as a bad gateway, with the message behind
/// the name of the proxy.
pub proof fn law_report_of_a_failure(message: &str, r: (u16, String))
    requires
        call_ensures(error_response, (message,), r),
    ensures
        r.0 == 502,
        r.1@ == "zap proxy error: "@ + message@,
{
}

/// A capture starts with the first chunk, before the end.
pub proof fn law_start_of_a_capture(id: u128, status: u16, r: StreamCapture)
    requires
        call_ensures(StreamCapture::new, (id, status), r),
    ensures
        r.id == id,
        r.status == status,
        r.seq == 0,
        !r.done,
{
}

/// Two resolutions of one harness other than [`HarnessType::Omp`] differ in
/// their base alone.
pub proof fn law_resolutions_differ_in_the_base(
    harness: HarnessType,
    explicit: Option<&str>,
    detected: Option<&str>,
    omp: OmpSource,
    a: Result<UpstreamConfig, UpstreamError>,
    b: Result<UpstreamConfig, UpstreamError>,
)
    requires
        harness != HarnessType::Omp,
        call_ensures(UpstreamConfig::resolve, (harness, explicit, detected, omp), a),
        call_ensures(UpstreamConfig::resolve, (harness, None, None, omp), b),
    ensures
        a is Ok,
        b is Ok,
        a->Ok_0.auth_header@ == b->Ok_0.auth_header@,
        a->Ok_0.auth_prefix@ == b->Ok_0.auth_prefix@,
        a->Ok_0.api_key_env@ == b->Ok_0.api_key_env@,
        a->Ok_0.request_path@ == b->Ok_0.request_path@,
        a->Ok_0.response_format == b->Ok_0.response_format,
{
    crate::proxy_laws::law_base_changes_only_the_base(harness, explicit, detected, omp, omp);
}

/// [`HarnessType::Generic`] always takes its key from `ZAP_API_KEY` and sends it
/// as a bearer.
pub proof fn law_resolution_of_the_generic_harness(
    explicit: Option<&str>,
    detected: Option<&str>,
    omp: OmpSource,
    r: Result<UpstreamConfig, UpstreamError>,
)
    requires
        call_ensures(UpstreamConfig::resolve, (HarnessType::Generic, explicit, detected, omp), r),
    ensures
        r is Ok,
        r->Ok_0.auth_header@ == "authorization"@,
        r->Ok_0.auth_prefix@ == "Bearer "@,
        r->Ok_0.api_key_env@ == "ZAP_API_KEY"@,
        r->Ok_0.request_path@ == "/"@,
        r->Ok_0.response_format == ResponseFormat::Generic,
{
    crate::proxy_laws::law_api_of_each_harness(explicit, detected, omp);
}

/// Where the configuration of an upstream is, and which key it names where it
/// leaves that out.
pub proof fn law_defaults_of_a_configuration(home: &str, path: String, key: String)
    requires
        call_ensures(omp_config_path, (home,), path),
        call_ensures(default_key_env, (), key),
        home@.len() > 0,
        home@.last() != '/',
    ensures
        path@ == home@ + "/.config/zap/omp-upstream.json"@,
        key@ == "ZAP_API_KEY"@,
{
    reveal_strlit(".config");
    reveal_strlit("zap");
    reveal_strlit("omp-upstream.json");
    reveal_strlit("/.config/zap/omp-upstream.json");
    let config = home@ + seq!['/'] + ".config"@;
    assert(".config"@.last() == 'g');
    assert(config.last() == 'g');
    let zap = config + seq!['/'] + "zap"@;
    assert("zap"@.last() == 'p');
    assert(zap.last() == 'p');
    assert(crate::text::path_join(home@, ".config"@) =~= config);
    assert(crate::text::path_join(config, "zap"@) =~= zap);
    assert("/.config/zap/omp-upstream.json"@ =~= seq!['/'] + ".config"@ + seq!['/'] + "zap"@
        + seq!['/'] + "omp-upstream.json"@);
    assert(zap + seq!['/'] + "omp-upstream.json"@ =~= home@ + "/.config/zap/omp-upstream.json"@);
}

/// The authority is loaded where all its four files are there, and generated
/// where one is missing.
pub proof fn law_loading_the_authority(present: FilesPresent, r: CaPlan)
    requires
        call_ensures(ensure_local_ca, (present,), r),
    ensures
        r == CaPlan::Load ==> present.ca_cert && present.ca_key && present.server_cert
            && present.server_key,
        r == CaPlan::Generate ==> !present.ca_cert || !present.ca_key || !present.server_cert
            || !present.server_key,
{
}

/// A proxy is handed out with the port that it listens on and with the
/// certificate of the authority of the home directory.
pub proof fn law_handing_out_a_proxy(
    home: &str,
    port: u16,
    manager: ProxyManager,
    handle: ProxyHandle,
    ca: LocalCA,
)
    requires
        call_ensures(ProxyManager::new, (home,), manager),
        call_ensures(ProxyManager::allocate, (&manager, port), handle),
        call_ensures(LocalCA::in_home, (home,), ca),
    ensures
        handle.port == port,
        handle.ca_cert_path@ == ca.ca_cert_path@,
{
}

// ── sessions ─────────────────────────────────────────────────────────────

/// A session starts with the number zero.
pub proof fn law_start_of_a_session(session_id: &str, harness_type: &str, r: SessionContext)
    requires
        call_ensures(SessionContext::new, (session_id, harness_type), r),
    ensures
        r@.session_id == session_id@,
        r@.harness_type == harness_type@,
        r@.upcoming == 0,
{
}

/// Milliseconds that an `i64` holds are kept, and a clock before the epoch
/// counts as zero.
pub proof fn law_milliseconds(elapsed: Option<u128>, r: i64)
    requires
        call_ensures(epoch_ms, (elapsed,), r),
    ensures
        elapsed matches Some(millis) ==> (millis <= i64::MAX ==> r == millis),
        elapsed is None ==> r == 0,
{
}

/// A block has what it is made of, no parent and no metadata.
pub proof fn law_making_a_block(
    id: String,
    session_id: &str,
    harness_type: &str,
    block_type: BlockType,
    sequence: u32,
    content: Vec<u8>,
    timestamp: i64,
    r: HarnessBlock,
)
    requires
        call_ensures(
            HarnessBlock::with_id,
            (id, session_id, harness_type, block_type, sequence, content, timestamp),
            r,
        ),
    ensures
        r.id@ == id@,
        r.session_id@ == session_id@,
        r.parent_id is None,
        r.harness_type@ == harness_type@,
        r.block_type == block_type,
        r.sequence == sequence,
        r.content@ == content@,
        r.metadata@ == JsonView::Object(Map::empty()),
        r.timestamp == timestamp,
{
    assert(r@.parent_id is None);
}

/// A callback comes in under its name, on the server that a harness is told of.
pub proof fn law_address_of_a_callback(
    event: HookEvent,
    server: HookServer,
    path: String,
    base: String,
)
    requires
        call_ensures(HookEvent::path, (&event,), path),
        call_ensures(HookServer::base_url, (&server,), base),
    ensures
        path@ == "/hooks/"@ + (match event {
            HookEvent::UserPromptSubmit => "user_prompt_submit"@,
            HookEvent::PreToolUse => "pre_tool_use"@,
            HookEvent::PostToolUse => "post_tool_use"@,
            HookEvent::Stop => "stop"@,
        }),
        base@ == "http://127.0.0.1:"@ + crate::text::decimal(server.port as nat),
{
}

/// Reading a callback keeps its body as it came, beside its source and name.
pub proof fn law_reading_a_callback(event: HookEvent, body: Json, r: Draft)
    requires
        call_ensures(read_hook, (event, body), r),
    ensures
        r.metadata@ is Object,
        r.metadata@->Object_0.contains_key("raw"@),
        r.metadata@->Object_0["raw"@] == body@,
        event == HookEvent::UserPromptSubmit ==> r.block_type == BlockType::UserPrompt
            && r.content@ == encode_utf8(crate::request_laws::text_under(body@, "prompt"@)),
        event == HookEvent::PreToolUse ==> r.block_type == BlockType::ToolCall && r.content@
            == encode_utf8(crate::request_laws::text_under(body@, "tool_name"@)),
        event == HookEvent::PostToolUse ==> r.block_type == BlockType::ToolResult && r.content@
            == encode_utf8(crate::request_laws::text_under(body@, "tool_name"@)),
        event == HookEvent::Stop ==> r.block_type == BlockType::Exit,
{
    crate::session_laws::law_blocks_of_prompts_and_tools(body@);
    assert(r@.content == r.content@);
}

/// The mode is the explicit one, whatever the environment says, and else the one
/// that the environment names.
pub proof fn law_choosing_a_mode(
    explicit: Option<InterceptMode>,
    from_env: Option<&str>,
    r: InterceptMode,
)
    requires
        call_ensures(resolve_intercept_mode, (explicit, from_env), r),
    ensures
        explicit matches Some(mode) ==> r == mode,
        explicit is None && from_env is None ==> r == InterceptMode::Full,
        explicit is None && from_env is Some && from_env->0@ == "hooks_only"@ ==> r
            == InterceptMode::HooksOnly,
        explicit is None && from_env is Some && from_env->0@ == "bypass"@ ==> r
            == InterceptMode::Bypass,
        explicit is None && from_env is Some && from_env->0@ != "hooks_only"@ && from_env->0@
            != "bypass"@ ==> r == InterceptMode::Full,
{
    crate::session_laws::law_mode_of_a_session(
        InterceptMode::Full,
        None,
        match from_env {
            Some(name) => name@,
            None => Seq::empty(),
        },
    );
}

/// A harness learns of the hook server last, where hooks are on and there is a
/// server, and of nothing where they are off.
pub proof fn law_environment_of_a_harness(
    mode: InterceptMode,
    proxy: Option<&ProxyHandle>,
    url: &str,
    harness: HarnessType,
    r: Vec<(String, String)>,
)
    requires
        call_ensures(build_spawn_env, (mode, proxy, Some(url), harness), r),
    ensures
        mode == InterceptMode::Bypass ==> r@.len() == 0,
        mode != InterceptMode::Bypass ==> r@.len() > 0 && r@.last().0@ == "ZAP_HOOK_SERVER_URL"@
            && r@.last().1@ == url@,
        mode == InterceptMode::HooksOnly || mode == InterceptMode::Full && proxy is None ==> r@.len()
            == 1,
        mode == InterceptMode::Full && proxy is Some ==> r@.len() == 3,
{
    let pairs = crate::handler::pair_views(r@);
    assert(pairs.len() == r@.len());
    if mode != InterceptMode::Bypass {
        assert(pairs.last() == ("ZAP_HOOK_SERVER_URL"@, url@));
        assert(pairs[pairs.len() - 1] == (r@[r@.len() - 1].0@, r@[r@.len() - 1].1@));
    }
}

/// A summary counts all blocks that it is given, and has the time of the first
/// and of the last.
pub proof fn law_summing_up(session_id: &str, blocks: Vec<HarnessBlock>, r: SessionSummary)
    requires
        call_ensures(summarize, (session_id, &blocks), r),
    ensures
        r.session_id@ == session_id@,
        r.block_count == blocks@.len(),
        blocks@.len() > 0 ==> r.first_timestamp == Some(blocks@[0].timestamp) && r.last_timestamp
            == Some(blocks@[blocks@.len() - 1].timestamp),
        blocks@.len() == 0 ==> r.first_timestamp is None && r.last_timestamp is None,
{
}

// ── queries ──────────────────────────────────────────────────────────────

/// A block is found under its id, with the fields of its row, and nothing is
/// found where no row has the id.
pub proof fn law_finding_a_block(
    store: BlockStore,
    id: &str,
    r: Result<Option<HarnessBlock>, StoreError>,
)
    requires
        call_ensures(BlockStore::get_block, (&store, id), r),
        store.in_memory(),
    ensures
        r == Ok::<Option<HarnessBlock>, StoreError>(None) ==> !store.table().contains_key(id@),
        r is Ok && r->Ok_0 is Some ==> store.table().contains_key(id@)
            && r->Ok_0->0.session_id@ == store.table()[id@].session_id
            && r->Ok_0->0.block_type.name() == store.table()[id@].block_type
            && r->Ok_0->0.timestamp == store.table()[id@].timestamp && (store.table()[id@].content
            is Some ==> r->Ok_0->0.content@ == store.table()[id@].content->0),
{
    if r is Ok && r->Ok_0 is Some {
        let row = store.table()[id@];
        let block = r->Ok_0->0@;
        crate::record_laws::law_type_of_a_name(row.block_type, block.block_type);
        crate::record_laws::law_block_of_a_row(row, block.block_type);
    }
}

/// The blocks of a session are all of them, by ascending number.
pub proof fn law_listing_a_session(
    store: BlockStore,
    session_id: &str,
    r: Result<Vec<HarnessBlock>, StoreError>,
    row: BlockRecord,
)
    requires
        call_ensures(list_blocks_by_session, (&store, session_id), r),
        store.in_memory(),
        r is Ok,
        store.table().contains_key(row.id),
        store.table()[row.id] == row,
        row.session_id == session_id@,
    ensures
        exists|i: int|
            0 <= i < r->Ok_0@.len() && Some((#[trigger] r->Ok_0@[i])@) == crate::store::decoded(row),
{
    let wanted = crate::store::blocks_of(session_id@, None, None);
    let rows = crate::record_laws::law_blocks_of_a_query(store.table(), wanted, r->Ok_0@);
    crate::record_laws::law_rows_of_a_query(store.table(), wanted, rows, row, 0, 0);
    let i = choose|i: int| 0 <= i < rows.len() && rows[i] == row;
    assert(Some(r->Ok_0@[i]@) == crate::store::decoded(row));
}

/// Blocks that are listed by type are of that session and that type.
pub proof fn law_listing_a_type(
    store: BlockStore,
    session_id: &str,
    block_type: BlockType,
    r: Result<Vec<HarnessBlock>, StoreError>,
    i: int,
)
    requires
        call_ensures(list_blocks_by_type, (&store, session_id, block_type), r),
        store.in_memory(),
        r is Ok,
        0 <= i < r->Ok_0@.len(),
    ensures
        r->Ok_0@[i].session_id@ == session_id@,
        r->Ok_0@[i].block_type == block_type,
{
    let wanted = crate::store::blocks_of(session_id@, Some(block_type), None);
    let rows = crate::record_laws::law_blocks_of_a_query(store.table(), wanted, r->Ok_0@);
    crate::record_laws::law_rows_of_a_query(store.table(), wanted, rows, rows[i], 0, 0);
    assert(rows.contains(rows[i]));
    crate::record_laws::law_block_of_a_row(rows[i], block_type);
    assert(crate::store::decoded(rows[i]) == Some(r->Ok_0@[i]@));
}

/// Blocks that are listed under a parent have that parent.
pub proof fn law_listing_children(
    store: BlockStore,
    parent_id: &str,
    r: Result<Vec<HarnessBlock>, StoreError>,
    i: int,
)
    requires
        call_ensures(list_child_blocks, (&store, parent_id), r),
        store.in_memory(),
        r is Ok,
        0 <= i < r->Ok_0@.len(),
    ensures
        r->Ok_0@[i]@.parent_id == Some(parent_id@),
{
    let wanted = Wanted::Children { parent_id: parent_id@ };
    let rows = crate::record_laws::law_blocks_of_a_query(store.table(), wanted, r->Ok_0@);
    crate::record_laws::law_rows_of_a_query(store.table(), wanted, rows, rows[i], 0, 0);
    assert(rows.contains(rows[i]));
    assert(crate::store::decoded(rows[i]) == Some(r->Ok_0@[i]@));
}

/// Blocks that are listed as roots are of that session and have no parent.
pub proof fn law_listing_roots(
    store: BlockStore,
    session_id: &str,
    r: Result<Vec<HarnessBlock>, StoreError>,
    i: int,
)
    requires
        call_ensures(BlockStore::list_root_blocks, (&store, session_id), r),
        store.in_memory(),
        r is Ok,
        0 <= i < r->Ok_0@.len(),
    ensures
        r->Ok_0@[i]@.parent_id is None,
        r->Ok_0@[i].session_id@ == session_id@,
{
    let wanted = Wanted::Roots { session_id: session_id@ };
    let rows = crate::record_laws::law_blocks_of_a_query(store.table(), wanted, r->Ok_0@);
    crate::record_laws::law_rows_of_a_query(store.table(), wanted, rows, rows[i], 0, 0);
    assert(rows.contains(rows[i]));
    assert(crate::store::decoded(rows[i]) == Some(r->Ok_0@[i]@));
}

/// The system prompt of a session is one of its `SystemPrompt` blocks, and no
/// other of them has a greater number.
pub proof fn law_system_prompt_of_a_session(
    store: BlockStore,
    session_id: &str,
    r: Result<Option<HarnessBlock>, StoreError>,
    other: BlockRecord,
)
    requires
        call_ensures(get_system_prompt, (&store, session_id), r),
        store.in_memory(),
        r is Ok && r->Ok_0 is Some,
        crate::store::holds(store.table(), other),
        other.session_id == session_id@,
        other.block_type == "system_prompt"@,
        crate::store_laws::numbered_rows(store.table()),
    ensures
        r->Ok_0->0.session_id@ == session_id@,
        r->Ok_0->0.block_type == BlockType::SystemPrompt,
        other.sequence <= r->Ok_0->0.sequence,
{
    let wanted = crate::store::blocks_of(session_id@, Some(BlockType::SystemPrompt), None);
    let row = crate::record_laws::law_latest_block(
        store.table(),
        wanted,
        r->Ok_0->0@,
        other,
    );
    assert(crate::store::holds(store.table(), row));
    crate::record_laws::law_block_of_a_row(row, BlockType::SystemPrompt);
}

/// What a cache shows of a session are the payloads of that session, oldest
/// first.
pub proof fn law_looking_at_a_session(
    cache: RawCache,
    session_id: &str,
    r: Result<Vec<RawEntry>, StoreError>,
    i: int,
    j: int,
)
    requires
        call_ensures(RawCache::peek, (&cache, session_id), r),
        cache.in_memory(),
        r is Ok,
        0 <= i < j < r->Ok_0@.len(),
    ensures
        r->Ok_0@[i].session_id@ == session_id@,
        r->Ok_0@[i].timestamp <= r->Ok_0@[j].timestamp,
{
    let entries = r->Ok_0@;
    let rows = crate::record_laws::law_entries_of_a_session(cache.table(), session_id@, entries);
    assert(rows.contains(rows[i]));
    assert(entries[i]@ == crate::raw_cache::entry_of(rows[i]));
    crate::record_laws::law_entries_ascend(entries, i, j);
}

/// The count under a name is one that the summary has under that name.
pub proof fn law_looking_up_a_count(counts: TypeCounts, name: &str, r: Option<&u64>)
    requires
        call_ensures(TypeCounts::get, (&counts, name), r),
        r is Some,
    ensures
        exists|i: int|
            0 <= i < counts.entries@.len() && (#[trigger] counts.entries@[i]).0@ == name@
                && counts.entries@[i].1 == *r->0,
{
    let n = *r->0;
    let i = choose|i: int| 0 <= i < counts@.len() && counts@[i] == (name@, n);
    assert(counts.entries@[i].0@ == name@ && counts.entries@[i].1 == n);
}

/// The configuration file is read for [`HarnessType::Omp`] alone, and only where
/// no base is given.
pub proof fn law_reading_the_configuration(
    harness: HarnessType,
    explicit: Option<&str>,
    detected: Option<&str>,
    r: bool,
)
    requires
        call_ensures(UpstreamConfig::reads_omp_config, (harness, explicit, detected), r),
    ensures
        r <==> harness == HarnessType::Omp && explicit is None && detected is None,
{
}

/// A name that is not known is reported as it is.
pub proof fn law_reporting_unknown_names(
    t: UnknownBlockType,
    m: UnknownInterceptMode,
    a: String,
    b: String,
)
    requires
        call_ensures(UnknownBlockType::to_string, (&t,), a),
        call_ensures(UnknownInterceptMode::to_string, (&m,), b),
    ensures
        a@ == "unknown block type: "@ + t.0@,
        b@ == "unknown intercept mode: "@ + m.0@,
{
}

/// A session says how its servers are reached, and nothing of those that it does
/// not have.
pub proof fn law_reaching_the_servers(
    session: Integration,
    url: Option<String>,
    port: Option<u16>,
    path: Option<&str>,
)
    requires
        call_ensures(Integration::hook_url, (&session,), url),
        call_ensures(Integration::proxy_port, (&session,), port),
        call_ensures(Integration::ca_cert_path, (&session,), path),
    ensures
        session.hook_server matches Some(server) ==> url is Some && url->0@
            == "http://127.0.0.1:"@ + crate::text::decimal(server.port as nat),
        session.hook_server is None ==> url is None,
        session.proxy matches Some(handle) ==> port == Some(handle.port) && path is Some
            && path->0@ == handle.ca_cert_path@,
        session.proxy is None ==> port is None && path is None,
{
}

/// The map of an environment has the value of the last variable of each name.
pub proof fn law_mapping_an_environment(
    session: SpawnedSession,
    r: StringHashMap<String>,
)
    requires
        call_ensures(SpawnedSession::env_map, (&session,), r),
        session.env@.len() > 0,
    ensures
        r@.contains_key(session.env@.last().0@),
        r@[session.env@.last().0@]@ == session.env@.last().1@,
{
    let name = session.env@.last().0@;
    crate::session_laws::law_texts_of_values(r@, name);
    assert(crate::harness_spawn::env_map_of(session.env@).contains_key(name));
    assert(crate::harness_spawn::env_map_of(session.env@)[name] == session.env@.last().1@);
}

}
