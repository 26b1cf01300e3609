//! Laws of views: what a value says is what its fields hold.
use vstd::prelude::*;

use crate::block_builder::{Draft, ParsedResponse};
use crate::ca::{CertificateProfile, LocalCA};
use crate::event::{EventView, RawEvent};
use crate::handler::Header;
use crate::raw_cache::{RawEntry, RawRow};
use crate::raw_processor::Capture;
use crate::schema::HarnessBlock;
use crate::store::BlockRow;
use crate::upstream::UpstreamConfig;

verus! {

/// A draft says its type, content and metadata.
pub proof fn law_draft_says_its_fields(d: Draft, drafts: Seq<Draft>, i: int)
    ensures
        d@.block_type == d.block_type,
        d@.content == d.content@,
        d@.metadata == d.metadata@,
        crate::block_builder::draft_views(drafts).len() == drafts.len(),
        0 <= i < drafts.len() ==> crate::block_builder::draft_views(drafts)[i] == drafts[i]@,
{
}

/// A response says its text, model, stop reason and token counts.
pub proof fn law_response_says_its_fields(p: ParsedResponse)
    ensures
        p@.text == p.text@,
        p@.model == p.model@,
        p@.stop_reason == p.stop_reason@,
        p@.input_tokens == p.input_tokens,
        p@.output_tokens == p.output_tokens,
{
}

/// A block says all of its fields.
pub proof fn law_block_says_its_fields(b: HarnessBlock)
    ensures
        b@.id == b.id@,
        b@.session_id == b.session_id@,
        b.parent_id matches Some(p) ==> b@.parent_id == Some(p@),
        b.parent_id is None <==> b@.parent_id is None,
        b@.harness_type == b.harness_type@,
        b@.block_type == b.block_type,
        b@.sequence == b.sequence,
        b@.content == b.content@,
        b@.metadata == b.metadata@,
        b@.timestamp == b.timestamp,
{
}

/// A row of a block says all of its columns.
pub proof fn law_row_says_its_columns(row: BlockRow, rows: Seq<BlockRow>, i: int)
    ensures
        row@.id == row.id@,
        row@.session_id == row.session_id@,
        row.parent_id matches Some(p) ==> row@.parent_id == Some(p@),
        row.parent_id is None <==> row@.parent_id is None,
        row@.harness_type == row.harness_type@,
        row@.block_type == row.block_type@,
        row@.sequence == row.sequence,
        row.content matches Some(bytes) ==> row@.content == Some(bytes@),
        row.content is None <==> row@.content is None,
        row.metadata matches Some(text) ==> row@.metadata == Some(text@),
        row.metadata is None <==> row@.metadata is None,
        row@.timestamp == row.timestamp,
        crate::store::records(rows).len() == rows.len(),
        0 <= i < rows.len() ==> crate::store::records(rows)[i] == rows[i]@,
{
}

/// A payload and its row say all of their fields.
pub proof fn law_payload_says_its_fields(entry: RawEntry, row: RawRow, rows: Seq<RawRow>, i: int)
    ensures
        entry@.id == entry.id@,
        entry@.session_id == entry.session_id@,
        entry@.direction == entry.direction@,
        entry@.content == entry.content@,
        entry@.timestamp == entry.timestamp,
        row@.id == row.id@,
        row@.session_id == row.session_id@,
        row@.direction == row.direction@,
        row.content matches Some(bytes) ==> row@.content == Some(bytes@),
        row.content is None <==> row@.content is None,
        row@.timestamp == row.timestamp,
        crate::raw_cache::raw_records(rows).len() == rows.len(),
        0 <= i < rows.len() ==> crate::raw_cache::raw_records(rows)[i] == rows[i]@,
{
}

/// An event says all of its fields.
pub proof fn law_event_says_its_fields(event: RawEvent, events: Seq<RawEvent>, i: int)
    ensures
        event matches RawEvent::Request { id, method, path, headers, body } ==> event@
            == (EventView::Request {
            id,
            method: method@,
            path: path@,
            headers: headers@,
            body: body@,
        }),
        event matches RawEvent::ResponseChunk { id, seq, chunk } ==> event@
            == (EventView::ResponseChunk { id, seq, chunk: chunk@ }),
        event matches RawEvent::ResponseDone { id, status } ==> event@
            == (EventView::ResponseDone { id, status }),
        crate::raw_processor::event_views(events).len() == events.len(),
        0 <= i < events.len() ==> crate::raw_processor::event_views(events)[i] == events[i]@,
{
}

/// A payload that is complete says its direction and its bytes, and a chunk its
/// number and its bytes.
pub proof fn law_capture_says_its_fields(capture: Capture, chunks: Seq<(u64, Vec<u8>)>, i: int)
    ensures
        capture@.direction == capture.direction,
        capture@.body == capture.body@,
        crate::raw_processor::chunk_views(chunks).len() == chunks.len(),
        0 <= i < chunks.len() ==> crate::raw_processor::chunk_views(chunks)[i] == (
            chunks[i].0,
            chunks[i].1@,
        ),
{
}

/// A header says its name, and its value where that is text; pairs say both.
pub proof fn law_header_says_its_fields(
    header: Header,
    headers: Seq<Header>,
    pairs: Seq<(String, String)>,
    env: Seq<(&'static str, String)>,
    i: int,
)
    ensures
        header@.name == header.name@,
        header.value matches Some(v) ==> header@.value == Some(v@),
        header.value is None <==> header@.value is None,
        crate::handler::header_views(headers).len() == headers.len(),
        0 <= i < headers.len() ==> crate::handler::header_views(headers)[i] == headers[i]@,
        crate::handler::pair_views(pairs).len() == pairs.len(),
        0 <= i < pairs.len() ==> crate::handler::pair_views(pairs)[i] == (
            pairs[i].0@,
            pairs[i].1@,
        ),
        crate::manager::env_views(env).len() == env.len(),
        0 <= i < env.len() ==> crate::manager::env_views(env)[i] == (env[i].0@, env[i].1@),
{
}

/// An upstream says its base, how it is authorized, where requests go and in
/// which form responses come.
pub proof fn law_upstream_says_its_fields(config: UpstreamConfig)
    ensures
        config@.api_base == config.api_base@,
        config@.auth_header == config.auth_header@,
        config@.auth_prefix == config.auth_prefix@,
        config@.api_key_env == config.api_key_env@,
        config@.request_path == config.request_path@,
        config@.response_format == config.response_format,
{
}

/// An authority says where its files are, and a profile what it says of the
/// holder of a certificate.
pub proof fn law_authority_says_its_fields(ca: LocalCA, profile: CertificateProfile, i: int)
    ensures
        ca@.dir == ca.dir@,
        ca@.ca_cert_path == ca.ca_cert_path@,
        ca@.ca_key_path == ca.ca_key_path@,
        ca@.server_cert_path == ca.server_cert_path@,
        ca@.server_key_path == ca.server_key_path@,
        profile@.common_name == profile.common_name@,
        profile@.alternative_names.len() == profile.alternative_names@.len(),
        0 <= i < profile.alternative_names@.len() ==> profile@.alternative_names[i]
            == profile.alternative_names@[i]@,
        profile@.role == profile.role,
        profile@.key_uses == profile.key_uses@,
        profile@.extended_uses == profile.extended_uses@,
{
}

}
