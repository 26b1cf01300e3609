//! Laws of response bodies: what a response says, on the members of its
//! document or of the events of its stream.
use vstd::prelude::*;
use vstd::string::*;
use vstd::utf8::*;

use crate::block_builder::{DraftView, ResponseView};
use crate::json::JsonView;
use crate::schema::BlockType;

verus! {

/// The integer under `key` where a `u64` holds it, and `default` else.
pub open spec fn count_under(document: JsonView, key: Seq<char>, default: int) -> int {
    if document is Object && document->Object_0.contains_key(key) && document->Object_0[key]
        is Integer && 0 <= document->Object_0[key]->Integer_0 <= 0xffff_ffff_ffff_ffff {
        document->Object_0[key]->Integer_0
    } else {
        default
    }
}

/// What stands under `key`, and `null` where nothing does.
pub open spec fn under(document: JsonView, key: Seq<char>) -> JsonView {
    if document is Object && document->Object_0.contains_key(key) {
        document->Object_0[key]
    } else {
        JsonView::Null
    }
}

/// Whether a document is an object with something under `key`.
pub open spec fn bears(document: JsonView, key: Seq<char>) -> bool {
    document is Object && document->Object_0.contains_key(key)
}

// ── documents ────────────────────────────────────────────────────────────

/// The text of a JSON response is the concatenation, in order, of the `text`
/// members of exactly those items of its content whose type is `text`, and
/// empty where its content is no array. The model and the stop reason are the
/// strings under these names, and the token counts those of its usage, zero
/// where they are missing.
pub proof fn law_json_response(root: JsonView)
    ensures
        under(root, "content"@) is Array ==> crate::block_builder::json_response(root).text
            == crate::request_laws::item_texts(under(root, "content"@)->Array_0).flatten(),
        !(under(root, "content"@) is Array) ==> crate::block_builder::json_response(
            root,
        ).text.len() == 0,
        crate::block_builder::json_response(root).model == crate::request_laws::text_under(
            root,
            "model"@,
        ),
        crate::block_builder::json_response(root).stop_reason == crate::request_laws::text_under(
            root,
            "stop_reason"@,
        ),
        crate::block_builder::json_response(root).input_tokens == count_under(
            under(root, "usage"@),
            "input_tokens"@,
            0,
        ),
        crate::block_builder::json_response(root).output_tokens == count_under(
            under(root, "usage"@),
            "output_tokens"@,
            0,
        ),
{
    reveal_strlit("");
    if under(root, "content"@) is Array {
        let items = under(root, "content"@)->Array_0;
        crate::request_laws::law_texts_of_items(items);
        crate::text_laws::law_join_without_separator(
            crate::request_laws::item_texts(items),
            ""@,
        );
    }
}

/// An item that is no text changes nothing of the text of a JSON response,
/// wherever in the content it stands, the end included; and no member but the
/// content does.
pub proof fn law_only_texts_make_a_response(
    before: Seq<JsonView>,
    item: JsonView,
    after: Seq<JsonView>,
    root: JsonView,
    other: JsonView,
)
    requires
        !crate::request_laws::is_text_item(item),
        crate::request_laws::carries(
            root,
            "content"@,
            JsonView::Array(before + seq![item] + after),
        ),
        crate::request_laws::carries(other, "content"@, JsonView::Array(before + after)),
    ensures
        crate::block_builder::json_response(root).text == crate::block_builder::json_response(
            other,
        ).text,
{
    crate::request_laws::law_one_item_more(before, item, after);
    law_json_response(root);
    law_json_response(other);
}

// ── events ───────────────────────────────────────────────────────────────

/// Whether the `type` of an event is `kind`.
pub open spec fn is_kind(event: JsonView, kind: Seq<char>) -> bool {
    under(event, "type"@) == JsonView::Str(kind)
}

/// The text that an event says: the string under `text` of its `delta`, where
/// the event is a `content_block_delta` and the delta a `text_delta`.
pub open spec fn said(event: JsonView) -> Seq<char> {
    if is_kind(event, "content_block_delta"@) && is_kind(under(event, "delta"@), "text_delta"@) {
        crate::request_laws::text_under(under(event, "delta"@), "text"@)
    } else {
        Seq::empty()
    }
}

proof fn lemma_kinds_differ()
    ensures
        "message_start"@ != "content_block_delta"@,
        "message_start"@ != "message_delta"@,
        "message_delta"@ != "content_block_delta"@,
{
    reveal_strlit("message_start");
    reveal_strlit("message_delta");
    reveal_strlit("content_block_delta");
    assert("message_start"@[8] == 's');
    assert("message_delta"@[8] == 'd');
    assert("message_start"@[0] == 'm');
    assert("message_delta"@[0] == 'm');
    assert("content_block_delta"@[0] == 'c');
}

/// A stream without events says nothing.
pub proof fn law_silent_stream()
    ensures
        crate::block_builder::after_events(Seq::empty()) == (ResponseView {
            text: Seq::empty(),
            model: Seq::empty(),
            stop_reason: Seq::empty(),
            input_tokens: 0,
            output_tokens: 0,
        }),
{
}

proof fn lemma_one_more(events: Seq<JsonView>, event: JsonView)
    ensures
        crate::block_builder::after_events(events.push(event)) == crate::block_builder::after_event(
            crate::block_builder::after_events(events),
            event,
        ),
{
    assert(events.push(event).drop_last() =~= events);
}

/// Every event adds the text that it says to the text of the response, and
/// nothing else, whatever its other members are. So a `content_block_delta`
/// whose delta has the type `text_delta` and a string under `text` adds exactly
/// that string.
pub proof fn law_event_adds_what_it_says(events: Seq<JsonView>, event: JsonView, text: Seq<char>)
    ensures
        crate::block_builder::after_events(events.push(event)).text
            == crate::block_builder::after_events(events).text + said(event),
        is_kind(event, "content_block_delta"@) && is_kind(under(event, "delta"@), "text_delta"@)
            && under(under(event, "delta"@), "text"@) == JsonView::Str(text)
            ==> crate::block_builder::after_events(events.push(event)).text
            == crate::block_builder::after_events(events).text + text,
{
    lemma_one_more(events, event);
    lemma_kinds_differ();
    let before = crate::block_builder::after_events(events).text;
    assert(before + Seq::<char>::empty() =~= before);
}

/// Two events with one type and one delta add the same text, whatever else they
/// hold.
pub proof fn law_only_type_and_delta_add_text(events: Seq<JsonView>, a: JsonView, b: JsonView)
    requires
        a is Object,
        b is Object,
        under(a, "type"@) == under(b, "type"@),
        under(a, "delta"@) == under(b, "delta"@),
    ensures
        crate::block_builder::after_events(events.push(a)).text
            == crate::block_builder::after_events(events.push(b)).text,
{
    law_event_adds_what_it_says(events, a, Seq::empty());
    law_event_adds_what_it_says(events, b, Seq::empty());
}

/// The text of a streamed response is what its events say, one behind the
/// other.
pub proof fn law_stream_says_its_deltas(events: Seq<JsonView>)
    ensures
        crate::block_builder::after_events(events).text == events.map_values(
            |e: JsonView| said(e),
        ).flatten(),
    decreases events.len(),
{
    let all = events.map_values(|e: JsonView| said(e));
    all.lemma_flatten_and_flatten_alt_are_equivalent();
    if events.len() > 0 {
        let front = events.drop_last();
        let before = front.map_values(|e: JsonView| said(e));
        law_stream_says_its_deltas(front);
        before.lemma_flatten_and_flatten_alt_are_equivalent();
        assert(all.drop_last() =~= before);
        law_event_adds_what_it_says(front, events.last(), Seq::empty());
        assert(front.push(events.last()) =~= events);
    }
}

/// The model is that of the last `message_start` with a message, and empty
/// where that names none: other events leave it.
pub proof fn law_model_of_a_stream(events: Seq<JsonView>, event: JsonView)
    ensures
        is_kind(event, "message_start"@) && bears(event, "message"@)
            ==> crate::block_builder::after_events(events.push(event)).model
            == crate::request_laws::text_under(under(event, "message"@), "model"@),
        !(is_kind(event, "message_start"@) && bears(event, "message"@))
            ==> crate::block_builder::after_events(events.push(event)).model
            == crate::block_builder::after_events(events).model,
{
    lemma_one_more(events, event);
    lemma_kinds_differ();
}

/// The stop reason is that of the last `message_delta` with a delta, and empty
/// where that names none: other events leave it.
pub proof fn law_stop_reason_of_a_stream(events: Seq<JsonView>, event: JsonView)
    ensures
        is_kind(event, "message_delta"@) && bears(event, "delta"@)
            ==> crate::block_builder::after_events(events.push(event)).stop_reason
            == crate::request_laws::text_under(under(event, "delta"@), "stop_reason"@),
        !(is_kind(event, "message_delta"@) && bears(event, "delta"@))
            ==> crate::block_builder::after_events(events.push(event)).stop_reason
            == crate::block_builder::after_events(events).stop_reason,
{
    lemma_one_more(events, event);
    lemma_kinds_differ();
}

/// The input tokens are those of the last `message_start` whose message has a
/// usage, none where that counts none: other events leave them.
pub proof fn law_input_tokens_of_a_stream(events: Seq<JsonView>, event: JsonView)
    ensures
        is_kind(event, "message_start"@) && bears(under(event, "message"@), "usage"@)
            ==> crate::block_builder::after_events(events.push(event)).input_tokens == count_under(
            under(under(event, "message"@), "usage"@),
            "input_tokens"@,
            0,
        ),
        !(is_kind(event, "message_start"@) && bears(under(event, "message"@), "usage"@))
            ==> crate::block_builder::after_events(events.push(event)).input_tokens
            == crate::block_builder::after_events(events).input_tokens,
{
    lemma_one_more(events, event);
    lemma_kinds_differ();
}

/// The output tokens are those that the usage of the last `message_delta` that
/// counts them counts, or of a later `message_start`, where that has a usage:
/// one where it counts none. Other events leave them.
pub proof fn law_output_tokens_of_a_stream(events: Seq<JsonView>, event: JsonView)
    ensures
        is_kind(event, "message_start"@) && bears(under(event, "message"@), "usage"@)
            ==> crate::block_builder::after_events(events.push(event)).output_tokens == count_under(
            under(under(event, "message"@), "usage"@),
            "output_tokens"@,
            1,
        ),
        is_kind(event, "message_delta"@) ==> crate::block_builder::after_events(
            events.push(event),
        ).output_tokens == count_under(
            under(event, "usage"@),
            "output_tokens"@,
            crate::block_builder::after_events(events).output_tokens as int,
        ),
        !(is_kind(event, "message_start"@) && bears(under(event, "message"@), "usage"@)) && !is_kind(
            event,
            "message_delta"@,
        ) ==> crate::block_builder::after_events(events.push(event)).output_tokens
            == crate::block_builder::after_events(events).output_tokens,
{
    lemma_one_more(events, event);
    lemma_kinds_differ();
}

/// An event that is no `message_start`, `content_block_delta` or
/// `message_delta` changes nothing, and neither does what is no event.
pub proof fn law_other_events_do_not_count(events: Seq<JsonView>, event: JsonView)
    requires
        !is_kind(event, "message_start"@),
        !is_kind(event, "content_block_delta"@),
        !is_kind(event, "message_delta"@),
    ensures
        crate::block_builder::after_events(events.push(event))
            == crate::block_builder::after_events(events),
{
    lemma_one_more(events, event);
}

/// A stream is a response where it has an event, and says then what its events
/// say.
pub proof fn law_stream_with_events_is_a_response(events: Seq<JsonView>)
    ensures
        events.len() > 0 ==> crate::block_builder::stream_response(events) == Some(
            crate::block_builder::after_events(events),
        ),
        events.len() == 0 ==> crate::block_builder::stream_response(events) is None,
{
}

// ── lines ────────────────────────────────────────────────────────────────

/// A line carries what follows `data:`, and the one blank behind it, where it
/// begins with `data:` once the whitespace round it is taken off; no other line
/// carries anything.
pub proof fn law_data_lines(line: Seq<char>, payload: Seq<char>)
    ensures
        crate::text::trim(line) == "data: "@ + payload ==> crate::block_builder::data_payload(line)
            == Some(payload),
        crate::text::trim(line) == "data:"@ + payload && (payload.len() == 0 || payload[0] != ' ')
            ==> crate::block_builder::data_payload(line) == Some(payload),
        crate::block_builder::data_payload(line) is Some <==> crate::text::trim(line).len() >= 5
            && crate::text::trim(line)[0] == 'd' && crate::text::trim(line)[1] == 'a'
            && crate::text::trim(line)[2] == 't' && crate::text::trim(line)[3] == 'a'
            && crate::text::trim(line)[4] == ':',
{
    reveal_strlit("data: ");
    reveal_strlit("data:");
    let l = crate::text::trim(line);
    assert("data: "@.len() == 6);
    assert("data:"@.len() == 5);
    if l == "data: "@ + payload {
        assert(l.take(6) =~= "data: "@);
        assert(l.skip(6) =~= payload);
    }
    if l == "data:"@ + payload && (payload.len() == 0 || payload[0] != ' ') {
        assert(l.take(5) =~= "data:"@);
        assert(l.skip(5) =~= payload);
        if crate::text::starts_with(l, "data: "@) {
            assert(l.take(6)[5] == ' ');
            assert(l[5] == payload[0]);
        }
    }
    if l.len() >= 5 && l[0] == 'd' && l[1] == 'a' && l[2] == 't' && l[3] == 'a' && l[4] == ':' {
        assert(l.take(5) =~= "data:"@);
    }
    if crate::text::starts_with(l, "data:"@) {
        assert forall|i: int| 0 <= i < 5 implies l[i] == "data:"@[i] by {
            assert(l.take(5)[i] == l[i]);
        }
    }
    if crate::text::starts_with(l, "data: "@) {
        assert forall|i: int| 0 <= i < 5 implies l[i] == "data: "@[i] by {
            assert(l.take(6)[i] == l[i]);
        }
    }
}

/// The events of two runs of lines, one behind the other, are those of the
/// first and then those of the second.
pub proof fn law_events_of_runs(a: Seq<Seq<char>>, b: Seq<Seq<char>>)
    ensures
        crate::block_laws::line_events(a + b) == crate::block_laws::line_events(a)
            + crate::block_laws::line_events(b),
{
    crate::block_laws::lemma_line_events_add(a, b);
}

/// A line gives the document that its payload holds, and nothing where it
/// carries none.
pub proof fn law_event_of_a_line(line: Seq<char>, event: JsonView)
    ensures
        crate::block_builder::data_payload(line) is Some && crate::json::read_document(
            encode_utf8(crate::block_builder::data_payload(line)->0),
        ) == Some(event) ==> crate::block_laws::line_events(seq![line]) == seq![event],
        !(crate::block_builder::data_payload(line) is Some && crate::json::read_document(
            encode_utf8(crate::block_builder::data_payload(line)->0),
        ) is Some) ==> crate::block_laws::line_events(seq![line]).len() == 0,
{
    let one = seq![line];
    assert(one.drop_last() =~= Seq::empty());
    assert(crate::block_builder::data_payloads(one.drop_last()).len() == 0);
    let payloads = crate::block_builder::data_payloads(one);
    if payloads.len() > 0 {
        assert(payloads.drop_last() =~= Seq::empty());
        assert(crate::block_builder::payload_events(payloads.drop_last()).len() == 0);
        assert(payloads.last() == crate::block_builder::data_payload(line)->0);
        if crate::json::read_document(encode_utf8(payloads.last())) == Some(event) {
            assert(crate::block_builder::payload_events(payloads) =~= seq![event]);
        }
    }
}

/// The events of a stream are those of its lines.
pub proof fn law_events_of_a_text(text: Seq<char>)
    ensures
        crate::block_builder::stream_events(text) == crate::block_laws::line_events(
            crate::text::lines(text),
        ),
{
}

// ── texts and bodies ─────────────────────────────────────────────────────

/// A text whose first character that is no whitespace is a brace is read as a
/// document; any other is read as a stream.
pub proof fn law_text_of_a_response(lead: Seq<char>, rest: Seq<char>, text: Seq<char>)
    requires
        crate::text_laws::blank(lead),
        rest.len() > 0 ==> !crate::text::white_space(rest[0]),
        text == lead + rest,
    ensures
        rest.len() > 0 && rest[0] == '{' ==> crate::block_builder::text_response(text) == (
        match crate::json::read_document(encode_utf8(text)) {
            Some(root) => Some(crate::block_builder::json_response(root)),
            None => None,
        }),
        !(rest.len() > 0 && rest[0] == '{') ==> crate::block_builder::text_response(text)
            == crate::block_builder::stream_response(crate::block_builder::stream_events(text)),
{
    lemma_visible(lead, rest);
}

proof fn lemma_visible(lead: Seq<char>, rest: Seq<char>)
    requires
        crate::text_laws::blank(lead),
        rest.len() > 0 ==> !crate::text::white_space(rest[0]),
    ensures
        crate::text::trim_start(lead + rest) == rest,
    decreases lead.len(),
{
    if lead.len() == 0 {
        assert(lead + rest =~= rest);
    } else {
        let less = lead.skip(1);
        assert((lead + rest).skip(1) =~= less + rest);
        assert((lead + rest)[0] == lead[0]);
        assert forall|i: int| 0 <= i < less.len() implies crate::text::white_space(
            #[trigger] less[i],
        ) by {
            assert(less[i] == lead[i + 1]);
        }
        lemma_visible(less, rest);
    }
}

/// A response gives one `Response` block, with its text as content and with its
/// source, model, stop reason and usage as metadata; what is no response gives
/// no block.
pub proof fn law_block_of_a_response(response: ResponseView)
    ensures
        crate::block_builder::response_drafts(None).len() == 0,
        crate::block_builder::response_drafts(Some(response)) == seq![
            DraftView {
                block_type: BlockType::Response,
                content: encode_utf8(response.text),
                metadata: JsonView::Object(
                    map![
                        "source"@ => JsonView::Str("anthropic_response"@),
                        "model"@ => JsonView::Str(response.model),
                        "stop_reason"@ => JsonView::Str(response.stop_reason),
                        "usage"@ => JsonView::Object(
                            map![
                                "input_tokens"@ => JsonView::Integer(response.input_tokens as int),
                                "output_tokens"@ => JsonView::Integer(
                                    response.output_tokens as int,
                                ),
                            ],
                        ),
                    ],
                ),
            },
        ],
{
}

/// A body gives the block of the response that its text is.
pub proof fn law_response_body(body: Seq<u8>)
    ensures
        crate::block_builder::response_body_drafts(body) == crate::block_builder::response_drafts(
            crate::block_builder::text_response(crate::text::lossy_text(body)),
        ),
{
}

}
