//! Laws of request bodies: which prompts a request gives, on the members of its
//! document.
use vstd::prelude::*;
use vstd::string::*;
use vstd::utf8::*;

use crate::block_builder::DraftView;
use crate::json::JsonView;
use crate::schema::BlockType;

verus! {

// ── content ──────────────────────────────────────────────────────────────

/// Whether a document is an object with `value` under `key`.
pub open spec fn carries(document: JsonView, key: Seq<char>, value: JsonView) -> bool {
    document matches JsonView::Object(members) && members.contains_key(key) && members[key] == value
}

/// Whether an item of a content is a text: an object whose `type` is `text` and
/// whose `text` is a string.
pub open spec fn is_text_item(item: JsonView) -> bool {
    &&& item is Object
    &&& item->Object_0.contains_key("type"@)
    &&& item->Object_0["type"@] == JsonView::Str("text"@)
    &&& item->Object_0.contains_key("text"@)
    &&& item->Object_0["text"@] is Str
}

/// The `text` members of those items that are texts, in order.
pub open spec fn item_texts(items: Seq<JsonView>) -> Seq<Seq<char>> {
    items.filter(|item: JsonView| is_text_item(item)).map_values(
        |item: JsonView| item->Object_0["text"@]->Str_0,
    )
}

/// The texts of a content are the `text` members of all its items of type
/// `text`, in order; items of other types are passed over.
pub proof fn law_texts_of_items(items: Seq<JsonView>)
    ensures
        crate::block_builder::block_texts(items) == item_texts(items),
    decreases items.len(),
{
    reveal(Seq::filter);
    let is_text = |item: JsonView| is_text_item(item);
    let text = |item: JsonView| item->Object_0["text"@]->Str_0;
    if items.len() == 0 {
        assert(item_texts(items) =~= Seq::empty());
    } else {
        let front = items.drop_last();
        law_texts_of_items(front);
        let kept = front.filter(is_text);
        if is_text_item(items.last()) {
            assert(kept.push(items.last()).map_values(text) =~= kept.map_values(text).push(
                text(items.last()),
            ));
        }
    }
}

/// The texts of two runs of items, one behind the other, are those of the first
/// and then those of the second.
pub proof fn law_texts_of_runs(a: Seq<JsonView>, b: Seq<JsonView>)
    ensures
        item_texts(a + b) == item_texts(a) + item_texts(b),
{
    let is_text = |item: JsonView| is_text_item(item);
    let text = |item: JsonView| item->Object_0["text"@]->Str_0;
    Seq::filter_distributes_over_add(a, b, is_text);
    assert((a.filter(is_text) + b.filter(is_text)).map_values(text) =~= a.filter(
        is_text,
    ).map_values(text) + b.filter(is_text).map_values(text));
}

/// An item that is a text adds its text, and an item that is none adds nothing,
/// wherever it stands.
pub proof fn law_one_item_more(before: Seq<JsonView>, item: JsonView, after: Seq<JsonView>)
    ensures
        !is_text_item(item) ==> item_texts(before + seq![item] + after) == item_texts(
            before + after,
        ),
        is_text_item(item) ==> item_texts(before + seq![item] + after) == item_texts(before) + seq![
            item->Object_0["text"@]->Str_0,
        ] + item_texts(after),
{
    reveal(Seq::filter);
    let is_text = |item: JsonView| is_text_item(item);
    law_texts_of_runs(before + seq![item], after);
    law_texts_of_runs(before, seq![item]);
    law_texts_of_runs(before, after);
    let one = seq![item];
    assert(one.drop_last() =~= Seq::empty());
    assert(one.drop_last().filter(is_text) =~= Seq::empty());
    if is_text_item(item) {
        assert(item_texts(one) =~= seq![item->Object_0["text"@]->Str_0]);
    } else {
        assert(item_texts(one) =~= Seq::empty());
        assert(item_texts(before) + item_texts(one) =~= item_texts(before));
    }
}

// ── user prompts ─────────────────────────────────────────────────────────

/// The prompt of a user with the text `text`, in a request for `model`.
pub open spec fn prompt(text: Seq<char>, model: Seq<char>) -> DraftView {
    DraftView {
        block_type: BlockType::UserPrompt,
        content: encode_utf8(text),
        metadata: JsonView::Object(
            map![
                "source"@ => JsonView::Str("anthropic_request"@),
                "model"@ => JsonView::Str(model),
            ],
        ),
    }
}

/// The prompts of two runs of messages, one behind the other, are those of the
/// first and then those of the second.
pub proof fn law_prompts_of_runs(a: Seq<JsonView>, b: Seq<JsonView>, model: Seq<char>)
    ensures
        crate::block_builder::user_drafts(a + b, model) == crate::block_builder::user_drafts(
            a,
            model,
        ) + crate::block_builder::user_drafts(b, model),
    decreases b.len(),
{
    if b.len() == 0 {
        assert(a + b =~= a);
        assert(crate::block_builder::user_drafts(a, model) + crate::block_builder::user_drafts(
            b,
            model,
        ) =~= crate::block_builder::user_drafts(a, model));
    } else {
        law_prompts_of_runs(a, b.drop_last(), model);
        assert((a + b).drop_last() =~= a + b.drop_last());
        assert(crate::block_builder::user_drafts(a + b, model)
            =~= crate::block_builder::user_drafts(a, model) + crate::block_builder::user_drafts(
            b,
            model,
        ));
    }
}

/// A message whose role is `user` gives one prompt. Its content is the string
/// that is the content of the message, or else the concatenation, in order, of
/// the `text` members of all items of the content whose type is `text`; it is
/// empty where the content is neither.
pub proof fn law_prompt_of_a_user_message(
    message: JsonView,
    items: Seq<JsonView>,
    text: Seq<char>,
    model: Seq<char>,
)
    requires
        carries(message, "role"@, JsonView::Str("user"@)),
    ensures
        carries(message, "content"@, JsonView::Array(items)) ==> crate::block_builder::user_drafts(
            seq![message],
            model,
        ) == seq![prompt(item_texts(items).flatten(), model)],
        carries(message, "content"@, JsonView::Str(text)) ==> crate::block_builder::user_drafts(
            seq![message],
            model,
        ) == seq![prompt(text, model)],
        !(message->Object_0.contains_key("content"@) && (message->Object_0["content"@] is Array
            || message->Object_0["content"@] is Str)) ==> crate::block_builder::user_drafts(
            seq![message],
            model,
        ) == seq![prompt(Seq::empty(), model)],
{
    let one = seq![message];
    assert(one.drop_last() =~= Seq::empty());
    assert(crate::block_builder::user_drafts(one.drop_last(), model).len() == 0);
    assert(message.text_or_empty("role"@) == "user"@);
    assert(crate::block_builder::user_drafts(one, model) =~= seq![
        prompt(crate::block_builder::user_text(message)->0, model),
    ]);
    reveal_strlit("");
    law_texts_of_items(items);
    crate::text_laws::law_join_without_separator(item_texts(items), ""@);
}

/// A message whose role is no string, or another one than `user`, gives no
/// prompt, and no more does a message without a role.
pub proof fn law_no_prompt_of_other_messages(message: JsonView, model: Seq<char>)
    requires
        !carries(message, "role"@, JsonView::Str("user"@)),
    ensures
        crate::block_builder::user_drafts(seq![message], model).len() == 0,
{
    let one = seq![message];
    assert(one.drop_last() =~= Seq::empty());
    assert(crate::block_builder::user_drafts(one.drop_last(), model).len() == 0);
    reveal_strlit("user");
    assert("user"@.len() == 4);
    assert(message.text_or_empty("role"@) != "user"@);
}

/// An item that is no text changes nothing of the prompt of a message, wherever
/// in the content it stands; and no other member of the message does.
pub proof fn law_only_texts_make_a_prompt(
    before: Seq<JsonView>,
    item: JsonView,
    after: Seq<JsonView>,
    message: JsonView,
    other: JsonView,
    model: Seq<char>,
)
    requires
        !is_text_item(item),
        carries(message, "role"@, JsonView::Str("user"@)),
        carries(other, "role"@, JsonView::Str("user"@)),
        carries(message, "content"@, JsonView::Array(before + seq![item] + after)),
        carries(other, "content"@, JsonView::Array(before + after)),
    ensures
        crate::block_builder::user_drafts(seq![message], model)
            == crate::block_builder::user_drafts(seq![other], model),
{
    law_one_item_more(before, item, after);
    law_prompt_of_a_user_message(message, before + seq![item] + after, Seq::empty(), model);
    law_prompt_of_a_user_message(other, before + after, Seq::empty(), model);
}

// ── requests ─────────────────────────────────────────────────────────────

/// The string under `key`, and the empty text where there is none.
pub open spec fn text_under(document: JsonView, key: Seq<char>) -> Seq<char> {
    if document is Object && document->Object_0.contains_key(key)
        && document->Object_0[key] is Str {
        document->Object_0[key]->Str_0
    } else {
        Seq::empty()
    }
}

/// Texts on lines of their own.
pub open spec fn on_lines(texts: Seq<Seq<char>>) -> Seq<char>
    decreases texts.len(),
{
    if texts.len() == 0 {
        Seq::empty()
    } else if texts.len() == 1 {
        texts[0]
    } else {
        texts[0] + seq!['\n'] + on_lines(texts.skip(1))
    }
}

proof fn lemma_join_is_on_lines(texts: Seq<Seq<char>>)
    ensures
        crate::text::join(texts, "\n"@) == on_lines(texts),
    decreases texts.len(),
{
    reveal_strlit("\n");
    assert("\n"@ =~= seq!['\n']);
    if texts.len() == 0 {
        crate::text_laws::law_join(texts, texts, Seq::empty(), "\n"@);
        assert(texts =~= Seq::empty());
        assert(crate::text::join(texts, "\n"@) =~= Seq::empty());
    } else {
        let rest = texts.skip(1);
        crate::text_laws::law_join(seq![texts[0]], rest, texts[0], "\n"@);
        if texts.len() == 1 {
            assert(texts =~= seq![texts[0]]);
        } else {
            lemma_join_is_on_lines(rest);
            assert(texts =~= seq![texts[0]] + rest);
        }
    }
}

/// The text of a system prompt: the string under `system`, or the texts of the
/// items there, on lines of their own.
pub open spec fn system_prompt(root: JsonView) -> Seq<char> {
    if root is Object && root->Object_0.contains_key("system"@)
        && root->Object_0["system"@] is Array {
        on_lines(item_texts(root->Object_0["system"@]->Array_0))
    } else {
        text_under(root, "system"@)
    }
}

/// The tools under `tools`, and `null` where there are none.
pub open spec fn tools_under(root: JsonView) -> JsonView {
    if root is Object && root->Object_0.contains_key("tools"@) {
        root->Object_0["tools"@]
    } else {
        JsonView::Null
    }
}

/// The items under `messages`, and none where there is no array.
pub open spec fn messages_under(root: JsonView) -> Seq<JsonView> {
    if root is Object && root->Object_0.contains_key("messages"@)
        && root->Object_0["messages"@] is Array {
        root->Object_0["messages"@]->Array_0
    } else {
        Seq::empty()
    }
}

/// A request with a system prompt or with tools gives a `SystemPrompt` with
/// the system prompt, the model and the tools, and then the prompts of its
/// messages; any other request gives the prompts of its messages alone.
pub proof fn law_request(root: JsonView)
    ensures
        system_prompt(root).len() > 0 || !(tools_under(root) is Null)
            ==> crate::block_builder::request_drafts(root) == seq![
            DraftView {
                block_type: BlockType::SystemPrompt,
                content: encode_utf8(system_prompt(root)),
                metadata: JsonView::Object(
                    map![
                        "source"@ => JsonView::Str("anthropic_request"@),
                        "model"@ => JsonView::Str(text_under(root, "model"@)),
                        "tools"@ => tools_under(root),
                    ],
                ),
            },
        ] + crate::block_builder::user_drafts(messages_under(root), text_under(root, "model"@)),
        system_prompt(root).len() == 0 && tools_under(root) is Null
            ==> crate::block_builder::request_drafts(root) == crate::block_builder::user_drafts(
            messages_under(root),
            text_under(root, "model"@),
        ),
{
    if root is Object && root->Object_0.contains_key("system"@)
        && root->Object_0["system"@] is Array {
        let items = root->Object_0["system"@]->Array_0;
        law_texts_of_items(items);
        lemma_join_is_on_lines(item_texts(items));
    }
    assert(crate::block_builder::system_text(root) == system_prompt(root));
    assert(crate::block_builder::request_messages(root) =~= messages_under(root));
    assert(Seq::<DraftView>::empty() + crate::block_builder::user_drafts(
        messages_under(root),
        text_under(root, "model"@),
    ) =~= crate::block_builder::user_drafts(messages_under(root), text_under(root, "model"@)));
}

/// A body gives what the document says that it holds, and nothing where it
/// holds none.
pub proof fn law_request_body(body: Seq<u8>, root: JsonView)
    ensures
        crate::json::read_document(body) == Some(root) ==> crate::block_builder::request_body_drafts(
            body,
        ) == crate::block_builder::request_drafts(root),
        crate::json::read_document(body) is None ==> crate::block_builder::request_body_drafts(
            body,
        ).len() == 0,
{
}

/// The text of a content, however it is asked for: a string is its own text,
/// of items the texts count, and nothing else has text. The texts of the items
/// follow one another, or stand on lines of their own.
pub proof fn law_content_text(text: Seq<char>, items: Seq<JsonView>, other: JsonView, sep: Seq<char>)
    ensures
        crate::block_builder::content_text(JsonView::Str(text), sep) == text,
        crate::block_builder::content_text(JsonView::Array(items), ""@) == item_texts(
            items,
        ).flatten(),
        crate::block_builder::content_text(JsonView::Array(items), "\n"@) == on_lines(
            item_texts(items),
        ),
        !(other is Str) && !(other is Array) ==> crate::block_builder::content_text(
            other,
            sep,
        ).len() == 0,
{
    reveal_strlit("");
    law_texts_of_items(items);
    crate::text_laws::law_join_without_separator(item_texts(items), ""@);
    lemma_join_is_on_lines(item_texts(items));
}

}
