//! Laws of JSON documents: what the accessors give of a document, and what a
//! document holds of its parts.
use vstd::prelude::*;

use crate::json::{Json, JsonView};

verus! {

/// An object gives the member under a key where it has the key, and nothing
/// else gives a member.
pub proof fn law_members(document: JsonView, entries: Map<Seq<char>, JsonView>, key: Seq<char>)
    ensures
        entries.contains_key(key) ==> (JsonView::Object(entries)).field(key) == Some(entries[key]),
        !entries.contains_key(key) ==> (JsonView::Object(entries)).field(key) is None,
        document.field(key) is Some <==> document is Object && document->Object_0.contains_key(key),
{
}

/// A string gives its characters, an array its items, and nothing else does.
pub proof fn law_texts_and_items(document: JsonView, t: Seq<char>, items: Seq<JsonView>)
    ensures
        (JsonView::Str(t)).text() == Some(t),
        document.text() is Some <==> document is Str,
        (JsonView::Array(items)).items() == Some(items),
        document.items() is Some <==> document is Array,
{
}

/// An integer gives itself as a `u64` or an `i64` where it fits, and nothing
/// else does.
pub proof fn law_integers(document: JsonView, n: int)
    ensures
        0 <= n <= 0xffff_ffff_ffff_ffff ==> (JsonView::Integer(n)).unsigned() is Some && (
        JsonView::Integer(n)).unsigned()->0 == n,
        document.unsigned() is Some <==> document is Integer && 0 <= document->Integer_0
            <= 0xffff_ffff_ffff_ffff,
        -0x8000_0000_0000_0000 <= n <= 0x7fff_ffff_ffff_ffff ==> (JsonView::Integer(
            n,
        )).signed() is Some && (JsonView::Integer(n)).signed()->0 == n,
        document.signed() is Some <==> document is Integer && -0x8000_0000_0000_0000
            <= document->Integer_0 <= 0x7fff_ffff_ffff_ffff,
{
}

/// A string member gives its characters; any other member, and a missing one,
/// gives none.
pub proof fn law_text_members(document: JsonView, key: Seq<char>, t: Seq<char>)
    ensures
        document.field(key) == Some(JsonView::Str(t)) ==> document.text_or_empty(key) == t,
        !(document.field(key) is Some && document.field(key)->0 is Str) ==> document.text_or_empty(
            key,
        ).len() == 0,
{
}

/// An integer member that a `u64` holds gives its value; any other member, and
/// a missing one, gives the default.
pub proof fn law_unsigned_members(document: JsonView, key: Seq<char>, default: u64, n: int)
    ensures
        document.field(key) == Some(JsonView::Integer(n)) && 0 <= n <= 0xffff_ffff_ffff_ffff
            ==> document.unsigned_or(key, default) == n,
        !(document.field(key) is Some && document.field(key)->0 is Integer && 0
            <= document.field(key)->0->Integer_0 <= 0xffff_ffff_ffff_ffff) ==> document.unsigned_or(
            key,
            default,
        ) == default,
{
}

/// The items of an array stand in the order in which they are held.
pub proof fn law_items_in_order(items: Seq<Json>)
    ensures
        crate::json::items_view(items).len() == items.len(),
        forall|i: int|
            0 <= i < items.len() ==> #[trigger] crate::json::items_view(items)[i] == items[i]@,
    decreases items.len(),
{
    if items.len() > 0 {
        law_items_in_order(items.drop_last());
    }
}

/// The members of an object are those of its entries, and of two entries with
/// one key the later counts: what stands behind overrides what stands before.
pub proof fn law_later_entries_count(a: Seq<(String, Json)>, b: Seq<(String, Json)>)
    ensures
        crate::json::entries_view(a + b) == crate::json::entries_view(a).union_prefer_right(
            crate::json::entries_view(b),
        ),
    decreases b.len(),
{
    if b.len() == 0 {
        assert(a + b =~= a);
        assert(crate::json::entries_view(a).union_prefer_right(crate::json::entries_view(b))
            =~= crate::json::entries_view(a));
    } else {
        law_later_entries_count(a, b.drop_last());
        assert((a + b).drop_last() =~= a + b.drop_last());
        assert(crate::json::entries_view(a + b) =~= crate::json::entries_view(
            a,
        ).union_prefer_right(crate::json::entries_view(b)));
    }
}

/// One entry makes an object of one member.
pub proof fn law_one_entry(key: String, value: Json)
    ensures
        crate::json::entries_view(seq![(key, value)]) == map![key@ => value@],
{
    let one = seq![(key, value)];
    assert(one.drop_last() =~= Seq::empty());
    assert(crate::json::entries_view(one.drop_last()) =~= Map::empty());
    assert(crate::json::entries_view(one) =~= map![key@ => value@]);
}

/// What each form of a document holds.
pub proof fn law_forms(json: Json)
    ensures
        json is Null <==> json@ is Null,
        json matches Json::Bool(b) ==> json@ == JsonView::Bool(b),
        json matches Json::Unsigned(n) ==> json@ == JsonView::Integer(n as int),
        json matches Json::Signed(n) ==> json@ == JsonView::Integer(n as int),
        json matches Json::Str(t) ==> json@ == JsonView::Str(t@),
        json matches Json::Array(items) ==> json@ == JsonView::Array(
            crate::json::items_view(items@),
        ),
        json matches Json::Object(entries) ==> json@ == JsonView::Object(
            crate::json::entries_view(entries@),
        ),
{
}

/// An array of restorable documents is restorable while a level of nesting is
/// left for it.
pub proof fn law_restorable_arrays(items: Seq<JsonView>, levels: nat)
    requires
        forall|i: int| 0 <= i < items.len() ==> crate::json::plain(#[trigger] items[i], levels),
    ensures
        crate::json::plain(JsonView::Array(items), levels + 1),
        levels + 1 == 127 ==> crate::json::restorable(JsonView::Array(items)),
{
}

/// An object of restorable documents is restorable while a level of nesting is
/// left for it, unless it has the key that is kept for unread text.
pub proof fn law_restorable_objects(entries: Map<Seq<char>, JsonView>, levels: nat)
    requires
        forall|k: Seq<char>|
            entries.contains_key(k) ==> crate::json::plain(#[trigger] entries[k], levels),
        !entries.contains_key("$serde_json::private::RawValue"@),
    ensures
        crate::json::plain(JsonView::Object(entries), levels + 1),
        levels + 1 == 127 ==> crate::json::restorable(JsonView::Object(entries)),
{
    let deeper = levels + 1;
    assert(crate::json::RAW_KEY@ == "$serde_json::private::RawValue"@);
    assert((deeper - 1) as nat == levels);
    assert forall|k: Seq<char>| entries.contains_key(k) implies k != crate::json::RAW_KEY@
        && crate::json::plain(#[trigger] entries[k], (deeper - 1) as nat) by {}
}

/// A document without parts is restorable, unless it is a number that is no
/// integer, or one beyond those of 64 bits.
pub proof fn law_restorable_leaves(b: bool, n: int, t: Seq<char>, levels: nat)
    ensures
        crate::json::plain(JsonView::Null, levels),
        crate::json::plain(JsonView::Bool(b), levels),
        crate::json::plain(JsonView::Str(t), levels),
        -0x8000_0000_0000_0000 <= n <= 0xffff_ffff_ffff_ffff ==> crate::json::plain(
            JsonView::Integer(n),
            levels,
        ),
{
}

}
