//! JSON documents as plain values.
//!
//! [`Json`] holds a document in a form that can be read, taken apart and built
//! up; `serde_json` reads documents from bytes and writes them to text.
use vstd::prelude::*;
use vstd::string::*;
use vstd::utf8::*;

use crate::text::same_text;

verus! {

/// The dynamically typed document of `serde_json`.
#[verifier::external_type_specification]
#[verifier::external_body]
pub struct ExValue(serde_json::Value);

/// The failure of `serde_json` to read or write a document.
#[verifier::external_type_specification]
#[verifier::external_body]
pub struct ExJsonError(serde_json::Error);

/// What a document says, without regard to how it is held.
pub enum JsonView {
    Null,
    Bool(bool),
    /// A number without fraction or exponent, from `i64::MIN` to `u64::MAX`.
    Integer(int),
    /// Any other number, by the shortest decimal text that names its double.
    Float(Seq<char>),
    Str(Seq<char>),
    Array(Seq<JsonView>),
    Object(Map<Seq<char>, JsonView>),
}

/// A JSON document.
///
/// Where a key occurs twice in an object, the later entry counts.
#[derive(Debug)]
pub enum Json {
    Null,
    Bool(bool),
    Unsigned(u64),
    Signed(i64),
    /// A number that is no integer, in decimal.
    Float(String),
    Str(String),
    Array(Vec<Json>),
    Object(Vec<(String, Json)>),
}

/// The shortest decimal text of the double that `text` names, or of zero where
/// `text` names no finite double.
pub uninterp spec fn double_text(text: Seq<char>) -> Seq<char>;

/// Whether `serde_json` finds two documents equal: numbers that are no integers
/// compare as doubles, so that zero equals minus zero.
pub uninterp spec fn equal_documents(a: JsonView, b: JsonView) -> bool;

/// The document that a `serde_json` value holds.
pub uninterp spec fn contents(value: serde_json::Value) -> JsonView;

/// The document that `serde_json` reads from `bytes`, if it reads one.
pub uninterp spec fn read_document(bytes: Seq<u8>) -> Option<JsonView>;

/// The text in which `serde_json` writes a document.
pub uninterp spec fn written(document: JsonView) -> Seq<char>;

impl JsonView {
    /// The member `key` of an object.
    pub open spec fn field(self, key: Seq<char>) -> Option<JsonView> {
        match self {
            JsonView::Object(entries) => if entries.contains_key(key) {
                Some(entries[key])
            } else {
                None
            },
            _ => None,
        }
    }

    /// The characters of a string.
    pub open spec fn text(self) -> Option<Seq<char>> {
        match self {
            JsonView::Str(t) => Some(t),
            _ => None,
        }
    }

    /// The items of an array.
    pub open spec fn items(self) -> Option<Seq<JsonView>> {
        match self {
            JsonView::Array(items) => Some(items),
            _ => None,
        }
    }

    /// An integer that a `u64` holds.
    pub open spec fn unsigned(self) -> Option<u64> {
        match self {
            JsonView::Integer(n) => if 0 <= n <= u64::MAX {
                Some(n as u64)
            } else {
                None
            },
            _ => None,
        }
    }

    /// An integer that an `i64` holds.
    pub open spec fn signed(self) -> Option<i64> {
        match self {
            JsonView::Integer(n) => if i64::MIN <= n <= i64::MAX {
                Some(n as i64)
            } else {
                None
            },
            _ => None,
        }
    }

    /// The characters of the string member `key`, or none where there is no such member.
    pub open spec fn text_or_empty(self, key: Seq<char>) -> Seq<char> {
        match self.field(key) {
            Some(v) => match v.text() {
                Some(t) => t,
                None => Seq::empty(),
            },
            None => Seq::empty(),
        }
    }

    /// The unsigned integer member `key`, or `default` where there is no such member.
    pub open spec fn unsigned_or(self, key: Seq<char>, default: u64) -> u64 {
        match self.field(key) {
            Some(v) => match v.unsigned() {
                Some(n) => n,
                None => default,
            },
            None => default,
        }
    }
}

impl Json {
    pub open spec fn view(&self) -> JsonView
        decreases self,
    {
        match self {
            Json::Null => JsonView::Null,
            Json::Bool(b) => JsonView::Bool(*b),
            Json::Unsigned(n) => JsonView::Integer(*n as int),
            Json::Signed(n) => JsonView::Integer(*n as int),
            Json::Float(t) => JsonView::Float(double_text(t@)),
            Json::Str(t) => JsonView::Str(t@),
            Json::Array(items) => JsonView::Array(items_view(items@)),
            Json::Object(entries) => JsonView::Object(entries_view(entries@)),
        }
    }
}

pub open spec fn items_view(items: Seq<Json>) -> Seq<JsonView>
    decreases items,
{
    if items.len() == 0 {
        Seq::empty()
    } else {
        items_view(items.drop_last()).push(items.last().view())
    }
}

pub open spec fn entries_view(entries: Seq<(String, Json)>) -> Map<Seq<char>, JsonView>
    decreases entries,
{
    if entries.len() == 0 {
        Map::empty()
    } else {
        entries_view(entries.drop_last()).insert(entries.last().0@, entries.last().1.view())
    }
}

// ── the boundary with serde_json ─────────────────────────────────────────

/// The outermost level of a `serde_json` value.
pub enum Layer {
    Null,
    Bool(bool),
    Unsigned(u64),
    Signed(i64),
    Float(String),
    Str(String),
    Array(Vec<serde_json::Value>),
    Object(Vec<(String, serde_json::Value)>),
}

impl Layer {
    /// The document whose outermost level this is.
    pub open spec fn document(&self) -> JsonView {
        match self {
            Layer::Null => JsonView::Null,
            Layer::Bool(b) => JsonView::Bool(*b),
            Layer::Unsigned(n) => JsonView::Integer(*n as int),
            Layer::Signed(n) => JsonView::Integer(*n as int),
            Layer::Float(t) => JsonView::Float(double_text(t@)),
            Layer::Str(t) => JsonView::Str(t@),
            Layer::Array(items) => JsonView::Array(
                items@.map_values(|v: serde_json::Value| contents(v)),
            ),
            Layer::Object(entries) => JsonView::Object(members(entries@)),
        }
    }

    /// Whether no key occurs twice.
    pub open spec fn distinct_keys(&self) -> bool {
        self matches Layer::Object(entries) ==> forall|i: int, j: int|
            0 <= i < j < entries@.len() ==> (#[trigger] entries@[i]).0@ != (#[trigger] entries@[j]).0@
    }
}

/// The members of an object by key; the later entry counts.
pub open spec fn members(entries: Seq<(String, serde_json::Value)>) -> Map<Seq<char>, JsonView>
    decreases entries.len(),
{
    if entries.len() == 0 {
        Map::empty()
    } else {
        members(entries.drop_last()).insert(entries.last().0@, contents(entries.last().1))
    }
}

/// The key by which `serde_json` marks the text of a document that it holds
/// unread.
pub const RAW_KEY: &'static str = "$serde_json::private::RawValue";

/// Whether a document has no fractional number, no key that `serde_json` keeps
/// for itself, and at most `levels` arrays and objects inside one another.
pub open spec fn plain(document: JsonView, levels: nat) -> bool
    decreases levels,
{
    match document {
        JsonView::Float(_) => false,
        JsonView::Integer(n) => i64::MIN <= n <= u64::MAX,
        JsonView::Array(items) => levels > 0 && forall|i: int|
            0 <= i < items.len() ==> plain(#[trigger] items[i], (levels - 1) as nat),
        JsonView::Object(entries) => levels > 0 && forall|k: Seq<char>|
            entries.contains_key(k) ==> k != RAW_KEY@ && plain(
                #[trigger] entries[k],
                (levels - 1) as nat,
            ),
        _ => true,
    }
}

/// Whether reading the text of `document` gives `document` back: it does
/// where nesting stays within the depth that the reader accepts, no number
/// passes through binary floating point, and no key is [`RAW_KEY`].
pub open spec fn restorable(document: JsonView) -> bool {
    plain(document, 127)
}

/// Matches on `serde_json::Value`: the variant and its fields. A number is
/// `Unsigned` where `Number::as_u64` gives it, else `Signed` where
/// `Number::as_i64` does, else `Float` with the text that `Number` displays.
/// The keys of an object are distinct.
#[verifier::external_body]
fn open_value(value: serde_json::Value) -> (r: Layer)
    ensures
        r.document() == contents(value),
        r.distinct_keys(),
        r matches Layer::Float(t) ==> contents(value) == JsonView::Float(double_text(t@)),
{
    match value {
        serde_json::Value::Null => Layer::Null,
        serde_json::Value::Bool(b) => Layer::Bool(b),
        serde_json::Value::Number(n) => match (n.as_u64(), n.as_i64()) {
            (Some(u), _) => Layer::Unsigned(u),
            (None, Some(i)) => Layer::Signed(i),
            (None, None) => Layer::Float(n.to_string()),
        },
        serde_json::Value::String(s) => Layer::Str(s),
        serde_json::Value::Array(items) => Layer::Array(items),
        serde_json::Value::Object(entries) => Layer::Object(entries.into_iter().collect()),
    }
}

/// Builds a `serde_json::Value` of one variant from its fields. A `Float` text
/// becomes the double that it names (`Number::from_f64`), or zero where it
/// names no finite double; of entries with one key, `Map` keeps the last.
#[verifier::external_body]
fn close_value(layer: Layer) -> (r: serde_json::Value)
    ensures
        contents(r) == layer.document(),
{
    let double = |t: String| serde_json::Number::from_f64(t.parse().unwrap_or_default());
    match layer {
        Layer::Null => serde_json::Value::Null,
        Layer::Bool(b) => serde_json::Value::Bool(b),
        Layer::Unsigned(n) => serde_json::Value::from(n),
        Layer::Signed(n) => serde_json::Value::from(n),
        Layer::Float(t) => serde_json::Value::Number(
            double(t).or(double(String::new())).unwrap(),
        ),
        Layer::Str(t) => serde_json::Value::String(t),
        Layer::Array(items) => serde_json::Value::Array(items),
        Layer::Object(entries) => serde_json::Value::Object(entries.into_iter().collect()),
    }
}

/// `serde_json::from_slice` into a `Value`: `read_document` names what it
/// gives for the same bytes, and it fails where that is nothing.
#[verifier::external_body]
fn read_value(bytes: &[u8]) -> (r: Result<serde_json::Value, serde_json::Error>)
    ensures
        match r {
            Ok(v) => read_document(bytes@) == Some(contents(v)),
            Err(_) => read_document(bytes@) is None,
        },
{
    serde_json::from_slice(bytes)
}

/// `serde_json::to_string` of a `Value`: it does not fail on one, `written`
/// names the text, and reading the text of a restorable document gives the
/// document back.
#[verifier::external_body]
fn write_value(value: &serde_json::Value) -> (r: Result<String, serde_json::Error>)
    ensures
        match r {
            Ok(t) => t@ == written(contents(*value)) && (restorable(contents(*value))
                ==> read_document(encode_utf8(t@)) == Some(contents(*value))),
            Err(_) => false,
        },
{
    serde_json::to_string(value)
}

/// `==` on `serde_json::Value`: `equal_documents` names what it gives. A
/// document equals itself, and of two restorable documents nothing else.
#[verifier::external_body]
fn same_value(a: &serde_json::Value, b: &serde_json::Value) -> (r: bool)
    ensures
        r == equal_documents(contents(*a), contents(*b)),
        contents(*a) == contents(*b) ==> r,
        restorable(contents(*a)) && restorable(contents(*b)) ==> r == (contents(*a) == contents(
            *b,
        )),
{
    a == b
}

// ── documents ────────────────────────────────────────────────────────────

proof fn lemma_members_dom(entries: Seq<(String, serde_json::Value)>)
    ensures
        members(entries).dom().finite(),
        forall|i: int|
            0 <= i < entries.len() ==> members(entries).contains_key((#[trigger] entries[i]).0@),
    decreases entries.len(),
{
    if entries.len() > 0 {
        lemma_members_dom(entries.drop_last());
        assert forall|i: int| 0 <= i < entries.len() implies members(entries).contains_key(
            (#[trigger] entries[i]).0@,
        ) by {
            if i < entries.len() - 1 {
                assert(entries.drop_last()[i] == entries[i]);
            }
        }
    }
}

proof fn lemma_members_at(entries: Seq<(String, serde_json::Value)>, i: int)
    requires
        0 <= i < entries.len(),
        forall|a: int, b: int|
            0 <= a < b < entries.len() ==> (#[trigger] entries[a]).0@ != (#[trigger] entries[b]).0@,
    ensures
        members(entries).contains_key(entries[i].0@),
        members(entries)[entries[i].0@] == contents(entries[i].1),
    decreases entries.len(),
{
    if i < entries.len() - 1 {
        assert(entries.drop_last()[i] == entries[i]);
        assert(entries[i].0@ != entries[entries.len() - 1].0@);
        assert forall|a: int, b: int| 0 <= a < b < entries.drop_last().len() implies (
        #[trigger] entries.drop_last()[a]).0@ != (#[trigger] entries.drop_last()[b]).0@ by {
            assert(entries.drop_last()[a] == entries[a]);
            assert(entries.drop_last()[b] == entries[b]);
        }
        lemma_members_at(entries.drop_last(), i);
    }
}

impl Json {
    /// The document that a `serde_json` value holds.
    pub fn from_value(value: serde_json::Value) -> (r: Json)
        ensures
            r@ == contents(value),
        decreases contents(value),
    {
        let ghost whole = contents(value);
        match open_value(value) {
            Layer::Null => Json::Null,
            Layer::Bool(b) => Json::Bool(b),
            Layer::Unsigned(n) => Json::Unsigned(n),
            Layer::Signed(n) => Json::Signed(n),
            Layer::Float(t) => Json::Float(t),
            Layer::Str(t) => Json::Str(t),
            Layer::Array(items) => {
                let ghost all = items@;
                let ghost views = all.map_values(|v: serde_json::Value| contents(v));
                let mut out: Vec<Json> = Vec::new();
                for item in it: items
                    invariant
                        it.seq() == all,
                        views == all.map_values(|v: serde_json::Value| contents(v)),
                        whole == JsonView::Array(views),
                        whole == contents(value),
                        items_view(out@) == views.take(it.index()),
                {
                    assert(contents(item) == views[it.index()]);
                    assert(decreases_to!(whole => whole->Array_0));
                    assert(decreases_to!(views => views[it.index()]));
                    let ghost before = out@;
                    out.push(Json::from_value(item));
                    assert(out@.drop_last() =~= before);
                    assert(views.take(it.index() + 1) =~= views.take(it.index()).push(
                        views[it.index()],
                    ));
                }
                assert(views.take(views.len() as int) =~= views);
                Json::Array(out)
            },
            Layer::Object(entries) => {
                let ghost all = entries@;
                let mut out: Vec<(String, Json)> = Vec::new();
                assert(all.take(0) =~= Seq::empty());
                for entry in it: entries
                    invariant
                        it.seq() == all,
                        whole == JsonView::Object(members(all)),
                        whole == contents(value),
                        forall|a: int, b: int|
                            0 <= a < b < all.len() ==> (#[trigger] all[a]).0@ != (#[trigger] all[b]).0@,
                        entries_view(out@) == members(all.take(it.index())),
                {
                    proof {
                        lemma_members_dom(all);
                        lemma_members_at(all, it.index());
                        assert(entry == all[it.index()]);
                        let m = members(all);
                        assert(decreases_to!(whole => whole->Object_0));
                        assert(decreases_to!(m => m[entry.0@]));
                    }
                    let ghost before = out@;
                    let (key, value) = entry;
                    out.push((key, Json::from_value(value)));
                    assert(out@.drop_last() =~= before);
                    assert(all.take(it.index() + 1).drop_last() =~= all.take(it.index()));
                }
                assert(all.take(all.len() as int) =~= all);
                Json::Object(out)
            },
        }
    }

    /// The `serde_json` value of this document.
    pub fn to_value(&self) -> (r: serde_json::Value)
        ensures
            contents(r) == self@,
        decreases self,
    {
        let layer = match self {
            Json::Null => Layer::Null,
            Json::Bool(b) => Layer::Bool(*b),
            Json::Unsigned(n) => Layer::Unsigned(*n),
            Json::Signed(n) => Layer::Signed(*n),
            Json::Float(t) => Layer::Float(t.clone()),
            Json::Str(t) => Layer::Str(t.clone()),
            Json::Array(items) => {
                let mut out: Vec<serde_json::Value> = Vec::new();
                let ghost view = |v: serde_json::Value| contents(v);
                assert(out@.map_values(view) =~= items_view(items@.take(0)));
                let mut i: usize = 0;
                while i < items.len()
                    invariant
                        self matches Json::Array(all) && all == items,
                        i <= items@.len(),
                        view == (|v: serde_json::Value| contents(v)),
                        out@.map_values(view) == items_view(items@.take(i as int)),
                    decreases items@.len() - i,
                {
                    let item = items[i].to_value();
                    let ghost before = out@;
                    out.push(item);
                    proof {
                        assert(items@.take(i + 1).drop_last() =~= items@.take(i as int));
                        assert(out@.map_values(view) =~= before.map_values(view).push(contents(item)));
                    }
                    i = i + 1;
                }
                assert(items@.take(items@.len() as int) =~= items@);
                Layer::Array(out)
            },
            Json::Object(entries) => {
                let mut out: Vec<(String, serde_json::Value)> = Vec::new();
                assert(entries@.take(0) =~= Seq::empty());
                let mut i: usize = 0;
                while i < entries.len()
                    invariant
                        self matches Json::Object(all) && all == entries,
                        i <= entries@.len(),
                        members(out@) == entries_view(entries@.take(i as int)),
                    decreases entries@.len() - i,
                {
                    let value = entries[i].1.to_value();
                    let ghost before = out@;
                    out.push((entries[i].0.clone(), value));
                    proof {
                        assert(entries@.take(i + 1).drop_last() =~= entries@.take(i as int));
                        assert(out@.drop_last() =~= before);
                    }
                    i = i + 1;
                }
                assert(entries@.take(entries@.len() as int) =~= entries@);
                Layer::Object(out)
            },
        };
        close_value(layer)
    }

    /// Reads a document from bytes; `None` where they hold none.
    pub fn parse(bytes: &[u8]) -> (r: Option<Json>)
        ensures
            match r {
                Some(j) => read_document(bytes@) == Some(j@),
                None => read_document(bytes@) is None,
            },
    {
        match read_value(bytes) {
            Ok(value) => Some(Json::from_value(value)),
            Err(_) => None,
        }
    }

    /// The text of the document, in which [`Json::parse`] finds it again where
    /// it is restorable.
    pub fn to_text(&self) -> (r: Option<String>)
        ensures
            match r {
                Some(t) => t@ == written(self@) && (restorable(self@) ==> read_document(
                    encode_utf8(t@),
                ) == Some(self@)),
                None => false,
            },
    {
        write_value(&self.to_value()).ok()
    }

    /// The member `key` of an object.
    pub fn get(&self, key: &str) -> (r: Option<&Json>)
        ensures
            match r {
                Some(j) => self@.field(key@) == Some(j@),
                None => self@.field(key@) is None,
            },
    {
        match self {
            Json::Object(entries) => {
                let mut i: usize = entries.len();
                assert(entries@.take(i as int) =~= entries@);
                while i > 0
                    invariant
                        i <= entries@.len(),
                        self matches Json::Object(all) && all == entries,
                        entries_view(entries@).contains_key(key@) == entries_view(
                            entries@.take(i as int),
                        ).contains_key(key@),
                        entries_view(entries@.take(i as int)).contains_key(key@)
                            ==> entries_view(entries@)[key@] == entries_view(
                            entries@.take(i as int),
                        )[key@],
                    decreases i,
                {
                    i = i - 1;
                    assert(entries@.take(i + 1).drop_last() =~= entries@.take(i as int));
                    if same_text(entries[i].0.as_str(), key) {
                        return Some(&entries[i].1);
                    }
                }
                None
            },
            _ => None,
        }
    }

    /// The characters of a string.
    pub fn as_str(&self) -> (r: Option<&str>)
        ensures
            match r {
                Some(t) => self@.text() == Some(t@),
                None => self@.text() is None,
            },
    {
        match self {
            Json::Str(t) => Some(t.as_str()),
            _ => None,
        }
    }

    /// The items of an array.
    pub fn as_array(&self) -> (r: Option<&Vec<Json>>)
        ensures
            match r {
                Some(items) => self@.items() == Some(items_view(items@)),
                None => self@.items() is None,
            },
    {
        match self {
            Json::Array(items) => Some(items),
            _ => None,
        }
    }

    /// An integer that a `u64` holds.
    pub fn as_u64(&self) -> (r: Option<u64>)
        ensures
            r == self@.unsigned(),
    {
        match self {
            Json::Unsigned(n) => Some(*n),
            Json::Signed(n) => if *n >= 0 {
                Some(*n as u64)
            } else {
                None
            },
            _ => None,
        }
    }

    /// An integer that an `i64` holds.
    pub fn as_i64(&self) -> (r: Option<i64>)
        ensures
            r == self@.signed(),
    {
        match self {
            Json::Unsigned(n) => if *n <= 9223372036854775807u64 {
                Some(*n as i64)
            } else {
                None
            },
            Json::Signed(n) => Some(*n),
            _ => None,
        }
    }

    /// Whether the document is `null`.
    pub fn is_null(&self) -> (r: bool)
        ensures
            r == (self@ is Null),
    {
        matches!(self, Json::Null)
    }

    /// Whether the document is an array.
    pub fn is_array(&self) -> (r: bool)
        ensures
            r == (self@ is Array),
    {
        matches!(self, Json::Array(_))
    }

    /// The characters of the string member `key`, or none where there is no such member.
    pub fn text_or_empty(&self, key: &str) -> (r: String)
        ensures
            r@ == self@.text_or_empty(key@),
    {
        match self.get(key) {
            Some(v) => match v.as_str() {
                Some(t) => t.to_string(),
                None => String::new(),
            },
            None => String::new(),
        }
    }

    /// The unsigned integer member `key`, or `default` where there is no such member.
    pub fn unsigned_or(&self, key: &str, default: u64) -> (r: u64)
        ensures
            r == self@.unsigned_or(key@, default),
    {
        match self.get(key) {
            Some(v) => match v.as_u64() {
                Some(n) => n,
                None => default,
            },
            None => default,
        }
    }
}

/// Sets the member `key` of an object under construction.
pub fn put(entries: &mut Vec<(String, Json)>, key: &str, value: Json)
    ensures
        entries_view(final(entries)@) == entries_view(old(entries)@).insert(key@, value@),
{
    let ghost before = entries@;
    entries.push((key.to_string(), value));
    assert(entries@.drop_last() =~= before);
}

/// The string `t` as a document.
pub fn text_json(t: &str) -> (r: Json)
    ensures
        r@ == JsonView::Str(t@),
{
    Json::Str(t.to_string())
}

/// Documents are equal where `serde_json` finds them equal.
impl PartialEq for Json {
    fn eq(&self, other: &Json) -> (r: bool) {
        same_value(&self.to_value(), &other.to_value())
    }
}

impl vstd::std_specs::cmp::PartialEqSpecImpl for Json {
    open spec fn obeys_eq_spec() -> bool {
        true
    }

    open spec fn eq_spec(&self, other: &Json) -> bool {
        equal_documents(self@, other@)
    }
}

impl Clone for Json {
    fn clone(&self) -> (r: Json)
        ensures
            r@ == self@,
        decreases self,
    {
        match self {
            Json::Null => Json::Null,
            Json::Bool(b) => Json::Bool(*b),
            Json::Unsigned(n) => Json::Unsigned(*n),
            Json::Signed(n) => Json::Signed(*n),
            Json::Float(t) => Json::Float(t.clone()),
            Json::Str(t) => Json::Str(t.clone()),
            Json::Array(items) => {
                let mut out: Vec<Json> = Vec::new();
                assert(items@.take(0) =~= Seq::empty());
                let mut i: usize = 0;
                while i < items.len()
                    invariant
                        self matches Json::Array(all) && all == items,
                        i <= items@.len(),
                        items_view(out@) == items_view(items@.take(i as int)),
                    decreases items@.len() - i,
                {
                    let ghost before = out@;
                    let item = items[i].clone();
                    out.push(item);
                    proof {
                        assert(items@.take(i + 1).drop_last() =~= items@.take(i as int));
                        assert(out@.drop_last() =~= before);
                    }
                    i = i + 1;
                }
                assert(items@.take(items@.len() as int) =~= items@);
                Json::Array(out)
            },
            Json::Object(entries) => {
                let mut out: Vec<(String, Json)> = Vec::new();
                assert(entries@.take(0) =~= Seq::empty());
                let mut i: usize = 0;
                while i < entries.len()
                    invariant
                        self matches Json::Object(all) && all == entries,
                        i <= entries@.len(),
                        entries_view(out@) == entries_view(entries@.take(i as int)),
                    decreases entries@.len() - i,
                {
                    let ghost before = out@;
                    let value = entries[i].1.clone();
                    out.push((entries[i].0.clone(), value));
                    proof {
                        assert(entries@.take(i + 1).drop_last() =~= entries@.take(i as int));
                        assert(out@.drop_last() =~= before);
                    }
                    i = i + 1;
                }
                assert(entries@.take(entries@.len() as int) =~= entries@);
                Json::Object(out)
            },
        }
    }
}

}
