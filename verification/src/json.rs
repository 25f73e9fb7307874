//! JSON documents, held as `serde_json::Value`.
//!
//! Verus cannot look inside a `serde_json::Value`, so this module gives the
//! logic a mathematical picture of one, [`JsonData`], and a small set of
//! operations on values whose contracts are stated over that picture. The
//! contracts of these operations are not proved: they restate what
//! `serde_json` does, built with its `preserve_order` feature, under which a
//! JSON object keeps its members in the order in which they were inserted.
//! Everything else in the crate is proved on top of them.

use vstd::prelude::*;

verus! {

/// What a JSON document holds.
pub ghost enum JsonData {
    /// `null`.
    Null,
    /// `true` or `false`.
    Bool(bool),
    /// A number written as a non-negative integer that fits 64 bits.
    Natural(nat),
    /// Any other number (negative, fractional, or beyond 64 bits), by its
    /// numeral.
    OtherNumber(Seq<char>),
    /// A string.
    Text(Seq<char>),
    /// An array.
    List(Seq<JsonData>),
    /// An object: its members in order, no two under the same key.
    Record(Seq<(Seq<char>, JsonData)>),
}

/// The value of the first member under `key` among `fields`, if there is
/// one.
pub open spec fn lookup(fields: Seq<(Seq<char>, JsonData)>, key: Seq<char>) -> Option<JsonData>
    decreases fields.len(),
{
    if fields.len() == 0 {
        None
    } else if fields.first().0 == key {
        Some(fields.first().1)
    } else {
        lookup(fields.drop_first(), key)
    }
}

/// `fields` after `key` has been set to `value`: the first member under
/// `key` keeps its place and takes the new value; where there is none, the
/// member is added at the end.
pub open spec fn put(fields: Seq<(Seq<char>, JsonData)>, key: Seq<char>, value: JsonData) -> Seq<
    (Seq<char>, JsonData),
>
    decreases fields.len(),
{
    if fields.len() == 0 {
        seq![(key, value)]
    } else if fields.first().0 == key {
        seq![(key, value)] + fields.drop_first()
    } else {
        seq![fields.first()] + put(fields.drop_first(), key, value)
    }
}

/// The members that result from setting `entries` one after the other,
/// starting from an empty object.
pub open spec fn collect(entries: Seq<(Seq<char>, JsonData)>) -> Seq<(Seq<char>, JsonData)>
    decreases entries.len(),
{
    if entries.len() == 0 {
        Seq::empty()
    } else {
        put(collect(entries.drop_last()), entries.last().0, entries.last().1)
    }
}

impl JsonData {
    /// The object without members.
    pub open spec fn record() -> JsonData {
        JsonData::Record(Seq::empty())
    }

    /// This object with `key` set to `value`. Anything but an object is
    /// left as it is.
    pub open spec fn with(self, key: Seq<char>, value: JsonData) -> JsonData {
        match self {
            JsonData::Record(fields) => JsonData::Record(put(fields, key, value)),
            _ => self,
        }
    }

    /// This object with `key` set to `value` where there is a value, and
    /// unchanged where there is none.
    pub open spec fn with_some(self, key: Seq<char>, value: Option<JsonData>) -> JsonData {
        match value {
            Some(v) => self.with(key, v),
            None => self,
        }
    }

    /// The member under `key`, where this is an object that has one.
    pub open spec fn member(self, key: Seq<char>) -> Option<JsonData> {
        match self {
            JsonData::Record(fields) => lookup(fields, key),
            _ => None,
        }
    }

    /// Whether this is an object with a member under `key`.
    pub open spec fn has_key(self, key: Seq<char>) -> bool {
        self.member(key) is Some
    }
}

/// `serde_json::Value`, a JSON document in memory. Nothing is known of one
/// but what the operations below say.
#[verifier::external_type_specification]
#[verifier::external_body]
pub struct ExValue(serde_json::Value);

/// `serde_json::Error`, what `serde_json` reports for a text that it cannot
/// read. Nothing is known of one.
#[verifier::external_type_specification]
#[verifier::external_body]
pub struct ExError(serde_json::Error);

/// What the value `v` holds.
pub uninterp spec fn json_data(v: serde_json::Value) -> JsonData;

/// The text that `serde_json::to_string` writes for a document: JSON on one
/// line, without spaces between tokens.
pub uninterp spec fn compact_text(d: JsonData) -> Seq<char>;

/// The text that `serde_json::to_string_pretty` writes for a document: JSON
/// with one member or element per line, indented by two spaces per level.
pub uninterp spec fn pretty_text(d: JsonData) -> Seq<char>;

/// The document that `serde_json::from_str` reads from a text, or `None`
/// where it reports an error: the text is not one JSON document.
pub uninterp spec fn parsed_text(text: Seq<char>) -> Option<JsonData>;

/// What each of `items` holds.
pub open spec fn items_data(items: Seq<serde_json::Value>) -> Seq<JsonData> {
    items.map_values(|v: serde_json::Value| json_data(v))
}

/// The key and the content of each of `entries`.
pub open spec fn entries_data(entries: Seq<(String, serde_json::Value)>) -> Seq<
    (Seq<char>, JsonData),
> {
    entries.map_values(|e: (String, serde_json::Value)| (e.0@, json_data(e.1)))
}

/// The object that results from setting `entries` one after the other.
pub open spec fn record_of(entries: Seq<(String, serde_json::Value)>) -> JsonData {
    JsonData::Record(collect(entries_data(entries)))
}

/// `serde_json::Value::Null`: the value that holds `null`.
#[verifier::external_body]
pub(crate) fn null_value() -> (v: serde_json::Value)
    ensures
        json_data(v) == JsonData::Null,
{
    serde_json::Value::Null
}

/// `serde_json::Value::Bool`: the value that holds the given boolean.
#[verifier::external_body]
pub(crate) fn bool_value(b: bool) -> (v: serde_json::Value)
    ensures
        json_data(v) == JsonData::Bool(b),
{
    serde_json::Value::Bool(b)
}

/// `From<u32> for serde_json::Value`: the value that holds the number `n`,
/// kept as a non-negative integer.
#[verifier::external_body]
pub(crate) fn number_value(n: u32) -> (v: serde_json::Value)
    ensures
        json_data(v) == JsonData::Natural(n as nat),
{
    serde_json::Value::from(n)
}

/// `serde_json::Value::String`: the value that holds the given string.
#[verifier::external_body]
pub(crate) fn text_value(s: String) -> (v: serde_json::Value)
    ensures
        json_data(v) == JsonData::Text(s@),
{
    serde_json::Value::String(s)
}

/// `serde_json::Value::Array`: the value that holds the given values as the
/// elements of an array, in their order.
#[verifier::external_body]
pub(crate) fn list_value(items: Vec<serde_json::Value>) -> (v: serde_json::Value)
    ensures
        json_data(v) == JsonData::List(items_data(items@)),
{
    serde_json::Value::Array(items)
}

/// `serde_json::Value::Object` over a `serde_json::Map` collected from the
/// given entries: collecting inserts them one after the other, so a key
/// that comes again replaces the value and keeps the place of its first
/// entry.
#[verifier::external_body]
pub(crate) fn record_value(entries: Vec<(String, serde_json::Value)>) -> (v: serde_json::Value)
    ensures
        json_data(v) == record_of(entries@),
{
    serde_json::Value::Object(entries.into_iter().collect())
}

/// `serde_json::Value::is_null`: whether the value holds `null`.
#[verifier::external_body]
pub(crate) fn is_null(v: &serde_json::Value) -> (b: bool)
    ensures
        b == (json_data(*v) is Null),
{
    v.is_null()
}

/// `serde_json::Value::is_object`: whether the value holds an object.
#[verifier::external_body]
pub(crate) fn is_record(v: &serde_json::Value) -> (b: bool)
    ensures
        b == (json_data(*v) is Record),
{
    v.is_object()
}

/// `serde_json::Value::as_u64`: the number that the value holds, where it
/// holds a non-negative integer that fits 64 bits.
#[verifier::external_body]
pub(crate) fn as_natural(v: &serde_json::Value) -> (n: Option<u64>)
    ensures
        match n {
            Some(n) => json_data(*v) == JsonData::Natural(n as nat),
            None => !(json_data(*v) is Natural),
        },
{
    v.as_u64()
}

/// `serde_json::Value::as_str`: the string that the value holds, where it
/// holds one.
#[verifier::external_body]
pub(crate) fn as_text(v: &serde_json::Value) -> (s: Option<&str>)
    ensures
        match s {
            Some(s) => json_data(*v) == JsonData::Text(s@),
            None => !(json_data(*v) is Text),
        },
{
    v.as_str()
}

/// `serde_json::Value::as_array`: the elements of the array that the value
/// holds, where it holds one.
#[verifier::external_body]
pub(crate) fn as_list(v: &serde_json::Value) -> (items: Option<&Vec<serde_json::Value>>)
    ensures
        match items {
            Some(items) => json_data(*v) == JsonData::List(items_data(items@)),
            None => !(json_data(*v) is List),
        },
{
    v.as_array()
}

/// `serde_json::Value::get` with a string: the member under `key`, where
/// the value holds an object that has one.
#[verifier::external_body]
pub(crate) fn member<'a>(v: &'a serde_json::Value, key: &str) -> (m: Option<&'a serde_json::Value>)
    ensures
        match m {
            Some(m) => json_data(*v).member(key@) == Some(json_data(*m)),
            None => json_data(*v).member(key@) is None,
        },
{
    v.get(key)
}

/// `serde_json::to_string` on a value. It reports an error only for a map
/// key that is no string or a failing writer, and a value has neither.
#[verifier::external_body]
pub(crate) fn to_compact_text(v: &serde_json::Value) -> (text: String)
    ensures
        text@ == compact_text(json_data(*v)),
{
    serde_json::to_string(v).unwrap_or_default()
}

/// `serde_json::to_string_pretty` on a value. It reports an error only for
/// a map key that is no string or a failing writer, and a value has neither.
#[verifier::external_body]
pub(crate) fn to_pretty_text(v: &serde_json::Value) -> (text: String)
    ensures
        text@ == pretty_text(json_data(*v)),
{
    serde_json::to_string_pretty(v).unwrap_or_default()
}

/// `serde_json::from_str` into a value: the document that the text holds,
/// or the error that `serde_json` reports for it.
#[verifier::external_body]
pub(crate) fn parse_text(text: &str) -> (r: Result<serde_json::Value, serde_json::Error>)
    ensures
        match r {
            Ok(v) => parsed_text(text@) == Some(json_data(v)),
            Err(_) => parsed_text(text@) is None,
        },
{
    serde_json::from_str(text)
}

/// Adds the entry of `key` and `value` to `entries`.
pub(crate) fn put_entry(
    entries: &mut Vec<(String, serde_json::Value)>,
    key: &str,
    value: serde_json::Value,
)
    ensures
        record_of(final(entries)@) == record_of(old(entries)@).with(key@, json_data(value)),
{
    let ghost before = entries@;
    entries.push((String::from_str(key), value));
    proof {
        let after = entries_data(entries@);
        assert(after.drop_last() =~= entries_data(before));
        assert(after.last() == (key@, json_data(value)));
    }
}

/// An empty list of entries, which stands for the object without members.
pub(crate) fn no_entries() -> (entries: Vec<(String, serde_json::Value)>)
    ensures
        record_of(entries@) == JsonData::record(),
{
    let entries: Vec<(String, serde_json::Value)> = Vec::new();
    proof {
        assert(entries_data(entries@) =~= Seq::empty());
    }
    entries
}

/// After `key` has been set to `value`, a lookup of `key` finds `value`, and
/// a lookup of any other key finds what it found before.
pub proof fn lemma_lookup_put(
    fields: Seq<(Seq<char>, JsonData)>,
    key: Seq<char>,
    value: JsonData,
    other: Seq<char>,
)
    ensures
        lookup(put(fields, key, value), other) == if other == key {
            Some(value)
        } else {
            lookup(fields, other)
        },
    decreases fields.len(),
{
    let after = put(fields, key, value);
    if fields.len() == 0 {
        assert(after.first() == (key, value));
        assert(after.drop_first() =~= Seq::<(Seq<char>, JsonData)>::empty());
        assert(lookup(after.drop_first(), other) is None);
    } else if fields.first().0 == key {
        assert(after.first() == (key, value));
        assert(after.drop_first() =~= fields.drop_first());
    } else {
        lemma_lookup_put(fields.drop_first(), key, value, other);
        assert(after.first() == fields.first());
        assert(after.drop_first() =~= put(fields.drop_first(), key, value));
    }
}

/// After `key` has been set in an object, its member under `key` is the
/// new value, and its member under any other key is what it was.
pub proof fn lemma_member_with(d: JsonData, key: Seq<char>, value: JsonData, other: Seq<char>)
    requires
        d is Record,
    ensures
        d.with(key, value) is Record,
        d.with(key, value).member(other) == if other == key {
            Some(value)
        } else {
            d.member(other)
        },
{
    lemma_lookup_put(d->Record_0, key, value, other);
}

/// After `key` has been set in an object where there is a value, its
/// member under `key` is that value where there is one, and every other
/// member is what it was.
pub proof fn lemma_member_with_some(
    d: JsonData,
    key: Seq<char>,
    value: Option<JsonData>,
    other: Seq<char>,
)
    requires
        d is Record,
    ensures
        d.with_some(key, value) is Record,
        d.with_some(key, value).member(other) == if other == key && value is Some {
            value
        } else {
            d.member(other)
        },
{
    if value is Some {
        lemma_member_with(d, key, value->0, other);
    }
}

} // verus!
