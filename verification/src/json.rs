//! JSON values as the protocol exchanges them, and the lookups the client
//! makes in them.
//!
//! `JsonValue` holds what a parsed JSON document holds; `JsonModel` is its
//! mathematical reading, over which the contracts are stated.

use vstd::prelude::*;
use crate::error::DiscordRpcError;

verus! {

/// A JSON document as serde_json holds it.
#[verifier::external_type_specification]
#[verifier::external_body]
pub struct ExJsonDocument(serde_json::Value);

/// A JSON number as serde_json holds it.
#[verifier::external_type_specification]
#[verifier::external_body]
pub struct ExJsonNumber(serde_json::Number);

/// A JSON number, told apart as the JSON reader tells numbers apart: a
/// non-negative integer, a negative integer, or any other number, kept as
/// the shortest decimal text that reads back as the same double.
#[derive(Debug, Clone, PartialEq)]
pub enum JsonNumber {
    PosInt(u64),
    NegInt(i64),
    Float(String),
}

/// A JSON value. The entries of an object keep their order.
#[derive(Debug)]
pub enum JsonValue {
    Null,
    Bool(bool),
    Number(JsonNumber),
    Str(String),
    Array(Vec<JsonValue>),
    Object(Vec<(String, JsonValue)>),
}

/// The mathematical reading of a `JsonNumber`.
pub enum NumberModel {
    PosInt(u64),
    NegInt(i64),
    Float(Seq<char>),
}

/// The mathematical reading of a `JsonValue`.
pub enum JsonModel {
    Null,
    Bool(bool),
    Number(NumberModel),
    Str(Seq<char>),
    Array(Seq<JsonModel>),
    Object(Seq<(Seq<char>, JsonModel)>),
}

impl JsonNumber {
    pub open spec fn model(self) -> NumberModel {
        match self {
            JsonNumber::PosInt(n) => NumberModel::PosInt(n),
            JsonNumber::NegInt(n) => NumberModel::NegInt(n),
            JsonNumber::Float(s) => NumberModel::Float(s@),
        }
    }
}

impl JsonValue {
    pub open spec fn model(self) -> JsonModel
        decreases self,
    {
        match self {
            JsonValue::Null => JsonModel::Null,
            JsonValue::Bool(b) => JsonModel::Bool(b),
            JsonValue::Number(n) => JsonModel::Number(n.model()),
            JsonValue::Str(s) => JsonModel::Str(s@),
            JsonValue::Array(items) => JsonModel::Array(models_of(items@)),
            JsonValue::Object(entries) => JsonModel::Object(entry_models_of(entries@)),
        }
    }
}

/// The readings of a sequence of values.
pub open spec fn models_of(items: Seq<JsonValue>) -> Seq<JsonModel>
    decreases items,
{
    if items.len() == 0 {
        Seq::empty()
    } else {
        models_of(items.drop_last()).push(items.last().model())
    }
}

/// The readings of a sequence of object entries.
pub open spec fn entry_models_of(entries: Seq<(String, JsonValue)>) -> Seq<(Seq<char>, JsonModel)>
    decreases entries,
{
    if entries.len() == 0 {
        Seq::empty()
    } else {
        entry_models_of(entries.drop_last()).push(
            (entries.last().0@, entries.last().1.model()),
        )
    }
}

impl JsonModel {
    /// The value that an object holds under `key` (under its first entry
    /// with that key); `None` for a key it lacks and for every value that is
    /// not an object.
    pub open spec fn get(self, key: Seq<char>) -> Option<JsonModel> {
        match self {
            JsonModel::Object(entries) => lookup(entries, key),
            _ => None,
        }
    }

    /// The text of a string value; `None` for every other value.
    pub open spec fn as_str(self) -> Option<Seq<char>> {
        match self {
            JsonModel::Str(s) => Some(s),
            _ => None,
        }
    }

    /// The number of a non-negative integer value; `None` for every other
    /// value.
    pub open spec fn as_u64(self) -> Option<u64> {
        match self {
            JsonModel::Number(NumberModel::PosInt(n)) => Some(n),
            _ => None,
        }
    }
}

/// The value of the first entry whose key is `key`.
pub open spec fn lookup(entries: Seq<(Seq<char>, JsonModel)>, key: Seq<char>) -> Option<JsonModel>
    decreases entries.len(),
{
    if entries.len() == 0 {
        None
    } else if entries[0].0 == key {
        Some(entries[0].1)
    } else {
        lookup(entries.drop_first(), key)
    }
}

/// An object's value under a key is the value of its first entry with that
/// key.
pub proof fn lemma_lookup_first(entries: Seq<(Seq<char>, JsonModel)>, i: int, key: Seq<char>)
    requires
        0 <= i < entries.len(),
        entries[i].0 == key,
        forall|j: int| 0 <= j < i ==> #[trigger] entries[j].0 != key,
    ensures
        lookup(entries, key) == Some(entries[i].1),
    decreases i,
{
    if i > 0 {
        let rest = entries.drop_first();
        assert(entries[0].0 != key);
        assert forall|j: int| 0 <= j < i - 1 implies #[trigger] rest[j].0 != key by {
            assert(rest[j] == entries[j + 1]);
        }
        lemma_lookup_first(rest, i - 1, key);
    }
}

/// An object holds nothing under a key that none of its entries has.
pub proof fn lemma_lookup_absent(entries: Seq<(Seq<char>, JsonModel)>, key: Seq<char>)
    requires
        forall|j: int| 0 <= j < entries.len() ==> #[trigger] entries[j].0 != key,
    ensures
        lookup(entries, key) is None,
    decreases entries.len(),
{
    if entries.len() > 0 {
        let rest = entries.drop_first();
        assert(entries[0].0 != key);
        assert forall|j: int| 0 <= j < rest.len() implies #[trigger] rest[j].0 != key by {
            assert(rest[j] == entries[j + 1]);
        }
        lemma_lookup_absent(rest, key);
    }
}

/// The reading of an optional value.
pub open spec fn opt_model(v: Option<&JsonValue>) -> Option<JsonModel> {
    match v {
        Some(x) => Some(x.model()),
        None => None,
    }
}

/// Each entry's reading is the reading of its key and of its value.
pub proof fn lemma_entry_models_of(entries: Seq<(String, JsonValue)>)
    ensures
        entry_models_of(entries).len() == entries.len(),
        forall|j: int|
            0 <= j < entries.len() ==> #[trigger] entry_models_of(entries)[j] == (
                entries[j].0@,
                entries[j].1.model(),
            ),
    decreases entries.len(),
{
    if entries.len() > 0 {
        lemma_entry_models_of(entries.drop_last());
    }
}

/// Each item's reading is the reading of that item.
pub proof fn lemma_models_of(items: Seq<JsonValue>)
    ensures
        models_of(items).len() == items.len(),
        forall|j: int| 0 <= j < items.len() ==> #[trigger] models_of(items)[j] == items[j].model(),
    decreases items.len(),
{
    if items.len() > 0 {
        lemma_models_of(items.drop_last());
    }
}

impl JsonValue {
    /// The value this object holds under `key`.
    pub fn get(&self, key: &str) -> (res: Option<&JsonValue>)
        ensures
            opt_model(res) == self.model().get(key@),
    {
        match self {
            JsonValue::Object(entries) => {
                let wanted = String::from_str(key);
                let ghost ms = entry_models_of(entries@);
                proof {
                    lemma_entry_models_of(entries@);
                    assert(ms.skip(0) =~= ms);
                    assert(self.model() == JsonModel::Object(ms));
                }
                let mut i: usize = 0;
                while i < entries.len()
                    invariant
                        i <= entries@.len(),
                        ms == entry_models_of(entries@),
                        ms.len() == entries@.len(),
                        forall|j: int|
                            0 <= j < entries@.len() ==> #[trigger] ms[j] == (
                                entries@[j].0@,
                                entries@[j].1.model(),
                            ),
                        wanted@ == key@,
                        lookup(ms, key@) == lookup(ms.skip(i as int), key@),
                        self.model() == JsonModel::Object(ms),
                    decreases entries@.len() - i,
                {
                    let ghost rest = ms.skip(i as int);
                    assert(rest[0] == ms[i as int]);
                    if entries[i].0 == wanted {
                        assert(rest[0].0 == key@);
                        return Some(&entries[i].1);
                    }
                    assert(rest.drop_first() =~= ms.skip(i + 1));
                    i = i + 1;
                }
                None
            },
            _ => None,
        }
    }

    /// The text of this value when it is a string.
    pub fn as_str(&self) -> (res: Option<&String>)
        ensures
            match res {
                Some(s) => self.model().as_str() == Some(s@),
                None => self.model().as_str() is None,
            },
    {
        match self {
            JsonValue::Str(s) => Some(s),
            _ => None,
        }
    }

    /// The number held by this value when it is a non-negative integer.
    pub fn as_u64(&self) -> (res: Option<u64>)
        ensures
            res == self.model().as_u64(),
    {
        match self {
            JsonValue::Number(JsonNumber::PosInt(n)) => Some(*n),
            _ => None,
        }
    }
}

/// Adds the entry `key: value` at the end of an object's entries.
pub fn push_entry(entries: &mut Vec<(String, JsonValue)>, key: &str, value: JsonValue)
    ensures
        entry_models_of(final(entries)@) == entry_models_of(old(entries)@).push(
            (key@, value.model()),
        ),
{
    let ghost before = entries@;
    entries.push((String::from_str(key), value));
    assert(entries@.drop_last() =~= before);
}

/// Adds `value` at the end of an array's items.
pub fn push_item(items: &mut Vec<JsonValue>, value: JsonValue)
    ensures
        models_of(final(items)@) == models_of(old(items)@).push(value.model()),
{
    let ghost before = items@;
    items.push(value);
    assert(items@.drop_last() =~= before);
}

/// The string value holding `text`.
pub fn json_str(text: &str) -> (res: JsonValue)
    ensures
        res.model() == JsonModel::Str(text@),
{
    JsonValue::Str(String::from_str(text))
}

/// The reading of an optional string: its text, or `null`.
pub open spec fn opt_str_model(v: Option<String>) -> JsonModel {
    match v {
        Some(s) => JsonModel::Str(s@),
        None => JsonModel::Null,
    }
}

/// The reading of an optional number: the number, or `null`.
pub open spec fn opt_u64_model(v: Option<u64>) -> JsonModel {
    match v {
        Some(n) => JsonModel::Number(NumberModel::PosInt(n)),
        None => JsonModel::Null,
    }
}

/// An optional string as a JSON value: its text, or `null`.
pub fn opt_str_json(v: &Option<String>) -> (res: JsonValue)
    ensures
        res.model() == opt_str_model(*v),
{
    match v {
        Some(s) => JsonValue::Str(s.clone()),
        None => JsonValue::Null,
    }
}

/// An optional number as a JSON value: the number, or `null`.
pub fn opt_u64_json(v: Option<u64>) -> (res: JsonValue)
    ensures
        res.model() == opt_u64_model(v),
{
    match v {
        Some(n) => JsonValue::Number(JsonNumber::PosInt(n)),
        None => JsonValue::Null,
    }
}

impl NumberModel {
    /// A negative-integer number holds a negative value, as serde_json
    /// files every integer of zero and above as non-negative.
    pub open spec fn well_formed(self) -> bool {
        match self {
            NumberModel::NegInt(n) => n < 0,
            _ => true,
        }
    }
}

impl JsonModel {
    /// Every number inside this value is well formed.
    pub open spec fn well_formed(self) -> bool
        decreases self,
    {
        match self {
            JsonModel::Number(n) => n.well_formed(),
            JsonModel::Array(items) => all_well_formed(items),
            JsonModel::Object(entries) => entries_well_formed(entries),
            _ => true,
        }
    }
}

/// Every value of the sequence is well formed.
pub open spec fn all_well_formed(items: Seq<JsonModel>) -> bool
    decreases items,
{
    if items.len() == 0 {
        true
    } else {
        all_well_formed(items.drop_last()) && items.last().well_formed()
    }
}

/// Every value of the entries is well formed.
pub open spec fn entries_well_formed(entries: Seq<(Seq<char>, JsonModel)>) -> bool
    decreases entries,
{
    if entries.len() == 0 {
        true
    } else {
        entries_well_formed(entries.drop_last()) && entries.last().1.well_formed()
    }
}

/// The document that serde_json reads from `bytes`; `None` when it refuses
/// them.
pub uninterp spec fn json_document(bytes: Seq<u8>) -> Option<JsonModel>;

/// The compact JSON text that serde_json writes for `value`.
pub uninterp spec fn json_text(value: JsonModel) -> Seq<char>;

#[verifier::external_body]
fn number_of(n: &serde_json::Number) -> JsonNumber {
    match (n.as_u64(), n.as_i64()) {
        (Some(u), _) => JsonNumber::PosInt(u),
        (None, Some(i)) => JsonNumber::NegInt(i),
        (None, None) => JsonNumber::Float(n.to_string()),
    }
}

#[verifier::external_body]
fn value_of(doc: serde_json::Value) -> JsonValue {
    match doc {
        serde_json::Value::Null => JsonValue::Null,
        serde_json::Value::Bool(b) => JsonValue::Bool(b),
        serde_json::Value::Number(n) => JsonValue::Number(number_of(&n)),
        serde_json::Value::String(s) => JsonValue::Str(s),
        serde_json::Value::Array(a) => JsonValue::Array(a.into_iter().map(value_of).collect()),
        serde_json::Value::Object(m) => JsonValue::Object(
            m.into_iter().map(|(k, v)| (k, value_of(v))).collect(),
        ),
    }
}

#[verifier::external_body]
fn number_document(n: &JsonNumber) -> serde_json::Value {
    match n {
        JsonNumber::PosInt(u) => serde_json::Value::from(*u),
        JsonNumber::NegInt(i) => serde_json::Value::from(*i),
        JsonNumber::Float(t) => t.parse().ok().and_then(serde_json::Number::from_f64).map_or(
            serde_json::Value::Null,
            serde_json::Value::Number,
        ),
    }
}

#[verifier::external_body]
fn document_of(value: &JsonValue) -> serde_json::Value {
    match value {
        JsonValue::Null => serde_json::Value::Null,
        JsonValue::Bool(b) => serde_json::Value::Bool(*b),
        JsonValue::Number(n) => number_document(n),
        JsonValue::Str(s) => serde_json::Value::String(s.clone()),
        JsonValue::Array(a) => serde_json::Value::Array(a.iter().map(document_of).collect()),
        JsonValue::Object(e) => serde_json::Value::Object(
            e.iter().map(|(k, v)| (k.clone(), document_of(v))).collect(),
        ),
    }
}

/// Reads `bytes` as a JSON document with `serde_json::from_slice`. The
/// contract claims that the value read is the document that the bytes hold,
/// whose integers below zero are the only ones filed as negative; and that
/// a refusal is reported as a serialization error exactly when serde_json
/// refuses the bytes.
#[verifier::external_body]
pub fn parse_json(bytes: &[u8]) -> (res: Result<JsonValue, DiscordRpcError>)
    ensures
        match res {
            Ok(v) => json_document(bytes@) == Some(v.model()) && v.model().well_formed(),
            Err(e) => json_document(bytes@) is None && e is SerializationError,
        },
{
    match serde_json::from_slice::<serde_json::Value>(bytes) {
        Ok(doc) => Ok(value_of(doc)),
        Err(e) => Err(DiscordRpcError::SerializationError(e)),
    }
}

/// Writes `value` as compact JSON text, through serde_json's `Display` of
/// its document. The contract claims only that the text is the one named
/// `json_text` for the value; writing a document into a `String` cannot
/// fail.
#[verifier::external_body]
pub fn render_json(value: &JsonValue) -> (text: String)
    ensures
        text@ == json_text(value.model()),
{
    document_of(value).to_string()
}

} // verus!
