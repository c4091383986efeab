//! Documents of the database, as far as their fields are built here.

use vstd::prelude::*;
use mongodb::bson::Bson;
use mongodb::bson::Document;

verus! {

/// `mongodb::bson::Document`, an ordered map from field names to values,
/// carried as it is.
#[verifier::external_type_specification]
#[verifier::external_body]
pub struct ExDocument(Document);

/// `mongodb::bson::Bson`, one value of a document, carried as it is.
#[verifier::external_type_specification]
#[verifier::external_body]
pub struct ExBson(Bson);

/// What a value of a document holds.
pub enum ValueView {
    /// A string.
    Text(Seq<char>),
    /// A double-precision number, by its bits.
    Double(u64),
    /// A 64-bit integer.
    Int64(i64),
    /// A boolean.
    Boolean(bool),
    /// Anything else.
    Other,
}

/// The fields of a document: names and what the values hold, in the order
/// in which the document keeps them.
pub type Fields = Seq<(Seq<char>, ValueView)>;

/// What a `Bson` value holds.
pub uninterp spec fn value_of(value: Bson) -> ValueView;

/// The fields of a `Document`, in its own order.
pub uninterp spec fn fields(doc: Document) -> Fields;

/// A value on its way into a document.
pub enum Value {
    /// A string.
    Text(String),
    /// A double-precision number, already in the form of the database.
    Double(Bson),
    /// A 64-bit integer.
    Int64(i64),
    /// A boolean.
    Boolean(bool),
}

impl View for Value {
    type V = ValueView;

    open spec fn view(&self) -> ValueView {
        match self {
            Value::Text(text) => ValueView::Text(text@),
            Value::Double(number) => value_of(*number),
            Value::Int64(number) => ValueView::Int64(*number),
            Value::Boolean(flag) => ValueView::Boolean(*flag),
        }
    }
}

/// Whether some field has the name `key`.
pub open spec fn has_key(fields: Fields, key: Seq<char>) -> bool {
    exists|i: int| 0 <= i < fields.len() && fields[i].0 == key
}

/// The place of a field with the name `key`.
pub open spec fn key_index(fields: Fields, key: Seq<char>) -> int {
    choose|i: int| 0 <= i < fields.len() && fields[i].0 == key
}

/// The fields after `key` has been set to `value`: a field of that name keeps
/// its place and takes the value, a new name goes to the end.
pub open spec fn upsert(fields: Fields, key: Seq<char>, value: ValueView) -> Fields {
    if has_key(fields, key) {
        fields.update(key_index(fields, key), (key, value))
    } else {
        fields.push((key, value))
    }
}

/// No two fields have the same name.
pub open spec fn distinct_keys(fields: Fields) -> bool {
    forall|i: int, j: int|
        0 <= i < fields.len() && 0 <= j < fields.len() && i != j ==> fields[i].0 != fields[j].0
}

/// `Document::new`: a document without fields.
#[verifier::external_body]
pub(crate) fn empty_document() -> (doc: Document)
    ensures
        fields(doc) == Seq::<(Seq<char>, ValueView)>::empty(),
{
    Document::new()
}

/// `Document::insert`, which hands the pair to `IndexMap::insert`: where the
/// document has a field of that name, the field keeps its place and its value
/// is replaced; where it has none, the pair becomes the last field. A string,
/// an integer and a boolean go in as `Bson::String`, `Bson::Int64` and
/// `Bson::Boolean`; a `Bson` goes in as it is.
#[verifier::external_body]
pub(crate) fn put(doc: &mut Document, key: &String, value: Value)
    ensures
        fields(*final(doc)) == upsert(fields(*old(doc)), key@, value@),
{
    let bson = match value {
        Value::Text(text) => Bson::String(text),
        Value::Double(number) => number,
        Value::Int64(number) => Bson::Int64(number),
        Value::Boolean(flag) => Bson::Boolean(flag),
    };
    doc.insert(key.clone(), bson);
}

/// `Bson::clone`: a second value that holds what the first holds.
pub assume_specification[ <Bson as Clone>::clone ](value: &Bson) -> (copy: Bson)
    ensures
        value_of(copy) == value_of(*value),
;

/// Setting a field keeps the names distinct.
pub proof fn lemma_upsert_distinct(fields: Fields, key: Seq<char>, value: ValueView)
    requires
        distinct_keys(fields),
    ensures
        distinct_keys(upsert(fields, key, value)),
        has_key(upsert(fields, key, value), key),
        fields.len() <= upsert(fields, key, value).len() <= fields.len() + 1,
{
    let after = upsert(fields, key, value);
    if has_key(fields, key) {
        let at = key_index(fields, key);
        assert(after[at].0 == key);
    } else {
        assert(after[fields.len() as int].0 == key);
    }
}

} // verus!
