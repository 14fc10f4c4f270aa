//! Trusted interface to the `toml_edit` document library.
//!
//! The document types are declared opaque; what the policy logic reads of
//! them is captured by uninterpreted model functions (`doc_model`,
//! `item_model`, `array_model`, `value_model`), and each document
//! operation the logic uses is wrapped in a function whose contract
//! states, over those models, what the library's source shows it does.
//! Everything else about a document — formatting, comments, key order —
//! is deliberately outside the model and is simply carried along.

use vstd::prelude::*;

use crate::model::{has_key, arr_of, empty_tbl, tbl_of, CoreSelector, DocModel, ItemModel};

verus! {

#[verifier::external_type_specification]
#[verifier::external_body]
pub struct ExDocumentMut(toml_edit::DocumentMut);

#[verifier::external_type_specification]
#[verifier::external_body]
pub struct ExItem(toml_edit::Item);

#[verifier::external_type_specification]
#[verifier::external_body]
pub struct ExArray(toml_edit::Array);

#[verifier::external_type_specification]
#[verifier::external_body]
pub struct ExValue(toml_edit::Value);

/// The root table of a document, as a model map. An `Item::None`
/// placeholder maps to `ItemModel::Nil`, and nothing else does.
pub uninterp spec fn doc_model(d: toml_edit::DocumentMut) -> DocModel;

/// The model of one item.
pub uninterp spec fn item_model(i: toml_edit::Item) -> ItemModel;

/// The elements of an array, each as the core selector it denotes.
pub uninterp spec fn array_model(a: toml_edit::Array) -> Seq<CoreSelector>;

/// The core selector one array element denotes: `Num` exactly for an
/// integer value.
pub uninterp spec fn value_model(v: toml_edit::Value) -> CoreSelector;

/// What parsing a given text yields: the model of the resulting document,
/// or `None` when the text is not well-formed TOML. Parsing is a function
/// of the text alone.
pub uninterp spec fn parsed_doc(s: Seq<char>) -> Option<DocModel>;

/// Relies on `DocumentMut`'s `FromStr`: parsing is deterministic, and
/// yields a document exactly when the text is well-formed TOML.
#[verifier::external_body]
pub(crate) fn doc_parse(s: &str) -> (r: Option<toml_edit::DocumentMut>)
    ensures
        r is Some <==> parsed_doc(s@) is Some,
        r matches Some(d) ==> Some(doc_model(d)) == parsed_doc(s@),
{
    s.parse::<toml_edit::DocumentMut>().ok()
}

/// Relies on `DocumentMut::new`: a fresh document has an empty root table.
#[verifier::external_body]
pub(crate) fn doc_new() -> (r: toml_edit::DocumentMut)
    ensures
        doc_model(r) == empty_tbl(),
{
    toml_edit::DocumentMut::new()
}

/// Relies on `Table::get` (through the document's root table): it returns
/// the item under the key, and `None` exactly when the key is absent or
/// holds the placeholder item.
#[verifier::external_body]
pub(crate) fn doc_get<'a>(d: &'a toml_edit::DocumentMut, key: &str) -> (r: Option<
    &'a toml_edit::Item,
>)
    ensures
        r is Some <==> has_key(doc_model(*d), key@),
        r matches Some(it) ==> item_model(*it) == doc_model(*d)[key@],
{
    d.get(key)
}

/// Relies on `Table::insert` (through the document's root table): it maps
/// the key to the new item and leaves every other key unchanged.
#[verifier::external_body]
pub(crate) fn doc_insert(d: &mut toml_edit::DocumentMut, key: &str, item: toml_edit::Item)
    ensures
        doc_model(*final(d)) == doc_model(*old(d)).insert(key@, item_model(item)),
{
    d.insert(key, item);
}

/// Relies on `Item`'s derived `Clone`: a clone is structurally identical,
/// so it has the same model.
#[verifier::external_body]
pub(crate) fn item_clone(i: &toml_edit::Item) -> (r: toml_edit::Item)
    ensures
        item_model(r) == item_model(*i),
{
    i.clone()
}

/// Relies on `Item::is_table`: true exactly for a (non-inline) table.
#[verifier::external_body]
pub(crate) fn item_is_table(i: &toml_edit::Item) -> (r: bool)
    ensures
        r == (item_model(*i) is Tbl),
{
    i.is_table()
}

/// Relies on `Table::get`: for a table item it returns the entry under
/// the key, and `None` exactly when the key is absent or holds the
/// placeholder item; for any other item it returns `None`.
#[verifier::external_body]
pub(crate) fn item_get<'a>(i: &'a toml_edit::Item, key: &str) -> (r: Option<&'a toml_edit::Item>)
    ensures
        r is Some <==> (item_model(*i) is Tbl && has_key(tbl_of(item_model(*i)), key@)),
        r matches Some(it) ==> item_model(*it) == tbl_of(item_model(*i))[key@],
{
    match i {
        toml_edit::Item::Table(t) => t.get(key),
        _ => None,
    }
}

/// Relies on `Table::insert`: on a table item it maps the key to the new
/// item and leaves every other key unchanged; any other item is left as
/// it was.
#[verifier::external_body]
pub(crate) fn item_set(i: &mut toml_edit::Item, key: &str, item: toml_edit::Item)
    ensures
        item_model(*old(i)) is Tbl ==> item_model(*final(i)) == ItemModel::Tbl(
            tbl_of(item_model(*old(i))).insert(key@, item_model(item)),
        ),
        !(item_model(*old(i)) is Tbl) ==> *final(i) == *old(i),
{
    match i {
        toml_edit::Item::Table(t) => {
            t.insert(key, item);
        },
        _ => {},
    }
}

/// Relies on `Item::as_integer`: `Some` exactly for an integer value.
#[verifier::external_body]
pub(crate) fn item_as_integer(i: &toml_edit::Item) -> (r: Option<i64>)
    ensures
        r is Some <==> item_model(*i) is Int,
        r matches Some(n) ==> item_model(*i) == ItemModel::Int(n),
{
    i.as_integer()
}

/// Relies on `Item::as_bool`: `Some` exactly for a boolean value.
#[verifier::external_body]
pub(crate) fn item_as_bool(i: &toml_edit::Item) -> (r: Option<bool>)
    ensures
        r is Some <==> item_model(*i) is Bool,
        r matches Some(b) ==> item_model(*i) == ItemModel::Bool(b),
{
    i.as_bool()
}

/// Relies on `Item::as_array`: `Some` exactly for an array value, and the
/// array returned is that value's.
#[verifier::external_body]
pub(crate) fn item_as_array<'a>(i: &'a toml_edit::Item) -> (r: Option<&'a toml_edit::Array>)
    ensures
        r is Some <==> item_model(*i) is Arr,
        r matches Some(a) ==> array_model(*a) == arr_of(item_model(*i)),
{
    i.as_array()
}

/// Relies on `toml_edit::value` with an `i64`: it builds an integer item.
#[verifier::external_body]
pub(crate) fn make_int_item(v: i64) -> (r: toml_edit::Item)
    ensures
        item_model(r) == ItemModel::Int(v),
{
    toml_edit::value(v)
}

/// Relies on `toml_edit::value` with a `bool`: it builds a boolean item.
#[verifier::external_body]
pub(crate) fn make_bool_item(b: bool) -> (r: toml_edit::Item)
    ensures
        item_model(r) == ItemModel::Bool(b),
{
    toml_edit::value(b)
}

/// Relies on `Table::new`: a fresh, empty table, wrapped as an item.
#[verifier::external_body]
pub(crate) fn make_table_item() -> (r: toml_edit::Item)
    ensures
        item_model(r) == ItemModel::Tbl(empty_tbl()),
{
    toml_edit::Item::Table(toml_edit::Table::new())
}

/// Relies on `Array::new`: a fresh array is empty.
#[verifier::external_body]
pub(crate) fn array_new() -> (r: toml_edit::Array)
    ensures
        array_model(r) == Seq::<CoreSelector>::empty(),
{
    toml_edit::Array::new()
}

/// Relies on `Array::push` with an `i64`: it appends one integer element.
#[verifier::external_body]
pub(crate) fn array_push_int(a: &mut toml_edit::Array, v: i64)
    ensures
        array_model(*final(a)) == array_model(*old(a)).push(CoreSelector::Num(v)),
{
    a.push(v);
}

/// Wraps an array as an array-valued item.
#[verifier::external_body]
pub(crate) fn array_to_item(a: toml_edit::Array) -> (r: toml_edit::Item)
    ensures
        item_model(r) == ItemModel::Arr(array_model(a)),
{
    toml_edit::Item::Value(toml_edit::Value::Array(a))
}

/// Relies on `Array::len`: the number of elements.
#[verifier::external_body]
pub(crate) fn array_len(a: &toml_edit::Array) -> (r: usize)
    ensures
        r == array_model(*a).len(),
{
    a.len()
}

/// Relies on `Array::get`: in bounds it returns the element wherever that
/// element is a plain value — in particular wherever it is an integer —
/// and out of bounds it returns `None`.
#[verifier::external_body]
pub(crate) fn array_get<'a>(a: &'a toml_edit::Array, i: usize) -> (r: Option<&'a toml_edit::Value>)
    ensures
        i >= array_model(*a).len() ==> r is None,
        r matches Some(v) ==> i < array_model(*a).len() && value_model(*v) == array_model(
            *a,
        )[i as int],
        i < array_model(*a).len() && array_model(*a)[i as int] is Num ==> r is Some,
{
    a.get(i)
}

/// Relies on `Value::as_integer`: `Some` exactly for an integer value.
#[verifier::external_body]
pub(crate) fn value_as_integer(v: &toml_edit::Value) -> (r: Option<i64>)
    ensures
        r is Some <==> value_model(*v) is Num,
        r matches Some(n) ==> value_model(*v) == CoreSelector::Num(n),
{
    v.as_integer()
}

} // verus!
