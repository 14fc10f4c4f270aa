//! Mathematical model of the configuration document.
//!
//! A TOML document is modelled as a map from key to `ItemModel`, which
//! records exactly what the policy logic reads from an item: integers,
//! booleans, arrays of core selectors, and nested tables. Everything else
//! is `Other`. On top of that model this module defines which documents
//! count as normalized, the built-in default document, and the
//! normalization function itself, together with its laws.

use vstd::prelude::*;

verus! {

/// One element of an affinity list: an integer (a core index, or the
/// sentinel `-1` that switches on automatic selection), or an element of
/// any other type, which never selects a core.
#[derive(Clone, Copy, Debug, PartialEq, Eq, Structural)]
pub enum CoreSelector {
    Num(i64),
    Other,
}

/// The model of a TOML item, recording only what the policy logic reads.
/// `Nil` stands for the placeholder item that the document library treats
/// as absent; `Other` covers every shape the policy does not interpret
/// (strings, floats, datetimes, inline tables, arrays of tables).
pub enum ItemModel {
    Nil,
    Int(i64),
    Bool(bool),
    Arr(Seq<CoreSelector>),
    Tbl(Map<Seq<char>, ItemModel>),
    Other,
}

/// The model of a whole document: its root table.
pub type DocModel = Map<Seq<char>, ItemModel>;

pub open spec fn tbl_of(m: ItemModel) -> Map<Seq<char>, ItemModel> {
    match m {
        ItemModel::Tbl(t) => t,
        _ => Map::empty(),
    }
}

pub open spec fn arr_of(m: ItemModel) -> Seq<CoreSelector> {
    match m {
        ItemModel::Arr(a) => a,
        _ => Seq::empty(),
    }
}

pub open spec fn bool_of(m: ItemModel) -> bool {
    match m {
        ItemModel::Bool(b) => b,
        _ => false,
    }
}

pub open spec fn int_of(m: ItemModel) -> i64 {
    match m {
        ItemModel::Int(i) => i,
        _ => 0,
    }
}

/// The empty table model.
pub open spec fn empty_tbl() -> Map<Seq<char>, ItemModel> {
    Map::empty()
}

/// A key is readable in a table when it is present and not the absent
/// placeholder.
pub open spec fn has_key(t: Map<Seq<char>, ItemModel>, k: Seq<char>) -> bool {
    t.contains_key(k) && t[k] != ItemModel::Nil
}

pub open spec fn key_cpu() -> Seq<char> {
    "cpu"@
}

pub open spec fn key_affinity() -> Seq<char> {
    "affinity"@
}

pub open spec fn key_editor() -> Seq<char> {
    "editor"@
}

pub open spec fn key_priority() -> Seq<char> {
    "priority"@
}

// ---------------------------------------------------------------------
// Built-in defaults
// ---------------------------------------------------------------------

/// The default affinity list: the lone sentinel, i.e. automatic selection.
pub open spec fn default_affinity() -> Seq<CoreSelector> {
    seq![CoreSelector::Num(-1i64)]
}

/// By default the policy is not applied under an editor-mode host.
pub open spec fn default_editor() -> bool {
    false
}

/// The default priority level: 2, the `Normal` tier.
pub open spec fn default_priority_level() -> i64 {
    2
}

/// The `cpu` table of the built-in default document.
pub open spec fn default_cpu_model() -> Map<Seq<char>, ItemModel> {
    Map::empty()
        .insert(key_affinity(), ItemModel::Arr(default_affinity()))
        .insert(key_editor(), ItemModel::Bool(default_editor()))
        .insert(key_priority(), ItemModel::Int(default_priority_level()))
}

/// The built-in default document: a single `cpu` table with the three
/// default fields.
pub open spec fn default_doc_model() -> DocModel {
    Map::<Seq<char>, ItemModel>::empty().insert(key_cpu(), ItemModel::Tbl(default_cpu_model()))
}

// ---------------------------------------------------------------------
// Which documents are normalized
// ---------------------------------------------------------------------

pub open spec fn cpu_ok(doc: DocModel) -> bool {
    has_key(doc, key_cpu()) && doc[key_cpu()] is Tbl
}

/// The `cpu` table a document offers for field repair: its `cpu` table if
/// that is a proper table, else the empty table (so that every field is
/// repaired from the defaults).
pub open spec fn cpu_base(doc: DocModel) -> Map<Seq<char>, ItemModel> {
    if cpu_ok(doc) {
        tbl_of(doc[key_cpu()])
    } else {
        Map::empty()
    }
}

pub open spec fn affinity_ok(cpu: Map<Seq<char>, ItemModel>) -> bool {
    has_key(cpu, key_affinity()) && cpu[key_affinity()] is Arr
}

pub open spec fn editor_ok(cpu: Map<Seq<char>, ItemModel>) -> bool {
    has_key(cpu, key_editor()) && cpu[key_editor()] is Bool
}

pub open spec fn priority_ok(cpu: Map<Seq<char>, ItemModel>) -> bool {
    has_key(cpu, key_priority()) && cpu[key_priority()] is Int
}

/// A document is normalized when its `cpu` table exists and all three
/// fields are present with the expected types.
pub open spec fn doc_normalized(doc: DocModel) -> bool {
    &&& cpu_ok(doc)
    &&& affinity_ok(cpu_base(doc))
    &&& editor_ok(cpu_base(doc))
    &&& priority_ok(cpu_base(doc))
}

// ---------------------------------------------------------------------
// Normalization: repair each missing or mistyped field from the defaults
// ---------------------------------------------------------------------

/// The `cpu` table after normalization: each field that is present with
/// the expected type is kept, each other field is overwritten with the
/// corresponding default.
pub open spec fn norm_cpu(doc: DocModel) -> Map<Seq<char>, ItemModel> {
    let c0 = cpu_base(doc);
    let c1 = if affinity_ok(c0) {
        c0
    } else {
        c0.insert(key_affinity(), ItemModel::Arr(default_affinity()))
    };
    let c2 = if editor_ok(c0) {
        c1
    } else {
        c1.insert(key_editor(), ItemModel::Bool(default_editor()))
    };
    if priority_ok(c0) {
        c2
    } else {
        c2.insert(key_priority(), ItemModel::Int(default_priority_level()))
    }
}

/// The document after normalization. A document that is already
/// normalized is left untouched; otherwise its `cpu` entry is replaced by
/// the repaired table.
pub open spec fn norm_doc(doc: DocModel) -> DocModel {
    if doc_normalized(doc) {
        doc
    } else {
        doc.insert(key_cpu(), ItemModel::Tbl(norm_cpu(doc)))
    }
}

/// The normalized affinity list a document yields.
pub open spec fn norm_affinity(doc: DocModel) -> Seq<CoreSelector> {
    if affinity_ok(cpu_base(doc)) {
        arr_of(cpu_base(doc)[key_affinity()])
    } else {
        default_affinity()
    }
}

/// The normalized editor-only flag a document yields.
pub open spec fn norm_editor(doc: DocModel) -> bool {
    if editor_ok(cpu_base(doc)) {
        bool_of(cpu_base(doc)[key_editor()])
    } else {
        default_editor()
    }
}

/// The normalized priority level a document yields.
pub open spec fn norm_priority(doc: DocModel) -> i64 {
    if priority_ok(cpu_base(doc)) {
        int_of(cpu_base(doc)[key_priority()])
    } else {
        default_priority_level()
    }
}

// ---------------------------------------------------------------------
// Laws of normalization
// ---------------------------------------------------------------------

/// The three field keys, and the `cpu` key, are pairwise distinct.
pub proof fn lemma_keys_distinct()
    ensures
        key_affinity() != key_editor(),
        key_affinity() != key_priority(),
        key_editor() != key_priority(),
        key_cpu() != key_affinity(),
        key_cpu() != key_editor(),
        key_cpu() != key_priority(),
{
    reveal_strlit("cpu");
    reveal_strlit("affinity");
    reveal_strlit("editor");
    reveal_strlit("priority");
    assert(key_affinity().len() == 8);
    assert(key_editor().len() == 6);
    assert(key_priority().len() == 8);
    assert(key_cpu().len() == 3);
    assert(key_affinity()[0] == 'a');
    assert(key_priority()[0] == 'p');
}

/// Normalization always yields a normalized document.
pub proof fn lemma_norm_doc_normalized(doc: DocModel)
    ensures
        doc_normalized(norm_doc(doc)),
{
    lemma_keys_distinct();
    if !doc_normalized(doc) {
        let nd = norm_doc(doc);
        assert(cpu_base(nd) == norm_cpu(doc));
    }
}

/// Normalization is idempotent: run on its own output it changes nothing,
/// so a second pass reports no repairs.
pub proof fn lemma_norm_idempotent(doc: DocModel)
    ensures
        norm_doc(norm_doc(doc)) == norm_doc(doc),
{
    lemma_norm_doc_normalized(doc);
}

/// Only malformed fields are replaced: a field that is present with the
/// expected type is kept exactly as it was, a malformed or missing field
/// becomes its default, and every root entry other than `cpu` is
/// untouched.
pub proof fn lemma_repairs_are_minimal(doc: DocModel)
    ensures
        affinity_ok(cpu_base(doc)) ==> norm_cpu(doc)[key_affinity()] == cpu_base(doc)[key_affinity()],
        !affinity_ok(cpu_base(doc)) ==> norm_cpu(doc)[key_affinity()] == ItemModel::Arr(
            default_affinity(),
        ),
        editor_ok(cpu_base(doc)) ==> norm_cpu(doc)[key_editor()] == cpu_base(doc)[key_editor()],
        !editor_ok(cpu_base(doc)) ==> norm_cpu(doc)[key_editor()] == ItemModel::Bool(
            default_editor(),
        ),
        priority_ok(cpu_base(doc)) ==> norm_cpu(doc)[key_priority()] == cpu_base(doc)[key_priority()],
        !priority_ok(cpu_base(doc)) ==> norm_cpu(doc)[key_priority()] == ItemModel::Int(
            default_priority_level(),
        ),
        forall|k: Seq<char>|
            k != key_cpu() && doc.contains_key(k) ==> #[trigger] norm_doc(doc).contains_key(k)
                && norm_doc(doc)[k] == doc[k],
{
    lemma_keys_distinct();
}

/// The built-in default document is already normalized, and yields the
/// default values.
pub proof fn lemma_default_doc_normalized()
    ensures
        doc_normalized(default_doc_model()),
        norm_doc(default_doc_model()) == default_doc_model(),
        norm_affinity(default_doc_model()) == default_affinity(),
        norm_editor(default_doc_model()) == default_editor(),
        norm_priority(default_doc_model()) == default_priority_level(),
{
    lemma_keys_distinct();
}

} // verus!
