//! Configuration normalization: guarantee that the document's `cpu` table
//! exists and that its `affinity`, `editor` and `priority` fields are
//! present with the expected types, repairing each missing or mistyped
//! field wholesale from the built-in defaults, and report whether any
//! repair occurred.

use vstd::prelude::*;

use crate::model::{
    affinity_ok, cpu_base, cpu_ok, default_affinity, default_doc_model, default_editor,
    default_priority_level, doc_normalized, editor_ok, norm_affinity, norm_cpu, norm_doc,
    norm_editor, norm_priority, priority_ok, CoreSelector, ItemModel,
};
use crate::toml_doc::{
    array_get, array_len, array_model, array_new, array_push_int, array_to_item, doc_get,
    doc_insert, doc_model, doc_new, doc_parse, item_as_array, item_as_bool, item_as_integer,
    item_clone, item_get, item_is_table, item_set, make_bool_item, make_int_item, make_table_item,
    parsed_doc, value_as_integer,
};

verus! {

/// The normalized configuration: exactly the three values the policy
/// consumes.
pub struct Config {
    /// The ordered core-selector list.
    pub affinity: Vec<CoreSelector>,
    /// Whether the policy may also run under an editor-mode host.
    pub editor_only: bool,
    /// The priority level, any integer; out-of-range levels resolve to
    /// the `Normal` tier later.
    pub priority: i64,
}

/// The built-in default configuration as a value.
pub fn default_config() -> (c: Config)
    ensures
        c.affinity@ == default_affinity(),
        c.editor_only == default_editor(),
        c.priority == default_priority_level(),
{
    let mut affinity: Vec<CoreSelector> = Vec::new();
    affinity.push(CoreSelector::Num(-1));
    proof {
        assert(affinity@ =~= default_affinity());
    }
    Config { affinity, editor_only: false, priority: 2 }
}

/// The get-or-repair step, uniform over every field: a field read either
/// produced a well-typed value or it did not; in the latter case the
/// default takes its place, and the repair is reported.
fn get_or_repair<T>(read: Option<T>, default: T) -> (r: (T, bool))
    ensures
        r.1 == (read is None),
        read matches Some(v) ==> r.0 == v,
        read is None ==> r.0 == default,
{
    match read {
        Some(v) => (v, false),
        None => (default, true),
    }
}

/// Read an affinity array into the selector list it denotes, element by
/// element.
fn read_array(a: &toml_edit::Array) -> (v: Vec<CoreSelector>)
    ensures
        v@ == array_model(*a),
{
    let ghost m = array_model(*a);
    let n = array_len(a);
    let mut v: Vec<CoreSelector> = Vec::new();
    let mut i: usize = 0;
    while i < n
        invariant
            i <= n,
            n == m.len(),
            m == array_model(*a),
            v@ == m.take(i as int),
        decreases n - i,
    {
        let sel = match array_get(a, i) {
            Some(val) => match value_as_integer(val) {
                Some(x) => CoreSelector::Num(x),
                None => CoreSelector::Other,
            },
            None => CoreSelector::Other,
        };
        proof {
            // An in-bounds element the array does not hand out is never an
            // integer, so it denotes `Other`.
            if m[i as int] is Num {
                assert(sel == m[i as int]);
            } else {
                assert(m[i as int] is Other);
            }
            assert(m.take(i + 1) =~= m.take(i as int).push(m[i as int]));
        }
        v.push(sel);
        i = i + 1;
    }
    proof {
        assert(m.take(n as int) =~= m);
    }
    v
}

/// The default affinity field as a document item: the one-element array
/// holding the sentinel.
fn default_affinity_item() -> (it: toml_edit::Item)
    ensures
        crate::toml_doc::item_model(it) == ItemModel::Arr(default_affinity()),
{
    let mut a = array_new();
    array_push_int(&mut a, -1);
    proof {
        assert(array_model(a) =~= default_affinity());
    }
    array_to_item(a)
}

/// Normalize a document in place.
///
/// Every field of the `cpu` table that is present with the expected type
/// is kept exactly as it stands — its value, and in the document its
/// formatting and comments; every other field is overwritten with its
/// built-in default. A `cpu` entry that is missing or not a table is
/// replaced by the default table as a whole. The returned flag reports
/// whether anything was repaired; when it is false the document was not
/// touched at all.
pub fn normalize(doc: &mut toml_edit::DocumentMut) -> (r: (Config, bool))
    ensures
        doc_model(*final(doc)) == norm_doc(doc_model(*old(doc))),
        r.1 == !doc_normalized(doc_model(*old(doc))),
        r.0.affinity@ == norm_affinity(doc_model(*old(doc))),
        r.0.editor_only == norm_editor(doc_model(*old(doc))),
        r.0.priority == norm_priority(doc_model(*old(doc))),
{
    let ghost m0 = doc_model(*doc);

    // Read the `cpu` entry; a well-typed one is cloned so that repairs can
    // be applied to it without disturbing its valid fields.
    let cpu_item: Option<toml_edit::Item> = match doc_get(doc, "cpu") {
        Some(it) => {
            if item_is_table(it) {
                Some(item_clone(it))
            } else {
                None
            }
        },
        None => None,
    };

    match cpu_item {
        None => {
            // The `cpu` entry is missing or not a table: install the
            // default table wholesale.
            proof {
                assert(!cpu_ok(m0));
                assert(cpu_base(m0) =~= crate::model::empty_tbl());
            }
            let mut cpu = make_table_item();
            item_set(&mut cpu, "affinity", default_affinity_item());
            item_set(&mut cpu, "editor", make_bool_item(false));
            item_set(&mut cpu, "priority", make_int_item(2));
            doc_insert(doc, "cpu", cpu);
            (default_config(), true)
        },
        Some(mut cpu) => {
            proof {
                assert(cpu_ok(m0));
            }
            let ghost c0 = cpu_base(m0);

            // Read each field; `None` means missing or mistyped.
            let aff_read: Option<Vec<CoreSelector>> = match item_get(&cpu, "affinity") {
                Some(it) => match item_as_array(it) {
                    Some(a) => Some(read_array(a)),
                    None => None,
                },
                None => None,
            };
            let ed_read: Option<bool> = match item_get(&cpu, "editor") {
                Some(it) => item_as_bool(it),
                None => None,
            };
            let pr_read: Option<i64> = match item_get(&cpu, "priority") {
                Some(it) => item_as_integer(it),
                None => None,
            };
            proof {
                assert(aff_read is Some <==> affinity_ok(c0));
                assert(ed_read is Some <==> editor_ok(c0));
                assert(pr_read is Some <==> priority_ok(c0));
            }

            // Repair, uniformly per field, and write each repaired field
            // back into the cloned table.
            let mut changed = false;
            let (aff, aff_repaired) = get_or_repair(aff_read, default_config().affinity);
            if aff_repaired {
                item_set(&mut cpu, "affinity", default_affinity_item());
                changed = true;
            }
            let (ed, ed_repaired) = get_or_repair(ed_read, false);
            if ed_repaired {
                item_set(&mut cpu, "editor", make_bool_item(false));
                changed = true;
            }
            let (pr, pr_repaired) = get_or_repair(pr_read, 2);
            if pr_repaired {
                item_set(&mut cpu, "priority", make_int_item(2));
                changed = true;
            }
            if changed {
                doc_insert(doc, "cpu", cpu);
            }
            proof {
                if !changed {
                    assert(doc_normalized(m0));
                    assert(norm_doc(m0) == m0);
                } else {
                    assert(crate::toml_doc::item_model(cpu) == ItemModel::Tbl(norm_cpu(m0)));
                    assert(doc_model(*doc) == norm_doc(m0));
                }
            }
            (Config { affinity: aff, editor_only: ed, priority: pr }, changed)
        },
    }
}

/// Parse a configuration text and normalize the document. Yields the
/// document (for writing back), the normalized configuration, and whether
/// any repair occurred; yields nothing exactly when the text is not
/// well-formed TOML.
pub fn load_config(text: &str) -> (r: Option<(toml_edit::DocumentMut, Config, bool)>)
    ensures
        r is Some <==> parsed_doc(text@) is Some,
        r matches Some(t) ==> Some(doc_model(t.0)) == Some(norm_doc(parsed_doc(text@).unwrap())),
        r matches Some(t) ==> t.2 == !doc_normalized(parsed_doc(text@).unwrap()),
        r matches Some(t) ==> t.1.affinity@ == norm_affinity(parsed_doc(text@).unwrap()),
        r matches Some(t) ==> t.1.editor_only == norm_editor(parsed_doc(text@).unwrap()),
        r matches Some(t) ==> t.1.priority == norm_priority(parsed_doc(text@).unwrap()),
{
    match doc_parse(text) {
        Some(mut doc) => {
            let (config, changed) = normalize(&mut doc);
            Some((doc, config, changed))
        },
        None => None,
    }
}

/// Build the built-in default document itself, for creating a fresh
/// configuration file.
pub fn default_document() -> (d: toml_edit::DocumentMut)
    ensures
        doc_model(d) == default_doc_model(),
{
    let mut d = doc_new();
    let mut cpu = make_table_item();
    item_set(&mut cpu, "affinity", default_affinity_item());
    item_set(&mut cpu, "editor", make_bool_item(false));
    item_set(&mut cpu, "priority", make_int_item(2));
    doc_insert(&mut d, "cpu", cpu);
    d
}

} // verus!
