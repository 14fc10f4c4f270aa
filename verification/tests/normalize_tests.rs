//! Tests of configuration normalization through `load_config` and
//! `default_document`.

use cpu_affinity::config::{default_document, load_config};
use cpu_affinity::model::CoreSelector;

#[test]
fn default_document_is_already_normalized() {
    let d = default_document();
    let text = d.to_string();
    let (_, cfg, changed) = load_config(&text).expect("default document must parse");
    assert!(!changed);
    assert_eq!(cfg.affinity, vec![CoreSelector::Num(-1)]);
    assert!(!cfg.editor_only);
    assert_eq!(cfg.priority, 2);
}

#[test]
fn valid_document_unchanged() {
    let text = "[cpu]\naffinity = [0, 2]\neditor = true\npriority = 4\n";
    let (doc, cfg, changed) = load_config(text).expect("well-formed TOML");
    assert!(!changed);
    assert_eq!(cfg.affinity, vec![CoreSelector::Num(0), CoreSelector::Num(2)]);
    assert!(cfg.editor_only);
    assert_eq!(cfg.priority, 4);
    // Untouched means untouched: the text round-trips exactly.
    assert_eq!(doc.to_string(), text);
}

#[test]
fn missing_field_repaired_from_default() {
    let text = "[cpu]\naffinity = [1]\neditor = true\n";
    let (doc, cfg, changed) = load_config(text).expect("well-formed TOML");
    assert!(changed);
    assert_eq!(cfg.affinity, vec![CoreSelector::Num(1)]);
    assert!(cfg.editor_only);
    assert_eq!(cfg.priority, 2);
    assert_eq!(doc["cpu"]["priority"].as_integer(), Some(2));
}

#[test]
fn malformed_field_replaced_valid_siblings_untouched() {
    let text = "[cpu]\n# keep me\naffinity = [0, 2]\neditor = true\npriority = \"high\"\n";
    let (doc, cfg, changed) = load_config(text).expect("well-formed TOML");
    assert!(changed);
    // Only the malformed field was replaced.
    assert_eq!(cfg.affinity, vec![CoreSelector::Num(0), CoreSelector::Num(2)]);
    assert!(cfg.editor_only);
    assert_eq!(cfg.priority, 2);
    let rendered = doc.to_string();
    // The valid siblings survive in the document, comment included.
    assert!(rendered.contains("# keep me"));
    assert!(rendered.contains("affinity = [0, 2]"));
    assert!(rendered.contains("editor = true"));
    assert_eq!(doc["cpu"]["priority"].as_integer(), Some(2));
}

#[test]
fn normalization_is_idempotent() {
    let text = "[cpu]\neditor = 7\n";
    let (doc, cfg1, changed1) = load_config(text).expect("well-formed TOML");
    assert!(changed1);
    let second = doc.to_string();
    let (_, cfg2, changed2) = load_config(&second).expect("repaired document must parse");
    assert!(!changed2);
    assert_eq!(cfg1.affinity, cfg2.affinity);
    assert_eq!(cfg1.editor_only, cfg2.editor_only);
    assert_eq!(cfg1.priority, cfg2.priority);
}

#[test]
fn cpu_not_a_table_replaced_wholesale() {
    let text = "cpu = 5\n";
    let (doc, cfg, changed) = load_config(text).expect("well-formed TOML");
    assert!(changed);
    assert_eq!(cfg.affinity, vec![CoreSelector::Num(-1)]);
    assert!(!cfg.editor_only);
    assert_eq!(cfg.priority, 2);
    assert_eq!(doc["cpu"]["priority"].as_integer(), Some(2));
    assert!(doc["cpu"]["editor"].as_bool() == Some(false));
}

#[test]
fn empty_document_filled_with_defaults() {
    let (doc, cfg, changed) = load_config("").expect("empty text is well-formed TOML");
    assert!(changed);
    assert_eq!(cfg.affinity, vec![CoreSelector::Num(-1)]);
    assert!(!cfg.editor_only);
    assert_eq!(cfg.priority, 2);
    let arr = doc["cpu"]["affinity"].as_array().expect("repaired affinity is an array");
    assert_eq!(arr.len(), 1);
    assert_eq!(arr.get(0).and_then(|v| v.as_integer()), Some(-1));
}

#[test]
fn syntactically_broken_document_is_fatal() {
    assert!(load_config("cpu = [").is_none());
    assert!(load_config("[cpu\naffinity = []").is_none());
}

#[test]
fn mixed_affinity_elements_read_as_given() {
    let text = "[cpu]\naffinity = [1, \"x\", 3]\neditor = false\npriority = 0\n";
    let (_, cfg, changed) = load_config(text).expect("well-formed TOML");
    assert!(!changed);
    assert_eq!(
        cfg.affinity,
        vec![CoreSelector::Num(1), CoreSelector::Other, CoreSelector::Num(3)]
    );
}

#[test]
fn unrelated_content_survives_repair() {
    let text = "# top comment\n[video]\nfps = 60\n\n[cpu]\naffinity = 3\n";
    let (doc, cfg, changed) = load_config(text).expect("well-formed TOML");
    assert!(changed);
    assert_eq!(cfg.affinity, vec![CoreSelector::Num(-1)]);
    let rendered = doc.to_string();
    assert!(rendered.contains("# top comment"));
    assert!(rendered.contains("fps = 60"));
    assert_eq!(doc["video"]["fps"].as_integer(), Some(60));
}
