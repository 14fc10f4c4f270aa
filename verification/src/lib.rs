//! Process scheduling policy driven by a small, self-repairing TOML
//! configuration: it normalizes the on-disk document (repairing missing or
//! mistyped fields from built-in defaults), resolves a declarative core list
//! into an affinity bitmask, and maps an integer priority level to a named
//! scheduling tier.

pub mod affinity;
pub mod config;
pub mod model;
pub mod policy;
pub mod priority;
pub mod toml_doc;
