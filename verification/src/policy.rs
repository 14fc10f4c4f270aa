//! The editor-mode check and the plan of OS actions for one invocation.
//!
//! Before any policy is applied the host is consulted: under an
//! editor-mode host whose configuration does not opt in (`editor` false),
//! the whole application is aborted and reported unsuccessful, with no
//! side effect of any kind. Otherwise the plan names the affinity mask
//! (0 meaning the affinity call is skipped, not made with a no-op mask),
//! the priority tier, and whether the repaired document is to be written
//! back.
//!
//! Failure of an OS call is fatal by policy: the caller carrying out a
//! plan stops at the first failed call, reports failure, and does not
//! write the document back.

use vstd::prelude::*;

use crate::affinity::{resolve_mask, resolve_spec};
use crate::config::Config;
use crate::priority::{map_priority, tier_of, PriorityTier};

verus! {

/// What one invocation is to do, in order: proceed at all, restrict
/// affinity (and to what mask), set the priority tier, write the repaired
/// document back.
pub struct PolicyPlan {
    /// False exactly when the editor check aborts the invocation.
    pub proceed: bool,
    /// Whether the affinity call is to be made; false for an aborted
    /// invocation, and false for a mask of 0, which means "affinity
    /// restriction disabled" and must skip the call entirely.
    pub set_affinity: bool,
    /// The resolved affinity mask.
    pub mask: u64,
    /// The priority tier to apply.
    pub tier: PriorityTier,
    /// Whether the document is to be written back; only a repaired
    /// document is, and never in an aborted invocation.
    pub write_back: bool,
}

/// Decide the whole invocation from the normalized configuration, the
/// host's editor flag, the logical core count and the repair flag.
pub fn plan_policy(
    cfg: &Config,
    host_is_editor: bool,
    core_count: usize,
    config_changed: bool,
) -> (p: PolicyPlan)
    ensures
        p.proceed == !(host_is_editor && !cfg.editor_only),
        p.mask == resolve_spec(cfg.affinity@, core_count),
        p.set_affinity == (p.proceed && p.mask != 0),
        p.tier == tier_of(cfg.priority),
        p.write_back == (p.proceed && config_changed),
{
    let proceed = !(host_is_editor && !cfg.editor_only);
    let mask = resolve_mask(&cfg.affinity, core_count);
    let tier = map_priority(cfg.priority);
    PolicyPlan {
        proceed,
        set_affinity: proceed && mask != 0,
        mask,
        tier,
        write_back: proceed && config_changed,
    }
}

} // verus!
