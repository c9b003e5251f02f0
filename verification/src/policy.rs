//! The authorization decision: whether a granted set of actions covers a
//! requested action.
//!
//! Resolution has three tiers, each a constant number of mask tests: the
//! universal wildcard authorizes everything; an exact grant of the
//! requested action's bits authorizes it; and a granted category
//! wildcard authorizes every entry of its namespace. Namespace
//! membership is fixed by the catalog, never derived from the tag text
//! at decision time.

use vstd::prelude::*;

use crate::actions::{
    Action, ActionSet, ALL, DOCUMENTS_ALL, DOCUMENTS_ADD, DOCUMENTS_GET, DOCUMENTS_DELETE,
    INDEXES_ALL, INDEXES_ADD, INDEXES_GET, INDEXES_UPDATE, INDEXES_DELETE, INDEXES_SWAP,
    TASKS_ALL, TASKS_CANCEL, TASKS_DELETE, TASKS_GET, SETTINGS_ALL, SETTINGS_GET,
    SETTINGS_UPDATE, STATS_ALL, STATS_GET, METRICS_ALL, METRICS_GET, DUMPS_ALL, DUMPS_CREATE,
    SNAPSHOTS_ALL, SNAPSHOTS_CREATE,
};

verus! {

/// The category wildcard whose namespace a catalog entry belongs to, or
/// `None` for entries without one (wildcards themselves, `search`,
/// `version`, the key-management and experimental entries).
pub open spec fn spec_wildcard_of(m: u64) -> Option<u64> {
    if m == DOCUMENTS_ADD || m == DOCUMENTS_GET || m == DOCUMENTS_DELETE {
        Some(DOCUMENTS_ALL)
    } else if m == INDEXES_ADD || m == INDEXES_GET || m == INDEXES_UPDATE || m == INDEXES_DELETE
        || m == INDEXES_SWAP {
        Some(INDEXES_ALL)
    } else if m == TASKS_CANCEL || m == TASKS_DELETE || m == TASKS_GET {
        Some(TASKS_ALL)
    } else if m == SETTINGS_GET || m == SETTINGS_UPDATE {
        Some(SETTINGS_ALL)
    } else if m == STATS_GET {
        Some(STATS_ALL)
    } else if m == METRICS_GET {
        Some(METRICS_ALL)
    } else if m == DUMPS_CREATE {
        Some(DUMPS_ALL)
    } else if m == SNAPSHOTS_CREATE {
        Some(SNAPSHOTS_ALL)
    } else {
        None
    }
}

/// The authorization decision: the universal wildcard, or the requested
/// bits themselves, or the requested entry's category wildcard.
pub open spec fn spec_authorized(requested: Action, granted: ActionSet) -> bool {
    granted.0 & ALL == ALL || granted.0 & requested.0 == requested.0 || match spec_wildcard_of(
        requested.0,
    ) {
        Some(w) => granted.0 & w == w,
        None => false,
    }
}

/// The category wildcard of a catalog entry's namespace, if it has one.
pub fn wildcard_of(m: u64) -> (r: Option<u64>)
    ensures
        r == spec_wildcard_of(m),
{
    if m == DOCUMENTS_ADD || m == DOCUMENTS_GET || m == DOCUMENTS_DELETE {
        Some(DOCUMENTS_ALL)
    } else if m == INDEXES_ADD || m == INDEXES_GET || m == INDEXES_UPDATE || m == INDEXES_DELETE
        || m == INDEXES_SWAP {
        Some(INDEXES_ALL)
    } else if m == TASKS_CANCEL || m == TASKS_DELETE || m == TASKS_GET {
        Some(TASKS_ALL)
    } else if m == SETTINGS_GET || m == SETTINGS_UPDATE {
        Some(SETTINGS_ALL)
    } else if m == STATS_GET {
        Some(STATS_ALL)
    } else if m == METRICS_GET {
        Some(METRICS_ALL)
    } else if m == DUMPS_CREATE {
        Some(DUMPS_ALL)
    } else if m == SNAPSHOTS_CREATE {
        Some(SNAPSHOTS_ALL)
    } else {
        None
    }
}

/// Decides whether `granted` authorizes `requested`, applying wildcard
/// subsumption: universal wildcard, then exact grant, then the requested
/// entry's category wildcard.
pub fn authorize(requested: Action, granted: ActionSet) -> (r: bool)
    ensures
        r == spec_authorized(requested, granted),
{
    if granted.0 & ALL == ALL {
        return true;
    }
    if granted.0 & requested.0 == requested.0 {
        return true;
    }
    match wildcard_of(requested.0) {
        Some(w) => granted.0 & w == w,
        None => false,
    }
}

/// A grant holding the universal wildcard authorizes every request.
pub proof fn lemma_universal_wildcard_authorizes(requested: Action, granted: ActionSet)
    requires
        granted.spec_contains(Action(ALL)),
    ensures
        spec_authorized(requested, granted),
{
}

/// A granted category wildcard authorizes every catalog entry of its
/// namespace.
pub proof fn lemma_category_wildcard_authorizes(requested: Action, granted: ActionSet, w: u64)
    requires
        spec_wildcard_of(requested.0) == Some(w),
        granted.spec_contains(Action(w)),
    ensures
        spec_authorized(requested, granted),
{
}

} // verus!
