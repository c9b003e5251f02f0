//! The fixed catalog of grantable actions and the combinable set over it.
//!
//! Every action occupies one distinct bit of a 64-bit mask; the top bit
//! is reserved for the universal wildcard. Category wildcards (for
//! example the one covering every document operation) are catalog
//! entries in their own right with their own bit, not the union of their
//! children. Each entry also carries a unique dot-namespaced string tag,
//! the wire form for human-authored configuration; the mask is the
//! compact internal form. Bits that no entry defines are carried through
//! opaquely, so masks written by a newer release stay readable.

use vstd::prelude::*;

use crate::errors::ApiKeyError;
use crate::strutil::str_eq;

verus! {

/// Bit of the `search` action.
pub const SEARCH: u64 = 0x1;
/// Bit of `documents.*`, the category wildcard over document operations.
pub const DOCUMENTS_ALL: u64 = 0x2;
/// Bit of `documents.add`.
pub const DOCUMENTS_ADD: u64 = 0x4;
/// Bit of `documents.get`.
pub const DOCUMENTS_GET: u64 = 0x8;
/// Bit of `documents.delete`.
pub const DOCUMENTS_DELETE: u64 = 0x10;
/// Bit of `indexes.*`, the category wildcard over index operations.
pub const INDEXES_ALL: u64 = 0x20;
/// Bit of `indexes.create`.
pub const INDEXES_ADD: u64 = 0x40;
/// Bit of `indexes.get`.
pub const INDEXES_GET: u64 = 0x80;
/// Bit of `indexes.update`.
pub const INDEXES_UPDATE: u64 = 0x100;
/// Bit of `indexes.delete`.
pub const INDEXES_DELETE: u64 = 0x200;
/// Bit of `indexes.swap`.
pub const INDEXES_SWAP: u64 = 0x400;
/// Bit of `tasks.*`, the category wildcard over task operations.
pub const TASKS_ALL: u64 = 0x800;
/// Bit of `tasks.cancel`.
pub const TASKS_CANCEL: u64 = 0x1000;
/// Bit of `tasks.delete`.
pub const TASKS_DELETE: u64 = 0x2000;
/// Bit of `tasks.get`. The bit below it is left unassigned.
pub const TASKS_GET: u64 = 0x8000;
/// Bit of `settings.*`, the category wildcard over settings operations.
pub const SETTINGS_ALL: u64 = 0x10000;
/// Bit of `settings.get`.
pub const SETTINGS_GET: u64 = 0x20000;
/// Bit of `settings.update`.
pub const SETTINGS_UPDATE: u64 = 0x40000;
/// Bit of `stats.*`, the category wildcard over stats operations.
pub const STATS_ALL: u64 = 0x80000;
/// Bit of `stats.get`.
pub const STATS_GET: u64 = 0x100000;
/// Bit of `metrics.*`, the category wildcard over metrics operations.
pub const METRICS_ALL: u64 = 0x200000;
/// Bit of `metrics.get`.
pub const METRICS_GET: u64 = 0x400000;
/// Bit of `dumps.*`, the category wildcard over dump operations.
pub const DUMPS_ALL: u64 = 0x800000;
/// Bit of `dumps.create`.
pub const DUMPS_CREATE: u64 = 0x1000000;
/// Bit of `snapshots.*`, the category wildcard over snapshot operations.
pub const SNAPSHOTS_ALL: u64 = 0x2000000;
/// Bit of `snapshots.create`.
pub const SNAPSHOTS_CREATE: u64 = 0x4000000;
/// Bit of `version`.
pub const VERSION: u64 = 0x8000000;
/// Bit of `keys.create`.
pub const KEYS_ADD: u64 = 0x10000000;
/// Bit of `keys.get`.
pub const KEYS_GET: u64 = 0x20000000;
/// Bit of `keys.update`.
pub const KEYS_UPDATE: u64 = 0x40000000;
/// Bit of `keys.delete`.
pub const KEYS_DELETE: u64 = 0x80000000;
/// Bit of `experimental.get`.
pub const EXPERIMENTAL_FEATURES_GET: u64 = 0x100000000;
/// Bit of `experimental.update`.
pub const EXPERIMENTAL_FEATURES_UPDATE: u64 = 0x200000000;
/// Bit of `*`, the universal wildcard, reserved at the top of the mask.
pub const ALL: u64 = 0x8000000000000000;

/// A value over the action catalog: a 64-bit mask in which each defined
/// action occupies one bit. Every 64-bit value is representable,
/// including bits no catalog entry defines.
#[derive(Clone, Copy, Debug, PartialEq, Eq, Hash, Structural)]
pub struct Action(pub u64);

/// The string tag of a catalog entry, or `None` for a mask that is not
/// exactly one catalog entry.
pub open spec fn spec_tag_of(m: u64) -> Option<Seq<char>> {
    if m == ALL {
        Some("*"@)
    } else if m == SEARCH {
        Some("search"@)
    } else if m == DOCUMENTS_ALL {
        Some("documents.*"@)
    } else if m == DOCUMENTS_ADD {
        Some("documents.add"@)
    } else if m == DOCUMENTS_GET {
        Some("documents.get"@)
    } else if m == DOCUMENTS_DELETE {
        Some("documents.delete"@)
    } else if m == INDEXES_ALL {
        Some("indexes.*"@)
    } else if m == INDEXES_ADD {
        Some("indexes.create"@)
    } else if m == INDEXES_GET {
        Some("indexes.get"@)
    } else if m == INDEXES_UPDATE {
        Some("indexes.update"@)
    } else if m == INDEXES_DELETE {
        Some("indexes.delete"@)
    } else if m == INDEXES_SWAP {
        Some("indexes.swap"@)
    } else if m == TASKS_ALL {
        Some("tasks.*"@)
    } else if m == TASKS_CANCEL {
        Some("tasks.cancel"@)
    } else if m == TASKS_DELETE {
        Some("tasks.delete"@)
    } else if m == TASKS_GET {
        Some("tasks.get"@)
    } else if m == SETTINGS_ALL {
        Some("settings.*"@)
    } else if m == SETTINGS_GET {
        Some("settings.get"@)
    } else if m == SETTINGS_UPDATE {
        Some("settings.update"@)
    } else if m == STATS_ALL {
        Some("stats.*"@)
    } else if m == STATS_GET {
        Some("stats.get"@)
    } else if m == METRICS_ALL {
        Some("metrics.*"@)
    } else if m == METRICS_GET {
        Some("metrics.get"@)
    } else if m == DUMPS_ALL {
        Some("dumps.*"@)
    } else if m == DUMPS_CREATE {
        Some("dumps.create"@)
    } else if m == SNAPSHOTS_ALL {
        Some("snapshots.*"@)
    } else if m == SNAPSHOTS_CREATE {
        Some("snapshots.create"@)
    } else if m == VERSION {
        Some("version"@)
    } else if m == KEYS_ADD {
        Some("keys.create"@)
    } else if m == KEYS_GET {
        Some("keys.get"@)
    } else if m == KEYS_UPDATE {
        Some("keys.update"@)
    } else if m == KEYS_DELETE {
        Some("keys.delete"@)
    } else if m == EXPERIMENTAL_FEATURES_GET {
        Some("experimental.get"@)
    } else if m == EXPERIMENTAL_FEATURES_UPDATE {
        Some("experimental.update"@)
    } else {
        None
    }
}

/// The catalog entry a string tag names, as its bit, or `None` for a
/// string outside the fixed vocabulary.
pub open spec fn spec_from_tag(s: Seq<char>) -> Option<u64> {
    if s == "*"@ {
        Some(ALL)
    } else if s == "search"@ {
        Some(SEARCH)
    } else if s == "documents.*"@ {
        Some(DOCUMENTS_ALL)
    } else if s == "documents.add"@ {
        Some(DOCUMENTS_ADD)
    } else if s == "documents.get"@ {
        Some(DOCUMENTS_GET)
    } else if s == "documents.delete"@ {
        Some(DOCUMENTS_DELETE)
    } else if s == "indexes.*"@ {
        Some(INDEXES_ALL)
    } else if s == "indexes.create"@ {
        Some(INDEXES_ADD)
    } else if s == "indexes.get"@ {
        Some(INDEXES_GET)
    } else if s == "indexes.update"@ {
        Some(INDEXES_UPDATE)
    } else if s == "indexes.delete"@ {
        Some(INDEXES_DELETE)
    } else if s == "indexes.swap"@ {
        Some(INDEXES_SWAP)
    } else if s == "tasks.*"@ {
        Some(TASKS_ALL)
    } else if s == "tasks.cancel"@ {
        Some(TASKS_CANCEL)
    } else if s == "tasks.delete"@ {
        Some(TASKS_DELETE)
    } else if s == "tasks.get"@ {
        Some(TASKS_GET)
    } else if s == "settings.*"@ {
        Some(SETTINGS_ALL)
    } else if s == "settings.get"@ {
        Some(SETTINGS_GET)
    } else if s == "settings.update"@ {
        Some(SETTINGS_UPDATE)
    } else if s == "stats.*"@ {
        Some(STATS_ALL)
    } else if s == "stats.get"@ {
        Some(STATS_GET)
    } else if s == "metrics.*"@ {
        Some(METRICS_ALL)
    } else if s == "metrics.get"@ {
        Some(METRICS_GET)
    } else if s == "dumps.*"@ {
        Some(DUMPS_ALL)
    } else if s == "dumps.create"@ {
        Some(DUMPS_CREATE)
    } else if s == "snapshots.*"@ {
        Some(SNAPSHOTS_ALL)
    } else if s == "snapshots.create"@ {
        Some(SNAPSHOTS_CREATE)
    } else if s == "version"@ {
        Some(VERSION)
    } else if s == "keys.create"@ {
        Some(KEYS_ADD)
    } else if s == "keys.get"@ {
        Some(KEYS_GET)
    } else if s == "keys.update"@ {
        Some(KEYS_UPDATE)
    } else if s == "keys.delete"@ {
        Some(KEYS_DELETE)
    } else if s == "experimental.get"@ {
        Some(EXPERIMENTAL_FEATURES_GET)
    } else if s == "experimental.update"@ {
        Some(EXPERIMENTAL_FEATURES_UPDATE)
    } else {
        None
    }
}

/// Whether a mask is exactly one catalog entry.
pub open spec fn is_catalog_mask(m: u64) -> bool {
    spec_tag_of(m) is Some
}

impl Action {
    /// Decodes a raw mask. Every 64-bit value is a legal mask, so this
    /// always succeeds; the `Option` is kept for wire-format callers.
    pub fn from_repr(repr: u64) -> (r: Option<Action>)
        ensures
            r == Some(Action(repr)),
    {
        Some(Action(repr))
    }

    /// The raw mask, the exact inverse of `from_repr`.
    pub fn repr(&self) -> (r: u64)
        ensures
            r == self.0,
    {
        self.0
    }

    /// The string tag of this catalog entry, or `None` when the mask is
    /// not exactly one catalog entry.
    pub fn tag(&self) -> (r: Option<&'static str>)
        ensures
            match r {
                Some(t) => spec_tag_of(self.0) == Some(t@),
                None => spec_tag_of(self.0) is None,
            },
    {
        if self.0 == ALL {
            Some("*")
        } else if self.0 == SEARCH {
            Some("search")
        } else if self.0 == DOCUMENTS_ALL {
            Some("documents.*")
        } else if self.0 == DOCUMENTS_ADD {
            Some("documents.add")
        } else if self.0 == DOCUMENTS_GET {
            Some("documents.get")
        } else if self.0 == DOCUMENTS_DELETE {
            Some("documents.delete")
        } else if self.0 == INDEXES_ALL {
            Some("indexes.*")
        } else if self.0 == INDEXES_ADD {
            Some("indexes.create")
        } else if self.0 == INDEXES_GET {
            Some("indexes.get")
        } else if self.0 == INDEXES_UPDATE {
            Some("indexes.update")
        } else if self.0 == INDEXES_DELETE {
            Some("indexes.delete")
        } else if self.0 == INDEXES_SWAP {
            Some("indexes.swap")
        } else if self.0 == TASKS_ALL {
            Some("tasks.*")
        } else if self.0 == TASKS_CANCEL {
            Some("tasks.cancel")
        } else if self.0 == TASKS_DELETE {
            Some("tasks.delete")
        } else if self.0 == TASKS_GET {
            Some("tasks.get")
        } else if self.0 == SETTINGS_ALL {
            Some("settings.*")
        } else if self.0 == SETTINGS_GET {
            Some("settings.get")
        } else if self.0 == SETTINGS_UPDATE {
            Some("settings.update")
        } else if self.0 == STATS_ALL {
            Some("stats.*")
        } else if self.0 == STATS_GET {
            Some("stats.get")
        } else if self.0 == METRICS_ALL {
            Some("metrics.*")
        } else if self.0 == METRICS_GET {
            Some("metrics.get")
        } else if self.0 == DUMPS_ALL {
            Some("dumps.*")
        } else if self.0 == DUMPS_CREATE {
            Some("dumps.create")
        } else if self.0 == SNAPSHOTS_ALL {
            Some("snapshots.*")
        } else if self.0 == SNAPSHOTS_CREATE {
            Some("snapshots.create")
        } else if self.0 == VERSION {
            Some("version")
        } else if self.0 == KEYS_ADD {
            Some("keys.create")
        } else if self.0 == KEYS_GET {
            Some("keys.get")
        } else if self.0 == KEYS_UPDATE {
            Some("keys.update")
        } else if self.0 == KEYS_DELETE {
            Some("keys.delete")
        } else if self.0 == EXPERIMENTAL_FEATURES_GET {
            Some("experimental.get")
        } else if self.0 == EXPERIMENTAL_FEATURES_UPDATE {
            Some("experimental.update")
        } else {
            None
        }
    }
}

/// The union of a sequence of actions, as a mask.
pub open spec fn spec_mask_of(actions: Seq<Action>) -> u64
    decreases actions.len(),
{
    if actions.len() == 0 {
        0u64
    } else {
        spec_mask_of(actions.drop_last()) | actions.last().0
    }
}

/// A combinable set of granted actions: the bitwise union of the masks
/// of its members. Two sets are equal exactly when their masks are.
#[derive(Clone, Copy, Debug, PartialEq, Eq, Hash, Structural)]
pub struct ActionSet(pub u64);

impl ActionSet {
    /// The union of this set with another, as a value.
    pub open spec fn spec_union(self, other: ActionSet) -> ActionSet {
        ActionSet(self.0 | other.0)
    }

    /// Whether this set holds every bit of `a`.
    pub open spec fn spec_contains(self, a: Action) -> bool {
        self.0 & a.0 == a.0
    }

    /// Decodes a mask. Every 64-bit value is legal, including bits no
    /// catalog entry defines: those are preserved, not rejected.
    pub fn from_mask(mask: u64) -> (r: ActionSet)
        ensures
            r == ActionSet(mask),
    {
        ActionSet(mask)
    }

    /// The raw mask, the exact inverse of `from_mask`.
    pub fn to_mask(&self) -> (r: u64)
        ensures
            r == self.0,
    {
        self.0
    }

    /// The set holding exactly one action's bits.
    pub fn singleton(a: Action) -> (r: ActionSet)
        ensures
            r == ActionSet(a.0),
    {
        ActionSet(a.0)
    }

    /// The bitwise union of two sets.
    pub fn union(self, other: ActionSet) -> (r: ActionSet)
        ensures
            r == self.spec_union(other),
    {
        ActionSet(self.0 | other.0)
    }

    /// Whether this set holds every bit of `a`.
    pub fn contains(&self, a: Action) -> (r: bool)
        ensures
            r == self.spec_contains(a),
    {
        self.0 & a.0 == a.0
    }

    /// The union of a sequence of granted actions.
    pub fn from_actions(actions: &Vec<Action>) -> (r: ActionSet)
        ensures
            r == ActionSet(spec_mask_of(actions@)),
    {
        let mut mask: u64 = 0;
        let mut i: usize = 0;
        while i < actions.len()
            invariant
                0 <= i <= actions@.len(),
                mask == spec_mask_of(actions@.subrange(0, i as int)),
            decreases actions@.len() - i,
        {
            proof {
                assert(actions@.subrange(0, i + 1).drop_last() =~= actions@.subrange(0, i as int));
            }
            mask = mask | actions[i].0;
            i += 1;
        }
        proof {
            assert(actions@.subrange(0, actions@.len() as int) =~= actions@);
        }
        ActionSet(mask)
    }

    /// Decodes a string tag of the catalog into the set holding exactly
    /// that entry's bit. Fails, with the error that marks a bad
    /// `actions` value, exactly on strings outside the fixed vocabulary.
    pub fn from_tag(tag: &str) -> (r: Result<ActionSet, ApiKeyError>)
        ensures
            match r {
                Ok(s) => spec_from_tag(tag@) == Some(s.0),
                Err(e) => spec_from_tag(tag@) is None && e == ApiKeyError::InvalidApiKeyActions,
            },
    {
        if str_eq(tag, "*") {
            Ok(ActionSet(ALL))
        } else if str_eq(tag, "search") {
            Ok(ActionSet(SEARCH))
        } else if str_eq(tag, "documents.*") {
            Ok(ActionSet(DOCUMENTS_ALL))
        } else if str_eq(tag, "documents.add") {
            Ok(ActionSet(DOCUMENTS_ADD))
        } else if str_eq(tag, "documents.get") {
            Ok(ActionSet(DOCUMENTS_GET))
        } else if str_eq(tag, "documents.delete") {
            Ok(ActionSet(DOCUMENTS_DELETE))
        } else if str_eq(tag, "indexes.*") {
            Ok(ActionSet(INDEXES_ALL))
        } else if str_eq(tag, "indexes.create") {
            Ok(ActionSet(INDEXES_ADD))
        } else if str_eq(tag, "indexes.get") {
            Ok(ActionSet(INDEXES_GET))
        } else if str_eq(tag, "indexes.update") {
            Ok(ActionSet(INDEXES_UPDATE))
        } else if str_eq(tag, "indexes.delete") {
            Ok(ActionSet(INDEXES_DELETE))
        } else if str_eq(tag, "indexes.swap") {
            Ok(ActionSet(INDEXES_SWAP))
        } else if str_eq(tag, "tasks.*") {
            Ok(ActionSet(TASKS_ALL))
        } else if str_eq(tag, "tasks.cancel") {
            Ok(ActionSet(TASKS_CANCEL))
        } else if str_eq(tag, "tasks.delete") {
            Ok(ActionSet(TASKS_DELETE))
        } else if str_eq(tag, "tasks.get") {
            Ok(ActionSet(TASKS_GET))
        } else if str_eq(tag, "settings.*") {
            Ok(ActionSet(SETTINGS_ALL))
        } else if str_eq(tag, "settings.get") {
            Ok(ActionSet(SETTINGS_GET))
        } else if str_eq(tag, "settings.update") {
            Ok(ActionSet(SETTINGS_UPDATE))
        } else if str_eq(tag, "stats.*") {
            Ok(ActionSet(STATS_ALL))
        } else if str_eq(tag, "stats.get") {
            Ok(ActionSet(STATS_GET))
        } else if str_eq(tag, "metrics.*") {
            Ok(ActionSet(METRICS_ALL))
        } else if str_eq(tag, "metrics.get") {
            Ok(ActionSet(METRICS_GET))
        } else if str_eq(tag, "dumps.*") {
            Ok(ActionSet(DUMPS_ALL))
        } else if str_eq(tag, "dumps.create") {
            Ok(ActionSet(DUMPS_CREATE))
        } else if str_eq(tag, "snapshots.*") {
            Ok(ActionSet(SNAPSHOTS_ALL))
        } else if str_eq(tag, "snapshots.create") {
            Ok(ActionSet(SNAPSHOTS_CREATE))
        } else if str_eq(tag, "version") {
            Ok(ActionSet(VERSION))
        } else if str_eq(tag, "keys.create") {
            Ok(ActionSet(KEYS_ADD))
        } else if str_eq(tag, "keys.get") {
            Ok(ActionSet(KEYS_GET))
        } else if str_eq(tag, "keys.update") {
            Ok(ActionSet(KEYS_UPDATE))
        } else if str_eq(tag, "keys.delete") {
            Ok(ActionSet(KEYS_DELETE))
        } else if str_eq(tag, "experimental.get") {
            Ok(ActionSet(EXPERIMENTAL_FEATURES_GET))
        } else if str_eq(tag, "experimental.update") {
            Ok(ActionSet(EXPERIMENTAL_FEATURES_UPDATE))
        } else {
            Err(ApiKeyError::InvalidApiKeyActions)
        }
    }
}

/// Decodes a sequence of wire tags into actions, one per tag. Fails,
/// with the error that marks a bad `actions` value, exactly when some
/// tag lies outside the fixed vocabulary.
pub fn actions_from_tags(tags: &Vec<String>) -> (r: Result<Vec<Action>, ApiKeyError>)
    ensures
        match r {
            Ok(v) => {
                &&& v@.len() == tags@.len()
                &&& forall|i: int|
                    0 <= i < tags@.len() ==> spec_from_tag(tags@[i]@) == Some(v@[i].0)
            },
            Err(e) => {
                &&& e == ApiKeyError::InvalidApiKeyActions
                &&& exists|i: int| 0 <= i < tags@.len() && spec_from_tag(tags@[i]@) is None
            },
        },
{
    let mut out: Vec<Action> = Vec::new();
    let mut i: usize = 0;
    while i < tags.len()
        invariant
            0 <= i <= tags@.len(),
            out@.len() == i,
            forall|j: int| 0 <= j < i ==> spec_from_tag(tags@[j]@) == Some(out@[j].0),
        decreases tags@.len() - i,
    {
        match ActionSet::from_tag(tags[i].as_str()) {
            Ok(s) => {
                out.push(Action(s.to_mask()));
            },
            Err(e) => {
                return Err(e);
            },
        }
        i += 1;
    }
    Ok(out)
}

/// Unioning a set with itself yields the same mask.
pub proof fn lemma_union_idempotent(s: ActionSet)
    ensures
        s.spec_union(s) == s,
{
    let m = s.0;
    assert(m | m == m) by (bit_vector);
}

/// Round trip through the wire form: decoding the tag of any catalog
/// entry yields back exactly that entry's bit, and no others.
pub proof fn lemma_tag_round_trip(a: Action)
    requires
        is_catalog_mask(a.0),
    ensures
        match spec_tag_of(a.0) {
            Some(t) => spec_from_tag(t) == Some(a.0),
            None => false,
        },
{
    reveal_strlit("*");
    reveal_strlit("search");
    reveal_strlit("documents.*");
    reveal_strlit("documents.add");
    reveal_strlit("documents.get");
    reveal_strlit("documents.delete");
    reveal_strlit("indexes.*");
    reveal_strlit("indexes.create");
    reveal_strlit("indexes.get");
    reveal_strlit("indexes.update");
    reveal_strlit("indexes.delete");
    reveal_strlit("indexes.swap");
    reveal_strlit("tasks.*");
    reveal_strlit("tasks.cancel");
    reveal_strlit("tasks.delete");
    reveal_strlit("tasks.get");
    reveal_strlit("settings.*");
    reveal_strlit("settings.get");
    reveal_strlit("settings.update");
    reveal_strlit("stats.*");
    reveal_strlit("stats.get");
    reveal_strlit("metrics.*");
    reveal_strlit("metrics.get");
    reveal_strlit("dumps.*");
    reveal_strlit("dumps.create");
    reveal_strlit("snapshots.*");
    reveal_strlit("snapshots.create");
    reveal_strlit("version");
    reveal_strlit("keys.create");
    reveal_strlit("keys.get");
    reveal_strlit("keys.update");
    reveal_strlit("keys.delete");
    reveal_strlit("experimental.get");
    reveal_strlit("experimental.update");
    assert("*"@.len() == 1);
    assert("search"@.len() == 6);
    assert("documents.*"@.len() == 11);
    assert("documents.add"@.len() == 13);
    assert("documents.get"@.len() == 13);
    assert("documents.delete"@.len() == 16);
    assert("indexes.*"@.len() == 9);
    assert("indexes.create"@.len() == 14);
    assert("indexes.get"@.len() == 11);
    assert("indexes.update"@.len() == 14);
    assert("indexes.delete"@.len() == 14);
    assert("indexes.swap"@.len() == 12);
    assert("tasks.*"@.len() == 7);
    assert("tasks.cancel"@.len() == 12);
    assert("tasks.delete"@.len() == 12);
    assert("tasks.get"@.len() == 9);
    assert("settings.*"@.len() == 10);
    assert("settings.get"@.len() == 12);
    assert("settings.update"@.len() == 15);
    assert("stats.*"@.len() == 7);
    assert("stats.get"@.len() == 9);
    assert("metrics.*"@.len() == 9);
    assert("metrics.get"@.len() == 11);
    assert("dumps.*"@.len() == 7);
    assert("dumps.create"@.len() == 12);
    assert("snapshots.*"@.len() == 11);
    assert("snapshots.create"@.len() == 16);
    assert("version"@.len() == 7);
    assert("keys.create"@.len() == 11);
    assert("keys.get"@.len() == 8);
    assert("keys.update"@.len() == 11);
    assert("keys.delete"@.len() == 11);
    assert("experimental.get"@.len() == 16);
    assert("experimental.update"@.len() == 19);
    assert("dumps.*"@[0] == 'd');
    assert("stats.*"@[0] == 's');
    assert("tasks.*"@[0] == 't');
    assert("version"@[0] == 'v');
    assert("indexes.*"@[0] == 'i');
    assert("metrics.*"@[0] == 'm');
    assert("stats.get"@[0] == 's');
    assert("tasks.get"@[0] == 't');
    assert("documents.*"@[0] == 'd');
    assert("indexes.get"@[0] == 'i');
    assert("keys.create"@[0] == 'k');
    assert("keys.create"@[5] == 'c');
    assert("keys.delete"@[0] == 'k');
    assert("keys.delete"@[5] == 'd');
    assert("keys.update"@[0] == 'k');
    assert("keys.update"@[5] == 'u');
    assert("metrics.get"@[0] == 'm');
    assert("snapshots.*"@[0] == 's');
    assert("dumps.create"@[0] == 'd');
    assert("indexes.swap"@[0] == 'i');
    assert("settings.get"@[0] == 's');
    assert("tasks.cancel"@[0] == 't');
    assert("tasks.cancel"@[6] == 'c');
    assert("tasks.delete"@[0] == 't');
    assert("tasks.delete"@[6] == 'd');
    assert("documents.add"@[10] == 'a');
    assert("documents.get"@[10] == 'g');
    assert("indexes.create"@[8] == 'c');
    assert("indexes.delete"@[8] == 'd');
    assert("indexes.update"@[8] == 'u');
    assert("documents.delete"@[0] == 'd');
    assert("experimental.get"@[0] == 'e');
    assert("snapshots.create"@[0] == 's');
    if a.0 == ALL {
        assert(spec_from_tag("*"@) == Some(ALL));
    } else if a.0 == SEARCH {
        assert(spec_from_tag("search"@) == Some(SEARCH));
    } else if a.0 == DOCUMENTS_ALL {
        assert(spec_from_tag("documents.*"@) == Some(DOCUMENTS_ALL));
    } else if a.0 == DOCUMENTS_ADD {
        assert(spec_from_tag("documents.add"@) == Some(DOCUMENTS_ADD));
    } else if a.0 == DOCUMENTS_GET {
        assert(spec_from_tag("documents.get"@) == Some(DOCUMENTS_GET));
    } else if a.0 == DOCUMENTS_DELETE {
        assert(spec_from_tag("documents.delete"@) == Some(DOCUMENTS_DELETE));
    } else if a.0 == INDEXES_ALL {
        assert(spec_from_tag("indexes.*"@) == Some(INDEXES_ALL));
    } else if a.0 == INDEXES_ADD {
        assert(spec_from_tag("indexes.create"@) == Some(INDEXES_ADD));
    } else if a.0 == INDEXES_GET {
        assert(spec_from_tag("indexes.get"@) == Some(INDEXES_GET));
    } else if a.0 == INDEXES_UPDATE {
        assert(spec_from_tag("indexes.update"@) == Some(INDEXES_UPDATE));
    } else if a.0 == INDEXES_DELETE {
        assert(spec_from_tag("indexes.delete"@) == Some(INDEXES_DELETE));
    } else if a.0 == INDEXES_SWAP {
        assert(spec_from_tag("indexes.swap"@) == Some(INDEXES_SWAP));
    } else if a.0 == TASKS_ALL {
        assert(spec_from_tag("tasks.*"@) == Some(TASKS_ALL));
    } else if a.0 == TASKS_CANCEL {
        assert(spec_from_tag("tasks.cancel"@) == Some(TASKS_CANCEL));
    } else if a.0 == TASKS_DELETE {
        assert(spec_from_tag("tasks.delete"@) == Some(TASKS_DELETE));
    } else if a.0 == TASKS_GET {
        assert(spec_from_tag("tasks.get"@) == Some(TASKS_GET));
    } else if a.0 == SETTINGS_ALL {
        assert(spec_from_tag("settings.*"@) == Some(SETTINGS_ALL));
    } else if a.0 == SETTINGS_GET {
        assert(spec_from_tag("settings.get"@) == Some(SETTINGS_GET));
    } else if a.0 == SETTINGS_UPDATE {
        assert(spec_from_tag("settings.update"@) == Some(SETTINGS_UPDATE));
    } else if a.0 == STATS_ALL {
        assert(spec_from_tag("stats.*"@) == Some(STATS_ALL));
    } else if a.0 == STATS_GET {
        assert(spec_from_tag("stats.get"@) == Some(STATS_GET));
    } else if a.0 == METRICS_ALL {
        assert(spec_from_tag("metrics.*"@) == Some(METRICS_ALL));
    } else if a.0 == METRICS_GET {
        assert(spec_from_tag("metrics.get"@) == Some(METRICS_GET));
    } else if a.0 == DUMPS_ALL {
        assert(spec_from_tag("dumps.*"@) == Some(DUMPS_ALL));
    } else if a.0 == DUMPS_CREATE {
        assert(spec_from_tag("dumps.create"@) == Some(DUMPS_CREATE));
    } else if a.0 == SNAPSHOTS_ALL {
        assert(spec_from_tag("snapshots.*"@) == Some(SNAPSHOTS_ALL));
    } else if a.0 == SNAPSHOTS_CREATE {
        assert(spec_from_tag("snapshots.create"@) == Some(SNAPSHOTS_CREATE));
    } else if a.0 == VERSION {
        assert(spec_from_tag("version"@) == Some(VERSION));
    } else if a.0 == KEYS_ADD {
        assert(spec_from_tag("keys.create"@) == Some(KEYS_ADD));
    } else if a.0 == KEYS_GET {
        assert(spec_from_tag("keys.get"@) == Some(KEYS_GET));
    } else if a.0 == KEYS_UPDATE {
        assert(spec_from_tag("keys.update"@) == Some(KEYS_UPDATE));
    } else if a.0 == KEYS_DELETE {
        assert(spec_from_tag("keys.delete"@) == Some(KEYS_DELETE));
    } else if a.0 == EXPERIMENTAL_FEATURES_GET {
        assert(spec_from_tag("experimental.get"@) == Some(EXPERIMENTAL_FEATURES_GET));
    } else if a.0 == EXPERIMENTAL_FEATURES_UPDATE {
        assert(spec_from_tag("experimental.update"@) == Some(EXPERIMENTAL_FEATURES_UPDATE));
    }
}

} // verus!
