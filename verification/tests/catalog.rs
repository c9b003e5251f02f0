use api_key_auth::actions::{
    actions_from_tags, Action, ActionSet, ALL, DOCUMENTS_ADD, DOCUMENTS_ALL, DOCUMENTS_DELETE,
    DOCUMENTS_GET, DUMPS_ALL, DUMPS_CREATE, EXPERIMENTAL_FEATURES_GET,
    EXPERIMENTAL_FEATURES_UPDATE, INDEXES_ADD, INDEXES_ALL, INDEXES_DELETE, INDEXES_GET,
    INDEXES_SWAP, INDEXES_UPDATE, KEYS_ADD, KEYS_DELETE, KEYS_GET, KEYS_UPDATE, METRICS_ALL,
    METRICS_GET, SEARCH, SETTINGS_ALL, SETTINGS_GET, SETTINGS_UPDATE, SNAPSHOTS_ALL,
    SNAPSHOTS_CREATE, STATS_ALL, STATS_GET, TASKS_ALL, TASKS_CANCEL, TASKS_DELETE, TASKS_GET,
    VERSION,
};
use api_key_auth::errors::ApiKeyError;

fn catalog() -> Vec<(&'static str, u64)> {
    vec![
        ("*", ALL),
        ("search", SEARCH),
        ("documents.*", DOCUMENTS_ALL),
        ("documents.add", DOCUMENTS_ADD),
        ("documents.get", DOCUMENTS_GET),
        ("documents.delete", DOCUMENTS_DELETE),
        ("indexes.*", INDEXES_ALL),
        ("indexes.create", INDEXES_ADD),
        ("indexes.get", INDEXES_GET),
        ("indexes.update", INDEXES_UPDATE),
        ("indexes.delete", INDEXES_DELETE),
        ("indexes.swap", INDEXES_SWAP),
        ("tasks.*", TASKS_ALL),
        ("tasks.cancel", TASKS_CANCEL),
        ("tasks.delete", TASKS_DELETE),
        ("tasks.get", TASKS_GET),
        ("settings.*", SETTINGS_ALL),
        ("settings.get", SETTINGS_GET),
        ("settings.update", SETTINGS_UPDATE),
        ("stats.*", STATS_ALL),
        ("stats.get", STATS_GET),
        ("metrics.*", METRICS_ALL),
        ("metrics.get", METRICS_GET),
        ("dumps.*", DUMPS_ALL),
        ("dumps.create", DUMPS_CREATE),
        ("snapshots.*", SNAPSHOTS_ALL),
        ("snapshots.create", SNAPSHOTS_CREATE),
        ("version", VERSION),
        ("keys.create", KEYS_ADD),
        ("keys.get", KEYS_GET),
        ("keys.update", KEYS_UPDATE),
        ("keys.delete", KEYS_DELETE),
        ("experimental.get", EXPERIMENTAL_FEATURES_GET),
        ("experimental.update", EXPERIMENTAL_FEATURES_UPDATE),
    ]
}

#[test]
fn tag_round_trip_every_catalog_entry() {
    for (tag, mask) in catalog() {
        let action = Action(mask);
        let printed = action.tag().expect("catalog entry has a tag");
        assert_eq!(printed, tag);
        let decoded = ActionSet::from_tag(printed).expect("catalog tag decodes");
        assert_eq!(decoded.to_mask(), mask);
    }
}

#[test]
fn catalog_bits_are_distinct() {
    let entries = catalog();
    for (i, (_, a)) in entries.iter().enumerate() {
        assert_eq!(a.count_ones(), 1);
        for (_, b) in entries.iter().skip(i + 1) {
            assert_ne!(a, b);
        }
    }
}

#[test]
fn from_tag_rejects_unknown_tags() {
    for bad in ["", "documents", "documents.", "Documents.get", "search ", "docs.*", "**"] {
        assert_eq!(ActionSet::from_tag(bad), Err(ApiKeyError::InvalidApiKeyActions));
    }
}

#[test]
fn union_with_itself_is_idempotent() {
    for mask in [0u64, SEARCH, DOCUMENTS_ALL | TASKS_GET, ALL, 0xdead_beef_dead_beef] {
        let s = ActionSet::from_mask(mask);
        assert_eq!(s.union(s).to_mask(), mask);
    }
}

#[test]
fn union_combines_bits() {
    let s = ActionSet::from_mask(SEARCH).union(ActionSet::from_mask(DOCUMENTS_GET));
    assert_eq!(s.to_mask(), SEARCH | DOCUMENTS_GET);
    assert!(s.contains(Action(SEARCH)));
    assert!(s.contains(Action(DOCUMENTS_GET)));
    assert!(!s.contains(Action(DOCUMENTS_ALL)));
}

#[test]
fn mask_round_trip_preserves_unknown_bits() {
    for mask in [0u64, 1 << 40, 0x4000, u64::MAX, 0x1234_5678_9abc_def0] {
        assert_eq!(ActionSet::from_mask(mask).to_mask(), mask);
        let a = Action::from_repr(mask).expect("every mask decodes");
        assert_eq!(a.repr(), mask);
    }
}

#[test]
fn tag_of_non_catalog_mask_is_none() {
    assert_eq!(Action(0).tag(), None);
    assert_eq!(Action(SEARCH | DOCUMENTS_GET).tag(), None);
    assert_eq!(Action(1 << 14).tag(), None);
    assert_eq!(Action(1 << 40).tag(), None);
}

#[test]
fn actions_from_tags_decodes_each_tag() {
    let tags = vec!["search".to_string(), "documents.*".to_string(), "keys.get".to_string()];
    let actions = actions_from_tags(&tags).expect("known tags decode");
    assert_eq!(actions, vec![Action(SEARCH), Action(DOCUMENTS_ALL), Action(KEYS_GET)]);
}

#[test]
fn actions_from_tags_rejects_unknown_tag() {
    let tags = vec!["search".to_string(), "bogus".to_string()];
    assert_eq!(actions_from_tags(&tags), Err(ApiKeyError::InvalidApiKeyActions));
}

#[test]
fn singleton_holds_exactly_one_entry() {
    let s = ActionSet::singleton(Action(TASKS_CANCEL));
    assert_eq!(s.to_mask(), TASKS_CANCEL);
    assert!(s.contains(Action(TASKS_CANCEL)));
    assert!(!s.contains(Action(TASKS_ALL)));
}
