use api_key_auth::actions::{actions_from_tags, Action, ALL, SEARCH};
use api_key_auth::errors::ApiKeyError;
use api_key_auth::index_uid_pattern::IndexUidPattern;
use api_key_auth::keys::{
    check_create_fields, deny_immutable_fields_api_key, CreateApiKey, Key, PatchApiKey, Setting,
};

// The reference instant for these cases: 2026-01-01T00:00:00Z.
const NOW: i128 = 1_767_225_600_000_000_000;

fn sample_key(now: i128) -> Key {
    let actions = actions_from_tags(&vec!["search".to_string()]).expect("known tag");
    let create = CreateApiKey::from_parts(
        Some("a demo key".to_string()),
        Some("demo".to_string()),
        Some(42),
        Some(actions),
        Some(vec![IndexUidPattern::all()]),
        Some(None),
        now,
    )
    .expect("valid creation request");
    create.to_key_at(now)
}

#[test]
fn creation_with_search_action_yields_fresh_key() {
    let actions = actions_from_tags(&vec!["search".to_string()]).expect("known tag");
    let create = CreateApiKey::from_parts(
        None,
        None,
        None,
        Some(actions),
        Some(vec![IndexUidPattern::all()]),
        Some(None),
        NOW,
    )
    .expect("valid creation request");
    let key = create.to_key();
    assert_eq!(key.actions, vec![Action(SEARCH)]);
    assert_eq!(key.indexes, vec![IndexUidPattern::all()]);
    assert_eq!(key.expires_at, None);
    assert_eq!(key.created_at, key.updated_at);
    // A generated v4 identifier always carries its version bits.
    assert_ne!(key.uid, 0);
}

#[test]
fn missing_required_fields_fail_field_by_field() {
    let actions = || actions_from_tags(&vec!["search".to_string()]).unwrap();
    let indexes = || vec![IndexUidPattern::all()];
    assert_eq!(
        CreateApiKey::from_parts(None, None, None, None, Some(indexes()), Some(None), NOW)
            .unwrap_err(),
        ApiKeyError::MissingApiKeyActions
    );
    assert_eq!(
        CreateApiKey::from_parts(None, None, None, Some(actions()), None, Some(None), NOW)
            .unwrap_err(),
        ApiKeyError::MissingApiKeyIndexes
    );
    assert_eq!(
        CreateApiKey::from_parts(None, None, None, Some(actions()), Some(indexes()), None, NOW)
            .unwrap_err(),
        ApiKeyError::MissingApiKeyExpiresAt
    );
}

#[test]
fn non_future_expiration_fails_creation() {
    let actions = actions_from_tags(&vec!["search".to_string()]).unwrap();
    let r = CreateApiKey::from_parts(
        None,
        None,
        None,
        Some(actions),
        Some(vec![IndexUidPattern::all()]),
        Some(Some("2000-01-01".to_string())),
        NOW,
    );
    assert_eq!(r.unwrap_err(), ApiKeyError::InvalidApiKeyExpiresAt);
}

#[test]
fn future_expiration_is_carried_into_the_key() {
    let actions = actions_from_tags(&vec!["search".to_string()]).unwrap();
    let create = CreateApiKey::from_parts(
        None,
        None,
        None,
        Some(actions),
        Some(vec![IndexUidPattern::all()]),
        Some(Some("2999-01-01".to_string())),
        NOW,
    )
    .expect("future expiration accepted");
    let key = create.to_key_at(NOW);
    assert_eq!(key.expires_at, Some(32_472_144_000_000_000_000));
}

#[test]
fn empty_actions_list_is_not_rejected_here() {
    // Non-emptiness is not enforced at this layer.
    let create = CreateApiKey::from_parts(
        None,
        None,
        None,
        Some(vec![]),
        Some(vec![IndexUidPattern::all()]),
        Some(None),
        NOW,
    )
    .expect("empty actions accepted");
    let key = create.to_key_at(NOW);
    assert_eq!(key.actions, vec![]);
}

#[test]
fn patch_with_no_fields_changes_nothing_but_updated_at() {
    let mut key = sample_key(NOW);
    let before = key.clone();
    let patch = PatchApiKey::from_fields(&vec![]).expect("empty patch accepted");
    assert_eq!(patch.description, Setting::NotSet);
    assert_eq!(patch.name, Setting::NotSet);
    key.apply_patch(patch, NOW + 7);
    assert_eq!(key.description, before.description);
    assert_eq!(key.name, before.name);
    assert_eq!(key.updated_at, NOW + 7);
}

#[test]
fn provided_uid_is_kept() {
    let key = sample_key(NOW);
    assert_eq!(key.uid, 42);
    assert_eq!(key.created_at, NOW);
    assert_eq!(key.updated_at, NOW);
}

#[test]
fn patch_naming_actions_fails_and_leaves_key_untouched() {
    let key = sample_key(NOW);
    let before = key.clone();
    let fields = vec![("actions".to_string(), Some("search".to_string()))];
    let r = PatchApiKey::from_fields(&fields);
    assert_eq!(r.unwrap_err(), ApiKeyError::ImmutableApiKeyActions);
    // No patch was produced, so nothing may have been applied.
    assert_eq!(key, before);
    assert_eq!(key.updated_at, before.updated_at);
}

#[test]
fn each_immutable_field_has_its_own_error() {
    for (field, err) in [
        ("uid", ApiKeyError::ImmutableApiKeyUid),
        ("actions", ApiKeyError::ImmutableApiKeyActions),
        ("indexes", ApiKeyError::ImmutableApiKeyIndexes),
        ("expiresAt", ApiKeyError::ImmutableApiKeyExpiresAt),
        ("createdAt", ApiKeyError::ImmutableApiKeyCreatedAt),
        ("updatedAt", ApiKeyError::ImmutableApiKeyUpdatedAt),
    ] {
        assert_eq!(deny_immutable_fields_api_key(field), err);
        let fields = vec![(field.to_string(), None)];
        assert_eq!(PatchApiKey::from_fields(&fields).unwrap_err(), err);
    }
    assert_eq!(deny_immutable_fields_api_key("frobnicate"), ApiKeyError::UnknownField);
    let fields = vec![("frobnicate".to_string(), None)];
    assert_eq!(PatchApiKey::from_fields(&fields).unwrap_err(), ApiKeyError::UnknownField);
}

#[test]
fn patch_with_only_name_succeeds_and_advances_updated_at() {
    let mut key = sample_key(NOW);
    let before = key.clone();
    let fields = vec![("name".to_string(), Some("new".to_string()))];
    let patch = PatchApiKey::from_fields(&fields).expect("mutable field accepted");
    assert_eq!(patch.description, Setting::NotSet);
    assert_eq!(patch.name, Setting::Value("new".to_string()));
    let later = NOW + 5_000_000_000;
    key.apply_patch(patch, later);
    assert_eq!(key.name, Some("new".to_string()));
    assert_eq!(key.description, before.description);
    assert_eq!(key.uid, before.uid);
    assert_eq!(key.actions, before.actions);
    assert_eq!(key.indexes, before.indexes);
    assert_eq!(key.created_at, before.created_at);
    assert_eq!(key.expires_at, before.expires_at);
    assert!(key.updated_at > before.updated_at);
    assert_eq!(key.updated_at, later);
}

#[test]
fn patch_null_clears_a_mutable_field() {
    let mut key = sample_key(NOW);
    let fields = vec![("description".to_string(), None)];
    let patch = PatchApiKey::from_fields(&fields).expect("mutable field accepted");
    assert_eq!(patch.description, Setting::Null);
    key.apply_patch(patch, NOW + 1);
    assert_eq!(key.description, None);
    assert_eq!(key.name, Some("demo".to_string()));
}

#[test]
fn patch_field_named_twice_keeps_the_last_value() {
    let fields = vec![
        ("name".to_string(), Some("first".to_string())),
        ("name".to_string(), Some("second".to_string())),
    ];
    let patch = PatchApiKey::from_fields(&fields).expect("mutable fields accepted");
    assert_eq!(patch.name, Setting::Value("second".to_string()));
}

#[test]
fn create_fields_outside_the_known_set_are_rejected() {
    let ok = vec![
        "description".to_string(),
        "name".to_string(),
        "uid".to_string(),
        "actions".to_string(),
        "indexes".to_string(),
        "expiresAt".to_string(),
    ];
    assert_eq!(check_create_fields(&ok), Ok(()));
    let bad = vec!["actions".to_string(), "role".to_string()];
    assert_eq!(check_create_fields(&bad), Err(ApiKeyError::UnknownField));
}

#[test]
fn default_admin_key_grants_the_universal_wildcard() {
    let key = Key::default_admin();
    assert_eq!(key.name, Some("Default Admin API Key".to_string()));
    assert_eq!(
        key.description,
        Some(
            "Use it for anything that is not a search operation. \
             Caution! Do not expose it on a public frontend"
                .to_string()
        )
    );
    assert_eq!(key.actions, vec![Action(ALL)]);
    assert_eq!(key.indexes, vec![IndexUidPattern::all()]);
    assert_eq!(key.expires_at, None);
    assert_eq!(key.created_at, key.updated_at);
}

#[test]
fn default_search_key_grants_only_search() {
    let key = Key::default_search();
    assert_eq!(key.name, Some("Default Search API Key".to_string()));
    assert_eq!(key.description, Some("Use it to search from the frontend".to_string()));
    assert_eq!(key.actions, vec![Action(SEARCH)]);
    assert_eq!(key.indexes, vec![IndexUidPattern::all()]);
    assert_eq!(key.expires_at, None);
    assert_eq!(key.created_at, key.updated_at);
}

#[test]
fn default_keys_are_freshly_generated() {
    let a = Key::default_admin();
    let b = Key::default_admin();
    assert_ne!(a.uid, 0);
    assert_ne!(b.uid, 0);
    assert_ne!(a.uid, b.uid);
}
