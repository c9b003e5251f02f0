//! The API-key entity and its lifecycle.
//!
//! A `Key` is born from a validated creation request, which stamps its
//! creation and update instants from one clock read. After creation only
//! the two non-identifying fields, `description` and `name`, may change,
//! through a patch whose fields carry a tri-state "leave / clear / set"
//! value; every other field named in a patch is rejected with an error
//! identifying that field. Instants are nanoseconds since the Unix
//! epoch; identifiers are carried as their 128-bit value.

use vstd::prelude::*;
use vstd::string::StringExecFns;

use crate::actions::Action;
use crate::errors::ApiKeyError;
use crate::expiration::{now_unix_nanos, parse_expiration_date, spec_parse_expiration};
use crate::index_uid_pattern::IndexUidPattern;
use crate::strutil::str_eq;

verus! {

/// A key identifier: the 128 bits of a UUID.
pub type KeyId = u128;

/// A tri-state patch value, so that a caller can tell "do not touch"
/// apart from "clear".
#[derive(Clone, Debug, PartialEq, Eq)]
pub enum Setting<T> {
    /// Set the field to this value.
    Value(T),
    /// Clear the field.
    Null,
    /// Leave the field as it is.
    NotSet,
}

/// A credential record: a granted action sequence with its scoping
/// restriction, expiration, and lifecycle timestamps.
#[derive(Clone, Debug, PartialEq, Eq)]
pub struct Key {
    /// Mutable, non-identifying free text.
    pub description: Option<String>,
    /// Mutable, non-identifying free text.
    pub name: Option<String>,
    /// Generated at creation if absent from the request; immutable.
    pub uid: KeyId,
    /// The granted permissions; immutable after creation.
    pub actions: Vec<Action>,
    /// The scoping restriction; immutable after creation.
    pub indexes: Vec<IndexUidPattern>,
    /// Absent means the key never expires; immutable after creation.
    pub expires_at: Option<i128>,
    /// Set once, at creation.
    pub created_at: i128,
    /// Set at creation; advanced on every accepted mutation.
    pub updated_at: i128,
}

/// A validated creation request: every field already in its internal
/// form, the expiration already parsed and checked against the clock.
#[derive(Clone, Debug, PartialEq, Eq)]
pub struct CreateApiKey {
    pub description: Option<String>,
    pub name: Option<String>,
    pub uid: KeyId,
    pub actions: Vec<Action>,
    pub indexes: Vec<IndexUidPattern>,
    pub expires_at: Option<i128>,
}

/// A patch request: only the two mutable fields, each tri-state.
#[derive(Clone, Debug, PartialEq, Eq)]
pub struct PatchApiKey {
    pub description: Setting<String>,
    pub name: Setting<String>,
}

/// Relies on `uuid::Uuid::new_v4` and `as_u128`: a freshly generated
/// random identifier, of which nothing is stated.
#[verifier::external_body]
pub(crate) fn new_uuid_v4_u128() -> u128 {
    uuid::Uuid::new_v4().as_u128()
}

impl CreateApiKey {
    /// Validates the parts of a creation request. A missing required
    /// field fails with that field's "missing" error; a present but
    /// unacceptable expiration fails with its "invalid" error; an absent
    /// `uid` is freshly generated. `expires_at` distinguishes an absent
    /// field (outer `None`) from an explicit null (inner `None`).
    pub fn from_parts(
        description: Option<String>,
        name: Option<String>,
        uid: Option<KeyId>,
        actions: Option<Vec<Action>>,
        indexes: Option<Vec<IndexUidPattern>>,
        expires_at: Option<Option<String>>,
        now: i128,
    ) -> (r: Result<CreateApiKey, ApiKeyError>)
        ensures
            match r {
                Ok(k) => {
                    &&& actions matches Some(a) && k.actions == a
                    &&& indexes matches Some(x) && k.indexes == x
                    &&& expires_at matches Some(e) && spec_parse_expiration(e.deep_view(), now)
                        == Ok::<Option<i128>, Seq<char>>(k.expires_at)
                    &&& k.description == description
                    &&& k.name == name
                    &&& (uid matches Some(u) ==> k.uid == u)
                },
                Err(e) => {
                    if actions is None {
                        e == ApiKeyError::MissingApiKeyActions
                    } else if indexes is None {
                        e == ApiKeyError::MissingApiKeyIndexes
                    } else if expires_at is None {
                        e == ApiKeyError::MissingApiKeyExpiresAt
                    } else {
                        e == ApiKeyError::InvalidApiKeyExpiresAt && spec_parse_expiration(
                            expires_at.unwrap().deep_view(),
                            now,
                        ) is Err
                    }
                },
            },
    {
        let Some(actions) = actions else {
            return Err(ApiKeyError::MissingApiKeyActions);
        };
        let Some(indexes) = indexes else {
            return Err(ApiKeyError::MissingApiKeyIndexes);
        };
        let Some(expires_at) = expires_at else {
            return Err(ApiKeyError::MissingApiKeyExpiresAt);
        };
        let expires_at = match parse_expiration_date(expires_at, now) {
            Ok(e) => e,
            Err(_) => {
                return Err(ApiKeyError::InvalidApiKeyExpiresAt);
            },
        };
        let uid = match uid {
            Some(u) => u,
            None => new_uuid_v4_u128(),
        };
        Ok(CreateApiKey { description, name, uid, actions, indexes, expires_at })
    }

    /// Turns a validated request into a key, stamping both lifecycle
    /// instants with the given clock reading.
    pub fn to_key_at(self, now: i128) -> (k: Key)
        ensures
            k.description == self.description,
            k.name == self.name,
            k.uid == self.uid,
            k.actions == self.actions,
            k.indexes == self.indexes,
            k.expires_at == self.expires_at,
            k.created_at == now,
            k.updated_at == now,
    {
        let CreateApiKey { description, name, uid, actions, indexes, expires_at } = self;
        Key {
            description,
            name,
            uid,
            actions,
            indexes,
            expires_at,
            created_at: now,
            updated_at: now,
        }
    }

    /// Turns a validated request into a key, reading the clock once for
    /// both lifecycle instants.
    pub fn to_key(self) -> (k: Key)
        ensures
            k.description == self.description,
            k.name == self.name,
            k.uid == self.uid,
            k.actions == self.actions,
            k.indexes == self.indexes,
            k.expires_at == self.expires_at,
            k.created_at == k.updated_at,
    {
        let now = now_unix_nanos();
        self.to_key_at(now)
    }
}

/// Whether a name is one of the six fields a creation request may hold.
pub open spec fn spec_known_create_field(s: Seq<char>) -> bool {
    ||| s == "description"@
    ||| s == "name"@
    ||| s == "uid"@
    ||| s == "actions"@
    ||| s == "indexes"@
    ||| s == "expiresAt"@
}

/// Rejects a creation request that holds a field outside the known set:
/// succeeds exactly when every name is known, and fails with the
/// unknown-field error otherwise.
pub fn check_create_fields(fields: &Vec<String>) -> (r: Result<(), ApiKeyError>)
    ensures
        match r {
            Ok(_) => forall|i: int| 0 <= i < fields@.len() ==> spec_known_create_field(fields@[i]@),
            Err(e) => {
                &&& e == ApiKeyError::UnknownField
                &&& exists|i: int| 0 <= i < fields@.len() && !spec_known_create_field(fields@[i]@)
            },
        },
{
    let mut i: usize = 0;
    while i < fields.len()
        invariant
            0 <= i <= fields@.len(),
            forall|j: int| 0 <= j < i ==> spec_known_create_field(fields@[j]@),
        decreases fields@.len() - i,
    {
        let f = fields[i].as_str();
        if !(str_eq(f, "description") || str_eq(f, "name") || str_eq(f, "uid") || str_eq(
            f,
            "actions",
        ) || str_eq(f, "indexes") || str_eq(f, "expiresAt")) {
            return Err(ApiKeyError::UnknownField);
        }
        i += 1;
    }
    Ok(())
}

/// The error a patch earns by naming a given field: one distinct
/// identity per immutable key field, and the generic unknown-field error
/// for names outside the whole known set.
pub open spec fn spec_deny_field(s: Seq<char>) -> ApiKeyError {
    if s == "uid"@ {
        ApiKeyError::ImmutableApiKeyUid
    } else if s == "actions"@ {
        ApiKeyError::ImmutableApiKeyActions
    } else if s == "indexes"@ {
        ApiKeyError::ImmutableApiKeyIndexes
    } else if s == "expiresAt"@ {
        ApiKeyError::ImmutableApiKeyExpiresAt
    } else if s == "createdAt"@ {
        ApiKeyError::ImmutableApiKeyCreatedAt
    } else if s == "updatedAt"@ {
        ApiKeyError::ImmutableApiKeyUpdatedAt
    } else {
        ApiKeyError::UnknownField
    }
}

/// Maps a patch field name that is not one of the two mutable fields to
/// its error: a distinct immutable-field error for each key field, the
/// unknown-field error for anything else.
pub fn deny_immutable_fields_api_key(field: &str) -> (e: ApiKeyError)
    ensures
        e == spec_deny_field(field@),
{
    if str_eq(field, "uid") {
        ApiKeyError::ImmutableApiKeyUid
    } else if str_eq(field, "actions") {
        ApiKeyError::ImmutableApiKeyActions
    } else if str_eq(field, "indexes") {
        ApiKeyError::ImmutableApiKeyIndexes
    } else if str_eq(field, "expiresAt") {
        ApiKeyError::ImmutableApiKeyExpiresAt
    } else if str_eq(field, "createdAt") {
        ApiKeyError::ImmutableApiKeyCreatedAt
    } else if str_eq(field, "updatedAt") {
        ApiKeyError::ImmutableApiKeyUpdatedAt
    } else {
        ApiKeyError::UnknownField
    }
}

/// The view of a tri-state string value.
pub open spec fn spec_setting_view(s: Setting<String>) -> Setting<Seq<char>> {
    match s {
        Setting::Value(v) => Setting::Value(v@),
        Setting::Null => Setting::Null,
        Setting::NotSet => Setting::NotSet,
    }
}

/// The tri-state value a present patch field denotes: an explicit null
/// clears, a string sets.
pub open spec fn spec_setting_of(v: Option<String>) -> Setting<Seq<char>> {
    match v {
        Some(s) => Setting::Value(s@),
        None => Setting::Null,
    }
}

/// What a sequence of patch fields folds to, walked left to right over
/// the two tri-state accumulators: the first field outside the two
/// mutable ones decides the error; a field named twice keeps its last
/// value.
pub open spec fn spec_patch_fold(
    fields: Seq<(String, Option<String>)>,
    d: Setting<Seq<char>>,
    n: Setting<Seq<char>>,
) -> Result<(Setting<Seq<char>>, Setting<Seq<char>>), ApiKeyError>
    decreases fields.len(),
{
    if fields.len() == 0 {
        Ok((d, n))
    } else if fields[0].0@ == "description"@ {
        spec_patch_fold(fields.drop_first(), spec_setting_of(fields[0].1), n)
    } else if fields[0].0@ == "name"@ {
        spec_patch_fold(fields.drop_first(), d, spec_setting_of(fields[0].1))
    } else {
        Err(spec_deny_field(fields[0].0@))
    }
}

impl PatchApiKey {
    /// Builds a patch from the fields present in a request, each a name
    /// with a nullable value. Only `description` and `name` are
    /// accepted; any immutable key field is rejected with its own error,
    /// any other name with the unknown-field error.
    pub fn from_fields(fields: &Vec<(String, Option<String>)>) -> (r: Result<
        PatchApiKey,
        ApiKeyError,
    >)
        ensures
            match r {
                Ok(p) => spec_patch_fold(fields@, Setting::NotSet, Setting::NotSet) == Ok::<
                    _,
                    ApiKeyError,
                >((spec_setting_view(p.description), spec_setting_view(p.name))),
                Err(e) => spec_patch_fold(fields@, Setting::NotSet, Setting::NotSet) == Err::<
                    (Setting<Seq<char>>, Setting<Seq<char>>),
                    _,
                >(e),
            },
    {
        let mut description: Setting<String> = Setting::NotSet;
        let mut name: Setting<String> = Setting::NotSet;
        let mut i: usize = 0;
        proof {
            assert(fields@.skip(0) =~= fields@);
        }
        while i < fields.len()
            invariant
                0 <= i <= fields@.len(),
                spec_patch_fold(fields@, Setting::NotSet, Setting::NotSet) == spec_patch_fold(
                    fields@.skip(i as int),
                    spec_setting_view(description),
                    spec_setting_view(name),
                ),
            decreases fields@.len() - i,
        {
            proof {
                assert(fields@.skip(i as int).drop_first() =~= fields@.skip(i + 1));
                assert(fields@.skip(i as int)[0] == fields@[i as int]);
            }
            let field = &fields[i];
            if str_eq(field.0.as_str(), "description") {
                description = setting_of_opt(&field.1);
            } else if str_eq(field.0.as_str(), "name") {
                name = setting_of_opt(&field.1);
            } else {
                return Err(deny_immutable_fields_api_key(field.0.as_str()));
            }
            i += 1;
        }
        proof {
            assert(fields@.skip(fields@.len() as int) =~= Seq::<(String, Option<String>)>::empty());
        }
        Ok(PatchApiKey { description, name })
    }
}

/// Clones a present patch value into its tri-state form.
fn setting_of_opt(v: &Option<String>) -> (r: Setting<String>)
    ensures
        spec_setting_view(r) == spec_setting_of(*v),
{
    match v {
        Some(s) => Setting::Value(s.clone()),
        None => Setting::Null,
    }
}

impl Key {
    /// Applies an accepted patch: only the two mutable fields change,
    /// each according to its tri-state value, and the update instant is
    /// advanced to the given clock reading. Every other field is kept.
    pub fn apply_patch(&mut self, patch: PatchApiKey, now: i128)
        ensures
            final(self).uid == old(self).uid,
            final(self).actions == old(self).actions,
            final(self).indexes == old(self).indexes,
            final(self).expires_at == old(self).expires_at,
            final(self).created_at == old(self).created_at,
            final(self).updated_at == now,
            final(self).description == (match patch.description {
                Setting::Value(v) => Some(v),
                Setting::Null => None::<String>,
                Setting::NotSet => old(self).description,
            }),
            final(self).name == (match patch.name {
                Setting::Value(v) => Some(v),
                Setting::Null => None::<String>,
                Setting::NotSet => old(self).name,
            }),
    {
        let PatchApiKey { description, name } = patch;
        match description {
            Setting::Value(v) => {
                self.description = Some(v);
            },
            Setting::Null => {
                self.description = None;
            },
            Setting::NotSet => {},
        }
        match name {
            Setting::Value(v) => {
                self.name = Some(v);
            },
            Setting::Null => {
                self.name = None;
            },
            Setting::NotSet => {},
        }
        self.updated_at = now;
    }

    /// The built-in administrative key: the universal wildcard over
    /// every index, never expiring, freshly identified and stamped.
    pub fn default_admin() -> (k: Key)
        ensures
            k.name matches Some(n) && n@ == "Default Admin API Key"@,
            k.description matches Some(d) && d@
                == "Use it for anything that is not a search operation. Caution! Do not expose it on a public frontend"@,
            k.actions@.len() == 1 && k.actions@[0] == Action(crate::actions::ALL),
            k.indexes@.len() == 1 && k.indexes@[0].0@ == "*"@,
            k.expires_at is None,
            k.created_at == k.updated_at,
    {
        let now = now_unix_nanos();
        let uid = new_uuid_v4_u128();
        let mut actions: Vec<Action> = Vec::new();
        actions.push(Action(crate::actions::ALL));
        let mut indexes: Vec<IndexUidPattern> = Vec::new();
        indexes.push(IndexUidPattern::all());
        Key {
            name: Some(String::from_str("Default Admin API Key")),
            description: Some(
                String::from_str(
                    "Use it for anything that is not a search operation. Caution! Do not expose it on a public frontend",
                ),
            ),
            uid,
            actions,
            indexes,
            expires_at: None,
            created_at: now,
            updated_at: now,
        }
    }

    /// The built-in search-only key: the `search` action over every
    /// index, never expiring, freshly identified and stamped.
    pub fn default_search() -> (k: Key)
        ensures
            k.name matches Some(n) && n@ == "Default Search API Key"@,
            k.description matches Some(d) && d@ == "Use it to search from the frontend"@,
            k.actions@.len() == 1 && k.actions@[0] == Action(crate::actions::SEARCH),
            k.indexes@.len() == 1 && k.indexes@[0].0@ == "*"@,
            k.expires_at is None,
            k.created_at == k.updated_at,
    {
        let now = now_unix_nanos();
        let uid = new_uuid_v4_u128();
        let mut actions: Vec<Action> = Vec::new();
        actions.push(Action(crate::actions::SEARCH));
        let mut indexes: Vec<IndexUidPattern> = Vec::new();
        indexes.push(IndexUidPattern::all());
        Key {
            name: Some(String::from_str("Default Search API Key")),
            description: Some(String::from_str("Use it to search from the frontend")),
            uid,
            actions,
            indexes,
            expires_at: None,
            created_at: now,
            updated_at: now,
        }
    }
}

} // verus!
