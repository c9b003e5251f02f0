//! The validation errors that key creation and key patching surface.
//!
//! Each error identifies the field it concerns: a required field that is
//! absent, a field whose value is rejected, an immutable field named in a
//! patch, or a field name outside the known set.

use vstd::prelude::*;

verus! {

/// A field-attributed validation failure of a creation or patch request.
#[derive(Clone, Copy, Debug, PartialEq, Eq, Structural)]
pub enum ApiKeyError {
    /// The required `actions` field is absent from a creation request.
    MissingApiKeyActions,
    /// The required `indexes` field is absent from a creation request.
    MissingApiKeyIndexes,
    /// The required `expiresAt` field is absent from a creation request.
    MissingApiKeyExpiresAt,
    /// An `actions` entry is not a tag of the catalog.
    InvalidApiKeyActions,
    /// An `indexes` entry is not a well-formed index pattern.
    InvalidApiKeyIndexes,
    /// The `expiresAt` value neither parses nor lies in the future.
    InvalidApiKeyExpiresAt,
    /// A patch names the immutable `uid` field.
    ImmutableApiKeyUid,
    /// A patch names the immutable `actions` field.
    ImmutableApiKeyActions,
    /// A patch names the immutable `indexes` field.
    ImmutableApiKeyIndexes,
    /// A patch names the immutable `expiresAt` field.
    ImmutableApiKeyExpiresAt,
    /// A patch names the immutable `createdAt` field.
    ImmutableApiKeyCreatedAt,
    /// A patch names the immutable `updatedAt` field.
    ImmutableApiKeyUpdatedAt,
    /// A field name outside the known set of fields.
    UnknownField,
}

/// The error of the expiration parser, carrying the rejected input. One
/// identity covers both a string that matches no accepted layout and a
/// string that parses to an instant that is not in the future: both mean
/// "reject this value", and callers are not meant to tell them apart.
#[derive(Clone, Debug, PartialEq, Eq)]
pub struct ParseOffsetDateTimeError(pub String);

} // verus!
