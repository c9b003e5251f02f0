//! Action-based authorization for API credentials: a fixed catalog of
//! grantable actions encoded as bits of a 64-bit mask, a combinable
//! `ActionSet` over that catalog, a wildcard-aware authorization policy,
//! an expiration-date parser, and the `Key` entity that carries a granted
//! action set with scoping and lifecycle timestamps.

pub mod actions;
pub mod errors;
pub mod expiration;
pub mod index_uid_pattern;
pub mod keys;
pub mod policy;
pub mod strutil;
