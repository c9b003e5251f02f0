//! The index scoping pattern a key carries.
//!
//! The pattern matcher itself is owned by the index layer; here the
//! pattern is an opaque value type with the one constructor the key
//! lifecycle needs: the pattern that matches every index.

use vstd::prelude::*;
use vstd::string::StringExecFns;

verus! {

/// An index-name pattern, carried verbatim.
#[derive(Clone, Debug, PartialEq, Eq)]
pub struct IndexUidPattern(pub String);

impl IndexUidPattern {
    /// The pattern that matches every index.
    pub fn all() -> (r: IndexUidPattern)
        ensures
            r.0@ == "*"@,
    {
        IndexUidPattern(String::from_str("*"))
    }

    /// Whether this is the match-everything pattern.
    pub fn matches_all(&self) -> (r: bool)
        ensures
            r == (self.0@ == "*"@),
    {
        crate::strutil::str_eq(self.0.as_str(), "*")
    }
}

} // verus!
