//! Failures that cache operations surface to their caller.

use vstd::prelude::*;
use vstd::string::StringExecFns;

verus! {

/// Why a cache operation failed.
///
/// Callers must treat `DuplicateHash` as "an entry for this hash is already
/// cached", not as corruption: the index rejects a second record for a hash
/// it already holds, and nothing stored for that hash changes.
#[derive(Debug, Clone)]
pub enum CacheError {
    /// The metadata index already holds a row for the hash.
    DuplicateHash,
    /// The metadata index could not be read or written.
    IndexFailure(String),
    /// A directory or file could not be created, removed, copied or written.
    FilesystemFailure(String),
    /// A declared output pattern could not be resolved.
    ExpansionFailure(String),
}

impl CacheError {
    /// Whether this is the rejection of a second record for an existing hash.
    pub fn is_duplicate_hash(&self) -> (r: bool)
        ensures
            r == (self is DuplicateHash),
    {
        matches!(self, CacheError::DuplicateHash)
    }

    /// Whether the metadata index itself failed.
    pub fn is_index_failure(&self) -> (r: bool)
        ensures
            r == (self is IndexFailure || self is DuplicateHash),
    {
        matches!(self, CacheError::IndexFailure(_) | CacheError::DuplicateHash)
    }

    /// Whether a filesystem step failed.
    pub fn is_filesystem_failure(&self) -> (r: bool)
        ensures
            r == (self is FilesystemFailure),
    {
        matches!(self, CacheError::FilesystemFailure(_))
    }

    /// Whether resolving a declared output pattern failed.
    pub fn is_expansion_failure(&self) -> (r: bool)
        ensures
            r == (self is ExpansionFailure),
    {
        matches!(self, CacheError::ExpansionFailure(_))
    }

    /// A description of the failure, for the caller's log.
    pub fn message(&self) -> (r: String)
        ensures
            self matches CacheError::IndexFailure(d) ==> r@ == d@,
            self matches CacheError::FilesystemFailure(d) ==> r@ == d@,
            self matches CacheError::ExpansionFailure(d) ==> r@ == d@,
    {
        match self {
            CacheError::DuplicateHash => String::from_str("an entry for this hash is already cached"),
            CacheError::IndexFailure(d) => d.clone(),
            CacheError::FilesystemFailure(d) => d.clone(),
            CacheError::ExpansionFailure(d) => d.clone(),
        }
    }
}

} // verus!
