//! Failures reported by storage, and the errors of catalog operations.

use vstd::prelude::*;

verus! {

/// A failed storage call, as the storage layer classifies it.
#[derive(Clone, Debug, PartialEq, Eq)]
pub enum StorageFailure {
    /// A query that had to return a row returned none.
    RowNotFound,
    /// A uniqueness constraint refused a write.
    UniqueViolation,
    /// Anything else, with the storage layer's description.
    Other(String),
}

/// The error of a catalog operation.
#[derive(Clone, Debug, PartialEq, Eq)]
pub enum DbError {
    /// A card named a group that does not exist.
    GroupNotFound(String),
    /// A card named a unit that does not exist.
    UnitNotFound(String),
    /// No card has this id.
    CardNotFound(i64),
    /// The key is already taken.
    Conflict(String),
    /// Storage failed in another way.
    Storage(StorageFailure),
    /// The stored rows of this card disagree with its type.
    Inconsistent(i64),
}

/// `e` is a conflict on key `k`.
pub open spec fn is_conflict_on(e: DbError, k: Seq<char>) -> bool {
    e matches DbError::Conflict(s) && s@ == k
}

/// The error that a failed write of key `k` stands for.
pub open spec fn write_error(f: StorageFailure, k: Seq<char>, e: DbError) -> bool {
    match f {
        StorageFailure::UniqueViolation => is_conflict_on(e, k),
        _ => e == DbError::Storage(f),
    }
}

impl DbError {
    /// Maps a failed write of `key` to an error: a uniqueness violation is a
    /// conflict on the key, anything else a storage error.
    pub fn from_write_failure(f: StorageFailure, key: &String) -> (r: DbError)
        ensures
            write_error(f, key@, r),
    {
        match f {
            StorageFailure::UniqueViolation => DbError::Conflict(key.clone()),
            _ => DbError::Storage(f),
        }
    }

    /// The HTTP status class of the error.
    pub fn status_code(&self) -> (r: u16)
        ensures
            r == match *self {
                DbError::GroupNotFound(_) | DbError::UnitNotFound(_) | DbError::CardNotFound(_) => 404u16,
                DbError::Conflict(_) => 409u16,
                DbError::Storage(_) | DbError::Inconsistent(_) => 500u16,
            },
    {
        match self {
            DbError::GroupNotFound(_) | DbError::UnitNotFound(_) | DbError::CardNotFound(_) => 404,
            DbError::Conflict(_) => 409,
            DbError::Storage(_) | DbError::Inconsistent(_) => 500,
        }
    }
}

} // verus!
