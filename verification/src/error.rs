//! Failure values surfaced by the data-access operations: one fixed,
//! human-readable message per operation family. Single-row fetch helpers
//! report absence and query failure as distinct variants.

use vstd::prelude::*;

verus! {

/// Why a generated operation failed, by operation family.
#[derive(Clone, Copy, Debug, PartialEq, Eq, Structural)]
pub enum DbError {
    /// Query execution or row-mapping failed during a fetch.
    FetchFailure,
    /// An insert failed.
    CreateFailure,
    /// An update failed.
    UpdateFailure,
    /// A delete failed.
    DeleteFailure,
}

impl DbError {
    /// The fixed, human-readable message for this failure.
    pub fn message(&self) -> (m: &'static str)
        ensures
            *self == DbError::FetchFailure ==> m@ == "failed to fetch data"@,
            *self == DbError::CreateFailure ==> m@ == "failed to create record"@,
            *self == DbError::UpdateFailure ==> m@ == "failed to update record"@,
            *self == DbError::DeleteFailure ==> m@ == "failed to delete record"@,
    {
        match self {
            DbError::FetchFailure => "failed to fetch data",
            DbError::CreateFailure => "failed to create record",
            DbError::UpdateFailure => "failed to update record",
            DbError::DeleteFailure => "failed to delete record",
        }
    }
}

/// Why a single-row fetch produced no row: the row was absent, or the query
/// itself failed. The two cases stay distinguishable.
#[derive(Clone, Copy, Debug, PartialEq, Eq, Structural)]
pub enum GetOneError {
    /// The query ran and matched no row.
    NotFound,
    /// The query itself failed.
    Failed(DbError),
}

/// Why a record could not be analyzed into a schema.
#[derive(Clone, Copy, Debug, PartialEq, Eq, Structural)]
pub enum SchemaError {
    /// No field named `id` with an integer value was declared.
    MissingIdentity,
    /// A field named `created` or `updated` does not hold an integer value.
    TimestampNotInteger,
}

} // verus!
