use vstd::prelude::*;

verus! {

/// Why a migration run stopped.
#[derive(Debug, Clone, PartialEq, Eq)]
pub enum MigrationError {
    /// The rename pattern is not a valid regular expression; it holds the pattern.
    InvalidPattern(String),
    /// A key record lacks its name; it holds the position of the key in its batch.
    MissingName(usize),
    /// A key record lacks its secret value; it holds the key's name.
    MissingValue(String),
    /// A key record lacks its id; it holds the position of the key in its batch.
    MissingId(usize),
    /// Listing keys or usage plans failed, for the reason given.
    ListFailed(String),
    /// Creating the key of the given (source) name failed, for the reason given.
    CreateFailed { key_name: String, reason: String },
    /// Attaching the key of the given id to the given plan failed.
    AttachFailed { key_id: String, plan_id: String, reason: String },
}

} // verus!
