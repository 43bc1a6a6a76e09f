use vstd::prelude::*;

verus! {

/// The typed failures with which a transaction is rejected. Every handler
/// validates before it mutates: an error always means zero state change.
#[derive(Clone, Copy, Debug, PartialEq, Eq, Structural)]
pub enum ContractError {
    /// The candidate administrator address is malformed.
    InvalidAddress,
    /// A poll with the given question already exists.
    DuplicateKeyError,
    /// No poll with the given question exists.
    NotFoundError,
    /// The vote choice is neither of the recognized choice strings.
    InvalidChoiceError,
}

} // verus!
