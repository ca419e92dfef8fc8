use vstd::prelude::*;

verus! {

/// Why an instruction was rejected. A rejected instruction leaves the
/// program state exactly as it was.
#[derive(Clone, Copy, Debug, PartialEq, Eq, Structural)]
pub enum MintError {
    /// A collection already exists for this authority.
    AlreadyInitialized,
    /// The signer is not the authority of the target collection.
    Unauthorized,
    /// A record with the same uniqueness key was already minted.
    DuplicateRecord,
    /// An achievement's unlock time lies after the ledger's current time.
    InvalidTimestamp,
    /// A text field is empty or longer than its bound.
    FieldTooLong,
    /// No new token account can be allocated.
    AccountAllocationFailed,
    /// The target collection was never initialized.
    CollectionNotInitialized,
}

} // verus!
