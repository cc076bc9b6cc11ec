use vstd::prelude::*;

verus! {

/// The ways a registration or curation request can be rejected.
///
/// All validation happens before any mutation, so whenever one of these is
/// returned the registry state is unchanged.
#[derive(Clone, Copy, Debug, PartialEq, Eq, Structural)]
pub enum TokenError {
    /// The token id is already present in the registry.
    DuplicateTokenId,
    /// The token id string of a curation request is empty.
    EmptyTokenId,
    /// The initial balance list is malformed or inconsistent for the chosen
    /// token-type variant: a duplicate address, an NFT distribution that does
    /// not consist of exactly one entry of amount one, or a total supply that
    /// exceeds the 128-bit range.
    InvalidCurationBalances,
    /// The transaction counter is exhausted; the whole contract call aborts.
    CounterOverflow,
}

} // verus!
