use vstd::prelude::*;

verus! {

/// Every failure the engine reports to a caller. No operation panics: each
/// illegal input or illegal state transition comes back as one of these.
#[derive(Clone, Copy, Debug, PartialEq, Eq, Structural)]
pub enum ContractError {
    /// The caller is not a registered voter.
    Unauthorized,
    /// No proposal exists under the given id.
    NotFound,
    /// The voter has already cast a ballot on this proposal.
    AlreadyVoted,
    /// The operation is illegal for the proposal's current lifecycle state.
    WrongStatus,
    /// The proposal's deadline has been reached.
    Expired,
    /// Close was attempted before the deadline.
    NotExpired,
    /// The action batch of a proposal may not be empty.
    EmptyBatch,
    /// The threshold policy is unsatisfiable against the registry.
    InvalidThreshold,
    /// A voter address appears twice in the registry input.
    DuplicateVoter,
    /// A voter was given weight zero.
    ZeroWeight,
    /// The registry input holds no voters.
    EmptyRegistry,
    /// The execution sandbox rejected the dispatched batch.
    ExternalFailure,
}

} // verus!
