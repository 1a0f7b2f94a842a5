//! Why an escrow operation was refused.

use vstd::prelude::*;

verus! {

#[derive(Clone, Copy, Debug, PartialEq, Eq, Structural)]
pub enum EscrowError {
    ZeroAmount,
    BadQuorum,
    TooManyOracles,
    BadNonce,
    BadState,
    NotExpired,
    VaultBalanceLow,
    ProjectMismatch,
    QuorumNotMet,
    AlreadyVerified,
    MilestoneNotReleasable,
    BadMilestoneId,
    NothingToRelease,
    RetentionAlreadyReleased,
    WarrantyNotEnded,
    CancelAlreadyRequested,
    Unauthorized,
    CancelNotRequested,
    NoOpenDispute,
    DisputeAlreadyOpen,
    NftDisabled,
    BadNftMint,
    TooManyMilestones,
    MilestoneOverTotal,
    BadAuthorityAccept,
    Reentrancy,
}

} // verus!
