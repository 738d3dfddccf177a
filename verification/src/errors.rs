//! The errors that the wallet's instructions answer with.

use vstd::prelude::*;

verus! {

/// Why an instruction was refused.
#[derive(Clone, Copy, Debug, PartialEq, Eq, Structural)]
pub enum Errors {
    /// Invalid number of stratum provided.
    InvalidStrataLen,
    /// Invalid number of owners provided in a stratum.
    InvalidOwnersCount,
    /// Threshold can't exceed the number of owners.
    ThresholdExceeds,
    /// Threshold of the first stratum can't be zero.
    ThresholdZero,
    /// Threshold of the stratum must be zero before deactivation.
    ThresholdNotZero,
    /// The signer is not the owner of the multi-sig.
    InvalidOwner,
    /// The signer is not the creator of this transaction.
    InvalidCreator,
    /// Duplicate owner provided in the stratum.
    DuplicateOwner,
    /// Owner already exists in this multi-sig.
    OwnerAlreadyExists,
    /// Owner doesn't exist in this multi-sig.
    OwnerDoesntExist,
    /// Transaction provided is not from this multisig.
    InvalidTransaction,
    /// The account doesn't match with the instruction data.
    InvalidInstructionAccount,
    /// The instruction is not permitted in multisig.
    InvalidInstruction,
    /// The stratum is inactive.
    InactiveStratum,
    /// The stratum is already active.
    ActiveStratum,
    /// The first stratum cannot be deactivated.
    CannotDeactivateFirst,
    /// The stratum provided doesn't exist.
    InvalidStratumNumber,
    /// The transaction is not open for voting.
    NotVoteStatus,
    /// The version of the transaction is out-dated.
    VersionOutdated,
    /// Insufficient votes to accept the transaction.
    InsufficientVotes,
    /// The transaction data is already finalized.
    AlreadyFinalized,
    /// The transaction is not accepted by the owners.
    NotAccepted,
    /// Tx Data doesn't belong to the given transaction.
    InvalidTxData,
    /// Transaction description is too long.
    InvalidDescriptionLen,
    /// Multisig name is too long.
    InvalidNameLen,
    /// Tx Data doesn't have the provided element.
    InvalidTxDataIndex,
    /// The transaction data was already created for this transaction.
    AlreadyInitiated,
    /// No bump seed gives a valid authority address for this multi-sig.
    AuthorityBumpNotFound,
}

} // verus!
