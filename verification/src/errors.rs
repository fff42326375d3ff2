//! The reasons for which a bridge operation is refused.

use vstd::prelude::*;

verus! {

/// Why an operation was refused. A refused operation changes nothing.
#[derive(Clone, Copy, Debug, PartialEq, Eq, Structural)]
pub enum BridgeError {
    /// The chain identifier is empty.
    InvalidChainId,
    /// The attestation threshold is not between 1 and 10000 basis points.
    InvalidThreshold,
    /// The amount is zero.
    InvalidAmount,
    /// The bridge is paused.
    BridgePaused,
    /// The recipient is not an address of the origin chain.
    InvalidMirageRecipient,
    /// The burn counter cannot be advanced.
    NonceOverflow,
    /// A running total of amounts does not fit in 64 bits.
    AmountOverflow,
    /// The signer is not a current validator.
    UnauthorizedSigner,
    /// The registry holds no voting power.
    InvalidValidatorSet,
    /// The burn hash differs from the one on the record.
    BurnHashMismatch,
    /// The recipient differs from the one on the record.
    RecipientMismatch,
    /// The amount differs from the one on the record.
    AmountMismatch,
    /// More validators or attestors than there is room for.
    CapacityExceeded,
    /// Voting power, or the power required for a quorum, does not fit in 64 bits.
    PowerOverflow,
    /// No signature verification step precedes the attestation, or it cannot be read.
    MissingSignatureStep,
    /// The signature verification step does not carry exactly one signature.
    UnexpectedSignatureCount,
    /// The signature record is cut short or points outside its data.
    MalformedSignatureData,
    /// The signature was made by another key than the validator's.
    SignerMismatch,
    /// The signature covers another message than the attestation's.
    MessageMismatch,
    /// The caller is not the authority, or not the payer of the record.
    Unauthorized,
    /// The new authority is the current one.
    InvalidAuthority,
    /// The new validator set is empty.
    EmptySet,
    /// The sequence number lies behind the replay window.
    TooOld,
    /// The sequence number has been settled already.
    AlreadySettled,
}

} // verus!
