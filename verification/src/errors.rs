use vstd::prelude::*;

verus! {

/// Failure taxonomy of the settlement core. Every error aborts the whole
/// operation: a caller that receives `Err` must leave all records unchanged.
#[derive(Clone, Copy, Debug, PartialEq, Eq, Structural)]
pub enum SettlerError {
    /// Only the deployer may call this operation.
    OnlyDeployer,
    /// Only a whitelisted solver may call this operation.
    OnlySolver,
    /// The provided bridging-authority record is not whitelisted.
    AxiaNotWhitelisted,
    /// Only a whitelisted validator may call this operation.
    OnlyValidator,
    /// The recovered signer does not resolve to a whitelisted validator.
    ValidatorNotWhitelisted,
    /// The caller must be the intent's creator.
    IncorrectIntentCreator,
    /// The caller must be the proposal's creator.
    IncorrectProposalCreator,
    /// The intent is already final.
    IntentIsFinal,
    /// The intent is not final yet.
    IntentIsNotFinal,
    /// The proposal is already final.
    ProposalIsFinal,
    /// The proposal is not final yet.
    ProposalIsNotFinal,
    /// The intent's deadline has not passed yet.
    IntentNotYetExpired,
    /// The intent's deadline has passed.
    IntentIsExpired,
    /// The proposal's deadline has not passed yet.
    ProposalNotYetExpired,
    /// The proposal's deadline has passed.
    ProposalIsExpired,
    /// A deadline must lie strictly in the future.
    DeadlineIsInThePast,
    /// A proposal's deadline may not exceed its intent's deadline.
    ProposalDeadlineExceedsIntentDeadline,
    /// The intent has not reached its attestation quorum.
    InsufficientIntentValidations,
    /// The signature co-instruction is malformed or signs the wrong message.
    SigVerificationFailed,
    /// The supplied intent is not the one the proposal references.
    IncorrectIntentForProposal,
    /// The proposal has not been countersigned by the bridging authority.
    ProposalIsNotSigned,
    /// A fee entry names a different asset than the matching fee cap.
    InvalidFeeMint,
    /// A fee entry exceeds the matching fee cap.
    FeeAmountExceedsMaxFee,
    /// A size or counter computation overflowed.
    MathError,
    /// The fulfillment marker for this intent hash already exists.
    IntentAlreadyFulfilled,
    /// A record already lives at the derived address.
    AccountAlreadyInUse,
    /// The protocol is paused; no new records may be created.
    ProtocolPaused,
}

/// Failure taxonomy of the whitelist collaborator.
#[derive(Clone, Copy, Debug, PartialEq, Eq, Structural)]
pub enum WhitelistError {
    /// Only the deployer may call this operation.
    OnlyDeployer,
    /// Only the current administrator may call this operation.
    OnlyAdmin,
    /// Only the proposed administrator may call this operation.
    OnlyProposedAdmin,
    /// A proposed administrator is already pending.
    ProposedAdminIsAlreadySet,
    /// No administrator is proposed, or the cooldown has not elapsed.
    SetProposedAdminError,
    /// The requested cooldown exceeds the allowed maximum.
    CooldownTooLarge,
    /// The cooldown may not be zero.
    CooldownCantBeZero,
    /// A counter computation overflowed.
    MathError,
}

} // verus!
