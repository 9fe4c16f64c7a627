use vstd::prelude::*;

verus! {

/// The errors with which the escrow and engagement contracts refuse a call.
#[derive(Clone, Copy, Debug, PartialEq, Eq, Structural)]
pub enum ContractError {
    EscrowNotFound,
    EscrowAlreadyInitialized,
    PlatformFeeTooHigh,
    FlagsMustBeFalse,
    AmountCannotBeZero,
    TooManyMilestones,
    EscrowPropertiesMismatch,
    MilestoneAlreadyReleased,
    OnlyReleaseSignerCanReleaseEarnings,
    NoMileStoneDefined,
    MilestoneNotCompleted,
    MilestoneOpenedForDisputeResolution,
    InvalidMileStoneIndex,
    OnlyPlatformAddressExecuteThisFunction,
    EscrowHasFunds,
    EscrowBalanceNotEnoughToSendEarnings,
    TooManyEscrowsRequested,
    OnlyDisputeResolverCanExecuteThisFunction,
    MilestoneAlreadyResolved,
    MilestoneNotInDispute,
    AmountsToBeTransferredShouldBePositive,
    TotalDisputeFundsMustNotExceedTheMilestoneAmount,
    InsufficientFundsForResolution,
    EscrowNotFullyProcessed,
    InsufficientEscrowFundsToMakeTheRefund,
    MilestoneAlreadyInDispute,
    UnauthorizedToChangeDisputeFlag,
    OnlyServiceProviderChangeMilstoneStatus,
    OnlyApproverChangeMilstoneFlag,
    EscrowFullyFunded,
    SignerInsufficientFunds,
    AdminNotFound,
    Overflow,
    Underflow,
    DivisionError,
    /// The report comes from an oracle other than the escrow's own.
    UnauthorizedOracle,
    /// The escrow's oracle has not reported the condition yet.
    OracleConditionNotConfirmed,
}

} // verus!
