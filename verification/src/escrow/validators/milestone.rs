use vstd::prelude::*;
use crate::address::Address;
use crate::error::ContractError;
use crate::escrow::types::{Escrow, EscrowView, Milestone};

verus! {

/// Whether `milestone_index` names a milestone of `escrow`.
pub open spec fn valid_index(escrow: EscrowView, milestone_index: i128) -> bool {
    0 <= milestone_index < escrow.milestones.len()
}

/// Whether a status change of milestone `milestone_index` by
/// `service_provider` is refused, and with which error (checked in this order).
pub open spec fn status_change_outcome(
    escrow: EscrowView,
    milestone_index: i128,
    service_provider: Seq<char>,
) -> Result<(), ContractError> {
    if service_provider != escrow.roles.service_provider@ {
        Err(ContractError::OnlyServiceProviderChangeMilstoneStatus)
    } else if escrow.milestones.len() == 0 {
        Err(ContractError::NoMileStoneDefined)
    } else if !valid_index(escrow, milestone_index) {
        Err(ContractError::InvalidMileStoneIndex)
    } else {
        Ok(())
    }
}

/// Checks that `service_provider` may change the status of milestone
/// `milestone_index`: only the escrow's service provider may, and only of an
/// existing milestone.
pub fn validate_milestone_status_change_conditions(
    escrow: &Escrow,
    milestone_index: i128,
    service_provider: &Address,
) -> (r: Result<(), ContractError>)
    ensures
        r == status_change_outcome(escrow@, milestone_index, service_provider@),
{
    if !service_provider.same_as(&escrow.roles.service_provider) {
        return Err(ContractError::OnlyServiceProviderChangeMilstoneStatus);
    }
    if escrow.milestones.len() == 0 {
        return Err(ContractError::NoMileStoneDefined);
    }
    if milestone_index < 0 || milestone_index >= escrow.milestones.len() as i128 {
        return Err(ContractError::InvalidMileStoneIndex);
    }
    Ok(())
}

/// Whether a change of the approval flag of `milestone`, at `milestone_index`
/// of `escrow`, by `approver` is refused, and with which error.
pub open spec fn flag_change_outcome(
    escrow: EscrowView,
    milestone: Milestone,
    milestone_index: i128,
    approver: Seq<char>,
) -> Result<(), ContractError> {
    if !valid_index(escrow, milestone_index) {
        Err(ContractError::InvalidMileStoneIndex)
    } else if approver != escrow.roles.approver@ {
        Err(ContractError::OnlyApproverChangeMilstoneFlag)
    } else {
        Ok(())
    }
}

/// Checks that `approver` may change the approval flag of `milestone`, at
/// `milestone_index`: only the escrow's approver may, and only of an existing
/// milestone.
pub fn validate_milestone_flag_change_conditions(
    escrow: &Escrow,
    milestone: &Milestone,
    milestone_index: i128,
    approver: &Address,
) -> (r: Result<(), ContractError>)
    ensures
        r == flag_change_outcome(escrow@, *milestone, milestone_index, approver@),
{
    if milestone_index < 0 || milestone_index >= escrow.milestones.len() as i128 {
        return Err(ContractError::InvalidMileStoneIndex);
    }
    if !approver.same_as(&escrow.roles.approver) {
        return Err(ContractError::OnlyApproverChangeMilstoneFlag);
    }
    Ok(())
}

} // verus!
