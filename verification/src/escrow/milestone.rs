use vstd::prelude::*;
use crate::address::Address;
use crate::error::ContractError;
use crate::escrow::payout::with_milestone;
use crate::escrow::types::{Escrow, Flags, Milestone};
use crate::escrow::validators::milestone::{
    flag_change_outcome, status_change_outcome, validate_milestone_flag_change_conditions,
    validate_milestone_status_change_conditions,
};

verus! {

/// `milestone` with status `new_status`, and evidence `new_evidence` where given.
pub open spec fn with_status(milestone: Milestone, new_status: String, new_evidence: Option<String>) -> Milestone {
    Milestone {
        status: new_status,
        evidence: match new_evidence {
            Some(e) => e,
            None => milestone.evidence,
        },
        ..milestone
    }
}

/// `milestone` with its approval flag set to `new_flag`.
pub open spec fn with_approval(milestone: Milestone, new_flag: bool) -> Milestone {
    Milestone { flags: Flags { approved: new_flag, ..milestone.flags }, ..milestone }
}

/// Updates the milestones of an escrow: their status and their approval.
pub struct MilestoneManager;

impl MilestoneManager {
    /// Sets the status of milestone `milestone_index` to `new_status`, and its
    /// evidence to `new_evidence` where given, at the request of
    /// `service_provider`.
    pub fn change_milestone_status(
        escrow: Escrow,
        milestone_index: i128,
        new_status: String,
        new_evidence: Option<String>,
        service_provider: &Address,
    ) -> (r: Result<Escrow, ContractError>)
        ensures
            match status_change_outcome(escrow@, milestone_index, service_provider@) {
                Err(e) => r == Err::<Escrow, ContractError>(e),
                Ok(_) => r is Ok && r.unwrap()@ == with_milestone(
                    escrow@,
                    milestone_index as int,
                    with_status(escrow@.milestones[milestone_index as int], new_status, new_evidence),
                ),
            },
    {
        validate_milestone_status_change_conditions(&escrow, milestone_index, service_provider)?;
        let mut escrow = escrow;
        let len = escrow.milestones.len();
        assert(0 <= milestone_index < len);
        let index = milestone_index as usize;
        let mut milestone = escrow.milestones[index].clone();
        if let Some(evidence) = new_evidence {
            milestone.evidence = evidence;
        }
        milestone.status = new_status;
        let ghost before = escrow@;
        escrow.milestones.set(index, milestone);
        assert(escrow@ =~= with_milestone(before, milestone_index as int, with_status(before.milestones[milestone_index as int], new_status, new_evidence)));
        Ok(escrow)
    }

    /// Sets the approval flag of milestone `milestone_index` to `new_flag` at
    /// the request of `approver`.
    pub fn change_milestone_approved_flag(
        escrow: Escrow,
        milestone_index: i128,
        new_flag: bool,
        approver: &Address,
    ) -> (r: Result<Escrow, ContractError>)
        ensures
            match flag_change_outcome(escrow@, escrow@.milestones[milestone_index as int], milestone_index, approver@) {
                Err(e) => r == Err::<Escrow, ContractError>(e),
                Ok(_) => r is Ok && r.unwrap()@ == with_milestone(
                    escrow@,
                    milestone_index as int,
                    with_approval(escrow@.milestones[milestone_index as int], new_flag),
                ),
            },
    {
        let len = escrow.milestones.len();
        if milestone_index < 0 || milestone_index >= len as i128 {
            return Err(ContractError::InvalidMileStoneIndex);
        }
        let index = milestone_index as usize;
        let mut milestone = escrow.milestones[index].clone();
        validate_milestone_flag_change_conditions(&escrow, &milestone, milestone_index, approver)?;
        milestone.flags.approved = new_flag;
        let mut escrow = escrow;
        let ghost before = escrow@;
        escrow.milestones.set(index, milestone);
        assert(escrow@ =~= with_milestone(before, milestone_index as int, with_approval(before.milestones[milestone_index as int], new_flag)));
        Ok(escrow)
    }
}

} // verus!
