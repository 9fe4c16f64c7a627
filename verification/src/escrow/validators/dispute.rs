use vstd::prelude::*;
use crate::address::Address;
use crate::error::ContractError;
use crate::escrow::math::{BasicMath, fits_i128};
use crate::escrow::types::{Distribution, Distributions, Escrow, EscrowView, Milestone, Roles};

verus! {

/// The total of the amounts of `distributions`, added up in order: refused
/// with `AmountsToBeTransferredShouldBePositive` at the first negative amount,
/// or with `Overflow` where a running sum leaves `i128`.
pub open spec fn distributions_total(distributions: Seq<Distribution>) -> Result<i128, ContractError>
    decreases distributions.len(),
{
    if distributions.len() == 0 {
        Ok(0)
    } else {
        match distributions_total(distributions.drop_last()) {
            Err(e) => Err(e),
            Ok(t) => {
                let amount = distributions.last().amount;
                if amount < 0 {
                    Err(ContractError::AmountsToBeTransferredShouldBePositive)
                } else if !fits_i128(t + amount) {
                    Err(ContractError::Overflow)
                } else {
                    Ok((t + amount) as i128)
                }
            },
        }
    }
}

/// The plain sum of the amounts of `distributions`.
pub open spec fn amount_sum(distributions: Seq<Distribution>) -> int
    decreases distributions.len(),
{
    if distributions.len() == 0 {
        0
    } else {
        amount_sum(distributions.drop_last()) + distributions.last().amount
    }
}

/// Where the total of `distributions` is accepted, every amount is
/// non-negative and the total is their sum.
pub proof fn lemma_distributions_total(distributions: Seq<Distribution>)
    ensures
        distributions_total(distributions) is Ok ==> {
            &&& distributions_total(distributions).unwrap() == amount_sum(distributions)
            &&& distributions_total(distributions).unwrap() >= 0
            &&& forall|i: int| 0 <= i < distributions.len() ==> (#[trigger] distributions[i]).amount >= 0
        },
    decreases distributions.len(),
{
    if distributions.len() > 0 {
        let shorter = distributions.drop_last();
        lemma_distributions_total(shorter);
        if distributions_total(distributions) is Ok {
            assert forall|i: int| 0 <= i < distributions.len() implies (#[trigger] distributions[i]).amount >= 0 by {
                if i < distributions.len() - 1 {
                    assert(distributions[i] == shorter[i]);
                }
            }
        }
    }
}

/// Adds up the amounts of `distributions` (see `distributions_total`).
pub fn sum_distributions(shares: &Distributions) -> (r: Result<i128, ContractError>)
    ensures
        r == distributions_total(shares@),
{
    let distributions = shares.entries();
    let mut total: i128 = 0;
    let mut i: usize = 0;
    while i < distributions.len()
        invariant
            i <= distributions.len(),
            distributions@ == shares@,
            distributions_total(distributions@.take(i as int)) == Ok::<i128, ContractError>(total),
        decreases distributions.len() - i,
    {
        assert(distributions@.take(i + 1).drop_last() =~= distributions@.take(i as int));
        let amount = distributions[i].amount;
        if amount < 0 {
            proof { lemma_total_error_stays(distributions@, i as int + 1); }
            return Err(ContractError::AmountsToBeTransferredShouldBePositive);
        }
        total = match BasicMath::safe_add(total, amount) {
            Ok(t) => t,
            Err(e) => {
                proof { lemma_total_error_stays(distributions@, i as int + 1); }
                return Err(e);
            },
        };
        i = i + 1;
    }
    assert(distributions@.take(distributions.len() as int) =~= distributions@);
    Ok(total)
}

/// Once a prefix of `distributions` is refused, the whole is refused the same way.
pub proof fn lemma_total_error_stays(distributions: Seq<Distribution>, n: int)
    requires
        0 <= n <= distributions.len(),
        distributions_total(distributions.take(n)) is Err,
    ensures
        distributions_total(distributions) == distributions_total(distributions.take(n)),
    decreases distributions.len() - n,
{
    if n == distributions.len() {
        assert(distributions.take(n) =~= distributions);
    } else {
        assert(distributions.take(n + 1).drop_last() =~= distributions.take(n));
        lemma_total_error_stays(distributions, n + 1);
    }
}

/// Whether the resolution of the dispute on `milestone` of `escrow` by
/// `dispute_resolver`, handing out `distributions` from a contract that holds
/// `current_balance`, is refused, and with which error (checked in this order).
pub open spec fn dispute_resolution_outcome(
    escrow: EscrowView,
    milestone: Milestone,
    dispute_resolver: Seq<char>,
    distributions: Seq<Distribution>,
    current_balance: i128,
) -> Result<(), ContractError> {
    if dispute_resolver != escrow.roles.dispute_resolver@ {
        Err(ContractError::OnlyDisputeResolverCanExecuteThisFunction)
    } else if milestone.flags.released {
        Err(ContractError::MilestoneAlreadyReleased)
    } else if milestone.flags.resolved {
        Err(ContractError::MilestoneAlreadyResolved)
    } else if !milestone.flags.disputed {
        Err(ContractError::MilestoneNotInDispute)
    } else {
        match distributions_total(distributions) {
            Err(e) => Err(e),
            Ok(total) => if total <= 0 {
                Err(ContractError::AmountCannotBeZero)
            } else if total > milestone.amount {
                Err(ContractError::TotalDisputeFundsMustNotExceedTheMilestoneAmount)
            } else if current_balance < total {
                Err(ContractError::InsufficientFundsForResolution)
            } else {
                Ok(())
            },
        }
    }
}

/// Checks that `dispute_resolver` may resolve the dispute on `milestone` by
/// handing out `distributions`, from a contract that holds `current_balance`.
pub fn validate_dispute_resolution_conditions(
    escrow: &Escrow,
    milestone: &Milestone,
    dispute_resolver: &Address,
    distributions: &Distributions,
    current_balance: i128,
) -> (r: Result<(), ContractError>)
    ensures
        r == dispute_resolution_outcome(escrow@, *milestone, dispute_resolver@, distributions@, current_balance),
{
    if !dispute_resolver.same_as(&escrow.roles.dispute_resolver) {
        return Err(ContractError::OnlyDisputeResolverCanExecuteThisFunction);
    }
    if milestone.flags.released {
        return Err(ContractError::MilestoneAlreadyReleased);
    }
    if milestone.flags.resolved {
        return Err(ContractError::MilestoneAlreadyResolved);
    }
    if !milestone.flags.disputed {
        return Err(ContractError::MilestoneNotInDispute);
    }
    let total = sum_distributions(distributions)?;
    if total <= 0 {
        return Err(ContractError::AmountCannotBeZero);
    }
    if total > milestone.amount {
        return Err(ContractError::TotalDisputeFundsMustNotExceedTheMilestoneAmount);
    }
    if current_balance < total {
        return Err(ContractError::InsufficientFundsForResolution);
    }
    Ok(())
}

/// Whether the withdrawal of `required` out of a remaining balance of
/// `remaining_balance` by `dispute_resolver` is refused, and with which error.
pub open spec fn withdraw_outcome(
    escrow: EscrowView,
    dispute_resolver: Seq<char>,
    all_processed: bool,
    remaining_balance: i128,
    required: i128,
) -> Result<(), ContractError> {
    if dispute_resolver != escrow.roles.dispute_resolver@ {
        Err(ContractError::OnlyDisputeResolverCanExecuteThisFunction)
    } else if !all_processed {
        Err(ContractError::EscrowNotFullyProcessed)
    } else if remaining_balance <= 0 {
        Err(ContractError::InsufficientEscrowFundsToMakeTheRefund)
    } else if required > remaining_balance {
        Err(ContractError::InsufficientFundsForResolution)
    } else {
        Ok(())
    }
}

/// Checks that `dispute_resolver` may withdraw `required` of the
/// `remaining_balance`, once every milestone is processed (`all_processed`).
pub fn validate_withdraw_remaining_funds_conditions(
    escrow: &Escrow,
    dispute_resolver: &Address,
    all_processed: bool,
    remaining_balance: i128,
    required: i128,
) -> (r: Result<(), ContractError>)
    ensures
        r == withdraw_outcome(escrow@, dispute_resolver@, all_processed, remaining_balance, required),
{
    if !dispute_resolver.same_as(&escrow.roles.dispute_resolver) {
        return Err(ContractError::OnlyDisputeResolverCanExecuteThisFunction);
    }
    if !all_processed {
        return Err(ContractError::EscrowNotFullyProcessed);
    }
    if remaining_balance <= 0 {
        return Err(ContractError::InsufficientEscrowFundsToMakeTheRefund);
    }
    if required > remaining_balance {
        return Err(ContractError::InsufficientFundsForResolution);
    }
    Ok(())
}

/// Whether `signer` holds one of the six roles that may open a dispute
/// (the vault operator is not among them).
pub open spec fn is_dispute_party(roles: Roles, signer: Seq<char>) -> bool {
    ||| signer == roles.approver@
    ||| signer == roles.service_provider@
    ||| signer == roles.platform_address@
    ||| signer == roles.release_signer@
    ||| signer == roles.dispute_resolver@
    ||| signer == roles.receiver@
}

/// Whether `signer` may open a dispute, with a `signer` among the six parties.
pub fn is_authorized_disputer(roles: &Roles, signer: &Address) -> (r: bool)
    ensures
        r == is_dispute_party(*roles, signer@),
{
    signer.same_as(&roles.approver) || signer.same_as(&roles.service_provider)
        || signer.same_as(&roles.platform_address) || signer.same_as(&roles.release_signer)
        || signer.same_as(&roles.dispute_resolver) || signer.same_as(&roles.receiver)
}

/// Whether opening a dispute on milestone `milestone_index` of `escrow` by
/// `signer` is refused, and with which error (checked in this order).
pub open spec fn dispute_flag_change_outcome(
    escrow: EscrowView,
    milestone_index: i128,
    signer: Seq<char>,
) -> Result<(), ContractError> {
    if escrow.milestones.len() == 0 {
        Err(ContractError::NoMileStoneDefined)
    } else if milestone_index < 0 || milestone_index >= escrow.milestones.len() {
        Err(ContractError::InvalidMileStoneIndex)
    } else if escrow.milestones[milestone_index as int].flags.released {
        Err(ContractError::MilestoneAlreadyReleased)
    } else if escrow.milestones[milestone_index as int].flags.resolved {
        Err(ContractError::MilestoneAlreadyResolved)
    } else if escrow.milestones[milestone_index as int].flags.disputed {
        Err(ContractError::MilestoneAlreadyInDispute)
    } else if !is_dispute_party(escrow.roles, signer) {
        Err(ContractError::UnauthorizedToChangeDisputeFlag)
    } else {
        Ok(())
    }
}

/// Checks that `signer` may open a dispute on milestone `milestone_index`.
pub fn validate_dispute_flag_change_conditions(
    escrow: &Escrow,
    milestone_index: i128,
    signer: &Address,
) -> (r: Result<(), ContractError>)
    ensures
        r == dispute_flag_change_outcome(escrow@, milestone_index, signer@),
{
    if escrow.milestones.len() == 0 {
        return Err(ContractError::NoMileStoneDefined);
    }
    if milestone_index < 0 || milestone_index >= escrow.milestones.len() as i128 {
        return Err(ContractError::InvalidMileStoneIndex);
    }
    let milestone = &escrow.milestones[milestone_index as usize];
    if milestone.flags.released {
        return Err(ContractError::MilestoneAlreadyReleased);
    }
    if milestone.flags.resolved {
        return Err(ContractError::MilestoneAlreadyResolved);
    }
    if milestone.flags.disputed {
        return Err(ContractError::MilestoneAlreadyInDispute);
    }
    if !is_authorized_disputer(&escrow.roles, signer) {
        return Err(ContractError::UnauthorizedToChangeDisputeFlag);
    }
    Ok(())
}

} // verus!
