use vstd::prelude::*;
use crate::address::Address;
use crate::error::ContractError;
use crate::escrow::fee::{DisputeFeeResult, FeeCalculator, FeeCalculatorTrait, StandardFeeResult, dispute_fees, standard_fees};
use crate::escrow::manager::{EscrowManager, receiver_of};
use crate::escrow::math::{BasicMath, fits_i128};
use crate::escrow::payout::{fee_payouts, net_payouts, payout, push_net_payouts, with_milestone};
use crate::escrow::types::{Distribution, Distributions, Escrow, EscrowView, Flags, Milestone, Payout};
use crate::escrow::validators::dispute::{
    is_authorized_disputer, is_dispute_party,
    dispute_flag_change_outcome, dispute_resolution_outcome, distributions_total,
    lemma_distributions_total, sum_distributions, validate_dispute_flag_change_conditions,
    validate_dispute_resolution_conditions, validate_withdraw_remaining_funds_conditions,
    withdraw_outcome,
};

verus! {

/// Whether every milestone is released, resolved or in dispute.
pub open spec fn all_processed(milestones: Seq<Milestone>) -> bool {
    forall|i: int| 0 <= i < milestones.len() ==> {
        let f = (#[trigger] milestones[i]).flags;
        f.released || f.resolved || f.disputed
    }
}

/// The payouts of a resolution or withdrawal that hands out `distributions`,
/// whose total is `total`, with the commissions `fees`: the commissions first,
/// then each distribution net of its share of them.
pub open spec fn distribution_payouts(
    escrow: EscrowView,
    trustless_work_address: Address,
    distributions: Seq<Distribution>,
    total: i128,
    fees: StandardFeeResult,
) -> Result<Seq<Payout>, ContractError> {
    if !fits_i128(fees.trustless_work_fee + fees.platform_fee) {
        Err(ContractError::Overflow)
    } else {
        match net_payouts(distributions, fees.trustless_work_fee + fees.platform_fee, total as int) {
            Err(e) => Err(e),
            Ok(nets) => Ok(fee_payouts(trustless_work_address, escrow.roles.platform_address, fees) + nets),
        }
    }
}

/// The outcome of a withdrawal of the funds left in the contract: the
/// payouts (none where the distributions add up to nothing, whoever asks), or
/// the error (checked in this order).
pub open spec fn withdraw_remaining_result(
    escrow: EscrowView,
    dispute_resolver: Seq<char>,
    trustless_work_address: Address,
    distributions: Seq<Distribution>,
    remaining_balance: i128,
) -> Result<Seq<Payout>, ContractError> {
    match distributions_total(distributions) {
        Err(e) => Err(e),
        Ok(total) => if total == 0 {
            Ok(seq![])
        } else {
            match standard_fees(total as int, escrow.platform_fee as int) {
                Err(e) => Err(e),
                Ok(fees) => match withdraw_outcome(escrow, dispute_resolver, all_processed(escrow.milestones), remaining_balance, total) {
                    Err(e) => Err(e),
                    Ok(_) => distribution_payouts(escrow, trustless_work_address, distributions, total, fees),
                },
            }
        },
    }
}

/// `milestone` once its dispute is resolved: status "resolved", resolved and
/// no longer in dispute, the rest unchanged.
pub open spec fn is_resolution_of(new: Milestone, old: Milestone) -> bool {
    &&& new.status@ == "resolved"@
    &&& new.description == old.description
    &&& new.evidence == old.evidence
    &&& new.amount == old.amount
    &&& new.flags == Flags { resolved: true, disputed: false, ..old.flags }
}

/// The outcome of resolving the dispute on milestone `milestone_index`: the
/// payouts, or the error (checked in this order).
pub open spec fn resolve_milestone_dispute_result(
    escrow: EscrowView,
    dispute_resolver: Seq<char>,
    milestone_index: u32,
    trustless_work_address: Address,
    distributions: Seq<Distribution>,
    current_balance: i128,
) -> Result<Seq<Payout>, ContractError> {
    if milestone_index >= escrow.milestones.len() {
        Err(ContractError::InvalidMileStoneIndex)
    } else {
        match distributions_total(distributions) {
            Err(e) => Err(e),
            Ok(total) => match standard_fees(total as int, escrow.platform_fee as int) {
                Err(e) => Err(e),
                Ok(fees) => if !fits_i128(fees.trustless_work_fee + fees.platform_fee) {
                    Err(ContractError::Overflow)
                } else {
                    match dispute_resolution_outcome(
                        escrow,
                        escrow.milestones[milestone_index as int],
                        dispute_resolver,
                        distributions,
                        current_balance,
                    ) {
                        Err(e) => Err(e),
                        Ok(_) => distribution_payouts(escrow, trustless_work_address, distributions, total, fees),
                    }
                },
            },
        }
    }
}

/// `escrow` with milestone `index` put in dispute.
pub open spec fn with_milestone_disputed(escrow: EscrowView, index: int) -> EscrowView {
    let m = escrow.milestones[index];
    with_milestone(escrow, index, Milestone { flags: Flags { disputed: true, ..m.flags }, ..m })
}

/// The payouts of an escrow-wide resolution with the split `fees`, each made
/// only where positive: the two commissions, then the approver's and the
/// receiver's net funds.
pub open spec fn resolution_payouts(escrow: EscrowView, trustless_work_address: Address, fees: DisputeFeeResult) -> Seq<Payout> {
    (if fees.trustless_work_fee > 0 { seq![payout(trustless_work_address, fees.trustless_work_fee as int)] } else { seq![] })
        + (if fees.platform_fee > 0 { seq![payout(escrow.roles.platform_address, fees.platform_fee as int)] } else { seq![] })
        + (if fees.net_approver_funds > 0 { seq![payout(escrow.roles.approver, fees.net_approver_funds as int)] } else { seq![] })
        + (if fees.net_receiver_funds > 0 { seq![payout(receiver_of(escrow), fees.net_receiver_funds as int)] } else { seq![] })
}

/// The outcome of resolving the escrow-wide dispute by handing
/// `approver_funds` to the approver and `receiver_funds` to the receiver, from
/// a contract that holds `current_balance`: the payouts, or the error
/// (checked in this order).
pub open spec fn resolve_dispute_result(
    escrow: EscrowView,
    dispute_resolver: Seq<char>,
    approver_funds: i128,
    receiver_funds: i128,
    trustless_work_address: Address,
    current_balance: i128,
) -> Result<Seq<Payout>, ContractError> {
    let total = approver_funds + receiver_funds;
    if dispute_resolver != escrow.roles.dispute_resolver@ {
        Err(ContractError::OnlyDisputeResolverCanExecuteThisFunction)
    } else if !escrow.flags.disputed {
        Err(ContractError::MilestoneNotInDispute)
    } else if approver_funds < 0 || receiver_funds < 0 {
        Err(ContractError::AmountsToBeTransferredShouldBePositive)
    } else if !fits_i128(total) {
        Err(ContractError::Overflow)
    } else if total <= 0 {
        Err(ContractError::AmountCannotBeZero)
    } else if current_balance < total {
        Err(ContractError::InsufficientFundsForResolution)
    } else {
        match dispute_fees(approver_funds as int, receiver_funds as int, escrow.platform_fee as int, total) {
            Err(e) => Err(e),
            Ok(fees) => Ok(resolution_payouts(escrow, trustless_work_address, fees)),
        }
    }
}

/// Whether opening the escrow-wide dispute at the request of `signer` is
/// refused, and with which error (checked in this order).
pub open spec fn dispute_escrow_outcome(escrow: EscrowView, signer: Seq<char>) -> Result<(), ContractError> {
    if escrow.flags.released {
        Err(ContractError::MilestoneAlreadyReleased)
    } else if escrow.flags.resolved {
        Err(ContractError::MilestoneAlreadyResolved)
    } else if escrow.flags.disputed {
        Err(ContractError::MilestoneAlreadyInDispute)
    } else if !is_dispute_party(escrow.roles, signer) {
        Err(ContractError::UnauthorizedToChangeDisputeFlag)
    } else {
        Ok(())
    }
}

/// Handles disputes: opening them and settling them with distributions.
pub struct DisputeManager;

impl DisputeManager {
    /// Appends the commission payouts of `fees` (each only where positive).
    fn push_fee_payouts(
        payouts: &mut Vec<Payout>,
        trustless_work_address: &Address,
        platform_address: &Address,
        fees: &StandardFeeResult,
    )
        ensures
            final(payouts)@ == old(payouts)@ + fee_payouts(*trustless_work_address, *platform_address, *fees),
    {
        let ghost start = payouts@;
        if fees.trustless_work_fee > 0 {
            payouts.push(Payout { recipient: trustless_work_address.clone(), amount: fees.trustless_work_fee });
        }
        if fees.platform_fee > 0 {
            payouts.push(Payout { recipient: platform_address.clone(), amount: fees.platform_fee });
        }
        assert(payouts@ =~= start + fee_payouts(*trustless_work_address, *platform_address, *fees));
    }

    /// The payouts that hand out `distributions` (total `total`, positive) with
    /// the commissions `fees`.
    fn distribute(
        escrow: &Escrow,
        trustless_work_address: &Address,
        distributions: &Distributions,
        total: i128,
        fees: &StandardFeeResult,
    ) -> (r: Result<Vec<Payout>, ContractError>)
        requires
            total > 0,
            fees.trustless_work_fee >= 0,
            fees.platform_fee >= 0,
            distributions_total(distributions@) == Ok::<i128, ContractError>(total),
        ensures
            match distribution_payouts(escrow@, *trustless_work_address, distributions@, total, *fees) {
                Err(e) => r == Err::<Vec<Payout>, ContractError>(e),
                Ok(ps) => r is Ok && r.unwrap()@ == ps,
            },
    {
        proof { lemma_distributions_total(distributions@); }
        let mut payouts: Vec<Payout> = Vec::new();
        Self::push_fee_payouts(&mut payouts, trustless_work_address, &escrow.roles.platform_address, fees);
        let total_fees = BasicMath::safe_add(fees.trustless_work_fee, fees.platform_fee)?;
        push_net_payouts(&mut payouts, distributions.entries(), total_fees, total)?;
        Ok(payouts)
    }

    /// The payouts of a withdrawal by `dispute_resolver` of the funds left in
    /// the contract (`remaining_balance`), handed out as `distributions` once
    /// every milestone is released, resolved or in dispute. The escrow itself
    /// is left as it is.
    pub fn withdraw_remaining_funds(
        escrow: &Escrow,
        dispute_resolver: &Address,
        trustless_work_address: &Address,
        distributions: &Distributions,
        remaining_balance: i128,
    ) -> (r: Result<Vec<Payout>, ContractError>)
        ensures
            match withdraw_remaining_result(escrow@, dispute_resolver@, *trustless_work_address, distributions@, remaining_balance) {
                Err(e) => r == Err::<Vec<Payout>, ContractError>(e),
                Ok(ps) => r is Ok && r.unwrap()@ == ps,
            },
    {
        let mut all_done = true;
        let mut i: usize = 0;
        while i < escrow.milestones.len()
            invariant
                i <= escrow.milestones.len(),
                all_done == all_processed(escrow.milestones@.take(i as int)),
            decreases escrow.milestones.len() - i,
        {
            let f = escrow.milestones[i].flags;
            if !(f.released || f.resolved || f.disputed) {
                all_done = false;
            }
            proof {
                let next = escrow.milestones@.take(i + 1);
                if all_done {
                    assert forall|j: int| 0 <= j < next.len() implies {
                        let g = (#[trigger] next[j]).flags;
                        g.released || g.resolved || g.disputed
                    } by {
                        if j < i {
                            assert(next[j] == escrow.milestones@.take(i as int)[j]);
                        }
                    }
                } else if !(f.released || f.resolved || f.disputed) {
                    assert(!({ let g = next[i as int].flags; g.released || g.resolved || g.disputed }));
                } else {
                    let prev = escrow.milestones@.take(i as int);
                    let j = choose|j: int| 0 <= j < prev.len() && !({ let g = (#[trigger] prev[j]).flags; g.released || g.resolved || g.disputed });
                    assert(next[j] == prev[j]);
                }
            }
            i = i + 1;
        }
        assert(escrow.milestones@.take(escrow.milestones.len() as int) =~= escrow.milestones@);

        let total = sum_distributions(distributions)?;
        if total == 0 {
            return Ok(Vec::new());
        }
        proof { lemma_distributions_total(distributions@); }

        let fees = FeeCalculator::calculate_standard_fees(total, escrow.platform_fee as i128)?;
        validate_withdraw_remaining_funds_conditions(escrow, dispute_resolver, all_done, remaining_balance, total)?;
        Self::distribute(escrow, trustless_work_address, distributions, total, &fees)
    }

    /// Resolves the dispute on milestone `milestone_index` by handing out
    /// `distributions` from a contract that holds `current_balance`: the
    /// commissions and the net distributions are paid out, and the milestone is
    /// marked resolved with status "resolved".
    pub fn resolve_milestone_dispute(
        escrow: Escrow,
        dispute_resolver: &Address,
        milestone_index: u32,
        trustless_work_address: &Address,
        distributions: &Distributions,
        current_balance: i128,
    ) -> (r: Result<(Escrow, Vec<Payout>), ContractError>)
        ensures
            match resolve_milestone_dispute_result(escrow@, dispute_resolver@, milestone_index, *trustless_work_address, distributions@, current_balance) {
                Err(e) => r == Err::<(Escrow, Vec<Payout>), ContractError>(e),
                Ok(ps) => r is Ok && {
                    let (new_escrow, payouts) = r.unwrap();
                    &&& payouts@ == ps
                    &&& new_escrow@ == with_milestone(escrow@, milestone_index as int, new_escrow@.milestones[milestone_index as int])
                    &&& is_resolution_of(new_escrow@.milestones[milestone_index as int], escrow@.milestones[milestone_index as int])
                },
            },
    {
        let mut escrow = escrow;
        let index = milestone_index as usize;
        if index >= escrow.milestones.len() {
            return Err(ContractError::InvalidMileStoneIndex);
        }
        let milestone = escrow.milestones[index].clone();

        let total = sum_distributions(distributions)?;
        let fees = FeeCalculator::calculate_standard_fees(total, escrow.platform_fee as i128)?;
        let _total_fees = BasicMath::safe_add(fees.trustless_work_fee, fees.platform_fee)?;

        validate_dispute_resolution_conditions(&escrow, &milestone, dispute_resolver, distributions, current_balance)?;

        let payouts = Self::distribute(&escrow, trustless_work_address, distributions, total, &fees)?;

        let resolved = Milestone {
            description: milestone.description,
            status: String::from_str("resolved"),
            evidence: milestone.evidence,
            amount: milestone.amount,
            flags: Flags { resolved: true, disputed: false, ..milestone.flags },
        };
        let ghost before = escrow@;
        escrow.milestones.set(index, resolved);
        assert(escrow@ =~= with_milestone(before, milestone_index as int, escrow@.milestones[milestone_index as int]));
        Ok((escrow, payouts))
    }

    /// Opens a dispute on milestone `milestone_index` at the request of `signer`.
    pub fn dispute_milestone(
        escrow: Escrow,
        milestone_index: i128,
        signer: &Address,
    ) -> (r: Result<Escrow, ContractError>)
        ensures
            match dispute_flag_change_outcome(escrow@, milestone_index, signer@) {
                Err(e) => r == Err::<Escrow, ContractError>(e),
                Ok(_) => r is Ok && r.unwrap()@ == with_milestone_disputed(escrow@, milestone_index as int),
            },
    {
        validate_dispute_flag_change_conditions(&escrow, milestone_index, signer)?;
        let mut escrow = escrow;
        let len = escrow.milestones.len();
        assert(0 <= milestone_index < len);
        let index = milestone_index as usize;
        let mut milestone = escrow.milestones[index].clone();
        milestone.flags.disputed = true;
        let ghost before = escrow@;
        escrow.milestones.set(index, milestone);
        assert(escrow@ =~= with_milestone_disputed(before, milestone_index as int));
        Ok(escrow)
    }

    /// Resolves the escrow-wide dispute: `approver_funds` go to the approver and
    /// `receiver_funds` to the receiver, each net of its share of the two
    /// commissions, which are paid out too; the escrow leaves dispute and is
    /// marked resolved.
    pub fn resolve_dispute(
        escrow: Escrow,
        dispute_resolver: &Address,
        approver_funds: i128,
        receiver_funds: i128,
        trustless_work_address: &Address,
        current_balance: i128,
    ) -> (r: Result<(Escrow, Vec<Payout>), ContractError>)
        ensures
            match resolve_dispute_result(escrow@, dispute_resolver@, approver_funds, receiver_funds, *trustless_work_address, current_balance) {
                Err(e) => r == Err::<(Escrow, Vec<Payout>), ContractError>(e),
                Ok(ps) => r is Ok && {
                    let (new_escrow, payouts) = r.unwrap();
                    &&& payouts@ == ps
                    &&& new_escrow@ == EscrowView { flags: Flags { disputed: false, resolved: true, ..escrow.flags }, ..escrow@ }
                },
            },
    {
        if !dispute_resolver.same_as(&escrow.roles.dispute_resolver) {
            return Err(ContractError::OnlyDisputeResolverCanExecuteThisFunction);
        }
        if !escrow.flags.disputed {
            return Err(ContractError::MilestoneNotInDispute);
        }
        if approver_funds < 0 || receiver_funds < 0 {
            return Err(ContractError::AmountsToBeTransferredShouldBePositive);
        }
        let total = BasicMath::safe_add(approver_funds, receiver_funds)?;
        if total <= 0 {
            return Err(ContractError::AmountCannotBeZero);
        }
        if current_balance < total {
            return Err(ContractError::InsufficientFundsForResolution);
        }
        let fees = FeeCalculator::calculate_dispute_fees(approver_funds, receiver_funds, escrow.platform_fee as i128, total)?;

        let mut payouts: Vec<Payout> = Vec::new();
        if fees.trustless_work_fee > 0 {
            payouts.push(Payout { recipient: trustless_work_address.clone(), amount: fees.trustless_work_fee });
        }
        if fees.platform_fee > 0 {
            payouts.push(Payout { recipient: escrow.roles.platform_address.clone(), amount: fees.platform_fee });
        }
        if fees.net_approver_funds > 0 {
            payouts.push(Payout { recipient: escrow.roles.approver.clone(), amount: fees.net_approver_funds });
        }
        if fees.net_receiver_funds > 0 {
            payouts.push(Payout { recipient: EscrowManager::get_receiver(&escrow), amount: fees.net_receiver_funds });
        }
        assert(payouts@ =~= resolution_payouts(escrow@, *trustless_work_address, fees));

        let mut escrow = escrow;
        escrow.flags.disputed = false;
        escrow.flags.resolved = true;
        Ok((escrow, payouts))
    }

    /// Opens the escrow-wide dispute at the request of `signer`.
    pub fn dispute_escrow(escrow: Escrow, signer: &Address) -> (r: Result<Escrow, ContractError>)
        ensures
            match dispute_escrow_outcome(escrow@, signer@) {
                Err(e) => r == Err::<Escrow, ContractError>(e),
                Ok(_) => r is Ok && r.unwrap()@ == EscrowView { flags: Flags { disputed: true, ..escrow.flags }, ..escrow@ },
            },
    {
        if escrow.flags.released {
            return Err(ContractError::MilestoneAlreadyReleased);
        }
        if escrow.flags.resolved {
            return Err(ContractError::MilestoneAlreadyResolved);
        }
        if escrow.flags.disputed {
            return Err(ContractError::MilestoneAlreadyInDispute);
        }
        if !is_authorized_disputer(&escrow.roles, signer) {
            return Err(ContractError::UnauthorizedToChangeDisputeFlag);
        }
        let mut escrow = escrow;
        escrow.flags.disputed = true;
        Ok(escrow)
    }
}

} // verus!
