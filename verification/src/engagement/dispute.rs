use vstd::prelude::*;
use crate::address::Address;
use crate::error::ContractError;
use crate::engagement::types::{Escrow, EscrowView, Milestone};
use crate::escrow::fee::DisputeFeeResult;
use crate::escrow::math::{checked_quotient, checked_quotient_of, fits_i128};
use crate::escrow::payout::payout;
use crate::escrow::types::Payout;

verus! {

/// The Trustless Work commission of a dispute resolution, in basis points.
pub const DISPUTE_TRUSTLESS_WORK_FEE_BPS: i128 = 30;

/// What is left of `funds` once it bears its share of `total_fees`, in
/// proportion to `funds` out of `total`, or the error of the step that fails.
pub open spec fn net_of_fee_share(funds: int, total_fees: int, total: int) -> Result<int, ContractError> {
    if !fits_i128(funds * total_fees) {
        Err(ContractError::Overflow)
    } else {
        match checked_quotient(funds * total_fees, total) {
            None => Err(ContractError::DivisionError),
            Some(share) => if !fits_i128(funds - share) {
                Err(ContractError::Underflow)
            } else {
                Ok(funds - share)
            },
        }
    }
}

/// How a milestone dispute resolution that hands `approver_funds` to the
/// approver and `service_provider_funds` to the service provider, out of
/// `total_funds`, splits: the Trustless Work commission (0.3%), the platform
/// commission (`platform_fee` basis points), both of `total_funds`, and each
/// party's funds net of its proportional share of the two; or the error of the
/// step that fails.
pub open spec fn resolution_split(
    approver_funds: int,
    service_provider_funds: int,
    platform_fee: int,
    total_funds: int,
) -> Result<DisputeFeeResult, ContractError> {
    if !fits_i128(total_funds * DISPUTE_TRUSTLESS_WORK_FEE_BPS) {
        Err(ContractError::Overflow)
    } else if !fits_i128(total_funds * platform_fee) {
        Err(ContractError::Overflow)
    } else {
        let tw = checked_quotient(total_funds * DISPUTE_TRUSTLESS_WORK_FEE_BPS, 10000).unwrap();
        let pf = checked_quotient(total_funds * platform_fee, 10000).unwrap();
        if !fits_i128(tw + pf) {
            Err(ContractError::Overflow)
        } else {
            match net_of_fee_share(approver_funds, tw + pf, total_funds) {
                Err(e) => Err(e),
                Ok(net_approver) => match net_of_fee_share(service_provider_funds, tw + pf, total_funds) {
                    Err(e) => Err(e),
                    Ok(net_provider) => Ok(DisputeFeeResult {
                        trustless_work_fee: tw as i128,
                        platform_fee: pf as i128,
                        net_approver_funds: net_approver as i128,
                        net_receiver_funds: net_provider as i128,
                    }),
                },
            }
        }
    }
}

/// The payouts of a resolution with the split `split`, each made only where
/// positive: the two commissions, then the approver, then the service provider.
pub open spec fn split_payouts(escrow: EscrowView, trustless_work_address: Address, split: DisputeFeeResult) -> Seq<Payout> {
    (if split.trustless_work_fee > 0 { seq![payout(trustless_work_address, split.trustless_work_fee as int)] } else { seq![] })
        + (if split.platform_fee > 0 { seq![payout(escrow.platform_address, split.platform_fee as int)] } else { seq![] })
        + (if split.net_approver_funds > 0 { seq![payout(escrow.approver, split.net_approver_funds as int)] } else { seq![] })
        + (if split.net_receiver_funds > 0 { seq![payout(escrow.service_provider, split.net_receiver_funds as int)] } else { seq![] })
}

/// The outcome of resolving the dispute on milestone `milestone_index`: the
/// split, or the error (checked in this order). The funds handed out must add
/// up to the milestone's amount.
pub open spec fn resolving_outcome(
    escrow: EscrowView,
    dispute_resolver: Seq<char>,
    milestone_index: u32,
    approver_funds: i128,
    service_provider_funds: i128,
) -> Result<DisputeFeeResult, ContractError> {
    if dispute_resolver != escrow.dispute_resolver@ {
        Err(ContractError::OnlyDisputeResolverCanExecuteThisFunction)
    } else if milestone_index >= escrow.milestones.len() {
        Err(ContractError::InvalidMileStoneIndex)
    } else if !escrow.milestones[milestone_index as int].dispute_flag {
        Err(ContractError::MilestoneNotInDispute)
    } else if !fits_i128(approver_funds + service_provider_funds) {
        Err(ContractError::Overflow)
    } else if approver_funds + service_provider_funds != escrow.milestones[milestone_index as int].amount {
        Err(ContractError::InsufficientFundsForResolution)
    } else {
        resolution_split(
            approver_funds as int,
            service_provider_funds as int,
            escrow.platform_fee as int,
            approver_funds + service_provider_funds,
        )
    }
}

/// `milestone` once its dispute is resolved: status "resolved" and the
/// resolved flag raised, the rest unchanged.
pub open spec fn is_resolution_of(new: Milestone, old: Milestone) -> bool {
    &&& new.status@ == "resolved"@
    &&& new.description == old.description
    &&& new.approved_flag == old.approved_flag
    &&& new.amount == old.amount
    &&& new.dispute_flag == old.dispute_flag
    &&& new.release_flag == old.release_flag
    &&& new.resolved_flag
}

/// `escrow` with milestone `index` replaced by `milestone`.
pub open spec fn with_milestone(escrow: EscrowView, index: int, milestone: Milestone) -> EscrowView {
    EscrowView { milestones: escrow.milestones.update(index, milestone), ..escrow }
}

/// The outcome of putting milestone `milestone_index` of `escrow` in
/// dispute: the escrow with that milestone's dispute flag raised, or the error
/// (checked in this order).
pub open spec fn dispute_flag_outcome(escrow: EscrowView, milestone_index: i128) -> Result<EscrowView, ContractError> {
    if escrow.milestones.len() == 0 {
        Err(ContractError::NoMileStoneDefined)
    } else if !(0 <= milestone_index < escrow.milestones.len()) {
        Err(ContractError::InvalidMileStoneIndex)
    } else if escrow.milestones[milestone_index as int].dispute_flag {
        Err(ContractError::MilestoneAlreadyInDispute)
    } else {
        Ok(with_milestone(escrow, milestone_index as int, Milestone { dispute_flag: true, ..escrow.milestones[milestone_index as int] }))
    }
}

/// Handles the disputes of an engagement escrow's milestones.
pub struct DisputeManager;

impl DisputeManager {
    /// `funds` net of its share of `total_fees` (see `net_of_fee_share`).
    fn net_funds(funds: i128, total_fees: i128, total: i128) -> (r: Result<i128, ContractError>)
        ensures
            match net_of_fee_share(funds as int, total_fees as int, total as int) {
                Err(e) => r == Err::<i128, ContractError>(e),
                Ok(v) => r == Ok::<i128, ContractError>(v as i128),
            },
    {
        let product = match funds.checked_mul(total_fees) {
            Some(p) => p,
            None => { return Err(ContractError::Overflow); },
        };
        let share = match checked_quotient_of(product, total) {
            Some(q) => q,
            None => { return Err(ContractError::DivisionError); },
        };
        match funds.checked_sub(share) {
            Some(v) => Ok(v),
            None => Err(ContractError::Underflow),
        }
    }

    /// `bps` basis points of `total`, rounded toward zero, or `Overflow`.
    fn bps_of(total: i128, bps: i128) -> (r: Result<i128, ContractError>)
        ensures
            !fits_i128(total * bps) ==> r == Err::<i128, ContractError>(ContractError::Overflow),
            fits_i128(total * bps) ==> r == Ok::<i128, ContractError>(checked_quotient(total * bps, 10000).unwrap() as i128),
    {
        let product = match total.checked_mul(bps) {
            Some(p) => p,
            None => { return Err(ContractError::Overflow); },
        };
        match checked_quotient_of(product, 10000) {
            Some(q) => Ok(q),
            None => Err(ContractError::DivisionError),
        }
    }

    /// Resolves the dispute on milestone `milestone_index` at the request of
    /// `dispute_resolver`: `approver_funds` and `service_provider_funds`, which
    /// must add up to the milestone's amount, are paid out net of their share
    /// of the two commissions, which are paid out too; the milestone gets the
    /// status "resolved" and its resolved flag.
    pub fn resolving_milestone_disputes(
        escrow: Escrow,
        dispute_resolver: &Address,
        milestone_index: u32,
        approver_funds: i128,
        service_provider_funds: i128,
        trustless_work_address: &Address,
    ) -> (r: Result<(Escrow, Vec<Payout>), ContractError>)
        ensures
            match resolving_outcome(escrow@, dispute_resolver@, milestone_index, approver_funds, service_provider_funds) {
                Err(e) => r == Err::<(Escrow, Vec<Payout>), ContractError>(e),
                Ok(split) => r is Ok && {
                    let (new_escrow, payouts) = r.unwrap();
                    &&& payouts@ == split_payouts(escrow@, *trustless_work_address, split)
                    &&& new_escrow@ == with_milestone(escrow@, milestone_index as int, new_escrow@.milestones[milestone_index as int])
                    &&& is_resolution_of(new_escrow@.milestones[milestone_index as int], escrow@.milestones[milestone_index as int])
                },
            },
    {
        if !dispute_resolver.same_as(&escrow.dispute_resolver) {
            return Err(ContractError::OnlyDisputeResolverCanExecuteThisFunction);
        }
        let index = milestone_index as usize;
        if index >= escrow.milestones.len() {
            return Err(ContractError::InvalidMileStoneIndex);
        }
        let milestone = escrow.milestones[index].clone();
        if !milestone.dispute_flag {
            return Err(ContractError::MilestoneNotInDispute);
        }

        let total_funds = match approver_funds.checked_add(service_provider_funds) {
            Some(t) => t,
            None => { return Err(ContractError::Overflow); },
        };
        if total_funds != milestone.amount {
            return Err(ContractError::InsufficientFundsForResolution);
        }

        let trustless_work_fee = Self::bps_of(total_funds, DISPUTE_TRUSTLESS_WORK_FEE_BPS)?;
        let platform_fee = Self::bps_of(total_funds, escrow.platform_fee)?;
        let total_fees = match trustless_work_fee.checked_add(platform_fee) {
            Some(t) => t,
            None => { return Err(ContractError::Overflow); },
        };
        let net_approver_funds = Self::net_funds(approver_funds, total_fees, total_funds)?;
        let net_provider_funds = Self::net_funds(service_provider_funds, total_fees, total_funds)?;
        let ghost split = DisputeFeeResult {
            trustless_work_fee,
            platform_fee,
            net_approver_funds,
            net_receiver_funds: net_provider_funds,
        };

        let mut payouts: Vec<Payout> = Vec::new();
        if trustless_work_fee > 0 {
            payouts.push(Payout { recipient: trustless_work_address.clone(), amount: trustless_work_fee });
        }
        if platform_fee > 0 {
            payouts.push(Payout { recipient: escrow.platform_address.clone(), amount: platform_fee });
        }
        if net_approver_funds > 0 {
            payouts.push(Payout { recipient: escrow.approver.clone(), amount: net_approver_funds });
        }
        if net_provider_funds > 0 {
            payouts.push(Payout { recipient: escrow.service_provider.clone(), amount: net_provider_funds });
        }
        assert(payouts@ =~= split_payouts(escrow@, *trustless_work_address, split));

        let resolved = Milestone {
            description: milestone.description,
            status: String::from_str("resolved"),
            approved_flag: milestone.approved_flag,
            amount: milestone.amount,
            dispute_flag: milestone.dispute_flag,
            release_flag: milestone.release_flag,
            resolved_flag: true,
        };
        let mut escrow = escrow;
        let ghost before = escrow@;
        escrow.milestones.set(index, resolved);
        assert(escrow@ =~= with_milestone(before, milestone_index as int, escrow@.milestones[milestone_index as int]));
        Ok((escrow, payouts))
    }

    /// Puts milestone `milestone_index` in dispute.
    pub fn change_milestone_dispute_flag(escrow: Escrow, milestone_index: i128) -> (r: Result<Escrow, ContractError>)
        ensures
            match dispute_flag_outcome(escrow@, milestone_index) {
                Err(e) => r == Err::<Escrow, ContractError>(e),
                Ok(n) => r is Ok && r.unwrap()@ == n,
            },
    {
        let len = escrow.milestones.len();
        if len == 0 {
            return Err(ContractError::NoMileStoneDefined);
        }
        if milestone_index < 0 || milestone_index >= len as i128 {
            return Err(ContractError::InvalidMileStoneIndex);
        }
        let index = milestone_index as usize;
        let mut milestone = escrow.milestones[index].clone();
        if milestone.dispute_flag {
            return Err(ContractError::MilestoneAlreadyInDispute);
        }
        milestone.dispute_flag = true;
        let mut escrow = escrow;
        let ghost before = escrow@;
        escrow.milestones.set(index, milestone);
        assert(escrow@ =~= with_milestone(before, milestone_index as int, Milestone { dispute_flag: true, ..before.milestones[milestone_index as int] }));
        Ok(escrow)
    }
}

} // verus!
