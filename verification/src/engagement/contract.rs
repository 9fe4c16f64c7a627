use vstd::prelude::*;
use crate::address::Address;
use crate::error::ContractError;
use crate::engagement::dispute::{DisputeManager, dispute_flag_outcome, is_resolution_of, resolving_outcome, split_payouts, with_milestone};
use crate::engagement::price_oracle::PriceOracle;
use crate::engagement::types::{Escrow, EscrowView};
use crate::escrow::types::Payout;

verus! {

/// What a release decided by an oracle gives: the escrow must not be
/// released yet; the report `condition` of the oracle at `oracle` counts only
/// where that is the escrow's own oracle; the escrow must not be in dispute,
/// the condition must be
/// reported, and the contract's `contract_balance` must cover the positive
/// escrow amount. The whole amount then goes to the first party where the
/// condition holds, and to the second where it does not.
pub open spec fn oracle_release_outcome(
    escrow: EscrowView,
    oracle: Seq<char>,
    condition: Option<bool>,
    contract_balance: i128,
) -> Result<Payout, ContractError> {
    if escrow.release_flag {
        Err(ContractError::MilestoneAlreadyReleased)
    } else if oracle != escrow.oracle_id@ {
        Err(ContractError::UnauthorizedOracle)
    } else if escrow.dispute_flag {
        Err(ContractError::MilestoneOpenedForDisputeResolution)
    } else if condition is None {
        Err(ContractError::OracleConditionNotConfirmed)
    } else if escrow.amount <= 0 {
        Err(ContractError::AmountsToBeTransferredShouldBePositive)
    } else if contract_balance < escrow.amount {
        Err(ContractError::EscrowBalanceNotEnoughToSendEarnings)
    } else {
        Ok(Payout {
            recipient: if condition == Some(true) { escrow.party_a } else { escrow.party_b },
            amount: escrow.amount,
        })
    }
}

/// The state of an engagement contract instance: its escrow once created,
/// and the price oracle it consults.
pub struct EngagementContract {
    pub escrow: Option<Escrow>,
    pub oracle: PriceOracle,
}

impl EngagementContract {
    /// The content of the stored escrow, if any.
    pub open spec fn stored(&self) -> Option<EscrowView> {
        match self.escrow {
            Some(e) => Some(e@),
            None => None,
        }
    }

    /// A new contract instance, with no escrow and no oracle yet.
    pub fn new() -> (r: Self)
        ensures
            r.escrow is None,
            r.oracle.oracle_address is None,
    {
        EngagementContract { escrow: None, oracle: PriceOracle::new() }
    }

    /// Creates the contract's escrow with `escrow_properties` and returns it;
    /// refused where an escrow exists already.
    pub fn initialize_escrow(&mut self, escrow_properties: Escrow) -> (r: Result<Escrow, ContractError>)
        ensures
            old(self).escrow is Some ==> r == Err::<Escrow, ContractError>(ContractError::EscrowAlreadyInitialized)
                && *final(self) == *old(self),
            old(self).escrow is None ==> r is Ok && r.unwrap()@ == escrow_properties@
                && final(self).stored() == Some(escrow_properties@) && final(self).oracle == old(self).oracle,
    {
        if self.escrow.is_some() {
            return Err(ContractError::EscrowAlreadyInitialized);
        }
        let stored = escrow_properties.clone();
        self.escrow = Some(stored);
        Ok(escrow_properties)
    }

    /// The stored escrow, or `EscrowNotFound`.
    pub fn get_escrow(&self) -> (r: Result<Escrow, ContractError>)
        ensures
            match self.stored() {
                None => r == Err::<Escrow, ContractError>(ContractError::EscrowNotFound),
                Some(e) => r is Ok && r.unwrap()@ == e,
            },
    {
        match &self.escrow {
            None => Err(ContractError::EscrowNotFound),
            Some(e) => Ok(e.clone()),
        }
    }

    /// Puts milestone `milestone_index` of the stored escrow in dispute.
    pub fn change_milestone_dispute_flag(&mut self, milestone_index: i128) -> (r: Result<(), ContractError>)
        ensures
            match old(self).stored() {
                None => r == Err::<(), ContractError>(ContractError::EscrowNotFound) && *final(self) == *old(self),
                Some(e) => match dispute_flag_outcome(e, milestone_index) {
                    Err(err) => r == Err::<(), ContractError>(err) && *final(self) == *old(self),
                    Ok(n) => r is Ok && final(self).oracle == old(self).oracle && final(self).stored() == Some(n),
                },
            },
    {
        let escrow = self.get_escrow()?;
        let updated = DisputeManager::change_milestone_dispute_flag(escrow, milestone_index)?;
        self.escrow = Some(updated);
        Ok(())
    }

    /// Resolves the dispute on milestone `milestone_index` of the stored
    /// escrow (see `DisputeManager::resolving_milestone_disputes`) and returns
    /// the payouts to make.
    pub fn resolving_milestone_disputes(
        &mut self,
        dispute_resolver: &Address,
        milestone_index: u32,
        approver_funds: i128,
        service_provider_funds: i128,
        trustless_work_address: &Address,
    ) -> (r: Result<Vec<Payout>, ContractError>)
        ensures
            match old(self).stored() {
                None => r == Err::<Vec<Payout>, ContractError>(ContractError::EscrowNotFound) && *final(self) == *old(self),
                Some(e) => match resolving_outcome(e, dispute_resolver@, milestone_index, approver_funds, service_provider_funds) {
                    Err(err) => r == Err::<Vec<Payout>, ContractError>(err) && *final(self) == *old(self),
                    Ok(split) => r is Ok && r.unwrap()@ == split_payouts(e, *trustless_work_address, split)
                        && final(self).oracle == old(self).oracle
                        && final(self).stored() is Some && {
                            let n = final(self).stored().unwrap();
                            &&& n == with_milestone(e, milestone_index as int, n.milestones[milestone_index as int])
                            &&& is_resolution_of(n.milestones[milestone_index as int], e.milestones[milestone_index as int])
                        },
                },
            },
    {
        let escrow = self.get_escrow()?;
        let (resolved, payouts) = DisputeManager::resolving_milestone_disputes(
            escrow,
            dispute_resolver,
            milestone_index,
            approver_funds,
            service_provider_funds,
            trustless_work_address,
        )?;
        self.escrow = Some(resolved);
        Ok(payouts)
    }
    /// Releases the escrow as the oracle at `oracle_address` decided: its
    /// report `condition` (none where it has not reported) is read while the
    /// contract holds `contract_balance` (see `oracle_release_outcome`). On
    /// success the escrow is marked released and the payout to make is
    /// returned; on refusal the funds stay where they are.
    pub fn release_funds_based_on_oracle(
        &mut self,
        oracle_address: &Address,
        condition: Option<bool>,
        contract_balance: i128,
    ) -> (r: Result<Payout, ContractError>)
        ensures
            match old(self).stored() {
                None => r == Err::<Payout, ContractError>(ContractError::EscrowNotFound) && *final(self) == *old(self),
                Some(e) => match oracle_release_outcome(e, oracle_address@, condition, contract_balance) {
                    Err(err) => r == Err::<Payout, ContractError>(err) && *final(self) == *old(self),
                    Ok(p) => r == Ok::<Payout, ContractError>(p)
                        && final(self).oracle == old(self).oracle
                        && final(self).stored() == Some(EscrowView { release_flag: true, ..e }),
                },
            },
    {
        let escrow = self.get_escrow()?;
        if escrow.release_flag {
            return Err(ContractError::MilestoneAlreadyReleased);
        }
        if !oracle_address.same_as(&escrow.oracle_id) {
            return Err(ContractError::UnauthorizedOracle);
        }
        if escrow.dispute_flag {
            return Err(ContractError::MilestoneOpenedForDisputeResolution);
        }
        let holds = match condition {
            None => { return Err(ContractError::OracleConditionNotConfirmed); },
            Some(holds) => holds,
        };
        if escrow.amount <= 0 {
            return Err(ContractError::AmountsToBeTransferredShouldBePositive);
        }
        if contract_balance < escrow.amount {
            return Err(ContractError::EscrowBalanceNotEnoughToSendEarnings);
        }
        let recipient = if holds { escrow.party_a.clone() } else { escrow.party_b.clone() };
        let payout = Payout { recipient, amount: escrow.amount };
        let mut released = escrow;
        released.release_flag = true;
        self.escrow = Some(released);
        Ok(payout)
    }
}

} // verus!
