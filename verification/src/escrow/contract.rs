use vstd::prelude::*;
use crate::address::Address;
use crate::error::ContractError;
use crate::escrow::dispute::{DisputeManager, dispute_escrow_outcome, resolve_dispute_result};
use crate::escrow::manager::{EscrowManager, fund_outcome, price_to_record, release_funds_result};
use crate::reflector::{Asset, PriceData};
use crate::escrow::milestone::{MilestoneManager, with_approval, with_status};
use crate::escrow::payout::with_milestone;
use crate::escrow::manager::MAX_ESCROWS;
use crate::escrow::types::{AddressBalance, Escrow, EscrowView, Flags, Payout};
use crate::escrow::validators::escrow::{initialize_outcome, property_change_outcome};
use crate::escrow::validators::milestone::{flag_change_outcome, status_change_outcome};

verus! {

/// The state of an escrow contract instance: its admin, its escrow once
/// created, and the vault it deposits through once set.
pub struct EscrowContract {
    pub admin: Address,
    pub escrow: Option<Escrow>,
    pub vault_address: Option<Address>,
}

impl EscrowContract {
    /// The content of the stored escrow, if any.
    pub open spec fn stored(&self) -> Option<EscrowView> {
        match self.escrow {
            Some(e) => Some(e@),
            None => None,
        }
    }

    /// The contract as `other`, with the escrow whose content is `escrow`.
    pub open spec fn holds(&self, other: &EscrowContract, escrow: EscrowView) -> bool {
        &&& self.stored() == Some(escrow)
        &&& self.admin == other.admin
        &&& self.vault_address == other.vault_address
    }

    /// A new contract instance administered by `admin`, with no escrow yet.
    pub fn __constructor(admin: Address) -> (r: Self)
        ensures
            r.admin == admin,
            r.escrow is None,
            r.vault_address is None,
    {
        EscrowContract { admin, escrow: None, vault_address: None }
    }

    /// A copy of the stored escrow, or `EscrowNotFound`.
    fn current(&self) -> (r: Result<Escrow, ContractError>)
        ensures
            match self.stored() {
                None => r == Err::<Escrow, ContractError>(ContractError::EscrowNotFound),
                Some(e) => r is Ok && r.unwrap()@ == e,
            },
    {
        EscrowManager::get_escrow(&self.escrow)
    }

    /// Creates the contract's escrow with `escrow_properties` and returns it.
    pub fn initialize_escrow(&mut self, escrow_properties: Escrow) -> (r: Result<Escrow, ContractError>)
        ensures
            match initialize_outcome(old(self).escrow is Some, escrow_properties@) {
                Err(e) => r == Err::<Escrow, ContractError>(e) && *final(self) == *old(self),
                Ok(_) => r is Ok && r.unwrap()@ == escrow_properties@ && final(self).holds(old(self), escrow_properties@),
            },
    {
        let initialized = EscrowManager::initialize_escrow(self.escrow.is_some(), escrow_properties)?;
        let stored = initialized.clone();
        self.escrow = Some(stored);
        Ok(initialized)
    }

    /// Checks a deposit of `amount_to_deposit` by a signer that holds
    /// `signer_balance`, while the contract holds `contract_balance`; on
    /// success the deposit is to be transferred into the contract.
    pub fn fund_escrow(&self, amount_to_deposit: i128, signer_balance: i128, contract_balance: i128) -> (r: Result<(), ContractError>)
        ensures
            match self.stored() {
                None => r == Err::<(), ContractError>(ContractError::EscrowNotFound),
                Some(e) => r == fund_outcome(e, amount_to_deposit, signer_balance, contract_balance),
            },
    {
        let escrow = self.current()?;
        EscrowManager::fund_escrow(&escrow, amount_to_deposit, signer_balance, contract_balance)
    }

    /// Releases the escrow at the request of `release_signer`, from a contract
    /// that holds `contract_balance`: returns the payouts to make and marks the
    /// escrow released.
    pub fn release_funds(
        &mut self,
        release_signer: &Address,
        trustless_work_address: &Address,
        contract_balance: i128,
    ) -> (r: Result<Vec<Payout>, ContractError>)
        ensures
            match old(self).stored() {
                None => r == Err::<Vec<Payout>, ContractError>(ContractError::EscrowNotFound) && *final(self) == *old(self),
                Some(e) => match release_funds_result(e, release_signer@, *trustless_work_address, contract_balance) {
                    Err(err) => r == Err::<Vec<Payout>, ContractError>(err) && *final(self) == *old(self),
                    Ok(ps) => r is Ok && r.unwrap()@ == ps
                        && final(self).holds(old(self), EscrowView { flags: Flags { released: true, ..e.flags }, ..e }),
                },
            },
    {
        let escrow = self.current()?;
        let (released, payouts) = EscrowManager::release_funds(escrow, release_signer, trustless_work_address, contract_balance)?;
        self.escrow = Some(released);
        Ok(payouts)
    }

    /// Records on the released escrow the price that the oracle reported at
    /// release: `assets` is the oracle's list (`None` where it could not list
    /// them), `price` its report for the ticker chosen from it, `resolution`
    /// its resolution where it told it, and `now` the ledger time. Returns the
    /// price recorded; nothing changes where none is.
    pub fn record_release_price(
        &mut self,
        assets: &Option<Vec<Asset>>,
        price: Option<PriceData>,
        resolution: Option<u32>,
        now: u64,
    ) -> (r: Option<i128>)
        ensures
            match old(self).stored() {
                None => r is None && *final(self) == *old(self),
                Some(e) => {
                    let listed = match assets { Some(list) => Some(list@), None => None };
                    let recorded = if e.flags.released {
                        price_to_record(listed, e.trustline.address@, price, resolution, now)
                    } else {
                        None
                    };
                    &&& r == recorded
                    &&& match recorded {
                        Some(p) => final(self).holds(old(self), EscrowView { record_price_at_release: p, ..e }),
                        None => *final(self) == *old(self),
                    }
                },
            },
    {
        let escrow = match self.current() {
            Ok(escrow) => escrow,
            Err(_) => { return None; },
        };
        let (updated, recorded) = EscrowManager::record_release_price(escrow, assets, price, resolution, now);
        if recorded.is_some() {
            self.escrow = Some(updated);
        }
        recorded
    }

    /// Replaces the escrow's properties with `escrow_properties` at the request
    /// of `platform_address`, while the contract holds `contract_balance`.
    pub fn update_escrow(
        &mut self,
        platform_address: &Address,
        escrow_properties: Escrow,
        contract_balance: i128,
    ) -> (r: Result<Escrow, ContractError>)
        ensures
            match old(self).stored() {
                None => r == Err::<Escrow, ContractError>(ContractError::EscrowNotFound) && *final(self) == *old(self),
                Some(e) => match property_change_outcome(e, platform_address@, contract_balance, escrow_properties@.milestones) {
                    Err(err) => r == Err::<Escrow, ContractError>(err) && *final(self) == *old(self),
                    Ok(_) => r is Ok && r.unwrap()@ == escrow_properties@ && final(self).holds(old(self), escrow_properties@),
                },
            },
    {
        let existing = self.current()?;
        let updated = EscrowManager::change_escrow_properties(&existing, platform_address, escrow_properties, contract_balance)?;
        let stored = updated.clone();
        self.escrow = Some(stored);
        Ok(updated)
    }

    /// The stored escrow.
    pub fn get_escrow(&self) -> (r: Result<Escrow, ContractError>)
        ensures
            match self.stored() {
                None => r == Err::<Escrow, ContractError>(ContractError::EscrowNotFound),
                Some(e) => r is Ok && r.unwrap()@ == e,
            },
    {
        self.current()
    }

    /// Sets the status (and evidence, where given) of milestone
    /// `milestone_index` at the request of `service_provider`.
    pub fn change_milestone_status(
        &mut self,
        milestone_index: i128,
        new_status: String,
        new_evidence: Option<String>,
        service_provider: &Address,
    ) -> (r: Result<(), ContractError>)
        ensures
            match old(self).stored() {
                None => r == Err::<(), ContractError>(ContractError::EscrowNotFound) && *final(self) == *old(self),
                Some(e) => match status_change_outcome(e, milestone_index, service_provider@) {
                    Err(err) => r == Err::<(), ContractError>(err) && *final(self) == *old(self),
                    Ok(_) => r is Ok && final(self).holds(
                        old(self),
                        with_milestone(e, milestone_index as int, with_status(e.milestones[milestone_index as int], new_status, new_evidence)),
                    ),
                },
            },
    {
        let escrow = self.current()?;
        let updated = MilestoneManager::change_milestone_status(escrow, milestone_index, new_status, new_evidence, service_provider)?;
        self.escrow = Some(updated);
        Ok(())
    }

    /// Sets the approval flag of milestone `milestone_index` to `new_flag` at
    /// the request of `approver`.
    pub fn approve_milestone(&mut self, milestone_index: i128, new_flag: bool, approver: &Address) -> (r: Result<(), ContractError>)
        ensures
            match old(self).stored() {
                None => r == Err::<(), ContractError>(ContractError::EscrowNotFound) && *final(self) == *old(self),
                Some(e) => match flag_change_outcome(e, e.milestones[milestone_index as int], milestone_index, approver@) {
                    Err(err) => r == Err::<(), ContractError>(err) && *final(self) == *old(self),
                    Ok(_) => r is Ok && final(self).holds(
                        old(self),
                        with_milestone(e, milestone_index as int, with_approval(e.milestones[milestone_index as int], new_flag)),
                    ),
                },
            },
    {
        let escrow = self.current()?;
        let updated = MilestoneManager::change_milestone_approved_flag(escrow, milestone_index, new_flag, approver)?;
        self.escrow = Some(updated);
        Ok(())
    }

    /// Resolves the escrow-wide dispute at the request of `dispute_resolver`:
    /// returns the payouts to make and marks the escrow resolved.
    pub fn resolve_dispute(
        &mut self,
        dispute_resolver: &Address,
        approver_funds: i128,
        receiver_funds: i128,
        trustless_work_address: &Address,
        contract_balance: i128,
    ) -> (r: Result<Vec<Payout>, ContractError>)
        ensures
            match old(self).stored() {
                None => r == Err::<Vec<Payout>, ContractError>(ContractError::EscrowNotFound) && *final(self) == *old(self),
                Some(e) => match resolve_dispute_result(e, dispute_resolver@, approver_funds, receiver_funds, *trustless_work_address, contract_balance) {
                    Err(err) => r == Err::<Vec<Payout>, ContractError>(err) && *final(self) == *old(self),
                    Ok(ps) => r is Ok && r.unwrap()@ == ps
                        && final(self).holds(old(self), EscrowView { flags: Flags { disputed: false, resolved: true, ..e.flags }, ..e }),
                },
            },
    {
        let escrow = self.current()?;
        let (resolved, payouts) = DisputeManager::resolve_dispute(
            escrow,
            dispute_resolver,
            approver_funds,
            receiver_funds,
            trustless_work_address,
            contract_balance,
        )?;
        self.escrow = Some(resolved);
        Ok(payouts)
    }

    /// Opens the escrow-wide dispute at the request of `signer`.
    pub fn dispute_escrow(&mut self, signer: &Address) -> (r: Result<(), ContractError>)
        ensures
            match old(self).stored() {
                None => r == Err::<(), ContractError>(ContractError::EscrowNotFound) && *final(self) == *old(self),
                Some(e) => match dispute_escrow_outcome(e, signer@) {
                    Err(err) => r == Err::<(), ContractError>(err) && *final(self) == *old(self),
                    Ok(_) => r is Ok && final(self).holds(old(self), EscrowView { flags: Flags { disputed: true, ..e.flags }, ..e }),
                },
            },
    {
        let escrow = self.current()?;
        let disputed = DisputeManager::dispute_escrow(escrow, signer)?;
        self.escrow = Some(disputed);
        Ok(())
    }

    /// Checks that `operator` may run a deposit through a vault: it must be
    /// the escrow's vault operator.
    pub fn deposit_via_vault(&self, operator: &Address) -> (r: Result<(), ContractError>)
        ensures
            match self.stored() {
                None => r == Err::<(), ContractError>(ContractError::EscrowNotFound),
                Some(e) => if operator@ == e.roles.vault_operator@ {
                    r is Ok
                } else {
                    r == Err::<(), ContractError>(ContractError::OnlyPlatformAddressExecuteThisFunction)
                },
            },
    {
        let escrow = self.current()?;
        if !operator.same_as(&escrow.roles.vault_operator) {
            return Err(ContractError::OnlyPlatformAddressExecuteThisFunction);
        }
        Ok(())
    }

    /// Sets the vault address to `vault_address` at the request of
    /// `platform_address`, which must be the escrow's platform.
    pub fn set_vault_address(&mut self, platform_address: &Address, vault_address: Address) -> (r: Result<(), ContractError>)
        ensures
            match old(self).stored() {
                None => r == Err::<(), ContractError>(ContractError::EscrowNotFound) && *final(self) == *old(self),
                Some(e) => if platform_address@ == e.roles.platform_address@ {
                    r is Ok && final(self).vault_address == Some(vault_address)
                        && final(self).admin == old(self).admin && final(self).escrow == old(self).escrow
                } else {
                    r == Err::<(), ContractError>(ContractError::OnlyPlatformAddressExecuteThisFunction) && *final(self) == *old(self)
                },
            },
    {
        let escrow = self.current()?;
        if !platform_address.same_as(&escrow.roles.platform_address) {
            return Err(ContractError::OnlyPlatformAddressExecuteThisFunction);
        }
        self.vault_address = Some(vault_address);
        Ok(())
    }

    /// The stored vault address, or `AdminNotFound` where none is set.
    pub fn get_vault_address(&self) -> (r: Result<Address, ContractError>)
        ensures
            match self.vault_address {
                None => r == Err::<Address, ContractError>(ContractError::AdminNotFound),
                Some(a) => r == Ok::<Address, ContractError>(a),
            },
    {
        match &self.vault_address {
            None => Err(ContractError::AdminNotFound),
            Some(a) => Ok(a.clone()),
        }
    }

    /// The address of the vault's share token, which is the vault itself.
    pub fn get_vault_share_token_address(&self) -> (r: Result<Address, ContractError>)
        ensures
            match self.vault_address {
                None => r == Err::<Address, ContractError>(ContractError::AdminNotFound),
                Some(a) => r == Ok::<Address, ContractError>(a),
            },
    {
        self.get_vault_address()
    }

    /// Checks a deposit through the stored vault by `operator`, and returns
    /// the vault to deposit through.
    pub fn deposit_via_vault_stored(&self, operator: &Address) -> (r: Result<Address, ContractError>)
        ensures
            match self.vault_address {
                None => r == Err::<Address, ContractError>(ContractError::AdminNotFound),
                Some(a) => match self.stored() {
                    None => r == Err::<Address, ContractError>(ContractError::EscrowNotFound),
                    Some(e) => if operator@ == e.roles.vault_operator@ {
                        r == Ok::<Address, ContractError>(a)
                    } else {
                        r == Err::<Address, ContractError>(ContractError::OnlyPlatformAddressExecuteThisFunction)
                    },
                },
            },
    {
        let vault_address = self.get_vault_address()?;
        self.deposit_via_vault(operator)?;
        Ok(vault_address)
    }

    /// The balances of the escrow contracts at `addresses`, from the token
    /// balance and decimals found for each (see
    /// `EscrowManager::get_multiple_escrow_balances`).
    pub fn get_multiple_escrow_balances(
        addresses: &Vec<Address>,
        lookups: &Vec<(i128, u32)>,
    ) -> (r: Result<Vec<AddressBalance>, ContractError>)
        requires
            addresses.len() <= MAX_ESCROWS ==> lookups.len() == addresses.len(),
        ensures
            addresses.len() > MAX_ESCROWS ==> r == Err::<Vec<AddressBalance>, ContractError>(ContractError::TooManyEscrowsRequested),
            addresses.len() <= MAX_ESCROWS ==> r is Ok && {
                let balances = r.unwrap()@;
                &&& balances.len() == addresses.len()
                &&& forall|i: int| 0 <= i < balances.len() ==> {
                    &&& (#[trigger] balances[i]).address == addresses@[i]
                    &&& balances[i].balance == lookups@[i].0
                    &&& balances[i].trustline_decimals == lookups@[i].1
                }
            },
    {
        EscrowManager::get_multiple_escrow_balances(addresses, lookups)
    }
}

} // verus!
