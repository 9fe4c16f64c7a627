use vstd::prelude::*;
use crate::address::Address;

verus! {

/// One deliverable of an engagement escrow, with its own amount and flags.
pub struct Milestone {
    pub description: String,
    pub status: String,
    pub approved_flag: bool,
    pub amount: i128,
    pub dispute_flag: bool,
    pub release_flag: bool,
    pub resolved_flag: bool,
}

impl Clone for Milestone {
    fn clone(&self) -> (r: Self)
        ensures
            r == *self,
    {
        Milestone {
            description: self.description.clone(),
            status: self.status.clone(),
            approved_flag: self.approved_flag,
            amount: self.amount,
            dispute_flag: self.dispute_flag,
            release_flag: self.release_flag,
            resolved_flag: self.resolved_flag,
        }
    }
}

/// An engagement escrow: its parties, amounts, milestones, state, and the
/// oracle that decides between two parties.
pub struct Escrow {
    pub engagement_id: String,
    pub title: String,
    pub description: String,
    pub approver: Address,
    pub service_provider: Address,
    pub platform_address: Address,
    pub amount: i128,
    pub platform_fee: i128,
    pub milestones: Vec<Milestone>,
    pub release_signer: Address,
    pub dispute_resolver: Address,
    pub dispute_flag: bool,
    pub release_flag: bool,
    pub resolved_flag: bool,
    pub trustline: Address,
    pub trustline_decimals: i128,
    pub oracle_id: Address,
    pub party_a: Address,
    pub party_b: Address,
}

/// The content of an engagement escrow, with its milestones as a sequence.
#[verifier::ext_equal]
pub struct EscrowView {
    pub engagement_id: String,
    pub title: String,
    pub description: String,
    pub approver: Address,
    pub service_provider: Address,
    pub platform_address: Address,
    pub amount: i128,
    pub platform_fee: i128,
    pub milestones: Seq<Milestone>,
    pub release_signer: Address,
    pub dispute_resolver: Address,
    pub dispute_flag: bool,
    pub release_flag: bool,
    pub resolved_flag: bool,
    pub trustline: Address,
    pub trustline_decimals: i128,
    pub oracle_id: Address,
    pub party_a: Address,
    pub party_b: Address,
}

impl View for Escrow {
    type V = EscrowView;

    open spec fn view(&self) -> EscrowView {
        EscrowView {
            engagement_id: self.engagement_id,
            title: self.title,
            description: self.description,
            approver: self.approver,
            service_provider: self.service_provider,
            platform_address: self.platform_address,
            amount: self.amount,
            platform_fee: self.platform_fee,
            milestones: self.milestones@,
            release_signer: self.release_signer,
            dispute_resolver: self.dispute_resolver,
            dispute_flag: self.dispute_flag,
            release_flag: self.release_flag,
            resolved_flag: self.resolved_flag,
            trustline: self.trustline,
            trustline_decimals: self.trustline_decimals,
            oracle_id: self.oracle_id,
            party_a: self.party_a,
            party_b: self.party_b,
        }
    }
}

impl Clone for Escrow {
    fn clone(&self) -> (r: Self)
        ensures
            r@ == self@,
    {
        let mut milestones: Vec<Milestone> = Vec::new();
        let mut i: usize = 0;
        while i < self.milestones.len()
            invariant
                i <= self.milestones.len(),
                milestones@ == self.milestones@.take(i as int),
            decreases self.milestones.len() - i,
        {
            milestones.push(self.milestones[i].clone());
            i = i + 1;
        }
        assert(self.milestones@.take(self.milestones.len() as int) =~= self.milestones@);
        Escrow {
            engagement_id: self.engagement_id.clone(),
            title: self.title.clone(),
            description: self.description.clone(),
            approver: self.approver.clone(),
            service_provider: self.service_provider.clone(),
            platform_address: self.platform_address.clone(),
            amount: self.amount,
            platform_fee: self.platform_fee,
            milestones,
            release_signer: self.release_signer.clone(),
            dispute_resolver: self.dispute_resolver.clone(),
            dispute_flag: self.dispute_flag,
            release_flag: self.release_flag,
            resolved_flag: self.resolved_flag,
            trustline: self.trustline.clone(),
            trustline_decimals: self.trustline_decimals,
            oracle_id: self.oracle_id.clone(),
            party_a: self.party_a.clone(),
            party_b: self.party_b.clone(),
        }
    }
}

/// An allowance: how much a spender may spend, until which ledger.
#[derive(Clone, Copy, Debug, PartialEq, Eq, Structural)]
pub struct AllowanceValue {
    pub amount: i128,
    pub expiration_ledger: u32,
}

/// The owner and spender an allowance is kept under.
pub struct AllowanceDataKey {
    pub from: Address,
    pub spender: Address,
}

/// The token balance of an escrow contract, as a batch query reports it.
pub struct AddressBalance {
    pub address: Address,
    pub balance: i128,
    pub trustline_decimals: i128,
}

/// The keys under which an engagement contract keeps its state.
pub enum DataKey {
    Escrow,
    Balance(Address),
    Allowance(AllowanceDataKey),
    Admin,
}

} // verus!
