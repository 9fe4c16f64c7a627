use vstd::prelude::*;
use crate::address::Address;
use crate::error::ContractError;
use crate::engagement::dispute::{dispute_flag_outcome, resolving_outcome, split_payouts};
use crate::engagement::mock_oracle::MockOracle;
use crate::engagement::contract::oracle_release_outcome;
use crate::engagement::types::EscrowView;
use crate::escrow::fee::DisputeFeeResult;
use crate::escrow::types::Payout;
use crate::escrow::laws::lemma_proportional_shares;
use crate::escrow::math::{rust_div, trunc_div};
use crate::escrow::payout::{
    due_to, lemma_conditional_payout_sum, lemma_paid_to_concat, lemma_paid_to_conditional, lemma_payout_sum_concat, paid_to,
    payout, payout_sum,
};

verus! {

/// With a platform fee of at most 99.7%, resolving a milestone dispute with
/// non-negative funds pays out the milestone's amount, at most one base unit
/// more through rounding: the commissions and the two net parts together.
pub proof fn lemma_resolution_pays_milestone_amount(
    escrow: EscrowView,
    dispute_resolver: Seq<char>,
    milestone_index: u32,
    approver_funds: i128,
    service_provider_funds: i128,
    trustless_work_address: Address,
)
    requires
        0 <= escrow.platform_fee <= 9_970,
        approver_funds >= 0,
        service_provider_funds >= 0,
    ensures
        resolving_outcome(escrow, dispute_resolver, milestone_index, approver_funds, service_provider_funds) matches Ok(split) ==> {
            let amount = escrow.milestones[milestone_index as int].amount;
            let paid = payout_sum(split_payouts(escrow, trustless_work_address, split));
            amount <= paid <= amount + 1
        },
{
    if let Ok(split) = resolving_outcome(escrow, dispute_resolver, milestone_index, approver_funds, service_provider_funds) {
        let a = approver_funds as int;
        let p = service_provider_funds as int;
        let t = a + p;
        let pf = escrow.platform_fee as int;
        assert(t != 0);
        assert(t > 0);
        assert(t * 30 >= 0 && t * pf >= 0) by (nonlinear_arith)
            requires t > 0, pf >= 0;
        let tw = split.trustless_work_fee as int;
        let pfee = split.platform_fee as int;
        assert(tw == (t * 30) / 10000);
        assert(pfee == (t * pf) / 10000);
        assert(tw >= 0 && pfee >= 0 && tw + pfee <= t) by (nonlinear_arith)
            requires
                tw == (t * 30) / 10000,
                pfee == (t * pf) / 10000,
                t > 0,
                0 <= pf <= 9_970,
        {
            assert(t * 30 + t * pf <= t * 10000);
        }
        let fees = tw + pfee;
        assert(a * fees >= 0 && p * fees >= 0) by (nonlinear_arith)
            requires a >= 0, p >= 0, fees >= 0;
        assert((a * fees) / t <= a && (p * fees) / t <= p) by (nonlinear_arith)
            requires a >= 0, p >= 0, 0 <= fees <= t, t > 0,
        {
            assert(a * fees <= a * t);
            assert(p * fees <= p * t);
        }
        lemma_proportional_shares(a, p, fees, t);
        assert(split.net_approver_funds == a - (a * fees) / t);
        assert(split.net_receiver_funds == p - (p * fees) / t);
        lemma_split_payout_sum(escrow, trustless_work_address, split);
    }
}

/// The payouts of a resolution whose parts are all non-negative add up to the
/// parts' sum.
proof fn lemma_split_payout_sum(escrow: EscrowView, trustless_work_address: Address, f: DisputeFeeResult)
    requires
        f.trustless_work_fee >= 0,
        f.platform_fee >= 0,
        f.net_approver_funds >= 0,
        f.net_receiver_funds >= 0,
    ensures
        payout_sum(split_payouts(escrow, trustless_work_address, f))
            == f.trustless_work_fee + f.platform_fee + f.net_approver_funds + f.net_receiver_funds,
{
    let p1 = if f.trustless_work_fee > 0 { seq![payout(trustless_work_address, f.trustless_work_fee as int)] } else { seq![] };
    let p2 = if f.platform_fee > 0 { seq![payout(escrow.platform_address, f.platform_fee as int)] } else { seq![] };
    let p3 = if f.net_approver_funds > 0 { seq![payout(escrow.approver, f.net_approver_funds as int)] } else { seq![] };
    let p4 = if f.net_receiver_funds > 0 { seq![payout(escrow.service_provider, f.net_receiver_funds as int)] } else { seq![] };
    lemma_conditional_payout_sum(trustless_work_address, f.trustless_work_fee);
    lemma_conditional_payout_sum(escrow.platform_address, f.platform_fee);
    lemma_conditional_payout_sum(escrow.approver, f.net_approver_funds);
    lemma_conditional_payout_sum(escrow.service_provider, f.net_receiver_funds);
    lemma_payout_sum_concat(p1 + p2 + p3, p4);
    lemma_payout_sum_concat(p1 + p2, p3);
    lemma_payout_sum_concat(p1, p2);
}

/// The mock oracle reports what was last stored in it, by `initialize` or by
/// `set_result`.
pub proof fn lemma_oracle_reports_last_set(oracle: MockOracle, result: Option<bool>)
    requires
        oracle.result == Some(result),
    ensures
        oracle.reported() == result,
{
}

/// Putting a milestone in dispute raises its dispute flag only, and a second
/// dispute on the same milestone is refused with `MilestoneAlreadyInDispute`.
pub proof fn lemma_dispute_flag_once(escrow: EscrowView, milestone_index: i128)
    ensures
        dispute_flag_outcome(escrow, milestone_index) matches Ok(n) ==> {
            &&& n.milestones.len() == escrow.milestones.len()
            &&& n.milestones[milestone_index as int].dispute_flag
            &&& forall|j: int| 0 <= j < escrow.milestones.len() && j != milestone_index
                ==> #[trigger] n.milestones[j] == escrow.milestones[j]
            &&& dispute_flag_outcome(n, milestone_index) == Err::<EscrowView, ContractError>(ContractError::MilestoneAlreadyInDispute)
        },
{
}

/// Funds stay locked until the escrow's oracle reports the condition: without
/// a report, no release goes through.
pub proof fn lemma_oracle_release_waits_for_condition(escrow: EscrowView, oracle: Seq<char>, contract_balance: i128)
    ensures
        oracle_release_outcome(escrow, oracle, None, contract_balance) is Err,
{
}

/// Only the escrow's own oracle decides a release, and a released escrow is
/// not released again.
pub proof fn lemma_only_own_oracle_releases_once(
    escrow: EscrowView,
    oracle: Seq<char>,
    condition: Option<bool>,
    contract_balance: i128,
)
    ensures
        oracle != escrow.oracle_id@ ==> oracle_release_outcome(escrow, oracle, condition, contract_balance) is Err,
        !escrow.release_flag && oracle != escrow.oracle_id@ ==> oracle_release_outcome(escrow, oracle, condition, contract_balance)
            == Err::<Payout, ContractError>(ContractError::UnauthorizedOracle),
        escrow.release_flag ==> oracle_release_outcome(escrow, oracle, condition, contract_balance) is Err,
{
}

/// A release decided by the oracle pays the whole escrow amount to the first
/// party where the condition holds, and to the second where it does not.
pub proof fn lemma_oracle_release_pays_by_condition(
    escrow: EscrowView,
    oracle: Seq<char>,
    holds: bool,
    contract_balance: i128,
)
    ensures
        oracle_release_outcome(escrow, oracle, Some(holds), contract_balance) matches Ok(p) ==> {
            &&& p.amount == escrow.amount
            &&& p.recipient == if holds { escrow.party_a } else { escrow.party_b }
        },
{
}

/// A milestone dispute resolution pays each account what its roles are
/// owed: the Trustless Work address 0.3% of the milestone's resolved total,
/// the escrow's platform address its fee in basis points of that total, the
/// approver `approver_funds` and the service provider
/// `service_provider_funds`, each less its share of the two commissions in
/// proportion to its own funds (Rust's rounding toward zero); each amount
/// only where positive. An account with several roles is paid the sum.
pub proof fn lemma_resolution_pays_each_party_its_own_funds(
    escrow: EscrowView,
    dispute_resolver: Seq<char>,
    milestone_index: u32,
    approver_funds: i128,
    service_provider_funds: i128,
    trustless_work_address: Address,
    who: Seq<char>,
)
    ensures
        resolving_outcome(escrow, dispute_resolver, milestone_index, approver_funds, service_provider_funds) matches Ok(split) ==> {
            let total = approver_funds + service_provider_funds;
            let tw_fee = trunc_div(total * 30, 10000);
            let platform_fee = trunc_div(total * escrow.platform_fee, 10000);
            let fees = tw_fee + platform_fee;
            paid_to(split_payouts(escrow, trustless_work_address, split), who)
                == due_to(who, trustless_work_address@, tw_fee)
                + due_to(who, escrow.platform_address@, platform_fee)
                + due_to(who, escrow.approver@, approver_funds - rust_div(approver_funds * fees, total))
                + due_to(who, escrow.service_provider@, service_provider_funds - rust_div(service_provider_funds * fees, total))
        },
{
    if let Ok(f) = resolving_outcome(escrow, dispute_resolver, milestone_index, approver_funds, service_provider_funds) {
        let p1 = if f.trustless_work_fee > 0 { seq![payout(trustless_work_address, f.trustless_work_fee as int)] } else { seq![] };
        let p2 = if f.platform_fee > 0 { seq![payout(escrow.platform_address, f.platform_fee as int)] } else { seq![] };
        let p3 = if f.net_approver_funds > 0 { seq![payout(escrow.approver, f.net_approver_funds as int)] } else { seq![] };
        let p4 = if f.net_receiver_funds > 0 { seq![payout(escrow.service_provider, f.net_receiver_funds as int)] } else { seq![] };
        assert(split_payouts(escrow, trustless_work_address, f) == p1 + p2 + p3 + p4);
        lemma_paid_to_concat(p1 + p2 + p3, p4, who);
        lemma_paid_to_concat(p1 + p2, p3, who);
        lemma_paid_to_concat(p1, p2, who);
        lemma_paid_to_conditional(trustless_work_address, f.trustless_work_fee, who);
        lemma_paid_to_conditional(escrow.platform_address, f.platform_fee, who);
        lemma_paid_to_conditional(escrow.approver, f.net_approver_funds, who);
        lemma_paid_to_conditional(escrow.service_provider, f.net_receiver_funds, who);
    }
}

} // verus!
