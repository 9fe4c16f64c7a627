use vstd::prelude::*;
use vstd::arithmetic::div_mod::{lemma_fundamental_div_mod, lemma_mod_pos_bound};
use crate::address::Address;
use crate::error::ContractError;
use crate::escrow::dispute::{
    all_processed, distribution_payouts, resolve_milestone_dispute_result, withdraw_remaining_result,
    dispute_escrow_outcome, resolution_payouts, resolve_dispute_result, with_milestone_disputed,
};
use crate::escrow::fee::{DisputeFeeResult, TRUSTLESS_WORK_FEE_BPS, bps_share, dispute_fees, standard_fees};
use crate::escrow::manager::{fund_outcome, receiver_of, release_funds_result};
use crate::escrow::math::{fits_i128, trunc_div};
use crate::escrow::payout::{
    due_to, fee_payouts, lemma_conditional_payout_sum, lemma_paid_to_concat, lemma_paid_to_conditional, paid_to, lemma_payout_sum_concat, lemma_payout_sum_single, net_payouts, net_share,
    payout, payout_sum, with_milestone,
};
use crate::escrow::types::{Distribution, EscrowView, Flags, Milestone, Payout, distinct_addresses};
use crate::escrow::validators::dispute::{
    amount_sum, dispute_flag_change_outcome, distributions_total, is_dispute_party, lemma_distributions_total,
};
use crate::escrow::milestone::{with_approval, with_status};
use crate::escrow::validators::escrow::{all_approved, initialize_outcome, new_milestones_error, property_change_outcome};
use crate::escrow::validators::milestone::{flag_change_outcome, status_change_outcome};

verus! {

/// When a total `t` is split into two non-negative parts `a` and `p`, the
/// parts' shares of `f`, each rounded down, add up to `f` or to `f - 1`.
pub proof fn lemma_proportional_shares(a: int, p: int, f: int, t: int)
    requires
        a >= 0,
        p >= 0,
        f >= 0,
        t > 0,
        a + p == t,
    ensures
        f - 1 <= (a * f) / t + (p * f) / t <= f,
{
    assert(a * f >= 0) by (nonlinear_arith)
        requires
            a >= 0,
            f >= 0,
    ;
    assert(p * f >= 0) by (nonlinear_arith)
        requires
            p >= 0,
            f >= 0,
    ;
    lemma_fundamental_div_mod(a * f, t);
    lemma_fundamental_div_mod(p * f, t);
    lemma_mod_pos_bound(a * f, t);
    lemma_mod_pos_bound(p * f, t);
    let q1 = (a * f) / t;
    let q2 = (p * f) / t;
    let r1 = (a * f) % t;
    let r2 = (p * f) % t;
    assert(a * f + p * f == t * f) by (nonlinear_arith)
        requires
            a + p == t,
    ;
    assert(t * (f - q1 - q2) == r1 + r2) by (nonlinear_arith)
        requires
            a * f == t * q1 + r1,
            p * f == t * q2 + r2,
            a * f + p * f == t * f,
    ;
    assert(0 <= f - q1 - q2 < 2) by (nonlinear_arith)
        requires
            t * (f - q1 - q2) == r1 + r2,
            0 <= r1 < t,
            0 <= r2 < t,
            t > 0,
    ;
}

/// A release split adds up: the two commissions and the receiver's amount
/// make exactly the amount released.
pub proof fn lemma_standard_fees_add_up(total_amount: int, platform_fee: int)
    ensures
        standard_fees(total_amount, platform_fee) matches Ok(f)
            ==> f.trustless_work_fee + f.platform_fee + f.receiver_amount == total_amount,
{
}

/// A release of the escrow pays out exactly the escrow amount, in three
/// payouts: the Trustless Work commission, the platform commission and the
/// receiver's amount.
pub proof fn lemma_release_pays_escrow_amount(
    escrow: EscrowView,
    release_signer: Seq<char>,
    trustless_work_address: Address,
    contract_balance: i128,
)
    ensures
        release_funds_result(escrow, release_signer, trustless_work_address, contract_balance) matches Ok(ps)
            ==> ps.len() == 3 && payout_sum(ps) == escrow.amount,
{
    if let Ok(ps) = release_funds_result(escrow, release_signer, trustless_work_address, contract_balance) {
        lemma_standard_fees_add_up(escrow.amount as int, escrow.platform_fee as int);
        let a = ps[0];
        let b = ps[1];
        let c = ps[2];
        assert(ps =~= seq![a] + seq![b] + seq![c]);
        lemma_payout_sum_concat(seq![a] + seq![b], seq![c]);
        lemma_payout_sum_concat(seq![a], seq![b]);
        lemma_payout_sum_single(a);
        lemma_payout_sum_single(b);
        lemma_payout_sum_single(c);
    }
}

/// Funds stay locked until the release conditions hold: a release succeeds
/// only at the request of the release signer, for an escrow not released yet
/// and not in dispute, whose milestones exist and are all approved, from a
/// contract that holds at least the escrow amount.
pub proof fn lemma_release_requires_approval(
    escrow: EscrowView,
    release_signer: Seq<char>,
    trustless_work_address: Address,
    contract_balance: i128,
)
    ensures
        release_funds_result(escrow, release_signer, trustless_work_address, contract_balance) is Ok ==> {
            &&& release_signer == escrow.roles.release_signer@
            &&& !escrow.flags.released
            &&& !escrow.flags.disputed
            &&& escrow.milestones.len() > 0
            &&& all_approved(escrow.milestones)
            &&& contract_balance >= escrow.amount
        },
{
}

/// An escrow is released at most once: once a release succeeds, every later
/// release of the released escrow is refused with `MilestoneAlreadyReleased`.
pub proof fn lemma_release_at_most_once(
    escrow: EscrowView,
    release_signer: Seq<char>,
    trustless_work_address: Address,
    contract_balance: i128,
    later_signer: Seq<char>,
    later_address: Address,
    later_balance: i128,
)
    requires
        release_funds_result(escrow, release_signer, trustless_work_address, contract_balance) is Ok,
    ensures
        release_funds_result(
            EscrowView { flags: Flags { released: true, ..escrow.flags }, ..escrow },
            later_signer,
            later_address,
            later_balance,
        ) == Err::<Seq<Payout>, ContractError>(ContractError::MilestoneAlreadyReleased),
{
}

/// A contract holds at most one escrow: once an escrow is stored, every
/// further creation is refused with `EscrowAlreadyInitialized`.
pub proof fn lemma_initialize_at_most_once(escrow_properties: EscrowView)
    ensures
        initialize_outcome(true, escrow_properties) == Err::<(), ContractError>(ContractError::EscrowAlreadyInitialized),
{
}

/// While the escrow is in dispute, deposits and releases are refused.
pub proof fn lemma_dispute_blocks_funding_and_release(
    escrow: EscrowView,
    amount_to_deposit: i128,
    signer_balance: i128,
    release_signer: Seq<char>,
    trustless_work_address: Address,
    contract_balance: i128,
)
    requires
        escrow.flags.disputed,
    ensures
        fund_outcome(escrow, amount_to_deposit, signer_balance, contract_balance)
            == Err::<(), ContractError>(ContractError::MilestoneOpenedForDisputeResolution),
        release_funds_result(escrow, release_signer, trustless_work_address, contract_balance) is Err,
{
}

/// Opening a dispute on a milestone raises that milestone's dispute flag
/// only, and a second dispute on the same milestone is refused with
/// `MilestoneAlreadyInDispute`.
pub proof fn lemma_dispute_milestone_once(escrow: EscrowView, milestone_index: i128, signer: Seq<char>, later_signer: Seq<char>)
    requires
        dispute_flag_change_outcome(escrow, milestone_index, signer) is Ok,
    ensures
        ({
            let disputed = with_milestone_disputed(escrow, milestone_index as int);
            &&& disputed.milestones.len() == escrow.milestones.len()
            &&& disputed.milestones[milestone_index as int].flags.disputed
            &&& forall|j: int| 0 <= j < escrow.milestones.len() && j != milestone_index
                ==> #[trigger] disputed.milestones[j] == escrow.milestones[j]
            &&& dispute_flag_change_outcome(disputed, milestone_index, later_signer)
                == Err::<(), ContractError>(ContractError::MilestoneAlreadyInDispute)
        }),
{
}

/// Only a party of the escrow may open the escrow-wide dispute, and a second
/// dispute is refused with `MilestoneAlreadyInDispute`.
pub proof fn lemma_dispute_escrow_once(escrow: EscrowView, signer: Seq<char>, later_signer: Seq<char>)
    ensures
        dispute_escrow_outcome(escrow, signer) is Ok ==> is_dispute_party(escrow.roles, signer),
        dispute_escrow_outcome(escrow, signer) is Ok ==> dispute_escrow_outcome(
            EscrowView { flags: Flags { disputed: true, ..escrow.flags }, ..escrow },
            later_signer,
        ) == Err::<(), ContractError>(ContractError::MilestoneAlreadyInDispute),
{
}

/// A dispute split hands out the resolved total, at most one base unit more
/// through rounding: the commissions and the two net parts add up to the
/// total or to the total plus one.
pub proof fn lemma_dispute_split_conserves(approver_funds: int, receiver_funds: int, platform_fee: int)
    requires
        approver_funds >= 0,
        receiver_funds >= 0,
        approver_funds + receiver_funds > 0,
        platform_fee >= 0,
    ensures
        dispute_fees(approver_funds, receiver_funds, platform_fee, approver_funds + receiver_funds) matches Ok(f) ==> {
            let paid = f.trustless_work_fee + f.platform_fee + f.net_approver_funds + f.net_receiver_funds;
            approver_funds + receiver_funds <= paid <= approver_funds + receiver_funds + 1
        },
{
    let t = approver_funds + receiver_funds;
    if let Ok(f) = dispute_fees(approver_funds, receiver_funds, platform_fee, t) {
        let fees = f.trustless_work_fee + f.platform_fee;
        assert(bps_share(t, TRUSTLESS_WORK_FEE_BPS as int) >= 0) by (nonlinear_arith)
            requires t > 0;
        assert(t * platform_fee >= 0) by (nonlinear_arith)
            requires t > 0, platform_fee >= 0;
        assert(fees >= 0);
        assert(approver_funds * fees >= 0) by (nonlinear_arith)
            requires approver_funds >= 0, fees >= 0;
        assert(receiver_funds * fees >= 0) by (nonlinear_arith)
            requires receiver_funds >= 0, fees >= 0;
        lemma_proportional_shares(approver_funds, receiver_funds, fees, t);
    }
}

/// With commissions that do not exceed the resolved total (a platform fee of
/// at most 99.7%), an escrow-wide resolution pays out the resolved total, at
/// most one base unit more through rounding.
pub proof fn lemma_resolution_pays_resolved_total(
    escrow: EscrowView,
    dispute_resolver: Seq<char>,
    approver_funds: i128,
    receiver_funds: i128,
    trustless_work_address: Address,
    contract_balance: i128,
)
    requires
        escrow.platform_fee <= 9_970,
    ensures
        resolve_dispute_result(escrow, dispute_resolver, approver_funds, receiver_funds, trustless_work_address, contract_balance)
            matches Ok(ps) ==> approver_funds + receiver_funds <= payout_sum(ps) <= approver_funds + receiver_funds + 1,
{
    if let Ok(ps) = resolve_dispute_result(escrow, dispute_resolver, approver_funds, receiver_funds, trustless_work_address, contract_balance) {
        let t = approver_funds + receiver_funds;
        let f = dispute_fees(approver_funds as int, receiver_funds as int, escrow.platform_fee as int, t).unwrap();
        lemma_dispute_split_conserves(approver_funds as int, receiver_funds as int, escrow.platform_fee as int);
        let fees = f.trustless_work_fee + f.platform_fee;
        lemma_bps_shares_bounded(t, escrow.platform_fee as int);
        lemma_share_at_most_part(approver_funds as int, fees, t);
        lemma_share_at_most_part(receiver_funds as int, fees, t);
        lemma_resolution_payout_sum(escrow, trustless_work_address, f);
    }
}

/// The two commissions of a total `t` at `platform_fee` basis points, for a
/// platform fee of at most 99.7%, are non-negative and add up to at most `t`.
proof fn lemma_bps_shares_bounded(t: int, platform_fee: int)
    requires
        t > 0,
        0 <= platform_fee <= 9_970,
    ensures
        0 <= bps_share(t, TRUSTLESS_WORK_FEE_BPS as int),
        0 <= bps_share(t, platform_fee),
        bps_share(t, TRUSTLESS_WORK_FEE_BPS as int) + bps_share(t, platform_fee) <= t,
{
    assert((t * 30) / 10000 + (t * platform_fee) / 10000 <= t) by (nonlinear_arith)
        requires
            t > 0,
            0 <= platform_fee <= 9_970,
    {
        assert(t * 30 + t * platform_fee <= t * 10000);
    }
    assert(0 <= (t * platform_fee) / 10000) by (nonlinear_arith)
        requires
            t > 0,
            0 <= platform_fee,
    ;
}

/// A part `a` of a total `t` bears a share of `fees` no larger than itself
/// where `fees` does not exceed `t`.
proof fn lemma_share_at_most_part(a: int, fees: int, t: int)
    requires
        0 <= a,
        0 <= fees <= t,
        t > 0,
    ensures
        0 <= trunc_div(a * fees, t) <= a,
{
    assert(0 <= (a * fees) / t <= a) by (nonlinear_arith)
        requires
            0 <= a,
            0 <= fees <= t,
            t > 0,
    {
        assert(a * fees <= a * t);
    }
}

/// The payouts of an escrow-wide resolution whose parts are all non-negative
/// add up to the parts' sum.
proof fn lemma_resolution_payout_sum(escrow: EscrowView, trustless_work_address: Address, f: DisputeFeeResult)
    requires
        f.trustless_work_fee >= 0,
        f.platform_fee >= 0,
        f.net_approver_funds >= 0,
        f.net_receiver_funds >= 0,
    ensures
        payout_sum(resolution_payouts(escrow, trustless_work_address, f))
            == f.trustless_work_fee + f.platform_fee + f.net_approver_funds + f.net_receiver_funds,
{
    let p1 = if f.trustless_work_fee > 0 { seq![payout(trustless_work_address, f.trustless_work_fee as int)] } else { seq![] };
    let p2 = if f.platform_fee > 0 { seq![payout(escrow.roles.platform_address, f.platform_fee as int)] } else { seq![] };
    let p3 = if f.net_approver_funds > 0 { seq![payout(escrow.roles.approver, f.net_approver_funds as int)] } else { seq![] };
    let p4 = if f.net_receiver_funds > 0 { seq![payout(receiver_of(escrow), f.net_receiver_funds as int)] } else { seq![] };
    lemma_conditional_payout_sum(trustless_work_address, f.trustless_work_fee);
    lemma_conditional_payout_sum(escrow.roles.platform_address, f.platform_fee);
    lemma_conditional_payout_sum(escrow.roles.approver, f.net_approver_funds);
    lemma_conditional_payout_sum(receiver_of(escrow), f.net_receiver_funds);
    lemma_payout_sum_concat(p1 + p2 + p3, p4);
    lemma_payout_sum_concat(p1 + p2, p3);
    lemma_payout_sum_concat(p1, p2);
}

/// The sum of the rounded-down shares of `f` that the amounts of
/// `distributions` bear, each in proportion to its amount out of `t`.
pub open spec fn share_sum(distributions: Seq<Distribution>, f: int, t: int) -> int
    decreases distributions.len(),
{
    if distributions.len() == 0 {
        0
    } else {
        share_sum(distributions.drop_last(), f, t) + (distributions.last().amount * f) / t
    }
}

/// Rounding the shares down loses less than one unit per distribution: the
/// exact shares' sum exceeds the rounded sum by less than `len * t` parts of `t`.
proof fn lemma_share_sum_bounds(distributions: Seq<Distribution>, f: int, t: int)
    requires
        t > 0,
        f >= 0,
        forall|i: int| 0 <= i < distributions.len() ==> (#[trigger] distributions[i]).amount >= 0,
    ensures
        0 <= amount_sum(distributions) * f - t * share_sum(distributions, f, t) <= distributions.len() * (t - 1),
    decreases distributions.len(),
{
    if distributions.len() > 0 {
        let shorter = distributions.drop_last();
        assert forall|i: int| 0 <= i < shorter.len() implies (#[trigger] shorter[i]).amount >= 0 by {
            assert(shorter[i] == distributions[i]);
        }
        lemma_share_sum_bounds(shorter, f, t);
        let a = distributions.last().amount as int;
        assert(a >= 0) by {
            assert(distributions[distributions.len() - 1] == distributions.last());
        }
        assert(a * f >= 0) by (nonlinear_arith)
            requires
                a >= 0,
                f >= 0,
        ;
        lemma_fundamental_div_mod(a * f, t);
        lemma_mod_pos_bound(a * f, t);
        let prev = amount_sum(shorter) * f - t * share_sum(shorter, f, t);
        let n = shorter.len() as int;
        let s_all = amount_sum(distributions);
        let s_short = amount_sum(shorter);
        let q_all = share_sum(distributions, f, t);
        let q_short = share_sum(shorter, f, t);
        let d = (a * f) / t;
        let m = (a * f) % t;
        assert(s_all == s_short + a);
        assert(q_all == q_short + d);
        assert(s_all * f - t * q_all == prev + m) by (nonlinear_arith)
            requires
                s_all == s_short + a,
                q_all == q_short + d,
                a * f == t * d + m,
                prev == s_short * f - t * q_short,
        ;
        assert(prev + (a * f) % t <= (n + 1) * (t - 1)) by (nonlinear_arith)
            requires
                prev <= n * (t - 1),
                (a * f) % t <= t - 1,
        ;
    }
}

/// Where every amount is non-negative and the fees do not exceed the total,
/// the net payouts of `distributions` add up to their amounts less the
/// rounded-down shares of the fees.
proof fn lemma_net_payouts_sum(distributions: Seq<Distribution>, f: int, t: int)
    requires
        t > 0,
        0 <= f <= t,
        forall|i: int| 0 <= i < distributions.len() ==> (#[trigger] distributions[i]).amount >= 0,
        net_payouts(distributions, f, t) is Ok,
    ensures
        payout_sum(net_payouts(distributions, f, t).unwrap()) == amount_sum(distributions) - share_sum(distributions, f, t),
    decreases distributions.len(),
{
    if distributions.len() > 0 {
        let shorter = distributions.drop_last();
        assert forall|i: int| 0 <= i < shorter.len() implies (#[trigger] shorter[i]).amount >= 0 by {
            assert(shorter[i] == distributions[i]);
        }
        lemma_net_payouts_sum(shorter, f, t);
        let d = distributions.last();
        let a = d.amount as int;
        assert(a >= 0) by {
            assert(distributions[distributions.len() - 1] == d);
        }
        assert(0 <= (a * f) / t <= a) by (nonlinear_arith)
            requires
                a >= 0,
                0 <= f <= t,
                t > 0,
        {
            assert(a * f <= a * t);
        }
        let ps = net_payouts(shorter, f, t).unwrap();
        if a > 0 && net_share(a, f, t) > 0 {
            assert(a * f >= 0) by (nonlinear_arith)
                requires
                    a >= 0,
                    f >= 0,
            ;
            lemma_payout_sum_concat(ps, seq![payout(d.address, net_share(a, f, t))]);
            lemma_payout_sum_single(payout(d.address, net_share(a, f, t)));
            assert(ps.push(payout(d.address, net_share(a, f, t))) =~= ps + seq![payout(d.address, net_share(a, f, t))]);
        } else if a == 0 {
            assert(a * f == 0) by (nonlinear_arith)
                requires
                    a == 0,
            ;
        } else {
            assert(a * f >= 0) by (nonlinear_arith)
                requires
                    a >= 0,
                    f >= 0,
            ;
        }
    }
}

/// Handing out distributions that add up to `total`, with commissions that do
/// not exceed it (a platform fee of at most 99.7%), pays out the total, at
/// most one base unit more per distribution beyond the first through rounding.
pub proof fn lemma_distribution_pays_total(
    escrow: EscrowView,
    trustless_work_address: Address,
    distributions: Seq<Distribution>,
    total: i128,
)
    requires
        escrow.platform_fee <= 9_970,
        total > 0,
        distributions_total(distributions) == Ok::<i128, ContractError>(total),
    ensures
        standard_fees(total as int, escrow.platform_fee as int) matches Ok(fees) ==> (
            distribution_payouts(escrow, trustless_work_address, distributions, total, fees) matches Ok(ps) ==>
                total <= payout_sum(ps) <= total + distributions.len() - 1
        ),
{
    if let Ok(fees) = standard_fees(total as int, escrow.platform_fee as int) {
        if let Ok(ps) = distribution_payouts(escrow, trustless_work_address, distributions, total, fees) {
            lemma_distributions_total(distributions);
            let t = total as int;
            lemma_bps_shares_bounded(t, escrow.platform_fee as int);
            let f = fees.trustless_work_fee + fees.platform_fee;
            let nets = net_payouts(distributions, f, t).unwrap();
            lemma_net_payouts_sum(distributions, f, t);
            lemma_share_sum_bounds(distributions, f, t);
            let fps = fee_payouts(trustless_work_address, escrow.roles.platform_address, fees);
            lemma_conditional_payout_sum(trustless_work_address, fees.trustless_work_fee);
            lemma_conditional_payout_sum(escrow.roles.platform_address, fees.platform_fee);
            lemma_payout_sum_concat(
                if fees.trustless_work_fee > 0 { seq![payout(trustless_work_address, fees.trustless_work_fee as int)] } else { seq![] },
                if fees.platform_fee > 0 { seq![payout(escrow.roles.platform_address, fees.platform_fee as int)] } else { seq![] },
            );
            lemma_payout_sum_concat(fps, nets);
            let q = share_sum(distributions, f, t);
            let n = distributions.len() as int;
            assert(n >= 1);
            assert(amount_sum(distributions) == t);
            lemma_rounding_loss_bounded(t, f, q, n);
        }
    }
}

/// Where `t * (f - q)` lies between 0 and `n * (t - 1)`, for positive `t`
/// and `n`, the difference `f - q` lies between 0 and `n - 1`.
proof fn lemma_rounding_loss_bounded(t: int, f: int, q: int, n: int)
    requires
        t > 0,
        n >= 1,
        0 <= t * f - t * q <= n * (t - 1),
    ensures
        0 <= f - q <= n - 1,
{
    assert(t * (f - q) == t * f - t * q) by (nonlinear_arith);
    if f - q < 0 {
        assert(t * (f - q) < 0) by (nonlinear_arith)
            requires
                t > 0,
                f - q < 0,
        ;
    }
    if f - q > n - 1 {
        assert(t * (f - q) >= t * n) by (nonlinear_arith)
            requires
                t > 0,
                f - q >= n,
        ;
        assert(t * n > n * (t - 1)) by (nonlinear_arith)
            requires
                n >= 1,
        ;
    }
}

/// A successful milestone dispute resolution, with a platform fee of at most
/// 99.7%, pays out the distributed total, at most one base unit more per
/// distribution beyond the first.
pub proof fn lemma_milestone_resolution_pays_total(
    escrow: EscrowView,
    dispute_resolver: Seq<char>,
    milestone_index: u32,
    trustless_work_address: Address,
    distributions: Seq<Distribution>,
    current_balance: i128,
)
    requires
        escrow.platform_fee <= 9_970,
    ensures
        resolve_milestone_dispute_result(escrow, dispute_resolver, milestone_index, trustless_work_address, distributions, current_balance)
            matches Ok(ps) ==> {
                let total = distributions_total(distributions).unwrap();
                &&& 0 < total <= escrow.milestones[milestone_index as int].amount
                &&& total <= payout_sum(ps) <= total + distributions.len() - 1
            },
{
    if let Ok(_) = resolve_milestone_dispute_result(escrow, dispute_resolver, milestone_index, trustless_work_address, distributions, current_balance) {
        let total = distributions_total(distributions).unwrap();
        lemma_distribution_pays_total(escrow, trustless_work_address, distributions, total);
    }
}

/// A withdrawal of the remaining funds, with a platform fee of at most 99.7%,
/// pays out the distributed total, at most one base unit more per
/// distribution beyond the first, and happens only once every milestone is
/// released, resolved or in dispute (or when nothing is distributed).
pub proof fn lemma_withdrawal_pays_total(
    escrow: EscrowView,
    dispute_resolver: Seq<char>,
    trustless_work_address: Address,
    distributions: Seq<Distribution>,
    remaining_balance: i128,
)
    requires
        escrow.platform_fee <= 9_970,
    ensures
        withdraw_remaining_result(escrow, dispute_resolver, trustless_work_address, distributions, remaining_balance)
            matches Ok(ps) ==> {
                let total = distributions_total(distributions).unwrap();
                &&& total == 0 ==> ps.len() == 0
                &&& total > 0 ==> all_processed(escrow.milestones) && total <= remaining_balance
                &&& total > 0 ==> total <= payout_sum(ps) <= total + distributions.len() - 1
            },
{
    if let Ok(_) = withdraw_remaining_result(escrow, dispute_resolver, trustless_work_address, distributions, remaining_balance) {
        let total = distributions_total(distributions).unwrap();
        lemma_distributions_total(distributions);
        if total > 0 {
            lemma_distribution_pays_total(escrow, trustless_work_address, distributions, total);
        }
    }
}

/// Milestone updates, disputes, resolutions and releases never change who the
/// parties are, what the escrow pays, its fee, its token or how many
/// milestones it has: each touches one milestone, or the escrow's flags only.
pub proof fn lemma_operations_keep_terms(escrow: EscrowView, index: int, milestone: Milestone, flags: Flags)
    requires
        0 <= index < escrow.milestones.len(),
    ensures
        ({
            let touched = with_milestone(escrow, index, milestone);
            &&& touched.roles == escrow.roles
            &&& touched.amount == escrow.amount
            &&& touched.platform_fee == escrow.platform_fee
            &&& touched.trustline == escrow.trustline
            &&& touched.flags == escrow.flags
            &&& touched.milestones.len() == escrow.milestones.len()
            &&& forall|j: int| 0 <= j < escrow.milestones.len() && j != index ==> #[trigger] touched.milestones[j] == escrow.milestones[j]
        }),
        ({
            let flagged = EscrowView { flags, ..escrow };
            &&& flagged.roles == escrow.roles
            &&& flagged.amount == escrow.amount
            &&& flagged.platform_fee == escrow.platform_fee
            &&& flagged.trustline == escrow.trustline
            &&& flagged.milestones == escrow.milestones
        }),
{
}

/// A quotient by 10000 of a non-negative value lies between zero and it.
proof fn lemma_bps_quotient_bounded(x: int)
    requires
        x >= 0,
    ensures
        0 <= x / 10000 <= x,
{
    assert(0 <= x / 10000 <= x) by (nonlinear_arith)
        requires
            x >= 0,
    ;
}

/// An escrow-wide resolution pays each account what its roles are owed:
/// the Trustless Work address 0.3% of the resolved total, the platform its
/// fee on that total, the approver `approver_funds` and the receiver
/// `receiver_funds`, each less its share of the two commissions in
/// proportion to its own funds (rounded toward zero); each amount only where
/// positive. An account with several roles is paid the sum of what each is
/// owed.
pub proof fn lemma_resolution_pays_each_party_its_own_funds(
    escrow: EscrowView,
    dispute_resolver: Seq<char>,
    approver_funds: i128,
    receiver_funds: i128,
    trustless_work_address: Address,
    contract_balance: i128,
    who: Seq<char>,
)
    ensures
        resolve_dispute_result(escrow, dispute_resolver, approver_funds, receiver_funds, trustless_work_address, contract_balance)
            matches Ok(ps) ==> {
            let total = approver_funds + receiver_funds;
            let tw_fee = trunc_div(total * 30, 10000);
            let platform_fee = trunc_div(total * escrow.platform_fee, 10000);
            let fees = tw_fee + platform_fee;
            paid_to(ps, who) == due_to(who, trustless_work_address@, tw_fee)
                + due_to(who, escrow.roles.platform_address@, platform_fee)
                + due_to(who, escrow.roles.approver@, approver_funds - trunc_div(approver_funds * fees, total))
                + due_to(who, escrow.roles.receiver@, receiver_funds - trunc_div(receiver_funds * fees, total))
        },
{
    if let Ok(ps) = resolve_dispute_result(escrow, dispute_resolver, approver_funds, receiver_funds, trustless_work_address, contract_balance) {
        let total = approver_funds + receiver_funds;
        let f = dispute_fees(approver_funds as int, receiver_funds as int, escrow.platform_fee as int, total).unwrap();
        assert(total > 0);
        lemma_bps_quotient_bounded(total * 30);
        assert(total * escrow.platform_fee >= 0) by (nonlinear_arith)
            requires
                total > 0,
                escrow.platform_fee >= 0,
        ;
        lemma_bps_quotient_bounded(total * escrow.platform_fee);
        assert(f.trustless_work_fee as int == trunc_div(total * 30, 10000));
        assert(f.platform_fee as int == trunc_div(total * escrow.platform_fee, 10000));
        let p1 = if f.trustless_work_fee > 0 { seq![payout(trustless_work_address, f.trustless_work_fee as int)] } else { seq![] };
        let p2 = if f.platform_fee > 0 { seq![payout(escrow.roles.platform_address, f.platform_fee as int)] } else { seq![] };
        let p3 = if f.net_approver_funds > 0 { seq![payout(escrow.roles.approver, f.net_approver_funds as int)] } else { seq![] };
        let p4 = if f.net_receiver_funds > 0 { seq![payout(receiver_of(escrow), f.net_receiver_funds as int)] } else { seq![] };
        assert(ps == p1 + p2 + p3 + p4);
        lemma_paid_to_concat(p1 + p2 + p3, p4, who);
        lemma_paid_to_concat(p1 + p2, p3, who);
        lemma_paid_to_concat(p1, p2, who);
        lemma_paid_to_conditional(trustless_work_address, f.trustless_work_fee, who);
        lemma_paid_to_conditional(escrow.roles.platform_address, f.platform_fee, who);
        lemma_paid_to_conditional(escrow.roles.approver, f.net_approver_funds, who);
        lemma_paid_to_conditional(receiver_of(escrow), f.net_receiver_funds, who);
        assert(receiver_of(escrow)@ == escrow.roles.receiver@);
    }
}

/// Any of the six parties of an escrow (approver, service provider,
/// platform, release signer, dispute resolver, receiver), and nobody else,
/// may open the escrow-wide dispute while the escrow is neither released,
/// resolved nor in dispute.
pub proof fn lemma_parties_may_open_escrow_dispute(escrow: EscrowView, signer: Seq<char>)
    requires
        !escrow.flags.released,
        !escrow.flags.resolved,
        !escrow.flags.disputed,
    ensures
        dispute_escrow_outcome(escrow, signer) == if signer == escrow.roles.approver@
            || signer == escrow.roles.service_provider@
            || signer == escrow.roles.platform_address@
            || signer == escrow.roles.release_signer@
            || signer == escrow.roles.dispute_resolver@
            || signer == escrow.roles.receiver@ {
            Ok::<(), ContractError>(())
        } else {
            Err(ContractError::UnauthorizedToChangeDisputeFlag)
        },
{
}

/// Any of the six parties of an escrow, and nobody else, may open a dispute
/// on an existing milestone that is neither released, resolved nor in dispute.
pub proof fn lemma_parties_may_open_milestone_dispute(escrow: EscrowView, milestone_index: i128, signer: Seq<char>)
    requires
        0 <= milestone_index < escrow.milestones.len(),
        !escrow.milestones[milestone_index as int].flags.released,
        !escrow.milestones[milestone_index as int].flags.resolved,
        !escrow.milestones[milestone_index as int].flags.disputed,
    ensures
        dispute_flag_change_outcome(escrow, milestone_index, signer) == if signer == escrow.roles.approver@
            || signer == escrow.roles.service_provider@
            || signer == escrow.roles.platform_address@
            || signer == escrow.roles.release_signer@
            || signer == escrow.roles.dispute_resolver@
            || signer == escrow.roles.receiver@ {
            Ok::<(), ContractError>(())
        } else {
            Err(ContractError::UnauthorizedToChangeDisputeFlag)
        },
{
}

/// A deposit is accepted exactly when the escrow is not in dispute, its
/// contract holds less than the escrow amount, and the signer holds the
/// deposit, whatever the deposit's size; it is refused as fully funded
/// exactly when, out of dispute, the contract already holds the amount.
pub proof fn lemma_deposits_accepted_until_fully_funded(
    escrow: EscrowView,
    amount_to_deposit: i128,
    signer_balance: i128,
    contract_balance: i128,
)
    ensures
        fund_outcome(escrow, amount_to_deposit, signer_balance, contract_balance) is Ok
            <==> !escrow.flags.disputed && contract_balance < escrow.amount && signer_balance >= amount_to_deposit,
        fund_outcome(escrow, amount_to_deposit, signer_balance, contract_balance)
            == Err::<(), ContractError>(ContractError::EscrowFullyFunded)
            <==> !escrow.flags.disputed && contract_balance >= escrow.amount,
{
}

/// Remaining funds are handed out only once every milestone is released,
/// resolved or in dispute: a withdrawal of a non-zero total goes through only
/// then, and the dispute resolver's withdrawal of a positive total that the
/// fees can be taken on is refused with `EscrowNotFullyProcessed` while some
/// milestone is none of these (approved only, for one).
pub proof fn lemma_withdrawal_waits_for_every_milestone(
    escrow: EscrowView,
    dispute_resolver: Seq<char>,
    trustless_work_address: Address,
    distributions: Seq<Distribution>,
    remaining_balance: i128,
)
    ensures
        match distributions_total(distributions) {
            Err(_) => true,
            Ok(t) => {
                &&& (withdraw_remaining_result(escrow, dispute_resolver, trustless_work_address, distributions, remaining_balance) is Ok
                    && t != 0 ==> forall|i: int| 0 <= i < escrow.milestones.len() ==> {
                        let f = (#[trigger] escrow.milestones[i]).flags;
                        f.released || f.resolved || f.disputed
                    })
                &&& (dispute_resolver == escrow.roles.dispute_resolver@ && t > 0
                    && standard_fees(t as int, escrow.platform_fee as int) is Ok
                    && (exists|i: int| 0 <= i < escrow.milestones.len() && {
                        let f = (#[trigger] escrow.milestones[i]).flags;
                        !f.released && !f.resolved && !f.disputed
                    }) ==> withdraw_remaining_result(escrow, dispute_resolver, trustless_work_address, distributions, remaining_balance)
                        == Err::<Seq<Payout>, ContractError>(ContractError::EscrowNotFullyProcessed))
            },
        },
{
    if exists|i: int| 0 <= i < escrow.milestones.len() && {
        let f = (#[trigger] escrow.milestones[i]).flags;
        !f.released && !f.resolved && !f.disputed
    } {
        let i = choose|i: int| 0 <= i < escrow.milestones.len() && {
            let f = (#[trigger] escrow.milestones[i]).flags;
            !f.released && !f.resolved && !f.disputed
        };
        assert(!all_processed(escrow.milestones));
    }
}

/// Rust's division by 10000 of a value that fits in `i128` fits too.
proof fn lemma_bps_quotient_fits(x: int)
    requires
        fits_i128(x),
    ensures
        fits_i128(trunc_div(x, 10000)),
{
    if x >= 0 {
        lemma_bps_quotient_bounded(x);
    } else {
        lemma_bps_quotient_bounded(-x);
    }
}

/// A release pays each account what its roles are owed: the Trustless Work
/// address 0.3% of the escrow amount, the platform its fee in basis points
/// of it (each rounded toward zero), and the receiver the rest of the amount.
/// An account with several roles is paid the sum.
pub proof fn lemma_release_pays_each_party_its_part(
    escrow: EscrowView,
    release_signer: Seq<char>,
    trustless_work_address: Address,
    contract_balance: i128,
    who: Seq<char>,
)
    ensures
        release_funds_result(escrow, release_signer, trustless_work_address, contract_balance) matches Ok(ps) ==> {
            let tw_fee = trunc_div(escrow.amount * 30, 10000);
            let platform_fee = trunc_div(escrow.amount * escrow.platform_fee, 10000);
            paid_to(ps, who) == (if who == trustless_work_address@ { tw_fee } else { 0 })
                + (if who == escrow.roles.platform_address@ { platform_fee } else { 0 })
                + (if who == escrow.roles.receiver@ { escrow.amount - tw_fee - platform_fee } else { 0 })
        },
{
    if let Ok(ps) = release_funds_result(escrow, release_signer, trustless_work_address, contract_balance) {
        let fees = standard_fees(escrow.amount as int, escrow.platform_fee as int).unwrap();
        lemma_bps_quotient_fits(escrow.amount * 30);
        lemma_bps_quotient_fits(escrow.amount * escrow.platform_fee);
        assert(fees.trustless_work_fee as int == trunc_div(escrow.amount * 30, 10000));
        assert(fees.platform_fee as int == trunc_div(escrow.amount * escrow.platform_fee, 10000));
        let a = ps[0];
        let b = ps[1];
        let c = ps[2];
        assert(ps =~= seq![a] + seq![b] + seq![c]);
        lemma_paid_to_concat(seq![a] + seq![b], seq![c], who);
        lemma_paid_to_concat(seq![a], seq![b], who);
        assert(receiver_of(escrow)@ == escrow.roles.receiver@);
        assert(seq![a].drop_last() =~= Seq::<Payout>::empty());
        assert(seq![b].drop_last() =~= Seq::<Payout>::empty());
        assert(seq![c].drop_last() =~= Seq::<Payout>::empty());
        assert(paid_to(Seq::<Payout>::empty(), who) == 0);
    }
}

/// What `distributions` hand the account `who` once each bears its share of
/// `total_fees` in proportion to its amount out of `total` (rounded toward
/// zero): the net of the entry for `who`, where it has one with a positive
/// amount and that net is positive; nothing otherwise.
pub open spec fn net_due(distributions: Seq<Distribution>, who: Seq<char>, total_fees: int, total: int) -> int {
    if exists|i: int| 0 <= i < distributions.len() && (#[trigger] distributions[i]).address@ == who {
        let i = choose|i: int| 0 <= i < distributions.len() && (#[trigger] distributions[i]).address@ == who;
        let amount = distributions[i].amount as int;
        if amount > 0 {
            due_to(who, who, amount - trunc_div(amount * total_fees, total))
        } else {
            0
        }
    } else {
        0
    }
}

/// The net payouts of distributions with distinct addresses pay each account
/// what `net_due` says.
proof fn lemma_net_payouts_paid_to(distributions: Seq<Distribution>, total_fees: int, total: int, who: Seq<char>)
    requires
        distinct_addresses(distributions),
        net_payouts(distributions, total_fees, total) is Ok,
        total > 0,
        total_fees >= 0,
    ensures
        paid_to(net_payouts(distributions, total_fees, total).unwrap(), who) == net_due(distributions, who, total_fees, total),
    decreases distributions.len(),
{
    if distributions.len() == 0 {
        assert(paid_to(Seq::<Payout>::empty(), who) == 0);
    } else {
        let n = distributions.len() - 1;
        let shorter = distributions.drop_last();
        let last = distributions.last();
        assert(last == distributions[n]);
        assert forall|a: int, b: int| 0 <= a < b < shorter.len() implies
            (#[trigger] shorter[a]).address@ != (#[trigger] shorter[b]).address@ by {
            assert(shorter[a] == distributions[a] && shorter[b] == distributions[b]);
        }
        lemma_net_payouts_paid_to(shorter, total_fees, total, who);
        let ps = net_payouts(shorter, total_fees, total).unwrap();
        let nets = net_payouts(distributions, total_fees, total).unwrap();
        let amount = last.amount as int;
        let ns = amount - trunc_div(amount * total_fees, total);
        let contribution = if amount > 0 { due_to(who, last.address@, ns) } else { 0 };
        if amount > 0 {
            assert(amount * total_fees >= 0) by (nonlinear_arith)
                requires
                    amount > 0,
                    total_fees >= 0,
            ;
            assert((amount * total_fees) / total >= 0) by (nonlinear_arith)
                requires
                    amount * total_fees >= 0,
                    total > 0,
            ;
            assert(net_share(amount, total_fees, total) == ns);
            if ns > 0 {
                assert(nets == ps.push(payout(last.address, ns)));
                assert(nets.drop_last() =~= ps);
                assert(nets.last() == payout(last.address, ns));
                assert(ns <= amount);
            } else {
                assert(nets == ps);
            }
        } else {
            assert(nets == ps);
        }
        assert(paid_to(nets, who) == paid_to(ps, who) + contribution);
        if last.address@ == who {
            assert(!exists|i: int| 0 <= i < shorter.len() && (#[trigger] shorter[i]).address@ == who) by {
                if exists|i: int| 0 <= i < shorter.len() && (#[trigger] shorter[i]).address@ == who {
                    let i = choose|i: int| 0 <= i < shorter.len() && (#[trigger] shorter[i]).address@ == who;
                    assert(shorter[i] == distributions[i]);
                    assert(distributions[i].address@ != distributions[n].address@);
                }
            }
            let k = choose|i: int| 0 <= i < distributions.len() && (#[trigger] distributions[i]).address@ == who;
            if k != n {
                assert(distributions[k].address@ != distributions[n].address@);
            }
        } else {
            if exists|i: int| 0 <= i < distributions.len() && (#[trigger] distributions[i]).address@ == who {
                let k = choose|i: int| 0 <= i < distributions.len() && (#[trigger] distributions[i]).address@ == who;
                assert(k < n);
                assert(shorter[k] == distributions[k]);
                let j = choose|i: int| 0 <= i < shorter.len() && (#[trigger] shorter[i]).address@ == who;
                assert(shorter[j] == distributions[j]);
                if j != k {
                    if j < k {
                        assert(distributions[j].address@ != distributions[k].address@);
                    } else {
                        assert(distributions[k].address@ != distributions[j].address@);
                    }
                }
            } else {
                assert(!exists|i: int| 0 <= i < shorter.len() && (#[trigger] shorter[i]).address@ == who) by {
                    if exists|i: int| 0 <= i < shorter.len() && (#[trigger] shorter[i]).address@ == who {
                        let i = choose|i: int| 0 <= i < shorter.len() && (#[trigger] shorter[i]).address@ == who;
                        assert(shorter[i] == distributions[i]);
                    }
                }
            }
        }
    }
}

/// Amounts that are none of them negative add up to nothing only where each
/// is nothing.
proof fn lemma_zero_sum_amounts(distributions: Seq<Distribution>)
    requires
        forall|i: int| 0 <= i < distributions.len() ==> (#[trigger] distributions[i]).amount >= 0,
    ensures
        amount_sum(distributions) >= 0,
        amount_sum(distributions) == 0 ==> forall|i: int| 0 <= i < distributions.len() ==> (#[trigger] distributions[i]).amount == 0,
    decreases distributions.len(),
{
    if distributions.len() > 0 {
        let shorter = distributions.drop_last();
        assert forall|i: int| 0 <= i < shorter.len() implies (#[trigger] shorter[i]).amount >= 0 by {
            assert(shorter[i] == distributions[i]);
        }
        lemma_zero_sum_amounts(shorter);
        assert(distributions.last() == distributions[distributions.len() - 1]);
        if amount_sum(distributions) == 0 {
            assert forall|i: int| 0 <= i < distributions.len() implies (#[trigger] distributions[i]).amount == 0 by {
                if i < distributions.len() - 1 {
                    assert(shorter[i] == distributions[i]);
                }
            }
        }
    }
}

/// The payouts that hand out `distributions` of total `total` with the
/// commissions of `standard_fees` on it pay each account its commissions and
/// its net share.
proof fn lemma_distribution_payouts_paid_to(
    escrow: EscrowView,
    trustless_work_address: Address,
    distributions: Seq<Distribution>,
    total: i128,
    who: Seq<char>,
)
    requires
        distinct_addresses(distributions),
        total > 0,
        standard_fees(total as int, escrow.platform_fee as int) is Ok,
        distribution_payouts(escrow, trustless_work_address, distributions, total,
            standard_fees(total as int, escrow.platform_fee as int).unwrap()) is Ok,
    ensures
        ({
            let tw_fee = trunc_div(total * 30, 10000);
            let platform_fee = trunc_div(total * escrow.platform_fee, 10000);
            paid_to(distribution_payouts(escrow, trustless_work_address, distributions, total,
                standard_fees(total as int, escrow.platform_fee as int).unwrap()).unwrap(), who)
                == due_to(who, trustless_work_address@, tw_fee) + due_to(who, escrow.roles.platform_address@, platform_fee)
                + net_due(distributions, who, tw_fee + platform_fee, total as int)
        }),
{
    let fees = standard_fees(total as int, escrow.platform_fee as int).unwrap();
    lemma_bps_quotient_fits(total * 30);
    lemma_bps_quotient_fits(total * escrow.platform_fee);
    lemma_bps_quotient_bounded(total * 30);
    assert(total * escrow.platform_fee >= 0) by (nonlinear_arith)
        requires
            total > 0,
            escrow.platform_fee >= 0,
    ;
    lemma_bps_quotient_bounded(total * escrow.platform_fee);
    assert(fees.trustless_work_fee as int == trunc_div(total * 30, 10000));
    assert(fees.platform_fee as int == trunc_div(total * escrow.platform_fee, 10000));
    let total_fees = fees.trustless_work_fee + fees.platform_fee;
    let nets = net_payouts(distributions, total_fees, total as int).unwrap();
    let p1 = if fees.trustless_work_fee > 0 { seq![payout(trustless_work_address, fees.trustless_work_fee as int)] } else { seq![] };
    let p2 = if fees.platform_fee > 0 { seq![payout(escrow.roles.platform_address, fees.platform_fee as int)] } else { seq![] };
    assert(fee_payouts(trustless_work_address, escrow.roles.platform_address, fees) == p1 + p2);
    lemma_paid_to_concat(p1 + p2, nets, who);
    lemma_paid_to_concat(p1, p2, who);
    lemma_paid_to_conditional(trustless_work_address, fees.trustless_work_fee, who);
    lemma_paid_to_conditional(escrow.roles.platform_address, fees.platform_fee, who);
    lemma_net_payouts_paid_to(distributions, total_fees, total as int, who);
}

/// A milestone dispute resolution pays each account what it is owed: the
/// Trustless Work address 0.3% of the distributed total, the platform its
/// fee in basis points of that total, and the address of each distribution
/// its amount less its share of the two commissions in proportion to that
/// amount (each rounded toward zero); each only where positive.
pub proof fn lemma_milestone_resolution_pays_each_share(
    escrow: EscrowView,
    dispute_resolver: Seq<char>,
    milestone_index: u32,
    trustless_work_address: Address,
    distributions: Seq<Distribution>,
    current_balance: i128,
    who: Seq<char>,
)
    requires
        distinct_addresses(distributions),
    ensures
        resolve_milestone_dispute_result(escrow, dispute_resolver, milestone_index, trustless_work_address, distributions, current_balance)
            matches Ok(ps) ==> {
            let total = amount_sum(distributions);
            let tw_fee = trunc_div(total * 30, 10000);
            let platform_fee = trunc_div(total * escrow.platform_fee, 10000);
            paid_to(ps, who) == due_to(who, trustless_work_address@, tw_fee)
                + due_to(who, escrow.roles.platform_address@, platform_fee)
                + net_due(distributions, who, tw_fee + platform_fee, total)
        },
{
    if let Ok(ps) = resolve_milestone_dispute_result(escrow, dispute_resolver, milestone_index, trustless_work_address, distributions, current_balance) {
        lemma_distributions_total(distributions);
        let total = distributions_total(distributions).unwrap();
        lemma_distribution_payouts_paid_to(escrow, trustless_work_address, distributions, total, who);
    }
}

/// A withdrawal of the remaining funds pays each account what it is owed:
/// the Trustless Work address 0.3% of the distributed total, the platform its
/// fee in basis points of that total, and the address of each distribution
/// its amount less its share of the two commissions in proportion to that
/// amount (each rounded toward zero); each only where positive.
pub proof fn lemma_withdrawal_pays_each_share(
    escrow: EscrowView,
    dispute_resolver: Seq<char>,
    trustless_work_address: Address,
    distributions: Seq<Distribution>,
    remaining_balance: i128,
    who: Seq<char>,
)
    requires
        distinct_addresses(distributions),
    ensures
        withdraw_remaining_result(escrow, dispute_resolver, trustless_work_address, distributions, remaining_balance)
            matches Ok(ps) ==> {
            let total = amount_sum(distributions);
            let tw_fee = trunc_div(total * 30, 10000);
            let platform_fee = trunc_div(total * escrow.platform_fee, 10000);
            paid_to(ps, who) == due_to(who, trustless_work_address@, tw_fee)
                + due_to(who, escrow.roles.platform_address@, platform_fee)
                + net_due(distributions, who, tw_fee + platform_fee, total)
        },
{
    if let Ok(ps) = withdraw_remaining_result(escrow, dispute_resolver, trustless_work_address, distributions, remaining_balance) {
        lemma_distributions_total(distributions);
        let total = distributions_total(distributions).unwrap();
        if total == 0 {
            lemma_zero_sum_amounts(distributions);
            assert(paid_to(ps, who) == 0);
            if exists|i: int| 0 <= i < distributions.len() && (#[trigger] distributions[i]).address@ == who {
                let k = choose|i: int| 0 <= i < distributions.len() && (#[trigger] distributions[i]).address@ == who;
                assert(distributions[k].amount == 0);
            }
        } else {
            lemma_distribution_payouts_paid_to(escrow, trustless_work_address, distributions, total, who);
        }
    }
}

/// Each operation answers only the role it is meant for: the service
/// provider changes a milestone's status, the approver its approval, the
/// platform the escrow's properties, and the dispute resolver settles
/// disputes and withdraws remaining funds (a withdrawal of nothing asks for
/// no one). The service provider and the approver are answered for every
/// existing milestone.
pub proof fn lemma_only_the_designated_role_acts(
    escrow: EscrowView,
    signer: Seq<char>,
    milestone_index: i128,
    milestone: Milestone,
    contract_balance: i128,
    milestones: Seq<Milestone>,
    approver_funds: i128,
    receiver_funds: i128,
    trustless_work_address: Address,
    distributions: Seq<Distribution>,
)
    ensures
        status_change_outcome(escrow, milestone_index, signer) is Ok
            <==> signer == escrow.roles.service_provider@ && 0 <= milestone_index < escrow.milestones.len(),
        flag_change_outcome(escrow, milestone, milestone_index, signer) is Ok
            <==> signer == escrow.roles.approver@ && 0 <= milestone_index < escrow.milestones.len(),
        property_change_outcome(escrow, signer, contract_balance, milestones) is Ok ==> signer == escrow.roles.platform_address@,
        resolve_dispute_result(escrow, signer, approver_funds, receiver_funds, trustless_work_address, contract_balance) is Ok
            ==> signer == escrow.roles.dispute_resolver@,
        0 <= milestone_index <= u32::MAX ==> (resolve_milestone_dispute_result(
            escrow, signer, milestone_index as u32, trustless_work_address, distributions, contract_balance) is Ok
            ==> signer == escrow.roles.dispute_resolver@),
        withdraw_remaining_result(escrow, signer, trustless_work_address, distributions, contract_balance) is Ok
            && amount_sum(distributions) != 0 ==> signer == escrow.roles.dispute_resolver@,
{
    lemma_distributions_total(distributions);
}

/// Approving (or disapproving) a milestone sets its approval flag to the
/// given value and changes nothing else: not its other flags, amount, texts,
/// nor any other milestone or any other part of the escrow.
pub proof fn lemma_approval_changes_only_that_flag(escrow: EscrowView, milestone_index: int, new_flag: bool)
    requires
        0 <= milestone_index < escrow.milestones.len(),
    ensures
        ({
            let old_m = escrow.milestones[milestone_index];
            let n = with_milestone(escrow, milestone_index, with_approval(old_m, new_flag));
            let m = n.milestones[milestone_index];
            &&& n.milestones.len() == escrow.milestones.len()
            &&& m.flags.approved == new_flag
            &&& m.flags.released == old_m.flags.released
            &&& m.flags.resolved == old_m.flags.resolved
            &&& m.flags.disputed == old_m.flags.disputed
            &&& m.amount == old_m.amount
            &&& m.description == old_m.description
            &&& m.status == old_m.status
            &&& m.evidence == old_m.evidence
            &&& forall|j: int| 0 <= j < escrow.milestones.len() && j != milestone_index ==> n.milestones[j] == escrow.milestones[j]
            &&& n == EscrowView { milestones: n.milestones, ..escrow }
        }),
{
}

/// A status change sets the milestone's status, and its evidence where new
/// evidence is given, and changes nothing else: not its flags or amount, nor
/// any other milestone or any other part of the escrow.
pub proof fn lemma_status_change_changes_only_status(
    escrow: EscrowView,
    milestone_index: int,
    new_status: String,
    new_evidence: Option<String>,
)
    requires
        0 <= milestone_index < escrow.milestones.len(),
    ensures
        ({
            let old_m = escrow.milestones[milestone_index];
            let n = with_milestone(escrow, milestone_index, with_status(old_m, new_status, new_evidence));
            let m = n.milestones[milestone_index];
            &&& n.milestones.len() == escrow.milestones.len()
            &&& m.status == new_status
            &&& m.evidence == match new_evidence { Some(e) => e, None => old_m.evidence }
            &&& m.flags == old_m.flags
            &&& m.amount == old_m.amount
            &&& m.description == old_m.description
            &&& forall|j: int| 0 <= j < escrow.milestones.len() && j != milestone_index ==> n.milestones[j] == escrow.milestones[j]
            &&& n == EscrowView { milestones: n.milestones, ..escrow }
        }),
{
}

/// New milestones draw no error exactly when each has a non-zero amount and
/// is neither disputed, released nor resolved.
proof fn lemma_new_milestones_acceptable(milestones: Seq<Milestone>)
    ensures
        new_milestones_error(milestones) is None <==> forall|i: int| 0 <= i < milestones.len() ==> {
            let m = #[trigger] milestones[i];
            &&& m.amount != 0
            &&& !m.flags.disputed
            &&& !m.flags.released
            &&& !m.flags.resolved
        },
    decreases milestones.len(),
{
    if milestones.len() > 0 {
        let shorter = milestones.drop_last();
        lemma_new_milestones_acceptable(shorter);
        assert(milestones.last() == milestones[milestones.len() - 1]);
        assert forall|i: int| 0 <= i < shorter.len() implies shorter[i] == milestones[i] by {}
    }
}

/// An escrow is created exactly when none exists yet, its platform fee is at
/// most 99%, it has at most ten milestones, and each milestone has a non-zero
/// amount and is neither disputed, released nor resolved (it may come
/// approved).
pub proof fn lemma_creation_conditions(already_initialized: bool, escrow_properties: EscrowView)
    ensures
        initialize_outcome(already_initialized, escrow_properties) is Ok <==> {
            &&& !already_initialized
            &&& escrow_properties.platform_fee <= 9_900
            &&& escrow_properties.milestones.len() <= 10
            &&& forall|i: int| 0 <= i < escrow_properties.milestones.len() ==> {
                let m = #[trigger] escrow_properties.milestones[i];
                &&& m.amount != 0
                &&& !m.flags.disputed
                &&& !m.flags.released
                &&& !m.flags.resolved
            }
        },
{
    lemma_new_milestones_acceptable(escrow_properties.milestones);
}

} // verus!
