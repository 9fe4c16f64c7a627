use vstd::prelude::*;
use crate::address::Address;
use crate::error::ContractError;
use crate::escrow::fee::StandardFeeResult;
use crate::escrow::math::{fits_i128, trunc_div};
use crate::escrow::types::{Distribution, EscrowView, Milestone, Payout};

verus! {

/// The payout of `amount` to `recipient`.
pub open spec fn payout(recipient: Address, amount: int) -> Payout {
    Payout { recipient, amount: amount as i128 }
}

/// The two commission payouts of a split, each made only where positive:
/// first the Trustless Work commission, then the platform commission.
pub open spec fn fee_payouts(trustless_work_address: Address, platform_address: Address, fees: StandardFeeResult) -> Seq<Payout> {
    (if fees.trustless_work_fee > 0 { seq![payout(trustless_work_address, fees.trustless_work_fee as int)] } else { seq![] })
        + (if fees.platform_fee > 0 { seq![payout(platform_address, fees.platform_fee as int)] } else { seq![] })
}

/// What a distribution of `amount` nets once it bears its share of
/// `total_fees`, in proportion to `amount` out of `total`.
pub open spec fn net_share(amount: int, total_fees: int, total: int) -> int {
    amount - trunc_div(amount * total_fees, total)
}

/// The payouts of `distributions`, in order, each net of its share of
/// `total_fees` and made only where the net is positive; `Overflow` where the
/// share of some positive amount leaves `i128`.
pub open spec fn net_payouts(distributions: Seq<Distribution>, total_fees: int, total: int) -> Result<Seq<Payout>, ContractError>
    decreases distributions.len(),
{
    if distributions.len() == 0 {
        Ok(seq![])
    } else {
        match net_payouts(distributions.drop_last(), total_fees, total) {
            Err(e) => Err(e),
            Ok(ps) => {
                let d = distributions.last();
                if d.amount <= 0 {
                    Ok(ps)
                } else if !fits_i128(d.amount * total_fees) {
                    Err(ContractError::Overflow)
                } else if net_share(d.amount as int, total_fees, total) > 0 {
                    Ok(ps.push(payout(d.address, net_share(d.amount as int, total_fees, total))))
                } else {
                    Ok(ps)
                }
            },
        }
    }
}

/// The sum of the amounts of `payouts`.
pub open spec fn payout_sum(payouts: Seq<Payout>) -> int
    decreases payouts.len(),
{
    if payouts.len() == 0 {
        0
    } else {
        payout_sum(payouts.drop_last()) + payouts.last().amount
    }
}

/// The sum of a concatenation is the sum of the sums.
pub proof fn lemma_payout_sum_concat(a: Seq<Payout>, b: Seq<Payout>)
    ensures
        payout_sum(a + b) == payout_sum(a) + payout_sum(b),
    decreases b.len(),
{
    if b.len() == 0 {
        assert(a + b =~= a);
    } else {
        assert((a + b).drop_last() =~= a + b.drop_last());
        lemma_payout_sum_concat(a, b.drop_last());
    }
}

/// The sum of one payout is its amount.
pub proof fn lemma_payout_sum_single(p: Payout)
    ensures
        payout_sum(seq![p]) == p.amount,
{
    let s = seq![p];
    assert(s.drop_last() =~= Seq::<Payout>::empty());
    assert(payout_sum(s.drop_last()) == 0);
    assert(s.last() == p);
}

/// A payout made only where positive contributes its amount where that is
/// not negative.
pub proof fn lemma_conditional_payout_sum(recipient: Address, amount: i128)
    requires
        amount >= 0,
    ensures
        payout_sum(if amount > 0 { seq![payout(recipient, amount as int)] } else { seq![] }) == amount,
{
    if amount > 0 {
        lemma_payout_sum_single(payout(recipient, amount as int));
    }
}

/// The total that `payouts` pay to the account `who`.
pub open spec fn paid_to(payouts: Seq<Payout>, who: Seq<char>) -> int
    decreases payouts.len(),
{
    if payouts.len() == 0 {
        0
    } else {
        paid_to(payouts.drop_last(), who) + if payouts.last().recipient@ == who { payouts.last().amount as int } else { 0 }
    }
}

/// `amount` where `who` is the account `account` and `amount` is positive,
/// else nothing: what one payout of `amount` to `account`, made only where
/// positive, brings `who`.
pub open spec fn due_to(who: Seq<char>, account: Seq<char>, amount: int) -> int {
    if who == account && amount > 0 {
        amount
    } else {
        0
    }
}

/// What a concatenation pays an account is what each part pays it.
pub proof fn lemma_paid_to_concat(a: Seq<Payout>, b: Seq<Payout>, who: Seq<char>)
    ensures
        paid_to(a + b, who) == paid_to(a, who) + paid_to(b, who),
    decreases b.len(),
{
    if b.len() == 0 {
        assert(a + b =~= a);
    } else {
        assert((a + b).drop_last() =~= a + b.drop_last());
        lemma_paid_to_concat(a, b.drop_last(), who);
    }
}

/// A payout made only where positive pays an account what `due_to` says.
pub proof fn lemma_paid_to_conditional(recipient: Address, amount: i128, who: Seq<char>)
    ensures
        paid_to(if amount > 0 { seq![payout(recipient, amount as int)] } else { seq![] }, who)
            == due_to(who, recipient@, amount as int),
{
    if amount > 0 {
        let s = seq![payout(recipient, amount as int)];
        assert(s.drop_last() =~= Seq::<Payout>::empty());
        assert(paid_to(s.drop_last(), who) == 0);
        assert(s.last() == payout(recipient, amount as int));
    } else {
        assert(paid_to(Seq::<Payout>::empty(), who) == 0);
    }
}

/// `escrow` with milestone `index` replaced by `milestone`.
pub open spec fn with_milestone(escrow: EscrowView, index: int, milestone: Milestone) -> EscrowView {
    EscrowView { milestones: escrow.milestones.update(index, milestone), ..escrow }
}

/// Appends the payouts of `distributions` (see `net_payouts`) to `payouts`.
pub fn push_net_payouts(
    payouts: &mut Vec<Payout>,
    distributions: &Vec<Distribution>,
    total_fees: i128,
    total: i128,
) -> (r: Result<(), ContractError>)
    requires
        total > 0,
        0 <= total_fees,
        forall|i: int| 0 <= i < distributions@.len() ==> (#[trigger] distributions@[i]).amount >= 0,
    ensures
        match net_payouts(distributions@, total_fees as int, total as int) {
            Err(e) => r == Err::<(), ContractError>(e),
            Ok(ps) => r is Ok && final(payouts)@ == old(payouts)@ + ps,
        },
{
    let ghost start = payouts@;
    let mut i: usize = 0;
    while i < distributions.len()
        invariant
            i <= distributions.len(),
            total > 0,
            0 <= total_fees,
            forall|j: int| 0 <= j < distributions@.len() ==> (#[trigger] distributions@[j]).amount >= 0,
            net_payouts(distributions@.take(i as int), total_fees as int, total as int) is Ok,
            payouts@ == start + net_payouts(distributions@.take(i as int), total_fees as int, total as int).unwrap(),
        decreases distributions.len() - i,
    {
        assert(distributions@.take(i + 1).drop_last() =~= distributions@.take(i as int));
        let d = &distributions[i];
        if d.amount > 0 {
            let product = match d.amount.checked_mul(total_fees) {
                Some(p) => p,
                None => {
                    proof { lemma_net_error_stays(distributions@, i as int + 1, total_fees as int, total as int); }
                    return Err(ContractError::Overflow);
                },
            };
            let fee_share = match product.checked_div(total) {
                Some(q) => q,
                None => { return Err(ContractError::DivisionError); },
            };
            assert(0 <= fee_share <= product);
            let net_amount = d.amount - fee_share;
            if net_amount > 0 {
                payouts.push(Payout { recipient: d.address.clone(), amount: net_amount });
                assert(payouts@ =~= start + net_payouts(distributions@.take(i + 1), total_fees as int, total as int).unwrap());
            }
        }
        i = i + 1;
    }
    assert(distributions@.take(distributions.len() as int) =~= distributions@);
    Ok(())
}

/// Once a prefix of `distributions` is refused, the whole is refused the same way.
pub proof fn lemma_net_error_stays(distributions: Seq<Distribution>, n: int, total_fees: int, total: int)
    requires
        0 <= n <= distributions.len(),
        net_payouts(distributions.take(n), total_fees, total) is Err,
    ensures
        net_payouts(distributions, total_fees, total) == net_payouts(distributions.take(n), total_fees, total),
    decreases distributions.len() - n,
{
    if n == distributions.len() {
        assert(distributions.take(n) =~= distributions);
    } else {
        assert(distributions.take(n + 1).drop_last() =~= distributions.take(n));
        lemma_net_error_stays(distributions, n + 1, total_fees, total);
    }
}

} // verus!
