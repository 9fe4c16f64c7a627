use trustless_work::address::Address;
use trustless_work::error::ContractError;
use trustless_work::escrow::dispute::DisputeManager;
use trustless_work::escrow::types::{Distributions, Escrow, Flags, Milestone, Payout, Roles, Trustline};
use trustless_work::escrow::validators::dispute::{
    sum_distributions, validate_dispute_flag_change_conditions, validate_dispute_resolution_conditions,
    validate_withdraw_remaining_funds_conditions,
};

fn addr(name: &str) -> Address {
    Address::new(name.to_string())
}

fn flags(disputed: bool, released: bool, resolved: bool, approved: bool) -> Flags {
    Flags { disputed, released, resolved, approved }
}

fn milestone(amount: i128, f: Flags) -> Milestone {
    Milestone {
        description: "Milestone".to_string(),
        status: "Pending".to_string(),
        evidence: "Initial evidence".to_string(),
        amount,
        flags: f,
    }
}

fn escrow(platform_fee: u32, milestones: Vec<Milestone>) -> Escrow {
    Escrow {
        engagement_id: "disputes".to_string(),
        title: "Test Escrow".to_string(),
        description: "Test Escrow Description".to_string(),
        roles: Roles {
            approver: addr("GAPPROVER"),
            service_provider: addr("GSERVICEPROVIDER"),
            platform_address: addr("GPLATFORM"),
            release_signer: addr("GRELEASESIGNER"),
            dispute_resolver: addr("GDISPUTERESOLVER"),
            receiver: addr("GRECEIVER"),
            vault_operator: addr("GVAULTOPERATOR"),
        },
        amount: 1_000_000,
        platform_fee,
        milestones,
        flags: flags(false, false, false, false),
        trustline: Trustline { address: addr("CUSDCTOKEN"), decimals: 7 },
        receiver_memo: 0,
        record_price_at_release: 0,
    }
}

fn shares(list: &[(&str, i128)]) -> Distributions {
    let mut d = Distributions::new();
    for (who, amount) in list {
        d.insert(addr(who), *amount);
    }
    d
}

fn summary(payouts: &[Payout]) -> Vec<(String, i128)> {
    payouts.iter().map(|p| (p.recipient.strkey.clone(), p.amount)).collect()
}

#[test]
fn dispute_milestone_raises_only_that_flag() {
    let e = escrow(500, vec![milestone(10, flags(false, false, false, false)), milestone(20, flags(false, false, false, false))]);
    let e = DisputeManager::dispute_milestone(e, 1, &addr("GRECEIVER")).unwrap();
    assert!(!e.milestones[0].flags.disputed);
    assert!(e.milestones[1].flags.disputed);
    let again = DisputeManager::dispute_milestone(e, 1, &addr("GAPPROVER"));
    assert_eq!(again.err(), Some(ContractError::MilestoneAlreadyInDispute));
}

#[test]
fn dispute_flag_change_errors() {
    let none = escrow(0, vec![]);
    assert_eq!(validate_dispute_flag_change_conditions(&none, 0, &addr("GAPPROVER")), Err(ContractError::NoMileStoneDefined));
    let e = escrow(
        0,
        vec![
            milestone(1, flags(false, true, false, false)),
            milestone(1, flags(false, false, true, false)),
            milestone(1, flags(false, false, false, false)),
        ],
    );
    assert_eq!(validate_dispute_flag_change_conditions(&e, -1, &addr("GAPPROVER")), Err(ContractError::InvalidMileStoneIndex));
    assert_eq!(validate_dispute_flag_change_conditions(&e, 3, &addr("GAPPROVER")), Err(ContractError::InvalidMileStoneIndex));
    assert_eq!(validate_dispute_flag_change_conditions(&e, 0, &addr("GAPPROVER")), Err(ContractError::MilestoneAlreadyReleased));
    assert_eq!(validate_dispute_flag_change_conditions(&e, 1, &addr("GAPPROVER")), Err(ContractError::MilestoneAlreadyResolved));
    assert_eq!(
        validate_dispute_flag_change_conditions(&e, 2, &addr("GVAULTOPERATOR")),
        Err(ContractError::UnauthorizedToChangeDisputeFlag)
    );
    assert_eq!(validate_dispute_flag_change_conditions(&e, 2, &addr("GPLATFORM")), Ok(()));
}

#[test]
fn distributions_total_errors() {
    assert_eq!(sum_distributions(&shares(&[("A", 5), ("B", 7)])), Ok(12));
    assert_eq!(sum_distributions(&Distributions::new()), Ok(0));
    assert_eq!(
        sum_distributions(&shares(&[("A", 5), ("B", -1), ("C", i128::MAX)])),
        Err(ContractError::AmountsToBeTransferredShouldBePositive)
    );
    assert_eq!(sum_distributions(&shares(&[("A", i128::MAX), ("B", 1), ("C", -1)])), Err(ContractError::Overflow));
}

#[test]
fn resolve_milestone_dispute_pays_and_resolves() {
    let e = escrow(500, vec![milestone(1_000_000, flags(true, false, false, false))]);
    let distributions = shares(&[("GAPPROVER", 400_000), ("GSERVICEPROVIDER", 600_000)]);
    let (e, payouts) =
        DisputeManager::resolve_milestone_dispute(e, &addr("GDISPUTERESOLVER"), 0, &addr("GTW"), &distributions, 1_000_000)
            .unwrap();
    // commissions: 0.3% = 3_000 and 5% = 50_000; total fees 53_000 shared in proportion.
    assert_eq!(
        summary(&payouts),
        vec![
            ("GTW".to_string(), 3_000),
            ("GPLATFORM".to_string(), 50_000),
            ("GAPPROVER".to_string(), 400_000 - 21_200),
            ("GSERVICEPROVIDER".to_string(), 600_000 - 31_800),
        ]
    );
    assert_eq!(e.milestones[0].status, "resolved");
    assert!(e.milestones[0].flags.resolved);
    assert!(!e.milestones[0].flags.disputed);
}

#[test]
fn resolve_milestone_dispute_errors() {
    let tw = addr("GTW");
    let resolver = addr("GDISPUTERESOLVER");
    let d = shares(&[("GAPPROVER", 10)]);
    let disputed = || escrow(500, vec![milestone(100, flags(true, false, false, false))]);
    assert_eq!(
        DisputeManager::resolve_milestone_dispute(disputed(), &resolver, 1, &tw, &d, 100).err(),
        Some(ContractError::InvalidMileStoneIndex)
    );
    assert_eq!(
        DisputeManager::resolve_milestone_dispute(disputed(), &addr("GAPPROVER"), 0, &tw, &d, 100).err(),
        Some(ContractError::OnlyDisputeResolverCanExecuteThisFunction)
    );
    assert_eq!(
        DisputeManager::resolve_milestone_dispute(disputed(), &resolver, 0, &tw, &shares(&[("GAPPROVER", 0)]), 100).err(),
        Some(ContractError::AmountCannotBeZero)
    );
    assert_eq!(
        DisputeManager::resolve_milestone_dispute(disputed(), &resolver, 0, &tw, &shares(&[("GAPPROVER", 101)]), 1_000).err(),
        Some(ContractError::TotalDisputeFundsMustNotExceedTheMilestoneAmount)
    );
    assert_eq!(
        DisputeManager::resolve_milestone_dispute(disputed(), &resolver, 0, &tw, &d, 9).err(),
        Some(ContractError::InsufficientFundsForResolution)
    );
    let calm = escrow(500, vec![milestone(100, flags(false, false, false, false))]);
    assert_eq!(
        DisputeManager::resolve_milestone_dispute(calm, &resolver, 0, &tw, &d, 100).err(),
        Some(ContractError::MilestoneNotInDispute)
    );
}

#[test]
fn dispute_resolution_validator_errors() {
    let e = escrow(0, vec![]);
    let resolver = addr("GDISPUTERESOLVER");
    let d = shares(&[("GAPPROVER", 10)]);
    let released = milestone(100, flags(true, true, false, false));
    let resolved = milestone(100, flags(true, false, true, false));
    assert_eq!(
        validate_dispute_resolution_conditions(&e, &released, &resolver, &d, 100),
        Err(ContractError::MilestoneAlreadyReleased)
    );
    assert_eq!(
        validate_dispute_resolution_conditions(&e, &resolved, &resolver, &d, 100),
        Err(ContractError::MilestoneAlreadyResolved)
    );
}

#[test]
fn withdraw_remaining_funds_pays_net_of_fees() {
    let e = escrow(0, vec![milestone(10, flags(false, true, false, true)), milestone(10, flags(true, false, false, false))]);
    let d = shares(&[("GAPPROVER", 500_000), ("GRECEIVER", 500_000)]);
    let payouts = DisputeManager::withdraw_remaining_funds(&e, &addr("GDISPUTERESOLVER"), &addr("GTW"), &d, 1_000_000).unwrap();
    assert_eq!(
        summary(&payouts),
        vec![("GTW".to_string(), 3_000), ("GAPPROVER".to_string(), 498_500), ("GRECEIVER".to_string(), 498_500)]
    );
    assert_eq!(payouts.iter().map(|p| p.amount).sum::<i128>(), 1_000_000);
}

#[test]
fn withdraw_remaining_funds_with_nothing_to_hand_out() {
    let e = escrow(0, vec![milestone(10, flags(false, false, false, false))]);
    let payouts = DisputeManager::withdraw_remaining_funds(&e, &addr("GSTRANGER"), &addr("GTW"), &shares(&[("A", 0)]), 0).unwrap();
    assert!(payouts.is_empty());
}

#[test]
fn withdraw_remaining_funds_errors() {
    let done = escrow(0, vec![milestone(10, flags(false, true, false, true))]);
    let pending = escrow(0, vec![milestone(10, flags(false, false, false, false))]);
    let d = shares(&[("GAPPROVER", 100)]);
    let resolver = addr("GDISPUTERESOLVER");
    let tw = addr("GTW");
    assert_eq!(
        DisputeManager::withdraw_remaining_funds(&pending, &resolver, &tw, &d, 1_000).err(),
        Some(ContractError::EscrowNotFullyProcessed)
    );
    assert_eq!(
        DisputeManager::withdraw_remaining_funds(&done, &addr("GAPPROVER"), &tw, &d, 1_000).err(),
        Some(ContractError::OnlyDisputeResolverCanExecuteThisFunction)
    );
    assert_eq!(
        DisputeManager::withdraw_remaining_funds(&done, &resolver, &tw, &d, 0).err(),
        Some(ContractError::InsufficientEscrowFundsToMakeTheRefund)
    );
    assert_eq!(
        DisputeManager::withdraw_remaining_funds(&done, &resolver, &tw, &d, 99).err(),
        Some(ContractError::InsufficientFundsForResolution)
    );
    assert_eq!(validate_withdraw_remaining_funds_conditions(&done, &resolver, true, 100, 100), Ok(()));
}

#[test]
fn escrow_wide_dispute_cannot_be_opened_twice() {
    let e = escrow(0, vec![milestone(10, flags(false, false, false, false))]);
    assert_eq!(
        DisputeManager::dispute_escrow(escrow(0, vec![]), &addr("GSTRANGER")).err(),
        Some(ContractError::UnauthorizedToChangeDisputeFlag)
    );
    let e = DisputeManager::dispute_escrow(e, &addr("GSERVICEPROVIDER")).unwrap();
    assert!(e.flags.disputed);
    assert_eq!(DisputeManager::dispute_escrow(e, &addr("GAPPROVER")).err(), Some(ContractError::MilestoneAlreadyInDispute));
}

#[test]
fn escrow_wide_resolution_errors() {
    let resolver = addr("GDISPUTERESOLVER");
    let tw = addr("GTW");
    let mut disputed = escrow(500, vec![]);
    disputed.flags.disputed = true;
    let calm = escrow(500, vec![]);
    assert_eq!(DisputeManager::resolve_dispute(calm, &resolver, 1, 1, &tw, 10).err(), Some(ContractError::MilestoneNotInDispute));
    let mk = || {
        let mut e = escrow(500, vec![]);
        e.flags.disputed = true;
        e
    };
    assert_eq!(
        DisputeManager::resolve_dispute(mk(), &resolver, -1, 1, &tw, 10).err(),
        Some(ContractError::AmountsToBeTransferredShouldBePositive)
    );
    assert_eq!(DisputeManager::resolve_dispute(mk(), &resolver, i128::MAX, 1, &tw, 10).err(), Some(ContractError::Overflow));
    assert_eq!(DisputeManager::resolve_dispute(mk(), &resolver, 0, 0, &tw, 10).err(), Some(ContractError::AmountCannotBeZero));
    assert_eq!(
        DisputeManager::resolve_dispute(disputed, &resolver, 6, 6, &tw, 10).err(),
        Some(ContractError::InsufficientFundsForResolution)
    );
}

#[test]
fn milestone_resolution_pays_the_distributed_total() {
    let e = escrow(500, vec![milestone(1_000_000, flags(true, false, false, false))]);
    let distributions = shares(&[("GAPPROVER", 400_000), ("GSERVICEPROVIDER", 600_000)]);
    let (_, payouts) =
        DisputeManager::resolve_milestone_dispute(e, &addr("GDISPUTERESOLVER"), 0, &addr("GTW"), &distributions, 1_000_000)
            .unwrap();
    assert_eq!(payouts.iter().map(|p| p.amount).sum::<i128>(), 1_000_000);
}

#[test]
fn milestone_resolution_rounding_stays_within_one_unit_per_extra_distribution() {
    // Commissions of 3 at 90%: 2; each of the three shares of 2 rounds down to 0.
    let e = escrow(9_000, vec![milestone(3, flags(true, false, false, false))]);
    let distributions = shares(&[("A", 1), ("B", 1), ("C", 1)]);
    let (_, payouts) =
        DisputeManager::resolve_milestone_dispute(e, &addr("GDISPUTERESOLVER"), 0, &addr("GTW"), &distributions, 3).unwrap();
    let paid: i128 = payouts.iter().map(|p| p.amount).sum();
    assert_eq!(paid, 5);
    assert!(3 <= paid && paid <= 3 + 3 - 1);
}

#[test]
fn a_second_share_for_an_address_replaces_the_first() {
    let mut d = Distributions::new();
    d.insert(addr("GAPPROVER"), 5);
    d.insert(addr("GRECEIVER"), 7);
    d.insert(addr("GAPPROVER"), 9);
    let entries: Vec<(String, i128)> = d.entries().iter().map(|e| (e.address.strkey.clone(), e.amount)).collect();
    assert_eq!(entries, vec![("GAPPROVER".to_string(), 9), ("GRECEIVER".to_string(), 7)]);
    assert_eq!(sum_distributions(&d), Ok(16));
}

#[test]
fn shares_come_in_ledger_key_order() {
    // Accounts (G...) before contracts (C...); within a kind, by the base-32
    // digits of the key, where A..Z come before 2..7.
    let d = shares(&[("CCONTRACT", 1), ("G2ACCOUNT", 2), ("GBACCOUNT", 3), ("GAACCOUNT", 4), ("CA", 5)]);
    let order: Vec<String> = d.entries().iter().map(|e| e.address.strkey.clone()).collect();
    assert_eq!(order, vec!["GAACCOUNT", "GBACCOUNT", "G2ACCOUNT", "CA", "CCONTRACT"]);
    assert!(addr("GZZ").precedes(&addr("CAA")));
    assert!(addr("GA").precedes(&addr("GAA")));
    assert!(!addr("GAA").precedes(&addr("GAA")));
}
