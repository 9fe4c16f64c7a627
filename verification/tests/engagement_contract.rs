use trustless_work::address::Address;
use trustless_work::engagement::contract::EngagementContract;
use trustless_work::engagement::mock_oracle::MockOracle;
use trustless_work::engagement::types::{Escrow, Milestone};
use trustless_work::error::ContractError;
use trustless_work::escrow::types::Payout;

fn addr(name: &str) -> Address {
    Address::new(name.to_string())
}

fn milestone(description: &str, status: &str, amount: i128) -> Milestone {
    Milestone {
        description: description.to_string(),
        status: status.to_string(),
        approved_flag: false,
        amount,
        dispute_flag: false,
        release_flag: false,
        resolved_flag: false,
    }
}

fn escrow(engagement_id: &str, platform_fee: i128, milestones: Vec<Milestone>) -> Escrow {
    Escrow {
        engagement_id: engagement_id.to_string(),
        title: "Test Escrow".to_string(),
        description: "Test Escrow Description".to_string(),
        approver: addr("GAPPROVER"),
        service_provider: addr("GSERVICEPROVIDER"),
        platform_address: addr("GPLATFORM"),
        amount: 0,
        platform_fee,
        milestones,
        release_signer: addr("GRELEASESIGNER"),
        dispute_resolver: addr("GDISPUTERESOLVER"),
        dispute_flag: false,
        release_flag: false,
        resolved_flag: false,
        trustline: addr("CUSDCTOKEN"),
        trustline_decimals: 7,
        oracle_id: addr("CORACLE"),
        party_a: addr("GPARTYA"),
        party_b: addr("GPARTYB"),
    }
}

fn paid_to(payouts: &[Payout], who: &Address) -> i128 {
    payouts.iter().filter(|p| p.recipient.strkey == who.strkey).map(|p| p.amount).sum()
}

#[test]
fn test_test_initialize_excrow() {
    let platform_fee = 3;
    let milestones = vec![
        milestone("First milestone", "Pending", 100_000),
        milestone("Second milestone", "Pending", 100_000),
    ];
    let props = escrow("41431", platform_fee, milestones);
    let mut c = EngagementContract::new();

    let initialized = c.initialize_escrow(props.clone()).unwrap();
    let e = c.get_escrow().unwrap();
    assert_eq!(e.engagement_id, initialized.engagement_id);
    assert_eq!(e.approver.strkey, props.approver.strkey);
    assert_eq!(e.service_provider.strkey, props.service_provider.strkey);
    assert_eq!(e.platform_address.strkey, props.platform_address.strkey);
    assert_eq!(e.platform_fee, platform_fee);
    assert_eq!(e.milestones.len(), props.milestones.len());
    for (a, b) in e.milestones.iter().zip(props.milestones.iter()) {
        assert_eq!(a.description, b.description);
        assert_eq!(a.status, b.status);
        assert_eq!(a.amount, b.amount);
    }
    assert_eq!(e.release_signer.strkey, props.release_signer.strkey);
    assert_eq!(e.dispute_resolver.strkey, props.dispute_resolver.strkey);

    let result = c.initialize_escrow(props);
    assert!(result.is_err());
}

#[test]
fn test_test_dispute_resolution_process() {
    let amount: i128 = 100_000_000;
    let platform_fee: i128 = 30;
    let mut c = EngagementContract::new();
    c.initialize_escrow(escrow("test_resolution", platform_fee, vec![milestone("Test Milestone", "in_progress", amount)]))
        .unwrap();

    let escrow_balance = amount;
    assert_eq!(escrow_balance, amount);

    c.change_milestone_dispute_flag(0).unwrap();
    let disputed = c.get_escrow().unwrap();
    assert_eq!(disputed.milestones[0].dispute_flag, true);

    let approver_amount: i128 = 40_000_000;
    let provider_amount: i128 = 60_000_000;
    let total_amount = approver_amount + provider_amount;
    let tw = addr("GTRUSTLESSWORK");
    let payouts = c
        .resolving_milestone_disputes(&addr("GDISPUTERESOLVER"), 0, approver_amount, provider_amount, &tw)
        .unwrap();

    let expected_tw_fee = (total_amount * 30) / 10000;
    let expected_platform_fee = (total_amount * platform_fee) / 10000;
    let expected_approver = approver_amount - (approver_amount * (expected_tw_fee + expected_platform_fee)) / total_amount;
    let expected_provider = provider_amount - (provider_amount * (expected_tw_fee + expected_platform_fee)) / total_amount;

    let paid: i128 = payouts.iter().map(|p| p.amount).sum();
    assert_eq!(escrow_balance - paid, 0);
    assert_eq!(paid_to(&payouts, &tw), expected_tw_fee);
    assert_eq!(paid_to(&payouts, &addr("GPLATFORM")), expected_platform_fee);
    assert_eq!(paid_to(&payouts, &addr("GAPPROVER")), expected_approver);
    assert_eq!(paid_to(&payouts, &addr("GSERVICEPROVIDER")), expected_provider);

    let final_escrow = c.get_escrow().unwrap();
    assert_eq!(final_escrow.milestones[0].status, "resolved");
}

#[test]
fn test_change_milestone_dispute_flag() {
    let mut c = EngagementContract::new();
    c.initialize_escrow(escrow(
        "test_milestone_dispute",
        30,
        vec![milestone("First milestone", "Pending", 50_000_000), milestone("Second milestone", "Pending", 50_000_000)],
    ))
    .unwrap();

    c.change_milestone_dispute_flag(0).unwrap();
    let e = c.get_escrow().unwrap();
    assert!(e.milestones[0].dispute_flag, "First milestone dispute flag should be true");
    assert!(!e.milestones[1].dispute_flag, "Second milestone dispute flag should remain false");

    let result = c.change_milestone_dispute_flag(5);
    assert!(result.is_err(), "Should fail with invalid milestone index");

    let result = c.change_milestone_dispute_flag(0);
    assert!(result.is_err(), "Should fail when milestone is already in dispute");
    assert_eq!(result, Err(ContractError::MilestoneAlreadyInDispute));
}

#[test]
fn engagement_resolution_errors() {
    let tw = addr("GTRUSTLESSWORK");
    let resolver = addr("GDISPUTERESOLVER");
    let mut c = EngagementContract::new();
    assert_eq!(c.resolving_milestone_disputes(&resolver, 0, 1, 1, &tw).err(), Some(ContractError::EscrowNotFound));
    c.initialize_escrow(escrow("errors", 30, vec![milestone("M", "Pending", 100)])).unwrap();
    assert_eq!(
        c.resolving_milestone_disputes(&addr("GAPPROVER"), 0, 50, 50, &tw).err(),
        Some(ContractError::OnlyDisputeResolverCanExecuteThisFunction)
    );
    assert_eq!(c.resolving_milestone_disputes(&resolver, 1, 50, 50, &tw).err(), Some(ContractError::InvalidMileStoneIndex));
    assert_eq!(c.resolving_milestone_disputes(&resolver, 0, 50, 50, &tw).err(), Some(ContractError::MilestoneNotInDispute));
    c.change_milestone_dispute_flag(0).unwrap();
    assert_eq!(c.resolving_milestone_disputes(&resolver, 0, i128::MAX, 1, &tw).err(), Some(ContractError::Overflow));
    assert_eq!(
        c.resolving_milestone_disputes(&resolver, 0, 50, 49, &tw).err(),
        Some(ContractError::InsufficientFundsForResolution)
    );
    assert_eq!(c.get_escrow().unwrap().milestones[0].status, "Pending");
}

#[test]
fn engagement_resolution_pays_the_milestone_amount() {
    let tw = addr("GTRUSTLESSWORK");
    let mut c = EngagementContract::new();
    c.initialize_escrow(escrow("odd", 9_000, vec![milestone("M", "Pending", 3)])).unwrap();
    c.change_milestone_dispute_flag(0).unwrap();
    let payouts = c.resolving_milestone_disputes(&addr("GDISPUTERESOLVER"), 0, 1, 2, &tw).unwrap();
    let paid: i128 = payouts.iter().map(|p| p.amount).sum();
    assert_eq!(paid, 4);
    let e = c.get_escrow().unwrap();
    assert!(e.milestones[0].resolved_flag);
    assert!(e.milestones[0].dispute_flag);
}

#[test]
fn engagement_dispute_flag_errors() {
    let mut c = EngagementContract::new();
    assert_eq!(c.change_milestone_dispute_flag(0).err(), Some(ContractError::EscrowNotFound));
    c.initialize_escrow(escrow("empty", 30, vec![])).unwrap();
    assert_eq!(c.change_milestone_dispute_flag(0).err(), Some(ContractError::NoMileStoneDefined));
}

fn funded(amount: i128) -> EngagementContract {
    let mut props = escrow("oracle", 3, vec![milestone("Only milestone", "Pending", amount)]);
    props.amount = amount;
    let mut c = EngagementContract::new();
    c.initialize_escrow(props).unwrap();
    c
}

#[test]
fn oracle_release_pays_party_a_when_the_condition_holds() {
    let mut oracle = MockOracle::new();
    oracle.initialize(None);
    let mut c = funded(500);
    assert_eq!(
        c.release_funds_based_on_oracle(&addr("CORACLE"), oracle.get_result(), 500).err(),
        Some(ContractError::OracleConditionNotConfirmed)
    );
    assert!(!c.get_escrow().unwrap().release_flag);
    oracle.set_result(Some(true));
    let payout = c.release_funds_based_on_oracle(&addr("CORACLE"), oracle.get_result(), 500).unwrap();
    assert_eq!(payout.recipient.strkey, "GPARTYA");
    assert_eq!(payout.amount, 500);
    assert!(c.get_escrow().unwrap().release_flag);
    assert_eq!(
        c.release_funds_based_on_oracle(&addr("CORACLE"), Some(true), 500).err(),
        Some(ContractError::MilestoneAlreadyReleased)
    );
    // A repeat release is refused as such, whichever oracle asks.
    assert_eq!(
        c.release_funds_based_on_oracle(&addr("COTHERORACLE"), Some(true), 500).err(),
        Some(ContractError::MilestoneAlreadyReleased)
    );
}

#[test]
fn oracle_release_pays_party_b_when_the_condition_fails() {
    let mut c = funded(500);
    let payout = c.release_funds_based_on_oracle(&addr("CORACLE"), Some(false), 700).unwrap();
    assert_eq!(payout.recipient.strkey, "GPARTYB");
    assert_eq!(payout.amount, 500);
}

#[test]
fn oracle_release_errors() {
    let mut empty = EngagementContract::new();
    assert_eq!(empty.release_funds_based_on_oracle(&addr("CORACLE"), Some(true), 1).err(), Some(ContractError::EscrowNotFound));
    let mut c = funded(500);
    assert_eq!(
        c.release_funds_based_on_oracle(&addr("COTHERORACLE"), Some(true), 500).err(),
        Some(ContractError::UnauthorizedOracle)
    );
    assert_eq!(
        c.release_funds_based_on_oracle(&addr("CORACLE"), Some(true), 499).err(),
        Some(ContractError::EscrowBalanceNotEnoughToSendEarnings)
    );
    let mut zero = funded(0);
    assert_eq!(
        zero.release_funds_based_on_oracle(&addr("CORACLE"), Some(true), 10).err(),
        Some(ContractError::AmountsToBeTransferredShouldBePositive)
    );
    let mut props = escrow("oracle", 3, vec![milestone("Only milestone", "Pending", 500)]);
    props.amount = 500;
    props.dispute_flag = true;
    let mut disputed = EngagementContract::new();
    disputed.initialize_escrow(props).unwrap();
    assert_eq!(
        disputed.release_funds_based_on_oracle(&addr("CORACLE"), Some(true), 500).err(),
        Some(ContractError::MilestoneOpenedForDisputeResolution)
    );
    assert!(!disputed.get_escrow().unwrap().release_flag);
    assert!(!c.get_escrow().unwrap().release_flag);
}
