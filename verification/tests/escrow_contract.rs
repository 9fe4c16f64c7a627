use trustless_work::address::Address;
use trustless_work::error::ContractError;
use trustless_work::escrow::contract::EscrowContract;
use trustless_work::escrow::types::{Escrow, Flags, Milestone, Payout, Roles, Trustline};

fn addr(name: &str) -> Address {
    Address::new(name.to_string())
}

struct Parties {
    approver: Address,
    service_provider: Address,
    platform: Address,
    release_signer: Address,
    dispute_resolver: Address,
    receiver: Address,
    vault_operator: Address,
    token: Address,
}

fn parties() -> Parties {
    Parties {
        approver: addr("GAPPROVER"),
        service_provider: addr("GSERVICEPROVIDER"),
        platform: addr("GPLATFORM"),
        release_signer: addr("GRELEASESIGNER"),
        dispute_resolver: addr("GDISPUTERESOLVER"),
        receiver: addr("GRECEIVER"),
        vault_operator: addr("GVAULTOPERATOR"),
        token: addr("CUSDCTOKEN"),
    }
}

fn clear_flags() -> Flags {
    Flags { disputed: false, released: false, resolved: false, approved: false }
}

fn milestone(description: &str, status: &str, approved: bool, amount: i128) -> Milestone {
    Milestone {
        description: description.to_string(),
        status: status.to_string(),
        evidence: "Initial evidence".to_string(),
        amount,
        flags: Flags { approved, ..clear_flags() },
    }
}

fn roles(p: &Parties, receiver: &Address) -> Roles {
    Roles {
        approver: p.approver.clone(),
        service_provider: p.service_provider.clone(),
        platform_address: p.platform.clone(),
        release_signer: p.release_signer.clone(),
        dispute_resolver: p.dispute_resolver.clone(),
        receiver: receiver.clone(),
        vault_operator: p.vault_operator.clone(),
    }
}

fn escrow(
    p: &Parties,
    engagement_id: &str,
    receiver: &Address,
    amount: i128,
    platform_fee: u32,
    milestones: Vec<Milestone>,
    flags: Flags,
) -> Escrow {
    Escrow {
        engagement_id: engagement_id.to_string(),
        title: "Test Escrow".to_string(),
        description: "Test Escrow Description".to_string(),
        roles: roles(p, receiver),
        amount,
        platform_fee,
        milestones,
        flags,
        trustline: Trustline { address: p.token.clone(), decimals: 10_000_000 },
        receiver_memo: 0,
        record_price_at_release: 0,
    }
}

fn paid_to(payouts: &[Payout], who: &Address) -> i128 {
    payouts.iter().filter(|p| p.recipient.strkey == who.strkey).map(|p| p.amount).sum()
}

/// Creates the escrow `props` in `c`. A new escrow may not hold approved
/// milestones, so the milestones marked approved in `props` are created
/// unapproved and then approved by the approver.
fn new_contract() -> EscrowContract {
    EscrowContract::__constructor(addr("GADMIN"))
}

#[test]
fn test_initialize_excrow() {
    let p = parties();
    let amount: i128 = 100_000_000;
    let platform_fee = 3;
    let milestones = vec![
        milestone("First milestone", "Pending", false, 50_000_000),
        milestone("Second milestone", "Pending", false, 50_000_000),
    ];
    let props = escrow(&p, "41431", &p.service_provider, amount, platform_fee, milestones, clear_flags());
    let mut c = new_contract();

    let initialized = c.initialize_escrow(props.clone()).unwrap();
    let e = c.get_escrow().unwrap();
    assert_eq!(e.engagement_id, initialized.engagement_id);
    assert_eq!(e.roles.approver.strkey, props.roles.approver.strkey);
    assert_eq!(e.roles.service_provider.strkey, props.roles.service_provider.strkey);
    assert_eq!(e.roles.platform_address.strkey, props.roles.platform_address.strkey);
    assert_eq!(e.amount, amount);
    assert_eq!(e.platform_fee, platform_fee);
    assert_eq!(e.milestones.len(), props.milestones.len());
    for (a, b) in e.milestones.iter().zip(props.milestones.iter()) {
        assert_eq!(a.description, b.description);
        assert_eq!(a.status, b.status);
        assert_eq!(a.evidence, b.evidence);
        assert_eq!(a.flags, b.flags);
    }
    assert_eq!(e.roles.release_signer.strkey, props.roles.release_signer.strkey);
    assert_eq!(e.roles.dispute_resolver.strkey, props.roles.dispute_resolver.strkey);
    assert_eq!(e.roles.receiver.strkey, props.roles.receiver.strkey);
    assert_eq!(e.receiver_memo, props.receiver_memo);

    let result = c.initialize_escrow(props);
    assert!(result.is_err());
}

#[test]
fn test_change_escrow_properties() {
    let p = parties();
    let amount: i128 = 100_000_000;
    let platform_fee: u32 = 3;
    let initial = vec![
        milestone("First milestone", "Pending", false, 50_000_000),
        milestone("Second milestone", "Pending", false, 50_000_000),
    ];
    let mut c = new_contract();
    c.initialize_escrow(escrow(&p, "test_escrow_2", &p.service_provider, amount, platform_fee, initial, clear_flags()))
        .unwrap();

    let new_milestones = vec![
        milestone("First milestone updated", "Pending", false, 50_000_000),
        milestone("Second milestone updated", "Pending", false, 50_000_000),
        milestone("Third milestone new", "Pending", false, 100_000_000),
    ];
    let mut updated = escrow(&p, "test_escrow_2", &p.service_provider, amount * 2, platform_fee * 2, new_milestones, clear_flags());
    updated.title = "Test Escrow Updated".to_string();
    updated.description = "Test Escrow Description Updated".to_string();

    c.update_escrow(&p.platform, updated.clone(), 0).unwrap();

    let e = c.get_escrow().unwrap();
    assert_eq!(e.title, updated.title);
    assert_eq!(e.description, updated.description);
    assert_eq!(e.amount, updated.amount);
    assert_eq!(e.platform_fee, updated.platform_fee);
    assert_eq!(e.milestones.len(), 3);
    assert_eq!(e.milestones[2].description, "Third milestone new");
    assert_eq!(e.roles.release_signer.strkey, updated.roles.release_signer.strkey);
    assert_eq!(e.roles.dispute_resolver.strkey, updated.roles.dispute_resolver.strkey);
    assert_eq!(e.roles.receiver.strkey, updated.roles.receiver.strkey);
    assert_eq!(e.receiver_memo, updated.receiver_memo);

    let result = c.update_escrow(&addr("GSOMEONEELSE"), updated, 0);
    assert!(result.is_err());
}

#[test]
fn test_change_milestone_status_and_approved_flag() {
    let p = parties();
    let amount: i128 = 100_000_000;
    let platform_fee: u32 = 3;
    let initial = vec![
        milestone("Milestone 1", "in-progress", false, 50_000_000),
        milestone("Milestone 2", "in-progress", false, 50_000_000),
    ];
    let mut c = new_contract();
    c.initialize_escrow(escrow(&p, "test_escrow", &p.service_provider, amount, platform_fee, initial, clear_flags()))
        .unwrap();

    c.change_milestone_status(0, "completed".to_string(), Some("New evidence".to_string()), &p.service_provider)
        .unwrap();
    let e = c.get_escrow().unwrap();
    assert_eq!(e.milestones[0].status, "completed");
    assert_eq!(e.milestones[0].evidence, "New evidence");

    c.approve_milestone(0, true, &p.approver).unwrap();
    let e = c.get_escrow().unwrap();
    assert!(e.milestones[0].flags.approved);

    let invalid_index: i128 = 10;
    let result = c.change_milestone_status(invalid_index, "completed".to_string(), Some("New evidence".to_string()), &p.service_provider);
    assert!(result.is_err());
    let result = c.approve_milestone(invalid_index, true, &p.approver);
    assert!(result.is_err());

    let unauthorized = addr("GUNAUTHORIZED");
    let result = c.change_milestone_status(0, "completed".to_string(), Some("New evidence".to_string()), &unauthorized);
    assert!(result.is_err());
    let result = c.approve_milestone(0, true, &unauthorized);
    assert!(result.is_err());

    let mut c2 = new_contract();
    let mut v2 = escrow(&p, "test_escrow", &p.service_provider, amount, platform_fee, vec![], clear_flags());
    v2.title = "Updated Escrow".to_string();
    v2.description = "Updated Escrow Description".to_string();
    c2.initialize_escrow(v2).unwrap();
    let result = c2.change_milestone_status(0, "completed".to_string(), Some("New evidence".to_string()), &p.service_provider);
    assert!(result.is_err());
    let result = c2.approve_milestone(0, true, &p.approver);
    assert!(result.is_err());
}

fn released_split(amount: i128, platform_fee: i128) -> (i128, i128, i128) {
    let trustless_work_commission = (amount * 30) / 10000;
    let platform_commission = (amount * platform_fee) / 10000;
    let receiver_amount = amount - (trustless_work_commission + platform_commission);
    (trustless_work_commission, platform_commission, receiver_amount)
}

#[test]
fn test_distribute_escrow_earnings_successful_flow() {
    let p = parties();
    let tw = addr("GTRUSTLESSWORK");
    let amount: i128 = 100_000_000;
    let platform_fee: u32 = 500;
    let milestones = vec![
        milestone("First milestone", "Completed", true, 50_000_000),
        milestone("Second milestone", "Completed", true, 50_000_000),
    ];
    let mut c = new_contract();
    c.initialize_escrow(escrow(&p, "test_escrow_1", &p.receiver, amount, platform_fee, milestones, clear_flags())).unwrap();

    let contract_balance = amount;
    let payouts = c.release_funds(&p.release_signer, &tw, contract_balance).unwrap();

    let (twc, pc, ra) = released_split(amount, platform_fee as i128);
    assert_eq!(paid_to(&payouts, &tw), twc, "Trustless Work commission amount is incorrect");
    assert_eq!(paid_to(&payouts, &p.platform), pc, "Platform commission amount is incorrect");
    assert_eq!(paid_to(&payouts, &p.receiver), ra, "Receiver received incorrect amount");
    assert_eq!(paid_to(&payouts, &p.service_provider), 0, "Service Provider should have zero balance when using separate receiver");
    let paid: i128 = payouts.iter().map(|x| x.amount).sum();
    assert_eq!(contract_balance - paid, 0, "Contract should have zero balance after claiming earnings");
}

#[test]
fn test_distribute_escrow_earnings_no_milestones() {
    let p = parties();
    let mut c = new_contract();
    c.initialize_escrow(escrow(&p, "test_no_milestones", &p.service_provider, 100_000_000, 30, vec![], clear_flags()))
        .unwrap();
    let result = c.release_funds(&p.release_signer, &p.platform, 0);
    assert!(result.is_err());
}

#[test]
fn test_distribute_escrow_earnings_milestones_incomplete() {
    let p = parties();
    let amount: i128 = 100_000_000;
    let milestones = vec![
        milestone("First milestone", "Completed", true, 50_000_000),
        milestone("Second milestone", "Pending", false, 50_000_000),
    ];
    let mut c = new_contract();
    c.initialize_escrow(escrow(&p, "test_incomplete_milestones", &p.service_provider, amount, 30, milestones, clear_flags())).unwrap();
    let result = c.release_funds(&p.release_signer, &p.platform, amount);
    assert!(result.is_err());
}

#[test]
fn test_distribute_escrow_earnings_same_receiver_as_provider() {
    let p = parties();
    let tw = addr("GTRUSTLESSWORK");
    let amount: i128 = 100_000_000;
    let platform_fee: u32 = 500;
    let milestones = vec![milestone("First milestone", "Completed", true, 100_000_000)];
    let mut c = new_contract();
    c.initialize_escrow(escrow(&p, "test_escrow_same_receiver", &p.service_provider, amount, platform_fee, milestones, clear_flags())).unwrap();

    let payouts = c.release_funds(&p.release_signer, &tw, amount).unwrap();
    let (twc, pc, ra) = released_split(amount, platform_fee as i128);
    assert_eq!(paid_to(&payouts, &tw), twc, "Trustless Work commission amount is incorrect");
    assert_eq!(paid_to(&payouts, &p.platform), pc, "Platform commission amount is incorrect");
    assert_eq!(paid_to(&payouts, &p.service_provider), ra, "Service Provider should receive funds when receiver is set to same address");
    let paid: i128 = payouts.iter().map(|x| x.amount).sum();
    assert_eq!(amount - paid, 0, "Contract should have zero balance after claiming earnings");
}

#[test]
fn test_distribute_escrow_earnings_invalid_receiver_fallback() {
    let p = parties();
    let tw = addr("GTRUSTLESSWORK");
    let amount: i128 = 100_000_000;
    let platform_fee: u32 = 500;
    let milestones = vec![milestone("First milestone", "Completed", true, 100_000_000)];
    let mut c = new_contract();
    c.initialize_escrow(escrow(&p, "test_escrow_receiver", &p.receiver, amount, platform_fee, milestones, clear_flags())).unwrap();

    let payouts = c.release_funds(&p.release_signer, &tw, amount).unwrap();
    let (twc, pc, ra) = released_split(amount, platform_fee as i128);
    assert_eq!(paid_to(&payouts, &tw), twc, "Trustless Work commission amount is incorrect");
    assert_eq!(paid_to(&payouts, &p.platform), pc, "Platform commission amount is incorrect");
    assert_eq!(paid_to(&payouts, &p.receiver), ra, "Receiver should receive funds when set to a different address than service provider");
    assert_eq!(paid_to(&payouts, &p.service_provider), 0, "Service provider should not receive funds when a different receiver is set");
    let paid: i128 = payouts.iter().map(|x| x.amount).sum();
    assert_eq!(amount - paid, 0, "Contract should have zero balance after claiming earnings");
}

#[test]
fn test_dispute_flag_management() {
    let p = parties();
    let amount: i128 = 100_000_000;
    let milestones = vec![milestone("First milestone", "Pending", false, 100_000_000)];
    let mut c = new_contract();
    c.initialize_escrow(escrow(&p, "test_dispute_flag", &p.service_provider, amount, 30, milestones, clear_flags()))
        .unwrap();

    assert!(!c.get_escrow().unwrap().flags.disputed);
    c.dispute_escrow(&p.approver).unwrap();
    assert!(c.get_escrow().unwrap().flags.disputed);

    let result = c.fund_escrow(amount, amount, 0);
    assert!(result.is_err());

    let result = c.release_funds(&p.release_signer, &p.platform, 0);
    assert!(result.is_err());

    let _ = c.dispute_escrow(&p.approver);
    assert!(c.get_escrow().unwrap().flags.disputed);
}

#[test]
fn test_dispute_resolution_process() {
    let p = parties();
    let tw = addr("GTRUSTLESSWORK");
    let amount: i128 = 100_000_000;
    let platform_fee: u32 = 500;
    let milestones = vec![milestone("First milestone", "Completed", true, 100_000_000)];
    let mut c = new_contract();
    c.initialize_escrow(escrow(&p, "test_dispute_resolution", &p.service_provider, amount, platform_fee, milestones, clear_flags())).unwrap();
    let contract_balance = amount;

    c.dispute_escrow(&p.approver).unwrap();
    assert!(c.get_escrow().unwrap().flags.disputed);

    let result = c.resolve_dispute(&p.approver, 50_000_000, 50_000_000, &tw, contract_balance);
    assert!(result.is_err());

    let approver_funds: i128 = 50_000_000;
    let service_provider_funds: i128 = 50_000_000;
    let payouts = c.resolve_dispute(&p.dispute_resolver, approver_funds, service_provider_funds, &tw, contract_balance).unwrap();

    let e = c.get_escrow().unwrap();
    assert!(!e.flags.disputed);
    assert!(e.flags.resolved);

    let total_amount = amount;
    let trustless_work_commission = (total_amount * 30) / 10000;
    let platform_commission = (total_amount * platform_fee as i128) / 10000;
    let remaining_amount = total_amount - (trustless_work_commission + platform_commission);
    let service_provider_amount = (remaining_amount * service_provider_funds) / total_amount;
    let approver_amount = (remaining_amount * approver_funds) / total_amount;

    assert_eq!(paid_to(&payouts, &tw), trustless_work_commission, "Trustless Work commission amount is incorrect");
    assert_eq!(paid_to(&payouts, &p.platform), platform_commission, "Platform commission amount is incorrect");
    assert_eq!(paid_to(&payouts, &p.service_provider), service_provider_amount, "Service provider amount is incorrect");
    assert_eq!(paid_to(&payouts, &p.approver), approver_amount, "Approver amount is incorrect");
}

#[test]
fn test_fund_escrow_successful_deposit() {
    let p = parties();
    let amount: i128 = 100_000_000;
    let milestones = vec![milestone("First milestone", "Pending", false, 100_000_000)];
    let mut c = new_contract();
    c.initialize_escrow(escrow(&p, "test_escrow_fund", &p.receiver, amount, 500, milestones, clear_flags()))
        .unwrap();

    let mut approver_balance = amount;
    let mut contract_balance: i128 = 0;
    assert_eq!(approver_balance, amount);
    assert_eq!(contract_balance, 0);

    let deposit_amount = amount / 2;
    c.fund_escrow(deposit_amount, approver_balance, contract_balance).unwrap();
    approver_balance -= deposit_amount;
    contract_balance += deposit_amount;
    assert_eq!(approver_balance, amount - deposit_amount);
    assert_eq!(contract_balance, deposit_amount);

    c.fund_escrow(deposit_amount, approver_balance, contract_balance).unwrap();
    approver_balance -= deposit_amount;
    contract_balance += deposit_amount;
    assert_eq!(approver_balance, 0);
    assert_eq!(contract_balance, amount);
}

#[test]
fn test_fund_escrow_fully_funded_error() {
    let p = parties();
    let amount: i128 = 100_000_000;
    let milestones = vec![milestone("First milestone", "Pending", false, 100_000_000)];
    let mut c = new_contract();
    c.initialize_escrow(escrow(&p, "test_escrow_fully_funded", &p.service_provider, amount, 500, milestones, clear_flags()))
        .unwrap();
    let contract_balance = amount;
    assert_eq!(contract_balance, amount);
    let result = c.fund_escrow(10_000_000, amount * 2, contract_balance);
    assert!(result.is_err());
}

#[test]
fn test_fund_escrow_signer_insufficient_funds_error() {
    let p = parties();
    let amount: i128 = 100_000_000;
    let small_amount: i128 = 1_000_000;
    let milestones = vec![milestone("First milestone", "Pending", false, 100_000_000)];
    let mut c = new_contract();
    c.initialize_escrow(escrow(&p, "test_escrow_insufficient_funds", &p.receiver, amount, 500, milestones, clear_flags()))
        .unwrap();
    let result = c.fund_escrow(amount, small_amount, 0);
    assert!(result.is_err());
    assert_eq!(result, Err(ContractError::SignerInsufficientFunds));
}

#[test]
fn test_fund_escrow_dispute_flag_error() {
    let p = parties();
    let amount: i128 = 100_000_000;
    let milestones = vec![milestone("First milestone", "Pending", false, 100_000_000)];
    let mut c = new_contract();
    let flags = Flags { disputed: true, ..clear_flags() };
    c.initialize_escrow(escrow(&p, "test_escrow_dispute_error", &p.receiver, amount, 500, milestones, flags))
        .unwrap();
    let result = c.fund_escrow(10_000_000, amount, 0);
    assert!(result.is_err());
}
