use vstd::prelude::*;
use crate::address::Address;
use crate::error::ContractError;
use crate::escrow::types::{Escrow, EscrowView, Milestone, Roles, Trustline};

verus! {

/// The highest platform fee an escrow may be created with, in basis points.
pub const MAX_PLATFORM_FEE_BPS: u32 = 9_900;

/// The most milestones an escrow may be created with.
pub const MAX_MILESTONES: usize = 10;

/// Whether a release of `milestone`, at `milestone_index` of `escrow`, asked
/// by `release_signer`, is refused, and with which error (checked in this order).
pub open spec fn release_outcome(
    escrow: EscrowView,
    milestone: Milestone,
    release_signer: Seq<char>,
    milestone_index: u32,
) -> Result<(), ContractError> {
    if milestone.flags.released {
        Err(ContractError::MilestoneAlreadyReleased)
    } else if release_signer != escrow.roles.release_signer@ {
        Err(ContractError::OnlyReleaseSignerCanReleaseEarnings)
    } else if escrow.milestones.len() == 0 {
        Err(ContractError::NoMileStoneDefined)
    } else if !milestone.flags.approved {
        Err(ContractError::MilestoneNotCompleted)
    } else if milestone.flags.disputed {
        Err(ContractError::MilestoneOpenedForDisputeResolution)
    } else if milestone_index >= escrow.milestones.len() {
        Err(ContractError::InvalidMileStoneIndex)
    } else {
        Ok(())
    }
}

/// Checks that `release_signer` may release `milestone` of `escrow`.
pub fn validate_release_conditions(
    escrow: &Escrow,
    milestone: &Milestone,
    release_signer: &Address,
    milestone_index: u32,
) -> (r: Result<(), ContractError>)
    ensures
        r == release_outcome(escrow@, *milestone, release_signer@, milestone_index),
{
    if milestone.flags.released {
        return Err(ContractError::MilestoneAlreadyReleased);
    }
    if !release_signer.same_as(&escrow.roles.release_signer) {
        return Err(ContractError::OnlyReleaseSignerCanReleaseEarnings);
    }
    if escrow.milestones.len() == 0 {
        return Err(ContractError::NoMileStoneDefined);
    }
    if !milestone.flags.approved {
        return Err(ContractError::MilestoneNotCompleted);
    }
    if milestone.flags.disputed {
        return Err(ContractError::MilestoneOpenedForDisputeResolution);
    }
    if milestone_index as usize >= escrow.milestones.len() {
        return Err(ContractError::InvalidMileStoneIndex);
    }
    Ok(())
}

/// Whether some milestone of `milestones` has a flag raised.
pub open spec fn some_flag_raised(milestones: Seq<Milestone>) -> bool {
    exists|i: int| 0 <= i < milestones.len() && !(#[trigger] milestones[i]).flags.all_clear()
}

/// Whether a change of the escrow's properties by `platform_address` is
/// refused, and with which error.
pub open spec fn property_change_outcome(
    existing_escrow: EscrowView,
    platform_address: Seq<char>,
    contract_balance: i128,
    milestones: Seq<Milestone>,
) -> Result<(), ContractError> {
    if some_flag_raised(milestones) {
        Err(ContractError::FlagsMustBeFalse)
    } else if platform_address != existing_escrow.roles.platform_address@ {
        Err(ContractError::OnlyPlatformAddressExecuteThisFunction)
    } else if contract_balance > 0 {
        Err(ContractError::EscrowHasFunds)
    } else {
        Ok(())
    }
}

/// Checks that `platform_address` may change the properties of
/// `existing_escrow`, whose contract holds `contract_balance`, to properties
/// whose milestones are `milestones`: no new milestone may have a flag raised,
/// the caller must be the platform, and the contract must hold no funds.
pub fn validate_escrow_property_change_conditions(
    existing_escrow: &Escrow,
    platform_address: &Address,
    contract_balance: i128,
    milestones: &Vec<Milestone>,
) -> (r: Result<(), ContractError>)
    ensures
        r == property_change_outcome(existing_escrow@, platform_address@, contract_balance, milestones@),
{
    let mut i: usize = 0;
    while i < milestones.len()
        invariant
            i <= milestones.len(),
            forall|j: int| 0 <= j < i ==> (#[trigger] milestones@[j]).flags.all_clear(),
        decreases milestones.len() - i,
    {
        let flags = milestones[i].flags;
        if flags.disputed || flags.released || flags.resolved || flags.approved {
            assert(!milestones@[i as int].flags.all_clear());
            return Err(ContractError::FlagsMustBeFalse);
        }
        i = i + 1;
    }
    if !platform_address.same_as(&existing_escrow.roles.platform_address) {
        return Err(ContractError::OnlyPlatformAddressExecuteThisFunction);
    }
    if contract_balance > 0 {
        return Err(ContractError::EscrowHasFunds);
    }
    Ok(())
}

/// The error that a new milestone draws, if any: it may come approved, but
/// no other flag may be raised, and the amount may not be zero.
pub open spec fn new_milestone_error(m: Milestone) -> Option<ContractError> {
    if m.flags.disputed || m.flags.released || m.flags.resolved {
        Some(ContractError::FlagsMustBeFalse)
    } else if m.amount == 0 {
        Some(ContractError::AmountCannotBeZero)
    } else {
        None
    }
}

/// The error of the first milestone of `milestones` that draws one.
pub open spec fn new_milestones_error(milestones: Seq<Milestone>) -> Option<ContractError>
    decreases milestones.len(),
{
    if milestones.len() == 0 {
        None
    } else {
        match new_milestones_error(milestones.drop_last()) {
            Some(e) => Some(e),
            None => new_milestone_error(milestones.last()),
        }
    }
}

/// Whether the creation of an escrow with `escrow_properties` is refused, and
/// with which error (checked in this order).
pub open spec fn initialize_outcome(already_initialized: bool, escrow_properties: EscrowView) -> Result<(), ContractError> {
    if already_initialized {
        Err(ContractError::EscrowAlreadyInitialized)
    } else if escrow_properties.platform_fee > MAX_PLATFORM_FEE_BPS {
        Err(ContractError::PlatformFeeTooHigh)
    } else if new_milestones_error(escrow_properties.milestones) is Some {
        Err(new_milestones_error(escrow_properties.milestones).unwrap())
    } else if escrow_properties.milestones.len() > MAX_MILESTONES {
        Err(ContractError::TooManyMilestones)
    } else {
        Ok(())
    }
}

/// Checks that an escrow with `escrow_properties` may be created in a contract
/// that holds an escrow already exactly when `already_initialized`.
pub fn validate_initialize_escrow_conditions(
    already_initialized: bool,
    escrow_properties: &Escrow,
) -> (r: Result<(), ContractError>)
    ensures
        r == initialize_outcome(already_initialized, escrow_properties@),
{
    if already_initialized {
        return Err(ContractError::EscrowAlreadyInitialized);
    }
    if escrow_properties.platform_fee > MAX_PLATFORM_FEE_BPS {
        return Err(ContractError::PlatformFeeTooHigh);
    }
    let milestones = &escrow_properties.milestones;
    let mut i: usize = 0;
    while i < milestones.len()
        invariant
            i <= milestones.len(),
            !already_initialized,
            escrow_properties.platform_fee <= MAX_PLATFORM_FEE_BPS,
            milestones@ == escrow_properties.milestones@,
            new_milestones_error(milestones@.take(i as int)) is None,
        decreases milestones.len() - i,
    {
        assert(milestones@.take(i + 1).drop_last() =~= milestones@.take(i as int));
        let m = &milestones[i];
        if m.flags.disputed || m.flags.released || m.flags.resolved {
            proof { lemma_first_error_stays(milestones@, i as int); }
            return Err(ContractError::FlagsMustBeFalse);
        }
        if m.amount == 0 {
            proof { lemma_first_error_stays(milestones@, i as int); }
            return Err(ContractError::AmountCannotBeZero);
        }
        i = i + 1;
    }
    assert(milestones@.take(milestones.len() as int) =~= milestones@);
    if milestones.len() > MAX_MILESTONES {
        return Err(ContractError::TooManyMilestones);
    }
    Ok(())
}

/// Once a prefix of `milestones` draws an error, every longer prefix draws the same.
pub proof fn lemma_first_error_stays(milestones: Seq<Milestone>, i: int)
    requires
        0 <= i < milestones.len(),
        new_milestones_error(milestones.take(i)) is None,
        new_milestone_error(milestones[i]) is Some,
    ensures
        new_milestones_error(milestones) == new_milestone_error(milestones[i]),
    decreases milestones.len(),
{
    if i == milestones.len() - 1 {
        assert(milestones.drop_last() =~= milestones.take(i));
    } else {
        let shorter = milestones.drop_last();
        assert(shorter.take(i) =~= milestones.take(i));
        lemma_first_error_stays(shorter, i);
    }
}

/// Whether two roles name the same parties.
pub open spec fn roles_match(a: Roles, b: Roles) -> bool {
    &&& a.approver@ == b.approver@
    &&& a.service_provider@ == b.service_provider@
    &&& a.platform_address@ == b.platform_address@
    &&& a.release_signer@ == b.release_signer@
    &&& a.dispute_resolver@ == b.dispute_resolver@
    &&& a.receiver@ == b.receiver@
    &&& a.vault_operator@ == b.vault_operator@
}

/// Whether two milestones have the same content.
pub open spec fn milestone_matches(a: Milestone, b: Milestone) -> bool {
    &&& a.description@ == b.description@
    &&& a.status@ == b.status@
    &&& a.evidence@ == b.evidence@
    &&& a.amount == b.amount
    &&& a.flags == b.flags
}

/// Whether two escrows have the same content.
pub open spec fn escrow_matches(a: EscrowView, b: EscrowView) -> bool {
    &&& a.engagement_id@ == b.engagement_id@
    &&& a.title@ == b.title@
    &&& a.description@ == b.description@
    &&& roles_match(a.roles, b.roles)
    &&& a.amount == b.amount
    &&& a.platform_fee == b.platform_fee
    &&& a.milestones.len() == b.milestones.len()
    &&& forall|i: int| 0 <= i < a.milestones.len() ==> milestone_matches(#[trigger] a.milestones[i], b.milestones[i])
    &&& a.flags == b.flags
    &&& a.trustline.address@ == b.trustline.address@
    &&& a.trustline.decimals == b.trustline.decimals
    &&& a.receiver_memo == b.receiver_memo
    &&& a.record_price_at_release == b.record_price_at_release
}

fn roles_equal(a: &Roles, b: &Roles) -> (r: bool)
    ensures
        r == roles_match(*a, *b),
{
    a.approver.same_as(&b.approver) && a.service_provider.same_as(&b.service_provider)
        && a.platform_address.same_as(&b.platform_address) && a.release_signer.same_as(&b.release_signer)
        && a.dispute_resolver.same_as(&b.dispute_resolver) && a.receiver.same_as(&b.receiver)
        && a.vault_operator.same_as(&b.vault_operator)
}

fn milestone_equal(a: &Milestone, b: &Milestone) -> (r: bool)
    ensures
        r == milestone_matches(*a, *b),
{
    a.description == b.description && a.status == b.status && a.evidence == b.evidence
        && a.amount == b.amount && a.flags == b.flags
}

fn trustline_equal(a: &Trustline, b: &Trustline) -> (r: bool)
    ensures
        r == (a.address@ == b.address@ && a.decimals == b.decimals),
{
    a.address.same_as(&b.address) && a.decimals == b.decimals
}

/// Whether `a` and `b` have the same content.
pub fn escrow_equal(a: &Escrow, b: &Escrow) -> (r: bool)
    ensures
        r == escrow_matches(a@, b@),
{
    if !(a.engagement_id == b.engagement_id && a.title == b.title && a.description == b.description) {
        return false;
    }
    if !roles_equal(&a.roles, &b.roles) {
        return false;
    }
    if !(a.amount == b.amount && a.platform_fee == b.platform_fee && a.flags == b.flags) {
        return false;
    }
    if !trustline_equal(&a.trustline, &b.trustline) {
        return false;
    }
    if !(a.receiver_memo == b.receiver_memo && a.record_price_at_release == b.record_price_at_release) {
        return false;
    }
    if a.milestones.len() != b.milestones.len() {
        return false;
    }
    let mut i: usize = 0;
    while i < a.milestones.len()
        invariant
            i <= a.milestones.len(),
            a.milestones.len() == b.milestones.len(),
            forall|j: int| 0 <= j < i ==> milestone_matches(#[trigger] a.milestones@[j], b.milestones@[j]),
        decreases a.milestones.len() - i,
    {
        if !milestone_equal(&a.milestones[i], &b.milestones[i]) {
            return false;
        }
        i = i + 1;
    }
    true
}

/// Whether a deposit of `amount` against `stored_escrow`, which the funder
/// expects to read `expected_escrow`, is refused, and with which error.
pub open spec fn fund_conditions_outcome(amount: i128, stored: EscrowView, expected: EscrowView) -> Result<(), ContractError> {
    if amount <= 0 {
        Err(ContractError::AmountCannotBeZero)
    } else if !escrow_matches(stored, expected) {
        Err(ContractError::EscrowPropertiesMismatch)
    } else {
        Ok(())
    }
}

/// Checks a deposit: the amount must be positive and the stored escrow must
/// be the one the funder expects.
pub fn validate_fund_escrow_conditions(
    amount: i128,
    stored_escrow: &Escrow,
    expected_escrow: &Escrow,
) -> (r: Result<(), ContractError>)
    ensures
        r == fund_conditions_outcome(amount, stored_escrow@, expected_escrow@),
{
    if amount <= 0 {
        return Err(ContractError::AmountCannotBeZero);
    }
    if !escrow_equal(stored_escrow, expected_escrow) {
        return Err(ContractError::EscrowPropertiesMismatch);
    }
    Ok(())
}

/// Whether every milestone of `milestones` is approved.
pub open spec fn all_approved(milestones: Seq<Milestone>) -> bool {
    forall|i: int| 0 <= i < milestones.len() ==> (#[trigger] milestones[i]).flags.approved
}

/// Whether the release of the whole escrow at the request of `release_signer`
/// is refused, and with which error (checked in this order).
pub open spec fn escrow_release_outcome(escrow: EscrowView, release_signer: Seq<char>) -> Result<(), ContractError> {
    if escrow.flags.released {
        Err(ContractError::MilestoneAlreadyReleased)
    } else if release_signer != escrow.roles.release_signer@ {
        Err(ContractError::OnlyReleaseSignerCanReleaseEarnings)
    } else if escrow.milestones.len() == 0 {
        Err(ContractError::NoMileStoneDefined)
    } else if !all_approved(escrow.milestones) {
        Err(ContractError::MilestoneNotCompleted)
    } else if escrow.flags.disputed {
        Err(ContractError::MilestoneOpenedForDisputeResolution)
    } else {
        Ok(())
    }
}

/// Checks that `release_signer` may release the whole escrow: it is not
/// released yet, the caller is the release signer, there are milestones and
/// all are approved, and the escrow is not in dispute.
pub fn validate_escrow_release_conditions(escrow: &Escrow, release_signer: &Address) -> (r: Result<(), ContractError>)
    ensures
        r == escrow_release_outcome(escrow@, release_signer@),
{
    if escrow.flags.released {
        return Err(ContractError::MilestoneAlreadyReleased);
    }
    if !release_signer.same_as(&escrow.roles.release_signer) {
        return Err(ContractError::OnlyReleaseSignerCanReleaseEarnings);
    }
    if escrow.milestones.len() == 0 {
        return Err(ContractError::NoMileStoneDefined);
    }
    let mut i: usize = 0;
    while i < escrow.milestones.len()
        invariant
            i <= escrow.milestones.len(),
            !escrow.flags.released,
            release_signer@ == escrow.roles.release_signer@,
            escrow.milestones.len() > 0,
            forall|j: int| 0 <= j < i ==> (#[trigger] escrow.milestones@[j]).flags.approved,
        decreases escrow.milestones.len() - i,
    {
        if !escrow.milestones[i].flags.approved {
            return Err(ContractError::MilestoneNotCompleted);
        }
        i = i + 1;
    }
    if escrow.flags.disputed {
        return Err(ContractError::MilestoneOpenedForDisputeResolution);
    }
    Ok(())
}

} // verus!
