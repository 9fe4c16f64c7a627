use vstd::prelude::*;
use crate::error::ContractError;
use crate::escrow::math::{BasicMath, SafeMath, fits_i128, trunc_div};

verus! {

/// The Trustless Work commission, in basis points of the amount paid out.
pub const TRUSTLESS_WORK_FEE_BPS: i128 = 30;

/// One whole (100%) in basis points.
pub const BPS_DENOMINATOR: i128 = 10_000;

/// `bps` basis points of `amount`, rounded toward zero.
pub open spec fn bps_share(amount: int, bps: int) -> int {
    trunc_div(amount * bps, BPS_DENOMINATOR as int)
}

/// How a payout of some amount splits between the two fees and the receiver.
#[derive(Clone, Copy, Debug, PartialEq, Eq, Structural)]
pub struct StandardFeeResult {
    pub trustless_work_fee: i128,
    pub platform_fee: i128,
    pub receiver_amount: i128,
}

/// How a dispute resolution splits between the two fees and the two parties.
#[derive(Clone, Copy, Debug, PartialEq, Eq, Structural)]
pub struct DisputeFeeResult {
    pub trustless_work_fee: i128,
    pub platform_fee: i128,
    pub net_approver_funds: i128,
    pub net_receiver_funds: i128,
}

/// The split of `total_amount` with a platform fee of `platform_fee` basis
/// points: the Trustless Work commission, the platform commission, and what is
/// left for the receiver; `Overflow` or `Underflow` where a step leaves `i128`.
pub open spec fn standard_fees(total_amount: int, platform_fee: int) -> Result<StandardFeeResult, ContractError> {
    let tw = bps_share(total_amount, TRUSTLESS_WORK_FEE_BPS as int);
    let pf = bps_share(total_amount, platform_fee);
    if !fits_i128(total_amount * TRUSTLESS_WORK_FEE_BPS) {
        Err(ContractError::Overflow)
    } else if !fits_i128(total_amount * platform_fee) {
        Err(ContractError::Overflow)
    } else if !fits_i128(total_amount - tw) {
        Err(ContractError::Underflow)
    } else if !fits_i128(total_amount - tw - pf) {
        Err(ContractError::Underflow)
    } else {
        Ok(StandardFeeResult {
            trustless_work_fee: tw as i128,
            platform_fee: pf as i128,
            receiver_amount: (total_amount - tw - pf) as i128,
        })
    }
}

/// What is left of a party's `funds` once it bears its share of `total_fees`,
/// the share being in proportion to `funds` out of `total`, or the error of
/// the step that leaves `i128`; where `total` is not positive the party nets 0.
pub open spec fn net_after_fee_share(funds: int, total_fees: int, total: int) -> Result<int, ContractError> {
    if total <= 0 {
        Ok(0)
    } else if !fits_i128(funds * total_fees) {
        Err(ContractError::Overflow)
    } else if !fits_i128(funds - trunc_div(funds * total_fees, total)) {
        Err(ContractError::Underflow)
    } else {
        Ok(funds - trunc_div(funds * total_fees, total))
    }
}

/// The split of a dispute resolution that hands `approver_funds` and
/// `receiver_funds` out of `total_resolved_funds`, with a platform fee of
/// `platform_fee` basis points: both commissions are taken on the resolved
/// total, and each party bears them in proportion to its part.
pub open spec fn dispute_fees(
    approver_funds: int,
    receiver_funds: int,
    platform_fee: int,
    total_resolved_funds: int,
) -> Result<DisputeFeeResult, ContractError> {
    let tw = bps_share(total_resolved_funds, TRUSTLESS_WORK_FEE_BPS as int);
    let pf = bps_share(total_resolved_funds, platform_fee);
    if !fits_i128(total_resolved_funds * TRUSTLESS_WORK_FEE_BPS) {
        Err(ContractError::Overflow)
    } else if !fits_i128(total_resolved_funds * platform_fee) {
        Err(ContractError::Overflow)
    } else if !fits_i128(tw + pf) {
        Err(ContractError::Overflow)
    } else {
        match net_after_fee_share(approver_funds, tw + pf, total_resolved_funds) {
            Err(e) => Err(e),
            Ok(net_approver) => match net_after_fee_share(receiver_funds, tw + pf, total_resolved_funds) {
                Err(e) => Err(e),
                Ok(net_receiver) => Ok(DisputeFeeResult {
                    trustless_work_fee: tw as i128,
                    platform_fee: pf as i128,
                    net_approver_funds: net_approver as i128,
                    net_receiver_funds: net_receiver as i128,
                }),
            },
        }
    }
}

/// Computes the fee splits of the escrow.
pub trait FeeCalculatorTrait {
    /// The split of a release of `total_amount` (see `standard_fees`).
    fn calculate_standard_fees(total_amount: i128, platform_fee: i128) -> (r: Result<StandardFeeResult, ContractError>)
        ensures
            r == standard_fees(total_amount as int, platform_fee as int),
    ;

    /// The split of a dispute resolution (see `dispute_fees`).
    fn calculate_dispute_fees(
        approver_funds: i128,
        receiver_funds: i128,
        platform_fee: i128,
        total_resolved_funds: i128,
    ) -> (r: Result<DisputeFeeResult, ContractError>)
        ensures
            r == dispute_fees(approver_funds as int, receiver_funds as int, platform_fee as int, total_resolved_funds as int),
    ;
}

/// The escrow's fee calculator.
#[derive(Clone, Copy)]
pub struct FeeCalculator;

impl FeeCalculator {
    /// `bps` basis points of `amount`, rounded toward zero, or `Overflow`.
    fn bps_of(amount: i128, bps: i128) -> (r: Result<i128, ContractError>)
        ensures
            fits_i128(amount * bps) ==> r == Ok::<i128, ContractError>(bps_share(amount as int, bps as int) as i128),
            !fits_i128(amount * bps) ==> r == Err::<i128, ContractError>(ContractError::Overflow),
    {
        SafeMath::safe_mul_div(amount, bps, BPS_DENOMINATOR)
    }

    /// What is left of `funds` after its proportional share of `total_fees`.
    fn net_of_share(funds: i128, total_fees: i128, total: i128) -> (r: Result<i128, ContractError>)
        ensures
            match net_after_fee_share(funds as int, total_fees as int, total as int) {
                Ok(v) => r == Ok::<i128, ContractError>(v as i128),
                Err(e) => r == Err::<i128, ContractError>(e),
            },
    {
        if total > 0 {
            let share = SafeMath::safe_mul_div(funds, total_fees, total)?;
            BasicMath::safe_sub(funds, share)
        } else {
            Ok(0)
        }
    }
}

impl FeeCalculatorTrait for FeeCalculator {
    fn calculate_standard_fees(total_amount: i128, platform_fee: i128) -> (r: Result<StandardFeeResult, ContractError>) {
        let trustless_work_fee = Self::bps_of(total_amount, TRUSTLESS_WORK_FEE_BPS)?;
        let platform_fee = Self::bps_of(total_amount, platform_fee)?;

        let after_tw = BasicMath::safe_sub(total_amount, trustless_work_fee)?;
        let receiver_amount = BasicMath::safe_sub(after_tw, platform_fee)?;

        Ok(StandardFeeResult { trustless_work_fee, platform_fee, receiver_amount })
    }

    fn calculate_dispute_fees(
        approver_funds: i128,
        receiver_funds: i128,
        platform_fee: i128,
        total_resolved_funds: i128,
    ) -> (r: Result<DisputeFeeResult, ContractError>) {
        let trustless_work_fee = Self::bps_of(total_resolved_funds, TRUSTLESS_WORK_FEE_BPS)?;
        let platform_fee = Self::bps_of(total_resolved_funds, platform_fee)?;
        let total_fees = BasicMath::safe_add(trustless_work_fee, platform_fee)?;

        let net_approver_funds = Self::net_of_share(approver_funds, total_fees, total_resolved_funds)?;
        let net_receiver_funds = Self::net_of_share(receiver_funds, total_fees, total_resolved_funds)?;

        Ok(DisputeFeeResult { trustless_work_fee, platform_fee, net_approver_funds, net_receiver_funds })
    }
}

} // verus!
