use trustless_work::error::ContractError;
use trustless_work::escrow::fee::{DisputeFeeResult, FeeCalculator, FeeCalculatorTrait, StandardFeeResult};
use trustless_work::escrow::math::{BasicMath, SafeMath};

#[test]
fn standard_fees_split_exact_values() {
    let r = FeeCalculator::calculate_standard_fees(100_000_000, 500).unwrap();
    assert_eq!(r, StandardFeeResult { trustless_work_fee: 300_000, platform_fee: 5_000_000, receiver_amount: 94_700_000 });
}

#[test]
fn standard_fees_round_toward_zero() {
    let r = FeeCalculator::calculate_standard_fees(999, 30).unwrap();
    assert_eq!(r.trustless_work_fee, 2);
    assert_eq!(r.platform_fee, 2);
    assert_eq!(r.receiver_amount, 995);
    let r = FeeCalculator::calculate_standard_fees(-999, 30).unwrap();
    assert_eq!(r.trustless_work_fee, -2);
    assert_eq!(r.receiver_amount, -995);
}

#[test]
fn standard_fees_add_up_to_the_total() {
    for (total, fee) in [(1i128, 0i128), (123_456_789, 9_900), (10_000, 1), (7, 5_000)] {
        let r = FeeCalculator::calculate_standard_fees(total, fee).unwrap();
        assert_eq!(r.trustless_work_fee + r.platform_fee + r.receiver_amount, total);
    }
}

#[test]
fn standard_fees_overflow() {
    assert_eq!(FeeCalculator::calculate_standard_fees(i128::MAX, 30), Err(ContractError::Overflow));
    assert_eq!(FeeCalculator::calculate_standard_fees(i128::MAX / 40, i128::MAX), Err(ContractError::Overflow));
}

#[test]
fn dispute_fees_exact_values() {
    let r = FeeCalculator::calculate_dispute_fees(40_000_000, 60_000_000, 30, 100_000_000).unwrap();
    assert_eq!(
        r,
        DisputeFeeResult {
            trustless_work_fee: 300_000,
            platform_fee: 300_000,
            net_approver_funds: 40_000_000 - 240_000,
            net_receiver_funds: 60_000_000 - 360_000,
        }
    );
}

#[test]
fn dispute_fees_with_nothing_resolved() {
    let r = FeeCalculator::calculate_dispute_fees(5, 7, 30, 0).unwrap();
    assert_eq!(r.net_approver_funds, 0);
    assert_eq!(r.net_receiver_funds, 0);
    assert_eq!(r.trustless_work_fee, 0);
}

#[test]
fn dispute_split_pays_at_most_one_unit_more() {
    // 1 + 2 = 3 with commissions of 3 * (30 + 9_000) / 10_000 rounded down = 0 + 2.
    let r = FeeCalculator::calculate_dispute_fees(1, 2, 9_000, 3).unwrap();
    let paid = r.trustless_work_fee + r.platform_fee + r.net_approver_funds + r.net_receiver_funds;
    assert!(3 <= paid && paid <= 4);
    let r = FeeCalculator::calculate_dispute_fees(333, 667, 500, 1_000).unwrap();
    let paid = r.trustless_work_fee + r.platform_fee + r.net_approver_funds + r.net_receiver_funds;
    assert!(1_000 <= paid && paid <= 1_001);
}

#[test]
fn checked_arithmetic_errors() {
    assert_eq!(BasicMath::safe_add(i128::MAX, 1), Err(ContractError::Overflow));
    assert_eq!(BasicMath::safe_add(2, 3), Ok(5));
    assert_eq!(BasicMath::safe_sub(i128::MIN, 1), Err(ContractError::Underflow));
    assert_eq!(BasicMath::safe_sub(2, 3), Ok(-1));
    assert_eq!(SafeMath::safe_mul_div(i128::MAX, 2, 1), Err(ContractError::Overflow));
    assert_eq!(SafeMath::safe_mul_div(10, 3, 0), Err(ContractError::DivisionError));
    assert_eq!(SafeMath::safe_mul_div(10, 3, 4), Ok(7));
    assert_eq!(SafeMath::safe_mul_div(-10, 3, 4), Ok(-7));
}
