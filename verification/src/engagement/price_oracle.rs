use vstd::prelude::*;
use crate::address::Address;
use crate::escrow::math::fits_i128;
use crate::reflector::PriceData;

verus! {

/// The price oracle an engagement contract consults: the Reflector contract
/// it was pointed at, if any.
pub struct PriceOracle {
    pub oracle_address: Option<Address>,
}

impl PriceOracle {
    /// An engagement contract that has not been pointed at an oracle yet.
    pub fn new() -> (r: Self)
        ensures
            r.oracle_address is None,
    {
        PriceOracle { oracle_address: None }
    }

    /// Points the contract at the oracle `oracle_address`; always succeeds.
    pub fn initialize_oracle(&mut self, oracle_address: Address) -> (r: bool)
        ensures
            r,
            final(self).oracle_address == Some(oracle_address),
    {
        self.oracle_address = Some(oracle_address);
        true
    }

    /// The price the oracle reported (`reported`) for an asset. The contract
    /// must have been pointed at an oracle, and the oracle must have reported
    /// a price.
    pub fn fetch_price(&self, reported: Option<PriceData>) -> (r: PriceData)
        requires
            self.oracle_address is Some,
            reported is Some,
        ensures
            r == reported.unwrap(),
    {
        reported.unwrap()
    }

    /// Whether `amount` units at the price the oracle reported (`reported`)
    /// are worth at least `target_price`.
    pub fn checks_price_condition(&self, reported: Option<PriceData>, target_price: i128, amount: i128) -> (r: bool)
        requires
            self.oracle_address is Some,
            reported is Some,
            fits_i128(reported.unwrap().price * amount),
        ensures
            r == (reported.unwrap().price * amount >= target_price),
    {
        let current_price = self.fetch_price(reported);
        current_price.price * amount >= target_price
    }
}

} // verus!
