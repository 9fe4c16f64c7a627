use vstd::prelude::*;
use crate::address::Address;

verus! {

/// An asset as a Reflector price oracle names it: a Stellar token by its
/// contract address, or another asset by its ticker symbol.
pub enum Asset {
    Stellar(Address),
    Other(String),
}

impl Clone for Asset {
    fn clone(&self) -> (r: Self)
        ensures
            r == *self,
    {
        match self {
            Asset::Stellar(a) => Asset::Stellar(a.clone()),
            Asset::Other(s) => Asset::Other(s.clone()),
        }
    }
}

/// A price that an oracle reports, with the ledger time it was taken at.
#[derive(Clone, Copy, Debug, PartialEq, Eq, Structural)]
pub struct PriceData {
    pub price: i128,
    pub timestamp: u64,
}

} // verus!
