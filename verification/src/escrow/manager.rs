use vstd::prelude::*;
use crate::address::Address;
use crate::error::ContractError;
use crate::escrow::fee::{FeeCalculator, FeeCalculatorTrait, standard_fees};
use crate::escrow::payout::payout;
use crate::escrow::types::{AddressBalance, Escrow, EscrowView, Flags, Payout};
use crate::escrow::validators::escrow::{
    escrow_release_outcome, initialize_outcome, property_change_outcome,
    validate_escrow_property_change_conditions, validate_escrow_release_conditions,
    validate_initialize_escrow_conditions,
};
use crate::reflector::{Asset, PriceData};

verus! {

/// The most escrows whose balances one batch query may ask for.
pub const MAX_ESCROWS: usize = 20;

/// The ticker symbol under which the release price is looked up first.
pub open spec fn release_price_symbol() -> Seq<char> {
    "USDC"@
}

/// The party that receives an escrow's earnings: the service provider where
/// the receiver is the service provider, else the receiver.
pub open spec fn receiver_of(escrow: EscrowView) -> Address {
    if escrow.roles.receiver@ == escrow.roles.service_provider@ {
        escrow.roles.service_provider
    } else {
        escrow.roles.receiver
    }
}

/// Whether a deposit of `amount_to_deposit` by a signer that holds
/// `signer_balance`, into a contract that holds `contract_balance`, is
/// refused, and with which error (checked in this order).
pub open spec fn fund_outcome(
    escrow: EscrowView,
    amount_to_deposit: i128,
    signer_balance: i128,
    contract_balance: i128,
) -> Result<(), ContractError> {
    if escrow.flags.disputed {
        Err(ContractError::MilestoneOpenedForDisputeResolution)
    } else if contract_balance >= escrow.amount {
        Err(ContractError::EscrowFullyFunded)
    } else if signer_balance < amount_to_deposit {
        Err(ContractError::SignerInsufficientFunds)
    } else {
        Ok(())
    }
}

/// The outcome of releasing the whole escrow from a contract that holds
/// `contract_balance`: the three payouts (the Trustless Work commission, the
/// platform commission, the receiver's amount), or the error.
pub open spec fn release_funds_result(
    escrow: EscrowView,
    release_signer: Seq<char>,
    trustless_work_address: Address,
    contract_balance: i128,
) -> Result<Seq<Payout>, ContractError> {
    match escrow_release_outcome(escrow, release_signer) {
        Err(e) => Err(e),
        Ok(_) => if contract_balance < escrow.amount {
            Err(ContractError::EscrowBalanceNotEnoughToSendEarnings)
        } else {
            match standard_fees(escrow.amount as int, escrow.platform_fee as int) {
                Err(e) => Err(e),
                Ok(fees) => Ok(seq![
                    payout(trustless_work_address, fees.trustless_work_fee as int),
                    payout(escrow.roles.platform_address, fees.platform_fee as int),
                    payout(receiver_of(escrow), fees.receiver_amount as int),
                ]),
            }
        },
    }
}

/// Whether `assets` holds the asset with ticker `symbol`.
pub open spec fn lists_symbol(assets: Seq<Asset>, symbol: Seq<char>) -> bool {
    exists|i: int| 0 <= i < assets.len() && (#[trigger] assets[i] matches Asset::Other(s) && s@ == symbol)
}

/// Whether `assets` holds the token with contract address `token`.
pub open spec fn lists_token(assets: Seq<Asset>, token: Seq<char>) -> bool {
    exists|i: int| 0 <= i < assets.len() && (#[trigger] assets[i] matches Asset::Stellar(a) && a@ == token)
}

/// Whether a price taken at `price_timestamp` is fresh at ledger time `now`:
/// not from the future and, where the oracle told its resolution, at most
/// three resolution periods old.
pub open spec fn is_fresh(now: u64, price_timestamp: u64, resolution: Option<u32>) -> bool {
    match resolution {
        None => true,
        Some(res) => !(now < price_timestamp || now - price_timestamp > res * 3),
    }
}

/// The price to record on a released escrow whose token is `token`, from the
/// oracle's list of `assets` (`None` where it could not list them), its report
/// `price` for the ticker chosen from that list, its `resolution` and the
/// ledger time `now`: none where no ticker is listed or no report came, else
/// the reported price where it is fresh.
pub open spec fn price_to_record(
    assets: Option<Seq<Asset>>,
    token: Seq<char>,
    price: Option<PriceData>,
    resolution: Option<u32>,
    now: u64,
) -> Option<i128> {
    match (assets, price) {
        (Some(list), Some(pd)) => if (lists_symbol(list, release_price_symbol()) || lists_token(list, token))
            && is_fresh(now, pd.timestamp, resolution) {
            Some(pd.price)
        } else {
            None
        },
        _ => None,
    }
}

/// Runs the escrow: creation, funding, release and changes of its properties.
pub struct EscrowManager;

impl EscrowManager {
    /// The receiver of the escrow's earnings (see `receiver_of`); it is always
    /// the receiver's address.
    pub fn get_receiver(escrow: &Escrow) -> (r: Address)
        ensures
            r == receiver_of(escrow@),
            r@ == escrow.roles.receiver@,
    {
        if escrow.roles.receiver.same_as(&escrow.roles.service_provider) {
            escrow.roles.service_provider.clone()
        } else {
            escrow.roles.receiver.clone()
        }
    }

    /// Creates an escrow with `escrow_properties` in a contract that holds one
    /// already exactly when `already_initialized`; on success the escrow to
    /// store is `escrow_properties` itself.
    pub fn initialize_escrow(already_initialized: bool, escrow_properties: Escrow) -> (r: Result<Escrow, ContractError>)
        ensures
            match initialize_outcome(already_initialized, escrow_properties@) {
                Err(e) => r == Err::<Escrow, ContractError>(e),
                Ok(_) => r == Ok::<Escrow, ContractError>(escrow_properties),
            },
    {
        validate_initialize_escrow_conditions(already_initialized, &escrow_properties)?;
        Ok(escrow_properties)
    }

    /// Checks a deposit of `amount_to_deposit` by a signer that holds
    /// `signer_balance` into a contract that holds `contract_balance`; on
    /// success the deposit is to be transferred from the signer.
    pub fn fund_escrow(
        escrow: &Escrow,
        amount_to_deposit: i128,
        signer_balance: i128,
        contract_balance: i128,
    ) -> (r: Result<(), ContractError>)
        ensures
            r == fund_outcome(escrow@, amount_to_deposit, signer_balance, contract_balance),
    {
        if escrow.flags.disputed {
            return Err(ContractError::MilestoneOpenedForDisputeResolution);
        }
        if contract_balance >= escrow.amount {
            return Err(ContractError::EscrowFullyFunded);
        }
        if signer_balance < amount_to_deposit {
            return Err(ContractError::SignerInsufficientFunds);
        }
        Ok(())
    }

    /// Releases the whole escrow at the request of `release_signer`, from a
    /// contract that holds `contract_balance`: the escrow amount is split into
    /// the two commissions and the receiver's amount, and the escrow is marked
    /// released.
    pub fn release_funds(
        escrow: Escrow,
        release_signer: &Address,
        trustless_work_address: &Address,
        contract_balance: i128,
    ) -> (r: Result<(Escrow, Vec<Payout>), ContractError>)
        ensures
            match release_funds_result(escrow@, release_signer@, *trustless_work_address, contract_balance) {
                Err(e) => r == Err::<(Escrow, Vec<Payout>), ContractError>(e),
                Ok(ps) => r is Ok && {
                    let (new_escrow, payouts) = r.unwrap();
                    &&& payouts@ == ps
                    &&& new_escrow@ == EscrowView { flags: Flags { released: true, ..escrow.flags }, ..escrow@ }
                },
            },
    {
        validate_escrow_release_conditions(&escrow, release_signer)?;
        let mut escrow = escrow;
        escrow.flags.released = true;

        if contract_balance < escrow.amount {
            return Err(ContractError::EscrowBalanceNotEnoughToSendEarnings);
        }

        let fees = FeeCalculator::calculate_standard_fees(escrow.amount, escrow.platform_fee as i128)?;

        let mut payouts: Vec<Payout> = Vec::new();
        payouts.push(Payout { recipient: trustless_work_address.clone(), amount: fees.trustless_work_fee });
        payouts.push(Payout { recipient: escrow.roles.platform_address.clone(), amount: fees.platform_fee });
        payouts.push(Payout { recipient: Self::get_receiver(&escrow), amount: fees.receiver_amount });
        Ok((escrow, payouts))
    }

    /// Replaces the properties of `existing_escrow` with `escrow_properties`
    /// at the request of `platform_address`, while the contract holds
    /// `contract_balance`; no milestone of `escrow_properties` may have a flag
    /// raised. On success the escrow to store is `escrow_properties` itself.
    pub fn change_escrow_properties(
        existing_escrow: &Escrow,
        platform_address: &Address,
        escrow_properties: Escrow,
        contract_balance: i128,
    ) -> (r: Result<Escrow, ContractError>)
        ensures
            match property_change_outcome(existing_escrow@, platform_address@, contract_balance, escrow_properties@.milestones) {
                Err(e) => r == Err::<Escrow, ContractError>(e),
                Ok(_) => r == Ok::<Escrow, ContractError>(escrow_properties),
            },
    {
        validate_escrow_property_change_conditions(
            existing_escrow,
            platform_address,
            contract_balance,
            &escrow_properties.milestones,
        )?;
        Ok(escrow_properties)
    }

    /// Checks the size of a batch balance query: at most `MAX_ESCROWS` escrows.
    pub fn validate_escrow_batch(addresses: &Vec<Address>) -> (r: Result<(), ContractError>)
        ensures
            addresses.len() > MAX_ESCROWS ==> r == Err::<(), ContractError>(ContractError::TooManyEscrowsRequested),
            addresses.len() <= MAX_ESCROWS ==> r is Ok,
    {
        if addresses.len() > MAX_ESCROWS {
            return Err(ContractError::TooManyEscrowsRequested);
        }
        Ok(())
    }

    /// The balances of the escrow contracts at `addresses`, where
    /// `lookups[i]` is the token balance and token decimals found for
    /// `addresses[i]`; refused for more than `MAX_ESCROWS` addresses.
    pub fn get_multiple_escrow_balances(
        addresses: &Vec<Address>,
        lookups: &Vec<(i128, u32)>,
    ) -> (r: Result<Vec<AddressBalance>, ContractError>)
        requires
            addresses.len() <= MAX_ESCROWS ==> lookups.len() == addresses.len(),
        ensures
            addresses.len() > MAX_ESCROWS ==> r == Err::<Vec<AddressBalance>, ContractError>(ContractError::TooManyEscrowsRequested),
            addresses.len() <= MAX_ESCROWS ==> r is Ok && {
                let balances = r.unwrap()@;
                &&& balances.len() == addresses.len()
                &&& forall|i: int| 0 <= i < balances.len() ==> {
                    &&& (#[trigger] balances[i]).address == addresses@[i]
                    &&& balances[i].balance == lookups@[i].0
                    &&& balances[i].trustline_decimals == lookups@[i].1
                }
            },
    {
        Self::validate_escrow_batch(addresses)?;
        let mut balances: Vec<AddressBalance> = Vec::new();
        let mut i: usize = 0;
        while i < addresses.len()
            invariant
                i <= addresses.len(),
                lookups.len() == addresses.len(),
                balances.len() == i,
                forall|j: int| 0 <= j < i ==> {
                    &&& (#[trigger] balances@[j]).address == addresses@[j]
                    &&& balances@[j].balance == lookups@[j].0
                    &&& balances@[j].trustline_decimals == lookups@[j].1
                },
            decreases addresses.len() - i,
        {
            let (balance, decimals) = lookups[i];
            balances.push(AddressBalance { address: addresses[i].clone(), balance, trustline_decimals: decimals });
            i = i + 1;
        }
        Ok(balances)
    }

    /// The stored escrow, or `EscrowNotFound` where none is stored.
    pub fn get_escrow(stored: &Option<Escrow>) -> (r: Result<Escrow, ContractError>)
        ensures
            match stored {
                None => r == Err::<Escrow, ContractError>(ContractError::EscrowNotFound),
                Some(e) => r is Ok && r.unwrap()@ == e@,
            },
    {
        match stored {
            None => Err(ContractError::EscrowNotFound),
            Some(e) => Ok(e.clone()),
        }
    }

    /// The oracle ticker under which to look up the release price, among the
    /// `assets` the oracle lists (`None` where the oracle could not list them):
    /// the symbol "USDC" where listed, else the escrow's token where listed,
    /// else none.
    pub fn select_price_ticker(assets: &Option<Vec<Asset>>, token: &Address) -> (r: Option<Asset>)
        ensures
            match assets {
                None => r is None,
                Some(list) => if lists_symbol(list@, release_price_symbol()) {
                    r matches Some(Asset::Other(s)) && s@ == release_price_symbol()
                } else if lists_token(list@, token@) {
                    r == Some(Asset::Stellar(*token))
                } else {
                    r is None
                },
            },
    {
        let list = match assets {
            None => { return None; },
            Some(list) => list,
        };
        let symbol = String::from_str("USDC");
        proof { reveal_strlit("USDC"); }
        let mut i: usize = 0;
        while i < list.len()
            invariant
                i <= list.len(),
                *assets == Some(*list),
                symbol@ == release_price_symbol(),
                forall|j: int| 0 <= j < i ==> !(#[trigger] list@[j] matches Asset::Other(s) && s@ == release_price_symbol()),
            decreases list.len() - i,
        {
            if let Asset::Other(s) = &list[i] {
                if *s == symbol {
                    return Some(Asset::Other(symbol));
                }
            }
            i = i + 1;
        }
        let mut k: usize = 0;
        while k < list.len()
            invariant
                k <= list.len(),
                *assets == Some(*list),
                !lists_symbol(list@, release_price_symbol()),
                forall|j: int| 0 <= j < k ==> !(#[trigger] list@[j] matches Asset::Stellar(a) && a@ == token@),
            decreases list.len() - k,
        {
            if let Asset::Stellar(a) = &list[k] {
                if a.same_as(token) {
                    return Some(Asset::Stellar(token.clone()));
                }
            }
            k = k + 1;
        }
        None
    }

    /// The price to record at release from the oracle's report `price`, read
    /// at ledger time `now` from an oracle of resolution `resolution` (`None`
    /// where it could not tell): the reported price where it is fresh, else none.
    pub fn release_price(price: Option<PriceData>, resolution: Option<u32>, now: u64) -> (r: Option<i128>)
        ensures
            match price {
                None => r is None,
                Some(pd) => if is_fresh(now, pd.timestamp, resolution) { r == Some(pd.price) } else { r is None },
            },
    {
        let pd = match price {
            None => { return None; },
            Some(pd) => pd,
        };
        let fresh = match resolution {
            None => true,
            Some(res) => {
                let max_age = (res as u64) * 3;
                !(now < pd.timestamp || now - pd.timestamp > max_age)
            },
        };
        if fresh {
            Some(pd.price)
        } else {
            None
        }
    }

    /// Records on the released `escrow` the price that the oracle reported
    /// at release (see `price_to_record`), and returns the price recorded;
    /// where none is to be recorded, or the escrow is not released, the
    /// escrow is returned unchanged.
    pub fn record_release_price(
        escrow: Escrow,
        assets: &Option<Vec<Asset>>,
        price: Option<PriceData>,
        resolution: Option<u32>,
        now: u64,
    ) -> (r: (Escrow, Option<i128>))
        ensures
            ({
                let listed = match assets { Some(list) => Some(list@), None => None };
                let recorded = if escrow.flags.released {
                    price_to_record(listed, escrow.trustline.address@, price, resolution, now)
                } else {
                    None
                };
                &&& r.1 == recorded
                &&& match recorded {
                    Some(p) => r.0@ == EscrowView { record_price_at_release: p, ..escrow@ },
                    None => r.0@ == escrow@,
                }
            }),
    {
        if !escrow.flags.released {
            return (escrow, None);
        }
        let ticker = Self::select_price_ticker(assets, &escrow.trustline.address);
        if ticker.is_none() {
            return (escrow, None);
        }
        let recorded = Self::release_price(price, resolution, now);
        let mut escrow = escrow;
        match recorded {
            Some(p) => {
                escrow.record_price_at_release = p;
            },
            None => {},
        }
        (escrow, recorded)
    }
}

} // verus!
