use trustless_work::address::Address;
use trustless_work::engagement::mock_oracle::MockOracle;
use trustless_work::engagement::price_oracle::PriceOracle;
use trustless_work::escrow::manager::EscrowManager;
use trustless_work::reflector::{Asset, PriceData};

fn addr(name: &str) -> Address {
    Address::new(name.to_string())
}

#[test]
fn mock_oracle_reports_last_result_set() {
    let mut oracle = MockOracle::new();
    assert_eq!(oracle.get_result(), None);
    oracle.initialize(Some(false));
    assert_eq!(oracle.get_result(), Some(false));
    oracle.set_result(Some(true));
    assert_eq!(oracle.get_result(), Some(true));
    oracle.set_result(None);
    assert_eq!(oracle.get_result(), None);
}

#[test]
fn price_oracle_condition() {
    let mut oracle = PriceOracle::new();
    assert!(oracle.initialize_oracle(addr("CREFLECTOR")));
    assert_eq!(oracle.oracle_address.as_ref().unwrap().strkey, "CREFLECTOR");
    let reported = Some(PriceData { price: 25, timestamp: 100 });
    assert_eq!(oracle.fetch_price(reported), PriceData { price: 25, timestamp: 100 });
    assert!(oracle.checks_price_condition(reported, 100, 4));
    assert!(!oracle.checks_price_condition(reported, 101, 4));
}

fn ticker_name(a: &Option<Asset>) -> Option<String> {
    match a {
        None => None,
        Some(Asset::Other(s)) => Some(format!("symbol:{}", s)),
        Some(Asset::Stellar(a)) => Some(format!("token:{}", a.strkey)),
    }
}

#[test]
fn release_price_ticker_prefers_the_symbol() {
    let token = addr("CUSDCTOKEN");
    let both = Some(vec![Asset::Stellar(addr("CUSDCTOKEN")), Asset::Other("XLM".to_string()), Asset::Other("USDC".to_string())]);
    assert_eq!(ticker_name(&EscrowManager::select_price_ticker(&both, &token)), Some("symbol:USDC".to_string()));
    let token_only = Some(vec![Asset::Other("XLM".to_string()), Asset::Stellar(addr("CUSDCTOKEN"))]);
    assert_eq!(ticker_name(&EscrowManager::select_price_ticker(&token_only, &token)), Some("token:CUSDCTOKEN".to_string()));
    let neither = Some(vec![Asset::Other("XLM".to_string()), Asset::Stellar(addr("COTHER"))]);
    assert_eq!(ticker_name(&EscrowManager::select_price_ticker(&neither, &token)), None);
    assert_eq!(ticker_name(&EscrowManager::select_price_ticker(&None, &token)), None);
}

#[test]
fn release_price_freshness() {
    let pd = PriceData { price: 9_999, timestamp: 1_000 };
    assert_eq!(EscrowManager::release_price(Some(pd), Some(300), 1_900), Some(9_999));
    assert_eq!(EscrowManager::release_price(Some(pd), Some(300), 1_901), None);
    assert_eq!(EscrowManager::release_price(Some(pd), Some(300), 999), None);
    assert_eq!(EscrowManager::release_price(Some(pd), None, 5_000_000), Some(9_999));
    assert_eq!(EscrowManager::release_price(None, Some(300), 1_000), None);
}
