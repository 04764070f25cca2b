use market_hub::market_types::{
    JSONContent, MarketMechanism, MarketOutcome, MarketOutcomeType, Visibility,
};

#[test]
fn outcome_text() {
    assert_eq!(MarketOutcome::Yes.to_string(), "YES");
    assert_eq!(MarketOutcome::No.to_string(), "NO");
    assert_eq!(MarketOutcome::Other("3".to_string()).to_string(), "3");
    assert_eq!(MarketOutcome::Other(String::new()).to_string(), "");
}

#[test]
fn schema_enums_compare() {
    assert_ne!(MarketMechanism::Cpmm, MarketMechanism::NoMechanism);
    assert_eq!(MarketOutcomeType::Binary, MarketOutcomeType::Binary);
    assert_ne!(Visibility::Public, Visibility::Private);
    assert_eq!(JSONContent {}, JSONContent {});
}
