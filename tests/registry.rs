use market_hub::registry::{RegisterError, Registry, Subscribed};

#[test]
fn register_new_bot_then_lookup() {
    let mut reg: Registry<u32> = Registry::new();
    assert_eq!(reg.register("bawt".to_string(), 1), Ok(()));
    assert_eq!(reg.register("ewma_bawt".to_string(), 2), Ok(()));
    assert_eq!(reg.len(), 2);
    assert_eq!(reg.get(&"bawt".to_string()), Some(&1));
    assert_eq!(reg.get(&"ewma_bawt".to_string()), Some(&2));
    assert_eq!(reg.get(&"nobody".to_string()), None);
    assert!(reg.contains_key(&"bawt".to_string()));
    assert!(!reg.contains_key(&"nobody".to_string()));
}

#[test]
fn duplicate_registration_is_refused_and_keeps_the_first() {
    let mut reg: Registry<u32> = Registry::new();
    assert_eq!(reg.register("bawt".to_string(), 1), Ok(()));
    assert_eq!(
        reg.register("bawt".to_string(), 99),
        Err(RegisterError::AlreadyRegistered)
    );
    assert_eq!(reg.len(), 1);
    assert_eq!(reg.get(&"bawt".to_string()), Some(&1));
}

#[test]
fn unknown_bot_has_no_route() {
    let reg: Registry<u32> = Registry::new();
    assert_eq!(reg.find(&"ghost_bot".to_string()), None);
    assert_eq!(reg.get(&"ghost_bot".to_string()), None);
}

#[test]
fn two_subscriptions_to_one_key_start_one_poller() {
    let mut reg: Registry<&str> = Registry::new();
    let first = reg.subscribe("all".to_string(), "first channel");
    let second = reg.subscribe("all".to_string(), "second channel");
    assert_eq!(first, Subscribed::Started(0));
    assert_eq!(second, Subscribed::Attached(0));
    assert_eq!(reg.len(), 1);
    assert_eq!(*reg.get_at(0), "first channel");
}

#[test]
fn subscriptions_to_different_keys_start_one_poller_each() {
    let mut reg: Registry<u8> = Registry::new();
    assert_eq!(reg.subscribe("all".to_string(), 0), Subscribed::Started(0));
    assert_eq!(reg.subscribe("market-1".to_string(), 1), Subscribed::Started(1));
    assert_eq!(reg.subscribe("market-1".to_string(), 2), Subscribed::Attached(1));
    assert_eq!(reg.subscribe("all".to_string(), 3), Subscribed::Attached(0));
    assert_eq!(reg.len(), 2);
    assert_eq!(reg.find(&"market-1".to_string()), Some(1));
    assert_eq!(*reg.get_at(1), 1);
}
