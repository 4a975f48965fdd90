use relayer::config::{is_listed, DConfig, Settings};

fn settings(switch: Option<bool>) -> Settings {
    Settings {
        network: "testnet".to_string(),
        ip_address: [127, 0, 0, 1],
        port: 3030,
        relayer_account_id: "relayer.example.testnet".to_string(),
        burn_address: "arrr_me_burn.testnet".to_string(),
        whitelisted_contracts: vec!["guest-book.testnet".to_string()],
        whitelisted_delegate_action_receiver_ids: vec!["alice.testnet".to_string()],
        use_whitelisted_delegate_action_receiver_ids: switch,
        use_redis: switch,
        use_fastauth_features: switch,
        use_pay_with_ft: switch,
        use_shared_storage: switch,
    }
}

#[test]
fn missing_switches_are_off() {
    for (switch, on) in [(None, false), (Some(false), false), (Some(true), true)] {
        let config = DConfig::prod_config(settings(switch));
        assert_eq!(config.use_whitelisted_delegate_action_receiver_ids, on);
        assert_eq!(config.use_redis, on);
        assert_eq!(config.use_fastauth_features, on);
        assert_eq!(config.use_pay_with_ft, on);
        assert_eq!(config.use_shared_storage, on);
        assert_eq!(config.uses_storage_pool(), on);
        assert_eq!(config.port, 3030);
        assert_eq!(config.ip_address, [127, 0, 0, 1]);
        assert_eq!(config.network_env, "testnet");
        assert_eq!(config.relayer_account_id, "relayer.example.testnet");
        assert_eq!(config.burn_address, "arrr_me_burn.testnet");
        assert_eq!(config.whitelisted_contracts, vec!["guest-book.testnet"]);
        assert_eq!(config.whitelisted_delegate_action_receiver_ids, vec!["alice.testnet"]);
    }
}

#[test]
fn either_switch_brings_the_storage_pool() {
    let mut config = DConfig::prod_config(settings(None));
    config.use_shared_storage = true;
    assert!(config.uses_storage_pool());
    config.use_shared_storage = false;
    config.use_fastauth_features = true;
    assert!(config.uses_storage_pool());
}

#[test]
fn lists_are_searched_for_the_whole_text() {
    let list = vec!["a.near".to_string(), "b.near".to_string()];
    assert!(is_listed(&list, &"a.near".to_string()));
    assert!(is_listed(&list, &"b.near".to_string()));
    assert!(!is_listed(&list, &"a".to_string()));
    assert!(!is_listed(&list, &"A.near".to_string()));
    assert!(!is_listed(&vec![], &"a.near".to_string()));
}
