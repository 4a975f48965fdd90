use relayer::account::is_account_id;
use relayer::allowance::{
    get_allowance, get_allowance_read, get_redis_cnxn, init_senders_infinite_allowance_fastauth,
    update_all_allowances, update_all_allowances_in_redis, update_all_connected,
    update_all_key_set, update_all_keys_fetched, update_allowance, update_allowance_stored,
    GetAllowanceStep, PoolError, PoolErrorKind, UpdateAllStep,
};
use relayer::config::{DConfig, Settings};
use relayer::request::{AccountIdAllowanceJson, AccountIdJson, AllowanceJson};
use relayer::response::respond;
use std::collections::BTreeMap;

fn config(network: &str, senders: Vec<String>) -> DConfig {
    DConfig::prod_config(Settings {
        network: network.to_string(),
        ip_address: [0, 0, 0, 0],
        port: 80,
        relayer_account_id: "relayer.near".to_string(),
        burn_address: "burn.near".to_string(),
        whitelisted_contracts: vec![],
        whitelisted_delegate_action_receiver_ids: senders,
        use_whitelisted_delegate_action_receiver_ids: None,
        use_redis: None,
        use_fastauth_features: None,
        use_pay_with_ft: None,
        use_shared_storage: None,
    })
}

#[test]
fn account_ids_keep_the_rules() {
    let longest = "a".repeat(64);
    for id in [
        "aa", "root", "alice.near", "app.stage.testnet", "1_4m_n0t-al1c3.near", "0x", longest.as_str(),
    ] {
        assert!(is_account_id(&id.to_string()), "{id}");
    }
    let too_long = "a".repeat(65);
    for id in [
        "", "a", "_alice.", ".bob.near-", "\u{192}elicia.near", "alice..near", "not-_alice.near",
        "Alice.near", "alice near", "alice.near\n", too_long.as_str(),
    ] {
        assert!(!is_account_id(&id.to_string()), "{id}");
    }
}

#[test]
fn an_invalid_id_has_no_allowance() {
    match get_allowance(AccountIdJson { account_id: "Alice".to_string() }) {
        GetAllowanceStep::Done(response) => {
            assert_eq!(response.status_code, 403);
            assert_eq!(response.body, "Invalid account_id: Alice");
        }
        GetAllowanceStep::GetRemainingAllowance { .. } => panic!("looked up"),
    }
}

#[test]
fn the_allowance_that_was_set_is_reported() {
    let request =
        AccountIdAllowanceJson { account_id: "example.near".to_string(), allowance: 90000000000000 };
    let write = update_allowance(&request);
    let mut db: BTreeMap<String, u64> = BTreeMap::new();
    db.insert(write.account_id, write.allowance);
    let stored = update_allowance_stored(&request, Ok(()));
    assert_eq!(stored.status_code, 201);
    assert_eq!(
        stored.body,
        "Relayer DB updated for {account_id: example.near,allowance: 90000000000000}"
    );
    match get_allowance(AccountIdJson { account_id: "example.near".to_string() }) {
        GetAllowanceStep::GetRemainingAllowance { account_id } => {
            let response = get_allowance_read(&account_id, Ok(db[&account_id]));
            assert_eq!(response.status_code, 200);
            assert_eq!(response.body, "90000000000000");
        }
        GetAllowanceStep::Done(_) => panic!("refused"),
    }
}

#[test]
fn failures_of_the_database_are_reported() {
    let response = get_allowance_read(&"example.near".to_string(), Err("io".to_string()));
    assert_eq!(response.status_code, 500);
    assert_eq!(response.body, "Error getting allowance for account_id example.near in Relayer DB: io");
    let request = AccountIdAllowanceJson { account_id: "example.near".to_string(), allowance: 12 };
    let response = update_allowance_stored(&request, Err("io".to_string()));
    assert_eq!(response.status_code, 500);
    assert_eq!(
        response.body,
        "Error updating account_id example.near with allowance 12 in Relayer DB:\nErr(io)"
    );
}

#[test]
fn requests_print_their_fields() {
    let request = AccountIdAllowanceJson { account_id: "example.near".to_string(), allowance: 900000000 };
    assert_eq!(request.to_string(), "account_id: example.near, allowance in Gas: 900000000");
    let request = AccountIdJson { account_id: "example.near".to_string() };
    assert_eq!(request.to_string(), "account_id: example.near");
    let request = AllowanceJson { allowance_in_gas: 900000000 };
    assert_eq!(request.to_string(), "allowance in Gas: 900000000");
}

#[test]
fn senders_start_with_all_that_can_be_written() {
    let config = config("testnet", vec!["b.testnet".to_string(), "a.testnet".to_string()]);
    let writes = init_senders_infinite_allowance_fastauth(&config);
    let listed: Vec<(&str, u64)> =
        writes.iter().map(|w| (w.account_id.as_str(), w.allowance)).collect();
    assert_eq!(listed, vec![("b.testnet", u64::MAX), ("a.testnet", u64::MAX)]);
}

#[test]
fn connections_and_pool_errors_pass_through() {
    assert!(matches!(get_redis_cnxn(Ok(17)), Ok(17)));
    match get_redis_cnxn::<u8>(Err("timed out".to_string())) {
        Ok(_) => panic!("connected"),
        Err(err) => {
            assert_eq!(err.kind, PoolErrorKind::IoError);
            assert_eq!(err.detail, "timed out");
            assert_eq!(
                err.to_string(),
                "Error getting Relayer DB connection from the pool: timed out"
            );
        }
    }
}

fn keys_step(network: &str, allowance: u64) -> (String, String) {
    match update_all_allowances_in_redis(&config(network, vec![]), allowance) {
        UpdateAllStep::Connect { pattern, value } => match update_all_connected(pattern, value, Ok(())) {
            UpdateAllStep::FetchKeys { pattern, value } => (pattern, value),
            _ => panic!("no keys are fetched"),
        },
        _ => panic!("no connection is asked for"),
    }
}

#[test]
fn the_pattern_follows_the_network() {
    assert_eq!(keys_step("mainnet", 5), ("*.near".to_string(), "5".to_string()));
    assert_eq!(keys_step("testnet", 10), ("*.testnet".to_string(), "10".to_string()));
}

fn run_update(
    keys: Vec<&str>,
    failing: Option<&str>,
    db: &mut BTreeMap<String, String>,
) -> (u16, String) {
    let (_, value) = keys_step("testnet", 90000000000000);
    let mut step =
        update_all_keys_fetched(value, Ok(keys.into_iter().map(|k| k.to_string()).collect()));
    loop {
        step = match step {
            UpdateAllStep::SetKey(update) => {
                let key = update.key().clone();
                let reply = if failing == Some(key.as_str()) {
                    Err("readonly".to_string())
                } else {
                    db.insert(key, update.value().clone());
                    Ok(())
                };
                update_all_key_set(update, reply)
            }
            UpdateAllStep::Done(result) => {
                let response = respond(result);
                return (response.status_code, response.body);
            }
            _ => panic!("went back"),
        }
    }
}

#[test]
fn all_keys_are_set() {
    let mut db: BTreeMap<String, String> = BTreeMap::new();
    db.insert("other.near".to_string(), "1".to_string());
    let answer = run_update(vec!["a.testnet", "b.testnet", "c.testnet"], None, &mut db);
    assert_eq!(answer, (200, "Updated 3 keys in Relayer DB".to_string()));
    assert_eq!(db["a.testnet"], "90000000000000");
    assert_eq!(db["b.testnet"], "90000000000000");
    assert_eq!(db["c.testnet"], "90000000000000");
    assert_eq!(db["other.near"], "1");
    assert_eq!(run_update(vec![], None, &mut db), (200, "Updated 0 keys in Relayer DB".to_string()));
}

#[test]
fn a_key_that_cannot_be_set_ends_the_update() {
    let mut db: BTreeMap<String, String> = BTreeMap::new();
    let answer = run_update(vec!["a.testnet", "b.testnet", "c.testnet"], Some("b.testnet"), &mut db);
    assert_eq!(
        answer,
        (500, "Error updating allowance for key b.testnet: readonly".to_string())
    );
    assert_eq!(db.len(), 1);
    assert_eq!(db["a.testnet"], "90000000000000");
}

#[test]
fn an_update_needs_a_connection_and_keys() {
    let step = update_all_allowances(&config("testnet", vec![]), &AllowanceJson { allowance_in_gas: 1 });
    let (pattern, value) = match step {
        UpdateAllStep::Connect { pattern, value } => (pattern, value),
        _ => panic!("no connection is asked for"),
    };
    match update_all_connected(pattern, value, Err(PoolError {
        kind: PoolErrorKind::IoError,
        detail: "timed out".to_string(),
    })) {
        UpdateAllStep::Done(result) => {
            let response = respond(result);
            assert_eq!(response.status_code, 500);
            assert_eq!(
                response.body,
                "Error getting Relayer DB connection from the pool: \
                 Error getting Relayer DB connection from the pool: timed out"
            );
        }
        _ => panic!("went on"),
    }
    match update_all_keys_fetched("1".to_string(), Err("moved".to_string())) {
        UpdateAllStep::Done(result) => {
            let response = respond(result);
            assert_eq!(response.status_code, 500);
            assert_eq!(response.body, "Error fetching keys from Relayer DB: moved");
        }
        _ => panic!("went on"),
    }
}
