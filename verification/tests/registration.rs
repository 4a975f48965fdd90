use relayer::config::{DConfig, Settings};
use relayer::delegate::{Action, SignedDelegateAction, Terms};
use relayer::registration::{
    create_account_allowance_restored, create_account_allowance_stored, create_account_atomic,
    create_account_processed,
    create_account_storage_allocated, create_account_token_read, create_account_token_stored,
    register_account_and_allowance, register_allowance_stored, register_storage_allocated,
    register_token_read, register_token_stored, CreateAccountStep, RegisterStep,
};
use relayer::relay::{
    process_allowance_read, process_allowance_stored, process_transaction_sent, Execution,
    FinalExecutionStatus, ProcessStep,
};
use relayer::request::{AccountIdAllowanceOauthJson, AccountIdAllowanceOauthSDAJson};
use std::collections::BTreeMap;

const TOKEN: &str = "https://securetoken.google.com/pagoda-oboarding-dev:Op4h13AQozM4CikngfHiFVC2xhf2";

const REPORT: &str = "{\"Receipts Outcome\":[],\"Transaction Outcome\":{},\
    \"message\":\"Relayed and sent transaction\",\"status\":\"Started\"}";

fn config() -> DConfig {
    DConfig::prod_config(Settings {
        network: "mainnet".to_string(),
        ip_address: [0, 0, 0, 0],
        port: 80,
        relayer_account_id: "relayer.near".to_string(),
        burn_address: "burn.near".to_string(),
        whitelisted_contracts: vec!["near".to_string()],
        whitelisted_delegate_action_receiver_ids: vec![],
        use_whitelisted_delegate_action_receiver_ids: None,
        use_redis: None,
        use_fastauth_features: None,
        use_pay_with_ft: None,
        use_shared_storage: Some(true),
    })
}

fn create_request(account_id: &str, receiver_id: &str) -> AccountIdAllowanceOauthSDAJson {
    AccountIdAllowanceOauthSDAJson {
        account_id: account_id.to_string(),
        allowance: 90000000000000,
        oauth_token: TOKEN.to_string(),
        signed_delegate_action: SignedDelegateAction {
            terms: Terms {
                sender_id: "example.near".to_string(),
                receiver_id: receiver_id.to_string(),
                actions: vec![Action::CreateAccount],
                signature: "ed25519:4uJu8KapH98h".to_string(),
            },
            payload: vec![1, 2, 3],
        },
    }
}

fn register_request(account_id: &str) -> AccountIdAllowanceOauthJson {
    AccountIdAllowanceOauthJson {
        account_id: account_id.to_string(),
        allowance: 90000000000000,
        oauth_token: TOKEN.to_string(),
    }
}

struct World {
    entries: BTreeMap<String, String>,
    storage: Vec<String>,
    sent: Vec<Vec<u8>>,
    failing: Option<&'static str>,
}

fn world(failing: Option<&'static str>) -> World {
    World {
        entries: BTreeMap::new(),
        storage: vec![],
        sent: vec![],
        failing,
    }
}

impl World {
    fn works(&self, work: &str) -> Result<(), String> {
        if self.failing == Some(work) {
            Err("down".to_string())
        } else {
            Ok(())
        }
    }

    fn look_up(&self, oauth_token: &String) -> Result<bool, String> {
        self.works("lookup").map(|_| self.entries.contains_key(oauth_token))
    }

    fn set_allowance(&mut self, account_id: &String, allowance: u64) -> Result<(), String> {
        self.works("allowance")?;
        self.entries.insert(account_id.clone(), allowance.to_string());
        Ok(())
    }

    fn replace_allowance(
        &mut self,
        account_id: &String,
        allowance: u64,
    ) -> Result<Option<String>, String> {
        self.works("allowance")?;
        Ok(self.entries.insert(account_id.clone(), allowance.to_string()))
    }

    fn restore(&mut self, account_id: &String, previous: Option<String>) -> Result<(), String> {
        self.works("restore")?;
        match previous {
            Some(text) => self.entries.insert(account_id.clone(), text),
            None => self.entries.remove(account_id),
        };
        Ok(())
    }

    fn allocate(&mut self, account_id: &String) -> Result<(), String> {
        self.works("storage")?;
        self.storage.push(account_id.clone());
        Ok(())
    }

    fn advance(&mut self, step: ProcessStep) -> ProcessStep {
        match step {
            ProcessStep::GetRemainingAllowance(relay) => {
                let reply = match self.entries.get(&relay.sender_id) {
                    Some(text) => text.parse().map_err(|_| "no number".to_string()),
                    None => Err("nil".to_string()),
                };
                process_allowance_read(relay, reply)
            }
            ProcessStep::SendTransaction(relay, remaining) => {
                self.sent.push(relay.payload.clone());
                let failed = self.failing == Some("execution");
                let reply = self.works("send").map(|_| Execution {
                    final_status: if failed {
                        FinalExecutionStatus::Failure
                    } else {
                        FinalExecutionStatus::Started
                    },
                    status: "\"Started\"".to_string(),
                    transaction_outcome: "{}".to_string(),
                    receipts_outcome: "[]".to_string(),
                    transaction_tokens_burnt: 2000000000,
                    receipts_tokens_burnt: vec![1000000000],
                });
                process_transaction_sent(relay, remaining, reply)
            }
            ProcessStep::StoreRemainingAllowance { account_id, allowance, result } => {
                let reply = self.set_allowance(&account_id, allowance);
                process_allowance_stored(result, reply)
            }
            ProcessStep::Done(_) => step,
        }
    }

    fn set_token(&mut self, oauth_token: &String) -> Result<(), String> {
        self.works("token")?;
        self.entries.insert(oauth_token.clone(), "1".to_string());
        Ok(())
    }
}

fn create(config: &DConfig, request: AccountIdAllowanceOauthSDAJson, world: &mut World) -> (u16, String) {
    let mut step = create_account_atomic(request);
    loop {
        step = match step {
            CreateAccountStep::GetOauthToken(request) => {
                let reply = world.look_up(&request.oauth_token);
                create_account_token_read(request, reply)
            }
            CreateAccountStep::SetAllowance(request) => {
                let reply = world.replace_allowance(&request.account_id, request.allowance);
                create_account_allowance_stored(config, request, reply)
            }
            CreateAccountStep::Process(account, previous, step) => {
                let next = world.advance(step);
                create_account_processed(config, account, previous, next)
            }
            CreateAccountStep::RestoreAllowance { account_id, previous, response } => {
                let reply = world.restore(&account_id, previous);
                let response = create_account_allowance_restored(response, reply);
                return (response.status_code, response.body);
            }
            CreateAccountStep::AllocateStorage(account, report) => {
                let reply = world.allocate(&account.account_id);
                create_account_storage_allocated(account, report, reply)
            }
            CreateAccountStep::SetOauthToken(account, report) => {
                let reply = world.set_token(&account.oauth_token);
                let response = create_account_token_stored(&account, &report, reply);
                return (response.status_code, response.body);
            }
            CreateAccountStep::Done(response) => return (response.status_code, response.body),
        }
    }
}

fn register(request: AccountIdAllowanceOauthJson, world: &mut World) -> (u16, String) {
    let mut step = register_account_and_allowance(request);
    loop {
        step = match step {
            RegisterStep::GetOauthToken(account) => {
                let reply = world.look_up(&account.oauth_token);
                register_token_read(account, reply)
            }
            RegisterStep::SetAllowance(account) => {
                let reply = world.set_allowance(&account.account_id, account.allowance);
                register_allowance_stored(account, reply)
            }
            RegisterStep::AllocateStorage(account) => {
                let reply = world.allocate(&account.account_id);
                register_storage_allocated(account, reply)
            }
            RegisterStep::SetOauthToken(account) => {
                let reply = world.set_token(&account.oauth_token);
                let response = register_token_stored(&account, reply);
                return (response.status_code, response.body);
            }
            RegisterStep::Done(response) => return (response.status_code, response.body),
        }
    }
}

fn used() -> String {
    format!(
        "Error: oauth_token {TOKEN} has already been used to register an account. \
         You can only register 1 account per oauth_token"
    )
}

#[test]
fn an_account_is_created() {
    let config = config();
    let mut world = world(None);
    let (status_code, body) = create(&config, create_request("example.near", "near"), &mut world);
    let result: Result<String, ()> = Ok(REPORT.to_string());
    assert_eq!(status_code, 201);
    assert_eq!(
        body,
        format!(
            "Added Oauth token {TOKEN} for account_id example.near with allowance (in Gas) 90000000000000 \
             to Relayer DB. Near onchain account creation response: {result:?}"
        )
    );
    assert_eq!(world.entries["example.near"], "90000000000000");
    assert!(world.entries.contains_key(TOKEN));
    assert_eq!(world.storage, vec!["example.near"]);
    assert_eq!(world.sent, vec![vec![1, 2, 3]]);
}

#[test]
fn an_account_is_registered() {
    let mut world = world(None);
    let (status_code, body) = register(register_request("example.near"), &mut world);
    assert_eq!(status_code, 201);
    assert_eq!(
        body,
        format!(
            "Added Oauth token {{oauth_token: {TOKEN}, account_id: example.near, \
             allowance: 90000000000000 to Relayer DB"
        )
    );
    assert_eq!(world.entries["example.near"], "90000000000000");
    assert!(world.entries.contains_key(TOKEN));
    assert_eq!(world.storage, vec!["example.near"]);
}

#[test]
fn a_token_is_good_for_one_account() {
    let config = config();
    for first_created in [false, true] {
        let mut world = world(None);
        let first = if first_created {
            create(&config, create_request("first.near", "near"), &mut world)
        } else {
            register(register_request("first.near"), &mut world)
        };
        assert_eq!(first.0, 201);
        let created = create(&config, create_request("second.near", "near"), &mut world);
        assert_eq!(created, (400, used()));
        let registered = register(register_request("second.near"), &mut world);
        assert_eq!(registered, (500, used()));
        assert_eq!(world.entries.len(), 2);
        assert_eq!(world.storage, vec!["first.near"]);
    }
}

#[test]
fn a_token_that_is_the_account_id_replaces_the_allowance() {
    let mut registered = world(None);
    let mut request = register_request("example.near");
    request.oauth_token = "example.near".to_string();
    assert_eq!(register(request, &mut registered).0, 201);
    assert_eq!(registered.entries.len(), 1);
    assert_eq!(registered.entries["example.near"], "1");
    let mut created = world(None);
    let mut request = create_request("example.near", "near");
    request.oauth_token = "example.near".to_string();
    assert_eq!(create(&config(), request, &mut created).0, 201);
    assert_eq!(created.entries.len(), 1);
    assert_eq!(created.entries["example.near"], "1");
}

#[test]
fn a_failed_creation_leaves_the_token_free() {
    let config = config();
    for (failing, body) in [
        (
            "lookup",
            format!("Error getting oauth_token for account_id example.near, oauth_token {TOKEN} in Relayer DB: down"),
        ),
        (
            "allowance",
            "Error creating account_id example.near with allowance 90000000000000 in Relayer DB:\nErr(down)"
                .to_string(),
        ),
        ("send", "Error signing transaction: down".to_string()),
        ("storage", "Error allocating storage for account example.near: down".to_string()),
        ("token", format!("Error creating oauth token {TOKEN} in Relayer DB:\ndown")),
    ] {
        let mut world = world(Some(failing));
        let answer = create(&config, create_request("example.near", "near"), &mut world);
        assert_eq!(answer, (500, body.clone()));
        assert!(!world.entries.contains_key(TOKEN));
        world.failing = None;
        let again = create(&config, create_request("example.near", "near"), &mut world);
        assert_eq!(again.0, 201);
    }
}

#[test]
fn a_failed_registration_leaves_the_token_free() {
    for (failing, body) in [
        (
            "lookup",
            format!("Error getting oauth_token for account_id example.near, oauth_token {TOKEN} in Relayer DB: down"),
        ),
        (
            "allowance",
            "Error creating account_id example.near with allowance 90000000000000 in Relayer DB:\nErr(down)"
                .to_string(),
        ),
        ("storage", "Error allocating storage for account example.near: down".to_string()),
        ("token", format!("Error creating oauth token {TOKEN:?} in Relayer DB:\ndown")),
    ] {
        let mut world = world(Some(failing));
        let answer = register(register_request("example.near"), &mut world);
        assert_eq!(answer, (500, body.clone()));
        assert!(!world.entries.contains_key(TOKEN));
    }
}

#[test]
fn a_refused_delegate_action_creates_no_account() {
    let mut world = world(None);
    let answer = create(&config(), create_request("example.near", "other.near"), &mut world);
    assert_eq!(
        answer,
        (400, "Delegate Action receiver_id other.near is not whitelisted".to_string())
    );
    assert!(!world.entries.contains_key(TOKEN));
    assert!(world.sent.is_empty());
    assert!(world.entries.is_empty());
}

#[test]
fn a_failed_relay_puts_the_entry_back() {
    let error = REPORT.replace("Relayed and sent transaction", "Error sending transaction");
    for (failing, status_code, body) in [
        (Some("send"), 500, "Error signing transaction: down".to_string()),
        (Some("execution"), 500, error),
    ] {
        for before in [None, Some("12".to_string()), Some("no number".to_string())] {
            let mut world = world(failing);
            if let Some(text) = &before {
                world.entries.insert("new.near".to_string(), text.clone());
            }
            let answer = create(&config(), create_request("new.near", "near"), &mut world);
            assert_eq!(answer, (status_code, body.clone()));
            assert_eq!(world.entries.get("new.near").cloned(), before);
            assert!(!world.entries.contains_key(TOKEN));
            assert_eq!(world.sent.len(), 1);
        }
    }
}

#[test]
fn a_failed_relay_charges_the_relayer_only() {
    let mut config = config();
    config.use_redis = true;
    let mut world = world(Some("execution"));
    world.entries.insert("example.near".to_string(), "20000000000000".to_string());
    let answer = create(&config, create_request("new.near", "near"), &mut world);
    assert_eq!(answer.0, 500);
    let left: Vec<(String, String)> = world.entries.into_iter().collect();
    assert_eq!(
        left,
        vec![
            ("example.near".to_string(), "20000000000000".to_string()),
            ("relayer.near".to_string(), "19999999999997".to_string()),
        ]
    );
}

#[test]
fn the_error_of_the_relay_is_answered_where_the_entry_stays() {
    let mut world = world(Some("restore"));
    let answer = create(&config(), create_request("new.near", "other.near"), &mut world);
    assert_eq!(
        answer,
        (400, "Delegate Action receiver_id other.near is not whitelisted".to_string())
    );
    assert_eq!(world.entries["new.near"], "90000000000000");
}

#[test]
fn an_invalid_id_is_not_registered() {
    let mut created = world(None);
    let answer =
        create(&config(), create_request("Invalid_Account_Id.near", "near"), &mut created);
    assert_eq!(answer, (403, "Invalid account_id: Invalid_Account_Id.near".to_string()));
    assert!(!created.entries.contains_key(TOKEN));
    assert_eq!(created.sent.len(), 1);
    let mut registered = world(None);
    let answer = register(register_request("Invalid_Account_Id.near"), &mut registered);
    assert_eq!(answer, (400, "Invalid account_id: Invalid_Account_Id.near".to_string()));
    assert!(!registered.entries.contains_key(TOKEN));
    assert!(registered.storage.is_empty());
}

#[test]
fn storage_is_allocated_where_it_is_shared() {
    let mut config = config();
    config.use_shared_storage = false;
    let mut unshared = world(None);
    let answer = create(&config, create_request("example.near", "near"), &mut unshared);
    assert_eq!(answer.0, 201);
    assert!(unshared.storage.is_empty());
    config.use_fastauth_features = true;
    let mut shared = world(None);
    let answer = create(&config, create_request("example.near", "near"), &mut shared);
    assert_eq!(answer.0, 201);
    assert_eq!(shared.storage, vec!["example.near"]);
}

#[test]
fn registrations_print_their_fields() {
    assert_eq!(
        register_request("example.near").to_string(),
        format!("account_id: example.near, allowance in Gas: 90000000000000, oauth_token: {TOKEN}")
    );
    assert_eq!(
        create_request("example.near", "near").to_string(),
        format!(
            "account_id: example.near, allowance in Gas: 90000000000000, oauth_token: {TOKEN}, \
             signed_delegate_action signature: ed25519:4uJu8KapH98h"
        )
    );
}
