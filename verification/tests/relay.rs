use base64::engine::general_purpose::URL_SAFE_NO_PAD as BASE64_ENGINE;
use base64::Engine;
use near_crypto::{KeyType, PublicKey, Signature};
use near_primitives::account::{AccessKey, AccessKeyPermission};
use near_primitives::borsh::BorshSerialize;
use near_primitives::delegate_action::{DelegateAction, NonDelegateAction};
use near_primitives::transaction::{
    Action, AddKeyAction, DeleteKeyAction, FunctionCallAction, TransferAction,
};
use relayer::config::{DConfig, Settings};
use relayer::delegate::{decode_signed_delegate_action, SignedDelegateAction};
use relayer::payment::{
    is_treasury_payment, names_burn_address, parse_receiver_member, to_ascii_lowercase,
    treasury_payments, InvalidJson,
};
use relayer::relay::{
    check_delegate_action, check_fastauth, process_allowance_read, process_allowance_stored,
    process_signed_delegate_action, process_transaction_sent, relay, relay_checked, relay_decoded,
    send_meta_tx, status_message_text, Execution, FinalExecutionStatus, ProcessStep,
};
use relayer::response::{respond, RelayError, Response};
use serde_json::Value;

fn config() -> DConfig {
    DConfig::prod_config(Settings {
        network: "testnet".to_string(),
        ip_address: [0, 0, 0, 0],
        port: 80,
        relayer_account_id: "relayer.example.testnet".to_string(),
        burn_address: "arrr_me_burn.testnet".to_string(),
        whitelisted_contracts: vec![
            "relayer_test1.testnet".to_string(),
            "relayer_test0.testnet".to_string(),
            "nomnomnom.testnet".to_string(),
        ],
        whitelisted_delegate_action_receiver_ids: vec!["relayer_test0.testnet".to_string()],
        use_whitelisted_delegate_action_receiver_ids: None,
        use_redis: None,
        use_fastauth_features: None,
        use_pay_with_ft: None,
        use_shared_storage: None,
    })
}

fn encode_signed_delegate_action(
    sender_id: &str,
    receiver_id: &str,
    actions: Vec<Action>,
    nonce: i32,
    max_block_height: i32,
) -> Vec<u8> {
    near_primitives::delegate_action::SignedDelegateAction {
        delegate_action: DelegateAction {
            sender_id: sender_id.parse().unwrap(),
            receiver_id: receiver_id.parse().unwrap(),
            actions: actions
                .iter()
                .map(|a| NonDelegateAction::try_from(a.clone()).unwrap())
                .collect(),
            nonce: nonce as u64,
            max_block_height: max_block_height as u64,
            public_key: PublicKey::empty(KeyType::ED25519),
        },
        signature: Signature::empty(KeyType::ED25519),
    }
    .try_to_vec()
    .unwrap()
}

fn create_signed_delegate_action(
    sender_id: &str,
    receiver_id: &str,
    actions: Vec<Action>,
    nonce: i32,
    max_block_height: i32,
) -> SignedDelegateAction {
    let data = encode_signed_delegate_action(sender_id, receiver_id, actions, nonce, max_block_height);
    decode_signed_delegate_action(&data).unwrap_or_else(|err| panic!("{err}"))
}

fn transfer() -> Vec<Action> {
    vec![Action::Transfer(TransferAction { deposit: 1 })]
}

fn call(args: &str) -> Action {
    Action::FunctionCall(FunctionCallAction {
        method_name: "ft_transfer".to_string(),
        args: args.as_bytes().to_vec(),
        gas: 30_000_000_000_000,
        deposit: 1,
    })
}

fn add_key() -> Action {
    Action::AddKey(AddKeyAction {
        public_key: PublicKey::empty(KeyType::ED25519),
        access_key: AccessKey { nonce: 0, permission: AccessKeyPermission::FullAccess },
    })
}

fn delete_key() -> Action {
    Action::DeleteKey(DeleteKeyAction { public_key: PublicKey::empty(KeyType::ED25519) })
}

fn execution(final_status: FinalExecutionStatus) -> Execution {
    Execution {
        final_status,
        status: "{\"SuccessValue\":\"\"}".to_string(),
        transaction_outcome: "{\"id\":1}".to_string(),
        receipts_outcome: "[]".to_string(),
        transaction_tokens_burnt: 2_000_000_000,
        receipts_tokens_burnt: vec![3_000_000_000, 4_000_000_000],
    }
}

struct World {
    allowance: Result<u64, String>,
    status: Result<FinalExecutionStatus, String>,
    stored: Result<(), String>,
    sent: Vec<(String, Vec<u8>)>,
    written: Vec<(String, u64)>,
}

fn world() -> World {
    World {
        allowance: Ok(u64::MAX),
        status: Ok(FinalExecutionStatus::SuccessValue),
        stored: Ok(()),
        sent: vec![],
        written: vec![],
    }
}

fn run(mut step: ProcessStep, world: &mut World) -> Response {
    loop {
        step = match step {
            ProcessStep::GetRemainingAllowance(relay) => {
                process_allowance_read(relay, world.allowance.clone())
            }
            ProcessStep::SendTransaction(relay, remaining) => {
                world.sent.push((relay.sender_id.clone(), relay.payload.clone()));
                let reply = world.status.clone().map(execution);
                process_transaction_sent(relay, remaining, reply)
            }
            ProcessStep::StoreRemainingAllowance { account_id, allowance, result } => {
                world.written.push((account_id, allowance));
                process_allowance_stored(result, world.stored.clone())
            }
            ProcessStep::Done(result) => return respond(result),
        }
    }
}

fn refusal(result: Result<(), RelayError>) -> Option<(u16, String)> {
    result.err().map(|err| (err.status_code, err.message))
}

const REPORT: &str = "{\"Receipts Outcome\":[],\"Transaction Outcome\":{\"id\":1},\
    \"message\":\"Relayed and sent transaction\",\"status\":{\"SuccessValue\":\"\"}}";

const FAILURE: &str = "{\"Receipts Outcome\":[],\"Transaction Outcome\":{\"id\":1},\
    \"message\":\"Error sending transaction\",\"status\":{\"SuccessValue\":\"\"}}";

#[test]
fn test_base64_encode_args() {
    let mut ft_transfer_args_json = serde_json::Map::new();
    ft_transfer_args_json.insert("receiver_id".to_string(), Value::from("guest-book.testnet"));
    ft_transfer_args_json.insert("amount".to_string(), Value::from("10"));
    let mut add_message_args_json = serde_json::Map::new();
    add_message_args_json.insert("text".to_string(), Value::from("funny_joke"));
    let ft_transfer_args_b64 = BASE64_ENGINE.encode(Value::Object(ft_transfer_args_json).to_string());
    let add_message_args_b64 = BASE64_ENGINE.encode(Value::Object(add_message_args_json).to_string());
    println!("ft_transfer_args_b64: {ft_transfer_args_b64}");
    println!("add_message_args_b64: {add_message_args_b64}");
    let args = BASE64_ENGINE.decode(ft_transfer_args_b64).unwrap();
    assert_eq!(parse_receiver_member(&args), Ok(Some("guest-book.testnet".to_string())));
    let args = BASE64_ENGINE.decode(add_message_args_b64).unwrap();
    assert_eq!(parse_receiver_member(&args), Ok(None));
}

#[test]
fn test_send_meta_tx() {
    let actions = transfer();
    let sender_id: String = String::from("relayer_test0.testnet");
    let receiver_id: String = String::from("relayer_test1.testnet");
    let nonce: i32 = 1;
    let max_block_height = 2000000000;
    let mut config = config();
    config.use_redis = true;
    let mut world = world();
    world.allowance = Ok(u64::MAX);
    let data =
        create_signed_delegate_action(&sender_id, &receiver_id, actions, nonce, max_block_height);
    let response = run(send_meta_tx(&config, data), &mut world);
    assert_eq!(response.status_code, 200);
    assert_eq!(response.body, REPORT);
    assert_eq!(world.written, vec![("relayer.example.testnet".to_string(), u64::MAX - 9)]);
}

#[test]
fn test_send_meta_tx_no_gas_allowance() {
    let actions = transfer();
    let sender_id: String = String::from("relayer_test0.testnet");
    let receiver_id: String = String::from("arrr_me_not_in_whitelist");
    let nonce: i32 = 54321;
    let max_block_height = 2000000123;
    let mut config = config();
    config.use_redis = true;
    let mut world = world();
    world.allowance = Ok(0);
    let sda2 =
        create_signed_delegate_action(&sender_id, &receiver_id, actions, nonce, max_block_height);
    let err_response = run(send_meta_tx(&config, sda2), &mut world);
    assert!(err_response.status_code == 400 || err_response.status_code == 500);
    assert_eq!(err_response.status_code, 400);
    assert_eq!(
        err_response.body,
        "Delegate Action receiver_id arrr_me_not_in_whitelist is not whitelisted"
    );
    assert!(world.sent.is_empty());
    assert!(world.written.is_empty());
}

#[test]
fn test_relay_with_load() {
    let account_id0: String = "nomnomnom.testnet".to_string();
    let account_id1: String = "relayer_test0.testnet".to_string();
    let mut nonce: i32 = 1;
    let max_block_height = 2000000000;
    let num_tests = 100;
    let config = config();
    let mut response_statuses = vec![];
    for i in 0..num_tests {
        let (sender_id, receiver_id) =
            if i % 2 == 0 { (&account_id0, &account_id1) } else { (&account_id1, &account_id0) };
        let payload =
            encode_signed_delegate_action(sender_id, receiver_id, transfer(), nonce, max_block_height);
        let mut world = world();
        let response = match relay(&config, &payload) {
            Ok(step) => run(step, &mut world),
            Err(response) => response,
        };
        response_statuses.push(response.status_code);
        assert_eq!(world.sent, vec![(sender_id.clone(), payload)]);
        nonce += 1;
    }
    assert_eq!(response_statuses.len(), 100);
    for response_status in response_statuses {
        assert_eq!(response_status, 200);
    }
}

#[test]
fn bytes_that_do_not_decode_are_refused() {
    let config = config();
    let mut payload =
        encode_signed_delegate_action("aa.near", "bb.near", transfer(), 1, 2);
    payload.push(0);
    for (data, body) in [
        (vec![], "Error deserializing payload data object: \"Unexpected length of input\""),
        (payload, "Error deserializing payload data object: \"Not all bytes read\""),
        (
            vec![1, 0, 0, 0, 65],
            "Error deserializing payload data object: \"invalid value: \\\"A\\\", the Account ID is too short\"",
        ),
    ] {
        match relay(&config, &data) {
            Ok(_) => panic!("decoded"),
            Err(response) => {
                assert_eq!(response.status_code, 400);
                assert_eq!(response.body, body);
            }
        }
    }
    match relay_decoded(&config, Err("a \"b\"".to_string())) {
        Ok(_) => panic!("decoded"),
        Err(response) => assert_eq!(
            response.body,
            "Error deserializing payload data object: \"a \\\"b\\\"\""
        ),
    }
}

#[test]
fn relaying_needs_a_valid_relayer() {
    let mut config = config();
    let payload = encode_signed_delegate_action(
        "relayer_test0.testnet",
        "relayer_test1.testnet",
        transfer(),
        1,
        2000000000,
    );
    assert!(matches!(
        relay_checked(&config, &payload),
        Some(Ok(ProcessStep::SendTransaction(_, None)))
    ));
    config.relayer_account_id = "Relayer".to_string();
    assert!(relay_checked(&config, &payload).is_none());
    match relay_checked(&config, &vec![]) {
        Some(Err(response)) => assert_eq!(response.status_code, 400),
        _ => panic!("decoded"),
    }
}

#[test]
fn decoding_reads_the_terms() {
    let data = encode_signed_delegate_action(
        "aa.near",
        "bb.near",
        vec![call("{}"), add_key(), delete_key(), Action::Transfer(TransferAction { deposit: 1 })],
        1,
        2,
    );
    let signed = decode_signed_delegate_action(&data).unwrap_or_else(|err| panic!("{err}"));
    assert_eq!(signed.payload, data);
    assert_eq!(signed.terms.sender_id, "aa.near");
    assert_eq!(signed.terms.receiver_id, "bb.near");
    assert_eq!(signed.terms.signature, Signature::empty(KeyType::ED25519).to_string());
    assert_eq!(signed.terms.actions.len(), 4);
    assert!(matches!(&signed.terms.actions[0], relayer::delegate::Action::FunctionCall(args) if args == b"{}"));
    assert!(matches!(signed.terms.actions[1], relayer::delegate::Action::AddKey));
    assert!(matches!(signed.terms.actions[2], relayer::delegate::Action::DeleteKey));
    assert!(matches!(signed.terms.actions[3], relayer::delegate::Action::Transfer));
}

#[test]
fn an_unlisted_sender_is_refused_without_fastauth() {
    let mut config = config();
    config.use_whitelisted_delegate_action_receiver_ids = true;
    let sda = create_signed_delegate_action("carol.testnet", "relayer_test1.testnet", transfer(), 1, 2);
    assert_eq!(
        refusal(check_delegate_action(&config, &sda.terms)),
        Some((
            400,
            "Delegate Action receiver_id relayer_test1.testnet or sender_id carol.testnet is not whitelisted"
                .to_string()
        ))
    );
    config.use_fastauth_features = true;
    assert_eq!(refusal(check_delegate_action(&config, &sda.terms)), None);
    config.use_fastauth_features = false;
    let sda =
        create_signed_delegate_action("relayer_test0.testnet", "relayer_test1.testnet", transfer(), 1, 2);
    assert_eq!(refusal(check_delegate_action(&config, &sda.terms)), None);
}

#[test]
fn an_unlisted_receiver_is_refused_with_fastauth_too() {
    let mut config = config();
    config.use_fastauth_features = true;
    let sda =
        create_signed_delegate_action("carol.testnet", "carol.testnet", vec![add_key()], 1, 2);
    assert_eq!(refusal(check_fastauth(&config, &sda.terms)), None);
    assert_eq!(
        refusal(check_delegate_action(&config, &sda.terms)),
        Some((400, "Delegate Action receiver_id carol.testnet is not whitelisted".to_string()))
    );
}

#[test]
fn fastauth_asks_for_key_actions_or_a_listed_sender() {
    let config = config();
    let terms = |sender: &str, receiver: &str, actions: Vec<Action>| {
        create_signed_delegate_action(sender, receiver, actions, 1, 2).terms
    };
    assert_eq!(
        refusal(check_fastauth(&config, &terms("carol.testnet", "carol.testnet", vec![]))),
        Some((400, "DelegateAction must have at least one NonDelegateAction".to_string()))
    );
    let message = |sender: &str, receiver: &str| {
        Some((
            400,
            format!(
                "Delegate Action receiver_id {receiver} or sender_id {sender} is not whitelisted OR \
                 (they do not match AND the NonDelegateAction is not AddKey or DeleteKey)"
            ),
        ))
    };
    assert_eq!(
        refusal(check_fastauth(&config, &terms("carol.testnet", "carol.testnet", transfer()))),
        message("carol.testnet", "carol.testnet")
    );
    assert_eq!(
        refusal(check_fastauth(&config, &terms("carol.testnet", "dave.testnet", vec![delete_key()]))),
        message("carol.testnet", "dave.testnet")
    );
    assert_eq!(
        refusal(check_fastauth(&config, &terms("carol.testnet", "carol.testnet", vec![delete_key()]))),
        None
    );
    assert_eq!(
        refusal(check_fastauth(&config, &terms("relayer_test0.testnet", "dave.testnet", transfer()))),
        None
    );
}

#[test]
fn relaying_may_have_to_be_paid_for() {
    let mut config = config();
    config.use_pay_with_ft = true;
    let sender = "relayer_test0.testnet";
    let receiver = "relayer_test1.testnet";
    let unpaid = Some((400, "No treasury payment found in this transaction".to_string()));
    for actions in [
        vec![],
        transfer(),
        vec![call("{\"receiver_id\":\"someone.testnet\",\"amount\":\"10\"}")],
        vec![call("{\"amount\":\"10\"}")],
        vec![call("not json")],
        vec![call("[\"arrr_me_burn.testnet\"]")],
        vec![call("{\"receiver_id\":{\"receiver_id\":\"arrr_me_burn.testnet\"}}")],
        vec![call("")],
    ] {
        let sda = create_signed_delegate_action(sender, receiver, actions, 1, 2);
        assert_eq!(refusal(check_delegate_action(&config, &sda.terms)), unpaid);
    }
    for args in [
        "{\"receiver_id\":\"arrr_me_burn.testnet\",\"amount\":\"10\"}",
        "{\"RECEIVER_ID\":\"Arrr_Me_BURN.testnet\"}",
        " {\"memo\": \"\u{fc}\", \"receiver_id\": \"arrr\\u005fme_burn.testnet\"} ",
    ] {
        let actions = vec![Action::Transfer(TransferAction { deposit: 1 }), call(args)];
        let sda = create_signed_delegate_action(sender, receiver, actions, 1, 2);
        assert_eq!(treasury_payments(&sda.terms.actions, &config.burn_address), vec![1]);
        assert_eq!(refusal(check_delegate_action(&config, &sda.terms)), None);
    }
}

#[test]
fn arguments_are_read_in_lower_case() {
    assert_eq!(to_ascii_lowercase(&b"AZaz@[`{09\xc3\x9c".to_vec()), b"azaz@[`{09\xc3\x9c".to_vec());
    let args = b"{\"Receiver_Id\":\"\xff\xFEX\"}".to_vec();
    assert_eq!(parse_receiver_member(&args), Ok(Some("\u{fffd}\u{fffd}x".to_string())));
    assert_eq!(
        parse_receiver_member(&"{\"receiver_id\":\"\u{dc}A\"}".as_bytes().to_vec()),
        Ok(Some("\u{dc}a".to_string()))
    );
    assert_eq!(parse_receiver_member(&b"{".to_vec()), Err(InvalidJson));
    assert_eq!(parse_receiver_member(&b"{\"receiver_id\":7}".to_vec()), Ok(None));
    assert_eq!(parse_receiver_member(&b"7".to_vec()), Ok(None));
    for args in ["{\"receiver_id\":\"Burn.near\"}", "{\"amount\":\"A\"}"] {
        let burn = "burn.near".to_string();
        let given = relayer::delegate::Action::FunctionCall(args.as_bytes().to_vec());
        let lowered =
            relayer::delegate::Action::FunctionCall(to_ascii_lowercase(&args.as_bytes().to_vec()));
        assert_eq!(is_treasury_payment(&given, &burn), is_treasury_payment(&lowered, &burn));
    }
}

#[test]
fn a_missing_receiver_is_the_empty_text() {
    let burn = "burn.near".to_string();
    assert!(names_burn_address(&Ok(Some("burn.near".to_string())), &burn));
    assert!(!names_burn_address(&Ok(Some("BURN.near".to_string())), &burn));
    assert!(!names_burn_address(&Ok(None), &burn));
    assert!(!names_burn_address(&Err(InvalidJson), &burn));
    assert!(names_burn_address(&Ok(None), &String::new()));
    assert!(names_burn_address(&Err(InvalidJson), &String::new()));
}

#[test]
fn a_sender_needs_allowance_where_gas_is_metered() {
    let mut config = config();
    config.use_redis = true;
    let sender = "relayer_test0.testnet";
    let refused = "AccountId relayer_test0.testnet does not have enough remaining gas allowance.";
    for (allowance, status_code) in [
        (Ok(0), 400),
        (Ok(9_999_999_999_999), 400),
        (Err("down".to_string()), 400),
        (Ok(10_000_000_000_000), 200),
    ] {
        let mut world = world();
        world.allowance = allowance;
        let sda = create_signed_delegate_action(sender, "relayer_test1.testnet", transfer(), 1, 2);
        let response = run(process_signed_delegate_action(&config, sda), &mut world);
        assert_eq!(response.status_code, status_code);
        if status_code == 400 {
            assert_eq!(response.body, refused);
            assert!(world.sent.is_empty());
            assert!(world.written.is_empty());
        } else {
            assert_eq!(world.sent.len(), 1);
            assert_eq!(
                world.written,
                vec![("relayer.example.testnet".to_string(), 9_999_999_999_991)]
            );
        }
    }
}

#[test]
fn failures_after_sending_are_not_the_clients() {
    for use_redis in [false, true] {
        let mut config = config();
        config.use_redis = use_redis;
        let sda = || {
            create_signed_delegate_action("relayer_test0.testnet", "relayer_test1.testnet", transfer(), 1, 2)
        };

        let mut unsent = world();
        unsent.status = Err("Timeout".to_string());
        let response = run(process_signed_delegate_action(&config, sda()), &mut unsent);
        assert_eq!(response.status_code, 500);
        assert_eq!(response.body, "Error signing transaction: Timeout");
        assert!(unsent.written.is_empty());

        let mut failed = world();
        failed.status = Ok(FinalExecutionStatus::Failure);
        let response = run(process_signed_delegate_action(&config, sda()), &mut failed);
        assert_eq!(response.status_code, 500);
        assert_eq!(response.body, FAILURE);
        assert_eq!(failed.written.len(), if use_redis { 1 } else { 0 });

        let mut unstored = world();
        unstored.stored = Err("readonly".to_string());
        let response = run(process_signed_delegate_action(&config, sda()), &mut unstored);
        if use_redis {
            assert_eq!(response.status_code, 500);
            assert_eq!(
                response.body,
                "Updating redis remaining allowance errored out: readonly"
            );
        } else {
            assert_eq!(response.status_code, 200);
            assert_eq!(response.body, REPORT);
        }
    }
}

#[test]
fn the_report_is_the_json_object() {
    for (final_status, title) in [
        (FinalExecutionStatus::NotStarted, "Relayed and sent transaction"),
        (FinalExecutionStatus::Started, "Relayed and sent transaction"),
        (FinalExecutionStatus::SuccessValue, "Relayed and sent transaction"),
        (FinalExecutionStatus::Failure, "Error sending transaction"),
    ] {
        let execution = execution(final_status);
        let parse = |text: &str| -> Value { serde_json::from_str(text).unwrap() };
        let mut object = serde_json::Map::new();
        object.insert("message".to_string(), Value::from(title));
        object.insert("status".to_string(), parse(&execution.status));
        object.insert("Transaction Outcome".to_string(), parse(&execution.transaction_outcome));
        object.insert("Receipts Outcome".to_string(), parse(&execution.receipts_outcome));
        assert_eq!(status_message_text(&execution), Value::Object(object).to_string());
    }
}
