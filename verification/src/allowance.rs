//! Reading and setting the allowances in the relayer's database.
use r2d2_redis::redis::{ErrorKind, RedisError};
use vstd::prelude::*;

use crate::account::{is_account_id, valid_account_id};
use crate::config::DConfig;
use crate::relay::worked;
use crate::request::{AccountIdAllowanceJson, AccountIdJson, AllowanceJson};
use crate::response::{
    internal_error, outcome, Outcome, RelayError, Response, CREATED, FORBIDDEN,
    INTERNAL_SERVER_ERROR, OK,
};
use crate::text::{decimal, decimal_text};

verus! {

/// The answer to a text that is no account id.
pub open spec fn invalid_account_id(status_code: u16, account_id: Seq<char>) -> (u16, Seq<char>) {
    (status_code, "Invalid account_id: "@ + account_id)
}

/// The step that a request for an allowance has come to.
pub enum GetAllowanceStep {
    /// The remaining allowance of an account is to be looked up; then [`get_allowance_read`].
    GetRemainingAllowance { account_id: String },
    Done(Response),
}

/// A [`GetAllowanceStep`] as mathematical values.
pub enum GetAllowanceView {
    GetRemainingAllowance { account_id: Seq<char> },
    Done((u16, Seq<char>)),
}

impl View for GetAllowanceStep {
    type V = GetAllowanceView;

    open spec fn view(&self) -> GetAllowanceView {
        match self {
            GetAllowanceStep::GetRemainingAllowance { account_id } =>
            GetAllowanceView::GetRemainingAllowance { account_id: account_id@ },
            GetAllowanceStep::Done(response) => GetAllowanceView::Done(response@),
        }
    }
}

/// The first step of a request for an allowance: a text that is no account id is answered 403.
pub open spec fn get_allowance_first(account_id: Seq<char>) -> GetAllowanceView {
    if valid_account_id(account_id) {
        GetAllowanceView::GetRemainingAllowance { account_id }
    } else {
        GetAllowanceView::Done(invalid_account_id(FORBIDDEN, account_id))
    }
}

/// Takes a request of the `/get_allowance` endpoint to its first step.
pub fn get_allowance(account_id_json: AccountIdJson) -> (step: GetAllowanceStep)
    ensures
        step@ == get_allowance_first(account_id_json.account_id@),
{
    if is_account_id(&account_id_json.account_id) {
        GetAllowanceStep::GetRemainingAllowance { account_id: account_id_json.account_id }
    } else {
        let mut body = "Invalid account_id: ".to_owned();
        body.append(account_id_json.account_id.as_str());
        GetAllowanceStep::Done(Response { status_code: FORBIDDEN, body })
    }
}

/// What a look-up of an allowance found, as mathematical values.
pub open spec fn allowance_reply(reply: Result<u64, String>) -> Result<u64, Seq<char>> {
    match reply {
        Ok(allowance) => Ok(allowance),
        Err(err) => Err(err@),
    }
}

/// The answer to a request for an allowance after the look-up.
pub open spec fn get_allowance_answer(
    account_id: Seq<char>,
    reply: Result<u64, Seq<char>>,
) -> (u16, Seq<char>) {
    match reply {
        Ok(allowance) => (OK, decimal(allowance as nat)),
        Err(err) => (
            INTERNAL_SERVER_ERROR,
            "Error getting allowance for account_id "@ + account_id + " in Relayer DB: "@ + err,
        ),
    }
}

/// Answers a request for an allowance after the look-up. An error comes as it is printed for
/// debugging.
pub fn get_allowance_read(account_id: &String, reply: Result<u64, String>) -> (response: Response)
    ensures
        response@ == get_allowance_answer(account_id@, allowance_reply(reply)),
{
    match reply {
        Ok(allowance) => Response { status_code: OK, body: decimal_text(allowance) },
        Err(err) => {
            let mut body = "Error getting allowance for account_id ".to_owned();
            body.append(account_id.as_str());
            body.append(" in Relayer DB: ");
            body.append(err.as_str());
            Response { status_code: INTERNAL_SERVER_ERROR, body }
        },
    }
}

/// What is stored for a request: the allowance of an account.
pub struct AllowanceWrite {
    pub account_id: String,
    pub allowance: u64,
}

impl View for AllowanceWrite {
    type V = (Seq<char>, u64);

    open spec fn view(&self) -> (Seq<char>, u64) {
        (self.account_id@, self.allowance)
    }
}

/// Takes a request of the `/update_allowance` endpoint to what is to be stored for it; then
/// [`update_allowance_stored`].
pub fn update_allowance(account_id_allowance: &AccountIdAllowanceJson) -> (write: AllowanceWrite)
    ensures
        write@ == (account_id_allowance.account_id@, account_id_allowance.allowance),
{
    AllowanceWrite {
        account_id: account_id_allowance.account_id.clone(),
        allowance: account_id_allowance.allowance,
    }
}

/// The answer to a request to set an allowance after it was stored.
pub open spec fn update_allowance_answer(
    account_id: Seq<char>,
    allowance: u64,
    reply: Result<(), Seq<char>>,
) -> (u16, Seq<char>) {
    match reply {
        Ok(()) => (
            CREATED,
            "Relayer DB updated for {account_id: "@ + account_id + ",allowance: "@ + decimal(
                allowance as nat,
            ) + "}"@,
        ),
        Err(err) => (
            INTERNAL_SERVER_ERROR,
            "Error updating account_id "@ + account_id + " with allowance "@ + decimal(
                allowance as nat,
            ) + " in Relayer DB:\nErr("@ + err + ")"@,
        ),
    }
}

/// Answers a request to set an allowance after it was stored. An error comes as it is printed for
/// debugging.
pub fn update_allowance_stored(
    account_id_allowance: &AccountIdAllowanceJson,
    reply: Result<(), String>,
) -> (response: Response)
    ensures
        response@ == update_allowance_answer(
            account_id_allowance.account_id@,
            account_id_allowance.allowance,
            worked(reply),
        ),
{
    match reply {
        Ok(()) => {
            let allowance = decimal_text(account_id_allowance.allowance);
            let mut body = "Relayer DB updated for {account_id: ".to_owned();
            body.append(account_id_allowance.account_id.as_str());
            body.append(",allowance: ");
            body.append(allowance.as_str());
            body.append("}");
            Response { status_code: CREATED, body }
        },
        Err(err) => {
            let allowance = decimal_text(account_id_allowance.allowance);
            let mut body = "Error updating account_id ".to_owned();
            body.append(account_id_allowance.account_id.as_str());
            body.append(" with allowance ");
            body.append(allowance.as_str());
            body.append(" in Relayer DB:\nErr(");
            body.append(err.as_str());
            body.append(")");
            Response { status_code: INTERNAL_SERVER_ERROR, body }
        },
    }
}

/// The allowances that the whitelisted senders start with, in the order of the list: as much as
/// can be written.
pub open spec fn initial_writes(config: DConfig) -> Seq<(Seq<char>, u64)> {
    config.whitelisted_delegate_action_receiver_ids@.map_values(|id: String| (id@, u64::MAX))
}

/// Lists the allowances that the whitelisted senders start with under the FastAuth features.
pub fn init_senders_infinite_allowance_fastauth(config: &DConfig) -> (writes: Vec<AllowanceWrite>)
    ensures
        writes@.map_values(|w: AllowanceWrite| w@) == initial_writes(*config),
{
    let mut writes: Vec<AllowanceWrite> = Vec::new();
    let senders = &config.whitelisted_delegate_action_receiver_ids;
    for i in 0..senders.len()
        invariant
            writes@.len() == i,
            forall|j: int| 0 <= j < i ==> #[trigger] writes@[j]@ == (senders@[j]@, u64::MAX),
    {
        writes.push(AllowanceWrite { account_id: senders[i].clone(), allowance: u64::MAX });
    }
    writes
}

/// What a failure to get a connection to the relayer's database is described as.
pub const POOL_ERROR: &'static str = "Error getting Relayer DB connection from the pool";

/// The text of an error of the Redis client with a description and a detail, of the kind `IoError`:
/// `RedisError::from`, printed with `Display`.
///
/// Claimed of the calls: the text is the description, a colon, a blank and the detail.
#[verifier::external_body]
fn redis_error_text(description: &'static str, detail: String) -> (text: String)
    ensures
        text@ == description@ + ": "@ + detail@,
{
    RedisError::from((ErrorKind::IoError, description, detail)).to_string()
}

/// The kinds of errors that a [`PoolError`] may be, as the Redis client names them.
#[derive(Clone, Copy, Debug, PartialEq, Eq, Structural)]
pub enum PoolErrorKind {
    IoError,
}

/// No connection to the relayer's database could be had from the pool.
pub struct PoolError {
    pub kind: PoolErrorKind,
    /// What the pool says.
    pub detail: String,
}

impl View for PoolError {
    type V = (PoolErrorKind, Seq<char>);

    open spec fn view(&self) -> (PoolErrorKind, Seq<char>) {
        (self.kind, self.detail@)
    }
}

impl PoolError {
    /// Prints the error.
    pub fn to_string(&self) -> (text: String)
        ensures
            text@ == pool_error_text(self@),
    {
        redis_error_text(POOL_ERROR, self.detail.clone())
    }
}

/// The printed [`PoolError`]. Its kind is not shown.
pub open spec fn pool_error_text(err: (PoolErrorKind, Seq<char>)) -> Seq<char> {
    POOL_ERROR@ + ": "@ + err.1
}

/// Takes over the connection that the pool gave, or the text of its error.
pub fn get_redis_cnxn<C>(conn_result: Result<C, String>) -> (conn: Result<C, PoolError>)
    ensures
        match (conn_result, conn) {
            (Ok(given), Ok(taken)) => taken == given,
            (Err(detail), Err(err)) => err.kind == PoolErrorKind::IoError && err.detail == detail,
            _ => false,
        },
{
    match conn_result {
        Ok(conn) => Ok(conn),
        Err(detail) => Err(PoolError { kind: PoolErrorKind::IoError, detail }),
    }
}

/// The keys that are still to be set to one value.
pub struct KeyUpdate {
    keys: Vec<String>,
    next: usize,
    value: String,
}

/// A [`KeyUpdate`] as mathematical values.
pub struct KeyUpdateView {
    pub keys: Seq<Seq<char>>,
    /// The place of the key that is set next.
    pub next: nat,
    pub value: Seq<char>,
}

/// The texts of a list.
pub open spec fn texts(list: Seq<String>) -> Seq<Seq<char>> {
    list.map_values(|s: String| s@)
}

impl View for KeyUpdate {
    type V = KeyUpdateView;

    closed spec fn view(&self) -> KeyUpdateView {
        KeyUpdateView { keys: texts(self.keys@), next: self.next as nat, value: self.value@ }
    }
}

impl KeyUpdate {
    #[verifier::type_invariant]
    spec fn well_formed(self) -> bool {
        self.next < self.keys@.len()
    }

    /// The key that is set next.
    pub fn key(&self) -> (key: &String)
        ensures
            self@.next < self@.keys.len(),
            key@ == self@.keys[self@.next as int],
    {
        proof {
            use_type_invariant(self);
        }
        &self.keys[self.next]
    }

    /// The value that the key is set to.
    pub fn value(&self) -> (value: &String)
        ensures
            value@ == self@.value,
    {
        &self.value
    }
}

/// The step that an update of all allowances has come to.
pub enum UpdateAllStep {
    /// A connection to the relayer's database is to be had; then [`update_all_connected`].
    Connect { pattern: String, value: String },
    /// The keys that match a pattern are to be fetched; then [`update_all_keys_fetched`].
    FetchKeys { pattern: String, value: String },
    /// A key is to be set; then [`update_all_key_set`].
    SetKey(KeyUpdate),
    Done(Result<String, RelayError>),
}

/// An [`UpdateAllStep`] as mathematical values.
pub enum UpdateAllView {
    Connect { pattern: Seq<char>, value: Seq<char> },
    FetchKeys { pattern: Seq<char>, value: Seq<char> },
    SetKey(KeyUpdateView),
    Done(Outcome),
}

impl View for UpdateAllStep {
    type V = UpdateAllView;

    open spec fn view(&self) -> UpdateAllView {
        match self {
            UpdateAllStep::Connect { pattern, value } => UpdateAllView::Connect {
                pattern: pattern@,
                value: value@,
            },
            UpdateAllStep::FetchKeys { pattern, value } => UpdateAllView::FetchKeys {
                pattern: pattern@,
                value: value@,
            },
            UpdateAllStep::SetKey(update) => UpdateAllView::SetKey(update@),
            UpdateAllStep::Done(result) => UpdateAllView::Done(outcome(*result)),
        }
    }
}

/// The last part of the account ids of a network: `near` on the main network, elsewhere the
/// network's own name.
pub open spec fn network_suffix(network_env: Seq<char>) -> Seq<char> {
    if network_env == "mainnet"@ {
        "near"@
    } else {
        network_env
    }
}

/// The pattern of the keys that hold the allowances of a network's accounts.
pub open spec fn key_pattern(network_env: Seq<char>) -> Seq<char> {
    "*."@ + network_suffix(network_env)
}

/// The first step of an update of all allowances.
pub open spec fn update_all_first(config: DConfig, allowance_in_gas: u64) -> UpdateAllView {
    UpdateAllView::Connect {
        pattern: key_pattern(config.network_env@),
        value: decimal(allowance_in_gas as nat),
    }
}

/// Starts to set the allowances of all accounts of the network.
pub fn update_all_allowances_in_redis(config: &DConfig, allowance_in_gas: u64) -> (step:
    UpdateAllStep)
    ensures
        step@ == update_all_first(*config, allowance_in_gas),
{
    let mainnet = "mainnet".to_owned();
    let network = if config.network_env != mainnet {
        config.network_env.clone()
    } else {
        "near".to_owned()
    };
    let mut pattern = "*.".to_owned();
    pattern.append(network.as_str());
    UpdateAllStep::Connect { pattern, value: decimal_text(allowance_in_gas) }
}

/// Takes a request of the `/update_all_allowances` endpoint to its first step. What comes of the
/// last step is answered by [`respond`](crate::response::respond).
pub fn update_all_allowances(config: &DConfig, allowance_json: &AllowanceJson) -> (step:
    UpdateAllStep)
    ensures
        step@ == update_all_first(*config, allowance_json.allowance_in_gas),
{
    update_all_allowances_in_redis(config, allowance_json.allowance_in_gas)
}

/// What came of getting a connection, as mathematical values.
pub open spec fn connected(reply: Result<(), PoolError>) -> Result<(), (PoolErrorKind, Seq<char>)> {
    match reply {
        Ok(()) => Ok(()),
        Err(err) => Err(err@),
    }
}

/// The step after a connection was asked for.
pub open spec fn after_connection(
    pattern: Seq<char>,
    value: Seq<char>,
    reply: Result<(), (PoolErrorKind, Seq<char>)>,
) -> UpdateAllView {
    match reply {
        Ok(()) => UpdateAllView::FetchKeys { pattern, value },
        Err(err) => UpdateAllView::Done(
            Err(
                (
                    INTERNAL_SERVER_ERROR,
                    "Error getting Relayer DB connection from the pool: "@ + pool_error_text(
                        err,
                    ),
                ),
            ),
        ),
    }
}

/// Goes on with an update of all allowances after a connection was asked for.
pub fn update_all_connected(
    pattern: String,
    value: String,
    reply: Result<(), PoolError>,
) -> (step: UpdateAllStep)
    ensures
        step@ == after_connection(pattern@, value@, connected(reply)),
{
    match reply {
        Ok(()) => UpdateAllStep::FetchKeys { pattern, value },
        Err(err) => {
            let printed = err.to_string();
            let mut message = "Error getting Relayer DB connection from the pool: ".to_owned();
            message.append(printed.as_str());
            UpdateAllStep::Done(Err(internal_error(message)))
        },
    }
}

/// The report on an update of a number of keys.
pub open spec fn updated_message(count: nat) -> Seq<char> {
    "Updated "@ + decimal(count) + " keys in Relayer DB"@
}

fn updated_text(count: usize) -> (text: String)
    ensures
        text@ == updated_message(count as nat),
{
    let printed = decimal_text(count as u64);
    let mut text = "Updated ".to_owned();
    text.append(printed.as_str());
    text.append(" keys in Relayer DB");
    text
}

/// The keys that were fetched, as mathematical values.
pub open spec fn fetched(reply: Result<Vec<String>, String>) -> Result<Seq<Seq<char>>, Seq<char>> {
    match reply {
        Ok(keys) => Ok(texts(keys@)),
        Err(err) => Err(err@),
    }
}

/// The step at which `next` of the keys have been set.
pub open spec fn key_step(keys: Seq<Seq<char>>, next: nat, value: Seq<char>) -> UpdateAllView {
    if next < keys.len() {
        UpdateAllView::SetKey(KeyUpdateView { keys, next, value })
    } else {
        UpdateAllView::Done(Ok(updated_message(keys.len())))
    }
}

/// The step after the keys were fetched.
pub open spec fn after_keys(
    value: Seq<char>,
    reply: Result<Seq<Seq<char>>, Seq<char>>,
) -> UpdateAllView {
    match reply {
        Ok(keys) => key_step(keys, 0, value),
        Err(err) => UpdateAllView::Done(
            Err((INTERNAL_SERVER_ERROR, "Error fetching keys from Relayer DB: "@ + err)),
        ),
    }
}

/// Goes on with an update of all allowances after the keys were fetched.
pub fn update_all_keys_fetched(value: String, reply: Result<Vec<String>, String>) -> (step:
    UpdateAllStep)
    ensures
        step@ == after_keys(value@, fetched(reply)),
{
    match reply {
        Ok(keys) => if keys.len() > 0 {
            UpdateAllStep::SetKey(KeyUpdate { keys, next: 0, value })
        } else {
            UpdateAllStep::Done(Ok(updated_text(keys.len())))
        },
        Err(err) => {
            let mut message = "Error fetching keys from Relayer DB: ".to_owned();
            message.append(err.as_str());
            UpdateAllStep::Done(Err(internal_error(message)))
        },
    }
}

/// The step after a key was set: the next key, or the report. A key that could not be set ends the
/// update.
pub open spec fn after_key(update: KeyUpdateView, reply: Result<(), Seq<char>>) -> UpdateAllView {
    match reply {
        Ok(()) => key_step(update.keys, update.next + 1, update.value),
        Err(err) => UpdateAllView::Done(
            Err(
                (
                    INTERNAL_SERVER_ERROR,
                    "Error updating allowance for key "@ + update.keys[update.next as int] + ": "@
                        + err,
                ),
            ),
        ),
    }
}

/// Goes on with an update of all allowances after a key was set.
pub fn update_all_key_set(update: KeyUpdate, reply: Result<(), String>) -> (step: UpdateAllStep)
    ensures
        step@ == after_key(update@, worked(reply)),
{
    proof {
        use_type_invariant(&update);
    }
    let count: usize = update.keys.len();
    match reply {
        Ok(()) => if update.next + 1 < count {
            UpdateAllStep::SetKey(
                KeyUpdate { keys: update.keys, next: update.next + 1, value: update.value },
            )
        } else {
            UpdateAllStep::Done(Ok(updated_text(count)))
        },
        Err(err) => {
            let mut message = "Error updating allowance for key ".to_owned();
            message.append(update.keys[update.next].as_str());
            message.append(": ");
            message.append(err.as_str());
            UpdateAllStep::Done(Err(internal_error(message)))
        },
    }
}

} // verus!
