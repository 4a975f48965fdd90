//! Requests for allowances, one by one.
use vstd::prelude::*;

use crate::account::is_account_id;
use crate::allowance::{
    get_allowance, get_allowance_read, get_redis_cnxn, init_senders_infinite_allowance_fastauth,
    initial_writes, update_all_allowances, update_all_allowances_in_redis, update_all_connected,
    update_all_key_set, update_all_keys_fetched, update_allowance, update_allowance_stored,
    AllowanceWrite, GetAllowanceStep, KeyUpdate, PoolError, UpdateAllStep,
};
use crate::config::DConfig;
use crate::request::{AccountIdAllowanceJson, AccountIdJson, AllowanceJson};
use crate::response::Response;
use crate::text::{decimal, decimal_text};

verus! {

/// The allowance of an account is looked up under its id. A text that is no account id is answered
/// 403, without a look-up.
pub proof fn law_allowance_is_looked_up(
    account_id_json: AccountIdJson,
    step: GetAllowanceStep,
    valid: bool,
)
    requires
        call_ensures(get_allowance, (account_id_json,), step),
        call_ensures(is_account_id, (&account_id_json.account_id,), valid),
    ensures
        valid ==> (step matches GetAllowanceStep::GetRemainingAllowance { account_id }
            && account_id@ == account_id_json.account_id@),
        !valid ==> (step matches GetAllowanceStep::Done(response) && response.status_code == 403
            && response.body@ == "Invalid account_id: "@ + account_id_json.account_id@),
{
}

/// The allowance that was found is answered, in decimal. A look-up that failed is answered 500 with
/// the account and what went wrong.
pub proof fn law_found_allowance_is_answered(
    account_id: &String,
    reply: Result<u64, String>,
    response: Response,
)
    requires
        call_ensures(get_allowance_read, (account_id, reply), response),
    ensures
        reply matches Ok(allowance) ==> response.status_code == 200 && response.body@ == decimal(
            allowance as nat,
        ),
        reply matches Err(err) ==> response.status_code == 500 && response.body@
            == "Error getting allowance for account_id "@ + account_id@ + " in Relayer DB: "@
            + err@,
{
}

/// What is stored for a request to set an allowance is the allowance and the account of the request,
/// and the answer names both.
pub proof fn law_allowance_is_set_as_asked(
    request: &AccountIdAllowanceJson,
    write: AllowanceWrite,
    reply: Result<(), String>,
    response: Response,
    printed: String,
)
    requires
        call_ensures(update_allowance, (request,), write),
        call_ensures(update_allowance_stored, (request, reply), response),
        call_ensures(decimal_text, (request.allowance,), printed),
    ensures
        write.account_id@ == request.account_id@,
        write.allowance == request.allowance,
        reply is Ok ==> response.status_code == 201 && response.body@
            == "Relayer DB updated for {account_id: "@ + request.account_id@ + ",allowance: "@
            + printed@ + "}"@,
        reply matches Err(err) ==> response.status_code == 500 && response.body@
            == "Error updating account_id "@ + request.account_id@ + " with allowance "@ + printed@
            + " in Relayer DB:\nErr("@ + err@ + ")"@,
{
}

/// Every sender of the list starts with the largest allowance, in the order of the list, and nobody
/// else is given one.
pub proof fn law_every_sender_starts(config: &DConfig, writes: Vec<AllowanceWrite>)
    requires
        call_ensures(init_senders_infinite_allowance_fastauth, (config,), writes),
    ensures
        writes@.len() == config.whitelisted_delegate_action_receiver_ids@.len(),
        forall|i: int|
            0 <= i < writes@.len() ==> (#[trigger] writes@[i]).account_id@
                == config.whitelisted_delegate_action_receiver_ids@[i]@ && writes@[i].allowance
                == 0xffff_ffff_ffff_ffff,
{
    let views = writes@.map_values(|w: AllowanceWrite| w@);
    assert(views == initial_writes(*config));
    assert(views.len() == writes@.len());
    assert forall|i: int| 0 <= i < writes@.len() implies (#[trigger] writes@[i]).account_id@
        == config.whitelisted_delegate_action_receiver_ids@[i]@ && writes@[i].allowance
        == 0xffff_ffff_ffff_ffff by {
        assert(views[i] == writes@[i]@);
        assert(initial_writes(*config)[i] == views[i]);
        assert(views[i] == (config.whitelisted_delegate_action_receiver_ids@[i]@, u64::MAX));
    }
}

/// A connection of the pool is taken as it is. Where the pool gives none, its error is kept and
/// printed after the description.
pub proof fn law_pool_is_passed_on<C>(
    given: Result<C, String>,
    taken: Result<C, PoolError>,
    text: String,
)
    requires
        call_ensures(get_redis_cnxn::<C>, (given,), taken),
        taken is Err ==> call_ensures(PoolError::to_string, (&taken->Err_0,), text),
    ensures
        given is Ok <==> taken is Ok,
        given matches Ok(conn) ==> taken->Ok_0 == conn,
        given matches Err(detail) ==> taken->Err_0.kind is IoError && taken->Err_0.detail@
            == detail@ && text@
            == "Error getting Relayer DB connection from the pool"@ + ": "@ + detail@,
{
}

/// An update of all allowances is one of the keys that end in the name of the network, which is
/// `near` on the main network, and of no others. The value is the allowance in decimal. The endpoint
/// starts it with the allowance of the request.
pub proof fn law_update_starts(
    config: &DConfig,
    request: &AllowanceJson,
    allowance_in_gas: u64,
    step: UpdateAllStep,
    asked_step: UpdateAllStep,
)
    requires
        call_ensures(update_all_allowances_in_redis, (config, allowance_in_gas), step),
        call_ensures(update_all_allowances, (config, request), asked_step),
        request.allowance_in_gas == allowance_in_gas,
    ensures
        step matches UpdateAllStep::Connect { pattern, value } && value@ == decimal(
            allowance_in_gas as nat,
        ) && (config.network_env@ == "mainnet"@ ==> pattern@ == "*."@ + "near"@) && (
        config.network_env@ != "mainnet"@ ==> pattern@ == "*."@ + config.network_env@),
        asked_step matches UpdateAllStep::Connect { pattern, value } && value@ == decimal(
            allowance_in_gas as nat,
        ) && (config.network_env@ == "mainnet"@ ==> pattern@ == "*."@ + "near"@) && (
        config.network_env@ != "mainnet"@ ==> pattern@ == "*."@ + config.network_env@),
{
}

/// Over a connection the keys are fetched with the pattern and for the value that came. Without one
/// the update is done with, and the answer tells what the pool says.
pub proof fn law_update_goes_on_connected(
    pattern: String,
    value: String,
    reply: Result<(), PoolError>,
    step: UpdateAllStep,
)
    requires
        call_ensures(update_all_connected, (pattern, value, reply), step),
    ensures
        reply is Ok ==> (step matches UpdateAllStep::FetchKeys { pattern: p, value: v } && p@
            == pattern@ && v@ == value@),
        reply matches Err(err) ==> (step matches UpdateAllStep::Done(Err(answered))
            && answered.status_code == 500 && answered.message@
            == "Error getting Relayer DB connection from the pool: "@ + (
        "Error getting Relayer DB connection from the pool"@ + ": "@ + err.detail@)),
{
}

/// The update is at a place of some keys: it has them all, in order, and the value for each.
pub open spec fn is_at(update: KeyUpdate, keys: Seq<String>, next: int, value: Seq<char>) -> bool {
    &&& update@.keys.len() == keys.len()
    &&& forall|i: int| 0 <= i < keys.len() ==> #[trigger] update@.keys[i] == keys[i]@
    &&& update@.next == next
    &&& update@.value == value
}

/// Every key that was fetched is set, the first one first. Without keys there is nothing to set, and
/// without an answer of the database the update is done with.
pub proof fn law_every_fetched_key_is_taken(
    value: String,
    reply: Result<Vec<String>, String>,
    step: UpdateAllStep,
)
    requires
        call_ensures(update_all_keys_fetched, (value, reply), step),
    ensures
        reply matches Ok(keys) ==> {
            &&& keys@.len() > 0 ==> (step matches UpdateAllStep::SetKey(update) && is_at(
                update,
                keys@,
                0,
                value@,
            ))
            &&& keys@.len() == 0 ==> (step matches UpdateAllStep::Done(Ok(text)) && text@
                == "Updated "@ + decimal(0) + " keys in Relayer DB"@)
        },
        reply matches Err(err) ==> (step matches UpdateAllStep::Done(Err(answered))
            && answered.status_code == 500 && answered.message@
            == "Error fetching keys from Relayer DB: "@ + err@),
{
}

/// The key and the value that a step names are those of its place.
pub proof fn law_step_names_its_key(
    update: &KeyUpdate,
    keys: Seq<String>,
    next: int,
    text: Seq<char>,
    key: &String,
    value: &String,
)
    requires
        0 <= next < keys.len(),
        is_at(*update, keys, next, text),
        call_ensures(KeyUpdate::key, (update,), key),
        call_ensures(KeyUpdate::value, (update,), value),
    ensures
        key@ == keys[next]@,
        value@ == text,
{
    assert(update@.keys[next] == keys[next]@);
}

/// After a key was set the next one follows, for the same value and until the last one was set; then
/// all of them are counted. A key that was not set ends the update and is named.
pub proof fn law_keys_follow_one_another(
    update: KeyUpdate,
    keys: Seq<String>,
    next: int,
    value: Seq<char>,
    reply: Result<(), String>,
    step: UpdateAllStep,
)
    requires
        0 <= next < keys.len(),
        is_at(update, keys, next, value),
        call_ensures(update_all_key_set, (update, reply), step),
    ensures
        reply is Ok && next + 1 < keys.len() ==> (step matches UpdateAllStep::SetKey(following)
            && is_at(following, keys, next + 1, value)),
        reply is Ok && next + 1 == keys.len() ==> (step matches UpdateAllStep::Done(Ok(text))
            && text@ == "Updated "@ + decimal(keys.len()) + " keys in Relayer DB"@),
        reply matches Err(err) ==> (step matches UpdateAllStep::Done(Err(answered))
            && answered.status_code == 500 && answered.message@
            == "Error updating allowance for key "@ + keys[next]@ + ": "@ + err@),
{
    assert(update@.keys[next] == keys[next]@);
}

} // verus!
