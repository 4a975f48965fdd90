//! Answers and printed requests.
use vstd::prelude::*;

use crate::request::{
    AccountIdAllowanceJson, AccountIdAllowanceOauthJson, AccountIdAllowanceOauthSDAJson,
    AccountIdJson, AllowanceJson,
};
use crate::response::{bad_request, internal_error, respond, RelayError, Response};
use crate::text::decimal_text;

verus! {

/// A success is answered 200 with its text, and an error with its own status code and message.
pub proof fn law_outcomes_are_answered(result: Result<String, RelayError>, response: Response)
    requires
        call_ensures(respond, (result,), response),
    ensures
        result matches Ok(text) ==> response.status_code == 200 && response.body@ == text@,
        result matches Err(err) ==> response.status_code == err.status_code && response.body@
            == err.message@,
{
}

/// An error of the client has the status code 400, one of the relayer's side 500, and both keep
/// their message.
pub proof fn law_errors_keep_their_message(message: String, client: RelayError, server: RelayError)
    requires
        call_ensures(bad_request, (message,), client),
        call_ensures(internal_error, (message,), server),
    ensures
        client.status_code == 400 && client.message@ == message@,
        server.status_code == 500 && server.message@ == message@,
{
}

/// A printed request shows each of its fields under its name, one after the other.
pub proof fn law_requests_show_their_fields(
    created: &AccountIdAllowanceOauthSDAJson,
    registered: &AccountIdAllowanceOauthJson,
    set: &AccountIdAllowanceJson,
    asked: &AccountIdJson,
    all: &AllowanceJson,
    created_text: String,
    registered_text: String,
    set_text: String,
    asked_text: String,
    all_text: String,
    created_allowance: String,
    registered_allowance: String,
    set_allowance: String,
    all_allowance: String,
)
    requires
        call_ensures(AccountIdAllowanceOauthSDAJson::to_string, (created,), created_text),
        call_ensures(AccountIdAllowanceOauthJson::to_string, (registered,), registered_text),
        call_ensures(AccountIdAllowanceJson::to_string, (set,), set_text),
        call_ensures(AccountIdJson::to_string, (asked,), asked_text),
        call_ensures(AllowanceJson::to_string, (all,), all_text),
        call_ensures(decimal_text, (created.allowance,), created_allowance),
        call_ensures(decimal_text, (registered.allowance,), registered_allowance),
        call_ensures(decimal_text, (set.allowance,), set_allowance),
        call_ensures(decimal_text, (all.allowance_in_gas,), all_allowance),
    ensures
        created_text@ == "account_id: "@ + created.account_id@ + ", allowance in Gas: "@
            + created_allowance@ + ", oauth_token: "@ + created.oauth_token@
            + ", signed_delegate_action signature: "@
            + created.signed_delegate_action.terms.signature@,
        registered_text@ == "account_id: "@ + registered.account_id@ + ", allowance in Gas: "@
            + registered_allowance@ + ", oauth_token: "@ + registered.oauth_token@,
        set_text@ == "account_id: "@ + set.account_id@ + ", allowance in Gas: "@ + set_allowance@,
        asked_text@ == "account_id: "@ + asked.account_id@,
        all_text@ == "allowance in Gas: "@ + all_allowance@,
{
}

} // verus!
