//! Registering accounts: one account for each OAuth token.
//!
//! A registration in progress is a step that names the work that the caller does next. The
//! functions below take what came of that work to the step that follows. An error of that work
//! comes as it is printed for debugging.
use vstd::prelude::*;

use crate::account::{is_account_id, valid_account_id};
use crate::allowance::invalid_account_id;
use crate::config::DConfig;
use crate::delegate::TermsView;
use crate::relay::{
    first_step, process_signed_delegate_action, worked, ProcessStep, ProcessView,
};
use crate::request::{
    AccountIdAllowanceOauthJson, AccountIdAllowanceOauthSDAJson, RegistrationView,
};
use crate::response::{Response, BAD_REQUEST, CREATED, FORBIDDEN, INTERNAL_SERVER_ERROR};
use crate::text::{debug_text, debugged, decimal, decimal_text};

verus! {

/// The answer to a request with a token that an account was registered with before.
pub open spec fn used_token(status_code: u16, oauth_token: Seq<char>) -> (u16, Seq<char>) {
    (
        status_code,
        "Error: oauth_token "@ + oauth_token
            + " has already been used to register an account. You can only register 1 account per oauth_token"@,
    )
}

/// The answer where the look-up of the token failed.
pub open spec fn lookup_error(registration: RegistrationView, err: Seq<char>) -> (u16, Seq<char>) {
    (
        INTERNAL_SERVER_ERROR,
        "Error getting oauth_token for account_id "@ + registration.account_id + ", oauth_token "@
            + registration.oauth_token + " in Relayer DB: "@ + err,
    )
}

/// The answer where the allowance could not be stored.
pub open spec fn allowance_error(registration: RegistrationView, err: Seq<char>) -> (
    u16,
    Seq<char>,
) {
    (
        INTERNAL_SERVER_ERROR,
        "Error creating account_id "@ + registration.account_id + " with allowance "@ + decimal(
            registration.allowance as nat,
        ) + " in Relayer DB:\nErr("@ + err + ")"@,
    )
}

/// The answer where no storage could be allocated.
pub open spec fn storage_error(account_id: Seq<char>, err: Seq<char>) -> (u16, Seq<char>) {
    (INTERNAL_SERVER_ERROR, "Error allocating storage for account "@ + account_id + ": "@ + err)
}

/// The answer where the token of an account that was to be created could not be stored.
pub open spec fn create_token_error(oauth_token: Seq<char>, err: Seq<char>) -> (u16, Seq<char>) {
    (
        INTERNAL_SERVER_ERROR,
        "Error creating oauth token "@ + oauth_token + " in Relayer DB:\n"@ + err,
    )
}

/// The answer where the token of an account that was to be registered could not be stored. The token
/// is printed for debugging.
pub open spec fn register_token_error(oauth_token: Seq<char>, err: Seq<char>) -> (u16, Seq<char>) {
    create_token_error(debugged(oauth_token), err)
}

/// The answer to an account that was created.
pub open spec fn account_created(registration: RegistrationView, report: Seq<char>) -> (
    u16,
    Seq<char>,
) {
    (
        CREATED,
        "Added Oauth token "@ + registration.oauth_token + " for account_id "@
            + registration.account_id + " with allowance (in Gas) "@ + decimal(
            registration.allowance as nat,
        ) + " to Relayer DB. Near onchain account creation response: Ok("@ + debugged(report)
            + ")"@,
    )
}

/// The answer to an account that was registered.
pub open spec fn account_registered(registration: RegistrationView) -> (u16, Seq<char>) {
    (
        CREATED,
        "Added Oauth token {oauth_token: "@ + registration.oauth_token + ", account_id: "@
            + registration.account_id + ", allowance: "@ + decimal(registration.allowance as nat)
            + " to Relayer DB"@,
    )
}

fn used_token_response(status_code: u16, oauth_token: &String) -> (response: Response)
    ensures
        response@ == used_token(status_code, oauth_token@),
{
    let mut body = "Error: oauth_token ".to_owned();
    body.append(oauth_token.as_str());
    body.append(
        " has already been used to register an account. You can only register 1 account per oauth_token",
    );
    Response { status_code, body }
}

fn lookup_error_response(account_id: &String, oauth_token: &String, err: &String) -> (response:
    Response)
    ensures
        forall|allowance: u64|
            response@ == #[trigger] lookup_error(
                RegistrationView { account_id: account_id@, allowance, oauth_token: oauth_token@ },
                err@,
            ),
{
    let mut body = "Error getting oauth_token for account_id ".to_owned();
    body.append(account_id.as_str());
    body.append(", oauth_token ");
    body.append(oauth_token.as_str());
    body.append(" in Relayer DB: ");
    body.append(err.as_str());
    Response { status_code: INTERNAL_SERVER_ERROR, body }
}

fn allowance_error_response(account_id: &String, allowance: u64, err: &String) -> (response:
    Response)
    ensures
        forall|oauth_token: Seq<char>|
            response@ == #[trigger] allowance_error(
                RegistrationView { account_id: account_id@, allowance, oauth_token },
                err@,
            ),
{
    let printed = decimal_text(allowance);
    let mut body = "Error creating account_id ".to_owned();
    body.append(account_id.as_str());
    body.append(" with allowance ");
    body.append(printed.as_str());
    body.append(" in Relayer DB:\nErr(");
    body.append(err.as_str());
    body.append(")");
    Response { status_code: INTERNAL_SERVER_ERROR, body }
}

fn invalid_id_response(status_code: u16, account_id: &String) -> (response: Response)
    ensures
        response@ == invalid_account_id(status_code, account_id@),
{
    let mut body = "Invalid account_id: ".to_owned();
    body.append(account_id.as_str());
    Response { status_code, body }
}

fn storage_error_response(account_id: &String, err: &String) -> (response: Response)
    ensures
        response@ == storage_error(account_id@, err@),
{
    let mut body = "Error allocating storage for account ".to_owned();
    body.append(account_id.as_str());
    body.append(": ");
    body.append(err.as_str());
    Response { status_code: INTERNAL_SERVER_ERROR, body }
}

fn token_error_response(oauth_token: &str, err: &String) -> (response: Response)
    ensures
        response@ == create_token_error(oauth_token@, err@),
{
    let mut body = "Error creating oauth token ".to_owned();
    body.append(oauth_token);
    body.append(" in Relayer DB:\n");
    body.append(err.as_str());
    Response { status_code: INTERNAL_SERVER_ERROR, body }
}

/// What a look-up of a token found, as mathematical values.
pub open spec fn looked_up(reply: Result<bool, String>) -> Result<bool, Seq<char>> {
    match reply {
        Ok(found) => Ok(found),
        Err(err) => Err(err@),
    }
}

/// A request to create an account, as mathematical values.
pub struct CreateRequestView {
    pub registration: RegistrationView,
    pub terms: TermsView,
    pub payload: Seq<u8>,
}

/// What a request to create an account holds.
pub open spec fn create_request(request: AccountIdAllowanceOauthSDAJson) -> CreateRequestView {
    CreateRequestView {
        registration: request.registration(),
        terms: request.signed_delegate_action.terms@,
        payload: request.signed_delegate_action.payload@,
    }
}

/// What the relayer's database holds under a key, as mathematical values: a text, or nothing.
pub open spec fn entry(text: Option<String>) -> Option<Seq<char>> {
    match text {
        Some(text) => Some(text@),
        None => None,
    }
}

/// The step that the creation of an account has come to.
pub enum CreateAccountStep {
    /// The token is to be looked up; then [`create_account_token_read`].
    GetOauthToken(AccountIdAllowanceOauthSDAJson),
    /// The allowance of the account is to be stored; then [`create_account_allowance_stored`],
    /// which takes the account's earlier entry.
    SetAllowance(AccountIdAllowanceOauthSDAJson),
    /// The delegate action is being relayed; the step that its next step leads to goes to
    /// [`create_account_processed`]. The account's earlier entry comes along.
    Process(AccountIdAllowanceOauthJson, Option<String>, ProcessStep),
    /// The relay has failed, and the account's earlier entry is to be put back: the text that was
    /// stored, or none; then [`create_account_allowance_restored`]. The answer comes along.
    RestoreAllowance { account_id: String, previous: Option<String>, response: Response },
    /// Storage is to be allocated for the account; then [`create_account_storage_allocated`]. The
    /// report on the transaction comes along.
    AllocateStorage(AccountIdAllowanceOauthJson, String),
    /// The token is to be stored; then [`create_account_token_stored`]. The report on the
    /// transaction comes along.
    SetOauthToken(AccountIdAllowanceOauthJson, String),
    Done(Response),
}

/// A [`CreateAccountStep`] as mathematical values.
pub enum CreateAccountView {
    GetOauthToken(CreateRequestView),
    SetAllowance(CreateRequestView),
    Process(RegistrationView, Option<Seq<char>>, ProcessView),
    RestoreAllowance {
        account_id: Seq<char>,
        previous: Option<Seq<char>>,
        response: (u16, Seq<char>),
    },
    AllocateStorage(RegistrationView, Seq<char>),
    SetOauthToken(RegistrationView, Seq<char>),
    Done((u16, Seq<char>)),
}

impl View for CreateAccountStep {
    type V = CreateAccountView;

    open spec fn view(&self) -> CreateAccountView {
        match self {
            CreateAccountStep::GetOauthToken(request) => CreateAccountView::GetOauthToken(
                create_request(*request),
            ),
            CreateAccountStep::SetAllowance(request) => CreateAccountView::SetAllowance(
                create_request(*request),
            ),
            CreateAccountStep::Process(account, previous, step) => CreateAccountView::Process(
                account@,
                entry(*previous),
                step@,
            ),
            CreateAccountStep::RestoreAllowance { account_id, previous, response } =>
            CreateAccountView::RestoreAllowance {
                account_id: account_id@,
                previous: entry(*previous),
                response: response@,
            },
            CreateAccountStep::AllocateStorage(account, report) =>
            CreateAccountView::AllocateStorage(account@, report@),
            CreateAccountStep::SetOauthToken(account, report) => CreateAccountView::SetOauthToken(
                account@,
                report@,
            ),
            CreateAccountStep::Done(response) => CreateAccountView::Done(response@),
        }
    }
}

/// Takes a request of the `/create_account_atomic` endpoint to its first step.
///
/// The account is created in the relayer's database and on chain, or in neither: where the relay
/// fails, the entry of the account in the database is put back. The token is stored last, so that it
/// can be used again where the rest failed.
pub fn create_account_atomic(request: AccountIdAllowanceOauthSDAJson) -> (step: CreateAccountStep)
    ensures
        step@ == CreateAccountView::GetOauthToken(create_request(request)),
{
    CreateAccountStep::GetOauthToken(request)
}

/// The step after the look-up of the token.
pub open spec fn create_after_token(
    request: CreateRequestView,
    reply: Result<bool, Seq<char>>,
) -> CreateAccountView {
    match reply {
        Ok(found) => if found {
            CreateAccountView::Done(used_token(BAD_REQUEST, request.registration.oauth_token))
        } else {
            CreateAccountView::SetAllowance(request)
        },
        Err(err) => CreateAccountView::Done(lookup_error(request.registration, err)),
    }
}

/// Goes on with the creation of an account after the look-up of its token.
pub fn create_account_token_read(
    request: AccountIdAllowanceOauthSDAJson,
    reply: Result<bool, String>,
) -> (step: CreateAccountStep)
    ensures
        step@ == create_after_token(create_request(request), looked_up(reply)),
{
    match reply {
        Ok(found) => if found {
            CreateAccountStep::Done(used_token_response(BAD_REQUEST, &request.oauth_token))
        } else {
            CreateAccountStep::SetAllowance(request)
        },
        Err(err) => CreateAccountStep::Done(
            lookup_error_response(&request.account_id, &request.oauth_token, &err),
        ),
    }
}

/// The step that a step of the relay leads to. Where the relay failed, the account's earlier entry
/// is put back before its error is answered. Once the delegate action is relayed, a text that is no
/// account id is answered 403, and storage is allocated where it is shared.
pub open spec fn create_after_process(
    config: DConfig,
    registration: RegistrationView,
    previous: Option<Seq<char>>,
    step: ProcessView,
) -> CreateAccountView {
    match step {
        ProcessView::Done(Err(err)) => CreateAccountView::RestoreAllowance {
            account_id: registration.account_id,
            previous,
            response: err,
        },
        ProcessView::Done(Ok(report)) => if !valid_account_id(registration.account_id) {
            CreateAccountView::Done(invalid_account_id(FORBIDDEN, registration.account_id))
        } else if config.shares_storage() {
            CreateAccountView::AllocateStorage(registration, report)
        } else {
            CreateAccountView::SetOauthToken(registration, report)
        },
        _ => CreateAccountView::Process(registration, previous, step),
    }
}

/// Goes on with the creation of an account after a step of the relay.
pub fn create_account_processed(
    config: &DConfig,
    account: AccountIdAllowanceOauthJson,
    previous: Option<String>,
    step: ProcessStep,
) -> (next: CreateAccountStep)
    ensures
        next@ == create_after_process(*config, account@, entry(previous), step@),
{
    match step {
        ProcessStep::Done(Err(err)) => CreateAccountStep::RestoreAllowance {
            account_id: account.account_id,
            previous,
            response: Response { status_code: err.status_code, body: err.message },
        },
        ProcessStep::Done(Ok(report)) => if !is_account_id(&account.account_id) {
            CreateAccountStep::Done(invalid_id_response(FORBIDDEN, &account.account_id))
        } else if config.uses_storage_pool() {
            CreateAccountStep::AllocateStorage(account, report)
        } else {
            CreateAccountStep::SetOauthToken(account, report)
        },
        _ => CreateAccountStep::Process(account, previous, step),
    }
}

/// What storing an allowance replied, as mathematical values: the entry before it.
pub open spec fn replaced(reply: Result<Option<String>, String>) -> Result<
    Option<Seq<char>>,
    Seq<char>,
> {
    match reply {
        Ok(previous) => Ok(entry(previous)),
        Err(err) => Err(err@),
    }
}

/// The step after the allowance was stored: the delegate action is relayed.
pub open spec fn create_after_allowance(
    config: DConfig,
    request: CreateRequestView,
    reply: Result<Option<Seq<char>>, Seq<char>>,
) -> CreateAccountView {
    match reply {
        Ok(previous) => create_after_process(
            config,
            request.registration,
            previous,
            first_step(config, request.terms, request.payload),
        ),
        Err(err) => CreateAccountView::Done(allowance_error(request.registration, err)),
    }
}

/// Goes on with the creation of an account after its allowance was stored. `reply` holds the
/// text of the account's entry before that, if it had one.
pub fn create_account_allowance_stored(
    config: &DConfig,
    request: AccountIdAllowanceOauthSDAJson,
    reply: Result<Option<String>, String>,
) -> (step: CreateAccountStep)
    requires
        reply is Ok ==> valid_account_id(config.relayer_account_id@),
    ensures
        step@ == create_after_allowance(*config, create_request(request), replaced(reply)),
{
    match reply {
        Ok(previous) => {
            let account = AccountIdAllowanceOauthJson {
                account_id: request.account_id,
                allowance: request.allowance,
                oauth_token: request.oauth_token,
            };
            let step = process_signed_delegate_action(config, request.signed_delegate_action);
            create_account_processed(config, account, previous, step)
        },
        Err(err) => CreateAccountStep::Done(
            allowance_error_response(&request.account_id, request.allowance, &err),
        ),
    }
}

/// Answers a request to create an account whose relay failed, after the account's earlier entry was
/// put back: with the error of the relay, which [`CreateAccountStep::RestoreAllowance`] carries,
/// whether putting the entry back worked or not.
pub fn create_account_allowance_restored(
    response: Response,
    reply: Result<(), String>,
) -> (answered: Response)
    ensures
        answered@ == response@,
{
    response
}

/// The step after storage was allocated.
pub open spec fn create_after_storage(
    registration: RegistrationView,
    report: Seq<char>,
    reply: Result<(), Seq<char>>,
) -> CreateAccountView {
    match reply {
        Ok(()) => CreateAccountView::SetOauthToken(registration, report),
        Err(err) => CreateAccountView::Done(storage_error(registration.account_id, err)),
    }
}

/// Goes on with the creation of an account after storage was allocated for it.
pub fn create_account_storage_allocated(
    account: AccountIdAllowanceOauthJson,
    report: String,
    reply: Result<(), String>,
) -> (step: CreateAccountStep)
    ensures
        step@ == create_after_storage(account@, report@, worked(reply)),
{
    match reply {
        Ok(()) => CreateAccountStep::SetOauthToken(account, report),
        Err(err) => CreateAccountStep::Done(storage_error_response(&account.account_id, &err)),
    }
}

/// The answer after the token was stored.
pub open spec fn create_after_token_stored(
    registration: RegistrationView,
    report: Seq<char>,
    reply: Result<(), Seq<char>>,
) -> (u16, Seq<char>) {
    match reply {
        Ok(()) => account_created(registration, report),
        Err(err) => create_token_error(registration.oauth_token, err),
    }
}

/// Answers a request to create an account after its token was stored.
pub fn create_account_token_stored(
    account: &AccountIdAllowanceOauthJson,
    report: &String,
    reply: Result<(), String>,
) -> (response: Response)
    ensures
        response@ == create_after_token_stored(account@, report@, worked(reply)),
{
    match reply {
        Ok(()) => {
            let allowance = decimal_text(account.allowance);
            let printed = debug_text(report.as_str());
            let mut body = "Added Oauth token ".to_owned();
            body.append(account.oauth_token.as_str());
            body.append(" for account_id ");
            body.append(account.account_id.as_str());
            body.append(" with allowance (in Gas) ");
            body.append(allowance.as_str());
            body.append(" to Relayer DB. Near onchain account creation response: Ok(");
            body.append(printed.as_str());
            body.append(")");
            Response { status_code: CREATED, body }
        },
        Err(err) => token_error_response(account.oauth_token.as_str(), &err),
    }
}

/// The step that the registration of an account has come to.
pub enum RegisterStep {
    /// The token is to be looked up; then [`register_token_read`].
    GetOauthToken(AccountIdAllowanceOauthJson),
    /// The allowance of the account is to be stored; then [`register_allowance_stored`].
    SetAllowance(AccountIdAllowanceOauthJson),
    /// Storage is to be allocated for the account; then [`register_storage_allocated`].
    AllocateStorage(AccountIdAllowanceOauthJson),
    /// The token is to be stored; then [`register_token_stored`].
    SetOauthToken(AccountIdAllowanceOauthJson),
    Done(Response),
}

/// A [`RegisterStep`] as mathematical values.
pub enum RegisterView {
    GetOauthToken(RegistrationView),
    SetAllowance(RegistrationView),
    AllocateStorage(RegistrationView),
    SetOauthToken(RegistrationView),
    Done((u16, Seq<char>)),
}

impl View for RegisterStep {
    type V = RegisterView;

    open spec fn view(&self) -> RegisterView {
        match self {
            RegisterStep::GetOauthToken(account) => RegisterView::GetOauthToken(account@),
            RegisterStep::SetAllowance(account) => RegisterView::SetAllowance(account@),
            RegisterStep::AllocateStorage(account) => RegisterView::AllocateStorage(account@),
            RegisterStep::SetOauthToken(account) => RegisterView::SetOauthToken(account@),
            RegisterStep::Done(response) => RegisterView::Done(response@),
        }
    }
}

/// Takes a request of the `/register_account` endpoint to its first step.
pub fn register_account_and_allowance(account: AccountIdAllowanceOauthJson) -> (step: RegisterStep)
    ensures
        step@ == RegisterView::GetOauthToken(account@),
{
    RegisterStep::GetOauthToken(account)
}

/// The step after the look-up of the token. A used token is answered 500, as the endpoint
/// documents.
pub open spec fn register_after_token(
    registration: RegistrationView,
    reply: Result<bool, Seq<char>>,
) -> RegisterView {
    match reply {
        Ok(found) => if found {
            RegisterView::Done(used_token(INTERNAL_SERVER_ERROR, registration.oauth_token))
        } else {
            RegisterView::SetAllowance(registration)
        },
        Err(err) => RegisterView::Done(lookup_error(registration, err)),
    }
}

/// Goes on with the registration of an account after the look-up of its token.
pub fn register_token_read(
    account: AccountIdAllowanceOauthJson,
    reply: Result<bool, String>,
) -> (step: RegisterStep)
    ensures
        step@ == register_after_token(account@, looked_up(reply)),
{
    match reply {
        Ok(found) => if found {
            RegisterStep::Done(used_token_response(INTERNAL_SERVER_ERROR, &account.oauth_token))
        } else {
            RegisterStep::SetAllowance(account)
        },
        Err(err) => RegisterStep::Done(
            lookup_error_response(&account.account_id, &account.oauth_token, &err),
        ),
    }
}

/// The step after the allowance was stored. A text that is no account id is answered 400.
pub open spec fn register_after_allowance(
    registration: RegistrationView,
    reply: Result<(), Seq<char>>,
) -> RegisterView {
    match reply {
        Ok(()) => if valid_account_id(registration.account_id) {
            RegisterView::AllocateStorage(registration)
        } else {
            RegisterView::Done(invalid_account_id(BAD_REQUEST, registration.account_id))
        },
        Err(err) => RegisterView::Done(allowance_error(registration, err)),
    }
}

/// Goes on with the registration of an account after its allowance was stored.
pub fn register_allowance_stored(
    account: AccountIdAllowanceOauthJson,
    reply: Result<(), String>,
) -> (step: RegisterStep)
    ensures
        step@ == register_after_allowance(account@, worked(reply)),
{
    match reply {
        Ok(()) => if is_account_id(&account.account_id) {
            RegisterStep::AllocateStorage(account)
        } else {
            RegisterStep::Done(invalid_id_response(BAD_REQUEST, &account.account_id))
        },
        Err(err) => RegisterStep::Done(
            allowance_error_response(&account.account_id, account.allowance, &err),
        ),
    }
}

/// The step after storage was allocated.
pub open spec fn register_after_storage(
    registration: RegistrationView,
    reply: Result<(), Seq<char>>,
) -> RegisterView {
    match reply {
        Ok(()) => RegisterView::SetOauthToken(registration),
        Err(err) => RegisterView::Done(storage_error(registration.account_id, err)),
    }
}

/// Goes on with the registration of an account after storage was allocated for it.
pub fn register_storage_allocated(
    account: AccountIdAllowanceOauthJson,
    reply: Result<(), String>,
) -> (step: RegisterStep)
    ensures
        step@ == register_after_storage(account@, worked(reply)),
{
    match reply {
        Ok(()) => RegisterStep::SetOauthToken(account),
        Err(err) => RegisterStep::Done(storage_error_response(&account.account_id, &err)),
    }
}

/// The answer after the token was stored.
pub open spec fn register_after_token_stored(
    registration: RegistrationView,
    reply: Result<(), Seq<char>>,
) -> (u16, Seq<char>) {
    match reply {
        Ok(()) => account_registered(registration),
        Err(err) => register_token_error(registration.oauth_token, err),
    }
}

/// Answers a request to register an account after its token was stored.
pub fn register_token_stored(
    account: &AccountIdAllowanceOauthJson,
    reply: Result<(), String>,
) -> (response: Response)
    ensures
        response@ == register_after_token_stored(account@, worked(reply)),
{
    match reply {
        Ok(()) => {
            let allowance = decimal_text(account.allowance);
            let mut body = "Added Oauth token {oauth_token: ".to_owned();
            body.append(account.oauth_token.as_str());
            body.append(", account_id: ");
            body.append(account.account_id.as_str());
            body.append(", allowance: ");
            body.append(allowance.as_str());
            body.append(" to Relayer DB");
            Response { status_code: CREATED, body }
        },
        Err(err) => {
            let oauth_token = debug_text(account.oauth_token.as_str());
            token_error_response(oauth_token.as_str(), &err)
        },
    }
}

} // verus!
