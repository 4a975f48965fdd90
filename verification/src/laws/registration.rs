//! The steps of creating and registering an account, one by one, and what is relayed on the way.
use vstd::prelude::*;

use crate::account::valid_account_id;
use crate::config::DConfig;
use crate::laws::{
    advance, after_allowance_write, after_relay_write, after_restore_write, after_token_write,
    create_run, lookup_reply, replace_reply, reply, Db, Faults,
};
use crate::registration::{
    create_account_allowance_restored, create_account_allowance_stored, create_account_atomic,
    create_account_processed, create_account_storage_allocated, create_account_token_read,
    create_account_token_stored, create_after_allowance, create_after_process,
    create_after_storage, create_after_token, create_after_token_stored,
    register_account_and_allowance, register_allowance_stored,
    register_storage_allocated, register_token_read, register_token_stored, CreateAccountStep,
    CreateAccountView, CreateRequestView, RegisterStep,
};
use crate::relay::{first_step, ProcessStep, ProcessView};
use crate::request::{AccountIdAllowanceOauthJson, AccountIdAllowanceOauthSDAJson};
use crate::response::Response;
use crate::text::{debugged, decimal};

verus! {

/// An answer has a status code and a body.
pub open spec fn says(response: Response, status_code: u16, body: Seq<char>) -> bool {
    response.status_code == status_code && response.body@ == body
}

/// Two requests to create an account ask for the same.
pub open spec fn same_request(
    first: AccountIdAllowanceOauthSDAJson,
    second: AccountIdAllowanceOauthSDAJson,
) -> bool {
    &&& first.account_id@ == second.account_id@
    &&& first.allowance == second.allowance
    &&& first.oauth_token@ == second.oauth_token@
    &&& first.signed_delegate_action.terms@ == second.signed_delegate_action.terms@
    &&& first.signed_delegate_action.payload@ == second.signed_delegate_action.payload@
}

/// Two registrations are of the same account, with the same allowance and token.
pub open spec fn same_account(
    first: AccountIdAllowanceOauthJson,
    second: AccountIdAllowanceOauthJson,
) -> bool {
    &&& first.account_id@ == second.account_id@
    &&& first.allowance == second.allowance
    &&& first.oauth_token@ == second.oauth_token@
}

/// A registration is of the account that a request asks for.
pub open spec fn account_of(
    request: AccountIdAllowanceOauthSDAJson,
    account: AccountIdAllowanceOauthJson,
) -> bool {
    &&& account.account_id@ == request.account_id@
    &&& account.allowance == request.allowance
    &&& account.oauth_token@ == request.oauth_token@
}

/// Two entries of the database hold the same text, or both hold nothing.
pub open spec fn same_entry(first: Option<String>, second: Option<String>) -> bool {
    match (first, second) {
        (Some(text), Some(other)) => text@ == other@,
        (None, None) => true,
        _ => false,
    }
}

/// Both endpoints begin with a look-up of the token of the request, and change nothing of the
/// request.
pub proof fn law_token_is_looked_up_first(
    request: AccountIdAllowanceOauthSDAJson,
    account: AccountIdAllowanceOauthJson,
    created: CreateAccountStep,
    registered: RegisterStep,
)
    requires
        call_ensures(create_account_atomic, (request,), created),
        call_ensures(register_account_and_allowance, (account,), registered),
    ensures
        created matches CreateAccountStep::GetOauthToken(asked) && same_request(asked, request),
        registered matches RegisterStep::GetOauthToken(asked) && same_account(asked, account),
{
}

/// Creation goes on exactly where the token is free, with the request as it came. A used token is
/// answered 400, a failed look-up 500.
pub proof fn law_creation_needs_a_free_token(
    request: AccountIdAllowanceOauthSDAJson,
    reply: Result<bool, String>,
    step: CreateAccountStep,
)
    requires
        call_ensures(create_account_token_read, (request, reply), step),
    ensures
        reply == Ok::<bool, String>(false) ==> (step matches CreateAccountStep::SetAllowance(asked)
            && same_request(asked, request)),
        reply == Ok::<bool, String>(true) ==> (step matches CreateAccountStep::Done(response)
            && says(
            response,
            400,
            "Error: oauth_token "@ + request.oauth_token@
                + " has already been used to register an account. You can only register 1 account per oauth_token"@,
        )),
        reply matches Err(err) ==> (step matches CreateAccountStep::Done(response) && says(
            response,
            500,
            "Error getting oauth_token for account_id "@ + request.account_id@ + ", oauth_token "@
                + request.oauth_token@ + " in Relayer DB: "@ + err@,
        )),
{
}

/// What a step of the relay leads to in the creation of an account. A failed relay is undone and
/// answered with its error. A relay that succeeded goes on with the account that was asked for, if
/// its id is one: with storage where it is shared, and with the token where it is not. A relay that
/// is not done stays as it is, with the account and its earlier entry.
pub open spec fn goes_on(
    config: DConfig,
    account: AccountIdAllowanceOauthJson,
    previous: Option<String>,
    relay: ProcessView,
    next: CreateAccountStep,
) -> bool {
    match relay {
        ProcessView::Done(Err(err)) => next matches CreateAccountStep::RestoreAllowance {
            account_id,
            previous: entry,
            response,
        } && account_id@ == account.account_id@ && same_entry(entry, previous) && says(
            response,
            err.0,
            err.1,
        ),
        ProcessView::Done(Ok(report)) => if !valid_account_id(account.account_id@) {
            next matches CreateAccountStep::Done(response) && says(
                response,
                403,
                "Invalid account_id: "@ + account.account_id@,
            )
        } else if config.use_fastauth_features || config.use_shared_storage {
            next matches CreateAccountStep::AllocateStorage(asked, text) && same_account(
                asked,
                account,
            ) && text@ == report
        } else {
            next matches CreateAccountStep::SetOauthToken(asked, text) && same_account(
                asked,
                account,
            ) && text@ == report
        },
        _ => next matches CreateAccountStep::Process(asked, entry, step) && same_account(
            asked,
            account,
        ) && same_entry(entry, previous) && step@ == relay,
    }
}

/// A step of the relay leads on as it should, and is not changed on the way.
pub proof fn law_creation_follows_the_relay(
    config: &DConfig,
    account: AccountIdAllowanceOauthJson,
    previous: Option<String>,
    step: ProcessStep,
    next: CreateAccountStep,
)
    requires
        call_ensures(create_account_processed, (config, account, previous, step), next),
    ensures
        goes_on(*config, account, previous, step@, next),
{
}

/// The transaction that the creation of an account sends is the one that the relay asks for: it goes
/// to the same account, carries the same payload and is charged to the same account. So is the
/// look-up and the write of the relay.
pub proof fn law_creation_sends_what_is_relayed(
    config: &DConfig,
    account: AccountIdAllowanceOauthJson,
    previous: Option<String>,
    step: ProcessStep,
    next: CreateAccountStep,
)
    requires
        call_ensures(create_account_processed, (config, account, previous, step), next),
    ensures
        step matches ProcessStep::SendTransaction(relay, remaining) ==> (next matches
            CreateAccountStep::Process(_, _, ProcessStep::SendTransaction(sent, left)) && left
            == remaining && sent.sender_id@ == relay.sender_id@ && sent.payload@ == relay.payload@
            && sent.signer_account_id@ == relay.signer_account_id@),
        step matches ProcessStep::GetRemainingAllowance(relay) ==> (next matches
            CreateAccountStep::Process(_, _, ProcessStep::GetRemainingAllowance(sent))
            && sent.sender_id@ == relay.sender_id@ && sent.payload@ == relay.payload@
            && sent.signer_account_id@ == relay.signer_account_id@),
        step matches ProcessStep::StoreRemainingAllowance { account_id, allowance, .. } ==> (next
            matches CreateAccountStep::Process(
            _,
            _,
            ProcessStep::StoreRemainingAllowance { account_id: id, allowance: left, .. },
        ) && id@ == account_id@ && left == allowance),
{
}

/// Once its allowance is stored, the relay that the creation of an account starts is that of the
/// delegate action of the request. An allowance that was not stored is answered 500.
pub proof fn law_creation_relays_the_request(
    config: &DConfig,
    request: AccountIdAllowanceOauthSDAJson,
    account: AccountIdAllowanceOauthJson,
    reply: Result<Option<String>, String>,
    step: CreateAccountStep,
)
    requires
        call_ensures(create_account_allowance_stored, (config, request, reply), step),
        account_of(request, account),
    ensures
        reply matches Ok(previous) ==> goes_on(
            *config,
            account,
            previous,
            first_step(
                *config,
                request.signed_delegate_action.terms@,
                request.signed_delegate_action.payload@,
            ),
            step,
        ),
        reply matches Err(err) ==> (step matches CreateAccountStep::Done(response) && says(
            response,
            500,
            "Error creating account_id "@ + request.account_id@ + " with allowance "@ + decimal(
                request.allowance as nat,
            ) + " in Relayer DB:\nErr("@ + err@ + ")"@,
        )),
{
}

/// Undoing a creation does not change the answer.
pub proof fn law_undoing_keeps_the_answer(
    response: Response,
    reply: Result<(), String>,
    answered: Response,
)
    requires
        call_ensures(create_account_allowance_restored, (response, reply), answered),
    ensures
        says(answered, response.status_code, response.body@),
{
}

/// After storage the token follows, for the same account and with the same report. Storage that was
/// not allocated is answered 500.
pub proof fn law_creation_goes_on_after_storage(
    account: AccountIdAllowanceOauthJson,
    report: String,
    reply: Result<(), String>,
    step: CreateAccountStep,
)
    requires
        call_ensures(create_account_storage_allocated, (account, report, reply), step),
    ensures
        reply is Ok ==> (step matches CreateAccountStep::SetOauthToken(asked, text) && same_account(
            asked,
            account,
        ) && text@ == report@),
        reply matches Err(err) ==> (step matches CreateAccountStep::Done(response) && says(
            response,
            500,
            "Error allocating storage for account "@ + account.account_id@ + ": "@ + err@,
        )),
{
}

/// A creation that succeeded is answered 201 with the token, the account, the allowance and the
/// report on the transaction. A token that was not stored is answered 500.
pub proof fn law_creation_is_answered(
    account: &AccountIdAllowanceOauthJson,
    report: &String,
    reply: Result<(), String>,
    response: Response,
)
    requires
        call_ensures(create_account_token_stored, (account, report, reply), response),
    ensures
        reply is Ok ==> says(
            response,
            201,
            "Added Oauth token "@ + account.oauth_token@ + " for account_id "@ + account.account_id@
                + " with allowance (in Gas) "@ + decimal(account.allowance as nat)
                + " to Relayer DB. Near onchain account creation response: Ok("@ + debugged(report@)
                + ")"@,
        ),
        reply matches Err(err) ==> says(
            response,
            500,
            "Error creating oauth token "@ + account.oauth_token@ + " in Relayer DB:\n"@ + err@,
        ),
{
}

/// Registration goes on exactly where the token is free, with the account as it came. A used token
/// and a failed look-up are answered 500.
pub proof fn law_registration_needs_a_free_token(
    account: AccountIdAllowanceOauthJson,
    reply: Result<bool, String>,
    step: RegisterStep,
)
    requires
        call_ensures(register_token_read, (account, reply), step),
    ensures
        reply == Ok::<bool, String>(false) ==> (step matches RegisterStep::SetAllowance(asked)
            && same_account(asked, account)),
        reply == Ok::<bool, String>(true) ==> (step matches RegisterStep::Done(response) && says(
            response,
            500,
            "Error: oauth_token "@ + account.oauth_token@
                + " has already been used to register an account. You can only register 1 account per oauth_token"@,
        )),
        reply matches Err(err) ==> (step matches RegisterStep::Done(response) && says(
            response,
            500,
            "Error getting oauth_token for account_id "@ + account.account_id@ + ", oauth_token "@
                + account.oauth_token@ + " in Relayer DB: "@ + err@,
        )),
{
}

/// With the allowance stored, storage is allocated for every account with a valid id, whatever is
/// configured. Any other is answered 400, and an allowance that was not stored 500.
pub proof fn law_registration_goes_on_after_allowance(
    account: AccountIdAllowanceOauthJson,
    reply: Result<(), String>,
    step: RegisterStep,
)
    requires
        call_ensures(register_allowance_stored, (account, reply), step),
    ensures
        reply is Ok && valid_account_id(account.account_id@) ==> (step matches
            RegisterStep::AllocateStorage(asked) && same_account(asked, account)),
        reply is Ok && !valid_account_id(account.account_id@) ==> (step matches RegisterStep::Done(
            response,
        ) && says(response, 400, "Invalid account_id: "@ + account.account_id@)),
        reply matches Err(err) ==> (step matches RegisterStep::Done(response) && says(
            response,
            500,
            "Error creating account_id "@ + account.account_id@ + " with allowance "@ + decimal(
                account.allowance as nat,
            ) + " in Relayer DB:\nErr("@ + err@ + ")"@,
        )),
{
}

/// After storage the token follows, for the same account. Storage that was not allocated is answered
/// 500.
pub proof fn law_registration_goes_on_after_storage(
    account: AccountIdAllowanceOauthJson,
    reply: Result<(), String>,
    step: RegisterStep,
)
    requires
        call_ensures(register_storage_allocated, (account, reply), step),
    ensures
        reply is Ok ==> (step matches RegisterStep::SetOauthToken(asked) && same_account(
            asked,
            account,
        )),
        reply matches Err(err) ==> (step matches RegisterStep::Done(response) && says(
            response,
            500,
            "Error allocating storage for account "@ + account.account_id@ + ": "@ + err@,
        )),
{
}

/// A registration that succeeded is answered 201 with the token, the account and the allowance. A
/// token that was not stored is answered 500.
pub proof fn law_registration_is_answered(
    account: &AccountIdAllowanceOauthJson,
    reply: Result<(), String>,
    response: Response,
)
    requires
        call_ensures(register_token_stored, (account, reply), response),
    ensures
        reply is Ok ==> says(
            response,
            201,
            "Added Oauth token {oauth_token: "@ + account.oauth_token@ + ", account_id: "@
                + account.account_id@ + ", allowance: "@ + decimal(account.allowance as nat)
                + " to Relayer DB"@,
        ),
        reply matches Err(err) ==> says(
            response,
            500,
            "Error creating oauth token "@ + debugged(account.oauth_token@) + " in Relayer DB:\n"@
                + err@,
        ),
{
}

/// The step that a relay is at after some pieces of work.
pub open spec fn relay_step(
    config: DConfig,
    request: CreateRequestView,
    faults: Faults,
    work: nat,
) -> ProcessView
    decreases work,
{
    if work == 0 {
        first_step(config, request.terms, request.payload)
    } else {
        advance(relay_step(config, request, faults, (work - 1) as nat), faults.relay)
    }
}

/// A step in the creation of an account belongs to a request: it is about its account and token,
/// knows the entry that the account had, and where it relays, it is at a step of the relay of the
/// request's delegate action.
pub open spec fn belongs(
    config: DConfig,
    db: Db,
    request: CreateRequestView,
    faults: Faults,
    step: CreateAccountView,
) -> bool {
    match step {
        CreateAccountView::GetOauthToken(asked) => asked == request,
        CreateAccountView::SetAllowance(asked) => asked == request,
        CreateAccountView::Process(registration, previous, relay) => {
            &&& registration == request.registration
            &&& previous == db.entry(request.registration.account_id)
            &&& !(relay is Done)
            &&& exists|work: nat| relay == #[trigger] relay_step(config, request, faults, work)
        },
        CreateAccountView::RestoreAllowance { account_id, previous, response } => {
            &&& account_id == request.registration.account_id
            &&& previous == db.entry(request.registration.account_id)
            &&& exists|work: nat| #[trigger]
                relay_step(config, request, faults, work) == ProcessView::Done(Err(response))
        },
        CreateAccountView::AllocateStorage(registration, report) => {
            &&& registration == request.registration
            &&& config.use_fastauth_features || config.use_shared_storage
            &&& exists|work: nat| #[trigger]
                relay_step(config, request, faults, work) == ProcessView::Done(Ok(report))
        },
        CreateAccountView::SetOauthToken(registration, report) => {
            &&& registration == request.registration
            &&& exists|work: nat| #[trigger]
                relay_step(config, request, faults, work) == ProcessView::Done(Ok(report))
        },
        CreateAccountView::Done(_) => true,
    }
}

/// Every step that the creation of an account passes through belongs to its request: what is relayed
/// on the way are the steps of the relay of the request's delegate action, and no others.
pub proof fn law_creation_relays_as_a_relay_does(
    config: DConfig,
    db: Db,
    request: CreateRequestView,
    faults: Faults,
    work: nat,
)
    ensures
        belongs(
            config,
            db,
            request,
            faults,
            create_run(config, db, CreateAccountView::GetOauthToken(request), faults, work).1,
        ),
{
    reveal_with_fuel(create_run, 3);
    if work > 0 {
        let next = create_after_token(
            request,
            lookup_reply(db, request.registration.oauth_token, faults.lookup),
        );
        let left = (work - 1) as nat;
        if left > 0 && next is SetAllowance {
            let replaced = replace_reply(
                db,
                request.registration.account_id,
                faults.allowance,
            );
            let relaying = create_after_allowance(config, request, replaced);
            assert(relay_step(config, request, faults, 0) == first_step(
                config,
                request.terms,
                request.payload,
            ));
            lemma_run_belongs(
                config,
                db,
                after_allowance_write(db, request.registration, faults.allowance),
                request,
                faults,
                relaying,
                (left - 1) as nat,
            );
        }
    }
}

/// A run that has come to a relay, or further, goes on with steps that belong to the request.
proof fn lemma_run_belongs(
    config: DConfig,
    db: Db,
    now: Db,
    request: CreateRequestView,
    faults: Faults,
    step: CreateAccountView,
    work: nat,
)
    requires
        belongs(config, db, request, faults, step),
        !(step is GetOauthToken),
        !(step is SetAllowance),
    ensures
        belongs(config, db, request, faults, create_run(config, now, step, faults, work).1),
    decreases work,
{
    if work > 0 {
        let left = (work - 1) as nat;
        match step {
            CreateAccountView::Process(registration, previous, relay) => {
                let at = choose|at: nat|
                    relay == #[trigger] relay_step(config, request, faults, at);
                assert(relay_step(config, request, faults, at + 1) == advance(relay, faults.relay));
                lemma_run_belongs(
                    config,
                    db,
                    after_relay_write(now, relay, faults.relay),
                    request,
                    faults,
                    create_after_process(
                        config,
                        registration,
                        previous,
                        advance(relay, faults.relay),
                    ),
                    left,
                );
            },
            CreateAccountView::RestoreAllowance { account_id, previous, response } => {
                lemma_run_belongs(
                    config,
                    db,
                    after_restore_write(now, account_id, previous, faults.restore),
                    request,
                    faults,
                    CreateAccountView::Done(response),
                    left,
                );
            },
            CreateAccountView::AllocateStorage(registration, report) => {
                lemma_run_belongs(
                    config,
                    db,
                    now,
                    request,
                    faults,
                    create_after_storage(
                        registration,
                        report,
                        reply(faults.storage),
                    ),
                    left,
                );
            },
            CreateAccountView::SetOauthToken(registration, report) => {
                lemma_run_belongs(
                    config,
                    db,
                    after_token_write(now, registration, faults.token),
                    request,
                    faults,
                    CreateAccountView::Done(
                        create_after_token_stored(
                            registration,
                            report,
                            reply(faults.token),
                        ),
                    ),
                    left,
                );
            },
            _ => {},
        }
    }
}

/// In every run of the creation of an account, each transaction goes to the sender of the request's
/// delegate action, carries its payload and is signed by the relayer's own account, and each look-up
/// of an allowance is one of that sender's.
pub proof fn law_creation_sends_to_the_sender(
    config: DConfig,
    db: Db,
    request: CreateRequestView,
    faults: Faults,
    work: nat,
)
    ensures
        create_run(config, db, CreateAccountView::GetOauthToken(request), faults, work).1 matches
            CreateAccountView::Process(_, _, ProcessView::SendTransaction(relay, _))
            ==> relay.sender_id == request.terms.sender_id && relay.payload == request.payload
            && relay.signer_account_id == config.relayer_account_id@,
        create_run(config, db, CreateAccountView::GetOauthToken(request), faults, work).1 matches
            CreateAccountView::Process(_, _, ProcessView::GetRemainingAllowance(relay))
            ==> relay.sender_id == request.terms.sender_id,
{
    law_creation_relays_as_a_relay_does(config, db, request, faults, work);
    let step = create_run(
        config,
        db,
        CreateAccountView::GetOauthToken(request),
        faults,
        work,
    ).1;
    if let CreateAccountView::Process(_, _, relay) = step {
        let at = choose|at: nat| relay == #[trigger] relay_step(config, request, faults, at);
        lemma_relay_keeps_its_request(config, request, faults, at);
    }
}

proof fn lemma_relay_keeps_its_request(
    config: DConfig,
    request: CreateRequestView,
    faults: Faults,
    work: nat,
)
    ensures
        relay_step(config, request, faults, work) matches ProcessView::SendTransaction(relay, _)
            ==> relay.sender_id == request.terms.sender_id && relay.payload == request.payload
            && relay.signer_account_id == config.relayer_account_id@,
        relay_step(config, request, faults, work) matches ProcessView::GetRemainingAllowance(relay)
            ==> relay.sender_id == request.terms.sender_id && relay.payload == request.payload
            && relay.signer_account_id == config.relayer_account_id@,
    decreases work,
{
    if work > 0 {
        lemma_relay_keeps_its_request(config, request, faults, (work - 1) as nat);
    }
}

} // verus!
