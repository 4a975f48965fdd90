//! What holds of the relayer as a whole, whatever its database, the chain and the storage pool
//! reply. The modules below say what each function does to what it is given.
pub mod account;
pub mod allowance;
pub mod answer;
pub mod config;
pub mod delegate;
pub mod gas;
pub mod payment;
pub mod registration;
pub mod relay;
pub mod text;

use vstd::prelude::*;

use crate::account::valid_account_id;
use crate::allowance::{
    after_connection, after_key, after_keys, get_allowance_answer, get_allowance_first,
    initial_writes, key_step, update_all_first, update_allowance_answer, updated_message,
    GetAllowanceView, KeyUpdateView, PoolErrorKind, UpdateAllView,
};
use crate::config::{listed, DConfig};
use crate::delegate::{borsh_terms, encodes, ActionView, TermsView};
use crate::gas::{allowance_left, TXN_GAS_ALLOWANCE, YN_TO_GAS};
use crate::payment::{ascii_lowercase, pays_treasury, receiver_member};
use crate::registration::{
    create_after_allowance, create_after_process, create_after_storage, create_after_token,
    create_after_token_stored, register_after_allowance, register_after_storage,
    register_after_token, register_after_token_stored, used_token, CreateAccountView,
    CreateRequestView, RegisterView,
};
use crate::relay::{
    after_allowance, after_store, after_transaction, execution_outcome, first_step,
    receiver_refusal, refusal, relay_started, status_message, tokens_burnt, ExecutionView,
    PendingRelayView, ProcessStep, ProcessView,
};
use crate::request::RegistrationView;
use crate::response::{Response, BAD_REQUEST, CREATED, INTERNAL_SERVER_ERROR, OK};
use crate::text::{decimal, digit};

verus! {

/// What the work that a relay asks for comes to.
pub struct Replies {
    /// The remaining allowance that is found for the sender.
    pub allowance: u64,
    pub sent: Result<ExecutionView, Seq<char>>,
    pub stored: Result<(), Seq<char>>,
}

/// The step after the work of a step was done.
pub open spec fn advance(step: ProcessView, replies: Replies) -> ProcessView {
    match step {
        ProcessView::GetRemainingAllowance(relay) => after_allowance(relay, replies.allowance),
        ProcessView::SendTransaction(relay, remaining) => after_transaction(
            relay,
            remaining,
            replies.sent,
        ),
        ProcessView::StoreRemainingAllowance { account_id, allowance, result } => after_store(
            result,
            replies.stored,
        ),
        ProcessView::Done(result) => step,
    }
}

/// The step that a relay ends in.
pub open spec fn relayed(
    config: DConfig,
    terms: TermsView,
    payload: Seq<u8>,
    replies: Replies,
) -> ProcessView {
    advance(advance(advance(first_step(config, terms, payload), replies), replies), replies)
}

/// The transaction that a relay sends, if it sends one.
pub open spec fn transaction(
    config: DConfig,
    terms: TermsView,
    payload: Seq<u8>,
    replies: Replies,
) -> Option<PendingRelayView> {
    let first = first_step(config, terms, payload);
    match first {
        ProcessView::SendTransaction(relay, _) => Some(relay),
        _ => match advance(first, replies) {
            ProcessView::SendTransaction(relay, _) => Some(relay),
            _ => None,
        },
    }
}

/// A relay ends after at most three pieces of work: a look-up, a transaction and a write.
pub proof fn law_relay_ends(config: DConfig, terms: TermsView, payload: Seq<u8>, replies: Replies)
    ensures
        relayed(config, terms, payload, replies) is Done,
{
}

/// A refused delegate action costs nothing: it is answered 400 before anything is looked up, sent
/// or stored.
pub proof fn law_refusal_does_nothing(config: DConfig, terms: TermsView, payload: Seq<u8>)
    requires
        refusal(config, terms) is Some,
    ensures
        first_step(config, terms, payload) == ProcessView::Done(
            Err(refusal(config, terms)->0),
        ),
        (refusal(config, terms)->0).0 == BAD_REQUEST,
{
}

/// A receiver outside the list of contracts is refused whatever else is configured, the FastAuth
/// features included.
pub proof fn law_unlisted_receiver_is_refused(
    config: DConfig,
    terms: TermsView,
    payload: Seq<u8>,
)
    requires
        !listed(config.whitelisted_contracts@, terms.receiver_id),
    ensures
        first_step(config, terms, payload) == ProcessView::Done(Err(receiver_refusal(terms))),
{
}

/// Where senders are whitelisted and the FastAuth features are off, no sender outside the list
/// gets a transaction.
pub proof fn law_unlisted_sender_is_refused(config: DConfig, terms: TermsView, payload: Seq<u8>)
    requires
        config.use_whitelisted_delegate_action_receiver_ids,
        !config.use_fastauth_features,
        !listed(config.whitelisted_delegate_action_receiver_ids@, terms.sender_id),
    ensures
        first_step(config, terms, payload) matches ProcessView::Done(Err(err)) && err.0
            == BAD_REQUEST,
{
}

/// A transaction is sent exactly where the delegate action passes the checks and, with the
/// relayer's database in use, the sender's allowance covers a transaction. It goes to the sender
/// and carries the signed delegate action as it came.
pub proof fn law_what_is_sent(
    config: DConfig,
    terms: TermsView,
    payload: Seq<u8>,
    replies: Replies,
)
    ensures
        transaction(config, terms, payload, replies) is Some <==> refusal(config, terms) is None
            && (config.use_redis ==> replies.allowance >= TXN_GAS_ALLOWANCE),
        transaction(config, terms, payload, replies) matches Some(relay) ==> relay.sender_id
            == terms.sender_id && relay.payload == payload,
{
}

/// What is sent is what was checked: where the bytes of a signed delegate action encode its terms,
/// the bytes in the transaction are decoded to terms that pass the checks, and the transaction goes
/// to their sender.
pub proof fn law_sent_is_checked(
    config: DConfig,
    terms: TermsView,
    payload: Seq<u8>,
    replies: Replies,
)
    ensures
        encodes(payload, terms) && transaction(config, terms, payload, replies) is Some ==> {
            let relay = transaction(config, terms, payload, replies)->0;
            borsh_terms(relay.payload) matches Ok(decoded) && refusal(config, decoded) is None
                && relay.sender_id == decoded.sender_id
        },
{
}

/// The two endpoints agree: bytes that encode a signed delegate action with some terms start the
/// relay that these terms and bytes start.
pub proof fn law_endpoints_agree(
    config: DConfig,
    terms: TermsView,
    payload: Seq<u8>,
    started: Result<ProcessStep, Response>,
)
    ensures
        encodes(payload, terms) && relay_started(config, payload, started) ==> (started matches Ok(
            step,
        ) && step@ == first_step(config, terms, payload)),
{
}

/// A relay that does not send is answered 400, one that sends and fails 500.
pub proof fn law_whose_error(
    config: DConfig,
    terms: TermsView,
    payload: Seq<u8>,
    replies: Replies,
)
    ensures
        relayed(config, terms, payload, replies) matches ProcessView::Done(Err(err)) ==> err.0 == (
        if transaction(config, terms, payload, replies) is Some {
            INTERNAL_SERVER_ERROR
        } else {
            BAD_REQUEST
        }),
{
}

/// A relay succeeds exactly where its transaction was sent and did not fail and, with the relayer's
/// database in use, the new allowance was stored. It then reports on the transaction.
pub proof fn law_relay_succeeds(
    config: DConfig,
    terms: TermsView,
    payload: Seq<u8>,
    replies: Replies,
)
    ensures
        relayed(config, terms, payload, replies) matches ProcessView::Done(Ok(_)) <==> (
        transaction(config, terms, payload, replies) is Some && replies.sent is Ok && !(
        replies.sent->Ok_0.final_status is Failure) && (config.use_redis ==> replies.stored
            is Ok)),
        relayed(config, terms, payload, replies) matches ProcessView::Done(Ok(report))
            ==> report == status_message(replies.sent->Ok_0),
{
}

/// With the relayer's database in use, a transaction that was executed, failed or not, is charged:
/// what it burnt is taken from the allowance that was found for the sender, and the rest is stored
/// for the relayer's own account. Without the database nothing is looked up or stored.
pub proof fn law_what_is_charged(
    config: DConfig,
    terms: TermsView,
    payload: Seq<u8>,
    replies: Replies,
)
    requires
        refusal(config, terms) is None,
    ensures
        config.use_redis && replies.allowance >= TXN_GAS_ALLOWANCE && replies.sent is Ok ==> advance(
            advance(first_step(config, terms, payload), replies),
            replies,
        ) == (ProcessView::StoreRemainingAllowance {
            account_id: config.relayer_account_id@,
            allowance: allowance_left(tokens_burnt(replies.sent->Ok_0), replies.allowance),
            result: execution_outcome(replies.sent->Ok_0),
        }),
        !config.use_redis ==> first_step(config, terms, payload) is SendTransaction && advance(
            first_step(config, terms, payload),
            replies,
        ) is Done,
{
}

/// A charge never raises an allowance, and a larger one never leaves more. As long as the allowance
/// covers it, exactly the gas is taken.
pub proof fn law_charge(less: u128, more: u128, allowance: u64)
    requires
        less <= more,
    ensures
        allowance_left(more, allowance) <= allowance_left(less, allowance) <= allowance,
        less as int / YN_TO_GAS as int <= allowance ==> allowance_left(less, allowance)
            + less as int / YN_TO_GAS as int == allowance,
{
    assert(less as int / YN_TO_GAS as int <= more as int / YN_TO_GAS as int) by (nonlinear_arith)
        requires
            less <= more,
            YN_TO_GAS == 1_000_000_000,
    ;
}

/// Only a function call that names its receiver in JSON arguments is a payment to a burn address
/// that is an account id.
pub proof fn law_payment_names_receiver(action: ActionView, burn_address: Seq<char>)
    requires
        valid_account_id(burn_address),
        pays_treasury(action, burn_address),
    ensures
        action matches ActionView::FunctionCall(args) && receiver_member(args) == Ok::<
            Option<Seq<char>>,
            (),
        >(Some(burn_address)),
{
}

/// Whether a function call is a payment does not depend on the case of the ASCII letters in its
/// arguments.
pub proof fn law_payment_ignores_case(args: Seq<u8>, burn_address: Seq<char>)
    ensures
        pays_treasury(ActionView::FunctionCall(ascii_lowercase(args)), burn_address)
            == pays_treasury(ActionView::FunctionCall(args), burn_address),
{
    assert(ascii_lowercase(ascii_lowercase(args)) == ascii_lowercase(args));
}

/// Different numbers are written differently.
pub proof fn law_decimal_is_injective(m: nat, n: nat)
    requires
        decimal(m) == decimal(n),
    ensures
        m == n,
    decreases m,
{
    lemma_decimal_len(m);
    lemma_decimal_len(n);
    assert(decimal(m).last() == digit(m % 10));
    assert(decimal(n).last() == digit(n % 10));
    if m >= 10 && n >= 10 {
        assert(decimal(m).drop_last() == decimal(m / 10));
        assert(decimal(n).drop_last() == decimal(n / 10));
        law_decimal_is_injective(m / 10, n / 10);
    }
}

proof fn lemma_decimal_len(n: nat)
    ensures
        decimal(n).len() >= 1,
        n >= 10 <==> decimal(n).len() >= 2,
    decreases n,
{
    if n >= 10 {
        lemma_decimal_len(n / 10);
    }
}

/// The relayer's database: texts by key. The allowances of accounts and the tokens that accounts were
/// registered with are keys of the same database, so that an account id and a token may meet.
pub struct Db {
    pub entries: Map<Seq<char>, Seq<char>>,
    /// The text that is stored under a token.
    pub mark: Seq<char>,
}

impl Db {
    /// The database with a text stored under a key, or with nothing there.
    pub open spec fn with_entry(self, key: Seq<char>, entry: Option<Seq<char>>) -> Db {
        match entry {
            Some(text) => Db { entries: self.entries.insert(key, text), mark: self.mark },
            None => Db { entries: self.entries.remove(key), mark: self.mark },
        }
    }

    /// The database with an allowance stored.
    pub open spec fn with_allowance(self, account_id: Seq<char>, allowance: u64) -> Db {
        self.with_entry(account_id, Some(decimal(allowance as nat)))
    }

    /// The database with a token stored.
    pub open spec fn with_token(self, oauth_token: Seq<char>) -> Db {
        self.with_entry(oauth_token, Some(self.mark))
    }

    /// What is stored under a key.
    pub open spec fn entry(self, key: Seq<char>) -> Option<Seq<char>> {
        if self.entries.contains_key(key) {
            Some(self.entries[key])
        } else {
            None
        }
    }

    /// A token counts as used: it is a key of the database.
    pub open spec fn holds(self, oauth_token: Seq<char>) -> bool {
        self.entries.contains_key(oauth_token)
    }
}

/// What may go wrong while an account is registered: each piece of work is done, or fails and
/// leaves the database as it was.
pub struct Faults {
    pub lookup: Option<Seq<char>>,
    pub allowance: Option<Seq<char>>,
    pub restore: Option<Seq<char>>,
    pub storage: Option<Seq<char>>,
    pub token: Option<Seq<char>>,
    /// What the work of the relay comes to.
    pub relay: Replies,
}

/// The reply that a fault makes of a piece of work.
pub open spec fn reply(fault: Option<Seq<char>>) -> Result<(), Seq<char>> {
    match fault {
        Some(err) => Err(err),
        None => Ok(()),
    }
}

/// What a look-up of a token replies.
pub open spec fn lookup_reply(db: Db, oauth_token: Seq<char>, fault: Option<Seq<char>>) -> Result<
    bool,
    Seq<char>,
> {
    match fault {
        Some(err) => Err(err),
        None => Ok(db.holds(oauth_token)),
    }
}

/// What storing the allowance of an account replies where its entry before that is asked for.
pub open spec fn replace_reply(db: Db, account_id: Seq<char>, fault: Option<Seq<char>>) -> Result<
    Option<Seq<char>>,
    Seq<char>,
> {
    match fault {
        Some(err) => Err(err),
        None => Ok(db.entry(account_id)),
    }
}

/// The database after the entry of an account was put back, or was not.
pub open spec fn after_restore_write(
    db: Db,
    account_id: Seq<char>,
    previous: Option<Seq<char>>,
    fault: Option<Seq<char>>,
) -> Db {
    match fault {
        Some(_) => db,
        None => db.with_entry(account_id, previous),
    }
}

/// The database after the allowance of a registration was stored, or was not.
pub open spec fn after_allowance_write(
    db: Db,
    registration: RegistrationView,
    fault: Option<Seq<char>>,
) -> Db {
    match fault {
        Some(_) => db,
        None => db.with_allowance(registration.account_id, registration.allowance),
    }
}

/// The database after the token of a registration was stored, or was not.
pub open spec fn after_token_write(
    db: Db,
    registration: RegistrationView,
    fault: Option<Seq<char>>,
) -> Db {
    match fault {
        Some(_) => db,
        None => db.with_token(registration.oauth_token),
    }
}

/// The database after the work of a step of the relay.
pub open spec fn after_relay_write(db: Db, step: ProcessView, replies: Replies) -> Db {
    match step {
        ProcessView::StoreRemainingAllowance { account_id, allowance, result } => if replies.stored
            is Ok {
            db.with_allowance(account_id, allowance)
        } else {
            db
        },
        _ => db,
    }
}

/// Does the work of up to `work` steps in the creation of an account.
pub open spec fn create_run(
    config: DConfig,
    db: Db,
    step: CreateAccountView,
    faults: Faults,
    work: nat,
) -> (Db, CreateAccountView)
    decreases work,
{
    if work == 0 {
        (db, step)
    } else {
        let left = (work - 1) as nat;
        match step {
            CreateAccountView::GetOauthToken(request) => create_run(
                config,
                db,
                create_after_token(
                    request,
                    lookup_reply(db, request.registration.oauth_token, faults.lookup),
                ),
                faults,
                left,
            ),
            CreateAccountView::SetAllowance(request) => create_run(
                config,
                after_allowance_write(db, request.registration, faults.allowance),
                create_after_allowance(
                    config,
                    request,
                    replace_reply(db, request.registration.account_id, faults.allowance),
                ),
                faults,
                left,
            ),
            CreateAccountView::Process(registration, previous, relay) => create_run(
                config,
                after_relay_write(db, relay, faults.relay),
                create_after_process(config, registration, previous, advance(relay, faults.relay)),
                faults,
                left,
            ),
            CreateAccountView::RestoreAllowance { account_id, previous, response } => create_run(
                config,
                after_restore_write(db, account_id, previous, faults.restore),
                CreateAccountView::Done(response),
                faults,
                left,
            ),
            CreateAccountView::AllocateStorage(registration, report) => create_run(
                config,
                db,
                create_after_storage(registration, report, reply(faults.storage)),
                faults,
                left,
            ),
            CreateAccountView::SetOauthToken(registration, report) => create_run(
                config,
                after_token_write(db, registration, faults.token),
                CreateAccountView::Done(
                    create_after_token_stored(registration, report, reply(faults.token)),
                ),
                faults,
                left,
            ),
            CreateAccountView::Done(_) => (db, step),
        }
    }
}

/// What the creation of an account comes to: the database that it leaves and its last step.
pub open spec fn created(config: DConfig, db: Db, request: CreateRequestView, faults: Faults) -> (
    Db,
    CreateAccountView,
) {
    create_run(config, db, CreateAccountView::GetOauthToken(request), faults, 7)
}

/// Does the work of up to `work` steps in the registration of an account.
pub open spec fn register_run(db: Db, step: RegisterView, faults: Faults, work: nat) -> (
    Db,
    RegisterView,
)
    decreases work,
{
    if work == 0 {
        (db, step)
    } else {
        let left = (work - 1) as nat;
        match step {
            RegisterView::GetOauthToken(registration) => register_run(
                db,
                register_after_token(
                    registration,
                    lookup_reply(db, registration.oauth_token, faults.lookup),
                ),
                faults,
                left,
            ),
            RegisterView::SetAllowance(registration) => register_run(
                after_allowance_write(db, registration, faults.allowance),
                register_after_allowance(registration, reply(faults.allowance)),
                faults,
                left,
            ),
            RegisterView::AllocateStorage(registration) => register_run(
                db,
                register_after_storage(registration, reply(faults.storage)),
                faults,
                left,
            ),
            RegisterView::SetOauthToken(registration) => register_run(
                after_token_write(db, registration, faults.token),
                RegisterView::Done(register_after_token_stored(registration, reply(faults.token))),
                faults,
                left,
            ),
            RegisterView::Done(_) => (db, step),
        }
    }
}

/// What the registration of an account comes to: the database that it leaves and its last step.
pub open spec fn registered(db: Db, registration: RegistrationView, faults: Faults) -> (
    Db,
    RegisterView,
) {
    register_run(db, RegisterView::GetOauthToken(registration), faults, 4)
}

/// The creation of an account ends after at most seven pieces of work. It is answered 201 exactly
/// where its token was free and everything was done. The token is stored in that case. In no other is
/// anything stored under it, so that after a failure it can be used again; a token that is also the
/// id of the account or of the relayer is left out of this, since their allowances are stored under
/// the same key.
pub proof fn law_creation_stores_token_last(
    config: DConfig,
    db: Db,
    request: CreateRequestView,
    faults: Faults,
)
    ensures
        created(config, db, request, faults).1 is Done,
        ({
            let (after, step) = created(config, db, request, faults);
            let status_code = (step->Done_0).0;
            let token = request.registration.oauth_token;
            &&& status_code == CREATED <==> {
                &&& faults.lookup is None
                &&& !db.holds(token)
                &&& faults.allowance is None
                &&& relayed(config, request.terms, request.payload, faults.relay) matches
                    ProcessView::Done(Ok(_))
                &&& valid_account_id(request.registration.account_id)
                &&& config.shares_storage() ==> faults.storage is None
                &&& faults.token is None
            }
            &&& status_code == CREATED ==> after.entry(token) == Some(db.mark)
            &&& status_code != CREATED && token != request.registration.account_id && token
                != config.relayer_account_id@ ==> after.entry(token) == db.entry(token)
        }),
{
    reveal_with_fuel(create_run, 8);
    law_whose_error(config, request.terms, request.payload, faults.relay);
}

/// An account is created in the relayer's database and on chain, or in neither: where the relay
/// fails and the database lets the account's entry be put back, nothing in the database is other than
/// before, neither the entry of the account nor that of its token. The only entry that may differ is
/// that of the relayer's own account, which is charged for a transaction that was executed.
pub proof fn law_creation_is_atomic(
    config: DConfig,
    db: Db,
    request: CreateRequestView,
    faults: Faults,
    key: Seq<char>,
)
    requires
        relayed(config, request.terms, request.payload, faults.relay) matches ProcessView::Done(
            Err(_),
        ),
        faults.restore is None,
    ensures
        key == request.registration.account_id || key != config.relayer_account_id@ ==> created(
            config,
            db,
            request,
            faults,
        ).0.entry(key) == db.entry(key),
{
    reveal_with_fuel(create_run, 8);
}

/// Where the relay fails, the creation of an account with a free token is answered with the error of
/// the relay, whether the account's entry could be put back or not.
pub proof fn law_creation_answers_relay_error(
    config: DConfig,
    db: Db,
    request: CreateRequestView,
    faults: Faults,
)
    requires
        faults.lookup is None,
        !db.holds(request.registration.oauth_token),
        faults.allowance is None,
    ensures
        relayed(config, request.terms, request.payload, faults.relay) matches ProcessView::Done(
            Err(err),
        ) ==> created(config, db, request, faults).1 == CreateAccountView::Done(err),
{
    reveal_with_fuel(create_run, 8);
}

/// The creation of an account touches no entry but its own, its token's and the relayer's. An
/// account that was created has the allowance that was asked for, unless its id is also the token,
/// which is stored last, or is the relayer's own and was charged for the transaction.
pub proof fn law_creation_sets_allowance(
    config: DConfig,
    db: Db,
    request: CreateRequestView,
    faults: Faults,
    key: Seq<char>,
)
    ensures
        ({
            let (after, step) = created(config, db, request, faults);
            let account_id = request.registration.account_id;
            let token = request.registration.oauth_token;
            let relayer = config.relayer_account_id@;
            &&& key != account_id && key != token && key != relayer ==> after.entry(key)
                == db.entry(key)
            &&& (step->Done_0).0 == CREATED && account_id != token && (account_id != relayer
                || !config.use_redis) ==> after.entry(account_id) == Some(
                decimal(request.registration.allowance as nat),
            )
        }),
{
    reveal_with_fuel(create_run, 8);
    law_whose_error(config, request.terms, request.payload, faults.relay);
}

/// The registration of an account ends after at most four pieces of work. It is answered 201
/// exactly where its token was free and everything was done. The allowance is stored where the
/// token was free and the database took it, and the token after it in the case of a 201 and in no
/// other. A token that is also the account's id replaces the allowance.
pub proof fn law_registration_stores_token_last(
    db: Db,
    registration: RegistrationView,
    faults: Faults,
)
    ensures
        registered(db, registration, faults).1 is Done,
        ({
            let (after, step) = registered(db, registration, faults);
            let status_code = (step->Done_0).0;
            let token = registration.oauth_token;
            let allowed = db.with_allowance(registration.account_id, registration.allowance);
            &&& status_code == CREATED <==> {
                &&& faults.lookup is None
                &&& !db.holds(token)
                &&& faults.allowance is None
                &&& valid_account_id(registration.account_id)
                &&& faults.storage is None
                &&& faults.token is None
            }
            &&& after == if status_code == CREATED {
                allowed.with_token(token)
            } else if faults.lookup is None && !db.holds(token) && faults.allowance is None {
                allowed
            } else {
                db
            }
        }),
{
    reveal_with_fuel(register_run, 5);
}

/// A token that an account was registered with is refused by both endpoints, and the database
/// stays as it is.
pub proof fn law_used_token_is_refused(
    config: DConfig,
    db: Db,
    request: CreateRequestView,
    registration: RegistrationView,
    faults: Faults,
)
    requires
        faults.lookup is None,
        db.holds(request.registration.oauth_token),
        db.holds(registration.oauth_token),
    ensures
        created(config, db, request, faults) == (
            db,
            CreateAccountView::Done(used_token(BAD_REQUEST, request.registration.oauth_token)),
        ),
        registered(db, registration, faults) == (
            db,
            RegisterView::Done(used_token(INTERNAL_SERVER_ERROR, registration.oauth_token)),
        ),
{
    reveal_with_fuel(create_run, 8);
    reveal_with_fuel(register_run, 5);
}

/// One account for each token: once an account was created or registered with a token, no other is
/// with the same one.
pub proof fn law_one_account_per_token(
    config: DConfig,
    db: Db,
    first: CreateRequestView,
    second: CreateRequestView,
    first_faults: Faults,
    second_faults: Faults,
)
    requires
        first.registration.oauth_token == second.registration.oauth_token,
    ensures
        created(config, db, first, first_faults).1 matches CreateAccountView::Done(answered)
            && answered.0 == CREATED ==> {
            let after = created(config, db, first, first_faults).0;
            &&& created(config, after, second, second_faults).1 matches CreateAccountView::Done(
                again,
            ) && again.0 != CREATED
            &&& registered(after, second.registration, second_faults).1 matches RegisterView::Done(
                again,
            ) && again.0 != CREATED
        },
        registered(db, first.registration, first_faults).1 matches RegisterView::Done(answered)
            && answered.0 == CREATED ==> {
            let after = registered(db, first.registration, first_faults).0;
            &&& created(config, after, second, second_faults).1 matches CreateAccountView::Done(
                again,
            ) && again.0 != CREATED
            &&& registered(after, second.registration, second_faults).1 matches RegisterView::Done(
                again,
            ) && again.0 != CREATED
        },
{
    let after_create = created(config, db, first, first_faults).0;
    let after_register = registered(db, first.registration, first_faults).0;
    law_creation_stores_token_last(config, db, first, first_faults);
    law_creation_stores_token_last(config, after_create, second, second_faults);
    law_creation_stores_token_last(config, after_register, second, second_faults);
    law_registration_stores_token_last(db, first.registration, first_faults);
    law_registration_stores_token_last(after_create, second.registration, second_faults);
    law_registration_stores_token_last(after_register, second.registration, second_faults);
}

/// What a request to set an allowance comes to: the database that it leaves and its answer.
pub open spec fn allowance_set(
    db: Db,
    account_id: Seq<char>,
    allowance: u64,
    fault: Option<Seq<char>>,
) -> (Db, (u16, Seq<char>)) {
    (
        match fault {
            Some(_) => db,
            None => db.with_allowance(account_id, allowance),
        },
        update_allowance_answer(account_id, allowance, reply(fault)),
    )
}

/// The allowance that a text writes, if it does.
pub open spec fn written_allowance(text: Seq<char>) -> Option<u64> {
    if exists|n: u64| #[trigger] decimal(n as nat) == text {
        Some(choose|n: u64| #[trigger] decimal(n as nat) == text)
    } else {
        None
    }
}

/// The answer to a request for an allowance, where the look-up of an account without a written
/// allowance replies `missing`.
pub open spec fn allowance_got(
    db: Db,
    account_id: Seq<char>,
    missing: Result<u64, Seq<char>>,
) -> (u16, Seq<char>) {
    match get_allowance_first(account_id) {
        GetAllowanceView::GetRemainingAllowance { account_id } => get_allowance_answer(
            account_id,
            match db.entry(account_id) {
                Some(text) => match written_allowance(text) {
                    Some(allowance) => Ok(allowance),
                    None => missing,
                },
                None => missing,
            },
        ),
        GetAllowanceView::Done(response) => response,
    }
}

/// After a request to set an allowance was answered 201, the allowance is the one that is reported
/// for the account. What is reported for other accounts stays, and after a request that was not
/// answered 201 what is reported for every account does.
pub proof fn law_allowance_reads_back(
    db: Db,
    account_id: Seq<char>,
    allowance: u64,
    fault: Option<Seq<char>>,
    other: Seq<char>,
    missing: Result<u64, Seq<char>>,
)
    requires
        valid_account_id(account_id),
    ensures
        ({
            let (after, answered) = allowance_set(db, account_id, allowance, fault);
            &&& answered.0 == CREATED ==> allowance_got(after, account_id, missing) == (
                OK,
                decimal(allowance as nat),
            )
            &&& answered.0 != CREATED || other != account_id ==> allowance_got(
                after,
                other,
                missing,
            ) == allowance_got(db, other, missing)
        }),
{
    let text = decimal(allowance as nat);
    assert(decimal(allowance as nat) == text);
    law_decimal_is_injective(allowance as nat, written_allowance(text)->0 as nat);
}

/// Under the FastAuth features every whitelisted sender starts with an allowance that covers a
/// transaction.
pub proof fn law_initial_allowance_suffices(config: DConfig, relay: PendingRelayView)
    requires
        listed(config.whitelisted_delegate_action_receiver_ids@, relay.sender_id),
    ensures
        exists|i: int|
            0 <= i < initial_writes(config).len() && (#[trigger] initial_writes(config)[i]).0
                == relay.sender_id && after_allowance(relay, initial_writes(config)[i].1)
                == ProcessView::SendTransaction(relay, Some(u64::MAX)),
{
    let senders = config.whitelisted_delegate_action_receiver_ids@;
    let i = choose|i: int| 0 <= i < senders.len() && #[trigger] senders[i]@ == relay.sender_id;
    assert(initial_writes(config)[i] == (relay.sender_id, u64::MAX));
}

/// What the work of an update of all allowances comes to.
pub struct UpdateReplies {
    pub connection: Result<(), (PoolErrorKind, Seq<char>)>,
    pub keys: Result<Seq<Seq<char>>, Seq<char>>,
    /// The reply to the write of the key at a place.
    pub writes: spec_fn(nat) -> Result<(), Seq<char>>,
}

/// Does the work of up to `work` steps in an update of all allowances. The database holds texts by
/// key.
pub open spec fn update_run(
    store: Map<Seq<char>, Seq<char>>,
    step: UpdateAllView,
    replies: UpdateReplies,
    work: nat,
) -> (Map<Seq<char>, Seq<char>>, UpdateAllView)
    decreases work,
{
    if work == 0 {
        (store, step)
    } else {
        let left = (work - 1) as nat;
        match step {
            UpdateAllView::Connect { pattern, value } => update_run(
                store,
                after_connection(pattern, value, replies.connection),
                replies,
                left,
            ),
            UpdateAllView::FetchKeys { pattern, value } => update_run(
                store,
                after_keys(value, replies.keys),
                replies,
                left,
            ),
            UpdateAllView::SetKey(update) => update_run(
                if (replies.writes)(update.next) is Ok {
                    store.insert(update.keys[update.next as int], update.value)
                } else {
                    store
                },
                after_key(update, (replies.writes)(update.next)),
                replies,
                left,
            ),
            UpdateAllView::Done(_) => (store, step),
        }
    }
}

/// What an update of all allowances comes to, where it is given `count` keys: the database that it
/// leaves and its last step.
pub open spec fn updated(
    config: DConfig,
    allowance_in_gas: u64,
    store: Map<Seq<char>, Seq<char>>,
    replies: UpdateReplies,
    count: nat,
) -> (Map<Seq<char>, Seq<char>>, UpdateAllView) {
    update_run(store, update_all_first(config, allowance_in_gas), replies, count + 2)
}

/// The database after the first keys were set to a value.
pub open spec fn with_keys(
    store: Map<Seq<char>, Seq<char>>,
    keys: Seq<Seq<char>>,
    value: Seq<char>,
) -> Map<Seq<char>, Seq<char>>
    decreases keys.len(),
{
    if keys.len() == 0 {
        store
    } else {
        with_keys(store, keys.drop_last(), value).insert(keys.last(), value)
    }
}

/// An update of all allowances sets each key that was fetched to the allowance, and reports how
/// many there were.
pub proof fn law_update_sets_all_keys(
    config: DConfig,
    allowance_in_gas: u64,
    store: Map<Seq<char>, Seq<char>>,
    replies: UpdateReplies,
    keys: Seq<Seq<char>>,
)
    requires
        replies.connection is Ok,
        replies.keys == Ok::<Seq<Seq<char>>, Seq<char>>(keys),
        forall|i: nat| i < keys.len() ==> #[trigger] (replies.writes)(i) is Ok,
    ensures
        updated(config, allowance_in_gas, store, replies, keys.len()) == (
            with_keys(store, keys, decimal(allowance_in_gas as nat)),
            UpdateAllView::Done(Ok(updated_message(keys.len()))),
        ),
{
    let value = decimal(allowance_in_gas as nat);
    reveal_with_fuel(update_run, 3);
    assert(with_keys(store, keys.take(0), value) == store);
    lemma_update_run(store, keys, value, replies, 0, keys.len());
    assert(keys.take(keys.len() as int) == keys);
}

/// An update of all allowances stops at the first key that cannot be set, and names it. The keys
/// before it keep the new value, and no other key is touched.
pub proof fn law_update_stops_at_failure(
    config: DConfig,
    allowance_in_gas: u64,
    store: Map<Seq<char>, Seq<char>>,
    replies: UpdateReplies,
    keys: Seq<Seq<char>>,
    failing: nat,
)
    requires
        replies.connection is Ok,
        replies.keys == Ok::<Seq<Seq<char>>, Seq<char>>(keys),
        failing < keys.len(),
        forall|i: nat| i < failing ==> #[trigger] (replies.writes)(i) is Ok,
        (replies.writes)(failing) is Err,
    ensures
        updated(config, allowance_in_gas, store, replies, keys.len()) == (
            with_keys(store, keys.take(failing as int), decimal(allowance_in_gas as nat)),
            UpdateAllView::Done(
                Err(
                    (
                        INTERNAL_SERVER_ERROR,
                        "Error updating allowance for key "@ + keys[failing as int] + ": "@ + (
                        replies.writes)(failing)->Err_0,
                    ),
                ),
            ),
        ),
{
    let value = decimal(allowance_in_gas as nat);
    reveal_with_fuel(update_run, 3);
    assert(with_keys(store, keys.take(0), value) == store);
    lemma_update_run(store, keys, value, replies, 0, failing);
    assert(key_step(keys, failing, value) == UpdateAllView::SetKey(
        KeyUpdateView { keys, next: failing, value },
    ));
}

/// Without a connection or without the keys, an update of all allowances fails and sets nothing.
pub proof fn law_update_needs_keys(
    config: DConfig,
    allowance_in_gas: u64,
    store: Map<Seq<char>, Seq<char>>,
    replies: UpdateReplies,
    count: nat,
)
    requires
        replies.connection is Err || replies.keys is Err,
    ensures
        updated(config, allowance_in_gas, store, replies, count).0 == store,
        updated(config, allowance_in_gas, store, replies, count).1 matches UpdateAllView::Done(
            Err(err),
        ) && err.0 == INTERNAL_SERVER_ERROR,
{
    reveal_with_fuel(update_run, 3);
}

/// The run from the step at which `from` keys are set gets to the one at which `to` are.
proof fn lemma_update_run(
    store: Map<Seq<char>, Seq<char>>,
    keys: Seq<Seq<char>>,
    value: Seq<char>,
    replies: UpdateReplies,
    from: nat,
    to: nat,
)
    requires
        from <= to <= keys.len(),
        forall|i: nat| i < to ==> #[trigger] (replies.writes)(i) is Ok,
    ensures
        update_run(
            with_keys(store, keys.take(from as int), value),
            key_step(keys, from, value),
            replies,
            (keys.len() - from) as nat,
        ) == update_run(
            with_keys(store, keys.take(to as int), value),
            key_step(keys, to, value),
            replies,
            (keys.len() - to) as nat,
        ),
    decreases to - from,
{
    if from < to {
        assert((replies.writes)(from) is Ok);
        assert(keys.take(from as int + 1).drop_last() == keys.take(from as int));
        assert(keys.take(from as int + 1).last() == keys[from as int]);
        lemma_update_run(store, keys, value, replies, from + 1, to);
    }
}

/// After keys were set to a value, each of them has it and every other key has what it had.
pub proof fn law_keys_have_value(
    store: Map<Seq<char>, Seq<char>>,
    keys: Seq<Seq<char>>,
    value: Seq<char>,
    key: Seq<char>,
)
    ensures
        keys.contains(key) ==> with_keys(store, keys, value).contains_pair(key, value),
        !keys.contains(key) ==> (with_keys(store, keys, value).contains_key(key)
            <==> store.contains_key(key)) && with_keys(store, keys, value)[key] == store[key],
    decreases keys.len(),
{
    if keys.len() > 0 {
        law_keys_have_value(store, keys.drop_last(), value, key);
        assert(keys.contains(keys.last()));
        if keys.contains(key) && key != keys.last() {
            let i = choose|i: int| 0 <= i < keys.len() && keys[i] == key;
            assert(keys.drop_last()[i] == key);
        }
        if keys.drop_last().contains(key) {
            let i = choose|i: int| 0 <= i < keys.len() - 1 && keys.drop_last()[i] == key;
            assert(keys[i] == key);
        }
    }
}

} // verus!
