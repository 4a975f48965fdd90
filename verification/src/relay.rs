//! Relaying a signed delegate action: the checks that it has to pass, and the transaction that
//! carries it.
//!
//! A relay in progress is a [`ProcessStep`]. A step names the work that the caller does next, and
//! the functions below take what came of that work to the step that follows.
use vstd::prelude::*;

use crate::account::{is_account_id, valid_account_id};
use crate::config::{is_listed, listed, DConfig};
use crate::delegate::{
    borsh_terms, decode_signed_delegate_action, Action, ActionView, SignedDelegateAction, Terms,
    TermsView,
};
use crate::gas::{
    allowance_left, calculate_total_gas_burned, capped, remaining_allowance, sum, TXN_GAS_ALLOWANCE,
};
use crate::payment::{pays_treasury, treasury_payments};
use crate::response::{
    bad_request, internal_error, outcome, Outcome, RelayError, Response, BAD_REQUEST,
    INTERNAL_SERVER_ERROR,
};
use crate::text::{debug_text, debugged};

verus! {

/// The refusal of a receiver outside the list of contracts.
pub open spec fn receiver_refusal(terms: TermsView) -> (u16, Seq<char>) {
    (
        BAD_REQUEST,
        "Delegate Action receiver_id "@ + terms.receiver_id + " is not whitelisted"@,
    )
}

/// The refusal of a sender outside the list of senders.
pub open spec fn sender_refusal(terms: TermsView) -> (u16, Seq<char>) {
    (
        BAD_REQUEST,
        "Delegate Action receiver_id "@ + terms.receiver_id + " or sender_id "@ + terms.sender_id
            + " is not whitelisted"@,
    )
}

/// The refusal of a delegate action that pays nothing to the treasury.
pub open spec fn payment_refusal() -> (u16, Seq<char>) {
    (BAD_REQUEST, "No treasury payment found in this transaction"@)
}

/// Some action of the terms pays to the burn address.
pub open spec fn holds_payment(terms: TermsView, burn_address: Seq<char>) -> bool {
    exists|i: int|
        0 <= i < terms.actions.len() && pays_treasury(#[trigger] terms.actions[i], burn_address)
}

/// The checks on a delegate action before anything is done for it: why it is refused, or `None`.
///
/// The receiver must be on the list of contracts. Where senders are whitelisted and the FastAuth
/// features are off, the sender must be on the list of senders. Where relaying is paid for with
/// tokens, an action must pay to the burn address.
pub open spec fn refusal(config: DConfig, terms: TermsView) -> Option<(u16, Seq<char>)> {
    if !listed(config.whitelisted_contracts@, terms.receiver_id) {
        Some(receiver_refusal(terms))
    } else if config.use_whitelisted_delegate_action_receiver_ids && !config.use_fastauth_features
        && !listed(config.whitelisted_delegate_action_receiver_ids@, terms.sender_id) {
        Some(sender_refusal(terms))
    } else if config.use_pay_with_ft && !holds_payment(terms, config.burn_address@) {
        Some(payment_refusal())
    } else {
        None
    }
}

/// An action that adds or deletes an access key.
pub open spec fn is_key_action(action: ActionView) -> bool {
    action is AddKey || action is DeleteKey
}

/// The FastAuth rule for a receiver outside the list of contracts: the first action adds or
/// deletes a key of the sender's own account, or the sender is on the list of senders.
pub open spec fn fastauth_refusal(config: DConfig, terms: TermsView) -> Option<(u16, Seq<char>)> {
    if terms.actions.len() == 0 {
        Some((BAD_REQUEST, "DelegateAction must have at least one NonDelegateAction"@))
    } else if (terms.sender_id != terms.receiver_id || !is_key_action(terms.actions[0]))
        && !listed(config.whitelisted_delegate_action_receiver_ids@, terms.sender_id) {
        Some(
            (
                BAD_REQUEST,
                "Delegate Action receiver_id "@ + terms.receiver_id + " or sender_id "@
                    + terms.sender_id
                    + " is not whitelisted OR (they do not match AND the NonDelegateAction is not AddKey or DeleteKey)"@,
            ),
        )
    } else {
        None
    }
}

/// What a check found, as mathematical values.
pub open spec fn refused(result: Result<(), RelayError>) -> Option<(u16, Seq<char>)> {
    match result {
        Ok(()) => None,
        Err(err) => Some(err@),
    }
}

/// Checks a delegate action by the FastAuth rule.
pub fn check_fastauth(config: &DConfig, terms: &Terms) -> (result: Result<(), RelayError>)
    ensures
        refused(result) == fastauth_refusal(*config, terms@),
{
    if terms.actions.len() == 0 {
        return Err(
            bad_request("DelegateAction must have at least one NonDelegateAction".to_owned()),
        );
    }
    assert(terms@.actions[0] == terms.actions@[0]@);
    let contains_key_action = match &terms.actions[0] {
        Action::AddKey => true,
        Action::DeleteKey => true,
        _ => false,
    };
    let is_whitelisted_sender = is_listed(
        &config.whitelisted_delegate_action_receiver_ids,
        &terms.sender_id,
    );
    if (terms.sender_id != terms.receiver_id || !contains_key_action) && !is_whitelisted_sender {
        let mut message = "Delegate Action receiver_id ".to_owned();
        message.append(terms.receiver_id.as_str());
        message.append(" or sender_id ");
        message.append(terms.sender_id.as_str());
        message.append(
            " is not whitelisted OR (they do not match AND the NonDelegateAction is not AddKey or DeleteKey)",
        );
        return Err(bad_request(message));
    }
    Ok(())
}

/// Checks a delegate action before anything is done for it.
pub fn check_delegate_action(config: &DConfig, terms: &Terms) -> (result: Result<(), RelayError>)
    ensures
        refused(result) == refusal(*config, terms@),
{
    let is_whitelisted_receiver = is_listed(&config.whitelisted_contracts, &terms.receiver_id);
    if !is_whitelisted_receiver {
        let mut message = "Delegate Action receiver_id ".to_owned();
        message.append(terms.receiver_id.as_str());
        message.append(" is not whitelisted");
        return Err(bad_request(message));
    }
    if config.use_whitelisted_delegate_action_receiver_ids && !config.use_fastauth_features {
        if !is_listed(&config.whitelisted_delegate_action_receiver_ids, &terms.sender_id) {
            let mut message = "Delegate Action receiver_id ".to_owned();
            message.append(terms.receiver_id.as_str());
            message.append(" or sender_id ");
            message.append(terms.sender_id.as_str());
            message.append(" is not whitelisted");
            return Err(bad_request(message));
        }
    }
    // Never the case: the first check has refused every receiver outside the list.
    if !is_whitelisted_receiver && config.use_fastauth_features {
        check_fastauth(config, terms)?;
    }
    if config.use_pay_with_ft {
        let payments = treasury_payments(&terms.actions, &config.burn_address);
        if payments.len() == 0 {
            assert(!holds_payment(terms@, config.burn_address@)) by {
                if holds_payment(terms@, config.burn_address@) {
                    let i = choose|i: int|
                        0 <= i < terms@.actions.len() && pays_treasury(
                            #[trigger] terms@.actions[i],
                            config.burn_address@,
                        );
                    assert(terms@.actions[i] == terms.actions@[i]@);
                    assert(i < terms.actions.len());
                    assert(payments@.contains(i as usize));
                }
            }
            return Err(bad_request("No treasury payment found in this transaction".to_owned()));
        }
        assert(holds_payment(terms@, config.burn_address@)) by {
            let k = payments@[0];
            assert(payments@.contains(k));
            assert(terms@.actions[k as int] == terms.actions@[k as int]@);
        }
    }
    Ok(())
}

/// A relay in progress: what the later steps need of the request.
pub struct PendingRelay {
    /// The sender of the delegate action, which is the receiver of the transaction.
    pub sender_id: String,
    /// The relayer's own account, whose allowance the gas is taken from.
    pub signer_account_id: String,
    /// The signed delegate action that the transaction carries, Borsh encoded.
    pub payload: Vec<u8>,
}

/// A [`PendingRelay`] as mathematical values.
pub struct PendingRelayView {
    pub sender_id: Seq<char>,
    pub signer_account_id: Seq<char>,
    pub payload: Seq<u8>,
}

impl View for PendingRelay {
    type V = PendingRelayView;

    open spec fn view(&self) -> PendingRelayView {
        PendingRelayView {
            sender_id: self.sender_id@,
            signer_account_id: self.signer_account_id@,
            payload: self.payload@,
        }
    }
}

/// The step that a relay has come to.
pub enum ProcessStep {
    /// The remaining allowance of the sender is to be looked up; then
    /// [`process_allowance_read`].
    GetRemainingAllowance(PendingRelay),
    /// A transaction is to be sent to the sender, with the payload in a `Delegate` action; then
    /// [`process_transaction_sent`]. The sender's remaining allowance comes along where gas is
    /// metered.
    SendTransaction(PendingRelay, Option<u64>),
    /// The remaining allowance of an account is to be stored; then [`process_allowance_stored`].
    StoreRemainingAllowance {
        account_id: String,
        allowance: u64,
        result: Result<String, RelayError>,
    },
    /// There is nothing left to do.
    Done(Result<String, RelayError>),
}

/// A [`ProcessStep`] as mathematical values.
pub enum ProcessView {
    GetRemainingAllowance(PendingRelayView),
    SendTransaction(PendingRelayView, Option<u64>),
    StoreRemainingAllowance { account_id: Seq<char>, allowance: u64, result: Outcome },
    Done(Outcome),
}

impl View for ProcessStep {
    type V = ProcessView;

    open spec fn view(&self) -> ProcessView {
        match self {
            ProcessStep::GetRemainingAllowance(relay) => ProcessView::GetRemainingAllowance(relay@),
            ProcessStep::SendTransaction(relay, remaining) => ProcessView::SendTransaction(
                relay@,
                *remaining,
            ),
            ProcessStep::StoreRemainingAllowance { account_id, allowance, result } =>
            ProcessView::StoreRemainingAllowance {
                account_id: account_id@,
                allowance: *allowance,
                result: outcome(*result),
            },
            ProcessStep::Done(result) => ProcessView::Done(outcome(*result)),
        }
    }
}

/// The relay of a signed delegate action that has passed the checks.
pub open spec fn pending(config: DConfig, terms: TermsView, payload: Seq<u8>) -> PendingRelayView {
    PendingRelayView {
        sender_id: terms.sender_id,
        signer_account_id: config.relayer_account_id@,
        payload,
    }
}

/// The first step of a relay: a refused delegate action is done with; with the relayer's database
/// in use the sender's allowance comes next, otherwise the transaction.
pub open spec fn first_step(config: DConfig, terms: TermsView, payload: Seq<u8>) -> ProcessView {
    match refusal(config, terms) {
        Some(err) => ProcessView::Done(Err(err)),
        None => if config.use_redis {
            ProcessView::GetRemainingAllowance(pending(config, terms, payload))
        } else {
            ProcessView::SendTransaction(pending(config, terms, payload), None)
        },
    }
}

/// Starts to relay a signed delegate action. The relayer's own account must have a valid id.
pub fn process_signed_delegate_action(
    config: &DConfig,
    signed_delegate_action: SignedDelegateAction,
) -> (step: ProcessStep)
    requires
        valid_account_id(config.relayer_account_id@),
    ensures
        step@ == first_step(
            *config,
            signed_delegate_action.terms@,
            signed_delegate_action.payload@,
        ),
{
    match check_delegate_action(config, &signed_delegate_action.terms) {
        Err(err) => ProcessStep::Done(Err(err)),
        Ok(()) => {
            let relay = PendingRelay {
                sender_id: signed_delegate_action.terms.sender_id,
                signer_account_id: config.relayer_account_id.clone(),
                payload: signed_delegate_action.payload,
            };
            if config.use_redis {
                ProcessStep::GetRemainingAllowance(relay)
            } else {
                ProcessStep::SendTransaction(relay, None)
            }
        },
    }
}

/// The refusal of an account whose allowance does not cover a transaction.
pub open spec fn allowance_refusal(account_id: Seq<char>) -> (u16, Seq<char>) {
    (
        BAD_REQUEST,
        "AccountId "@ + account_id + " does not have enough remaining gas allowance."@,
    )
}

/// The allowance that a look-up found: nothing where it failed.
pub open spec fn allowance_found(reply: Result<u64, String>) -> u64 {
    match reply {
        Ok(allowance) => allowance,
        Err(_) => 0,
    }
}

/// The step after the look-up of the sender's allowance.
pub open spec fn after_allowance(relay: PendingRelayView, allowance: u64) -> ProcessView {
    if allowance < TXN_GAS_ALLOWANCE {
        ProcessView::Done(Err(allowance_refusal(relay.sender_id)))
    } else {
        ProcessView::SendTransaction(relay, Some(allowance))
    }
}

/// Goes on with a relay after the look-up of the sender's remaining allowance. A look-up that
/// failed counts as no allowance.
pub fn process_allowance_read(relay: PendingRelay, reply: Result<u64, String>) -> (step:
    ProcessStep)
    ensures
        step@ == after_allowance(relay@, allowance_found(reply)),
{
    let remaining: u64 = match reply {
        Ok(allowance) => allowance,
        Err(_) => 0,
    };
    if remaining < TXN_GAS_ALLOWANCE {
        let mut message = "AccountId ".to_owned();
        message.append(relay.sender_id.as_str());
        message.append(" does not have enough remaining gas allowance.");
        ProcessStep::Done(Err(bad_request(message)))
    } else {
        ProcessStep::SendTransaction(relay, Some(remaining))
    }
}

/// How far a transaction got.
#[derive(Clone, Copy, Debug, PartialEq, Eq, Structural)]
pub enum FinalExecutionStatus {
    NotStarted,
    Started,
    Failure,
    SuccessValue,
}

/// What came of a transaction that was sent.
pub struct Execution {
    pub final_status: FinalExecutionStatus,
    /// The status as JSON.
    pub status: String,
    /// The outcome of the transaction as JSON.
    pub transaction_outcome: String,
    /// The outcomes of its receipts as JSON.
    pub receipts_outcome: String,
    /// The tokens that the transaction burnt, in yoctoNEAR.
    pub transaction_tokens_burnt: u128,
    /// The tokens that each of its receipts burnt, in yoctoNEAR.
    pub receipts_tokens_burnt: Vec<u128>,
}

/// An [`Execution`] as mathematical values.
pub struct ExecutionView {
    pub final_status: FinalExecutionStatus,
    pub status: Seq<char>,
    pub transaction_outcome: Seq<char>,
    pub receipts_outcome: Seq<char>,
    pub transaction_tokens_burnt: u128,
    pub receipts_tokens_burnt: Seq<u128>,
}

impl View for Execution {
    type V = ExecutionView;

    open spec fn view(&self) -> ExecutionView {
        ExecutionView {
            final_status: self.final_status,
            status: self.status@,
            transaction_outcome: self.transaction_outcome@,
            receipts_outcome: self.receipts_outcome@,
            transaction_tokens_burnt: self.transaction_tokens_burnt,
            receipts_tokens_burnt: self.receipts_tokens_burnt@,
        }
    }
}

/// What a transaction is reported as: a failure, or relayed and sent.
pub open spec fn status_title(failed: bool) -> Seq<char> {
    if failed {
        "Error sending transaction"@
    } else {
        "Relayed and sent transaction"@
    }
}

/// The JSON object that reports on a transaction: the title, the status and the outcomes, with the
/// members in the order of their names.
pub open spec fn status_message(execution: ExecutionView) -> Seq<char> {
    "{\"Receipts Outcome\":"@ + execution.receipts_outcome + ",\"Transaction Outcome\":"@
        + execution.transaction_outcome + ",\"message\":\""@ + status_title(
        execution.final_status is Failure,
    ) + "\",\"status\":"@ + execution.status + "}"@
}

/// Reports on a transaction.
pub fn status_message_text(execution: &Execution) -> (text: String)
    ensures
        text@ == status_message(execution@),
{
    let title = match execution.final_status {
        FinalExecutionStatus::Failure => "Error sending transaction",
        _ => "Relayed and sent transaction",
    };
    let mut text = "{\"Receipts Outcome\":".to_owned();
    text.append(execution.receipts_outcome.as_str());
    text.append(",\"Transaction Outcome\":");
    text.append(execution.transaction_outcome.as_str());
    text.append(",\"message\":\"");
    text.append(title);
    text.append("\",\"status\":");
    text.append(execution.status.as_str());
    text.append("}");
    text
}

/// What a transaction comes to: its report, as an error where the transaction failed.
pub open spec fn execution_outcome(execution: ExecutionView) -> Outcome {
    if execution.final_status is Failure {
        Err((INTERNAL_SERVER_ERROR, status_message(execution)))
    } else {
        Ok(status_message(execution))
    }
}

/// The tokens that a transaction and its receipts burnt, in yoctoNEAR.
pub open spec fn tokens_burnt(execution: ExecutionView) -> u128 {
    capped(
        execution.transaction_tokens_burnt as nat + sum(execution.receipts_tokens_burnt),
    ) as u128
}

/// The error of a transaction that could not be sent.
pub open spec fn sending_error(err: Seq<char>) -> (u16, Seq<char>) {
    (INTERNAL_SERVER_ERROR, "Error signing transaction: "@ + err)
}

/// What came of sending, as mathematical values.
pub open spec fn sent(reply: Result<Execution, String>) -> Result<ExecutionView, Seq<char>> {
    match reply {
        Ok(execution) => Ok(execution@),
        Err(err) => Err(err@),
    }
}

/// The step after a transaction: where gas is metered, what it burnt is taken from the allowance
/// that was found, and stored for the relayer's own account.
pub open spec fn after_transaction(
    relay: PendingRelayView,
    remaining: Option<u64>,
    reply: Result<ExecutionView, Seq<char>>,
) -> ProcessView {
    match reply {
        Err(err) => ProcessView::Done(Err(sending_error(err))),
        Ok(execution) => match remaining {
            Some(allowance) => ProcessView::StoreRemainingAllowance {
                account_id: relay.signer_account_id,
                allowance: allowance_left(tokens_burnt(execution), allowance),
                result: execution_outcome(execution),
            },
            None => ProcessView::Done(execution_outcome(execution)),
        },
    }
}

/// Goes on with a relay after the transaction. `reply` holds how the transaction was executed, or
/// the error as it is printed for debugging.
pub fn process_transaction_sent(
    relay: PendingRelay,
    remaining: Option<u64>,
    reply: Result<Execution, String>,
) -> (step: ProcessStep)
    ensures
        step@ == after_transaction(relay@, remaining, sent(reply)),
{
    let execution = match reply {
        Ok(execution) => execution,
        Err(err) => {
            let mut message = "Error signing transaction: ".to_owned();
            message.append(err.as_str());
            return ProcessStep::Done(Err(internal_error(message)));
        },
    };
    let status_msg = status_message_text(&execution);
    let result = match execution.final_status {
        FinalExecutionStatus::Failure => Err(internal_error(status_msg)),
        _ => Ok(status_msg),
    };
    match remaining {
        Some(allowance) => {
            let gas_used_in_yn = calculate_total_gas_burned(
                execution.transaction_tokens_burnt,
                &execution.receipts_tokens_burnt,
            );
            ProcessStep::StoreRemainingAllowance {
                account_id: relay.signer_account_id,
                allowance: remaining_allowance(gas_used_in_yn, allowance),
                result,
            }
        },
        None => ProcessStep::Done(result),
    }
}

/// What came of a piece of work that gives nothing back, as mathematical values.
pub open spec fn worked(reply: Result<(), String>) -> Result<(), Seq<char>> {
    match reply {
        Ok(()) => Ok(()),
        Err(err) => Err(err@),
    }
}

/// The step after the new allowance was stored.
pub open spec fn after_store(result: Outcome, reply: Result<(), Seq<char>>) -> ProcessView {
    match reply {
        Ok(()) => ProcessView::Done(result),
        Err(err) => ProcessView::Done(
            Err(
                (
                    INTERNAL_SERVER_ERROR,
                    "Updating redis remaining allowance errored out: "@ + err,
                ),
            ),
        ),
    }
}

/// Goes on with a relay after the new allowance was stored.
pub fn process_allowance_stored(
    result: Result<String, RelayError>,
    reply: Result<(), String>,
) -> (step: ProcessStep)
    ensures
        step@ == after_store(outcome(result), worked(reply)),
{
    match reply {
        Ok(()) => ProcessStep::Done(result),
        Err(err) => {
            let mut message = "Updating redis remaining allowance errored out: ".to_owned();
            message.append(err.as_str());
            ProcessStep::Done(Err(internal_error(message)))
        },
    }
}

/// The answer to bytes that are no signed delegate action.
pub open spec fn undecodable(err: Seq<char>) -> (u16, Seq<char>) {
    (BAD_REQUEST, "Error deserializing payload data object: "@ + debugged(err))
}

/// Takes a decoded request of the `/relay` endpoint to its first step, or answers it at once.
pub fn relay_decoded(
    config: &DConfig,
    decoded: Result<SignedDelegateAction, String>,
) -> (started: Result<ProcessStep, Response>)
    requires
        decoded is Ok ==> valid_account_id(config.relayer_account_id@),
    ensures
        match (decoded, started) {
            (Ok(signed), Ok(step)) => step@ == first_step(*config, signed.terms@, signed.payload@),
            (Err(err), Err(response)) => response@ == undecodable(err@),
            _ => false,
        },
{
    match decoded {
        Ok(signed) => Ok(process_signed_delegate_action(config, signed)),
        Err(err) => {
            let mut body = "Error deserializing payload data object: ".to_owned();
            let printed = debug_text(err.as_str());
            body.append(printed.as_str());
            Err(Response { status_code: BAD_REQUEST, body })
        },
    }
}

/// What a request of the `/relay` endpoint starts with: the first step of the relay, or the answer
/// to bytes that are no signed delegate action.
pub open spec fn relay_started(
    config: DConfig,
    data: Seq<u8>,
    started: Result<ProcessStep, Response>,
) -> bool {
    match (borsh_terms(data), started) {
        (Ok(terms), Ok(step)) => step@ == first_step(config, terms, data),
        (Err(err), Err(response)) => response@ == undecodable(err),
        _ => false,
    }
}

/// Takes a request of the `/relay` endpoint, a signed delegate action in Borsh, to its first step,
/// or answers it at once. What comes of the last step is answered by [`respond`](crate::response::respond).
/// To relay, the relayer's own account must have a valid id.
pub fn relay(config: &DConfig, data: &Vec<u8>) -> (started: Result<ProcessStep, Response>)
    requires
        borsh_terms(data@) is Ok ==> valid_account_id(config.relayer_account_id@),
    ensures
        relay_started(*config, data@, started),
{
    relay_decoded(config, decode_signed_delegate_action(data))
}

/// Does what [`relay`] does, or gives nothing where there is a signed delegate action to relay and
/// the relayer's own account has no valid id.
pub fn relay_checked(config: &DConfig, data: &Vec<u8>) -> (started: Option<
    Result<ProcessStep, Response>,
>)
    ensures
        started is None <==> borsh_terms(data@) is Ok && !valid_account_id(
            config.relayer_account_id@,
        ),
        started matches Some(result) ==> relay_started(*config, data@, result),
{
    if !is_account_id(&config.relayer_account_id) && decode_signed_delegate_action(data).is_ok() {
        return None;
    }
    Some(relay(config, data))
}

/// Takes a request of the `/send_meta_tx` endpoint to its first step. What comes of the last step
/// is answered by [`respond`](crate::response::respond).
pub fn send_meta_tx(config: &DConfig, data: SignedDelegateAction) -> (step: ProcessStep)
    requires
        valid_account_id(config.relayer_account_id@),
    ensures
        step@ == first_step(*config, data.terms@, data.payload@),
{
    process_signed_delegate_action(config, data)
}

} // verus!
