//! The steps of a relay, one by one.
use vstd::prelude::*;

use crate::account::valid_account_id;
use crate::config::DConfig;
use crate::delegate::{borsh_terms, SignedDelegateAction, Terms, TermsView};
use crate::gas::{calculate_total_gas_burned, remaining_allowance};
use crate::payment::pays_treasury;
use crate::relay::{
    check_delegate_action, check_fastauth, first_step, process_allowance_read,
    process_allowance_stored, process_signed_delegate_action, process_transaction_sent, refusal,
    relay, relay_checked, relay_decoded, send_meta_tx, status_message_text,
    Execution, PendingRelay, ProcessStep, ProcessView,
};
use crate::response::{RelayError, Response};
use crate::text::debugged;

verus! {

/// A text is one of a list.
pub open spec fn is_one_of(list: Seq<String>, id: Seq<char>) -> bool {
    exists|i: int| 0 <= i < list.len() && #[trigger] list[i]@ == id
}

/// One of the actions pays to the burn address.
pub open spec fn is_paid_for(terms: TermsView, burn_address: Seq<char>) -> bool {
    exists|i: int|
        0 <= i < terms.actions.len() && pays_treasury(#[trigger] terms.actions[i], burn_address)
}

/// A delegate action passes exactly where its receiver is one of the contracts, its sender is one
/// of the senders if senders are whitelisted and the FastAuth features are off, and one of its
/// actions pays if relaying has to be paid for. No other switch plays a part.
pub proof fn law_what_passes(config: &DConfig, terms: &Terms, result: Result<(), RelayError>)
    requires
        call_ensures(check_delegate_action, (config, terms), result),
    ensures
        result is Ok <==> {
            &&& is_one_of(config.whitelisted_contracts@, terms.receiver_id@)
            &&& config.use_whitelisted_delegate_action_receiver_ids && !config.use_fastauth_features
                ==> is_one_of(config.whitelisted_delegate_action_receiver_ids@, terms.sender_id@)
            &&& config.use_pay_with_ft ==> is_paid_for(terms@, config.burn_address@)
        },
{
    law_who_is_refused(*config, terms@);
}

/// The same of the refusal of terms.
pub proof fn law_who_is_refused(config: DConfig, terms: TermsView)
    ensures
        refusal(config, terms) is None <==> {
            &&& is_one_of(config.whitelisted_contracts@, terms.receiver_id)
            &&& config.use_whitelisted_delegate_action_receiver_ids && !config.use_fastauth_features
                ==> is_one_of(config.whitelisted_delegate_action_receiver_ids@, terms.sender_id)
            &&& config.use_pay_with_ft ==> is_paid_for(terms, config.burn_address@)
        },
{
}

/// A refusal is the client's fault and says what is missing, the receiver before the sender and the
/// sender before the payment.
pub proof fn law_refusals_name_the_reason(
    config: &DConfig,
    terms: &Terms,
    result: Result<(), RelayError>,
)
    requires
        call_ensures(check_delegate_action, (config, terms), result),
    ensures
        result matches Err(err) ==> {
            let receiver_is_listed = is_one_of(config.whitelisted_contracts@, terms.receiver_id@);
            let sender_is_allowed = is_one_of(
                config.whitelisted_delegate_action_receiver_ids@,
                terms.sender_id@,
            ) || !config.use_whitelisted_delegate_action_receiver_ids
                || config.use_fastauth_features;
            &&& err.status_code == 400
            &&& !receiver_is_listed ==> err.message@ == "Delegate Action receiver_id "@
                + terms.receiver_id@ + " is not whitelisted"@
            &&& receiver_is_listed && !sender_is_allowed ==> err.message@
                == "Delegate Action receiver_id "@ + terms.receiver_id@ + " or sender_id "@
                + terms.sender_id@ + " is not whitelisted"@
            &&& receiver_is_listed && sender_is_allowed ==> err.message@
                == "No treasury payment found in this transaction"@
        },
{
}

/// With the other checks off, a delegate action for any of the contracts passes.
pub proof fn law_any_listed_receiver_passes(config: DConfig, terms: TermsView, i: int)
    requires
        0 <= i < config.whitelisted_contracts@.len(),
        config.whitelisted_contracts@[i]@ == terms.receiver_id,
        !config.use_whitelisted_delegate_action_receiver_ids,
        !config.use_pay_with_ft,
    ensures
        refusal(config, terms) is None,
{
}

/// Where relaying has to be paid for, a delegate action without a payment is done with at once,
/// whatever else is configured, the database included.
pub proof fn law_unpaid_is_refused(config: DConfig, terms: TermsView, payload: Seq<u8>)
    requires
        config.use_pay_with_ft,
        forall|i: int|
            0 <= i < terms.actions.len() ==> !pays_treasury(
                #[trigger] terms.actions[i],
                config.burn_address@,
            ),
    ensures
        first_step(config, terms, payload) matches ProcessView::Done(Err(err)) && err.0 == 400,
{
}

/// One payment is enough, wherever it stands: where the receiver and the sender are allowed, an
/// action that pays lets a delegate action pass.
pub proof fn law_one_payment_is_enough(config: DConfig, terms: TermsView, i: int)
    requires
        is_one_of(config.whitelisted_contracts@, terms.receiver_id),
        is_one_of(config.whitelisted_delegate_action_receiver_ids@, terms.sender_id),
        0 <= i < terms.actions.len(),
        pays_treasury(terms.actions[i], config.burn_address@),
    ensures
        refusal(config, terms) is None,
{
}

/// The FastAuth rule lets a sender of the list do anything, and every other sender only add or
/// delete, as the first action, a key of their own account. There must be an action.
pub proof fn law_fastauth_rule(config: &DConfig, terms: &Terms, result: Result<(), RelayError>)
    requires
        call_ensures(check_fastauth, (config, terms), result),
    ensures
        result is Ok <==> {
            &&& terms.actions@.len() > 0
            &&& is_one_of(config.whitelisted_delegate_action_receiver_ids@, terms.sender_id@) || (
            terms.sender_id@ == terms.receiver_id@ && (terms.actions@[0] is AddKey
                || terms.actions@[0] is DeleteKey))
        },
        result matches Err(err) ==> err.status_code == 400,
        result is Err && terms.actions@.len() == 0 ==> result->Err_0.message@
            == "DelegateAction must have at least one NonDelegateAction"@,
        result is Err && terms.actions@.len() > 0 ==> result->Err_0.message@
            == "Delegate Action receiver_id "@ + terms.receiver_id@ + " or sender_id "@
            + terms.sender_id@
            + " is not whitelisted OR (they do not match AND the NonDelegateAction is not AddKey or DeleteKey)"@,
{
    if terms.actions@.len() > 0 {
        assert(terms@.actions[0] == terms.actions@[0]@);
    }
}

/// A relay holds what was asked for: it goes to the sender, carries the payload and is signed by the
/// relayer's own account.
pub open spec fn relays(
    config: DConfig,
    sender_id: Seq<char>,
    payload: Seq<u8>,
    relay: PendingRelay,
) -> bool {
    &&& relay.sender_id@ == sender_id
    &&& relay.payload@ == payload
    &&& relay.signer_account_id@ == config.relayer_account_id@
}

/// A step starts the relay of some terms: it is done with where they are refused, and otherwise
/// looks up the sender's allowance with the database in use and sends without it.
pub open spec fn starts(
    config: DConfig,
    terms: TermsView,
    payload: Seq<u8>,
    step: ProcessStep,
) -> bool {
    match refusal(config, terms) {
        Some(err) => step matches ProcessStep::Done(Err(answered)) && answered.status_code == err.0
            && answered.message@ == err.1,
        None => if config.use_redis {
            step matches ProcessStep::GetRemainingAllowance(relay) && relays(
                config,
                terms.sender_id,
                payload,
                relay,
            )
        } else {
            step matches ProcessStep::SendTransaction(relay, remaining) && remaining is None
                && relays(config, terms.sender_id, payload, relay)
        },
    }
}

/// A relay starts with the checks, and what it then carries to the sender is the payload as it came.
/// The endpoint for JSON starts it in the same way.
pub proof fn law_relay_starts(
    config: &DConfig,
    signed: SignedDelegateAction,
    step: ProcessStep,
    meta_step: ProcessStep,
)
    requires
        call_ensures(process_signed_delegate_action, (config, signed), step),
        call_ensures(send_meta_tx, (config, signed), meta_step),
    ensures
        starts(*config, signed.terms@, signed.payload@, step),
        starts(*config, signed.terms@, signed.payload@, meta_step),
{
}

/// The endpoint for Borsh starts the relay of what its bytes are decoded to, with these bytes as the
/// payload. Bytes that are not decoded are answered 400 with the decoder's error.
pub proof fn law_bytes_start_a_relay(
    config: &DConfig,
    data: &Vec<u8>,
    started: Result<ProcessStep, Response>,
    checked: Option<Result<ProcessStep, Response>>,
)
    requires
        call_ensures(relay, (config, data), started),
        call_ensures(relay_checked, (config, data), checked),
    ensures
        borsh_terms(data@) matches Ok(terms) ==> (started matches Ok(step) && starts(
            *config,
            terms,
            data@,
            step,
        )),
        borsh_terms(data@) matches Err(err) ==> (started matches Err(response)
            && response.status_code == 400 && response.body@
            == "Error deserializing payload data object: "@ + debugged(err)),
        checked is None <==> borsh_terms(data@) is Ok && !valid_account_id(
            config.relayer_account_id@,
        ),
        checked matches Some(Ok(step)) ==> (borsh_terms(data@) matches Ok(terms) && starts(
            *config,
            terms,
            data@,
            step,
        )),
        checked matches Some(Err(response)) ==> (borsh_terms(data@) matches Err(err)
            && response.status_code == 400 && response.body@
            == "Error deserializing payload data object: "@ + debugged(err)),
{
}

/// The same of a signed delegate action that is decoded already.
pub proof fn law_decoded_starts_a_relay(
    config: &DConfig,
    decoded: Result<SignedDelegateAction, String>,
    started: Result<ProcessStep, Response>,
)
    requires
        call_ensures(relay_decoded, (config, decoded), started),
    ensures
        decoded matches Ok(signed) ==> (started matches Ok(step) && starts(
            *config,
            signed.terms@,
            signed.payload@,
            step,
        )),
        decoded matches Err(err) ==> (started matches Err(response) && response.status_code == 400
            && response.body@ == "Error deserializing payload data object: "@ + debugged(err@)),
{
}

/// An allowance of ten teragas or more lets the transaction be sent, as it was asked for and with
/// that allowance. A smaller one, or none that could be looked up, is refused with the name of the
/// sender.
pub proof fn law_allowance_must_suffice(
    relay: PendingRelay,
    reply: Result<u64, String>,
    step: ProcessStep,
)
    requires
        call_ensures(process_allowance_read, (relay, reply), step),
    ensures
        reply matches Ok(allowance) && allowance >= 10_000_000_000_000 ==> (step matches
            ProcessStep::SendTransaction(sent, remaining) && remaining == Some(reply->Ok_0)
            && sent.sender_id@ == relay.sender_id@ && sent.payload@ == relay.payload@
            && sent.signer_account_id@ == relay.signer_account_id@),
        (reply matches Ok(allowance) ==> allowance < 10_000_000_000_000) ==> (step matches
            ProcessStep::Done(Err(err)) && err.status_code == 400 && err.message@
            == "AccountId "@ + relay.sender_id@
            + " does not have enough remaining gas allowance."@),
{
}

/// A part stands in a text at a place.
#[verifier::opaque]
pub open spec fn stands_at(text: Seq<char>, at: nat, part: Seq<char>) -> bool {
    at + part.len() <= text.len() && text.subrange(at as int, (at + part.len()) as int) == part
}

/// The report on a transaction is a JSON object that holds the outcomes of the receipts, the outcome
/// of the transaction, the title and the status, one after the other and each as it came.
pub proof fn law_report_holds_everything(execution: &Execution, text: String)
    requires
        call_ensures(status_message_text, (execution,), text),
    ensures
        ({
            let report = text@;
            let receipts = "{\"Receipts Outcome\":"@;
            let transaction = ",\"Transaction Outcome\":"@;
            let message = ",\"message\":\""@;
            let title = if execution.final_status is Failure {
                "Error sending transaction"@
            } else {
                "Relayed and sent transaction"@
            };
            let status = "\",\"status\":"@;
            let at_transaction = receipts.len() + execution.receipts_outcome@.len();
            let at_message = at_transaction + transaction.len()
                + execution.transaction_outcome@.len();
            let at_status = at_message + message.len() + title.len();
            let at_end = at_status + status.len() + execution.status@.len();
            &&& report.len() == at_end + "}"@.len()
            &&& stands_at(report, 0, receipts)
            &&& stands_at(report, receipts.len(), execution.receipts_outcome@)
            &&& stands_at(report, at_transaction, transaction)
            &&& stands_at(
                report,
                at_transaction + transaction.len(),
                execution.transaction_outcome@,
            )
            &&& stands_at(report, at_message, message)
            &&& stands_at(report, at_message + message.len(), title)
            &&& stands_at(report, at_status, status)
            &&& stands_at(report, at_status + status.len(), execution.status@)
            &&& stands_at(report, at_end, "}"@)
        }),
{
    let title = if execution.final_status is Failure {
        "Error sending transaction"@
    } else {
        "Relayed and sent transaction"@
    };
    lemma_parts_stand(
        "{\"Receipts Outcome\":"@,
        execution.receipts_outcome@,
        ",\"Transaction Outcome\":"@,
        execution.transaction_outcome@,
        ",\"message\":\""@,
        title,
        "\",\"status\":"@,
        execution.status@,
        "}"@,
    );
}

proof fn lemma_parts_stand(
    a: Seq<char>,
    b: Seq<char>,
    c: Seq<char>,
    d: Seq<char>,
    e: Seq<char>,
    f: Seq<char>,
    g: Seq<char>,
    h: Seq<char>,
    i: Seq<char>,
)
    ensures
        ({
            let text = a + b + c + d + e + f + g + h + i;
            let at_c = a.len() + b.len();
            let at_e = at_c + c.len() + d.len();
            let at_g = at_e + e.len() + f.len();
            let at_i = at_g + g.len() + h.len();
            &&& text.len() == at_i + i.len()
            &&& stands_at(text, 0, a)
            &&& stands_at(text, a.len(), b)
            &&& stands_at(text, at_c, c)
            &&& stands_at(text, at_c + c.len(), d)
            &&& stands_at(text, at_e, e)
            &&& stands_at(text, at_e + e.len(), f)
            &&& stands_at(text, at_g, g)
            &&& stands_at(text, at_g + g.len(), h)
            &&& stands_at(text, at_i, i)
        }),
{
    lemma_part_is_appended(Seq::empty(), a);
    assert(Seq::<char>::empty() + a == a);
    lemma_part_is_appended(a, b);
    lemma_part_is_appended(a + b, c);
    lemma_part_is_appended(a + b + c, d);
    lemma_part_is_appended(a + b + c + d, e);
    lemma_part_is_appended(a + b + c + d + e, f);
    lemma_part_is_appended(a + b + c + d + e + f, g);
    lemma_part_is_appended(a + b + c + d + e + f + g, h);
    lemma_part_is_appended(a + b + c + d + e + f + g + h, i);
}

/// What stands in a text stands in it after more was appended, and so does what was appended.
proof fn lemma_part_is_appended(text: Seq<char>, more: Seq<char>)
    ensures
        (text + more).len() == text.len() + more.len(),
        stands_at(text + more, text.len(), more),
        forall|at: nat, part: Seq<char>| #[trigger]
            stands_at(text, at, part) ==> stands_at(text + more, at, part),
{
    reveal(stands_at);
    assert((text + more).subrange(text.len() as int, (text.len() + more.len()) as int) == more);
    assert forall|at: nat, part: Seq<char>| #[trigger] stands_at(text, at, part) implies stands_at(
        text + more,
        at,
        part,
    ) by {
        assert((text + more).subrange(at as int, (at + part.len()) as int) == text.subrange(
            at as int,
            (at + part.len()) as int,
        ));
    }
}

/// The report determines what it reports on: executions that differ only in the outcomes of the
/// receipts have different reports, and so have those that differ only in the outcome of the
/// transaction or only in the status.
pub proof fn law_report_tells_executions_apart(
    first: &Execution,
    second: &Execution,
    first_text: String,
    second_text: String,
)
    requires
        call_ensures(status_message_text, (first,), first_text),
        call_ensures(status_message_text, (second,), second_text),
        first.final_status is Failure <==> second.final_status is Failure,
        first_text@ == second_text@,
    ensures
        first.transaction_outcome@ == second.transaction_outcome@ && first.status@ == second.status@
            ==> first.receipts_outcome@ == second.receipts_outcome@,
        first.receipts_outcome@ == second.receipts_outcome@ && first.status@ == second.status@
            ==> first.transaction_outcome@ == second.transaction_outcome@,
        first.receipts_outcome@ == second.receipts_outcome@ && first.transaction_outcome@
            == second.transaction_outcome@ ==> first.status@ == second.status@,
{
    reveal(stands_at);
    law_report_holds_everything(first, first_text);
    law_report_holds_everything(second, second_text);
}

/// A transaction that was not sent is an error of the relayer's side, with what went wrong.
pub proof fn law_unsent_is_an_error(
    relay: PendingRelay,
    remaining: Option<u64>,
    reply: Result<Execution, String>,
    step: ProcessStep,
)
    requires
        call_ensures(process_transaction_sent, (relay, remaining, reply), step),
        reply is Err,
    ensures
        step matches ProcessStep::Done(Err(err)) && err.status_code == 500 && err.message@
            == "Error signing transaction: "@ + reply->Err_0@,
{
}

/// A result is that of an execution: its report, as an error 500 where the transaction failed.
pub open spec fn reports(
    failed: bool,
    report: Seq<char>,
    result: Result<String, RelayError>,
) -> bool {
    match result {
        Ok(text) => !failed && text@ == report,
        Err(err) => failed && err.status_code == 500 && err.message@ == report,
    }
}

/// A transaction that was executed is reported on. Where gas is metered, what it and all its receipts
/// burnt is first taken from the allowance that was found, and what is left is stored for the
/// relayer's own account, whether the transaction failed or not.
pub proof fn law_execution_is_charged_and_reported(
    relay: PendingRelay,
    remaining: Option<u64>,
    execution: Execution,
    step: ProcessStep,
    text: String,
    total: u128,
    left: u64,
)
    requires
        call_ensures(
            process_transaction_sent,
            (relay, remaining, Ok::<Execution, String>(execution)),
            step,
        ),
        call_ensures(status_message_text, (&execution,), text),
        call_ensures(
            calculate_total_gas_burned,
            (execution.transaction_tokens_burnt, &execution.receipts_tokens_burnt),
            total,
        ),
        remaining is Some ==> call_ensures(remaining_allowance, (total, remaining->0), left),
    ensures
        remaining is None ==> (step matches ProcessStep::Done(result) && reports(
            execution.final_status is Failure,
            text@,
            result,
        )),
        remaining is Some ==> (step matches ProcessStep::StoreRemainingAllowance {
            account_id,
            allowance,
            result,
        } && account_id@ == relay.signer_account_id@ && allowance == left && reports(
            execution.final_status is Failure,
            text@,
            result,
        )),
{
}

/// Storing the new allowance does not change what a relay comes to. Where it fails, that is an error
/// of the relayer's side.
pub proof fn law_storing_keeps_the_result(
    result: Result<String, RelayError>,
    reply: Result<(), String>,
    step: ProcessStep,
)
    requires
        call_ensures(process_allowance_stored, (result, reply), step),
    ensures
        reply is Ok ==> match (step, result) {
            (ProcessStep::Done(Ok(text)), Ok(given)) => text@ == given@,
            (ProcessStep::Done(Err(err)), Err(given)) => err.status_code == given.status_code
                && err.message@ == given.message@,
            _ => false,
        },
        reply matches Err(text) ==> (step matches ProcessStep::Done(Err(err)) && err.status_code
            == 500 && err.message@ == "Updating redis remaining allowance errored out: "@
            + text@),
{
}

/// The mathematical value of a step tells which step it is and leaves nothing of it out.
pub proof fn law_steps_are_complete(step: ProcessStep)
    ensures
        step matches ProcessStep::GetRemainingAllowance(relay) ==> (step@ matches
            ProcessView::GetRemainingAllowance(view) && view.sender_id == relay.sender_id@
            && view.payload == relay.payload@ && view.signer_account_id
            == relay.signer_account_id@),
        step matches ProcessStep::SendTransaction(relay, remaining) ==> (step@ matches
            ProcessView::SendTransaction(view, left) && left == remaining && view.sender_id
            == relay.sender_id@ && view.payload == relay.payload@ && view.signer_account_id
            == relay.signer_account_id@),
        step matches ProcessStep::StoreRemainingAllowance { account_id, allowance, result } ==> (
        step@ matches ProcessView::StoreRemainingAllowance {
            account_id: id,
            allowance: left,
            result: outcome,
        } && id == account_id@ && left == allowance && match (result, outcome) {
            (Ok(text), Ok(report)) => report == text@,
            (Err(err), Err(answered)) => answered.0 == err.status_code && answered.1
                == err.message@,
            _ => false,
        }),
        step matches ProcessStep::Done(result) ==> (step@ matches ProcessView::Done(outcome)
            && match (result, outcome) {
            (Ok(text), Ok(report)) => report == text@,
            (Err(err), Err(answered)) => answered.0 == err.status_code && answered.1
                == err.message@,
            _ => false,
        }),
{
}

} // verus!
