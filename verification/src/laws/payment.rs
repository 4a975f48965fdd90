//! Payments to the burn address.
use vstd::prelude::*;

use crate::delegate::{Action, ActionView};
use crate::payment::{
    ascii_lowercase, is_treasury_payment, json_string_member, names_burn_address,
    parse_receiver_member, pays_treasury, to_ascii_lowercase, treasury_payments, utf8_lossy,
    InvalidJson,
};

verus! {

/// Lowering changes the case of the ASCII letters `A` to `Z` and no other byte, wherever they stand.
pub proof fn law_only_upper_case_is_lowered(bytes: &Vec<u8>, lowered: Vec<u8>)
    requires
        call_ensures(to_ascii_lowercase, (bytes,), lowered),
    ensures
        lowered@.len() == bytes@.len(),
        forall|i: int|
            0 <= i < bytes@.len() && 65 <= #[trigger] bytes@[i] <= 90 ==> lowered@[i] == bytes@[i]
                + 32,
        forall|i: int|
            0 <= i < bytes@.len() && !(65 <= #[trigger] bytes@[i] <= 90) ==> lowered@[i]
                == bytes@[i],
{
    law_lowered_bytes(bytes@);
}

/// The same of byte sequences.
pub proof fn law_lowered_bytes(bytes: Seq<u8>)
    ensures
        ascii_lowercase(bytes).len() == bytes.len(),
        forall|i: int|
            0 <= i < bytes.len() && 65 <= #[trigger] bytes[i] <= 90 ==> ascii_lowercase(bytes)[i]
                == bytes[i] + 32,
        forall|i: int|
            0 <= i < bytes.len() && !(65 <= #[trigger] bytes[i] <= 90) ==> ascii_lowercase(bytes)[i]
                == bytes[i],
{
}

/// The receiver is read from the arguments of a function call in lower case, as the member
/// `receiver_id` of the JSON text that they are.
pub proof fn law_receiver_is_read(
    args: &Vec<u8>,
    lowered: Vec<u8>,
    member: Result<Option<String>, InvalidJson>,
)
    requires
        call_ensures(to_ascii_lowercase, (args,), lowered),
        call_ensures(parse_receiver_member, (args,), member),
    ensures
        ({
            let read = json_string_member(utf8_lossy(lowered@), "receiver_id"@);
            &&& member is Err <==> read is Err
            &&& member matches Ok(Some(receiver)) ==> (read matches Ok(Some(text)) && receiver@
                == text)
            &&& member matches Ok(None) ==> (read matches Ok(None))
        }),
{
}

/// A member names the burn address where it is that address to the letter. Arguments without a
/// receiver name no account.
pub proof fn law_burn_address_is_named(
    member: &Result<Option<String>, InvalidJson>,
    burn_address: &String,
    named: bool,
)
    requires
        call_ensures(names_burn_address, (member, burn_address), named),
    ensures
        *member matches Ok(Some(receiver)) ==> named == (receiver@ == burn_address@),
        burn_address@.len() > 0 && !(*member matches Ok(Some(_))) ==> !named,
{
}

/// A payment is a function call, and which one is told by its arguments alone: they hold the burn
/// address as the member `receiver_id`. Every such call is a payment.
pub proof fn law_what_a_payment_is(args: Seq<u8>, burn_address: Seq<char>, lowered: Seq<u8>)
    requires
        burn_address.len() > 0,
        lowered.len() == args.len(),
        forall|i: int|
            0 <= i < args.len() ==> #[trigger] lowered[i] == if 65 <= args[i] <= 90 {
                args[i] + 32
            } else {
                args[i] as int
            },
    ensures
        pays_treasury(ActionView::FunctionCall(args), burn_address) <==> json_string_member(
            utf8_lossy(lowered),
            "receiver_id"@,
        ) == Ok::<Option<Seq<char>>, ()>(Some(burn_address)),
{
    law_lowered_bytes(args);
    assert(ascii_lowercase(args) == lowered);
}

/// Only function calls pay.
pub proof fn law_only_calls_pay(action: ActionView, burn_address: Seq<char>)
    ensures
        pays_treasury(action, burn_address) ==> action is FunctionCall,
{
}

/// An action is taken for a payment where it is a function call whose receiver is the burn address.
pub proof fn law_payments_are_recognised(
    action: &Action,
    burn_address: &String,
    pays: bool,
    args: &Vec<u8>,
    member: Result<Option<String>, InvalidJson>,
    named: bool,
)
    requires
        call_ensures(is_treasury_payment, (action, burn_address), pays),
        call_ensures(parse_receiver_member, (args,), member),
        call_ensures(names_burn_address, (&member, burn_address), named),
    ensures
        !(action is FunctionCall) ==> !pays,
        *action matches Action::FunctionCall(given) && given@ == args@ ==> pays == named,
{
}

/// Every payment is picked out, wherever it stands, once and in order, and nothing else is.
pub proof fn law_payments_are_picked_out(
    actions: &Vec<Action>,
    burn_address: &String,
    payments: Vec<usize>,
    k: usize,
    pays: bool,
)
    requires
        call_ensures(treasury_payments, (actions, burn_address), payments),
        k < actions@.len(),
        call_ensures(is_treasury_payment, (&actions@[k as int], burn_address), pays),
    ensures
        pays <==> exists|i: int| 0 <= i < payments@.len() && #[trigger] payments@[i] == k,
        forall|i: int| 0 <= i < payments@.len() ==> #[trigger] payments@[i] < actions@.len(),
        forall|i: int, j: int|
            0 <= i < j < payments@.len() ==> #[trigger] payments@[i] < #[trigger] payments@[j],
{
    assert(payments@.contains(k) <==> pays);
    assert forall|i: int| 0 <= i < payments@.len() implies #[trigger] payments@[i]
        < actions@.len() by {
        assert(payments@.contains(payments@[i]));
    }
}

} // verus!
