//! Payments to the treasury: a delegate action may have to hold a function call that transfers
//! tokens to the burn address.
use vstd::prelude::*;

use crate::delegate::{Action, ActionView};

verus! {

/// The error of serde_json.
#[verifier::external_type_specification]
#[verifier::external_body]
pub struct ExJsonError(serde_json::Error);

/// What serde_json reads as the member `key` of a JSON text: an error where the text is not JSON,
/// `None` where the value is no object, has no such member or holds something else than a string
/// there.
pub uninterp spec fn json_string_member(text: Seq<char>, key: Seq<char>) -> Result<
    Option<Seq<char>>,
    (),
>;

/// Reads a string member of a JSON text: `serde_json::from_str` into a `Value`, which is indexed
/// with the key and asked for its string.
///
/// Claimed of the calls: the string, its absence or a failure is a function of the text and the key
/// alone. Nothing is claimed of the error.
#[verifier::external_body]
fn parse_string_member(text: &str, key: &str) -> (member: Result<Option<String>, serde_json::Error>)
    ensures
        match member {
            Ok(Some(s)) => json_string_member(text@, key@) == Ok::<Option<Seq<char>>, ()>(
                Some(s@),
            ),
            Ok(None) => json_string_member(text@, key@) == Ok::<Option<Seq<char>>, ()>(None),
            Err(_) => json_string_member(text@, key@) == Err::<Option<Seq<char>>, ()>(()),
        },
{
    let value: serde_json::Value = serde_json::from_str(text)?;
    Ok(value[key].as_str().map(|s| s.to_string()))
}

/// The text that `String::from_utf8_lossy` reads from bytes.
pub uninterp spec fn utf8_lossy(bytes: Seq<u8>) -> Seq<char>;

/// Reads bytes as text with `String::from_utf8_lossy`.
///
/// Claimed of the call: the text is a function of the bytes alone, and it is the text that the
/// bytes encode where they are valid UTF-8.
#[verifier::external_body]
fn text_from_utf8_lossy(bytes: &Vec<u8>) -> (text: String)
    ensures
        text@ == utf8_lossy(bytes@),
        vstd::utf8::valid_utf8(bytes@) ==> text@ == vstd::utf8::decode_utf8(bytes@),
{
    String::from_utf8_lossy(bytes).into_owned()
}

/// A byte with an upper case ASCII letter made lower case.
pub open spec fn lower(byte: u8) -> u8 {
    if 65 <= byte <= 90 {
        (byte + 32) as u8
    } else {
        byte
    }
}

/// Bytes with their upper case ASCII letters made lower case.
pub open spec fn ascii_lowercase(bytes: Seq<u8>) -> Seq<u8> {
    bytes.map_values(|byte: u8| lower(byte))
}

/// Makes the upper case ASCII letters lower case.
pub fn to_ascii_lowercase(bytes: &Vec<u8>) -> (lowered: Vec<u8>)
    ensures
        lowered@ == ascii_lowercase(bytes@),
{
    let mut lowered: Vec<u8> = Vec::new();
    for i in 0..bytes.len()
        invariant
            lowered@ == ascii_lowercase(bytes@.take(i as int)),
    {
        let byte: u8 = bytes[i];
        if 65 <= byte && byte <= 90 {
            lowered.push(byte + 32);
        } else {
            lowered.push(byte);
        }
        assert(bytes@.take(i + 1) == bytes@.take(i as int).push(byte));
        assert(lowered@ == ascii_lowercase(bytes@.take(i + 1)));
    }
    assert(bytes@.take(bytes@.len() as int) == bytes@);
    lowered
}

/// A text that is not JSON.
#[derive(Clone, Copy, Debug, PartialEq, Eq, Structural)]
pub struct InvalidJson;

/// A member as read from a JSON text, with the text as a sequence.
pub open spec fn member_view(member: Result<Option<String>, InvalidJson>) -> Result<
    Option<Seq<char>>,
    (),
> {
    match member {
        Ok(Some(s)) => Ok(Some(s@)),
        Ok(None) => Ok(None),
        Err(_) => Err(()),
    }
}

/// What the arguments of a function call hold as the member `receiver_id`: they are made lower
/// case, read as text and parsed as JSON.
pub open spec fn receiver_member(args: Seq<u8>) -> Result<Option<Seq<char>>, ()> {
    json_string_member(utf8_lossy(ascii_lowercase(args)), "receiver_id"@)
}

/// Reads the member `receiver_id` of the arguments of a function call.
pub fn parse_receiver_member(args: &Vec<u8>) -> (member: Result<Option<String>, InvalidJson>)
    ensures
        member_view(member) == receiver_member(args@),
{
    let lowered = to_ascii_lowercase(args);
    let text = text_from_utf8_lossy(&lowered);
    match parse_string_member(text.as_str(), "receiver_id") {
        Ok(member) => Ok(member),
        Err(_) => Err(InvalidJson),
    }
}

/// The receiver that a member names: the empty text where there is none.
pub open spec fn payment_receiver(member: Result<Option<Seq<char>>, ()>) -> Seq<char> {
    match member {
        Ok(Some(receiver)) => receiver,
        _ => Seq::empty(),
    }
}

/// Whether a member names the burn address as the receiver.
pub fn names_burn_address(
    member: &Result<Option<String>, InvalidJson>,
    burn_address: &String,
) -> (named: bool)
    ensures
        named == (payment_receiver(member_view(*member)) == burn_address@),
{
    match member {
        Ok(Some(receiver)) => *receiver == *burn_address,
        _ => {
            let none = String::new();
            none == *burn_address
        },
    }
}

/// Whether an action pays to the burn address: a function call whose arguments name it as the
/// receiver.
pub open spec fn pays_treasury(action: ActionView, burn_address: Seq<char>) -> bool {
    match action {
        ActionView::FunctionCall(args) => payment_receiver(receiver_member(args))
            == burn_address,
        _ => false,
    }
}

/// Whether an action pays to the burn address.
pub fn is_treasury_payment(action: &Action, burn_address: &String) -> (pays: bool)
    ensures
        pays == pays_treasury(action@, burn_address@),
{
    match action {
        Action::FunctionCall(args) => {
            let member = parse_receiver_member(args);
            names_burn_address(&member, burn_address)
        },
        _ => false,
    }
}

/// Picks out the actions that pay to the burn address, by their places, in order.
pub fn treasury_payments(actions: &Vec<Action>, burn_address: &String) -> (payments: Vec<usize>)
    ensures
        forall|i: int, j: int| 0 <= i < j < payments@.len() ==> payments@[i] < payments@[j],
        forall|k: usize|
            #[trigger] payments@.contains(k) <==> k < actions@.len() && pays_treasury(
                actions@[k as int]@,
                burn_address@,
            ),
{
    let mut payments: Vec<usize> = Vec::new();
    for n in 0..actions.len()
        invariant
            forall|i: int| 0 <= i < payments@.len() ==> payments@[i] < n,
            forall|i: int, j: int| 0 <= i < j < payments@.len() ==> payments@[i] < payments@[j],
            forall|k: usize|
                #[trigger] payments@.contains(k) <==> k < n && pays_treasury(
                    actions@[k as int]@,
                    burn_address@,
                ),
    {
        let ghost before = payments@;
        if is_treasury_payment(&actions[n], burn_address) {
            payments.push(n);
            assert forall|k: usize| #[trigger]
                payments@.contains(k) <==> before.contains(k) || k == n by {
                assert(payments@.last() == n);
                if before.contains(k) {
                    let i = choose|i: int| 0 <= i < before.len() && before[i] == k;
                    assert(payments@[i] == k);
                }
            }
        }
    }
    payments
}

} // verus!
