//! Decoding signed delegate actions.
use vstd::prelude::*;

use crate::delegate::{
    borsh_terms, decode_signed_delegate_action, Action, ActionView, SignedDelegateAction, Terms,
};

verus! {

/// What is decoded depends on the bytes alone, which become the payload as they are; bytes that are
/// decoded once are decoded always, and so are errors.
pub proof fn law_decoding_is_a_function(
    data: &Vec<u8>,
    same: &Vec<u8>,
    first: Result<SignedDelegateAction, String>,
    second: Result<SignedDelegateAction, String>,
)
    requires
        call_ensures(decode_signed_delegate_action, (data,), first),
        call_ensures(decode_signed_delegate_action, (same,), second),
        data@ == same@,
    ensures
        first is Ok <==> borsh_terms(data@) is Ok,
        first is Ok <==> second is Ok,
        first matches Ok(signed) ==> signed.payload@ == data@ && borsh_terms(data@)->Ok_0
            == signed.terms@ && second->Ok_0.terms@ == signed.terms@,
        first matches Err(text) ==> borsh_terms(data@)->Err_0 == text@ && second->Err_0@ == text@,
{
}

/// The mathematical value of terms leaves nothing out and keeps the order of the actions.
pub proof fn law_terms_are_complete(terms: Terms)
    ensures
        terms@.sender_id == terms.sender_id@,
        terms@.receiver_id == terms.receiver_id@,
        terms@.signature == terms.signature@,
        terms@.actions.len() == terms.actions@.len(),
        forall|i: int|
            0 <= i < terms.actions@.len() ==> #[trigger] terms@.actions[i] == terms.actions@[i]@,
{
}

/// The mathematical value of an action tells which action it is, and the arguments of a function
/// call.
pub proof fn law_actions_are_told_apart(action: Action)
    ensures
        action is CreateAccount <==> action@ is CreateAccount,
        action is DeployContract <==> action@ is DeployContract,
        action is FunctionCall <==> action@ is FunctionCall,
        action is Transfer <==> action@ is Transfer,
        action is Stake <==> action@ is Stake,
        action is AddKey <==> action@ is AddKey,
        action is DeleteKey <==> action@ is DeleteKey,
        action is DeleteAccount <==> action@ is DeleteAccount,
        action is Delegate <==> action@ is Delegate,
        action matches Action::FunctionCall(args) ==> action@ == ActionView::FunctionCall(args@),
{
}

} // verus!
