//! Signed delegate actions: what a user asks the relayer to forward.
use near_primitives::borsh::BorshDeserialize;
use near_primitives::delegate_action::SignedDelegateAction as NearSigned;
use near_primitives::transaction::Action as Near;
use vstd::prelude::*;

verus! {

/// One of the actions that a delegate action asks for. Of a function call the relayer reads the
/// arguments; of the others only which they are.
pub enum Action {
    CreateAccount,
    DeployContract,
    FunctionCall(Vec<u8>),
    Transfer,
    Stake,
    AddKey,
    DeleteKey,
    DeleteAccount,
    Delegate,
}

/// An [`Action`] with its arguments as a sequence.
pub enum ActionView {
    CreateAccount,
    DeployContract,
    FunctionCall(Seq<u8>),
    Transfer,
    Stake,
    AddKey,
    DeleteKey,
    DeleteAccount,
    Delegate,
}

impl View for Action {
    type V = ActionView;

    open spec fn view(&self) -> ActionView {
        match self {
            Action::CreateAccount => ActionView::CreateAccount,
            Action::DeployContract => ActionView::DeployContract,
            Action::FunctionCall(args) => ActionView::FunctionCall(args@),
            Action::Transfer => ActionView::Transfer,
            Action::Stake => ActionView::Stake,
            Action::AddKey => ActionView::AddKey,
            Action::DeleteKey => ActionView::DeleteKey,
            Action::DeleteAccount => ActionView::DeleteAccount,
            Action::Delegate => ActionView::Delegate,
        }
    }
}

/// What the relayer reads of a signed delegate action.
pub struct Terms {
    /// The account that signed the delegate action.
    pub sender_id: String,
    /// The account that the actions are meant for.
    pub receiver_id: String,
    pub actions: Vec<Action>,
    /// The signature, as it is printed.
    pub signature: String,
}

/// The [`Terms`] as mathematical values.
pub struct TermsView {
    pub sender_id: Seq<char>,
    pub receiver_id: Seq<char>,
    pub actions: Seq<ActionView>,
    pub signature: Seq<char>,
}

impl View for Terms {
    type V = TermsView;

    open spec fn view(&self) -> TermsView {
        TermsView {
            sender_id: self.sender_id@,
            receiver_id: self.receiver_id@,
            actions: self.actions@.map_values(|a: Action| a@),
            signature: self.signature@,
        }
    }
}

/// A signed delegate action: its terms, and the bytes that go into the transaction.
pub struct SignedDelegateAction {
    pub terms: Terms,
    /// The Borsh encoding of the whole signed delegate action.
    pub payload: Vec<u8>,
}

/// What `SignedDelegateAction::try_from_slice` of near-primitives reads from a Borsh encoding: the
/// terms, or the text of the error.
pub uninterp spec fn borsh_terms(data: Seq<u8>) -> Result<TermsView, Seq<char>>;

/// The bytes encode a signed delegate action with these terms.
pub open spec fn encodes(payload: Seq<u8>, terms: TermsView) -> bool {
    borsh_terms(payload) == Ok::<TermsView, Seq<char>>(terms)
}

impl SignedDelegateAction {
    /// What goes into the transaction is what the terms were read from.
    pub open spec fn well_formed(&self) -> bool {
        encodes(self.payload@, self.terms@)
    }
}

/// Decodes a signed delegate action with `SignedDelegateAction::try_from_slice` of near-primitives.
///
/// Claimed of the call: the terms, or the error's text, are a function of the bytes alone.
#[verifier::external_body]
fn decode_terms(data: &Vec<u8>) -> (decoded: Result<Terms, String>)
    ensures
        match decoded {
            Ok(terms) => borsh_terms(data@) == Ok::<TermsView, Seq<char>>(terms@),
            Err(text) => borsh_terms(data@) == Err::<TermsView, Seq<char>>(text@),
        },
{
    let signed = NearSigned::try_from_slice(data).map_err(|e| e.to_string())?;
    let delegate = signed.delegate_action;
    let actions = delegate.get_actions().into_iter().map(|action| match action {
        Near::CreateAccount(_) => Action::CreateAccount,
        Near::DeployContract(_) => Action::DeployContract,
        Near::FunctionCall(call) => Action::FunctionCall(call.args),
        Near::Transfer(_) => Action::Transfer,
        Near::Stake(_) => Action::Stake,
        Near::AddKey(_) => Action::AddKey,
        Near::DeleteKey(_) => Action::DeleteKey,
        Near::DeleteAccount(_) => Action::DeleteAccount,
        Near::Delegate(_) => Action::Delegate,
    }).collect();
    Ok(Terms { sender_id: delegate.sender_id.into(), receiver_id: delegate.receiver_id.into(),
        actions, signature: signed.signature.to_string() })
}

/// Decodes a signed delegate action from its Borsh encoding.
pub fn decode_signed_delegate_action(data: &Vec<u8>) -> (decoded: Result<
    SignedDelegateAction,
    String,
>)
    ensures
        match decoded {
            Ok(signed) => signed.well_formed() && signed.payload@ == data@,
            Err(text) => borsh_terms(data@) == Err::<TermsView, Seq<char>>(text@),
        },
{
    match decode_terms(data) {
        Ok(terms) => Ok(SignedDelegateAction { terms, payload: data.clone() }),
        Err(text) => Err(text),
    }
}

} // verus!
