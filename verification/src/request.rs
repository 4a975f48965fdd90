//! The bodies of requests, and how they are printed.
use vstd::prelude::*;

use crate::delegate::SignedDelegateAction;
use crate::text::{decimal, decimal_text};

verus! {

/// A request to create an account, together with the delegate action that creates it on chain.
pub struct AccountIdAllowanceOauthSDAJson {
    pub account_id: String,
    /// The allowance in gas.
    pub allowance: u64,
    pub oauth_token: String,
    pub signed_delegate_action: SignedDelegateAction,
}

/// A request to register an account.
pub struct AccountIdAllowanceOauthJson {
    pub account_id: String,
    /// The allowance in gas.
    pub allowance: u64,
    pub oauth_token: String,
}

/// A request to set the allowance of an account.
pub struct AccountIdAllowanceJson {
    pub account_id: String,
    /// The allowance in gas.
    pub allowance: u64,
}

/// A request for the allowance of an account.
pub struct AccountIdJson {
    pub account_id: String,
}

/// A request to set the allowances of all accounts.
pub struct AllowanceJson {
    pub allowance_in_gas: u64,
}

/// An account to be registered, as mathematical values.
pub struct RegistrationView {
    pub account_id: Seq<char>,
    pub allowance: u64,
    pub oauth_token: Seq<char>,
}

impl View for AccountIdAllowanceOauthJson {
    type V = RegistrationView;

    open spec fn view(&self) -> RegistrationView {
        RegistrationView {
            account_id: self.account_id@,
            allowance: self.allowance,
            oauth_token: self.oauth_token@,
        }
    }
}

impl AccountIdAllowanceOauthSDAJson {
    /// The account to be registered.
    pub open spec fn registration(&self) -> RegistrationView {
        RegistrationView {
            account_id: self.account_id@,
            allowance: self.allowance,
            oauth_token: self.oauth_token@,
        }
    }

    /// Prints the request. Of the delegate action the signature is shown.
    pub fn to_string(&self) -> (text: String)
        ensures
            text@ == "account_id: "@ + self.account_id@ + ", allowance in Gas: "@ + decimal(
                self.allowance as nat,
            ) + ", oauth_token: "@ + self.oauth_token@ + ", signed_delegate_action signature: "@
                + self.signed_delegate_action.terms.signature@,
    {
        let allowance = decimal_text(self.allowance);
        let mut text = "account_id: ".to_owned();
        text.append(self.account_id.as_str());
        text.append(", allowance in Gas: ");
        text.append(allowance.as_str());
        text.append(", oauth_token: ");
        text.append(self.oauth_token.as_str());
        text.append(", signed_delegate_action signature: ");
        text.append(self.signed_delegate_action.terms.signature.as_str());
        text
    }
}

impl AccountIdAllowanceOauthJson {
    /// Prints the request.
    pub fn to_string(&self) -> (text: String)
        ensures
            text@ == "account_id: "@ + self.account_id@ + ", allowance in Gas: "@ + decimal(
                self.allowance as nat,
            ) + ", oauth_token: "@ + self.oauth_token@,
    {
        let allowance = decimal_text(self.allowance);
        let mut text = "account_id: ".to_owned();
        text.append(self.account_id.as_str());
        text.append(", allowance in Gas: ");
        text.append(allowance.as_str());
        text.append(", oauth_token: ");
        text.append(self.oauth_token.as_str());
        text
    }
}

impl AccountIdAllowanceJson {
    /// Prints the request.
    pub fn to_string(&self) -> (text: String)
        ensures
            text@ == "account_id: "@ + self.account_id@ + ", allowance in Gas: "@ + decimal(
                self.allowance as nat,
            ),
    {
        let allowance = decimal_text(self.allowance);
        let mut text = "account_id: ".to_owned();
        text.append(self.account_id.as_str());
        text.append(", allowance in Gas: ");
        text.append(allowance.as_str());
        text
    }
}

impl AccountIdJson {
    /// Prints the request.
    pub fn to_string(&self) -> (text: String)
        ensures
            text@ == "account_id: "@ + self.account_id@,
    {
        let mut text = "account_id: ".to_owned();
        text.append(self.account_id.as_str());
        text
    }
}

impl AllowanceJson {
    /// Prints the request.
    pub fn to_string(&self) -> (text: String)
        ensures
            text@ == "allowance in Gas: "@ + decimal(self.allowance_in_gas as nat),
    {
        let allowance = decimal_text(self.allowance_in_gas);
        let mut text = "allowance in Gas: ".to_owned();
        text.append(allowance.as_str());
        text
    }
}

} // verus!
