//! Which texts are account ids.
use near_primitives::types::AccountId;
use std::str::FromStr;
use vstd::prelude::*;

verus! {

/// A lower case letter or a digit.
pub open spec fn is_id_symbol(c: char) -> bool {
    ('a' <= c && c <= 'z') || ('0' <= c && c <= '9')
}

/// A character that may stand between two symbols of an account id.
pub open spec fn is_id_separator(c: char) -> bool {
    c == '-' || c == '_' || c == '.'
}

/// The account id rules of the NEAR network: between 2 and 64 lower case letters, digits and
/// separators, with a letter or a digit at both ends and no separator next to another.
pub open spec fn valid_account_id(id: Seq<char>) -> bool {
    &&& 2 <= id.len() <= 64
    &&& forall|i: int| 0 <= i < id.len() ==> is_id_symbol(#[trigger] id[i]) || is_id_separator(id[i])
    &&& is_id_symbol(id[0])
    &&& is_id_symbol(id.last())
    &&& forall|i: int, j: int|
        0 <= i && j == i + 1 && j < id.len() ==> is_id_symbol(#[trigger] id[i]) || is_id_symbol(
            #[trigger] id[j],
        )
}

/// Parses a text with `AccountId::from_str` of near-primitives, and tells whether that succeeded.
///
/// Claimed of the call: it succeeds exactly on the texts that keep the account id rules. What it
/// gives back then prints as the text that went in.
#[verifier::external_body]
fn account_id_parses(id: &str) -> (parses: bool)
    ensures
        parses == valid_account_id(id@),
{
    AccountId::from_str(id).is_ok()
}

/// Whether a text is an account id.
pub fn is_account_id(id: &String) -> (valid: bool)
    ensures
        valid == valid_account_id(id@),
{
    account_id_parses(id.as_str())
}

} // verus!
