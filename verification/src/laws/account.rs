//! Account ids.
use vstd::prelude::*;

use crate::account::{is_account_id, is_id_symbol, valid_account_id};

verus! {

/// A lower case ASCII letter or a decimal digit, by its code.
pub open spec fn alphanumeric(c: char) -> bool {
    97 <= c as int <= 122 || 48 <= c as int <= 57
}

/// An account id has between 2 and 64 characters, each a lower case letter, a digit or one of `-`,
/// `_` and `.`, begins and ends with a letter or a digit, and has no two of the three side by side.
/// Every such text is an account id.
pub proof fn law_account_ids(id: &String, valid: bool)
    requires
        call_ensures(is_account_id, (id,), valid),
    ensures
        valid ==> 2 <= id@.len() <= 64,
        valid ==> alphanumeric(id@[0]) && alphanumeric(id@[id@.len() - 1]),
        valid ==> forall|i: int|
            0 <= i < id@.len() && !alphanumeric(#[trigger] id@[i]) ==> (id@[i] == '-' || id@[i]
                == '_' || id@[i] == '.') && 0 < i < id@.len() - 1 && alphanumeric(id@[i - 1])
                && alphanumeric(id@[i + 1]),
        2 <= id@.len() <= 64 && (forall|i: int|
            0 <= i < id@.len() && !alphanumeric(#[trigger] id@[i]) ==> (id@[i] == '-' || id@[i]
                == '_' || id@[i] == '.') && 0 < i < id@.len() - 1 && alphanumeric(id@[i - 1]))
            ==> valid,
{
    law_account_id_texts(id@);
}

/// The same of the texts that are account ids.
pub proof fn law_account_id_texts(id: Seq<char>)
    ensures
        valid_account_id(id) ==> 2 <= id.len() <= 64,
        valid_account_id(id) ==> alphanumeric(id[0]) && alphanumeric(id[id.len() - 1]),
        valid_account_id(id) ==> forall|i: int|
            0 <= i < id.len() && !alphanumeric(#[trigger] id[i]) ==> (id[i] == '-' || id[i] == '_'
                || id[i] == '.') && 0 < i < id.len() - 1 && alphanumeric(id[i - 1])
                && alphanumeric(id[i + 1]),
        2 <= id.len() <= 64 && (forall|i: int|
            0 <= i < id.len() && !alphanumeric(#[trigger] id[i]) ==> (id[i] == '-' || id[i] == '_'
                || id[i] == '.') && 0 < i < id.len() - 1 && alphanumeric(id[i - 1]))
            ==> valid_account_id(id),
{
    if valid_account_id(id) {
        assert forall|i: int| 0 <= i < id.len() && !alphanumeric(#[trigger] id[i]) implies (id[i]
            == '-' || id[i] == '_' || id[i] == '.') && 0 < i < id.len() - 1 && alphanumeric(
            id[i - 1],
        ) && alphanumeric(id[i + 1]) by {}
    }
}

/// Two account ids with a dot between them are one, as long as the length allows it: accounts have
/// accounts below them.
pub proof fn law_accounts_below_accounts(id: Seq<char>, parent: Seq<char>)
    requires
        valid_account_id(id),
        valid_account_id(parent),
        id.len() + 1 + parent.len() <= 64,
    ensures
        valid_account_id(id + seq!['.'] + parent),
{
    let below = id + seq!['.'] + parent;
    assert forall|i: int, j: int| 0 <= i && j == i + 1 && j < below.len() implies is_id_symbol(
        #[trigger] below[i],
    ) || is_id_symbol(#[trigger] below[j]) by {
        if j < id.len() {
            assert(below[i] == id[i] && below[j] == id[j]);
        } else if j == id.len() {
            assert(below[i] == id.last());
        } else if i == id.len() {
            assert(below[j] == parent[0]);
        } else {
            assert(below[i] == parent[i - id.len() - 1] && below[j] == parent[j - id.len() - 1]);
        }
    }
}

} // verus!
