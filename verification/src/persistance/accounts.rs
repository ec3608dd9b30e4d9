//! Registering an account: which names are refused, and what account a
//! successful insertion into the durable store stands for.

use vstd::prelude::*;
use crate::errors::ActixError;
use crate::models::{Account, AccountData, AccountView};

verus! {

/// Whether `c` has the Unicode property `White_Space`.
pub open spec fn is_whitespace(c: char) -> bool {
    let code = c as u32;
    ||| 0x09 <= code <= 0x0D
    ||| code == 0x20
    ||| code == 0x85
    ||| code == 0xA0
    ||| code == 0x1680
    ||| 0x2000 <= code <= 0x200A
    ||| code == 0x2028
    ||| code == 0x2029
    ||| code == 0x202F
    ||| code == 0x205F
    ||| code == 0x3000
}

/// Whether nothing is left of `text` once white space is trimmed off.
pub open spec fn spec_is_blank(text: Seq<char>) -> bool {
    forall|k: int| 0 <= k < text.len() ==> is_whitespace(#[trigger] text[k])
}

/// The account that row `last_insert_id` of the durable store stands for.
pub open spec fn inserted_account(username: Seq<char>, hash_password: Seq<char>, last_insert_id: u64) -> AccountView {
    AccountView { id: last_insert_id, username, password: hash_password }
}

fn char_is_whitespace(c: char) -> (white: bool)
    ensures
        white == is_whitespace(c),
{
    let code: u32 = c as u32;
    (0x09 <= code && code <= 0x0D) || code == 0x20 || code == 0x85 || code == 0xA0 || code == 0x1680 || (0x2000
        <= code && code <= 0x200A) || code == 0x2028 || code == 0x2029 || code == 0x202F || code == 0x205F
        || code == 0x3000
}

/// Whether nothing is left of `text` once white space is trimmed off.
pub fn is_blank(text: &str) -> (blank: bool)
    ensures
        blank == spec_is_blank(text@),
{
    let mut blank = true;
    let chars = text.chars();
    for c in it: chars
        invariant
            it.seq() == text@,
            blank == (forall|k: int| 0 <= k < it.index() ==> is_whitespace(#[trigger] text@[k])),
    {
        if !char_is_whitespace(c) {
            blank = false;
        }
    }
    blank
}

/// Builds the account that a registration has created, from what the
/// durable store answered to its insertion: `last_insert_id` is the row
/// number the store reports, 0 where it reports none.
///
/// A blank name is refused whatever the store answered; the caller asks
/// [`is_blank`] before it inserts anything.
pub fn create_new_account(account: AccountData, hash_password: &str, last_insert_id: u64) -> (created: Result<
    Account,
    ActixError,
>)
    ensures
        match created {
            Ok(new_account) => {
                &&& !spec_is_blank(account.username@)
                &&& last_insert_id > 0
                &&& new_account@ == inserted_account(account.username@, hash_password@, last_insert_id)
            },
            Err(error) => if spec_is_blank(account.username@) {
                error == ActixError::EmptyAccountName
            } else {
                error == ActixError::Unknown && last_insert_id == 0
            },
        },
{
    if is_blank(account.username.as_str()) {
        return Err(ActixError::EmptyAccountName);
    }
    if last_insert_id > 0 {
        Ok(Account { id: last_insert_id, password: hash_password.to_owned(), username: account.username })
    } else {
        Err(ActixError::Unknown)
    }
}

} // verus!
