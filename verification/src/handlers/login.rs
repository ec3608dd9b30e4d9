//! Logging in.

use vstd::prelude::*;
use crate::accounts::{credentials_match, find_by_username, AccountDB};
use crate::errors::ActixError;
use crate::models::LoginData;

verus! {

/// Checks a login and names the account that tokens are to be issued for.
///
/// A name that no account bears is answered as a wrong password is, with
/// `UnAuthorized`: the answer does not tell which names exist.
pub fn login_handler(login_data: &LoginData, accounts: &AccountDB) -> (id_account: Result<u64, ActixError>)
    ensures
        match id_account {
            Ok(id) => {
                &&& credentials_match(accounts@, login_data.username@, login_data.password@)
                &&& find_by_username(accounts@, login_data.username@) matches Some(i)
                &&& id == accounts@[i].id
            },
            Err(error) => error == ActixError::UnAuthorized && !credentials_match(
                accounts@,
                login_data.username@,
                login_data.password@,
            ),
        },
{
    if !accounts.verify_credentials(login_data.username.as_str(), login_data.password.as_str()) {
        return Err(ActixError::UnAuthorized);
    }
    match accounts.get_account_by_username(login_data.username.as_str()) {
        Ok(account) => Ok(account.id),
        Err(_) => Err(ActixError::UnAuthorized),
    }
}

} // verus!
