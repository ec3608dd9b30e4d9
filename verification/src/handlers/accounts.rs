//! Listing and registering accounts.

use vstd::prelude::*;
use crate::accounts::{
    credentials_match, find_by_username, is_first_named, lemma_find_by_username, page, username_taken, AccountDB,
};
use crate::errors::ActixError;
use crate::hasher::spec_hash_password;
use crate::models::{account_views, Account, AccountData, AccountView, QueryPageOptions};
use crate::persistance::accounts::{create_new_account, inserted_account, is_blank, spec_is_blank};

verus! {

/// The accounts that a listing request asks for: the page that starts at
/// position `(page - 1) * limit`, which is empty where the store ends
/// before it. Page 0 lies before the first page and holds nothing.
pub open spec fn listing(accounts: Seq<AccountView>, opts: QueryPageOptions) -> Seq<AccountView> {
    if opts.spec_page() >= 1 {
        page(accounts, (opts.spec_page() - 1) * opts.spec_limit(), opts.spec_limit() as int)
    } else {
        Seq::empty()
    }
}

/// Copies of the accounts that a listing request asks for, in stored
/// order.
pub fn accounts_list_handler(opts: &QueryPageOptions, accounts: &AccountDB) -> (listed: Vec<Account>)
    ensures
        account_views(listed@) == listing(accounts@, *opts),
{
    match opts.offset() {
        Some(offset) => accounts.list(offset, opts.limit()),
        None => {
            let listed: Vec<Account> = Vec::new();
            proof {
                accounts.lemma_len_fits();
                assert(account_views(listed@) =~= listing(accounts@, *opts));
            }
            listed
        },
    }
}

/// First half of a registration, before the durable store is asked: a
/// taken name is refused, then a blank one; otherwise the digest to store
/// is handed out.
pub fn begin_account_creation(account_data: &AccountData, accounts: &AccountDB) -> (digest: Result<
    String,
    ActixError,
>)
    ensures
        match digest {
            Ok(hash_password) => {
                &&& !username_taken(accounts@, account_data.username@)
                &&& !spec_is_blank(account_data.username@)
                &&& hash_password@ == spec_hash_password(account_data.username@, account_data.password@)
            },
            Err(error) => if username_taken(accounts@, account_data.username@) {
                error == ActixError::SameAccountName
            } else {
                error == ActixError::EmptyAccountName && spec_is_blank(account_data.username@)
            },
        },
{
    if accounts.is_exist(account_data.username.as_str()) {
        return Err(ActixError::SameAccountName);
    }
    let hash_password = accounts.hash_password(account_data.username.as_str(), account_data.password.as_str());
    if is_blank(account_data.username.as_str()) {
        return Err(ActixError::EmptyAccountName);
    }
    Ok(hash_password)
}

/// Second half of a registration, once the durable store has answered
/// with `last_insert_id`: the account is built and mirrored into the
/// store, and a copy of it is the answer. Whenever the answer is an error
/// the store stays as it was.
pub fn finish_account_creation(
    account_data: AccountData,
    hash_password: &str,
    last_insert_id: u64,
    accounts: &mut AccountDB,
) -> (created: Result<Account, ActixError>)
    ensures
        match created {
            Ok(account) => {
                &&& !spec_is_blank(account_data.username@)
                &&& last_insert_id > 0
                &&& !username_taken(old(accounts)@, account_data.username@)
                &&& account@ == inserted_account(account_data.username@, hash_password@, last_insert_id)
                &&& final(accounts)@ == old(accounts)@.push(account@)
            },
            Err(error) => {
                &&& final(accounts)@ == old(accounts)@
                &&& if spec_is_blank(account_data.username@) {
                    error == ActixError::EmptyAccountName
                } else if last_insert_id == 0 {
                    error == ActixError::Unknown
                } else {
                    error == ActixError::SameAccountName && username_taken(
                        old(accounts)@,
                        account_data.username@,
                    )
                }
            },
        },
{
    let account = match create_new_account(account_data, hash_password, last_insert_id) {
        Ok(account) => account,
        Err(error) => { return Err(error); },
    };
    match accounts.add_account(account.clone()) {
        Ok(_) => Ok(account),
        Err(error) => Err(error),
    }
}

/// A registration followed by logins: once an account is registered under
/// a name that was free, its own password matches and names it by the row
/// number it was given; another password matches exactly if it has the
/// same digest; and the name is taken, so that a second registration of it
/// is a conflict.
pub proof fn lemma_registered_account_logs_in(
    accounts: Seq<AccountView>,
    username: Seq<char>,
    password: Seq<char>,
    attempt: Seq<char>,
    last_insert_id: u64,
)
    requires
        !username_taken(accounts, username),
    ensures
        ({
            let digest = spec_hash_password(username, password);
            let after = accounts.push(inserted_account(username, digest, last_insert_id));
            &&& find_by_username(after, username) == Some(accounts.len() as int)
            &&& after[accounts.len() as int].id == last_insert_id
            &&& after[accounts.len() as int].password == digest
            &&& credentials_match(after, username, password)
            &&& credentials_match(after, username, attempt) <==> spec_hash_password(username, attempt) == digest
            &&& username_taken(after, username)
        }),
{
    let digest = spec_hash_password(username, password);
    let after = accounts.push(inserted_account(username, digest, last_insert_id));
    let n = accounts.len() as int;
    assert forall|j: int| 0 <= j < n implies after[j].username != username by {
        assert(after[j] == accounts[j]);
    }
    assert(is_first_named(after, username, n));
    lemma_find_by_username(after, username, n);
}

} // verus!
