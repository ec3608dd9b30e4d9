//! The in-memory account store.
//!
//! The store is a sequence of accounts in the order of their insertion. It
//! mirrors a durable store; whoever shares it between workers guards it
//! with a lock and holds that only for one call.

use vstd::prelude::*;
use crate::errors::ActixError;
use crate::hasher::{hash_password, is_lower_hex, spec_hash_password};
use crate::models::{account_views, Account, AccountView};

verus! {

/// Whether `i` is the position of the first account named `username`.
pub open spec fn is_first_named(accounts: Seq<AccountView>, username: Seq<char>, i: int) -> bool {
    &&& 0 <= i < accounts.len()
    &&& accounts[i].username == username
    &&& forall|j: int| 0 <= j < i ==> accounts[j].username != username
}

/// Whether `i` is the position of the first account with number `id`.
pub open spec fn is_first_with_id(accounts: Seq<AccountView>, id: u64, i: int) -> bool {
    &&& 0 <= i < accounts.len()
    &&& accounts[i].id == id
    &&& forall|j: int| 0 <= j < i ==> accounts[j].id != id
}

/// Whether some account is named `username`, letter for letter.
pub open spec fn username_taken(accounts: Seq<AccountView>, username: Seq<char>) -> bool {
    exists|i: int| 0 <= i < accounts.len() && accounts[i].username == username
}

/// The position of the first account named `username`.
pub open spec fn find_by_username(accounts: Seq<AccountView>, username: Seq<char>) -> Option<int> {
    if exists|i: int| is_first_named(accounts, username, i) {
        Some(choose|i: int| is_first_named(accounts, username, i))
    } else {
        None
    }
}

/// The position of the first account with number `id`.
pub open spec fn find_by_id(accounts: Seq<AccountView>, id: u64) -> Option<int> {
    if exists|i: int| is_first_with_id(accounts, id, i) {
        Some(choose|i: int| is_first_with_id(accounts, id, i))
    } else {
        None
    }
}

/// No two accounts share a username.
pub open spec fn usernames_unique(accounts: Seq<AccountView>) -> bool {
    forall|i: int, j: int|
        0 <= i < j < accounts.len() ==> accounts[i].username != accounts[j].username
}

/// Whether the `n`-th of `new_accounts` bears a name that the store holds
/// once those before it are added.
pub open spec fn conflicts_at(accounts: Seq<AccountView>, new_accounts: Seq<AccountView>, n: int) -> bool {
    &&& 0 <= n < new_accounts.len()
    &&& username_taken(accounts + new_accounts.take(n), new_accounts[n].username)
}

/// Whether the `n`-th of `new_accounts` is the first that conflicts.
pub open spec fn is_first_conflict(accounts: Seq<AccountView>, new_accounts: Seq<AccountView>, n: int) -> bool {
    &&& conflicts_at(accounts, new_accounts, n)
    &&& forall|m: int| 0 <= m < n ==> !conflicts_at(accounts, new_accounts, m)
}

/// The store after an attempt to add `account`: unchanged where the name is
/// taken, else with the account at its end.
pub open spec fn added(accounts: Seq<AccountView>, account: AccountView) -> Seq<AccountView> {
    if username_taken(accounts, account.username) {
        accounts
    } else {
        accounts.push(account)
    }
}

/// The store after attempts to add each of `new_accounts` in turn.
pub open spec fn added_all(accounts: Seq<AccountView>, new_accounts: Seq<AccountView>) -> Seq<AccountView>
    decreases new_accounts.len(),
{
    if new_accounts.len() == 0 {
        accounts
    } else {
        added(added_all(accounts, new_accounts.drop_last()), new_accounts.last())
    }
}

/// `account` under another username; number and digest stay.
pub open spec fn with_username(account: AccountView, username: Seq<char>) -> AccountView {
    AccountView { id: account.id, username, password: account.password }
}

/// The store after the first account numbered `id` is renamed; unchanged
/// where there is none.
pub open spec fn renamed(accounts: Seq<AccountView>, id: u64, username: Seq<char>) -> Seq<AccountView> {
    match find_by_id(accounts, id) {
        Some(i) => accounts.update(i, with_username(accounts[i], username)),
        None => accounts,
    }
}

/// Whether `password` is the one of the first account named `username`:
/// whether that account's stored digest is the digest of the two.
pub open spec fn credentials_match(
    accounts: Seq<AccountView>,
    username: Seq<char>,
    password: Seq<char>,
) -> bool {
    match find_by_username(accounts, username) {
        Some(i) => accounts[i].password == spec_hash_password(username, password),
        None => false,
    }
}

/// The page of at most `limit` accounts that starts at position `offset`,
/// in stored order; empty where the store is shorter than `offset`.
pub open spec fn page(accounts: Seq<AccountView>, offset: int, limit: int) -> Seq<AccountView> {
    let start = if offset < accounts.len() { offset } else { accounts.len() as int };
    let end = if start + limit < accounts.len() { start + limit } else { accounts.len() as int };
    accounts.subrange(start, end)
}

/// The in-memory mirror of the accounts.
pub struct AccountDB {
    accounts: Vec<Account>,
}

impl View for AccountDB {
    type V = Seq<AccountView>;

    closed spec fn view(&self) -> Seq<AccountView> {
        account_views(self.accounts@)
    }
}

impl AccountDB {
    /// An empty store.
    pub fn new() -> (store: AccountDB)
        ensures
            store@ == Seq::<AccountView>::empty(),
    {
        let store = AccountDB { accounts: Vec::new() };
        store
    }

    /// Position of the first account named `username`.
    fn position_by_username(&self, username: &String) -> (position: Option<usize>)
        ensures
            match position {
                Some(i) => find_by_username(self@, username@) == Some(i as int) && i < self.accounts.len(),
                None => find_by_username(self@, username@) is None && !username_taken(self@, username@),
            },
    {
        let mut i: usize = 0;
        while i < self.accounts.len()
            invariant
                i <= self.accounts.len(),
                forall|j: int| 0 <= j < i ==> self@[j].username != username@,
            decreases self.accounts.len() - i,
        {
            if self.accounts[i].username == *username {
                proof {
                    lemma_find_by_username(self@, username@, i as int);
                }
                return Some(i);
            }
            i += 1;
        }
        proof {
            lemma_taken_iff_found(self@, username@);
        }
        None
    }

    /// Position of the first account numbered `id`.
    fn position_by_id(&self, id: u64) -> (position: Option<usize>)
        ensures
            match position {
                Some(i) => find_by_id(self@, id) == Some(i as int) && i < self.accounts.len(),
                None => find_by_id(self@, id) is None,
            },
    {
        let mut i: usize = 0;
        while i < self.accounts.len()
            invariant
                i <= self.accounts.len(),
                forall|j: int| 0 <= j < i ==> self@[j].id != id,
            decreases self.accounts.len() - i,
        {
            if self.accounts[i].id == id {
                proof {
                    lemma_find_by_id(self@, id, i as int);
                }
                return Some(i);
            }
            i += 1;
        }
        None
    }

    /// Renames the first account numbered `account_id` and returns a copy
    /// of it as it then stands. Whether another account already bears the
    /// new name is not looked at.
    pub fn update_username(&mut self, account_id: u64, new_username: &str) -> (updated: Result<Account, ActixError>)
        ensures
            final(self)@ == renamed(old(self)@, account_id, new_username@),
            match updated {
                Ok(account) => find_by_id(old(self)@, account_id) matches Some(i)
                    && account@ == with_username(old(self)@[i], new_username@),
                Err(error) => error == ActixError::NotFound && find_by_id(old(self)@, account_id) is None,
            },
    {
        match self.position_by_id(account_id) {
            Some(i) => {
                self.accounts[i].username = new_username.to_owned();
                Ok(self.accounts[i].clone())
            },
            None => Err(ActixError::NotFound),
        }
    }

    /// Adds `new_account` at the end, unless an account of that very name
    /// is there already: then the store stays as it is.
    pub fn add_account(&mut self, new_account: Account) -> (outcome: Result<(), ActixError>)
        ensures
            final(self)@ == added(old(self)@, new_account@),
            match outcome {
                Ok(_) => !username_taken(old(self)@, new_account@.username)
                    && final(self)@ == old(self)@.push(new_account@),
                Err(error) => error == ActixError::SameAccountName
                    && username_taken(old(self)@, new_account@.username)
                    && final(self)@ == old(self)@,
            },
            usernames_unique(old(self)@) ==> usernames_unique(final(self)@),
    {
        let taken = self.position_by_username(&new_account.username).is_some();
        proof {
            lemma_taken_iff_found(self@, new_account@.username);
            if usernames_unique(self@) {
                lemma_added_keeps_usernames_unique(self@, new_account@);
            }
        }
        if taken {
            return Err(ActixError::SameAccountName);
        }
        self.accounts.push(new_account);
        Ok(())
    }

    /// Adds each of `new_accounts` in turn and stops at the first whose
    /// name is taken; the accounts before it stay added.
    pub fn add_accounts(&mut self, new_accounts: Vec<Account>) -> (outcome: Result<(), ActixError>)
        ensures
            match outcome {
                Ok(_) => {
                    &&& forall|n: int| !conflicts_at(old(self)@, account_views(new_accounts@), n)
                    &&& final(self)@ == old(self)@ + account_views(new_accounts@)
                },
                Err(error) => {
                    &&& error == ActixError::SameAccountName
                    &&& exists|n: int|
                        {
                            &&& #[trigger] is_first_conflict(old(self)@, account_views(new_accounts@), n)
                            &&& final(self)@ == old(self)@ + account_views(new_accounts@).take(n)
                        }
                },
            },
            usernames_unique(old(self)@) ==> usernames_unique(final(self)@),
    {
        let ghost views = account_views(new_accounts@);
        let mut i: usize = 0;
        while i < new_accounts.len()
            invariant
                i <= new_accounts.len(),
                views == account_views(new_accounts@),
                self@ == old(self)@ + views.take(i as int),
                forall|n: int| 0 <= n < i ==> !conflicts_at(old(self)@, views, n),
                usernames_unique(old(self)@) ==> usernames_unique(self@),
            decreases new_accounts.len() - i,
        {
            let account = new_accounts[i].clone();
            if let Err(error) = self.add_account(account) {
                assert(is_first_conflict(old(self)@, views, i as int));
                return Err(error);
            }
            i += 1;
        }
        Ok(())
    }

    /// The accounts, in stored order.
    pub fn get_accounts(&self) -> (accounts: &Vec<Account>)
        ensures
            account_views(accounts@) == self@,
    {
        &self.accounts
    }

    /// A copy of the first account numbered `id_account`.
    pub fn get_account(&self, id_account: u64) -> (found: Result<Account, ActixError>)
        ensures
            match found {
                Ok(account) => find_by_id(self@, id_account) matches Some(i) && account@ == self@[i],
                Err(error) => error == ActixError::NotFound && find_by_id(self@, id_account) is None,
            },
    {
        match self.position_by_id(id_account) {
            Some(i) => Ok(self.accounts[i].clone()),
            None => Err(ActixError::NotFound),
        }
    }

    /// Whether an account is named `username`, letter for letter.
    pub fn is_exist(&self, username: &str) -> (taken: bool)
        ensures
            taken == username_taken(self@, username@),
    {
        let name = username.to_owned();
        self.position_by_username(&name).is_some()
    }

    /// A copy of the first account named `username`.
    pub fn get_account_by_username(&self, username: &str) -> (found: Result<Account, ActixError>)
        ensures
            match found {
                Ok(account) => find_by_username(self@, username@) matches Some(i) && account@ == self@[i],
                Err(error) => error == ActixError::NotFound && find_by_username(self@, username@) is None,
            },
    {
        let name = username.to_owned();
        match self.position_by_username(&name) {
            Some(i) => Ok(self.accounts[i].clone()),
            None => Err(ActixError::NotFound),
        }
    }

    /// Whether `password` is the password of the account named `username`.
    /// An unknown name gives `false`, as a wrong password does.
    pub fn verify_credentials(&self, username: &str, password: &str) -> (accepted: bool)
        ensures
            accepted == credentials_match(self@, username@, password@),
    {
        let name = username.to_owned();
        match self.position_by_username(&name) {
            Some(i) => {
                let digest = self.hash_password(username, password);
                self.accounts[i].password == digest
            },
            None => false,
        }
    }

    /// The digest under which a credential is stored: 32 lowercase
    /// hexadecimal digits that depend on name and password alone, whatever
    /// the store holds.
    pub fn hash_password(&self, username: &str, password: &str) -> (digest: String)
        ensures
            digest@ == spec_hash_password(username@, password@),
            digest@.len() == 32,
            forall|k: int| 0 <= k < 32 ==> is_lower_hex(#[trigger] digest@[k]),
    {
        hash_password(username, password)
    }

    /// A store holds no more accounts than the machine can count.
    pub proof fn lemma_len_fits(&self)
        ensures
            self@.len() <= usize::MAX,
    {
        assert(self@.len() == self.accounts.len());
    }

    /// Copies of the accounts of one page, in stored order.
    pub fn list(&self, offset: usize, limit: usize) -> (accounts: Vec<Account>)
        ensures
            account_views(accounts@) == page(self@, offset as int, limit as int),
    {
        let len: usize = self.accounts.len();
        let start: usize = if offset < len { offset } else { len };
        let end: usize = if limit < len - start { start + limit } else { len };
        let mut accounts: Vec<Account> = Vec::new();
        let mut i: usize = start;
        while i < end
            invariant
                start <= i <= end <= len,
                len == self.accounts.len(),
                account_views(accounts@) =~= self@.subrange(start as int, i as int),
            decreases end - i,
        {
            accounts.push(self.accounts[i].clone());
            assert(self@.subrange(start as int, i as int + 1) =~= self@.subrange(start as int, i as int).push(
                self@[i as int],
            ));
            i += 1;
        }
        accounts
    }
}

/// Whatever accounts are offered to an empty store, in whatever order, no
/// two accounts in it ever share a username.
pub proof fn lemma_adds_keep_usernames_unique(new_accounts: Seq<AccountView>)
    ensures
        usernames_unique(added_all(Seq::<AccountView>::empty(), new_accounts)),
{
    lemma_adds_extend_unique_store(Seq::<AccountView>::empty(), new_accounts);
}

/// Whatever accounts are offered to a store of unique usernames, its
/// usernames stay unique.
pub proof fn lemma_adds_extend_unique_store(accounts: Seq<AccountView>, new_accounts: Seq<AccountView>)
    requires
        usernames_unique(accounts),
    ensures
        usernames_unique(added_all(accounts, new_accounts)),
    decreases new_accounts.len(),
{
    if new_accounts.len() > 0 {
        lemma_adds_extend_unique_store(accounts, new_accounts.drop_last());
        lemma_added_keeps_usernames_unique(added_all(accounts, new_accounts.drop_last()), new_accounts.last());
    }
}

/// A credential is accepted exactly if an account bears the name and
/// stores the digest of name and password; for a name that no account
/// bears it is not. (Where several accounts share a name after a rename,
/// the first of them decides; here usernames are unique.)
pub proof fn lemma_credentials_match(accounts: Seq<AccountView>, username: Seq<char>, password: Seq<char>)
    requires
        usernames_unique(accounts),
    ensures
        credentials_match(accounts, username, password) <==> exists|i: int|
            0 <= i < accounts.len() && #[trigger] accounts[i].username == username && accounts[i].password
                == spec_hash_password(username, password),
        !username_taken(accounts, username) ==> !credentials_match(accounts, username, password),
{
    lemma_taken_iff_found(accounts, username);
    if exists|i: int|
        0 <= i < accounts.len() && #[trigger] accounts[i].username == username && accounts[i].password
            == spec_hash_password(username, password) {
        let i = choose|i: int|
            0 <= i < accounts.len() && #[trigger] accounts[i].username == username && accounts[i].password
                == spec_hash_password(username, password);
        let first = find_by_username(accounts, username)->0;
        assert(first == i);
    }
}

/// Once an account has been offered to the store, its name is taken: a
/// second account of that name is refused and leaves the store unchanged.
pub proof fn lemma_second_add_conflicts(accounts: Seq<AccountView>, first: AccountView, second: AccountView)
    requires
        first.username == second.username,
    ensures
        username_taken(added(accounts, first), second.username),
        added(added(accounts, first), second) == added(accounts, first),
{
    if !username_taken(accounts, first.username) {
        let after = accounts.push(first);
        assert(after[accounts.len() as int].username == second.username);
    }
}

/// Renaming an account and then looking it up by its number finds the
/// account under the new name, with its number and its digest as before.
pub proof fn lemma_rename_then_get(accounts: Seq<AccountView>, id: u64, username: Seq<char>)
    requires
        find_by_id(accounts, id) is Some,
    ensures
        find_by_id(renamed(accounts, id, username), id) == find_by_id(accounts, id),
        ({
            let i = find_by_id(accounts, id)->0;
            let found = renamed(accounts, id, username)[i];
            &&& found.username == username
            &&& found.password == accounts[i].password
            &&& found.id == id
        }),
{
    let i = choose|i: int| is_first_with_id(accounts, id, i);
    assert(is_first_with_id(accounts, id, i));
    let after = renamed(accounts, id, username);
    assert(is_first_with_id(after, id, i)) by {
        assert forall|j: int| 0 <= j < i implies after[j].id != id by {
            assert(after[j] == accounts[j]);
        }
    }
    lemma_find_by_id(after, id, i);
}

/// Added to an empty store, accounts of pairwise distinct names all go in:
/// the store then holds exactly them, as many as were added, and a search
/// for the name of any of them finds it.
pub proof fn lemma_distinct_adds_all_succeed(new_accounts: Seq<AccountView>)
    requires
        usernames_unique(new_accounts),
    ensures
        added_all(Seq::<AccountView>::empty(), new_accounts) == new_accounts,
        added_all(Seq::<AccountView>::empty(), new_accounts).len() == new_accounts.len(),
        forall|n: int| !conflicts_at(Seq::<AccountView>::empty(), new_accounts, n),
        forall|k: int|
            0 <= k < new_accounts.len() ==> find_by_username(
                added_all(Seq::<AccountView>::empty(), new_accounts),
                #[trigger] new_accounts[k].username,
            ) == Some(k),
{
    let empty = Seq::<AccountView>::empty();
    lemma_distinct_adds_append(empty, new_accounts);
    assert forall|n: int| !conflicts_at(empty, new_accounts, n) by {
        if 0 <= n < new_accounts.len() {
            let before = empty + new_accounts.take(n);
            if username_taken(before, new_accounts[n].username) {
                let i = choose|i: int| 0 <= i < before.len() && before[i].username == new_accounts[n].username;
                assert(before[i] == new_accounts[i]);
            }
        }
    }
    assert forall|k: int| 0 <= k < new_accounts.len() implies find_by_username(
        new_accounts,
        #[trigger] new_accounts[k].username,
    ) == Some(k) by {
        assert(is_first_named(new_accounts, new_accounts[k].username, k));
        lemma_find_by_username(new_accounts, new_accounts[k].username, k);
    }
}

/// Adding an account keeps usernames unique.
pub proof fn lemma_added_keeps_usernames_unique(accounts: Seq<AccountView>, account: AccountView)
    requires
        usernames_unique(accounts),
    ensures
        usernames_unique(added(accounts, account)),
{
    if !username_taken(accounts, account.username) {
        let after = accounts.push(account);
        assert forall|i: int, j: int| 0 <= i < j < after.len() implies after[i].username != after[j].username by {
            if j == accounts.len() {
                assert(after[i] == accounts[i]);
            }
        }
    }
}

/// Accounts of pairwise distinct names, none of them taken, are all added,
/// in order.
proof fn lemma_distinct_adds_append(accounts: Seq<AccountView>, new_accounts: Seq<AccountView>)
    requires
        usernames_unique(new_accounts),
        forall|k: int| 0 <= k < new_accounts.len() ==> !username_taken(accounts, #[trigger] new_accounts[k].username),
    ensures
        added_all(accounts, new_accounts) == accounts + new_accounts,
    decreases new_accounts.len(),
{
    if new_accounts.len() == 0 {
        assert(accounts + new_accounts =~= accounts);
    } else {
        let front = new_accounts.drop_last();
        let last = new_accounts.last();
        lemma_distinct_adds_append(accounts, front);
        let before = accounts + front;
        if username_taken(before, last.username) {
            let i = choose|i: int| 0 <= i < before.len() && before[i].username == last.username;
            if i < accounts.len() {
                assert(accounts[i].username == last.username);
                assert(username_taken(accounts, new_accounts[new_accounts.len() - 1].username));
            } else {
                assert(new_accounts[i - accounts.len()].username == last.username);
            }
        }
    }
}

/// The first account named `username` is where a search for it ends.
pub proof fn lemma_find_by_username(accounts: Seq<AccountView>, username: Seq<char>, i: int)
    requires
        is_first_named(accounts, username, i),
    ensures
        find_by_username(accounts, username) == Some(i),
        username_taken(accounts, username),
{
    let found = choose|k: int| is_first_named(accounts, username, k);
    assert(is_first_named(accounts, username, found));
    if found < i {
        assert(accounts[found].username != username);
    } else if i < found {
        assert(accounts[i].username != username);
    }
}

/// A name is taken exactly if a search for it finds an account, and that
/// account then bears the name.
pub proof fn lemma_taken_iff_found(accounts: Seq<AccountView>, username: Seq<char>)
    ensures
        username_taken(accounts, username) <==> find_by_username(accounts, username) is Some,
        find_by_username(accounts, username) matches Some(i) ==> is_first_named(accounts, username, i),
{
    if username_taken(accounts, username) {
        let k = choose|k: int| 0 <= k < accounts.len() && accounts[k].username == username;
        lemma_first_named_exists(accounts, username, k);
    }
    if find_by_username(accounts, username) is Some {
        let i = choose|i: int| is_first_named(accounts, username, i);
        assert(is_first_named(accounts, username, i));
    }
}

proof fn lemma_first_named_exists(accounts: Seq<AccountView>, username: Seq<char>, k: int)
    requires
        0 <= k < accounts.len(),
        accounts[k].username == username,
    ensures
        exists|i: int| is_first_named(accounts, username, i),
    decreases k,
{
    if forall|j: int| 0 <= j < k ==> accounts[j].username != username {
        assert(is_first_named(accounts, username, k));
    } else {
        let j = choose|j: int| 0 <= j < k && accounts[j].username == username;
        lemma_first_named_exists(accounts, username, j);
    }
}

/// The first account numbered `id` is where a search for it ends.
pub proof fn lemma_find_by_id(accounts: Seq<AccountView>, id: u64, i: int)
    requires
        is_first_with_id(accounts, id, i),
    ensures
        find_by_id(accounts, id) == Some(i),
{
    let found = choose|k: int| is_first_with_id(accounts, id, k);
    assert(is_first_with_id(accounts, id, found));
    if found < i {
        assert(accounts[found].id != id);
    } else if i < found {
        assert(accounts[i].id != id);
    }
}

} // verus!
