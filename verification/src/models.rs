//! Plain data exchanged between the store, the middlewares and their callers.

use vstd::prelude::*;

verus! {

/// What an [`Account`] holds, as mathematical values.
pub struct AccountView {
    pub id: u64,
    pub username: Seq<char>,
    pub password: Seq<char>,
}

/// A registered account. `password` holds the credential digest, never the
/// password itself.
#[derive(Debug)]
pub struct Account {
    pub id: u64,
    pub username: String,
    pub password: String,
}

impl View for Account {
    type V = AccountView;

    open spec fn view(&self) -> AccountView {
        AccountView { id: self.id, username: self.username@, password: self.password@ }
    }
}

impl Clone for Account {
    /// A copy that shares nothing with `self` and holds the same values.
    fn clone(&self) -> (copy: Self)
        ensures
            copy == *self,
            copy@ == self@,
    {
        Account { id: self.id, username: self.username.clone(), password: self.password.clone() }
    }
}

/// The views of a sequence of accounts, in order.
pub open spec fn account_views(accounts: Seq<Account>) -> Seq<AccountView> {
    accounts.map_values(|account: Account| account@)
}

/// A pair of signed tokens issued for one account at login.
#[derive(Debug)]
pub struct AccessToken {
    pub id: u64,
    pub id_account: u64,
    pub access_token: String,
    pub refresh_token: String,
}

impl Clone for AccessToken {
    fn clone(&self) -> (copy: Self)
        ensures
            copy == *self,
    {
        AccessToken {
            id: self.id,
            id_account: self.id_account,
            access_token: self.access_token.clone(),
            refresh_token: self.refresh_token.clone(),
        }
    }
}

/// Pagination parameters of a listing request; `page` counts from 1.
#[derive(Debug, Clone, Copy, PartialEq, Eq, Structural)]
pub struct QueryPageOptions {
    pub page: Option<usize>,
    pub limit: Option<usize>,
}

/// Number of accounts on a page when the request names none.
pub const DEFAULT_PAGE_LIMIT: usize = 10;

impl QueryPageOptions {
    /// The page size: the requested one, or the default.
    pub open spec fn spec_limit(&self) -> usize {
        match self.limit {
            Some(limit) => limit,
            None => DEFAULT_PAGE_LIMIT,
        }
    }

    /// The requested page number, or the first page.
    pub open spec fn spec_page(&self) -> usize {
        match self.page {
            Some(page) => page,
            None => 1,
        }
    }

    /// Position of the first account of the page: `(page - 1) * limit`,
    /// where that is a position at all.
    pub open spec fn spec_offset(&self) -> Option<usize> {
        if self.spec_page() >= 1 && (self.spec_page() - 1) * self.spec_limit() <= usize::MAX {
            Some(((self.spec_page() - 1) * self.spec_limit()) as usize)
        } else {
            None
        }
    }

    #[verifier::when_used_as_spec(spec_limit)]
    pub fn limit(&self) -> (limit: usize)
        ensures
            limit == self.spec_limit(),
    {
        match self.limit {
            Some(limit) => limit,
            None => DEFAULT_PAGE_LIMIT,
        }
    }

    /// Translates the 1-based page number into the position of the page's
    /// first account. There is none for page 0, nor where the product does
    /// not fit the machine word.
    #[verifier::when_used_as_spec(spec_offset)]
    pub fn offset(&self) -> (offset: Option<usize>)
        ensures
            offset == self.spec_offset(),
    {
        let page: usize = match self.page {
            Some(page) => page,
            None => 1,
        };
        if page == 0 {
            None
        } else {
            (page - 1).checked_mul(self.limit())
        }
    }
}

/// A listing together with its size.
#[derive(Debug)]
pub struct TodoListResponse {
    pub status: String,
    pub results: usize,
    pub todos: Vec<Account>,
}

/// Body of a plain informational response.
#[derive(Debug)]
pub struct BasicResponse {
    pub data: String,
}

/// A registration request.
#[derive(Debug)]
pub struct AccountData {
    pub username: String,
    pub password: String,
}

/// A request to rename an account.
#[derive(Debug)]
pub struct UpdateAccountData {
    pub username: String,
}

/// Body of an error response: a fixed message and the numeric status.
#[derive(Debug)]
pub struct BasicResponseError {
    pub error: String,
    pub code: u16,
}

/// What a signed token states: whose it is, whether the holder administers,
/// and the second (since the epoch) at which it expires.
#[derive(Debug, Clone, Copy, PartialEq, Eq, Structural)]
pub struct Claims {
    pub id_account: u64,
    pub admin: bool,
    pub exp: i64,
}

/// Name of the payload member that holds [`Claims::id_account`].
pub const CLAIM_ID_ACCOUNT: &'static str = "id_account";

/// Name of the payload member that holds [`Claims::admin`].
pub const CLAIM_ADMIN: &'static str = "admin";

/// Name of the payload member that holds [`Claims::exp`].
pub const CLAIM_EXP: &'static str = "exp";

/// The identity a request was authorised for.
#[derive(Debug)]
pub struct AuthorizationMiddleware {
    pub user_id: String,
    pub admin: bool,
}

impl PartialEq for AuthorizationMiddleware {
    fn eq(&self, other: &Self) -> (equal: bool) {
        self.user_id == other.user_id && self.admin == other.admin
    }
}

impl vstd::std_specs::cmp::PartialEqSpecImpl for AuthorizationMiddleware {
    open spec fn obeys_eq_spec() -> bool {
        true
    }

    open spec fn eq_spec(&self, other: &Self) -> bool {
        self.user_id@ == other.user_id@ && self.admin == other.admin
    }
}

/// A login request.
#[derive(Debug)]
pub struct LoginData {
    pub username: String,
    pub password: String,
}

} // verus!
