//! Issuing the pair of signed tokens that a login is answered with.

use vstd::prelude::*;
use crate::errors::ActixError;
use crate::models::{AccessToken, Claims, CLAIM_ADMIN, CLAIM_EXP, CLAIM_ID_ACCOUNT};

verus! {

/// How long an issued token stays valid.
pub const TOKEN_LIFETIME_MINUTES: i64 = 10;

/// The compact HS256 token whose payload is the JSON object of three
/// members, an unsigned number, a boolean and a signed number under the
/// given names and in this order, signed with `secret`; `None` where the
/// token library fails to produce one.
pub uninterp spec fn hs256_token(
    unsigned_name: Seq<char>,
    unsigned: u64,
    flag_name: Seq<char>,
    flag: bool,
    signed_name: Seq<char>,
    signed: i64,
    secret: Seq<char>,
) -> Option<Seq<char>>;

/// `jsonwebtoken::encode` with `Header::default()` (HS256, type `JWT`) and
/// the secret as HMAC key, on the `serde_json::Map` that holds the three
/// values under the three names, inserted in this order.
///
/// The library serialises header and object, joins their base64 forms and
/// appends the HMAC-SHA256 signature: the token is a function of names,
/// values and secret, which is all that is claimed here.
#[verifier::external_body]
fn encode_members(
    unsigned_name: &str,
    unsigned: u64,
    flag_name: &str,
    flag: bool,
    signed_name: &str,
    signed: i64,
    secret: &str,
) -> (token: Result<String, jsonwebtoken::errors::Error>)
    ensures
        match token {
            Ok(text) => hs256_token(unsigned_name@, unsigned, flag_name@, flag, signed_name@, signed, secret@)
                == Some(text@),
            Err(_) => hs256_token(unsigned_name@, unsigned, flag_name@, flag, signed_name@, signed, secret@)
                is None,
        },
{
    let mut payload = serde_json::Map::new();
    payload.insert(String::from(unsigned_name), serde_json::Value::from(unsigned));
    payload.insert(String::from(flag_name), serde_json::Value::from(flag));
    payload.insert(String::from(signed_name), serde_json::Value::from(signed));
    let key = jsonwebtoken::EncodingKey::from_secret(secret.as_bytes());
    jsonwebtoken::encode(&jsonwebtoken::Header::default(), &payload, &key)
}

/// The token that states `claims`, signed with `secret`: its payload holds
/// the account's number, the administrator flag and the expiry, in this
/// order, under the names of the three claims.
pub open spec fn claims_token(claims: Claims, secret: Seq<char>) -> Option<Seq<char>> {
    hs256_token(
        CLAIM_ID_ACCOUNT@,
        claims.id_account,
        CLAIM_ADMIN@,
        claims.admin,
        CLAIM_EXP@,
        claims.exp,
        secret,
    )
}

/// `chrono::Utc::now()`, moved on by `TimeDelta::minutes(minutes)` with
/// `checked_add_signed`, as seconds since the epoch (`timestamp`); `None`
/// where the sum is no date that chrono can hold.
///
/// The result follows the system clock: nothing is claimed of it. The
/// bound keeps `TimeDelta::minutes` from panicking.
#[verifier::external_body]
fn utc_timestamp_after(minutes: i64) -> (timestamp: Option<i64>)
    requires
        -153_722_867_280_912 <= minutes <= 153_722_867_280_912,
{
    match chrono::Utc::now().checked_add_signed(chrono::TimeDelta::minutes(minutes)) {
        Some(moment) => Some(moment.timestamp()),
        None => None,
    }
}

/// The claims of an ordinary account's token that expires at `exp`.
pub open spec fn spec_account_claims(id_account: u64, exp: i64) -> Claims {
    Claims { id_account, admin: false, exp }
}

/// The access token and the refresh token for `claims`: the same claims,
/// signed with the access secret and with the refresh secret. There is no
/// pair while either secret is missing or either signature fails.
pub open spec fn spec_token_pair(
    claims: Claims,
    token_secret: Option<Seq<char>>,
    refresh_token_secret: Option<Seq<char>>,
) -> Option<(Seq<char>, Seq<char>)> {
    match (token_secret, refresh_token_secret) {
        (Some(access), Some(refresh)) => match (claims_token(claims, access), claims_token(claims, refresh)) {
            (Some(access_token), Some(refresh_token)) => Some((access_token, refresh_token)),
            _ => None,
        },
        _ => None,
    }
}

/// The view of a secret that may be missing.
pub open spec fn secret_view(secret: Option<&str>) -> Option<Seq<char>> {
    match secret {
        Some(text) => Some(text@),
        None => None,
    }
}

/// Signs `claims` once with `secret`.
pub fn sign_claims(claims: &Claims, secret: &str) -> (token: Result<String, ActixError>)
    ensures
        match token {
            Ok(text) => claims_token(*claims, secret@) == Some(text@),
            Err(error) => error == ActixError::Unknown && claims_token(*claims, secret@) is None,
        },
{
    match encode_members(
        CLAIM_ID_ACCOUNT,
        claims.id_account,
        CLAIM_ADMIN,
        claims.admin,
        CLAIM_EXP,
        claims.exp,
        secret,
    ) {
        Ok(text) => Ok(text),
        Err(_) => Err(ActixError::Unknown),
    }
}

/// Signs `claims` with both secrets, `None` standing for a secret that the
/// server has not been given. Every failure is reported as `Unknown`.
pub fn sign_token_pair(
    claims: &Claims,
    token_secret: Option<&str>,
    refresh_token_secret: Option<&str>,
) -> (pair: Result<(String, String), ActixError>)
    ensures
        match pair {
            Ok((access_token, refresh_token)) => spec_token_pair(
                *claims,
                secret_view(token_secret),
                secret_view(refresh_token_secret),
            ) == Some((access_token@, refresh_token@)),
            Err(error) => error == ActixError::Unknown && spec_token_pair(
                *claims,
                secret_view(token_secret),
                secret_view(refresh_token_secret),
            ) is None,
        },
{
    let access_secret = match token_secret {
        Some(secret) => secret,
        None => { return Err(ActixError::Unknown); },
    };
    let access_token = match sign_claims(claims, access_secret) {
        Ok(text) => text,
        Err(error) => { return Err(error); },
    };
    let refresh_secret = match refresh_token_secret {
        Some(secret) => secret,
        None => { return Err(ActixError::Unknown); },
    };
    let refresh_token = match sign_claims(claims, refresh_secret) {
        Ok(text) => text,
        Err(error) => { return Err(error); },
    };
    Ok((access_token, refresh_token))
}

/// Issues the token pair of account `id_account`, valid for
/// [`TOKEN_LIFETIME_MINUTES`] from the present moment.
///
/// The expiry follows the clock, so the pair is stated up to it: on
/// success both tokens state `id_account`, no administrator and one common
/// expiry. Without both secrets there is no pair.
pub fn issue_token_pair(
    id_account: u64,
    token_secret: Option<&str>,
    refresh_token_secret: Option<&str>,
) -> (pair: Result<(String, String), ActixError>)
    ensures
        match pair {
            Ok((access_token, refresh_token)) => exists|exp: i64| spec_token_pair(
                spec_account_claims(id_account, exp),
                secret_view(token_secret),
                secret_view(refresh_token_secret),
            ) == Some((access_token@, refresh_token@)),
            Err(error) => error == ActixError::Unknown,
        },
        token_secret is None || refresh_token_secret is None ==> pair is Err,
{
    let exp: i64 = match utc_timestamp_after(TOKEN_LIFETIME_MINUTES) {
        Some(timestamp) => timestamp,
        None => { return Err(ActixError::Unknown); },
    };
    let claims = Claims { id_account, admin: false, exp };
    assert(claims == spec_account_claims(id_account, exp));
    sign_token_pair(&claims, token_secret, refresh_token_secret)
}

/// Builds the record of an issued pair from what the durable store
/// answered to its insertion: `last_insert_id` is the row number the store
/// reports, 0 where it reports none, which is an `Unknown` failure.
pub fn create_new_access_token(
    last_insert_id: u64,
    id_account: u64,
    access_token: String,
    refresh_token: String,
) -> (record: Result<AccessToken, ActixError>)
    ensures
        match record {
            Ok(token) => {
                &&& last_insert_id > 0
                &&& token.id == last_insert_id
                &&& token.id_account == id_account
                &&& token.access_token@ == access_token@
                &&& token.refresh_token@ == refresh_token@
            },
            Err(error) => last_insert_id == 0 && error == ActixError::Unknown,
        },
{
    if last_insert_id > 0 {
        Ok(AccessToken { id: last_insert_id, id_account, access_token, refresh_token })
    } else {
        Err(ActixError::Unknown)
    }
}

} // verus!
