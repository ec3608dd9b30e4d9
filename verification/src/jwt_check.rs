//! The authentication guard: a request passes only with a bearer token that
//! is signed with the server's secret and has not expired.

use vstd::prelude::*;
use vstd::string::StrSliceExecFns;
use crate::errors::UNAUTHORIZED;
use crate::models::{Claims, CLAIM_ADMIN, CLAIM_EXP, CLAIM_ID_ACCOUNT};

verus! {

/// The `Authorization` header of a request, as far as it can be read.
#[derive(Debug)]
pub enum AuthHeader {
    /// The request carries no such header.
    Missing,
    /// The header is there but is not text.
    Unreadable,
    /// The header's text.
    Text(String),
}

/// What the guard does with a request.
#[derive(Debug, Clone, Copy, PartialEq, Eq, Structural)]
pub enum AuthDecision {
    /// The request goes on to the next stage, unchanged.
    Authorized,
    /// The request is answered at once as unauthorised, with no detail.
    Rejected,
}

impl AuthDecision {
    /// The status that answers a request at once, for one that does not
    /// pass: "unauthorized", with nothing said of why.
    pub open spec fn spec_rejection_status(&self) -> Option<u16> {
        match self {
            AuthDecision::Authorized => None,
            AuthDecision::Rejected => Some(UNAUTHORIZED),
        }
    }

    #[verifier::when_used_as_spec(spec_rejection_status)]
    pub fn rejection_status(&self) -> (status: Option<u16>)
        ensures
            status == self.spec_rejection_status(),
    {
        match self {
            AuthDecision::Authorized => None,
            AuthDecision::Rejected => Some(UNAUTHORIZED),
        }
    }
}

/// What a verified token's payload holds under the three names of
/// [`Claims`], each where it is present with the right type.
#[derive(Debug, Clone, Copy, PartialEq, Eq, Structural)]
pub struct ClaimFields {
    pub id_account: Option<u64>,
    pub admin: Option<bool>,
    pub exp: Option<i64>,
}

/// The scheme word and the space that may precede the token in the header.
pub open spec fn bearer_prefix() -> Seq<char> {
    "Bearer "@
}

/// The token that a header's text presents: the text without a leading
/// `"Bearer "`, or the whole text where it does not start so.
pub open spec fn spec_bearer_token(header: Seq<char>) -> Seq<char> {
    if bearer_prefix().is_prefix_of(header) {
        header.skip(bearer_prefix().len() as int)
    } else {
        header
    }
}

/// A signed token is three parts joined by `'.'`: text with fewer than two
/// dots is none.
pub open spec fn is_compact_token(token: Seq<char>) -> bool {
    exists|i: int, j: int| 0 <= i < j < token.len() && token[i] == '.' && token[j] == '.'
}

/// The claims of a payload: all three must be present.
pub open spec fn spec_claims_of(fields: ClaimFields) -> Option<Claims> {
    match (fields.id_account, fields.admin, fields.exp) {
        (Some(id_account), Some(admin), Some(exp)) => Some(Claims { id_account, admin, exp }),
        _ => None,
    }
}

/// The guard's state machine, given whether the presented token verified:
/// only a readable header, an available secret and a verified token
/// together let a request pass.
pub open spec fn spec_decision(header: AuthHeader, secret_available: bool, verified: bool) -> AuthDecision {
    if header is Text && secret_available && verified {
        AuthDecision::Authorized
    } else {
        AuthDecision::Rejected
    }
}

/// An error of the token library. Nothing is read from it.
#[verifier::external_type_specification]
#[verifier::external_body]
pub struct ExTokenError(jsonwebtoken::errors::Error);

/// `jsonwebtoken::decode` with `Validation::new(Algorithm::HS256)` and the
/// secret as HMAC key, on a payload read as `serde_json::Value`.
///
/// The call checks the signature and then the `exp` claim against the
/// system clock, so nothing is claimed of when it succeeds, but this: it
/// splits the token at its last two `'.'` and fails where there are fewer.
/// On success the payload's members of the three given names are handed
/// out (`Value::get`), the first as far as it is an unsigned integer
/// (`as_u64`), the second a boolean (`as_bool`), the third a signed integer
/// (`as_i64`).
#[verifier::external_body]
fn decode_members(token: &str, secret: &str, unsigned_name: &str, flag_name: &str, signed_name: &str) -> (decoded:
    Result<ClaimFields, jsonwebtoken::errors::Error>)
    ensures
        decoded is Ok ==> is_compact_token(token@),
{
    let key = jsonwebtoken::DecodingKey::from_secret(secret.as_bytes());
    let validation = jsonwebtoken::Validation::new(jsonwebtoken::Algorithm::HS256);
    let data = jsonwebtoken::decode::<serde_json::Value>(token, &key, &validation)?;
    Ok(ClaimFields {
        id_account: data.claims.get(unsigned_name).and_then(serde_json::Value::as_u64),
        admin: data.claims.get(flag_name).and_then(serde_json::Value::as_bool),
        exp: data.claims.get(signed_name).and_then(serde_json::Value::as_i64),
    })
}

/// Whether `text` starts with `prefix`.
pub fn starts_with(text: &str, prefix: &str) -> (found: bool)
    ensures
        found == prefix@.is_prefix_of(text@),
{
    let text_len: usize = text.unicode_len();
    let prefix_len: usize = prefix.unicode_len();
    if prefix_len > text_len {
        return false;
    }
    let mut i: usize = 0;
    while i < prefix_len
        invariant
            i <= prefix_len <= text_len,
            prefix_len == prefix@.len(),
            text_len == text@.len(),
            forall|k: int| 0 <= k < i ==> prefix@[k] == text@[k],
        decreases prefix_len - i,
    {
        if prefix.get_char(i) != text.get_char(i) {
            return false;
        }
        i += 1;
    }
    true
}

/// The token that a header's text presents.
pub fn bearer_token(header: &str) -> (token: String)
    ensures
        token@ == spec_bearer_token(header@),
{
    let prefix = "Bearer ";
    if starts_with(header, prefix) {
        let from: usize = prefix.unicode_len();
        let to: usize = header.unicode_len();
        header.substring_char(from, to).to_owned()
    } else {
        header.to_owned()
    }
}

/// The claims of a verified payload, where it holds all three.
pub fn claims_of(fields: ClaimFields) -> (claims: Option<Claims>)
    ensures
        claims == spec_claims_of(fields),
{
    match (fields.id_account, fields.admin, fields.exp) {
        (Some(id_account), Some(admin), Some(exp)) => Some(Claims { id_account, admin, exp }),
        _ => None,
    }
}

/// What a verification hands out: the claims of the payload where the
/// token library accepted the token and the payload holds all three, and
/// nothing where it refused the token, whatever its reason.
pub fn claims_of_decoded(decoded: Result<ClaimFields, jsonwebtoken::errors::Error>) -> (claims: Option<Claims>)
    ensures
        claims == match decoded {
            Ok(fields) => spec_claims_of(fields),
            Err(_) => None,
        },
{
    match decoded {
        Ok(fields) => claims_of(fields),
        Err(_) => None,
    }
}

/// Verifies `token` against `secret` at the present moment and hands out
/// its claims.
///
/// Whether a well-shaped token verifies depends on its signature and on
/// the clock; text that is no compact token never does.
pub fn verify_token(token: &str, secret: &str) -> (claims: Option<Claims>)
    ensures
        claims is Some ==> is_compact_token(token@),
{
    claims_of_decoded(decode_members(token, secret, CLAIM_ID_ACCOUNT, CLAIM_ADMIN, CLAIM_EXP))
}

/// The guard's decision once the token's verification is known.
pub fn decide(header: &AuthHeader, secret_available: bool, verified: bool) -> (decision: AuthDecision)
    ensures
        decision == spec_decision(*header, secret_available, verified),
{
    match header {
        AuthHeader::Text(_) => {
            if secret_available && verified {
                AuthDecision::Authorized
            } else {
                AuthDecision::Rejected
            }
        },
        _ => AuthDecision::Rejected,
    }
}

/// Builds the guard in front of a service.
#[derive(Debug, Clone, Copy)]
pub struct JwtCheck;

/// The guard in front of `service`, the next stage of the pipeline.
pub struct JwtCheckMiddleware<S> {
    pub service: S,
}

impl JwtCheck {
    /// The guard in front of `service`.
    pub fn new_transform<S>(&self, service: S) -> (middleware: JwtCheckMiddleware<S>)
        ensures
            middleware.service == service,
    {
        JwtCheckMiddleware { service }
    }
}

impl<S> JwtCheckMiddleware<S> {
    /// Decides on one request from its `Authorization` header and the
    /// server's secret, `None` where the server has none configured.
    ///
    /// A request without a readable header is rejected, and so is every
    /// request while the secret is missing. Otherwise the header's token is
    /// verified, and the request passes exactly if that succeeds; it cannot
    /// for text that is no compact token.
    pub fn call(&self, header: &AuthHeader, secret: Option<&str>) -> (decision: AuthDecision)
        ensures
            !(header is Text) ==> decision == AuthDecision::Rejected,
            secret is None ==> decision == AuthDecision::Rejected,
            header matches AuthHeader::Text(text) && !is_compact_token(spec_bearer_token(text@))
                ==> decision == AuthDecision::Rejected,
    {
        match (header, secret) {
            (AuthHeader::Text(text), Some(secret)) => {
                let token = bearer_token(text.as_str());
                let verified = verify_token(token.as_str(), secret).is_some();
                decide(header, true, verified)
            },
            _ => decide(header, secret.is_some(), false),
        }
    }
}

} // verus!
