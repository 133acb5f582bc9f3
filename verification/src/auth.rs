//! Session claims and the auth guard's decision: a token is honoured for a
//! fixed hour from issue, and only while its subject still names an
//! account. The signing of the claims happens outside; this module owns
//! what is signed and when it counts.

use vstd::prelude::*;

use crate::errors::ApiError;
use crate::model::{TokenClaims, User};
use crate::users::{has_uid, lookup_uid, UserStore};

verus! {

/// How long a token is honoured, in seconds.
pub const TOKEN_TTL_SECONDS: u64 = 3600;

/// The claims a login issues: the subject is the user's identifier, the
/// window opens now and closes one hour later.
pub fn make_claims(sub: &str, now: u64) -> (r: TokenClaims)
    requires
        now + TOKEN_TTL_SECONDS <= u64::MAX,
    ensures
        r.sub@ == sub@,
        r.iat == now,
        r.exp == now + TOKEN_TTL_SECONDS,
{
    TokenClaims { sub: sub.to_owned(), iat: now, exp: now + TOKEN_TTL_SECONDS }
}

/// Whether the claims are still in their window.
pub fn claims_fresh(claims: &TokenClaims, now: u64) -> (r: bool)
    ensures
        r == (now < claims.exp),
{
    now < claims.exp
}

/// The auth guard's decision: claims in their window whose subject still
/// resolves to an account admit that account; everything else is
/// `Unauthorized`.
pub fn authorize(users: &UserStore, claims: &TokenClaims, now: u64) -> (r: Result<User, ApiError>)
    requires
        users.wf(),
    ensures
        r is Ok <==> (now < claims.exp && has_uid(users@, claims.sub@)),
        r matches Ok(u) ==> lookup_uid(users@, claims.sub@) == Some(u@),
        r matches Err(e) ==> e matches ApiError::Unauthorized,
{
    if !claims_fresh(claims, now) {
        return Err(ApiError::Unauthorized);
    }
    match users.get_by_id(claims.sub.as_str()) {
        Some(u) => Ok(u),
        None => Err(ApiError::Unauthorized),
    }
}

/// The `Set-Cookie` value a login answers with: the token, bound to the
/// whole site, for one hour, http-only and lax.
pub fn auth_cookie(token: &str) -> (r: String)
    ensures
        r@ == "token="@ + token@ + "; Path=/; Max-Age=3600; SameSite=Lax; HttpOnly"@,
{
    let mut out: String = "token=".to_owned();
    out.append(token);
    out.append("; Path=/; Max-Age=3600; SameSite=Lax; HttpOnly");
    out
}

/// The `Set-Cookie` value a logout answers with: an empty token whose
/// negative age forces the carrier to drop it.
pub fn logout_cookie() -> (r: String)
    ensures
        r@ == "token=; Path=/; Max-Age=-3600; SameSite=Lax; HttpOnly"@,
{
    "token=; Path=/; Max-Age=-3600; SameSite=Lax; HttpOnly".to_owned()
}

} // verus!
