//! The session cookie that carries the access token.

use vstd::prelude::*;
use vstd::string::StringExecFns;
use crate::text::{push_signed, signed_decimal};

verus! {

/// Request to start a session.
pub struct SetSessionRequest {
    pub access_token: String,
    /// Lifetime of the session in seconds; an hour if absent.
    pub expires_in: Option<i64>,
}

/// The lifetime of the cookie in seconds.
pub open spec fn max_age_of(expires_in: Option<i64>) -> int {
    match expires_in {
        Some(n) => n as int,
        None => 3600,
    }
}

/// The cookie that holds `token` for `max_age` seconds.
pub open spec fn session_cookie(token: Seq<char>, max_age: int) -> Seq<char> {
    "access_token="@ + token + "; Path=/; SameSite=Lax; Max-Age="@ + signed_decimal(max_age)
}

/// The value of the `Set-Cookie` header that starts the session.
pub fn set_session(body: &SetSessionRequest) -> (cookie: String)
    ensures
        cookie@ == session_cookie(body.access_token@, max_age_of(body.expires_in)),
{
    let max_age: i64 = match body.expires_in {
        Some(n) => n,
        None => 3600,
    };
    let mut cookie = String::from_str("access_token=");
    cookie.append(body.access_token.as_str());
    cookie.append("; Path=/; SameSite=Lax; Max-Age=");
    push_signed(&mut cookie, max_age);
    cookie
}

/// The value of the `Set-Cookie` header that ends the session: an empty
/// token that expires at once.
pub fn clear_session() -> (cookie: &'static str)
    ensures
        cookie@ == "access_token=; Path=/; SameSite=Lax; Max-Age=0"@,
{
    "access_token=; Path=/; SameSite=Lax; Max-Age=0"
}

} // verus!
