//! The login and token-refresh exchanges: their messages and the demo credentials.

use vstd::prelude::*;
use crate::text::{clone_strings, owned, str_eq, strs_view};

verus! {

/// A login attempt.
pub struct LoginRequest {
    pub username: String,
    pub password: String,
    pub remember_me: Option<bool>,
}

/// The profile returned with tokens.
pub struct UserInfo {
    pub id: String,
    pub username: String,
    pub email: String,
    pub roles: Vec<String>,
}

/// Tokens and the user they were issued to.
pub struct LoginResponse {
    pub access_token: String,
    pub refresh_token: String,
    pub expires_in: u64,
    pub token_type: String,
    pub user: UserInfo,
}

/// A request for new tokens.
pub struct RefreshTokenRequest {
    pub refresh_token: String,
}

/// The one account the gateway accepts on its own: `admin` with password `password`.
pub fn demo_credentials_valid(request: &LoginRequest) -> (ok: bool)
    ensures
        ok == (request.username@ == "admin"@ && request.password@ == "password"@),
{
    str_eq(request.username.as_str(), "admin") && str_eq(request.password.as_str(), "password")
}

/// The id of the demo account.
pub open spec fn demo_user_id() -> Seq<char> {
    "user123"@
}

/// The roles of the demo account.
pub open spec fn demo_roles() -> Seq<Seq<char>> {
    seq!["admin"@, "trader"@]
}

/// The permissions of the demo account.
pub open spec fn demo_permissions() -> Seq<Seq<char>> {
    seq!["read"@, "write"@, "trade"@]
}

/// The roles granted to the demo account.
pub fn demo_roles_list() -> (v: Vec<String>)
    ensures
        strs_view(v@) == demo_roles(),
{
    let v = vec![owned("admin"), owned("trader")];
    assert(strs_view(v@) =~= demo_roles());
    v
}

/// The permissions granted to the demo account.
pub fn demo_permissions_list() -> (v: Vec<String>)
    ensures
        strs_view(v@) == demo_permissions(),
{
    let v = vec![owned("read"), owned("write"), owned("trade")];
    assert(strs_view(v@) =~= demo_permissions());
    v
}

/// The answer to a successful demo login: the issued tokens, their lifetime and the
/// demo profile under the name that logged in.
pub fn login_response(access_token: String, refresh_token: String, expires_in: u64, username: &str) -> (r:
    LoginResponse)
    ensures
        r.access_token == access_token,
        r.refresh_token == refresh_token,
        r.expires_in == expires_in,
        r.token_type@ == "Bearer"@,
        r.user.id@ == demo_user_id(),
        r.user.username@ == username@,
        r.user.email@ == "admin@example.com"@,
        strs_view(r.user.roles@) == demo_roles(),
{
    LoginResponse {
        access_token,
        refresh_token,
        expires_in,
        token_type: owned("Bearer"),
        user: UserInfo {
            id: owned("user123"),
            username: owned(username),
            email: owned("admin@example.com"),
            roles: demo_roles_list(),
        },
    }
}

/// The answer to a token refresh: new tokens and the profile the old token carried.
pub fn refresh_response(
    access_token: String,
    refresh_token: String,
    expires_in: u64,
    user_id: &str,
    username: &str,
    email: &str,
    roles: &Vec<String>,
) -> (r: LoginResponse)
    ensures
        r.access_token == access_token,
        r.refresh_token == refresh_token,
        r.expires_in == expires_in,
        r.token_type@ == "Bearer"@,
        r.user.id@ == user_id@,
        r.user.username@ == username@,
        r.user.email@ == email@,
        strs_view(r.user.roles@) == strs_view(roles@),
{
    LoginResponse {
        access_token,
        refresh_token,
        expires_in,
        token_type: owned("Bearer"),
        user: UserInfo {
            id: owned(user_id),
            username: owned(username),
            email: owned(email),
            roles: clone_strings(roles),
        },
    }
}

} // verus!
