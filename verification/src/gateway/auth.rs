//! Who a request comes from and what it may do.

use vstd::prelude::*;
use crate::gateway::config::{GatewayConfig, path_matches};
use crate::text::{concat2, contains_str, seq_starts_with, str_starts_with, strs_view, suffix_from};

verus! {

/// The authenticated user of a request.
pub struct UserContext {
    pub user_id: String,
    pub username: String,
    pub email: String,
    pub roles: Vec<String>,
    pub permissions: Vec<String>,
}

impl UserContext {
    /// Whether the user holds a permission.
    pub fn has_permission(&self, permission: &str) -> (r: bool)
        ensures
            r == strs_view(self.permissions@).contains(permission@),
    {
        contains_str(&self.permissions, permission)
    }

    /// Whether the user holds a role.
    pub fn has_role(&self, role: &str) -> (r: bool)
        ensures
            r == strs_view(self.roles@).contains(role@),
    {
        contains_str(&self.roles, role)
    }

    /// Whether the user holds at least one of the permissions.
    pub fn has_any_permission(&self, permissions: &[&str]) -> (r: bool)
        ensures
            r == exists|i: int|
                0 <= i < permissions@.len() && strs_view(self.permissions@).contains(
                    #[trigger] permissions@[i]@,
                ),
    {
        let mut i: usize = 0;
        while i < permissions.len()
            invariant
                i <= permissions@.len(),
                forall|j: int|
                    0 <= j < i ==> !strs_view(self.permissions@).contains(#[trigger] permissions@[j]@),
            decreases permissions@.len() - i,
        {
            if self.has_permission(permissions[i]) {
                assert(strs_view(self.permissions@).contains(permissions@[i as int]@));
                return true;
            }
            i = i + 1;
        }
        false
    }

    /// Whether the user holds every one of the permissions.
    pub fn has_all_permissions(&self, permissions: &[&str]) -> (r: bool)
        ensures
            r == forall|i: int|
                0 <= i < permissions@.len() ==> strs_view(self.permissions@).contains(
                    #[trigger] permissions@[i]@,
                ),
    {
        let mut i: usize = 0;
        while i < permissions.len()
            invariant
                i <= permissions@.len(),
                forall|j: int|
                    0 <= j < i ==> strs_view(self.permissions@).contains(#[trigger] permissions@[j]@),
            decreases permissions@.len() - i,
        {
            if !self.has_permission(permissions[i]) {
                assert(!strs_view(self.permissions@).contains(permissions@[i as int]@));
                return false;
            }
            i = i + 1;
        }
        true
    }
}

/// The token in an `Authorization` header value: what follows `Bearer `.
pub open spec fn bearer_token(value: Seq<char>) -> Option<Seq<char>> {
    if seq_starts_with(value, "Bearer "@) {
        Some(value.subrange(7, value.len() as int))
    } else {
        None
    }
}

/// The token of a request from its `Authorization` header, if it is a bearer token.
pub fn extract_bearer_token(authorization: Option<&str>) -> (r: Option<String>)
    ensures
        match authorization {
            None => r is None,
            Some(v) => match bearer_token(v@) {
                None => r is None,
                Some(t) => r is Some && r->0@ == t,
            },
        },
{
    match authorization {
        None => None,
        Some(v) => {
            if str_starts_with(v, "Bearer ") {
                proof {
                    reveal_strlit("Bearer ");
                }
                Some(suffix_from(v, 7))
            } else {
                None
            }
        },
    }
}

/// What the authentication step does with a request.
#[derive(Debug, PartialEq, Eq)]
pub enum AuthDecision {
    /// The path is public: pass it on untouched.
    Public,
    /// No bearer token: answer 401.
    Unauthorized,
    /// Verify this token and attach its claims.
    VerifyToken(String),
}

/// The authentication step for a path and its `Authorization` header: public paths
/// pass, a request without a bearer token is refused, any other has its token checked.
pub fn auth_decision(config: &GatewayConfig, path: &str, authorization: Option<&str>) -> (d: AuthDecision)
    ensures
        (exists|i: int|
            0 <= i < config.auth.public_paths@.len() && #[trigger] path_matches(
                config.auth.public_paths@[i]@,
                path@,
            )) ==> d == AuthDecision::Public,
        !(exists|i: int|
            0 <= i < config.auth.public_paths@.len() && #[trigger] path_matches(
                config.auth.public_paths@[i]@,
                path@,
            )) ==> match authorization {
            None => d == AuthDecision::Unauthorized,
            Some(v) => match bearer_token(v@) {
                None => d == AuthDecision::Unauthorized,
                Some(t) => (d matches AuthDecision::VerifyToken(s) && s@ == t),
            },
        },
{
    if config.is_public_path(path) {
        return AuthDecision::Public;
    }
    match extract_bearer_token(authorization) {
        Some(t) => AuthDecision::VerifyToken(t),
        None => AuthDecision::Unauthorized,
    }
}

/// The answer of a permission or role check.
#[derive(Debug, Clone, Copy, PartialEq, Eq, Structural)]
pub enum AccessDecision {
    /// Let the request through.
    Allow,
    /// The user lacks the permission or role: 403.
    Forbidden,
    /// No authenticated user: 401.
    Unauthorized,
}

/// The permission check of a route: no user is 401, a user without the permission 403.
pub fn permission_decision(user: Option<&UserContext>, permission: &str) -> (d: AccessDecision)
    ensures
        match user {
            None => d == AccessDecision::Unauthorized,
            Some(u) => d == if strs_view(u.permissions@).contains(permission@) {
                AccessDecision::Allow
            } else {
                AccessDecision::Forbidden
            },
        },
{
    match user {
        None => AccessDecision::Unauthorized,
        Some(u) => if u.has_permission(permission) {
            AccessDecision::Allow
        } else {
            AccessDecision::Forbidden
        },
    }
}

/// The role check of a route: no user is 401, a user without the role 403.
pub fn role_decision(user: Option<&UserContext>, role: &str) -> (d: AccessDecision)
    ensures
        match user {
            None => d == AccessDecision::Unauthorized,
            Some(u) => d == if strs_view(u.roles@).contains(role@) {
                AccessDecision::Allow
            } else {
                AccessDecision::Forbidden
            },
        },
{
    match user {
        None => AccessDecision::Unauthorized,
        Some(u) => if u.has_role(role) {
            AccessDecision::Allow
        } else {
            AccessDecision::Forbidden
        },
    }
}

/// The key a client is rate limited under: `user:` and its id when authenticated,
/// `ip:` and its address otherwise.
pub fn rate_limit_key(user_id: Option<&str>, client_ip: &str) -> (k: String)
    ensures
        k@ == match user_id {
            Some(u) => "user:"@ + u@,
            None => "ip:"@ + client_ip@,
        },
{
    match user_id {
        Some(u) => concat2("user:", u),
        None => concat2("ip:", client_ip),
    }
}

/// What the rate-limit step does with a request.
#[derive(Debug, PartialEq, Eq)]
pub enum RateLimitDecision {
    /// Limiting is off or the client is exempt: pass.
    Pass,
    /// Check the window of this key.
    Check(String),
}

/// The rate-limit step: nothing is counted when limiting is off or the address is
/// whitelisted; otherwise the client's key is checked.
pub fn rate_limit_decision(config: &GatewayConfig, client_ip: &str, user_id: Option<&str>) -> (d:
    RateLimitDecision)
    ensures
        (!config.rate_limit.enabled || strs_view(config.rate_limit.whitelist@).contains(client_ip@))
            ==> d == RateLimitDecision::Pass,
        (config.rate_limit.enabled && !strs_view(config.rate_limit.whitelist@).contains(client_ip@))
            ==> (d matches RateLimitDecision::Check(k) && k@ == match user_id {
            Some(u) => "user:"@ + u@,
            None => "ip:"@ + client_ip@,
        }),
{
    if !config.rate_limit.enabled || config.is_whitelisted_ip(client_ip) {
        RateLimitDecision::Pass
    } else {
        RateLimitDecision::Check(rate_limit_key(user_id, client_ip))
    }
}

} // verus!
