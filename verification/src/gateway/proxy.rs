//! Shaping of proxied requests: which headers travel, where a request goes, how
//! failures are retried and how outcomes become status codes.

use vstd::prelude::*;
use vstd::arithmetic::power2::{pow2, lemma_pow2_unfold};
use vstd::utf8::encode_utf8;
use crate::gateway::auth::UserContext;
use crate::runtime::{json_string_literal, lowercase_of, percent_encoded, to_lowercase, url_encode};
use crate::text::{
    concat2, concat3, header_value_ok, i64_to_decimal, int_decimal_seq, is_valid_header_value,
    join, join_seq, owned, push_str, seq_starts_with, str_eq, str_starts_with, strs_view,
    suffix_from, trim_end_char, trim_end_matches_char,
};

verus! {

/// Request headers that stay with the hop and are not forwarded.
pub open spec fn request_hop_headers() -> Seq<Seq<char>> {
    seq![
        "host"@,
        "connection"@,
        "upgrade"@,
        "proxy-connection"@,
        "proxy-authenticate"@,
        "proxy-authorization"@,
        "te"@,
        "trailers"@,
        "transfer-encoding"@,
    ]
}

/// Response headers that stay with the hop and are not forwarded.
pub open spec fn response_hop_headers() -> Seq<Seq<char>> {
    seq![
        "connection"@,
        "upgrade"@,
        "proxy-connection"@,
        "proxy-authenticate"@,
        "te"@,
        "trailers"@,
        "transfer-encoding"@,
    ]
}

fn in_list(name: &str, list: &[&str]) -> (r: bool)
    ensures
        r == exists|i: int| 0 <= i < list@.len() && #[trigger] list@[i]@ == name@,
{
    let mut i: usize = 0;
    while i < list.len()
        invariant
            i <= list@.len(),
            forall|j: int| 0 <= j < i ==> #[trigger] list@[j]@ != name@,
        decreases list@.len() - i,
    {
        if str_eq(list[i], name) {
            assert(list@[i as int]@ == name@);
            return true;
        }
        i = i + 1;
    }
    false
}

/// Whether a request header is copied to the downstream request: its lowercase name
/// is not a hop-by-hop header.
pub fn should_forward_header(header_name: &str) -> (r: bool)
    ensures
        r == !request_hop_headers().contains(lowercase_of(header_name@)),
{
    let lower = to_lowercase(header_name);
    let list: [&str; 9] = [
        "host",
        "connection",
        "upgrade",
        "proxy-connection",
        "proxy-authenticate",
        "proxy-authorization",
        "te",
        "trailers",
        "transfer-encoding",
    ];
    let found = in_list(lower.as_str(), &list);
    proof {
        let names = request_hop_headers();
        assert(list@.len() == 9);
        assert forall|i: int| 0 <= i < 9 implies list@[i]@ == names[i] by {}
        if found {
            let i = choose|i: int| 0 <= i < list@.len() && #[trigger] list@[i]@ == lower@;
            assert(names[i] == lower@);
        }
        if names.contains(lower@) {
            let i = choose|i: int| 0 <= i < names.len() && names[i] == lower@;
            assert(list@[i]@ == lower@);
        }
    }
    !found
}

/// Whether a response header is copied back to the client: its lowercase name is not
/// a hop-by-hop header.
pub fn should_forward_response_header(header_name: &str) -> (r: bool)
    ensures
        r == !response_hop_headers().contains(lowercase_of(header_name@)),
{
    let lower = to_lowercase(header_name);
    let list: [&str; 7] = [
        "connection",
        "upgrade",
        "proxy-connection",
        "proxy-authenticate",
        "te",
        "trailers",
        "transfer-encoding",
    ];
    let found = in_list(lower.as_str(), &list);
    proof {
        let names = response_hop_headers();
        assert(list@.len() == 7);
        assert forall|i: int| 0 <= i < 7 implies list@[i]@ == names[i] by {}
        if found {
            let i = choose|i: int| 0 <= i < list@.len() && #[trigger] list@[i]@ == lower@;
            assert(names[i] == lower@);
        }
        if names.contains(lower@) {
            let i = choose|i: int| 0 <= i < names.len() && names[i] == lower@;
            assert(list@[i]@ == lower@);
        }
    }
    !found
}

/// `key=value` with both sides percent-encoded.
pub open spec fn query_pair_text(k: Seq<char>, v: Seq<char>) -> Seq<char> {
    percent_encoded(encode_utf8(k)) + "="@ + percent_encoded(encode_utf8(v))
}

/// The encoded pairs of a query, in order.
pub open spec fn query_pair_texts(q: Seq<(String, String)>) -> Seq<Seq<char>> {
    Seq::new(q.len(), |i: int| query_pair_text(q[i].0@, q[i].1@))
}

/// The downstream URL: the base without trailing slashes, the path, and the query
/// pairs joined by `&` after a `?` when there are any.
pub open spec fn target_url(base: Seq<char>, path: Seq<char>, query: Seq<(String, String)>) -> Seq<char> {
    let head = trim_end_char(base, '/') + path;
    if query.len() == 0 {
        head
    } else {
        head + "?"@ + join_seq(query_pair_texts(query), "&"@)
    }
}

/// Builds the URL a request is forwarded to.
pub fn build_target_url(base_url: &str, path: &str, query: &Vec<(String, String)>) -> (url: String)
    ensures
        url@ == target_url(base_url@, path@, query@),
{
    let trimmed = trim_end_matches_char(base_url, '/');
    let mut url = concat2(trimmed.as_str(), path);
    if query.len() > 0 {
        let mut pairs: Vec<String> = Vec::new();
        let mut i: usize = 0;
        while i < query.len()
            invariant
                i <= query@.len(),
                pairs@.len() == i,
                forall|j: int|
                    0 <= j < i ==> (#[trigger] pairs@[j])@ == query_pair_text(query@[j].0@, query@[j].1@),
            decreases query@.len() - i,
        {
            let k = url_encode(query[i].0.as_str());
            let v = url_encode(query[i].1.as_str());
            pairs.push(concat3(k.as_str(), "=", v.as_str()));
            i = i + 1;
        }
        assert(strs_view(pairs@) =~= query_pair_texts(query@));
        let joined = join(&pairs, "&");
        push_str(&mut url, "?");
        push_str(&mut url, joined.as_str());
    }
    url
}

/// The headers the gateway adds to a proxied request: the request id, and the user's
/// id and name when the request is authenticated.
pub fn proxy_identity_headers(request_id: &str, user: Option<&UserContext>) -> (h: Vec<(String, String)>)
    requires
        header_value_ok(request_id@),
        user matches Some(u) ==> header_value_ok(u.user_id@) && header_value_ok(u.username@),
    ensures
        h@.len() == if user is Some { 3int } else { 1int },
        h@[0].0@ == "x-request-id"@ && h@[0].1@ == request_id@,
        user matches Some(u) ==> h@[1].0@ == "x-user-id"@ && h@[1].1@ == u.user_id@ && h@[2].0@
            == "x-username"@ && h@[2].1@ == u.username@,
{
    let mut h: Vec<(String, String)> = Vec::new();
    h.push((owned("x-request-id"), owned(request_id)));
    if let Some(u) = user {
        h.push((owned("x-user-id"), u.user_id.clone()));
        h.push((owned("x-username"), u.username.clone()));
    }
    h
}

/// The HTTP methods a request can be forwarded with.
#[derive(Debug, Clone, Copy, PartialEq, Eq, Structural)]
pub enum ProxyMethod {
    Get,
    Post,
    Put,
    Delete,
    Head,
    Options,
    Patch,
    Trace,
}

/// The method named by an uppercase method token.
pub open spec fn method_named(name: Seq<char>) -> Option<ProxyMethod> {
    if name == "GET"@ {
        Some(ProxyMethod::Get)
    } else if name == "POST"@ {
        Some(ProxyMethod::Post)
    } else if name == "PUT"@ {
        Some(ProxyMethod::Put)
    } else if name == "DELETE"@ {
        Some(ProxyMethod::Delete)
    } else if name == "HEAD"@ {
        Some(ProxyMethod::Head)
    } else if name == "OPTIONS"@ {
        Some(ProxyMethod::Options)
    } else if name == "PATCH"@ {
        Some(ProxyMethod::Patch)
    } else if name == "TRACE"@ {
        Some(ProxyMethod::Trace)
    } else {
        None
    }
}

/// The forwarded method of a request method; any other method is answered 405.
pub fn convert_method(name: &str) -> (r: Result<ProxyMethod, u16>)
    ensures
        match method_named(name@) {
            Some(m) => r == Ok::<ProxyMethod, u16>(m),
            None => r == Err::<ProxyMethod, u16>(405),
        },
{
    if str_eq(name, "GET") {
        Ok(ProxyMethod::Get)
    } else if str_eq(name, "POST") {
        Ok(ProxyMethod::Post)
    } else if str_eq(name, "PUT") {
        Ok(ProxyMethod::Put)
    } else if str_eq(name, "DELETE") {
        Ok(ProxyMethod::Delete)
    } else if str_eq(name, "HEAD") {
        Ok(ProxyMethod::Head)
    } else if str_eq(name, "OPTIONS") {
        Ok(ProxyMethod::Options)
    } else if str_eq(name, "PATCH") {
        Ok(ProxyMethod::Patch)
    } else if str_eq(name, "TRACE") {
        Ok(ProxyMethod::Trace)
    } else {
        Err(405)
    }
}

/// The status a failed downstream call is answered with: 504 on a timeout, 502 when
/// the connection failed, 500 otherwise.
pub fn send_error_status(is_timeout: bool, is_connect: bool) -> (s: u16)
    ensures
        s == if is_timeout { 504u16 } else if is_connect { 502u16 } else { 500u16 },
{
    if is_timeout {
        504
    } else if is_connect {
        502
    } else {
        500
    }
}

/// Whether a downstream status counts as a failure for the service's breaker: a
/// server error (5xx); anything else counts as a success.
pub fn is_server_error(status: u16) -> (b: bool)
    ensures
        b == (500 <= status && status < 600),
{
    500 <= status && status < 600
}

/// Retries a failing call with exponential backoff. Delays are in milliseconds.
pub struct RequestRetrier {
    pub max_retries: u32,
    pub base_delay: u64,
    pub max_delay: u64,
}

/// The backoff before retry number `attempt + 1`: the base delay doubled `attempt`
/// times, capped at the maximum.
pub open spec fn backoff_delay(base: u64, max: u64, attempt: nat) -> int {
    let d = base * pow2(attempt);
    if d <= max {
        d
    } else {
        max as int
    }
}

impl RequestRetrier {
    /// A retrier with the given retry count and delays (milliseconds).
    pub fn new(max_retries: u32, base_delay: u64, max_delay: u64) -> (r: Self)
        ensures
            r.max_retries == max_retries,
            r.base_delay == base_delay,
            r.max_delay == max_delay,
    {
        RequestRetrier { max_retries, base_delay, max_delay }
    }

    /// The delay (milliseconds) before the retry that follows failed attempt `attempt`.
    pub fn calculate_delay(&self, attempt: u32) -> (d: u64)
        requires
            attempt < 32,
        ensures
            d == backoff_delay(self.base_delay, self.max_delay, attempt as nat),
    {
        let mut p: u64 = 1;
        let mut k: u32 = 0;
        proof {
            vstd::arithmetic::power2::lemma2_to64();
        }
        while k < attempt
            invariant
                k <= attempt < 32,
                p == pow2(k as nat),
                p <= 0x8000_0000u64,
            decreases attempt - k,
        {
            proof {
                lemma_pow2_unfold((k + 1) as nat);
                if k + 1 <= 31 {
                    vstd::arithmetic::power2::lemma_pow2_strictly_increases((k + 1) as nat, 32);
                }
                vstd::arithmetic::power2::lemma2_to64();
            }
            p = p * 2;
            k = k + 1;
        }
        match self.base_delay.checked_mul(p) {
            Some(d) => if d <= self.max_delay {
                d
            } else {
                self.max_delay
            },
            None => self.max_delay,
        }
    }

    /// The delay before the next attempt after attempt `attempt` failed, or `None`
    /// when every retry has been used.
    pub fn delay_before_retry(&self, attempt: u32) -> (d: Option<u64>)
        requires
            attempt < self.max_retries ==> attempt < 32,
        ensures
            attempt < self.max_retries ==> d == Some(
                backoff_delay(self.base_delay, self.max_delay, attempt as nat) as u64,
            ),
            attempt >= self.max_retries ==> d is None,
    {
        if attempt < self.max_retries {
            Some(self.calculate_delay(attempt))
        } else {
            None
        }
    }
}

/// What a retrying caller does after an attempt: stop with this result, or try again
/// after this many milliseconds.
#[derive(Debug, PartialEq, Eq)]
pub enum RetryStep<T, E> {
    Done(Result<T, E>),
    RetryAfter(u64),
}

impl RequestRetrier {
    /// Decides after attempt `attempt` (counted from 0) with its outcome: a success
    /// ends the retries with it; a failure is retried after the backoff while retries
    /// remain, and the failure of the last attempt ends them with that error.
    pub fn after_attempt<T, E>(&self, attempt: u32, outcome: Result<T, E>) -> (s: RetryStep<T, E>)
        requires
            attempt < self.max_retries ==> attempt < 32,
        ensures
            match outcome {
                Ok(v) => s == RetryStep::<T, E>::Done(Ok(v)),
                Err(e) => if attempt < self.max_retries {
                    s == RetryStep::<T, E>::RetryAfter(
                        backoff_delay(self.base_delay, self.max_delay, attempt as nat) as u64,
                    )
                } else {
                    s == RetryStep::<T, E>::Done(Err(e))
                },
            },
    {
        match outcome {
            Ok(v) => RetryStep::Done(Ok(v)),
            Err(e) => match self.delay_before_retry(attempt) {
                Some(d) => RetryStep::RetryAfter(d),
                None => RetryStep::Done(Err(e)),
            },
        }
    }
}

impl Default for RequestRetrier {
    fn default() -> (r: Self)
        ensures
            r.max_retries == 3,
            r.base_delay == 100,
            r.max_delay == 5000,
    {
        RequestRetrier::new(3, 100, 5000)
    }
}

/// The gateway's route prefix of a service.
pub open spec fn gateway_prefix(service: Seq<char>) -> Seq<char> {
    "/api/v1/"@ + service
}

/// The downstream path of a gateway path: the service's gateway prefix removed when
/// the path starts with it, the path itself otherwise.
pub open spec fn transformed_path(path: Seq<char>, service: Seq<char>) -> Seq<char> {
    let p = gateway_prefix(service);
    if seq_starts_with(path, p) {
        path.subrange(p.len() as int, path.len() as int)
    } else {
        path
    }
}

/// Rewrites request paths and adds the headers that carry identity and tracing.
pub struct RequestTransformer;

/// What `serde_json::to_string` writes for a list of strings: the JSON literal of each,
/// separated by commas, between square brackets (the compact formatter).
pub open spec fn json_string_array(items: Seq<Seq<char>>) -> Seq<char> {
    seq!['['] + join_seq(items.map_values(|s: Seq<char>| json_string_literal(s)), ","@) + seq![']']
}

/// `serde_json::to_string(&Vec<String>)`: the JSON array text of the strings, as
/// `json_string_array` states it. Serializing a list of strings cannot fail; should it,
/// the text is empty (`unwrap_or_default`).
#[verifier::external_body]
fn to_json_string_array(items: &Vec<String>) -> (s: String)
    ensures
        s@ == json_string_array(strs_view(items@)),
{
    serde_json::to_string(items).unwrap_or_default()
}

/// Appends a header when its value is a valid header value.
fn push_header_if_valid(h: &mut Vec<(String, String)>, name: &str, value: &str)
    ensures
        header_value_ok(value@) ==> final(h)@.len() == old(h)@.len() + 1 && final(h)@.last().0@
            == name@ && final(h)@.last().1@ == value@ && final(h)@.drop_last() == old(h)@,
        !header_value_ok(value@) ==> final(h)@ == old(h)@,
{
    if is_valid_header_value(value) {
        h.push((owned(name), owned(value)));
        assert(h@.drop_last() =~= old(h)@);
    }
}

/// The headers, in order, that a list of optional headers leaves: those whose value
/// is valid.
pub open spec fn valid_headers(cands: Seq<(Seq<char>, Seq<char>)>) -> Seq<(Seq<char>, Seq<char>)> {
    cands.filter(|p: (Seq<char>, Seq<char>)| header_value_ok(p.1))
}

/// The headers of a list as pairs of texts.
pub open spec fn header_texts(h: Seq<(String, String)>) -> Seq<(Seq<char>, Seq<char>)> {
    Seq::new(h.len(), |i: int| (h[i].0@, h[i].1@))
}

impl RequestTransformer {
    /// The downstream path of a gateway path: `/api/v1/<service>` removed from its start.
    pub fn transform_path(original_path: &str, service_name: &str) -> (r: String)
        ensures
            r@ == transformed_path(original_path@, service_name@),
    {
        let prefix = concat2("/api/v1/", service_name);
        if str_starts_with(original_path, prefix.as_str()) {
            suffix_from(original_path, prefix.as_str().unicode_len())
        } else {
            owned(original_path)
        }
    }

    /// The identity headers of a user: id, name, and roles and permissions as JSON
    /// arrays, each left out when its value is not a valid header value.
    pub fn auth_headers(user_context: &UserContext) -> (h: Vec<(String, String)>)
        ensures
            header_texts(h@) == valid_headers(
                seq![
                    ("x-user-id"@, user_context.user_id@),
                    ("x-username"@, user_context.username@),
                    ("x-user-roles"@, json_string_array(strs_view(user_context.roles@))),
                    ("x-user-permissions"@, json_string_array(strs_view(user_context.permissions@))),
                ],
            ),
    {
        let roles = to_json_string_array(&user_context.roles);
        let perms = to_json_string_array(&user_context.permissions);
        let mut h: Vec<(String, String)> = Vec::new();
        let ghost c0 = ("x-user-id"@, user_context.user_id@);
        let ghost c1 = ("x-username"@, user_context.username@);
        let ghost c2 = ("x-user-roles"@, roles@);
        let ghost c3 = ("x-user-permissions"@, perms@);
        push_header_if_valid(&mut h, "x-user-id", user_context.user_id.as_str());
        let ghost h1 = h@;
        push_header_if_valid(&mut h, "x-username", user_context.username.as_str());
        let ghost h2 = h@;
        push_header_if_valid(&mut h, "x-user-roles", roles.as_str());
        let ghost h3 = h@;
        push_header_if_valid(&mut h, "x-user-permissions", perms.as_str());
        proof {
            let f = |p: (Seq<char>, Seq<char>)| header_value_ok(p.1);
            let s1 = seq![c0];
            let s2 = seq![c0, c1];
            let s3 = seq![c0, c1, c2];
            let s4 = seq![c0, c1, c2, c3];
            assert(s1 =~= Seq::<(Seq<char>, Seq<char>)>::empty().push(c0));
            assert(s2 =~= s1.push(c1));
            assert(s3 =~= s2.push(c2));
            assert(s4 =~= s3.push(c3));
            Seq::<(Seq<char>, Seq<char>)>::empty().lemma_filter_push(c0, f);
            s1.lemma_filter_push(c1, f);
            s2.lemma_filter_push(c2, f);
            s3.lemma_filter_push(c3, f);
            assert(Seq::<(Seq<char>, Seq<char>)>::empty().filter(f) =~= Seq::<(Seq<char>, Seq<char>)>::empty());
            assert(header_texts(h1) =~= s1.filter(f));
            assert(header_texts(h2) =~= s2.filter(f));
            assert(header_texts(h3) =~= s3.filter(f));
            assert(header_texts(h@) =~= s4.filter(f));
        }
        h
    }

    /// The tracing headers of a proxied request: the request id, the source and target
    /// services (when the target name is a valid header value) and the time in seconds.
    pub fn tracing_headers(request_id: &str, service_name: &str, timestamp: i64) -> (h: Vec<(String, String)>)
        ensures
            header_texts(h@) == valid_headers(seq![("x-request-id"@, request_id@)]) + (if header_value_ok(
                service_name@,
            ) {
                seq![("x-source-service"@, "gateway"@), ("x-target-service"@, service_name@)]
            } else {
                Seq::empty()
            }) + seq![("x-request-timestamp"@, int_decimal_seq(timestamp as int))],
    {
        let mut h: Vec<(String, String)> = Vec::new();
        push_header_if_valid(&mut h, "x-request-id", request_id);
        let ghost h1 = h@;
        proof {
            let f = |p: (Seq<char>, Seq<char>)| header_value_ok(p.1);
            let c0 = ("x-request-id"@, request_id@);
            assert(seq![c0] =~= Seq::<(Seq<char>, Seq<char>)>::empty().push(c0));
            Seq::<(Seq<char>, Seq<char>)>::empty().lemma_filter_push(c0, f);
            assert(Seq::<(Seq<char>, Seq<char>)>::empty().filter(f) =~= Seq::<(Seq<char>, Seq<char>)>::empty());
            assert(header_texts(h1) =~= valid_headers(seq![c0]));
        }
        if is_valid_header_value(service_name) {
            h.push((owned("x-source-service"), owned("gateway")));
            h.push((owned("x-target-service"), owned(service_name)));
        }
        let ghost h2 = h@;
        let ts = i64_to_decimal(timestamp);
        h.push((owned("x-request-timestamp"), ts));
        proof {
            let tail = if header_value_ok(service_name@) {
                seq![("x-source-service"@, "gateway"@), ("x-target-service"@, service_name@)]
            } else {
                Seq::<(Seq<char>, Seq<char>)>::empty()
            };
            assert(header_texts(h2) =~= header_texts(h1) + tail);
            assert(header_texts(h@) =~= header_texts(h1) + tail + seq![(
                "x-request-timestamp"@,
                int_decimal_seq(timestamp as int),
            )]);
        }
        h
    }
}

/// Exponential backoff: the first retry waits the base delay, and each later one
/// waits twice as long as the one before, never more than the maximum delay.
pub proof fn law_backoff_doubles_up_to_cap(base: u64, max: u64, attempt: nat)
    ensures
        backoff_delay(base, max, 0) == (if base <= max {
            base as int
        } else {
            max as int
        }),
        backoff_delay(base, max, attempt + 1) == (if 2 * backoff_delay(base, max, attempt) <= max {
            2 * backoff_delay(base, max, attempt)
        } else {
            max as int
        }),
{
    vstd::arithmetic::power2::lemma2_to64();
    lemma_pow2_unfold(attempt + 1);
    let p = pow2(attempt);
    assert(base * pow2(attempt + 1) == 2 * (base * p)) by (nonlinear_arith)
        requires
            pow2(attempt + 1) == 2 * p,
    ;
    assert(base * p >= 0) by (nonlinear_arith)
        requires
            p >= 0,
    ;
}

} // verus!
