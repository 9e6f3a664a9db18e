//! Cross-origin policy: the builder of a policy and the headers it adds to answers.

use vstd::prelude::*;
use crate::gateway::config::CorsConfig;
use crate::text::{trim, trimmed};
use crate::text::{
    clone_strings, contains_str, decimal_seq, header_value_ok, join, join_seq, owned,
    split_char, split_on_char, strs_view, u64_to_decimal,
};

verus! {

/// The cross-origin step of the gateway, with its policy.
pub struct CorsMiddleware {
    pub config: CorsConfig,
}

impl CorsMiddleware {
    /// A step applying `config`.
    pub fn new(config: CorsConfig) -> (m: Self)
        ensures
            m.config == config,
    {
        CorsMiddleware { config }
    }
}

/// `list` with `s` appended unless it is already there.
pub open spec fn with_unique(list: Seq<Seq<char>>, s: Seq<char>) -> Seq<Seq<char>> {
    if list.contains(s) {
        list
    } else {
        list.push(s)
    }
}

/// `list` with each of `items` appended, in order, unless already there.
pub open spec fn with_all_unique(list: Seq<Seq<char>>, items: Seq<Seq<char>>) -> Seq<Seq<char>>
    decreases items.len(),
{
    if items.len() == 0 {
        list
    } else {
        with_unique(with_all_unique(list, items.drop_last()), items.last())
    }
}

/// Appends `s` to a list of strings unless it is already there.
fn push_unique(list: &mut Vec<String>, s: &str)
    ensures
        strs_view(final(list)@) == with_unique(strs_view(old(list)@), s@),
{
    if !contains_str(list, s) {
        list.push(owned(s));
        assert(strs_view(list@) =~= strs_view(old(list)@).push(s@));
    }
}

/// Appends each of `items` unless already there.
fn push_all_unique(list: &mut Vec<String>, items: &Vec<&str>)
    ensures
        strs_view(final(list)@) == with_all_unique(
            strs_view(old(list)@),
            Seq::new(items@.len(), |i: int| items@[i]@),
        ),
{
    let ghost its = Seq::new(items@.len(), |i: int| items@[i]@);
    let mut i: usize = 0;
    while i < items.len()
        invariant
            i <= items@.len(),
            its == Seq::new(items@.len(), |i: int| items@[i]@),
            strs_view(list@) == with_all_unique(strs_view(old(list)@), its.subrange(0, i as int)),
        decreases items@.len() - i,
    {
        assert(its.subrange(0, i + 1).drop_last() =~= its.subrange(0, i as int));
        push_unique(list, items[i]);
        i = i + 1;
    }
    assert(its.subrange(0, items@.len() as int) =~= its);
}

/// Builds a cross-origin policy from the default one.
pub struct CorsConfigBuilder {
    pub config: CorsConfig,
}

impl CorsConfigBuilder {
    /// Starts from the default policy.
    pub fn new() -> (b: Self)
        ensures
            b.config.enabled,
            strs_view(b.config.allowed_origins@) == seq!["*"@],
            strs_view(b.config.allowed_methods@) == seq![
                "GET"@,
                "POST"@,
                "PUT"@,
                "DELETE"@,
                "PATCH"@,
                "OPTIONS"@,
            ],
            strs_view(b.config.allowed_headers@) == seq![
                "Content-Type"@,
                "Authorization"@,
                "X-Requested-With"@,
                "X-Request-ID"@,
            ],
            b.config.max_age == 3600,
    {
        CorsConfigBuilder { config: CorsConfig::default() }
    }

    /// Allows an origin.
    pub fn allow_origin(self, origin: &str) -> (b: Self)
        ensures
            strs_view(b.config.allowed_origins@) == with_unique(
                strs_view(self.config.allowed_origins@),
                origin@,
            ),
            b.config.allowed_methods == self.config.allowed_methods,
            b.config.allowed_headers == self.config.allowed_headers,
            b.config.enabled == self.config.enabled,
            b.config.max_age == self.config.max_age,
    {
        let mut b = self;
        push_unique(&mut b.config.allowed_origins, origin);
        b
    }

    /// Allows several origins.
    pub fn allow_origins(self, origins: Vec<&str>) -> (b: Self)
        ensures
            strs_view(b.config.allowed_origins@) == with_all_unique(
                strs_view(self.config.allowed_origins@),
                Seq::new(origins@.len(), |i: int| origins@[i]@),
            ),
            b.config.allowed_methods == self.config.allowed_methods,
            b.config.allowed_headers == self.config.allowed_headers,
            b.config.enabled == self.config.enabled,
            b.config.max_age == self.config.max_age,
    {
        let mut b = self;
        push_all_unique(&mut b.config.allowed_origins, &origins);
        b
    }

    /// Allows a method.
    pub fn allow_method(self, method: &str) -> (b: Self)
        ensures
            strs_view(b.config.allowed_methods@) == with_unique(
                strs_view(self.config.allowed_methods@),
                method@,
            ),
            b.config.allowed_origins == self.config.allowed_origins,
            b.config.allowed_headers == self.config.allowed_headers,
            b.config.enabled == self.config.enabled,
            b.config.max_age == self.config.max_age,
    {
        let mut b = self;
        push_unique(&mut b.config.allowed_methods, method);
        b
    }

    /// Allows several methods.
    pub fn allow_methods(self, methods: Vec<&str>) -> (b: Self)
        ensures
            strs_view(b.config.allowed_methods@) == with_all_unique(
                strs_view(self.config.allowed_methods@),
                Seq::new(methods@.len(), |i: int| methods@[i]@),
            ),
            b.config.allowed_origins == self.config.allowed_origins,
            b.config.allowed_headers == self.config.allowed_headers,
            b.config.enabled == self.config.enabled,
            b.config.max_age == self.config.max_age,
    {
        let mut b = self;
        push_all_unique(&mut b.config.allowed_methods, &methods);
        b
    }

    /// Allows a request header.
    pub fn allow_header(self, header: &str) -> (b: Self)
        ensures
            strs_view(b.config.allowed_headers@) == with_unique(
                strs_view(self.config.allowed_headers@),
                header@,
            ),
            b.config.allowed_origins == self.config.allowed_origins,
            b.config.allowed_methods == self.config.allowed_methods,
            b.config.enabled == self.config.enabled,
            b.config.max_age == self.config.max_age,
    {
        let mut b = self;
        push_unique(&mut b.config.allowed_headers, header);
        b
    }

    /// Allows several request headers.
    pub fn allow_headers(self, headers: Vec<&str>) -> (b: Self)
        ensures
            strs_view(b.config.allowed_headers@) == with_all_unique(
                strs_view(self.config.allowed_headers@),
                Seq::new(headers@.len(), |i: int| headers@[i]@),
            ),
            b.config.allowed_origins == self.config.allowed_origins,
            b.config.allowed_methods == self.config.allowed_methods,
            b.config.enabled == self.config.enabled,
            b.config.max_age == self.config.max_age,
    {
        let mut b = self;
        push_all_unique(&mut b.config.allowed_headers, &headers);
        b
    }

    /// Sets how long a preflight answer may be cached, in seconds.
    pub fn max_age(self, max_age: u64) -> (b: Self)
        ensures
            b.config.max_age == max_age,
            b.config.allowed_origins == self.config.allowed_origins,
            b.config.allowed_methods == self.config.allowed_methods,
            b.config.allowed_headers == self.config.allowed_headers,
            b.config.enabled == self.config.enabled,
    {
        let mut b = self;
        b.config.max_age = max_age;
        b
    }

    /// The policy built so far.
    pub fn build(self) -> (c: CorsConfig)
        ensures
            c == self.config,
    {
        self.config
    }
}

impl Default for CorsConfigBuilder {
    fn default() -> (b: Self)
        ensures
            b.config.enabled,
            b.config.max_age == 3600,
    {
        Self::new()
    }
}

/// The headers exposed to cross-origin scripts.
pub open spec fn exposed_headers() -> Seq<char> {
    "x-request-id, x-ratelimit-remaining, x-ratelimit-reset"@
}

/// The cross-origin headers of an answer, as (name, value) texts in order:
/// the allowed origin (the request's origin when it is allowed or any origin is, `*`
/// when the request names none and any origin is allowed), credentials when origins
/// are listed, the cache age and the exposed headers.
pub open spec fn cors_header_texts(c: CorsConfig, origin: Option<Seq<char>>) -> Seq<(Seq<char>, Seq<char>)> {
    let wildcard = strs_view(c.allowed_origins@).contains("*"@);
    let allow_origin: Seq<(Seq<char>, Seq<char>)> = match origin {
        Some(o) => if wildcard || strs_view(c.allowed_origins@).contains(o) {
            seq![("access-control-allow-origin"@, o)]
        } else {
            Seq::empty()
        },
        None => if wildcard {
            seq![("access-control-allow-origin"@, "*"@)]
        } else {
            Seq::empty()
        },
    };
    let credentials: Seq<(Seq<char>, Seq<char>)> = if !wildcard {
        seq![("access-control-allow-credentials"@, "true"@)]
    } else {
        Seq::empty()
    };
    allow_origin + credentials + seq![
        ("access-control-max-age"@, decimal_seq(c.max_age as nat)),
        ("access-control-expose-headers"@, exposed_headers()),
    ]
}

/// The headers of a list as pairs of texts.
pub open spec fn pair_texts(h: Seq<(String, String)>) -> Seq<(Seq<char>, Seq<char>)> {
    Seq::new(h.len(), |i: int| (h[i].0@, h[i].1@))
}

/// The cross-origin headers added to an answer.
pub fn cors_headers(config: &CorsConfig, origin: Option<&str>) -> (h: Vec<(String, String)>)
    ensures
        pair_texts(h@) == cors_header_texts(
            *config,
            match origin {
                Some(o) => Some(o@),
                None => None,
            },
        ),
{
    let mut h: Vec<(String, String)> = Vec::new();
    let wildcard = contains_str(&config.allowed_origins, "*");
    match origin {
        Some(o) => {
            if wildcard || contains_str(&config.allowed_origins, o) {
                h.push((owned("access-control-allow-origin"), owned(o)));
            }
        },
        None => {
            if wildcard {
                h.push((owned("access-control-allow-origin"), owned("*")));
            }
        },
    }
    let ghost h1 = h@;
    if !wildcard {
        h.push((owned("access-control-allow-credentials"), owned("true")));
    }
    let ghost h2 = h@;
    h.push((owned("access-control-max-age"), u64_to_decimal(config.max_age)));
    h.push(
        (
            owned("access-control-expose-headers"),
            owned("x-request-id, x-ratelimit-remaining, x-ratelimit-reset"),
        ),
    );
    proof {
        let o = match origin {
            Some(o) => Some(o@),
            None => None,
        };
        let t = cors_header_texts(*config, o);
        assert(pair_texts(h@) =~= t);
    }
    h
}

/// The requested headers that the policy allows, trimmed, in request order.
pub open spec fn allowed_requested_headers(c: CorsConfig, requested: Seq<char>) -> Seq<Seq<char>> {
    Seq::new(split_char(requested, ','@).len(), |i: int| trimmed(split_char(requested, ','@)[i])).filter(
        |h: Seq<char>| strs_view(c.allowed_headers@).contains(h),
    )
}

/// The answer headers of a preflight request: the cross-origin headers, the allowed
/// methods when the requested method is one of them, and the allowed subset of the
/// requested headers when it is not empty.
pub open spec fn preflight_header_texts(
    c: CorsConfig,
    origin: Option<Seq<char>>,
    method: Option<Seq<char>>,
    requested: Option<Seq<char>>,
) -> Seq<(Seq<char>, Seq<char>)> {
    let methods: Seq<(Seq<char>, Seq<char>)> = match method {
        Some(m) => if strs_view(c.allowed_methods@).contains(m) {
            seq![("access-control-allow-methods"@, join_seq(strs_view(c.allowed_methods@), ", "@))]
        } else {
            Seq::empty()
        },
        None => Seq::empty(),
    };
    let headers: Seq<(Seq<char>, Seq<char>)> = match requested {
        Some(r) => if allowed_requested_headers(c, r).len() > 0 {
            seq![("access-control-allow-headers"@, join_seq(allowed_requested_headers(c, r), ", "@))]
        } else {
            Seq::empty()
        },
        None => Seq::empty(),
    };
    cors_header_texts(c, origin) + methods + headers
}

/// The headers of the answer to a preflight request.
pub fn preflight_headers(
    config: &CorsConfig,
    origin: Option<&str>,
    requested_method: Option<&str>,
    requested_headers: Option<&str>,
) -> (h: Vec<(String, String)>)
    ensures
        pair_texts(h@) == preflight_header_texts(
            *config,
            match origin {
                Some(o) => Some(o@),
                None => None,
            },
            match requested_method {
                Some(m) => Some(m@),
                None => None,
            },
            match requested_headers {
                Some(r) => Some(r@),
                None => None,
            },
        ),
{
    let mut h = cors_headers(config, origin);
    let ghost h0 = h@;
    if let Some(m) = requested_method {
        if contains_str(&config.allowed_methods, m) {
            h.push((owned("access-control-allow-methods"), join(&config.allowed_methods, ", ")));
        }
    }
    let ghost h1 = h@;
    if let Some(r) = requested_headers {
        let pieces = split_on_char(r, ',');
        let ghost trimmed_all = Seq::new(
            split_char(r@, ','@).len(),
            |i: int| trimmed(split_char(r@, ','@)[i]),
        );
        let ghost f = |hd: Seq<char>| strs_view(config.allowed_headers@).contains(hd);
        let mut allowed: Vec<String> = Vec::new();
        let mut i: usize = 0;
        while i < pieces.len()
            invariant
                i <= pieces@.len(),
                strs_view(pieces@) == split_char(r@, ','@),
                trimmed_all == Seq::new(
                    split_char(r@, ','@).len(),
                    |i: int| trimmed(split_char(r@, ','@)[i]),
                ),
                f == (|hd: Seq<char>| strs_view(config.allowed_headers@).contains(hd)),
                strs_view(allowed@) == trimmed_all.subrange(0, i as int).filter(f),
            decreases pieces@.len() - i,
        {
            let t = trim(pieces[i].as_str());
            assert(trimmed_all.subrange(0, i + 1) =~= trimmed_all.subrange(0, i as int).push(t@));
            proof {
                trimmed_all.subrange(0, i as int).lemma_filter_push(t@, f);
            }
            if contains_str(&config.allowed_headers, t.as_str()) {
                allowed.push(t);
                assert(strs_view(allowed@) =~= trimmed_all.subrange(0, i as int).filter(f).push(
                    trimmed_all[i as int],
                ));
            } else {
                assert(strs_view(allowed@) =~= trimmed_all.subrange(0, i as int).filter(f));
            }
            i = i + 1;
        }
        assert(trimmed_all.subrange(0, pieces@.len() as int) =~= trimmed_all);
        if allowed.len() > 0 {
            h.push((owned("access-control-allow-headers"), join(&allowed, ", ")));
        }
    }
    proof {
        let t = preflight_header_texts(
            *config,
            match origin {
                Some(o) => Some(o@),
                None => None,
            },
            match requested_method {
                Some(m) => Some(m@),
                None => None,
            },
            match requested_headers {
                Some(r) => Some(r@),
                None => None,
            },
        );
        assert(pair_texts(h@) =~= t);
    }
    h
}

/// A request from an origin that the policy lists, or from any origin when the
/// policy lists `*`, is answered with that very origin as the allowed one; any other
/// origin gets no allowed-origin header at all.
pub proof fn law_listed_origin_is_allowed(c: CorsConfig, o: Seq<char>)
    ensures
        cors_header_texts(c, Some(o)).contains(("access-control-allow-origin"@, o)) <==> (strs_view(
            c.allowed_origins@,
        ).contains(o) || strs_view(c.allowed_origins@).contains("*"@)),
        forall|v: Seq<char>|
            #[trigger] cors_header_texts(c, Some(o)).contains(("access-control-allow-origin"@, v)) ==> v
                == o,
{
    reveal_strlit("access-control-allow-origin");
    reveal_strlit("access-control-allow-credentials");
    reveal_strlit("access-control-max-age");
    reveal_strlit("access-control-expose-headers");
    let name = "access-control-allow-origin"@;
    assert(name.len() == 27);
    assert("access-control-allow-credentials"@.len() == 32);
    assert("access-control-max-age"@.len() == 22);
    assert("access-control-expose-headers"@.len() == 29);
    let h = cors_header_texts(c, Some(o));
    let allowed = strs_view(c.allowed_origins@).contains(o) || strs_view(c.allowed_origins@).contains("*"@);
    if allowed {
        assert(h[0] == (name, o));
    }
    assert forall|v: Seq<char>| #[trigger] h.contains((name, v)) implies v == o && allowed by {
        let j = choose|j: int| 0 <= j < h.len() && h[j] == (name, v);
        if !allowed || j > 0 {
            assert(h[j].0.len() != 27);
        }
    }
}

} // verus!
