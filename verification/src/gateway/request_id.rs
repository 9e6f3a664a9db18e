//! Request identifiers: kept from the incoming header or freshly generated.

use vstd::prelude::*;
use crate::runtime::{is_uuid_v4_text, new_uuid_v4_string};
use crate::text::owned;

verus! {

/// The request-id step of the gateway.
pub struct RequestIdMiddleware;

impl RequestIdMiddleware {
    /// The step.
    pub fn new() -> (m: Self) {
        RequestIdMiddleware
    }
}

impl Default for RequestIdMiddleware {
    fn default() -> (m: Self) {
        RequestIdMiddleware
    }
}

/// The identifier attached to a request.
pub struct RequestId(pub String);

impl RequestId {
    /// The identifier's text.
    pub fn as_str(&self) -> (s: &str)
        ensures
            s@ == self.0@,
    {
        self.0.as_str()
    }

    /// The identifier's text, owned.
    pub fn to_string(&self) -> (s: String)
        ensures
            s@ == self.0@,
    {
        self.0.clone()
    }
}

/// A new identifier: a random version-4 UUID in hyphenated lowercase form.
pub fn generate_request_id() -> (s: String)
    ensures
        is_uuid_v4_text(s@),
{
    new_uuid_v4_string()
}

/// The identifier of a request: the one its `x-request-id` header carries, or a
/// new one when it carries none.
pub fn request_id_for(header: Option<&str>) -> (id: RequestId)
    ensures
        match header {
            Some(h) => id.0@ == h@,
            None => is_uuid_v4_text(id.0@),
        },
{
    match header {
        Some(h) => RequestId(owned(h)),
        None => RequestId(generate_request_id()),
    }
}

} // verus!
