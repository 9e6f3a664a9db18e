//! The HTTP interface of the market-data service: response envelopes, errors with
//! their status codes, and the checks on paging and time-range parameters.

use vstd::prelude::*;
use crate::runtime::{utc_now_millis, CLOCK_LIMIT_MS};
use crate::text::{concat2, owned};

verus! {

/// The envelope of every API response; `timestamp` is in milliseconds.
pub struct ApiResponse<T> {
    pub success: bool,
    pub data: Option<T>,
    pub error: Option<String>,
    pub timestamp: i64,
}

impl<T> ApiResponse<T> {
    /// A successful response carrying `data`, stamped `now_ms`.
    pub fn success_at(data: T, now_ms: i64) -> (r: Self)
        ensures
            r.success,
            r.data == Some(data),
            r.error is None,
            r.timestamp == now_ms,
    {
        ApiResponse { success: true, data: Some(data), error: None, timestamp: now_ms }
    }

    /// A successful response carrying `data`, stamped with the current time.
    pub fn success(data: T) -> (r: Self)
        ensures
            r.success,
            r.data == Some(data),
            r.error is None,
    {
        ApiResponse::success_at(data, utc_now_millis())
    }
}

impl ApiResponse<()> {
    /// A failed response carrying an error text, stamped `now_ms`.
    pub fn error_at(error: String, now_ms: i64) -> (r: Self)
        ensures
            !r.success,
            r.data is None,
            r.error matches Some(e) && e@ == error@,
            r.timestamp == now_ms,
    {
        ApiResponse { success: false, data: None, error: Some(error), timestamp: now_ms }
    }

    /// A failed response carrying an error text, stamped with the current time.
    pub fn error(error: String) -> (r: Self)
        ensures
            !r.success,
            r.data is None,
            r.error matches Some(e) && e@ == error@,
    {
        ApiResponse::<()>::error_at(error, utc_now_millis())
    }
}

/// Why an API request failed.
#[derive(Debug)]
pub enum ApiError {
    NotFound(String),
    BadRequest(String),
    InternalServerError(String),
    ServiceUnavailable(String),
    RateLimitExceeded,
    Unauthorized,
}

/// The HTTP status of an API error.
pub open spec fn api_status(e: ApiError) -> u16 {
    match e {
        ApiError::NotFound(_) => 404,
        ApiError::BadRequest(_) => 400,
        ApiError::InternalServerError(_) => 500,
        ApiError::ServiceUnavailable(_) => 503,
        ApiError::RateLimitExceeded => 429,
        ApiError::Unauthorized => 401,
    }
}

/// The message of an API error.
pub open spec fn api_error_text(e: ApiError) -> Seq<char> {
    match e {
        ApiError::NotFound(d) => "Not found: "@ + d@,
        ApiError::BadRequest(d) => "Bad request: "@ + d@,
        ApiError::InternalServerError(d) => "Internal server error: "@ + d@,
        ApiError::ServiceUnavailable(d) => "Service unavailable: "@ + d@,
        ApiError::RateLimitExceeded => "Rate limit exceeded"@,
        ApiError::Unauthorized => "Unauthorized"@,
    }
}

impl ApiError {
    /// The HTTP status code of the error.
    pub fn status_code(&self) -> (s: u16)
        ensures
            s == api_status(*self),
    {
        match self {
            ApiError::NotFound(_) => 404,
            ApiError::BadRequest(_) => 400,
            ApiError::InternalServerError(_) => 500,
            ApiError::ServiceUnavailable(_) => 503,
            ApiError::RateLimitExceeded => 429,
            ApiError::Unauthorized => 401,
        }
    }

    /// The message of the error.
    pub fn message(&self) -> (m: String)
        ensures
            m@ == api_error_text(*self),
    {
        match self {
            ApiError::NotFound(d) => concat2("Not found: ", d.as_str()),
            ApiError::BadRequest(d) => concat2("Bad request: ", d.as_str()),
            ApiError::InternalServerError(d) => concat2("Internal server error: ", d.as_str()),
            ApiError::ServiceUnavailable(d) => concat2("Service unavailable: ", d.as_str()),
            ApiError::RateLimitExceeded => owned("Rate limit exceeded"),
            ApiError::Unauthorized => owned("Unauthorized"),
        }
    }

    /// The status code and the failed response that carries the message, stamped
    /// `now_ms`.
    pub fn to_response_at(&self, now_ms: i64) -> (r: (u16, ApiResponse<()>))
        ensures
            r.0 == api_status(*self),
            !r.1.success,
            r.1.data is None,
            r.1.error matches Some(e) && e@ == api_error_text(*self),
            r.1.timestamp == now_ms,
    {
        (self.status_code(), ApiResponse::<()>::error_at(self.message(), now_ms))
    }

    /// The status code and the failed response that carries the message.
    pub fn to_response(&self) -> (r: (u16, ApiResponse<()>))
        ensures
            r.0 == api_status(*self),
            !r.1.success,
            r.1.error matches Some(e) && e@ == api_error_text(*self),
    {
        self.to_response_at(utc_now_millis())
    }
}

/// Paging of a listing: the page, counted from 1, and its size.
pub struct PaginationParams {
    pub page: Option<u32>,
    pub limit: Option<u32>,
}

impl Default for PaginationParams {
    fn default() -> (r: Self)
        ensures
            r.page == Some(1u32),
            r.limit == Some(50u32),
    {
        PaginationParams { page: Some(1), limit: Some(50) }
    }
}

/// The page in effect: 1 when none is given.
pub open spec fn page_of(p: PaginationParams) -> int {
    match p.page {
        Some(n) => n as int,
        None => 1,
    }
}

/// The page size asked for: 50 when none is given.
pub open spec fn limit_of(p: PaginationParams) -> int {
    match p.limit {
        Some(n) => n as int,
        None => 50,
    }
}

/// The number of items before the page: the pages before it times the page size,
/// page 0 counting as page 1.
pub open spec fn offset_of(p: PaginationParams) -> int {
    (if page_of(p) >= 1 { page_of(p) - 1 } else { 0 }) * limit_of(p)
}

/// The outcome of checking paging: a page of 0, a size of 0, or a size over 1000
/// are refused, in that order.
pub open spec fn pagination_check(p: PaginationParams) -> Result<(), Seq<char>> {
    if p.page == Some(0u32) {
        Err("Page must be greater than 0"@)
    } else if p.limit == Some(0u32) {
        Err("Limit must be greater than 0"@)
    } else if p.limit matches Some(l) && l > 1000 {
        Err("Limit cannot exceed 1000"@)
    } else {
        Ok(())
    }
}

/// An error outcome of a check as the API error it is answered with.
pub open spec fn bad_request_matches(r: Result<(), ApiError>, c: Result<(), Seq<char>>) -> bool {
    match c {
        Ok(()) => r is Ok,
        Err(m) => r matches Err(ApiError::BadRequest(d)) && d@ == m,
    }
}

impl PaginationParams {
    /// The number of items before the page.
    pub fn offset(&self) -> (o: u32)
        requires
            offset_of(*self) <= u32::MAX,
        ensures
            o == offset_of(*self),
    {
        let page = match self.page {
            Some(n) => n,
            None => 1,
        };
        let limit = match self.limit {
            Some(n) => n,
            None => 50,
        };
        let before = if page >= 1 { page - 1 } else { 0 };
        before * limit
    }

    /// The page size in effect: the one asked for, 50 when none is, at most 1000.
    pub fn limit(&self) -> (l: u32)
        ensures
            l == (if limit_of(*self) < 1000 { limit_of(*self) } else { 1000 }),
    {
        let limit = match self.limit {
            Some(n) => n,
            None => 50,
        };
        if limit < 1000 {
            limit
        } else {
            1000
        }
    }

    /// Checks the paging; a refusal is a bad request with the reason.
    pub fn validate(&self) -> (r: Result<(), ApiError>)
        ensures
            bad_request_matches(r, pagination_check(*self)),
    {
        if let Some(page) = self.page {
            if page == 0 {
                return Err(ApiError::BadRequest(owned("Page must be greater than 0")));
            }
        }
        if let Some(limit) = self.limit {
            if limit == 0 {
                return Err(ApiError::BadRequest(owned("Limit must be greater than 0")));
            }
            if limit > 1000 {
                return Err(ApiError::BadRequest(owned("Limit cannot exceed 1000")));
            }
        }
        Ok(())
    }
}

/// A time range in milliseconds since the epoch; either end may be open.
pub struct TimeRangeParams {
    pub start_time: Option<i64>,
    pub end_time: Option<i64>,
}

/// One day in milliseconds.
pub const DAY_MS: i64 = 86_400_000;

/// The outcome of checking a time range at `now`: when both ends are given, the
/// start must come before the end and neither may lie after `now`.
pub open spec fn time_range_check(t: TimeRangeParams, now: i64) -> Result<(), Seq<char>> {
    match (t.start_time, t.end_time) {
        (Some(s), Some(e)) => if s >= e {
            Err("Start time must be before end time"@)
        } else if s > now || e > now {
            Err("Time cannot be in the future"@)
        } else {
            Ok(())
        },
        _ => Ok(()),
    }
}

impl TimeRangeParams {
    /// Checks the range against the time `now_ms`.
    pub fn validate_at(&self, now_ms: i64) -> (r: Result<(), ApiError>)
        ensures
            bad_request_matches(r, time_range_check(*self, now_ms)),
    {
        if let (Some(start), Some(end)) = (self.start_time, self.end_time) {
            if start >= end {
                return Err(ApiError::BadRequest(owned("Start time must be before end time")));
            }
            if start > now_ms || end > now_ms {
                return Err(ApiError::BadRequest(owned("Time cannot be in the future")));
            }
        }
        Ok(())
    }

    /// Checks the range against the current time.
    pub fn validate(&self) -> (r: Result<(), ApiError>)
        ensures
            exists|now: i64| bad_request_matches(r, time_range_check(*self, now)),
    {
        self.validate_at(utc_now_millis())
    }

    /// The start of the range at `now_ms`: the given one, else a day before.
    pub fn start_time_at(&self, now_ms: i64) -> (t: i64)
        requires
            self.start_time is None ==> now_ms >= i64::MIN + DAY_MS,
        ensures
            t == (match self.start_time {
                Some(s) => s as int,
                None => now_ms - DAY_MS,
            }),
    {
        match self.start_time {
            Some(s) => s,
            None => now_ms - DAY_MS,
        }
    }

    /// The start of the range: the given one, else a day before now.
    pub fn start_time(&self) -> (t: i64)
        ensures
            self.start_time matches Some(s) ==> t == s,
            self.start_time is None ==> 0 <= t + DAY_MS <= CLOCK_LIMIT_MS,
    {
        match self.start_time {
            Some(s) => s,
            None => {
                let now = utc_now_millis();
                self.start_time_at(now)
            },
        }
    }

    /// The end of the range at `now_ms`: the given one, else `now_ms`.
    pub fn end_time_at(&self, now_ms: i64) -> (t: i64)
        ensures
            t == (match self.end_time {
                Some(e) => e,
                None => now_ms,
            }),
    {
        match self.end_time {
            Some(e) => e,
            None => now_ms,
        }
    }

    /// The end of the range: the given one, else now.
    pub fn end_time(&self) -> (t: i64)
        ensures
            self.end_time matches Some(e) ==> t == e,
            self.end_time is None ==> 0 <= t <= CLOCK_LIMIT_MS,
    {
        self.end_time_at(utc_now_millis())
    }
}

/// The query parameters of a listing.
pub struct QueryParams {
    pub pagination: PaginationParams,
    pub time_range: TimeRangeParams,
    pub exchange: Option<String>,
    pub symbol: Option<String>,
    pub interval: Option<String>,
}

impl QueryParams {
    /// Checks the paging, then the time range at `now_ms`.
    pub fn validate_at(&self, now_ms: i64) -> (r: Result<(), ApiError>)
        ensures
            pagination_check(self.pagination) is Err ==> bad_request_matches(
                r,
                pagination_check(self.pagination),
            ),
            pagination_check(self.pagination) is Ok ==> bad_request_matches(
                r,
                time_range_check(self.time_range, now_ms),
            ),
    {
        match self.pagination.validate() {
            Err(e) => Err(e),
            Ok(()) => self.time_range.validate_at(now_ms),
        }
    }

    /// Checks the paging, then the time range against the current time.
    pub fn validate(&self) -> (r: Result<(), ApiError>)
        ensures
            pagination_check(self.pagination) is Err ==> bad_request_matches(
                r,
                pagination_check(self.pagination),
            ),
            pagination_check(self.pagination) is Ok ==> exists|now: i64|
                bad_request_matches(r, time_range_check(self.time_range, now)),
    {
        self.validate_at(utc_now_millis())
    }
}

} // verus!
