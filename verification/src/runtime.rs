//! Calls whose results come from the machine or from other crates: clocks,
//! random identifiers, lowercase conversion and percent-encoding.

use vstd::prelude::*;
use vstd::string::*;
use vstd::utf8::{decode_utf8, encode_utf8, valid_utf8};

verus! {

/// A reading of the system clock.
#[verifier::external_type_specification]
#[verifier::external_body]
pub struct ExSystemTime(std::time::SystemTime);

/// `std::time::SystemTime::now`: the machine's clock. Nothing is claimed of it.
#[verifier::external_body]
fn clock_now() -> (t: std::time::SystemTime) {
    std::time::SystemTime::now()
}

/// `SystemTime::duration_since(UNIX_EPOCH)`: how far a reading lies after the
/// epoch (`Ok`), or, from its error (`SystemTimeError::duration`), how far before it
/// (`Err`). Nothing is claimed of the durations.
#[verifier::external_body]
fn since_epoch(t: &std::time::SystemTime) -> (r: Result<core::time::Duration, core::time::Duration>) {
    match t.duration_since(std::time::UNIX_EPOCH) {
        Ok(d) => Ok(d),
        Err(e) => Err(e.duration()),
    }
}

/// `Duration::as_millis`: the whole milliseconds of a duration.
#[verifier::external_body]
fn whole_millis(d: &core::time::Duration) -> (ms: u128) {
    d.as_millis()
}

/// `Duration::as_secs`: the whole seconds of a duration.
#[verifier::external_body]
fn whole_secs(d: &core::time::Duration) -> (s: u64) {
    d.as_secs()
}

/// Milliseconds since the Unix epoch by the system clock, cut to 64 bits. Nothing is
/// claimed of the value: it depends on the machine's clock. A clock set before the
/// epoch reads as 0.
pub(crate) fn system_now_millis() -> (ms: u64) {
    let t = clock_now();
    match since_epoch(&t) {
        Ok(d) => {
            let m = whole_millis(&d);
            #[verifier::truncate]
            let low = m as u64;
            low
        },
        Err(_) => 0,
    }
}

/// Whole seconds since the Unix epoch by the system clock. Nothing is claimed of the
/// value: it depends on the machine's clock. A clock set before the epoch reads as 0.
pub(crate) fn system_now_secs() -> (s: u64) {
    let t = clock_now();
    match since_epoch(&t) {
        Ok(d) => whole_secs(&d),
        Err(_) => 0,
    }
}

/// The largest clock reading, in milliseconds, that the library works with: about
/// 285,000 years after the epoch.
pub const CLOCK_LIMIT_MS: u64 = 9_000_000_000_000_000;

/// Milliseconds since the Unix epoch as a signed number, from `system_now_millis`: a
/// clock set before the epoch reads as 0, and a reading beyond `CLOCK_LIMIT_MS` as
/// that limit, so that the reading stays far from the ends of `i64`. (`chrono`'s
/// `Utc::now` panics on both such clocks, so it is not called here.)
pub(crate) fn utc_now_millis() -> (ms: i64)
    ensures
        0 <= ms <= CLOCK_LIMIT_MS,
{
    let raw = system_now_millis();
    if raw > CLOCK_LIMIT_MS {
        CLOCK_LIMIT_MS as i64
    } else {
        raw as i64
    }
}

/// The number of logical CPUs this process may use, from `num_cpus::get()`, whose
/// documentation promises at least 1. The value itself depends on the machine.
#[verifier::external_body]
pub(crate) fn available_cpus() -> (n: usize)
    ensures
        n >= 1,
{
    num_cpus::get()
}

/// `String::from_utf8`: the text of the bytes when they are valid UTF-8, an error
/// otherwise (as its documentation states).
#[verifier::external_body]
pub(crate) fn utf8_text(bytes: Vec<u8>) -> (r: Option<String>)
    ensures
        r is Some <==> valid_utf8(bytes@),
        r matches Some(s) ==> s@ == decode_utf8(bytes@),
{
    match String::from_utf8(bytes) {
        Ok(s) => Some(s),
        Err(_) => None,
    }
}

/// What `url::Url::parse` reports of a text: nothing when it parses, or the display
/// text of its error. The URL grammar is the crate's and is not written out here.
pub uninterp spec fn url_parse_error(s: Seq<char>) -> Option<Seq<char>>;

/// `url::Url::parse`: whether the text is a URL, and if not the error's text, both
/// named by `url_parse_error`.
#[verifier::external_body]
pub(crate) fn check_url(s: &str) -> (r: Option<String>)
    ensures
        match r {
            None => url_parse_error(s@) is None,
            Some(m) => url_parse_error(s@) == Some(m@),
        },
{
    match url::Url::parse(s) {
        Ok(_) => None,
        Err(e) => Some(e.to_string()),
    }
}

/// A lowercase hexadecimal digit.
pub open spec fn lower_hex_digit(d: int) -> char {
    if d < 10 {
        (('0' as int) + d) as char
    } else {
        (('a' as int) + d - 10) as char
    }
}

/// How `serde_json` writes one character inside a string literal: a quote and a
/// backslash are escaped with a backslash; backspace, tab, line feed, form feed and
/// carriage return as `\b`, `\t`, `\n`, `\f`, `\r`; any other character below
/// U+0020 as `\u00` and two lowercase hexadecimal digits; all others as themselves.
pub open spec fn json_char_escape(c: char) -> Seq<char> {
    if c == '"' {
        seq!['\\', '"']
    } else if c == '\\' {
        seq!['\\', '\\']
    } else if c == '\u{8}' {
        seq!['\\', 'b']
    } else if c == '\t' {
        seq!['\\', 't']
    } else if c == '\n' {
        seq!['\\', 'n']
    } else if c == '\u{c}' {
        seq!['\\', 'f']
    } else if c == '\r' {
        seq!['\\', 'r']
    } else if (c as int) < 0x20 {
        seq!['\\', 'u', '0', '0', lower_hex_digit((c as int) / 16), lower_hex_digit((c as int) % 16)]
    } else {
        seq![c]
    }
}

/// The characters of a string with each one escaped as `json_char_escape` says.
pub open spec fn json_escaped(s: Seq<char>) -> Seq<char>
    decreases s.len(),
{
    if s.len() == 0 {
        Seq::empty()
    } else {
        json_escaped(s.drop_last()) + json_char_escape(s.last())
    }
}

/// What `serde_json::to_string` writes for a string: its characters escaped, between
/// double quotes (`format_escaped_str` and its `ESCAPE` table in serde_json's `ser.rs`).
pub open spec fn json_string_literal(s: Seq<char>) -> Seq<char> {
    seq!['"'] + json_escaped(s) + seq!['"']
}

/// `serde_json::to_string(&str)`: the JSON literal of a string, as
/// `json_string_literal` states it. Serializing a string cannot fail; should it, the
/// text is empty (`unwrap_or_default`).
#[verifier::external_body]
pub(crate) fn json_quote(s: &str) -> (r: String)
    ensures
        r@ == json_string_literal(s@),
{
    serde_json::to_string(s).unwrap_or_default()
}

/// Whether a character is a lowercase hexadecimal digit.
pub open spec fn is_lower_hex(c: char) -> bool {
    ('0' <= c && c <= '9') || ('a' <= c && c <= 'f')
}

/// The shape of a version-4 UUID in its hyphenated lowercase text form.
pub open spec fn is_uuid_v4_text(s: Seq<char>) -> bool {
    &&& s.len() == 36
    &&& s[8] == '-' && s[13] == '-' && s[18] == '-' && s[23] == '-'
    &&& s[14] == '4'
    &&& forall|i: int|
        0 <= i < 36 && i != 8 && i != 13 && i != 18 && i != 23 ==> is_lower_hex(#[trigger] s[i])
}

/// A fresh random identifier: `uuid::Uuid::new_v4().to_string()`.
/// The value is random; what is claimed is the text form that uuid's `Display`
/// writes (`format_hyphenated`, lowercase) and the version nibble that `new_v4` sets.
#[verifier::external_body]
pub(crate) fn new_uuid_v4_string() -> (s: String)
    ensures
        is_uuid_v4_text(s@),
{
    uuid::Uuid::new_v4().to_string()
}

/// What `str::to_lowercase` returns for a string: Unicode lowercase mapping.
pub uninterp spec fn lowercase_of(s: Seq<char>) -> Seq<char>;

/// `str::to_lowercase`. The result is named by `lowercase_of` of the argument's
/// characters; the Unicode case tables themselves are not written out.
#[verifier::external_body]
pub(crate) fn to_lowercase(s: &str) -> (r: String)
    ensures
        r@ == lowercase_of(s@),
{
    s.to_lowercase()
}

/// Bytes that `urlencoding` leaves as they are: ASCII alphanumerics and `-`, `.`, `_`, `~`.
pub open spec fn is_unreserved_byte(b: u8) -> bool {
    (0x30 <= b && b <= 0x39) || (0x41 <= b && b <= 0x5a) || (0x61 <= b && b <= 0x7a) || b == 0x2d
        || b == 0x2e || b == 0x5f || b == 0x7e
}

/// The uppercase hexadecimal digit of a nibble.
pub open spec fn upper_hex_digit(d: u8) -> char {
    if d < 10 {
        ((0x30 + d) as u8) as char
    } else {
        ((0x41 - 10 + d) as u8) as char
    }
}

/// Percent-encoding of a byte sequence: unreserved bytes stay, every other byte
/// becomes `%` and two uppercase hexadecimal digits.
pub open spec fn percent_encoded(bytes: Seq<u8>) -> Seq<char>
    decreases bytes.len(),
{
    if bytes.len() == 0 {
        Seq::empty()
    } else {
        let b = bytes[0];
        let head = if is_unreserved_byte(b) {
            seq![b as char]
        } else {
            seq!['%', upper_hex_digit(b / 16), upper_hex_digit(b % 16)]
        };
        head + percent_encoded(bytes.drop_first())
    }
}

/// `urlencoding::encode`: percent-encodes the UTF-8 bytes of the text except
/// alphanumerics and `-`, `_`, `.`, `~` (as its documentation and `encode_into` show).
#[verifier::external_body]
pub(crate) fn url_encode(s: &str) -> (r: String)
    ensures
        r@ == percent_encoded(encode_utf8(s@)),
{
    urlencoding::encode(s).into_owned()
}

} // verus!
