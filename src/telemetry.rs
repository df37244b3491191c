//! What is logged of each request before dispatch and of each response after it.
use vstd::prelude::*;
use crate::level::LogLevel;
use crate::text::same_chars;

verus! {

pub open spec fn is_success_status(s: u16) -> bool {
    200 <= s < 300
}

pub open spec fn is_client_error_status(s: u16) -> bool {
    400 <= s < 500
}

pub open spec fn is_server_error_status(s: u16) -> bool {
    500 <= s < 600
}

/// The two error-class flags logged of a failed response.
#[derive(Clone, Copy, Debug, PartialEq, Eq, Structural)]
pub struct ErrorClass {
    pub client_error: bool,
    pub server_error: bool,
}

/// The fields logged of a response, and the severity they are logged at.
#[derive(Clone, Copy, Debug, PartialEq, Eq, Structural)]
pub struct ResponseRecord {
    pub severity: LogLevel,
    pub status: u16,
    pub body_size: u64,
    pub success: bool,
    /// Present for failures (status 400 and above) only.
    pub error_class: Option<ErrorClass>,
}

pub open spec fn response_record_of(status: u16, body_size: u64) -> ResponseRecord {
    if status < 400 {
        ResponseRecord {
            severity: LogLevel::Info,
            status,
            body_size,
            success: is_success_status(status),
            error_class: None,
        }
    } else {
        ResponseRecord {
            severity: LogLevel::Error,
            status,
            body_size,
            success: is_success_status(status),
            error_class: Some(
                ErrorClass {
                    client_error: is_client_error_status(status),
                    server_error: is_server_error_status(status),
                },
            ),
        }
    }
}

/// The record of a response with numeric status `status` and a body of at least
/// `body_size` bytes: informational below 400, an error from 400 on, where it
/// also tells client errors from server errors.
pub fn response_record(status: u16, body_size: u64) -> (r: ResponseRecord)
    ensures
        r == response_record_of(status, body_size),
{
    let success = 200 <= status && status < 300;
    if status < 400 {
        ResponseRecord { severity: LogLevel::Info, status, body_size, success, error_class: None }
    } else {
        ResponseRecord {
            severity: LogLevel::Error,
            status,
            body_size,
            success,
            error_class: Some(
                ErrorClass {
                    client_error: 400 <= status && status < 500,
                    server_error: 500 <= status && status < 600,
                },
            ),
        }
    }
}

pub open spec fn is_digit(b: u8) -> bool {
    48 <= b <= 57
}

pub open spec fn all_digits(s: Seq<u8>) -> bool {
    forall|i: int| 0 <= i < s.len() ==> is_digit(#[trigger] s[i])
}

/// The number that the decimal digits `s` write.
pub open spec fn decimal_value(s: Seq<u8>) -> nat
    decreases s.len(),
{
    if s.len() == 0 {
        0
    } else {
        decimal_value(s.drop_last()) * 10 + (s.last() - 48) as nat
    }
}

/// The digits of an unsigned decimal: the text with one leading `+` taken off.
pub open spec fn unsigned_digits(s: Seq<u8>) -> Seq<u8> {
    if s.len() > 0 && s[0] == 43 {
        s.subrange(1, s.len() as int)
    } else {
        s
    }
}

/// The value of an unsigned decimal that fits in 64 bits: an optional `+`,
/// then one or more digits.
pub open spec fn decimal_u64_of(s: Seq<u8>) -> Option<u64> {
    let d = unsigned_digits(s);
    if d.len() > 0 && all_digits(d) && decimal_value(d) <= u64::MAX {
        Some(decimal_value(d) as u64)
    } else {
        None
    }
}

proof fn lemma_decimal_value_grows(s: Seq<u8>, i: int)
    requires
        0 <= i <= s.len(),
        all_digits(s),
    ensures
        decimal_value(s.subrange(0, i)) <= decimal_value(s),
    decreases s.len() - i,
{
    if i < s.len() {
        lemma_decimal_value_grows(s, i + 1);
        let p = s.subrange(0, i + 1);
        assert(p.drop_last() =~= s.subrange(0, i));
        assert(is_digit(s[i]));
        assert(p.last() == s[i]);
        assert(decimal_value(p) >= decimal_value(s.subrange(0, i)));
    } else {
        assert(s.subrange(0, i) =~= s);
    }
}

/// Reads an unsigned decimal of at most 64 bits: an optional `+`, then digits.
pub fn parse_decimal_u64(s: &[u8]) -> (r: Option<u64>)
    ensures
        r == decimal_u64_of(s@),
{
    let start: usize = if s.len() > 0 && s[0] == 43 { 1 } else { 0 };
    let ghost d = unsigned_digits(s@);
    assert(d =~= s@.subrange(start as int, s@.len() as int));
    if start >= s.len() {
        return None;
    }
    let mut value: u64 = 0;
    let mut i: usize = start;
    while i < s.len()
        invariant
            start <= i <= s@.len(),
            d == s@.subrange(start as int, s@.len() as int),
            d == unsigned_digits(s@),
            forall|j: int| start <= j < i ==> is_digit(#[trigger] s@[j]),
            value as nat == decimal_value(d.subrange(0, i - start)),
        decreases s@.len() - i,
    {
        let b = s[i];
        if !(48 <= b && b <= 57) {
            assert(!is_digit(d[i - start]));
            assert(!all_digits(d));
            return None;
        }
        let ghost p = d.subrange(0, i + 1 - start);
        assert(p.drop_last() =~= d.subrange(0, i - start));
        assert(p.last() == b);
        let next = match value.checked_mul(10) {
            Some(t) => t.checked_add((b - 48) as u64),
            None => None,
        };
        match next {
            Some(v) => {
                value = v;
            },
            None => {
                proof {
                    if all_digits(d) {
                        assert(decimal_value(p) > u64::MAX);
                        lemma_decimal_value_grows(d, i + 1 - start);
                    }
                }
                return None;
            },
        }
        i = i + 1;
    }
    assert(d.subrange(0, d.len() as int) =~= d);
    Some(value)
}

/// The content length logged of a request before dispatch.
#[derive(Clone, Copy, Debug, PartialEq, Eq, Structural)]
pub enum DeclaredLength {
    /// The method carries no body worth logging.
    NotLogged,
    /// The declared length, 0 when no `Content-Length` header was sent.
    Length(u64),
    /// A `Content-Length` header that is not an unsigned decimal.
    Malformed,
}

/// A method whose request carries a body: `POST`, `PUT` or `PATCH`.
pub open spec fn is_write_method(method: Seq<char>) -> bool {
    method == "POST"@ || method == "PUT"@ || method == "PATCH"@
}

pub open spec fn declared_length_of(method: Seq<char>, header: Option<Seq<u8>>) -> DeclaredLength {
    if !is_write_method(method) {
        DeclaredLength::NotLogged
    } else {
        match header {
            None => DeclaredLength::Length(0),
            Some(h) => match decimal_u64_of(h) {
                Some(n) => DeclaredLength::Length(n),
                None => DeclaredLength::Malformed,
            },
        }
    }
}

/// The content length to log for a request with method `method` and
/// `Content-Length` value `header`: logged for write-bearing methods only.
pub fn declared_length(method: &str, header: Option<&[u8]>) -> (r: DeclaredLength)
    ensures
        r == declared_length_of(method@, crate::auth::bytes_of(header)),
{
    if !(same_chars(method, "POST") || same_chars(method, "PUT") || same_chars(method, "PATCH")) {
        return DeclaredLength::NotLogged;
    }
    match header {
        None => DeclaredLength::Length(0),
        Some(h) => match parse_decimal_u64(h) {
            Some(n) => DeclaredLength::Length(n),
            None => DeclaredLength::Malformed,
        },
    }
}

} // verus!
