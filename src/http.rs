//! Decisions of the request boundary: routing and the body length check.
use vstd::prelude::*;
use crate::text::str_eq;

verus! {

/// Largest accepted request body, in bytes (5 MiB).
pub const MAX_CONTENT_LENGTH: u32 = 5242880;

pub const STATUS_NOT_FOUND: u16 = 404;
pub const STATUS_LENGTH_REQUIRED: u16 = 411;
pub const STATUS_PAYLOAD_TOO_LARGE: u16 = 413;

/// Where a request goes.
#[derive(Debug, Clone, Copy, PartialEq, Eq, Structural)]
pub enum Route {
    Index,
    Interval,
    Excess,
    Report,
    NotFound,
}

pub open spec fn route_of(method: Seq<char>, path: Seq<char>) -> Route {
    if (method == "POST"@ || method == "GET"@) && path == "/"@ {
        Route::Index
    } else if method == "GET"@ && path == "/index.html"@ {
        Route::Index
    } else if method == "POST"@ && path == "/interval"@ {
        Route::Interval
    } else if method == "GET"@ && path == "/excess"@ {
        Route::Excess
    } else if method == "POST"@ && path == "/report"@ {
        Route::Report
    } else {
        Route::NotFound
    }
}

/// The handler for a method and path.
pub fn route_request(method: &str, path: &str) -> (r: Route)
    ensures
        r == route_of(method@, path@),
{
    let post = str_eq(method, "POST");
    let get = str_eq(method, "GET");
    if (post || get) && str_eq(path, "/") {
        Route::Index
    } else if get && str_eq(path, "/index.html") {
        Route::Index
    } else if post && str_eq(path, "/interval") {
        Route::Interval
    } else if get && str_eq(path, "/excess") {
        Route::Excess
    } else if post && str_eq(path, "/report") {
        Route::Report
    } else {
        Route::NotFound
    }
}

pub open spec fn is_digit(c: char) -> bool {
    '0' <= c <= '9'
}

/// The value of a sequence of decimal digits.
pub open spec fn digits_value(s: Seq<char>) -> int
    decreases s.len(),
{
    if s.len() == 0 {
        0
    } else {
        digits_value(s.drop_last()) * 10 + (s.last() as int - '0' as int)
    }
}

/// The digits of a decimal number as `u32` reads it: after an optional `+`.
pub open spec fn unsigned_digits(s: Seq<char>) -> Seq<char> {
    if s.len() > 0 && s[0] == '+' {
        s.drop_first()
    } else {
        s
    }
}

/// The number that `s` writes in the form that `u32`'s `from_str` accepts:
/// an optional `+` and one or more decimal digits, of value at most `u32::MAX`.
pub open spec fn decimal_u32(s: Seq<char>) -> Option<u32> {
    let d = unsigned_digits(s);
    if d.len() > 0 && (forall|i: int| 0 <= i < d.len() ==> is_digit(#[trigger] d[i]))
        && digits_value(d) <= u32::MAX {
        Some(digits_value(d) as u32)
    } else {
        None
    }
}

proof fn lemma_digits_value_nonneg(s: Seq<char>)
    requires
        forall|i: int| 0 <= i < s.len() ==> is_digit(#[trigger] s[i]),
    ensures
        digits_value(s) >= 0,
    decreases s.len(),
{
    if s.len() > 0 {
        lemma_digits_value_nonneg(s.drop_last());
    }
}

proof fn lemma_digits_value_grows(s: Seq<char>, c: char)
    requires
        forall|i: int| 0 <= i < s.len() ==> is_digit(#[trigger] s[i]),
        is_digit(c),
    ensures
        digits_value(s.push(c)) >= digits_value(s),
{
    lemma_digits_value_nonneg(s);
    assert(s.push(c).drop_last() =~= s);
}

/// Reads a decimal `u32`.
pub fn parse_u32(s: &str) -> (r: Option<u32>)
    ensures
        r == decimal_u32(s@),
{
    let n = s.unicode_len();
    let mut i: usize = 0;
    if n > 0 && s.get_char(0) == '+' {
        i = 1;
    }
    let ghost d = unsigned_digits(s@);
    assert(d =~= s@.subrange(i as int, n as int));
    if i == n {
        return None;
    }
    let mut v: u64 = 0;
    let start = i;
    while i < n
        invariant
            n == s@.len(),
            start <= i <= n,
            start < n,
            d == s@.subrange(start as int, n as int),
            d == unsigned_digits(s@),
            forall|k: int| 0 <= k < i - start ==> is_digit(#[trigger] d[k]),
            v as int == digits_value(d.subrange(0, i - start)),
            v <= u32::MAX,
        decreases n - i,
    {
        let c = s.get_char(i);
        assert(d[i - start] == c);
        if !('0' <= c && c <= '9') {
            assert(!is_digit(d[i - start]));
            return None;
        }
        let ghost pre = d.subrange(0, i - start);
        proof {
            assert(d.subrange(0, i + 1 - start) =~= pre.push(c));
            assert(pre.push(c).drop_last() =~= pre);
        }
        let next = v * 10 + (c as u64 - '0' as u64);
        if next > 4294967295 {
            proof {
                assert forall|k: int| 0 <= k < i + 1 - start implies is_digit(#[trigger] d[k]) by {}
                assert(digits_value(d.subrange(0, i + 1 - start)) > u32::MAX);
                lemma_rest_keeps_large(d, i + 1 - start);
            }
            return None;
        }
        v = next;
        i = i + 1;
    }
    assert(d.subrange(0, n - start) =~= d);
    Some(v as u32)
}

/// Once a prefix of digits is too large, any longer all-digit sequence is too.
proof fn lemma_rest_keeps_large(d: Seq<char>, k: int)
    requires
        0 < k <= d.len(),
        forall|i: int| 0 <= i < k ==> is_digit(#[trigger] d[i]),
        digits_value(d.subrange(0, k)) > u32::MAX,
    ensures
        (forall|i: int| 0 <= i < d.len() ==> is_digit(#[trigger] d[i])) ==> digits_value(d)
            > u32::MAX,
    decreases d.len() - k,
{
    if forall|i: int| 0 <= i < d.len() ==> is_digit(#[trigger] d[i]) {
        if k < d.len() {
            lemma_digits_value_grows(d.subrange(0, k), d[k]);
            assert(d.subrange(0, k).push(d[k]) =~= d.subrange(0, k + 1));
            lemma_rest_keeps_large(d, k + 1);
        } else {
            assert(d.subrange(0, k) =~= d);
        }
    }
}

/// Why a request body is refused, with the HTTP status that says so.
#[derive(Debug, Clone, Copy, PartialEq, Eq, Structural)]
pub enum LengthError {
    /// No `Content-Length` header.
    Missing,
    /// The header is not a number.
    Invalid,
    /// The length is over the limit.
    TooLarge,
}

impl LengthError {
    pub open spec fn status_spec(self) -> u16 {
        match self {
            LengthError::Missing => STATUS_LENGTH_REQUIRED,
            LengthError::Invalid => STATUS_LENGTH_REQUIRED,
            LengthError::TooLarge => STATUS_PAYLOAD_TOO_LARGE,
        }
    }

    /// The HTTP status of the refusal.
    pub fn status(&self) -> (r: u16)
        ensures
            r == self.status_spec(),
    {
        match self {
            LengthError::Missing => STATUS_LENGTH_REQUIRED,
            LengthError::Invalid => STATUS_LENGTH_REQUIRED,
            LengthError::TooLarge => STATUS_PAYLOAD_TOO_LARGE,
        }
    }
}

/// Checks the `Content-Length` header of a request with a body.
pub fn parse_content_length(header: Option<&str>) -> (r: Result<u32, LengthError>)
    ensures
        r == match header {
            None => Err(LengthError::Missing),
            Some(h) => match decimal_u32(h@) {
                None => Err(LengthError::Invalid),
                Some(n) => if n > MAX_CONTENT_LENGTH {
                    Err(LengthError::TooLarge)
                } else {
                    Ok(n)
                },
            },
        },
{
    match header {
        None => Err(LengthError::Missing),
        Some(h) => match parse_u32(h) {
            None => Err(LengthError::Invalid),
            Some(n) => if n > MAX_CONTENT_LENGTH {
                Err(LengthError::TooLarge)
            } else {
                Ok(n)
            },
        },
    }
}

} // verus!
