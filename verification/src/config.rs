//! Settings read from the environment, with their defaults.

use crate::text::{chars_of, str_eq};
use vstd::prelude::*;

verus! {

/// A setting's value, or `default` where the environment does not set it.
pub fn env_or(value: Option<String>, default: &str) -> (r: String)
    ensures
        r@ == match value {
            Some(v) => v@,
            None => default@,
        },
{
    match value {
        Some(v) => v,
        None => default.to_owned(),
    }
}

/// How to reach the ClickHouse server.
#[derive(Debug)]
pub struct ClickHouseConfig {
    pub url: String,
    pub database: String,
    pub user: String,
    pub password: String,
}

impl ClickHouseConfig {
    /// The settings from the values of `CLICKHOUSE_URL`, `CLICKHOUSE_DATABASE`,
    /// `CLICKHOUSE_USER` and `CLICKHOUSE_PASSWORD`, defaulted where unset.
    pub fn from_env_values(
        url: Option<String>,
        database: Option<String>,
        user: Option<String>,
        password: Option<String>,
    ) -> (r: ClickHouseConfig)
        ensures
            r.url@ == match url {
                Some(v) => v@,
                None => "http://localhost:8123"@,
            },
            r.database@ == match database {
                Some(v) => v@,
                None => "analytics"@,
            },
            r.user@ == match user {
                Some(v) => v@,
                None => "default"@,
            },
            r.password@ == match password {
                Some(v) => v@,
                None => Seq::<char>::empty(),
            },
    {
        ClickHouseConfig {
            url: env_or(url, "http://localhost:8123"),
            database: env_or(database, "analytics"),
            user: env_or(user, "default"),
            password: match password {
                Some(p) => p,
                None => String::new(),
            },
        }
    }

    /// The password to log in with; none where it is empty.
    pub fn password_to_use(&self) -> (r: Option<&String>)
        ensures
            match r {
                Some(p) => self.password@.len() > 0 && p == &self.password,
                None => self.password@.len() == 0,
            },
    {
        if self.password.as_str().is_empty() {
            None
        } else {
            Some(&self.password)
        }
    }
}

/// Proxy headers are trusted only where `TRUST_PROXY_HEADERS` is `true` or `1`.
pub fn trust_proxy_headers(value: Option<String>) -> (r: bool)
    ensures
        r == match value {
            Some(v) => v@ == "true"@ || v@ == "1"@,
            None => false,
        },
{
    match value {
        Some(v) => str_eq(v.as_str(), "true") || str_eq(v.as_str(), "1"),
        None => false,
    }
}

pub open spec fn is_ascii_digit(c: char) -> bool {
    '0' <= c && c <= '9'
}

/// The number that a string of decimal digits writes.
pub open spec fn digits_value(d: Seq<char>) -> int
    decreases d.len(),
{
    if d.len() == 0 {
        0
    } else {
        digits_value(d.drop_last()) * 10 + ((d.last() as u32) - ('0' as u32))
    }
}

/// `text` without one leading `+`.
pub open spec fn sign_stripped(text: Seq<char>) -> Seq<char> {
    if text.len() > 0 && text[0] == '+' {
        text.drop_first()
    } else {
        text
    }
}

pub open spec fn all_digits(d: Seq<char>) -> bool {
    forall|i: int| 0 <= i < d.len() ==> is_ascii_digit(#[trigger] d[i])
}

/// What `u16::from_str` reads from `text`: an optional `+`, then one or more
/// decimal digits whose value fits in 16 bits.
pub open spec fn spec_parse_u16(text: Seq<char>) -> Option<u16> {
    let d = sign_stripped(text);
    if d.len() > 0 && all_digits(d) && digits_value(d) <= 65535 {
        Some(digits_value(d) as u16)
    } else {
        None
    }
}

proof fn lemma_digits_value_nonneg(d: Seq<char>)
    requires
        forall|i: int| 0 <= i < d.len() ==> is_ascii_digit(#[trigger] d[i]),
    ensures
        digits_value(d) >= 0,
    decreases d.len(),
{
    if d.len() > 0 {
        lemma_digits_value_nonneg(d.drop_last());
    }
}

proof fn lemma_digits_value_monotone(d: Seq<char>, k: int)
    requires
        0 <= k <= d.len(),
        forall|i: int| 0 <= i < d.len() ==> is_ascii_digit(#[trigger] d[i]),
    ensures
        digits_value(d.take(k)) <= digits_value(d),
    decreases d.len() - k,
{
    if k < d.len() {
        lemma_digits_value_monotone(d, k + 1);
        assert(d.take(k + 1).drop_last() =~= d.take(k));
        lemma_digits_value_nonneg(d.take(k));
    } else {
        assert(d.take(k) =~= d);
    }
}

/// The number `text` writes, as `u16::from_str` reads it.
pub fn parse_u16(text: &str) -> (r: Option<u16>)
    ensures
        r == spec_parse_u16(text@),
{
    let v = chars_of(text);
    let n = v.len();
    let start: usize = if n > 0 && v[0] == '+' {
        1
    } else {
        0
    };
    let ghost d = sign_stripped(text@);
    assert(d =~= text@.subrange(start as int, n as int));
    if start == n {
        return None;
    }
    let mut value: u32 = 0;
    let mut i: usize = start;
    assert(d.take(0) =~= Seq::<char>::empty());
    while i < n
        invariant
            start <= i <= n,
            n == v@.len(),
            v@ == text@,
            d =~= text@.subrange(start as int, n as int),
            d == sign_stripped(text@),
            start < n,
            forall|k: int| 0 <= k < i - start ==> is_ascii_digit(#[trigger] d[k]),
            value as int == digits_value(d.take(i - start)),
            value <= 65535,
        decreases n - i,
    {
        let c = v[i];
        if !('0' <= c && c <= '9') {
            assert(d[i - start] == c);
            assert(!is_ascii_digit(d[i - start]));
            return None;
        }
        let digit = (c as u32) - ('0' as u32);
        assert(d.take(i - start + 1).drop_last() =~= d.take(i - start));
        assert(d.take(i - start + 1).last() == c);
        let next = value * 10 + digit;
        if next > 65535 {
            proof {
                if all_digits(d) {
                    lemma_digits_value_monotone(d, i - start + 1);
                }
            }
            return None;
        }
        value = next;
        i = i + 1;
    }
    assert(d.take(n - start) =~= d);
    Some(value as u16)
}

/// The port the server listens on: `SERVER_PORT` where it reads as a port
/// number, else 8080.
pub fn server_port(value: Option<String>) -> (r: u16)
    ensures
        r == match value {
            Some(v) => match spec_parse_u16(v@) {
                Some(p) => p,
                None => 8080,
            },
            None => 8080,
        },
{
    match value {
        Some(v) => match parse_u16(v.as_str()) {
            Some(p) => p,
            None => 8080,
        },
        None => 8080,
    }
}

} // verus!
