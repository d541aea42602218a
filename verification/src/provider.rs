//! Shared pieces of the provider adapters: the per-provider
//! configuration, percent-encoding of query parameters, and the small
//! date helpers the catalog responses need.

use vstd::prelude::*;
use crate::rate_limiter::RateLimitConfig;
use crate::strutil::{spec_nat_digits, spec_parse_i64, parse_i64, u64_to_string};

verus! {

/// Provider base configuration.
#[derive(Debug, Clone)]
pub struct ProviderConfig {
    /// API key.
    pub api_key: Option<String>,
    /// Base URL.
    pub base_url: String,
    /// Rate limit configuration.
    pub rate_limit: RateLimitConfig,
    /// Cache TTL (seconds).
    pub cache_ttl: u64,
}

impl ProviderConfig {
    /// Create new configuration: no key, default limits, one-hour
    /// cache.
    pub fn new(base_url: String) -> (r: ProviderConfig)
        ensures
            r.api_key is None,
            r.base_url == base_url,
            r.rate_limit.max_concurrent == 5,
            r.rate_limit.max_requests == 40,
            r.rate_limit.window_seconds == 10,
            r.cache_ttl == 3600,
    {
        ProviderConfig {
            api_key: None,
            base_url,
            rate_limit: RateLimitConfig { max_concurrent: 5, max_requests: 40, window_seconds: 10 },
            cache_ttl: 3600,
        }
    }

    /// Set API key.
    pub fn with_api_key(self, api_key: String) -> (r: ProviderConfig)
        ensures
            r.api_key == Some(api_key),
            r.base_url == self.base_url,
            r.rate_limit == self.rate_limit,
            r.cache_ttl == self.cache_ttl,
    {
        ProviderConfig { api_key: Some(api_key), ..self }
    }

    /// Set rate limit.
    pub fn with_rate_limit(self, rate_limit: RateLimitConfig) -> (r: ProviderConfig)
        ensures
            r.rate_limit == rate_limit,
            r.api_key == self.api_key,
            r.base_url == self.base_url,
            r.cache_ttl == self.cache_ttl,
    {
        ProviderConfig { rate_limit, ..self }
    }

    /// Set cache TTL.
    pub fn with_cache_ttl(self, ttl_seconds: u64) -> (r: ProviderConfig)
        ensures
            r.cache_ttl == ttl_seconds,
            r.api_key == self.api_key,
            r.base_url == self.base_url,
            r.rate_limit == self.rate_limit,
    {
        ProviderConfig { cache_ttl: ttl_seconds, ..self }
    }
}

/// What percent-encoding a string returns; a function of the
/// characters alone.
pub uninterp spec fn url_encoded_of(s: Seq<char>) -> Seq<char>;

/// A character that percent-encoding passes through unchanged.
pub open spec fn url_unreserved(c: char) -> bool {
    ||| ('0' <= c && c <= '9')
    ||| ('A' <= c && c <= 'Z')
    ||| ('a' <= c && c <= 'z')
    ||| c == '-'
    ||| c == '.'
    ||| c == '_'
    ||| c == '~'
}

/// Upper-case hexadecimal digit of a value below sixteen.
pub open spec fn hex_digit(d: int) -> char {
    if d == 0 { '0' }
    else if d == 1 { '1' }
    else if d == 2 { '2' }
    else if d == 3 { '3' }
    else if d == 4 { '4' }
    else if d == 5 { '5' }
    else if d == 6 { '6' }
    else if d == 7 { '7' }
    else if d == 8 { '8' }
    else if d == 9 { '9' }
    else if d == 10 { 'A' }
    else if d == 11 { 'B' }
    else if d == 12 { 'C' }
    else if d == 13 { 'D' }
    else if d == 14 { 'E' }
    else { 'F' }
}

/// Percent-encoding of an ASCII string: unreserved characters pass
/// through, every other byte becomes a percent escape in upper-case
/// hexadecimal.
pub open spec fn url_encoded_ascii(s: Seq<char>) -> Seq<char>
    decreases s.len(),
{
    if s.len() == 0 {
        s
    } else {
        let c = s[0];
        (if url_unreserved(c) {
            seq![c]
        } else {
            seq!['%', hex_digit((c as u32) as int / 16), hex_digit((c as u32) as int % 16)]
        }) + url_encoded_ascii(s.drop_first())
    }
}

/// Relies on `urlencoding::encode`: it percent-encodes every byte of
/// the UTF-8 form except ASCII alphanumerics and `-`, `.`, `_`, `~`,
/// writing upper-case hexadecimal escapes, so on ASCII input the
/// result is the escape of each character in order, and the result
/// depends on the characters alone.
#[verifier::external_body]
pub fn url_encode(s: &str) -> (r: String)
    ensures
        r@ == url_encoded_of(s@),
        s.is_ascii() ==> r@ == url_encoded_ascii(s@),
        s@.len() == 0 ==> r@.len() == 0,
{
    urlencoding::encode(s).into_owned()
}

/// The year a catalog date string carries: its first dash-separated
/// component read as a number, if it parses and fits.
pub open spec fn spec_year_of_date(d: Seq<char>) -> Option<int> {
    let seg = if exists|i: int| 0 <= i < d.len() && d[i] == '-' {
        d.take(choose|i: int| 0 <= i < d.len() && d[i] == '-' && forall|j: int| 0 <= j < i ==> d[j] != '-')
    } else {
        d
    };
    match spec_parse_i64(seg) {
        Some(v) => if i32::MIN <= v <= i32::MAX {
            Some(v)
        } else {
            None
        },
        None => None,
    }
}

/// Read the year from a date string such as `"2016-11-11"`: the first
/// dash-separated component, parsed as a number.
#[verifier::loop_isolation(false)]
pub fn year_of_date(d: &str) -> (r: Option<i32>)
    ensures
        match r {
            Some(y) => spec_year_of_date(d@) == Some(y as int),
            None => spec_year_of_date(d@) is None,
        },
{
    let len = d.unicode_len();
    let mut i: usize = 0;
    while i < len
        invariant
            0 <= i <= len,
            forall|j: int| 0 <= j < i ==> d@[j] != '-',
        decreases len - i,
    {
        if d.get_char(i) == '-' {
            proof {
                let w: int = i as int;
                assert(0 <= w < d@.len() && d@[w] == '-' && (forall|j: int|
                    0 <= j < w ==> d@[j] != '-'));
                let k = choose|k: int|
                    0 <= k < d@.len() && d@[k] == '-' && forall|j: int| 0 <= j < k ==> d@[j] != '-';
                assert(k == w);
            }
            let seg = d.substring_char(0, i);
            return parse_year_segment(seg);
        }
        i = i + 1;
    }
    proof {
        if exists|k: int| 0 <= k < d@.len() && d@[k] == '-' {
            let k = choose|k: int| 0 <= k < d@.len() && d@[k] == '-';
            assert(d@[k] != '-');
        }
    }
    let seg = d.substring_char(0, len);
    proof {
        assert(seg@ =~= d@);
    }
    parse_year_segment(seg)
}

/// Parse one date component within the 32-bit range.
fn parse_year_segment(seg: &str) -> (r: Option<i32>)
    ensures
        match r {
            Some(y) => spec_parse_i64(seg@) == Some(y as int),
            None => match spec_parse_i64(seg@) {
                Some(v) => !(i32::MIN <= v <= i32::MAX),
                None => true,
            },
        },
{
    match parse_i64(seg) {
        Some(v) => {
            if v >= -2147483648i64 && v <= 2147483647i64 {
                Some(v as i32)
            } else {
                None
            }
        },
        None => None,
    }
}

/// A number rendered with leading zeros to at least two digits.
pub open spec fn spec_pad2(n: int) -> Seq<char> {
    if n < 10 {
        seq!['0'] + spec_nat_digits(n)
    } else {
        spec_nat_digits(n)
    }
}

/// A number rendered with leading zeros to at least four digits.
pub open spec fn spec_pad4(n: int) -> Seq<char> {
    if n < 10 {
        seq!['0', '0', '0'] + spec_nat_digits(n)
    } else if n < 100 {
        seq!['0', '0'] + spec_nat_digits(n)
    } else if n < 1000 {
        seq!['0'] + spec_nat_digits(n)
    } else {
        spec_nat_digits(n)
    }
}

/// Render a number with leading zeros to at least two digits.
pub fn pad2(n: u64) -> (r: String)
    ensures
        r@ == spec_pad2(n as int),
{
    if n < 10 {
        let r = String::from_str("0").concat(u64_to_string(n).as_str());
        proof {
            reveal_strlit("0");
            assert(r@ =~= spec_pad2(n as int));
        }
        r
    } else {
        u64_to_string(n)
    }
}

/// Render a number with leading zeros to at least four digits.
pub fn pad4(n: u64) -> (r: String)
    ensures
        r@ == spec_pad4(n as int),
{
    if n < 10 {
        let r = String::from_str("000").concat(u64_to_string(n).as_str());
        proof {
            reveal_strlit("000");
            assert(r@ =~= spec_pad4(n as int));
        }
        r
    } else if n < 100 {
        let r = String::from_str("00").concat(u64_to_string(n).as_str());
        proof {
            reveal_strlit("00");
            assert(r@ =~= spec_pad4(n as int));
        }
        r
    } else if n < 1000 {
        let r = String::from_str("0").concat(u64_to_string(n).as_str());
        proof {
            reveal_strlit("0");
            assert(r@ =~= spec_pad4(n as int));
        }
        r
    } else {
        u64_to_string(n)
    }
}

} // verus!
