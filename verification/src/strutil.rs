//! Small verified string helpers: digit formatting, integer parsing in the
//! style of the standard library, and character-wise string comparison.

use vstd::prelude::*;
use vstd::string::*;

verus! {

/// True for the ten ASCII digit characters.
pub open spec fn is_digit_char(c: char) -> bool {
    48 <= c as u32 <= 57
}

/// Numeric value of an ASCII digit character.
pub open spec fn digit_val(c: char) -> int {
    c as u32 - 48
}

/// The digit character for a value below ten.
pub open spec fn digit_char(d: int) -> char {
    if d == 0 { '0' }
    else if d == 1 { '1' }
    else if d == 2 { '2' }
    else if d == 3 { '3' }
    else if d == 4 { '4' }
    else if d == 5 { '5' }
    else if d == 6 { '6' }
    else if d == 7 { '7' }
    else if d == 8 { '8' }
    else { '9' }
}

/// Decimal digit string of a non-negative integer, most significant first.
pub open spec fn spec_nat_digits(n: int) -> Seq<char>
    decreases n,
{
    if n < 10 {
        seq![digit_char(n)]
    } else {
        spec_nat_digits(n / 10) + seq![digit_char(n % 10)]
    }
}

/// Decimal rendering of a signed integer: a minus sign for negatives,
/// then the digits.
pub open spec fn spec_int_str(n: int) -> Seq<char> {
    if n >= 0 {
        spec_nat_digits(n)
    } else {
        seq!['-'] + spec_nat_digits(-n)
    }
}

/// True when every character of the sequence is an ASCII digit.
pub open spec fn all_digits(s: Seq<char>) -> bool {
    forall|i: int| 0 <= i < s.len() ==> is_digit_char(#[trigger] s[i])
}

/// Value of a digit string read in base ten, most significant first.
pub open spec fn spec_digits_val(s: Seq<char>) -> int
    decreases s.len(),
{
    if s.len() == 0 {
        0
    } else {
        spec_digits_val(s.drop_last()) * 10 + digit_val(s.last())
    }
}

/// What `str::parse::<i64>` accepts: an optional sign followed by at
/// least one digit, with the value in range for `i64`.
pub open spec fn spec_parse_i64(s: Seq<char>) -> Option<int> {
    let digits = if s.len() > 0 && (s[0] == '+' || s[0] == '-') { s.drop_first() } else { s };
    let negative = s.len() > 0 && s[0] == '-';
    if digits.len() == 0 || !all_digits(digits) {
        None
    } else {
        let v = if negative { -spec_digits_val(digits) } else { spec_digits_val(digits) };
        if i64::MIN <= v <= i64::MAX {
            Some(v)
        } else {
            None
        }
    }
}

/// One-character string for a digit value.
fn digit_to_str(d: u64) -> (s: String)
    requires
        d < 10,
    ensures
        s@ =~= seq![digit_char(d as int)],
{
    proof {
        reveal_strlit("0");
        reveal_strlit("1");
        reveal_strlit("2");
        reveal_strlit("3");
        reveal_strlit("4");
        reveal_strlit("5");
        reveal_strlit("6");
        reveal_strlit("7");
        reveal_strlit("8");
        reveal_strlit("9");
    }
    if d == 0 { String::from_str("0") }
    else if d == 1 { String::from_str("1") }
    else if d == 2 { String::from_str("2") }
    else if d == 3 { String::from_str("3") }
    else if d == 4 { String::from_str("4") }
    else if d == 5 { String::from_str("5") }
    else if d == 6 { String::from_str("6") }
    else if d == 7 { String::from_str("7") }
    else if d == 8 { String::from_str("8") }
    else { String::from_str("9") }
}

/// Render a non-negative integer in decimal.
pub fn u64_to_string(n: u64) -> (s: String)
    ensures
        s@ == spec_nat_digits(n as int),
    decreases n,
{
    if n < 10 {
        digit_to_str(n)
    } else {
        let q = u64_to_string(n / 10);
        let d = digit_to_str(n % 10);
        let r = q.concat(d.as_str());
        proof {
            assert(r@ =~= spec_nat_digits(n as int));
        }
        r
    }
}

/// Render a signed integer in decimal, with a leading minus sign when
/// negative.
pub fn i64_to_string(n: i64) -> (s: String)
    ensures
        s@ == spec_int_str(n as int),
{
    if n >= 0 {
        u64_to_string(n as u64)
    } else {
        let m: u64 = ((-(n as i128)) as u64);
        let prefix = String::from_str("-");
        let r = prefix.concat(u64_to_string(m).as_str());
        proof {
            reveal_strlit("-");
            assert(r@ =~= spec_int_str(n as int));
        }
        r
    }
}

/// Render a signed 32-bit integer in decimal.
pub fn i32_to_string(n: i32) -> (s: String)
    ensures
        s@ == spec_int_str(n as int),
{
    i64_to_string(n as i64)
}

/// Character-wise string equality, proved against the string views.
pub fn str_eq(a: &str, b: &str) -> (r: bool)
    ensures
        r == (a@ == b@),
{
    let alen = a.unicode_len();
    let blen = b.unicode_len();
    if alen != blen {
        assert(a@ != b@) by {
            assert(a@.len() != b@.len());
        }
        return false;
    }
    let mut i: usize = 0;
    while i < alen
        invariant
            alen == a@.len(),
            alen == b@.len(),
            0 <= i <= alen,
            forall|j: int| 0 <= j < i ==> a@[j] == b@[j],
        decreases alen - i,
    {
        if a.get_char(i) != b.get_char(i) {
            return false;
        }
        i = i + 1;
    }
    proof {
        assert(a@ =~= b@);
    }
    true
}

/// Growth of a digit string's value as digits are appended.
proof fn lemma_digits_val_prefix_le(s: Seq<char>, i: int)
    requires
        0 <= i <= s.len(),
        all_digits(s),
    ensures
        spec_digits_val(s.take(i)) <= spec_digits_val(s),
        spec_digits_val(s) >= 0,
    decreases s.len() - i,
{
    if i < s.len() {
        assert(s.take(i + 1).drop_last() =~= s.take(i));
        lemma_digits_val_prefix_le(s, i + 1);
        assert(spec_digits_val(s.take(i + 1)) == spec_digits_val(s.take(i)) * 10 + digit_val(
            s.take(i + 1).last(),
        ));
        if i == 0 {
            assert(spec_digits_val(s.take(0)) == 0);
        } else {
            lemma_digits_val_nonneg(s.take(i));
        }
    } else {
        assert(s.take(i) =~= s);
        lemma_digits_val_nonneg(s);
    }
}

/// A digit string never has a negative value.
proof fn lemma_digits_val_nonneg(s: Seq<char>)
    requires
        all_digits(s),
    ensures
        spec_digits_val(s) >= 0,
    decreases s.len(),
{
    if s.len() > 0 {
        assert(all_digits(s.drop_last()));
        lemma_digits_val_nonneg(s.drop_last());
    }
}

/// Parse a signed decimal integer with the acceptance rules of
/// `str::parse::<i64>`: an optional single sign, then one or more
/// digits, rejecting values out of range.
#[verifier::loop_isolation(false)]
pub fn parse_i64(s: &str) -> (r: Option<i64>)
    ensures
        match r {
            Some(v) => spec_parse_i64(s@) == Some(v as int),
            None => spec_parse_i64(s@) is None,
        },
{
    let len = s.unicode_len();
    if len == 0 {
        return None;
    }
    let first = s.get_char(0);
    let negative = first == '-';
    let start: usize = if first == '-' || first == '+' { 1 } else { 0 };
    let ghost digits = if s@[0] == '+' || s@[0] == '-' { s@.drop_first() } else { s@ };
    proof {
        assert(digits =~= s@.subrange(start as int, len as int));
    }
    if start == len {
        return None;
    }
    // First pass: every remaining character must be a digit.
    let mut i: usize = start;
    while i < len
        invariant
            start <= i <= len,
            forall|j: int| start <= j < i ==> is_digit_char(#[trigger] s@[j]),
        decreases len - i,
    {
        let c = s.get_char(i);
        if !(c >= '0' && c <= '9') {
            proof {
                assert(!is_digit_char(s@[i as int]));
                assert(digits[i - start] == s@[i as int]);
            }
            return None;
        }
        assert(is_digit_char(s@[i as int]));
        i = i + 1;
    }
    proof {
        assert(all_digits(digits));
    }
    // Second pass: accumulate, stopping once the value can no longer be
    // in range for i64.
    let bound: u128 = if negative { 9223372036854775808u128 } else { 9223372036854775807u128 };
    let mut acc: u128 = 0;
    let mut k: usize = start;
    while k < len
        invariant
            start <= k <= len,
            acc == spec_digits_val(digits.take(k - start)),
            acc <= bound,
        decreases len - k,
    {
        let c = s.get_char(k);
        proof {
            assert(digits[k - start] == s@[k as int]);
            assert(is_digit_char(s@[k as int]));
            assert(digits.take(k - start + 1).drop_last() =~= digits.take(k - start));
        }
        let d: u128 = (c as u32 as u128) - 48;
        proof {
            assert(d == digit_val(digits[k - start]));
        }
        let next = acc * 10 + d;
        if next > bound {
            proof {
                lemma_digits_val_prefix_le(digits, k - start + 1);
            }
            return None;
        }
        acc = next;
        k = k + 1;
    }
    proof {
        assert(digits.take(len - start) =~= digits);
    }
    if negative {
        let v: i64 = (-(acc as i128)) as i64;
        Some(v)
    } else {
        let v: i64 = acc as i64;
        Some(v)
    }
}

} // verus!
