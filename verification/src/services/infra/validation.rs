use vstd::prelude::*;

verus! {

/// How many seconds a validation request stays in flight when nothing is configured.
pub const DEFAULT_VALIDATION_REQUEST_MAX_AGE: u64 = 60;

pub open spec fn is_decimal_digit(c: char) -> bool {
    '0' <= c && c <= '9'
}

pub open spec fn digit_value(c: char) -> nat {
    (c as int - '0' as int) as nat
}

/// The number written by the decimal digits `s` (0 for no digits).
pub open spec fn digits_value(s: Seq<char>) -> nat
    decreases s.len(),
{
    if s.len() == 0 {
        0
    } else {
        digits_value(s.drop_last()) * 10 + digit_value(s.last())
    }
}

pub open spec fn all_decimal_digits(s: Seq<char>) -> bool {
    forall|i: int| 0 <= i < s.len() ==> is_decimal_digit(#[trigger] s[i])
}

/// The characters after an optional leading `+`.
pub open spec fn unsigned_part(s: Seq<char>) -> Seq<char> {
    if s.len() > 0 && s[0] == '+' {
        s.drop_first()
    } else {
        s
    }
}

/// What `str::parse::<u64>` gives for the text `s`: an optional `+` followed by
/// at least one decimal digit, of a value that fits in a `u64`.
pub open spec fn parsed_u64(s: Seq<char>) -> Option<u64> {
    let d = unsigned_part(s);
    if d.len() > 0 && all_decimal_digits(d) && digits_value(d) <= u64::MAX {
        Some(digits_value(d) as u64)
    } else {
        None
    }
}

/// The value of a digit string never falls below the value of its prefixes.
proof fn lemma_digits_value_prefix(s: Seq<char>, i: int)
    requires
        0 <= i <= s.len(),
        all_decimal_digits(s),
    ensures
        digits_value(s.take(i)) <= digits_value(s),
    decreases s.len() - i,
{
    if i < s.len() {
        lemma_digits_value_prefix(s, i + 1);
        assert(s.take(i + 1).drop_last() =~= s.take(i));
        assert(is_decimal_digit(s[i]));
    } else {
        assert(s.take(i) =~= s);
    }
}

/// Reads a `u64` written in decimal, as `str::parse::<u64>` does.
pub fn parse_u64(text: &str) -> (r: Option<u64>)
    ensures
        r == parsed_u64(text@),
{
    let n = text.unicode_len();
    let mut start: usize = 0;
    if n > 0 && text.get_char(0) == '+' {
        start = 1;
    }
    let ghost d = unsigned_part(text@);
    assert(d =~= text@.subrange(start as int, n as int));
    if start == n {
        return None;
    }
    let mut value: u64 = 0;
    let mut i: usize = start;
    while i < n
        invariant
            n == text@.len(),
            start <= i <= n,
            start < n,
            d == text@.subrange(start as int, n as int),
            d == unsigned_part(text@),
            all_decimal_digits(d.take(i - start)),
            value as nat == digits_value(d.take(i - start)),
        decreases n - i,
    {
        let c = text.get_char(i);
        let ghost k: int = (i - start) as int;
        assert(d[k] == c);
        if c < '0' || c > '9' {
            assert(!all_decimal_digits(d));
            return None;
        }
        assert(d.take(k + 1).drop_last() =~= d.take(k));
        assert(all_decimal_digits(d.take(k + 1)));
        let digit: u64 = (c as u32 - '0' as u32) as u64;
        assert(digit as nat == digit_value(c));
        assert(digits_value(d.take(k + 1)) == digits_value(d.take(k)) * 10 + digit_value(c));
        let scaled = value.checked_mul(10);
        if scaled.is_none() {
            proof {
                if all_decimal_digits(d) {
                    lemma_digits_value_prefix(d, k + 1);
                }
            }
            return None;
        }
        let next = scaled.unwrap().checked_add(digit);
        if next.is_none() {
            proof {
                if all_decimal_digits(d) {
                    lemma_digits_value_prefix(d, k + 1);
                }
            }
            return None;
        }
        value = next.unwrap();
        i = i + 1;
    }
    assert(d.take(n - start) =~= d);
    Some(value)
}

/// The in-flight window of validation requests, in seconds, from the configured
/// text (`None` where nothing is configured): the default where nothing is
/// configured, the parsed number otherwise, and `None` where the configured
/// text is no `u64`.
pub fn validation_request_max_age(configured: Option<&str>) -> (r: Option<u64>)
    ensures
        r == match configured {
            None => Some(DEFAULT_VALIDATION_REQUEST_MAX_AGE),
            Some(text) => parsed_u64(text@),
        },
{
    match configured {
        None => Some(DEFAULT_VALIDATION_REQUEST_MAX_AGE),
        Some(text) => parse_u64(text),
    }
}

/// The creation time (in whole seconds since the UNIX epoch) after which a
/// request counts as in flight at `now`, for a window of `max_age` seconds:
/// `now - max_age`; `None` where that is below the range of `i64`.
pub fn in_flight_cutoff(now: i64, max_age: u64) -> (r: Option<i64>)
    ensures
        r == (if now - max_age >= i64::MIN {
            Some((now - max_age) as i64)
        } else {
            None
        }),
{
    let cutoff: i128 = now as i128 - max_age as i128;
    if cutoff < i64::MIN as i128 {
        None
    } else {
        Some(cutoff as i64)
    }
}

} // verus!
