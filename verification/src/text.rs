//! Small text helpers shared by the archive reader, the input parser and the
//! payload builder: character-exact string comparison, prefix tests, and the
//! one place where raw bytes become a `String`.

use vstd::prelude::*;
use vstd::utf8::{decode_utf8, valid_utf8};

verus! {

/// Turns archive bytes into a `String`.
///
/// Relies on `String::from_utf8`: it succeeds exactly on valid UTF-8 input
/// and returns the string whose bytes are the input.
#[verifier::external_body]
pub(crate) fn string_from_utf8(bytes: Vec<u8>) -> (r: Option<String>)
    ensures
        r is Some <==> valid_utf8(bytes@),
        r is Some ==> r->0@ == decode_utf8(bytes@),
{
    String::from_utf8(bytes).ok()
}

/// Character-exact equality of two string slices.
pub fn str_eq(a: &str, b: &str) -> (r: bool)
    ensures
        r == (a@ == b@),
{
    let a_len = a.unicode_len();
    let b_len = b.unicode_len();
    if a_len != b_len {
        proof {
            assert(a@ != b@);
        }
        return false;
    }
    let mut i: usize = 0;
    while i < a_len
        invariant
            i <= a_len,
            a_len == a@.len(),
            a_len == b@.len(),
            forall|j: int| 0 <= j < i ==> a@[j] == b@[j],
        decreases a_len - i,
    {
        if a.get_char(i) != b.get_char(i) {
            return false;
        }
        i = i + 1;
    }
    proof {
        assert(a@ =~= b@);
    }
    true
}

/// Whether `prefix` is an initial segment of `s`.
pub fn str_starts_with(s: &str, prefix: &str) -> (r: bool)
    ensures
        r == (prefix@.is_prefix_of(s@)),
{
    let s_len = s.unicode_len();
    let p_len = prefix.unicode_len();
    if p_len > s_len {
        return false;
    }
    let mut i: usize = 0;
    while i < p_len
        invariant
            i <= p_len,
            p_len == prefix@.len(),
            s_len == s@.len(),
            p_len <= s_len,
            forall|j: int| 0 <= j < i ==> s@[j] == prefix@[j],
        decreases p_len - i,
    {
        if s.get_char(i) != prefix.get_char(i) {
            proof {
                assert(!prefix@.is_prefix_of(s@));
            }
            return false;
        }
        i = i + 1;
    }
    proof {
        assert(prefix@ =~= s@.subrange(0, p_len as int));
    }
    true
}

/// ASCII lower-casing of one character; anything but `A`..`Z` is unchanged.
pub open spec fn spec_to_lower(c: char) -> char {
    if 'A' <= c && c <= 'Z' {
        ((c as u8) + 0x20) as char
    } else {
        c
    }
}

/// Lower-cases one ASCII letter.
pub fn to_lower(c: char) -> (r: char)
    ensures
        r == spec_to_lower(c),
{
    if 'A' <= c && c <= 'Z' {
        (c as u8 + 0x20) as char
    } else {
        c
    }
}

/// ASCII upper-casing of one character; anything but `a`..`z` is unchanged.
pub open spec fn spec_to_upper(c: char) -> char {
    if 'a' <= c && c <= 'z' {
        ((c as u8) - 0x20) as char
    } else {
        c
    }
}

/// Upper-cases one ASCII letter.
pub fn to_upper(c: char) -> (r: char)
    ensures
        r == spec_to_upper(c),
{
    if 'a' <= c && c <= 'z' {
        (c as u8 - 0x20) as char
    } else {
        c
    }
}

/// Numeric value of a sequence of decimal digit characters.
pub open spec fn spec_decimal_value(s: Seq<char>) -> int
    decreases s.len(),
{
    if s.len() == 0 {
        0
    } else {
        spec_decimal_value(s.drop_last()) * 10 + (s.last() as int - '0' as int)
    }
}

/// Whether every character of `s` is a decimal digit.
pub open spec fn spec_all_digits(s: Seq<char>) -> bool {
    forall|j: int| 0 <= j < s.len() ==> '0' <= #[trigger] s[j] && s[j] <= '9'
}

/// Parses the characters of `s` from position `from` on as a decimal `u64`.
///
/// Mirrors `str::parse::<u64>` on digit-only input: fails on an empty suffix,
/// on any non-digit, and on overflow.
pub fn parse_u64_from(s: &str, from: usize) -> (r: Option<u64>)
    requires
        from <= s@.len(),
    ensures
        r is Some <==> (from < s@.len() && spec_all_digits(s@.skip(from as int))
            && spec_decimal_value(s@.skip(from as int)) <= u64::MAX),
        r is Some ==> r->0 == spec_decimal_value(s@.skip(from as int)),
{
    let len = s.unicode_len();
    if from >= len {
        return None;
    }
    let mut value: u64 = 0;
    let mut i: usize = from;
    while i < len
        invariant
            from <= i <= len,
            len == s@.len(),
            spec_all_digits(s@.subrange(from as int, i as int)),
            value == spec_decimal_value(s@.subrange(from as int, i as int)),
        decreases len - i,
    {
        let c = s.get_char(i);
        if c < '0' || c > '9' {
            proof {
                assert(s@.skip(from as int)[i - from] == s@[i as int]);
                assert(!spec_all_digits(s@.skip(from as int)));
            }
            return None;
        }
        let digit = (c as u8 - 0x30) as u64;
        let ghost prior = value;
        let next = match value.checked_mul(10) {
            Some(v) => match v.checked_add(digit) {
                Some(w) => w,
                None => {
                    proof {
                        lemma_parse_overflow(s@, from as int, i as int, prior as int);
                    }
                    return None;
                },
            },
            None => {
                proof {
                    lemma_parse_overflow(s@, from as int, i as int, prior as int);
                }
                return None;
            },
        };
        proof {
            assert(s@.subrange(from as int, i as int + 1).drop_last() =~= s@.subrange(
                from as int, i as int));
            assert(s@.subrange(from as int, i as int + 1).last() == s@[i as int]);
        }
        value = next;
        i = i + 1;
    }
    proof {
        assert(s@.subrange(from as int, len as int) =~= s@.skip(from as int));
    }
    Some(value)
}

/// If the digits seen so far already overflow a `u64`, the whole suffix does.
proof fn lemma_parse_overflow(s: Seq<char>, from: int, i: int, prior: int)
    requires
        0 <= from <= i < s.len(),
        '0' <= s[i] && s[i] <= '9',
        prior == spec_decimal_value(s.subrange(from, i)),
        prior * 10 + (s[i] as int - '0' as int) > u64::MAX,
    ensures
        !(spec_all_digits(s.skip(from)) && spec_decimal_value(s.skip(from)) <= u64::MAX),
{
    let rest = s.skip(from);
    if spec_all_digits(rest) {
        lemma_decimal_value_monotonic(rest, i - from + 1);
        assert(s.subrange(from, i + 1) =~= rest.take(i - from + 1));
        assert(s.subrange(from, i + 1).drop_last() =~= s.subrange(from, i));
        assert(s.subrange(from, i + 1).last() == s[i]);
        assert(spec_decimal_value(rest.take(i - from + 1)) == prior * 10 + (s[i] as int
            - '0' as int));
    }
}

/// A digit-string's value never shrinks when more digits are appended:
/// the value of any prefix is at most the value of the whole.
proof fn lemma_decimal_value_monotonic(s: Seq<char>, k: int)
    requires
        0 <= k <= s.len(),
        spec_all_digits(s),
    ensures
        spec_decimal_value(s.take(k)) <= spec_decimal_value(s),
    decreases s.len() - k,
{
    if k < s.len() {
        lemma_decimal_value_monotonic(s, k + 1);
        assert(s.take(k + 1).drop_last() =~= s.take(k));
        assert(s.take(k + 1).last() == s[k]);
        lemma_decimal_value_nonneg(s.take(k));
    } else {
        assert(s.take(k) =~= s);
    }
}

/// The value of a digit string is never negative.
proof fn lemma_decimal_value_nonneg(s: Seq<char>)
    requires
        spec_all_digits(s),
    ensures
        spec_decimal_value(s) >= 0,
    decreases s.len(),
{
    if s.len() > 0 {
        assert(spec_all_digits(s.drop_last()));
        lemma_decimal_value_nonneg(s.drop_last());
    }
}

} // verus!
