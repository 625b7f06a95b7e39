//! Small verified text utilities: string equality, ASCII case folding and
//! tolerant decimal parsing for port numbers.

use vstd::prelude::*;

verus! {

/// Lower-cases one ASCII letter; every other character is left alone.
pub open spec fn lower_char(c: char) -> char {
    if 'A' <= c && c <= 'Z' {
        ((c as int) + 32) as char
    } else {
        c
    }
}

/// Lower-cases every ASCII letter of a character sequence.
pub open spec fn lower(s: Seq<char>) -> Seq<char> {
    Seq::new(s.len(), |i: int| lower_char(s[i]))
}

/// Character-for-character equality of two string slices.
pub fn str_eq(a: &str, b: &str) -> (r: bool)
    ensures
        r == (a@ == b@),
{
    let a_len = a.unicode_len();
    let b_len = b.unicode_len();
    if a_len != b_len {
        assert(a@ != b@) by {
            assert(a@.len() != b@.len());
        }
        return false;
    }
    let mut i: usize = 0;
    while i < a_len
        invariant
            i <= a_len,
            a_len == a@.len(),
            b_len == b@.len(),
            a_len == b_len,
            forall|j: int| 0 <= j < i ==> a@[j] == b@[j],
        decreases a_len - i,
    {
        if a.get_char(i) != b.get_char(i) {
            return false;
        }
        i = i + 1;
    }
    proof {
        assert(a@ =~= b@);
    }
    true
}

/// Equality of two string slices up to ASCII case.
pub fn eq_ignore_ascii_case(a: &str, b: &str) -> (r: bool)
    ensures
        r == (lower(a@) == lower(b@)),
{
    let a_len = a.unicode_len();
    let b_len = b.unicode_len();
    if a_len != b_len {
        assert(lower(a@) != lower(b@)) by {
            assert(lower(a@).len() != lower(b@).len());
        }
        return false;
    }
    let mut i: usize = 0;
    while i < a_len
        invariant
            i <= a_len,
            a_len == a@.len(),
            b_len == b@.len(),
            a_len == b_len,
            forall|j: int| 0 <= j < i ==> lower_char(a@[j]) == lower_char(b@[j]),
        decreases a_len - i,
    {
        let ca = a.get_char(i);
        let cb = b.get_char(i);
        if !chars_eq_ignore_case(ca, cb) {
            assert(lower(a@)[i as int] != lower(b@)[i as int]);
            return false;
        }
        i = i + 1;
    }
    proof {
        assert(lower(a@) =~= lower(b@));
    }
    true
}

/// Equality of two characters up to ASCII case.
fn chars_eq_ignore_case(a: char, b: char) -> (r: bool)
    ensures
        r == (lower_char(a) == lower_char(b)),
{
    let au: u32 = a as u32;
    let bu: u32 = b as u32;
    let al: u32 = if 65 <= au && au <= 90 { au + 32 } else { au };
    let bl: u32 = if 65 <= bu && bu <= 90 { bu + 32 } else { bu };
    al == bl
}

/// Lower-cases one character, keeping non-ASCII-letters unchanged.
pub fn to_lower_char(c: char) -> (r: char)
    ensures
        r == lower_char(c),
{
    if 'A' <= c && c <= 'Z' {
        ((c as u8) + 32) as char
    } else {
        c
    }
}

/// Relies on `String`'s `FromIterator` over `char`: collecting a vector of
/// characters yields the string of exactly those characters, in order.
#[verifier::external_body]
pub fn string_from_chars(chars: &Vec<char>) -> (r: String)
    ensures
        r@ == chars@,
{
    chars.iter().collect()
}

/// A decimal digit.
pub open spec fn is_digit(c: char) -> bool {
    '0' <= c && c <= '9'
}

/// The numeric value of a decimal digit.
pub open spec fn digit_value(c: char) -> int {
    (c as int) - 48
}

/// Whether every character of the sequence is a decimal digit.
pub open spec fn all_digits(s: Seq<char>) -> bool {
    forall|i: int| 0 <= i < s.len() ==> is_digit(#[trigger] s[i])
}

/// The value of a sequence of decimal digits, most significant first.
pub open spec fn decimal_value(s: Seq<char>) -> int
    decreases s.len(),
{
    if s.len() == 0 {
        0
    } else {
        decimal_value(s.drop_last()) * 10 + digit_value(s.last())
    }
}

/// A string of digits denotes a value that is never negative.
pub proof fn lemma_decimal_value_nonneg(s: Seq<char>)
    requires
        all_digits(s),
    ensures
        decimal_value(s) >= 0,
    decreases s.len(),
{
    if s.len() > 0 {
        assert(all_digits(s.drop_last()));
        lemma_decimal_value_nonneg(s.drop_last());
    }
}

/// Parses an unsigned decimal port number, as the tolerant configuration
/// loader requires of string-valued ports: the parse succeeds exactly on a
/// non-empty, all-digit string whose value fits in sixteen bits.
pub fn parse_u16(s: &str) -> (r: Option<u16>)
    ensures
        match r {
            Some(v) => s@.len() > 0 && all_digits(s@) && decimal_value(s@) == v as int,
            None => s@.len() == 0 || !all_digits(s@) || decimal_value(s@) > u16::MAX,
        },
{
    let len = s.unicode_len();
    if len == 0 {
        return None;
    }
    let mut acc: u32 = 0;
    let mut i: usize = 0;
    while i < len
        invariant
            0 < len == s@.len(),
            i <= len,
            all_digits(s@.subrange(0, i as int)),
            acc as int == decimal_value(s@.subrange(0, i as int)),
            acc <= 65535,
        decreases len - i,
    {
        let c = s.get_char(i);
        if c < '0' || c > '9' {
            assert(!is_digit(s@[i as int]));
            return None;
        }
        let d: u32 = (c as u32) - 48;
        let next: u32 = acc * 10 + d;
        proof {
            assert(s@.subrange(0, i + 1).drop_last() =~= s@.subrange(0, i as int));
            assert(s@.subrange(0, i + 1).last() == s@[i as int]);
        }
        if next > 65535 {
            proof {
                lemma_decimal_prefix_bound(s@, i + 1);
            }
            return None;
        }
        acc = next;
        i = i + 1;
    }
    proof {
        assert(s@.subrange(0, len as int) =~= s@);
    }
    Some(acc as u16)
}

/// Once a digit prefix is already too large for a port, the whole digit
/// string is too large as well.
proof fn lemma_decimal_prefix_bound(s: Seq<char>, n: int)
    requires
        0 <= n <= s.len(),
        decimal_value(s.subrange(0, n)) > u16::MAX,
    ensures
        all_digits(s) ==> decimal_value(s) > u16::MAX,
    decreases s.len() - n,
{
    if n < s.len() {
        assert(all_digits(s) ==> is_digit(s[n]));
        assert(s.subrange(0, n + 1).drop_last() =~= s.subrange(0, n));
        assert(all_digits(s) ==> decimal_value(s.subrange(0, n + 1)) == decimal_value(
            s.subrange(0, n),
        ) * 10 + digit_value(s[n]) > u16::MAX);
        if all_digits(s) {
            lemma_decimal_prefix_bound(s, n + 1);
        }
    } else {
        assert(s.subrange(0, n) =~= s);
    }
}

} // verus!
