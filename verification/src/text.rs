//! Text as sequences of characters: comparison, splitting and decimal numbers.

use vstd::prelude::*;

verus! {

/// `str`'s `==` from the standard library: two string slices are equal
/// exactly when they hold the same characters.
pub assume_specification[ <str as PartialEq>::eq ](a: &str, b: &str) -> (same: bool)
    ensures
        same == (a@ == b@),
;

/// The lower-case form of an ASCII capital letter; any other character
/// itself.
pub open spec fn ascii_lower(c: char) -> char {
    if 'A' <= c && c <= 'Z' {
        ((c as u8 + 32) as u8) as char
    } else {
        c
    }
}

/// `s` with each of its characters in ASCII lower case.
pub open spec fn lowered(s: Seq<char>) -> Seq<char> {
    Seq::new(s.len(), |i: int| ascii_lower(s[i]))
}

/// `str::to_ascii_lowercase` from the standard library: a copy in which the
/// ASCII letters `A` to `Z` have become `a` to `z` and nothing else has
/// changed.
pub assume_specification[ str::to_ascii_lowercase ](s: &str) -> (lower: String)
    ensures
        lower@ == lowered(s@),
;

/// The characters of `s`, in order.
pub fn chars_of(s: &str) -> (chars: Vec<char>)
    ensures
        chars@ == s@,
{
    let mut chars: Vec<char> = Vec::new();
    for c in it: s.chars()
        invariant
            chars@ == it.seq().take(it.index() as int),
    {
        chars.push(c);
    }
    chars
}

/// Where `c` first stands in `s`; the length of `s` where it does not occur.
pub open spec fn first_index_of(s: Seq<char>, c: char) -> int
    decreases s.len(),
{
    if s.len() == 0 || s[0] == c {
        0
    } else {
        1 + first_index_of(s.skip(1), c)
    }
}

/// `first_index_of` is the one place before which `c` does not occur and at
/// which it does, or the end.
pub proof fn lemma_first_index_of(s: Seq<char>, c: char, i: int)
    requires
        0 <= i <= s.len(),
        forall|j: int| 0 <= j < i ==> s[j] != c,
        i < s.len() ==> s[i] == c,
    ensures
        first_index_of(s, c) == i,
    decreases i,
{
    if i > 0 {
        let rest = s.skip(1);
        assert forall|j: int| 0 <= j < i - 1 implies rest[j] != c by {
            assert(rest[j] == s[j + 1]);
        }
        lemma_first_index_of(rest, c, i - 1);
    }
}

/// Finds where `c` first stands in `chars`.
pub fn find_char(chars: &Vec<char>, c: char) -> (index: usize)
    ensures
        index == first_index_of(chars@, c),
        index <= chars.len(),
{
    let mut i: usize = 0;
    while i < chars.len() && chars[i] != c
        invariant
            i <= chars.len(),
            forall|j: int| 0 <= j < i ==> chars@[j] != c,
        decreases chars.len() - i,
    {
        i += 1;
    }
    proof {
        lemma_first_index_of(chars@, c, i as int);
    }
    i
}

/// Whether `c` is one of the ten ASCII digits.
pub open spec fn is_digit(c: char) -> bool {
    '0' <= c && c <= '9'
}

/// The number that the ASCII digit `c` stands for.
pub open spec fn digit_value(c: char) -> nat
    recommends
        is_digit(c),
{
    (c as u32 - '0' as u32) as nat
}

/// Whether `s` holds ASCII digits only.
pub open spec fn all_digits(s: Seq<char>) -> bool {
    forall|i: int| 0 <= i < s.len() ==> is_digit(#[trigger] s[i])
}

/// The number written by the digits `s` in base ten; nothing written is zero.
pub open spec fn decimal_value(s: Seq<char>) -> nat
    recommends
        all_digits(s),
    decreases s.len(),
{
    if s.len() == 0 {
        0
    } else {
        10 * decimal_value(s.drop_last()) + digit_value(s.last())
    }
}

/// `s` without one leading plus sign.
pub open spec fn unsigned_part(s: Seq<char>) -> Seq<char> {
    if s.len() > 0 && s[0] == '+' {
        s.skip(1)
    } else {
        s
    }
}

/// The 32-bit unsigned number that `s` writes: an optional plus sign, then
/// one or more ASCII digits and nothing else, of a value that fits.
pub open spec fn parse_u32(s: Seq<char>) -> Option<u32> {
    let digits = unsigned_part(s);
    if digits.len() > 0 && all_digits(digits) && decimal_value(digits) <= u32::MAX {
        Some(decimal_value(digits) as u32)
    } else {
        None
    }
}

/// A number is at least the number that any of its leading digits write.
pub proof fn lemma_decimal_value_grows(s: Seq<char>, k: int)
    requires
        all_digits(s),
        0 <= k <= s.len(),
    ensures
        decimal_value(s.take(k)) <= decimal_value(s),
    decreases s.len() - k,
{
    if k < s.len() {
        lemma_decimal_value_grows(s, k + 1);
        let longer = s.take(k + 1);
        assert(longer.drop_last() =~= s.take(k));
        assert(is_digit(s[k]));
        assert(longer.last() == s[k]);
    } else {
        assert(s.take(k) =~= s);
    }
}

/// Reads the number that `chars[from..to]` writes.
pub fn read_u32(chars: &Vec<char>, from: usize, to: usize) -> (number: Option<u32>)
    requires
        from <= to <= chars.len(),
    ensures
        number == parse_u32(chars@.subrange(from as int, to as int)),
{
    let ghost text = chars@.subrange(from as int, to as int);
    let start: usize = if from < to && chars[from] == '+' {
        from + 1
    } else {
        from
    };
    let ghost digits = unsigned_part(text);
    assert(digits =~= chars@.subrange(start as int, to as int));
    if start == to {
        return None;
    }
    let mut value: u64 = 0;
    let mut i: usize = start;
    while i < to
        invariant
            start <= i <= to <= chars.len(),
            digits == chars@.subrange(start as int, to as int),
            digits == unsigned_part(chars@.subrange(from as int, to as int)),
            all_digits(digits.take(i - start)),
            value == decimal_value(digits.take(i - start)),
            value <= u32::MAX,
        decreases to - i,
    {
        let c: char = chars[i];
        assert(c == digits[i - start]);
        if c < '0' || c > '9' {
            assert(!is_digit(digits[i - start]));
            return None;
        }
        let digit: u64 = (c as u32 - '0' as u32) as u64;
        let ghost longer = digits.take(i - start + 1);
        assert(longer.drop_last() =~= digits.take(i - start));
        assert(longer.last() == c);
        assert(all_digits(longer)) by {
            assert forall|j: int| 0 <= j < longer.len() implies is_digit(#[trigger] longer[j]) by {
                if j < i - start {
                    assert(longer[j] == digits.take(i - start)[j]);
                }
            }
        }
        value = value * 10 + digit;
        if value > 0xffff_ffff {
            proof {
                if all_digits(digits) {
                    lemma_decimal_value_grows(digits, i - start + 1);
                }
                assert(parse_u32(chars@.subrange(from as int, to as int)) is None);
            }
            return None;
        }
        i += 1;
    }
    assert(digits.take(i - start) =~= digits);
    Some(value as u32)
}

/// Whether `part` stands in `s` from the place `at` on.
pub open spec fn stands_at(s: Seq<char>, at: int, part: Seq<char>) -> bool {
    0 <= at && at + part.len() <= s.len() && s.subrange(at, at + part.len()) == part
}

/// Tests whether `part` stands in `chars` from the place `at` on.
pub fn matches_at(chars: &Vec<char>, at: usize, part: &Vec<char>) -> (found: bool)
    ensures
        found == stands_at(chars@, at as int, part@),
{
    if at > chars.len() || part.len() > chars.len() - at {
        return false;
    }
    let mut i: usize = 0;
    while i < part.len()
        invariant
            i <= part.len(),
            at + part.len() <= chars.len(),
            forall|j: int| 0 <= j < i ==> chars@[at + j] == part@[j],
        decreases part.len() - i,
    {
        if chars[at + i] != part[i] {
            assert(chars@.subrange(at as int, at + part.len())[i as int] != part@[i as int]);
            return false;
        }
        i += 1;
    }
    assert(chars@.subrange(at as int, at + part.len()) =~= part@);
    true
}

/// What is left of `s` between `prefix` at its start and `suffix` at its
/// end, where `s` starts with the one and what follows it ends with the
/// other; `None` where it does not.
pub open spec fn strip_both(s: Seq<char>, prefix: Seq<char>, suffix: Seq<char>) -> Option<
    Seq<char>,
> {
    if prefix.is_prefix_of(s) && suffix.is_suffix_of(s.skip(prefix.len() as int)) {
        Some(s.subrange(prefix.len() as int, s.len() - suffix.len()))
    } else {
        None
    }
}

/// `strip_prefix_suffix` for a caller that has the characters of `s` at hand.
pub(crate) fn strip_known<'a>(s: &'a str, chars: &Vec<char>, prefix: &str, suffix: &str) -> (middle:
    Option<&'a str>)
    requires
        chars@ == s@,
    ensures
        match middle {
            Some(middle) => strip_both(s@, prefix@, suffix@) == Some(middle@),
            None => strip_both(s@, prefix@, suffix@) is None,
        },
{
    let prefix = chars_of(prefix);
    let suffix = chars_of(suffix);
    let ghost rest = s@.skip(prefix@.len() as int);
    if !matches_at(chars, 0, &prefix) {
        return None;
    }
    if suffix.len() > chars.len() - prefix.len() {
        return None;
    }
    let end: usize = chars.len() - suffix.len();
    assert(rest.subrange(rest.len() - suffix@.len(), rest.len() as int) =~= s@.subrange(
        end as int,
        end + suffix@.len(),
    ));
    if !matches_at(chars, end, &suffix) {
        return None;
    }
    Some(s.substring_char(prefix.len(), end))
}

/// Takes `prefix` from the start of `s` and `suffix` from the end of what
/// follows it, and returns what lies between them.
pub fn strip_prefix_suffix<'a>(s: &'a str, prefix: &str, suffix: &str) -> (middle: Option<
    &'a str,
>)
    ensures
        match middle {
            Some(middle) => strip_both(s@, prefix@, suffix@) == Some(middle@),
            None => strip_both(s@, prefix@, suffix@) is None,
        },
{
    let chars = chars_of(s);
    strip_known(s, &chars, prefix, suffix)
}

} // verus!
