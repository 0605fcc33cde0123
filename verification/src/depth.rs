//! Heading depths: the offset that a document declares, and the heading
//! level that a depth is mapped to.

use vstd::prelude::*;
use crate::text::chars_of;

verus! {

/// The heading level that a depth is rendered at: the depth itself where
/// HTML has such a level, else the nearest level that it has.
pub open spec fn heading_level(depth: int) -> int {
    if depth < 1 {
        1
    } else if depth > 6 {
        6
    } else {
        depth
    }
}

/// The digit that names a heading level.
pub open spec fn level_digit(level: int) -> char {
    if level <= 1 {
        '1'
    } else if level == 2 {
        '2'
    } else if level == 3 {
        '3'
    } else if level == 4 {
        '4'
    } else if level == 5 {
        '5'
    } else {
        '6'
    }
}

/// The name of the heading element for a depth: `h1` to `h6`.
pub open spec fn heading_tag(depth: int) -> Seq<char> {
    seq!['h', level_digit(heading_level(depth))]
}

/// Whatever the depth, the heading level lies between 1 and 6, and the
/// element's name is one of `h1` to `h6`.
pub proof fn lemma_heading_level_bounded(depth: int)
    ensures
        1 <= heading_level(depth) <= 6,
        heading_tag(depth).len() == 2,
        heading_tag(depth)[0] == 'h',
        '1' <= heading_tag(depth)[1] <= '6',
        heading_tag(depth)[1] as int - '0' as int == heading_level(depth),
{
}

/// A depth that fits the level's range is kept as it is.
pub proof fn lemma_heading_level_exact(depth: int)
    requires
        1 <= depth <= 6,
    ensures
        heading_level(depth) == depth,
{
}

/// The name of the heading element for a headline of the given level under
/// the given base depth.
pub fn heading_tag_for(level: usize, base_depth: i64) -> (tag: String)
    ensures
        tag@ == heading_tag(level + base_depth),
{
    let depth: i128 = level as i128 + base_depth as i128;
    let digit = if depth <= 1 {
        '1'
    } else if depth == 2 {
        '2'
    } else if depth == 3 {
        '3'
    } else if depth == 4 {
        '4'
    } else if depth == 5 {
        '5'
    } else {
        '6'
    };
    let mut tag = String::new();
    tag.push('h');
    tag.push(digit);
    assert(tag@ =~= heading_tag(level + base_depth));
    tag
}

/// Whether `c` is one of the digits `0` to `9`.
pub open spec fn is_digit(c: char) -> bool {
    '0' <= c <= '9'
}

/// The number that a digit stands for.
pub open spec fn digit_value(c: char) -> int {
    c as int - '0' as int
}

/// The number that a run of digits denotes in base ten.
pub open spec fn decimal(digits: Seq<char>) -> int
    decreases digits.len(),
{
    if digits.len() == 0 {
        0
    } else {
        decimal(digits.drop_last()) * 10 + digit_value(digits.last())
    }
}

/// Whether every character of `s` is a digit.
pub open spec fn all_digits(s: Seq<char>) -> bool {
    forall|i: int| 0 <= i < s.len() ==> is_digit(#[trigger] s[i])
}

/// The digits of a signed number: the text without its sign.
pub open spec fn unsigned_part(s: Seq<char>) -> Seq<char> {
    if s.len() > 0 && (s[0] == '-' || s[0] == '+') {
        s.skip(1)
    } else {
        s
    }
}

/// The number that a text denotes: an optional sign and then digits only.
pub open spec fn signed_value(s: Seq<char>) -> int {
    if s.len() > 0 && s[0] == '-' {
        -decimal(unsigned_part(s))
    } else {
        decimal(unsigned_part(s))
    }
}

/// The small signed number that a text denotes, where it is one: an
/// optional sign, at least one digit, nothing else, and a value from -128
/// to 127.
pub open spec fn parsed_small(s: Seq<char>) -> Option<int> {
    if unsigned_part(s).len() > 0 && all_digits(unsigned_part(s)) && -128 <= signed_value(s)
        <= 127 {
        Some(signed_value(s))
    } else {
        None
    }
}

/// The base depth that a document declares: the number in its property, or
/// 0 where the property is absent or no such number.
pub open spec fn declared_depth(value: Option<Seq<char>>) -> int {
    match value {
        Some(v) => match parsed_small(v) {
            Some(n) => n,
            None => 0,
        },
        None => 0,
    }
}

/// Reads a small signed number.
pub fn parse_small(s: &str) -> (n: Option<i8>)
    ensures
        n is Some == parsed_small(s@) is Some,
        n matches Some(v) ==> parsed_small(s@) == Some(v as int),
{
    let text = chars_of(s);
    let negative = text.len() > 0 && text[0] == '-';
    let start: usize = if text.len() > 0 && (text[0] == '-' || text[0] == '+') {
        1
    } else {
        0
    };
    let ghost digits = unsigned_part(s@);
    assert(digits == text@.skip(start as int));
    if start == text.len() {
        return None;
    }
    let mut value: i64 = 0;
    let mut i: usize = start;
    while i < text.len()
        invariant
            start <= i <= text.len(),
            digits == text@.skip(start as int),
            digits == unsigned_part(s@),
            all_digits(digits.take(i - start)),
            0 <= value <= 1000,
            value < 1000 ==> value == decimal(digits.take(i - start)),
            value == 1000 ==> decimal(digits.take(i - start)) >= 1000,
        decreases text.len() - i,
    {
        let c = text[i];
        proof {
            assert(digits[i - start] == c);
            assert(digits.take(i - start + 1).drop_last() == digits.take(i - start));
            assert(digits.take(i - start + 1).last() == c);
        }
        if !('0' <= c && c <= '9') {
            assert(!all_digits(digits)) by {
                assert(!is_digit(digits[i - start]));
            }
            return None;
        }
        assert forall|j: int| 0 <= j < i - start + 1 implies is_digit(
            #[trigger] digits.take(i - start + 1)[j],
        ) by {
            if j < i - start {
                assert(digits.take(i - start)[j] == digits.take(i - start + 1)[j]);
            }
        }
        let d: i64 = (c as u32 - '0' as u32) as i64;
        value = if value >= 100 {
            1000
        } else {
            value * 10 + d
        };
        i += 1;
    }
    proof {
        assert(digits.take(i - start) == digits);
    }
    if negative {
        if value <= 128 {
            Some((-value) as i8)
        } else {
            None
        }
    } else {
        if value <= 127 {
            Some(value as i8)
        } else {
            None
        }
    }
}

} // verus!
