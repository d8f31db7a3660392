//! Reading a coordinate from a line that a person typed.

use vstd::prelude::*;
use vstd::string::StrSliceExecFns;

verus! {

/// White space as Unicode defines it: what is left out at both ends of a line.
pub open spec fn is_space(c: char) -> bool {
    let code = c as u32;
    ||| 0x09 <= code <= 0x0D
    ||| code == 0x20
    ||| code == 0x85
    ||| code == 0xA0
    ||| code == 0x1680
    ||| 0x2000 <= code <= 0x200A
    ||| code == 0x2028
    ||| code == 0x2029
    ||| code == 0x202F
    ||| code == 0x205F
    ||| code == 0x3000
}

/// One of the digits `0` to `9`.
pub open spec fn is_digit(c: char) -> bool {
    0x30 <= c as u32 <= 0x39
}

/// The value of a digit; zero for any other character.
pub open spec fn digit_value(c: char) -> nat {
    if is_digit(c) {
        (c as u32 - 0x30) as nat
    } else {
        0
    }
}

/// The first position at or after `from` that holds no white space.
pub open spec fn skip_spaces(text: Seq<char>, from: int) -> int
    decreases text.len() - from,
{
    if 0 <= from < text.len() && is_space(text[from]) {
        skip_spaces(text, from + 1)
    } else {
        from
    }
}

/// The end of the text once the white space before `end` is dropped, down
/// to `low` at most.
pub open spec fn drop_spaces(text: Seq<char>, low: int, end: int) -> int
    decreases end - low,
{
    if low < end <= text.len() && is_space(text[end - 1]) {
        drop_spaces(text, low, end - 1)
    } else {
        end
    }
}

/// The text without the white space at its two ends.
pub open spec fn trimmed(text: Seq<char>) -> Seq<char> {
    let start = skip_spaces(text, 0);
    text.subrange(start, drop_spaces(text, start, text.len() as int))
}

/// The number that a run of digits writes in base ten.
pub open spec fn number_of(digits: Seq<char>) -> nat
    decreases digits.len(),
{
    if digits.len() == 0 {
        0
    } else {
        10 * number_of(digits.drop_last()) + digit_value(digits.last())
    }
}

/// Every character is a digit.
pub open spec fn all_digits(text: Seq<char>) -> bool {
    forall|i: int| 0 <= i < text.len() ==> is_digit(#[trigger] text[i])
}

/// The number that `digits` writes, when they are one or more digits and
/// the number fits the machine's word.
pub open spec fn word_of(digits: Seq<char>) -> Option<usize> {
    if digits.len() > 0 && all_digits(digits) && number_of(digits) <= usize::MAX {
        Some(number_of(digits) as usize)
    } else {
        None
    }
}

/// The coordinate that a line gives: between white space, an optional `+`
/// and then one or more digits, whose number must fit the machine's word.
pub open spec fn coordinate_of(line: Seq<char>) -> Option<usize> {
    let word = trimmed(line);
    if word.len() > 0 && word[0] == '+' {
        word_of(word.drop_first())
    } else {
        word_of(word)
    }
}

/// A longer run of digits writes a number at least as great as any of its
/// prefixes.
proof fn lemma_number_grows(digits: Seq<char>, k: int)
    requires
        0 <= k <= digits.len(),
    ensures
        number_of(digits.subrange(0, k)) <= number_of(digits),
    decreases digits.len() - k,
{
    if k < digits.len() {
        lemma_number_grows(digits, k + 1);
        assert(digits.subrange(0, k + 1).drop_last() =~= digits.subrange(0, k));
    } else {
        assert(digits.subrange(0, k) =~= digits);
    }
}

/// Whether `c` is white space.
fn is_space_char(c: char) -> (space: bool)
    ensures
        space == is_space(c),
{
    let code = c as u32;
    (0x09 <= code && code <= 0x0D) || code == 0x20 || code == 0x85 || code == 0xA0 || code
        == 0x1680 || (0x2000 <= code && code <= 0x200A) || code == 0x2028 || code == 0x2029
        || code == 0x202F || code == 0x205F || code == 0x3000
}

/// Reads a coordinate from a line: a number in base ten, with white space
/// allowed around it. `None` when the line holds anything else, or a
/// number too great for the machine's word.
pub fn parse_coordinate(line: &str) -> (value: Option<usize>)
    ensures
        value == coordinate_of(line@),
{
    let len = line.unicode_len();
    let mut start: usize = 0;
    while start < len && is_space_char(line.get_char(start))
        invariant
            start <= len,
            len == line@.len(),
            skip_spaces(line@, 0) == skip_spaces(line@, start as int),
        decreases len - start,
    {
        start += 1;
    }
    let mut end: usize = len;
    while end > start && is_space_char(line.get_char(end - 1))
        invariant
            start <= end <= len,
            len == line@.len(),
            drop_spaces(line@, start as int, len as int) == drop_spaces(
                line@,
                start as int,
                end as int,
            ),
        decreases end - start,
    {
        end -= 1;
    }
    let ghost word = line@.subrange(start as int, end as int);
    let mut first: usize = start;
    if first < end && line.get_char(first) == '+' {
        first += 1;
    }
    let ghost digits = line@.subrange(first as int, end as int);
    assert(digits =~= if word.len() > 0 && word[0] == '+' {
        word.drop_first()
    } else {
        word
    });
    if first == end {
        return None;
    }
    let mut number: usize = 0;
    let mut at: usize = first;
    while at < end
        invariant
            first <= at <= end <= len,
            len == line@.len(),
            digits == line@.subrange(first as int, end as int),
            coordinate_of(line@) == word_of(digits),
            all_digits(digits.subrange(0, at - first)),
            number == number_of(digits.subrange(0, at - first)),
        decreases end - at,
    {
        let c = line.get_char(at);
        let code = c as u32;
        if code < 0x30 || code > 0x39 {
            assert(!is_digit(digits[at - first]));
            return None;
        }
        let ghost seen = digits.subrange(0, at - first + 1);
        proof {
            assert(seen.drop_last() =~= digits.subrange(0, at - first));
            lemma_number_grows(digits, at - first + 1);
        }
        let scaled = match number.checked_mul(10) {
            Some(scaled) => scaled,
            None => {
                return None;
            },
        };
        number = match scaled.checked_add((code - 0x30) as usize) {
            Some(sum) => sum,
            None => {
                return None;
            },
        };
        at += 1;
    }
    assert(digits.subrange(0, at - first) =~= digits);
    Some(number)
}

} // verus!
