//! Reading a guess out of one line of text.
//!
//! A line is a sequence of characters. Surrounding white space is ignored;
//! what is left must be an optional sign followed by decimal digits, and the
//! number it denotes must lie in `[1, 100]`.

use vstd::prelude::*;

verus! {

/// The smallest value a secret or a guess may have.
pub const SECRET_MIN: u8 = 1;

/// The largest value a secret or a guess may have.
pub const SECRET_MAX: u8 = 100;

/// Why a line of text was not accepted as a guess.
#[derive(Clone, Copy, Debug, PartialEq, Eq, Structural)]
pub enum ParseError {
    /// The line, once trimmed, is not an optional sign followed by digits.
    NotAnInteger,
    /// The line denotes an integer, but one outside `[1, 100]`.
    OutOfRange,
}

/// Whether `v` may be a secret or a guess.
pub open spec fn in_range(v: int) -> bool {
    1 <= v <= 100
}

/// The characters that count as white space: those with the Unicode
/// `White_Space` property.
pub open spec fn is_space(c: char) -> bool {
    ||| ('\u{9}' <= c && c <= '\u{d}')
    ||| c == ' '
    ||| c == '\u{85}'
    ||| c == '\u{a0}'
    ||| c == '\u{1680}'
    ||| ('\u{2000}' <= c && c <= '\u{200a}')
    ||| c == '\u{2028}'
    ||| c == '\u{2029}'
    ||| c == '\u{202f}'
    ||| c == '\u{205f}'
    ||| c == '\u{3000}'
}

/// Whether `c` is one of `'0'` to `'9'`.
pub open spec fn is_digit(c: char) -> bool {
    '0' <= c && c <= '9'
}

/// The number that the digit `c` stands for.
pub open spec fn digit_value(c: char) -> int
    recommends
        is_digit(c),
{
    c as int - '0' as int
}

/// `s` without its leading white space.
pub open spec fn trim_start(s: Seq<char>) -> Seq<char>
    decreases s.len(),
{
    if s.len() > 0 && is_space(s[0]) {
        trim_start(s.drop_first())
    } else {
        s
    }
}

/// `s` without its trailing white space.
pub open spec fn trim_end(s: Seq<char>) -> Seq<char>
    decreases s.len(),
{
    if s.len() > 0 && is_space(s.last()) {
        trim_end(s.drop_last())
    } else {
        s
    }
}

/// `s` without its leading and trailing white space.
pub open spec fn trimmed(s: Seq<char>) -> Seq<char> {
    trim_end(trim_start(s))
}

/// Whether `s` is made of decimal digits only.
pub open spec fn all_digits(s: Seq<char>) -> bool {
    forall|i: int| 0 <= i < s.len() ==> is_digit(#[trigger] s[i])
}

/// The number that a string of digits denotes in base ten.
pub open spec fn digits_value(s: Seq<char>) -> nat
    decreases s.len(),
{
    if s.len() == 0 {
        0
    } else {
        (digits_value(s.drop_last()) * 10 + digit_value(s.last())) as nat
    }
}

/// The integer that `s` denotes: an optional `+` or `-`, then at least one
/// digit. `None` where `s` has another shape.
pub open spec fn integer_text(s: Seq<char>) -> Option<int> {
    if s.len() > 0 && (s[0] == '+' || s[0] == '-') {
        let digits = s.drop_first();
        if digits.len() > 0 && all_digits(digits) {
            if s[0] == '-' {
                Some(-(digits_value(digits) as int))
            } else {
                Some(digits_value(digits) as int)
            }
        } else {
            None
        }
    } else if s.len() > 0 && all_digits(s) {
        Some(digits_value(s) as int)
    } else {
        None
    }
}

/// What a line of input means: the guess it holds, or why it holds none.
pub open spec fn spec_parse_guess(line: Seq<char>) -> Result<u8, ParseError> {
    match integer_text(trimmed(line)) {
        None => Err(ParseError::NotAnInteger),
        Some(v) => if in_range(v) {
            Ok(v as u8)
        } else {
            Err(ParseError::OutOfRange)
        },
    }
}

/// Where the text of a line begins: `trim_start` drops exactly the white
/// space before the first character that is none.
pub proof fn lemma_trim_start_bound(s: Seq<char>) -> (start: int)
    ensures
        0 <= start <= s.len(),
        trim_start(s) == s.subrange(start, s.len() as int),
        forall|i: int| 0 <= i < start ==> is_space(#[trigger] s[i]),
        start < s.len() ==> !is_space(s[start]),
    decreases s.len(),
{
    if s.len() > 0 && is_space(s[0]) {
        let rest = s.drop_first();
        let inner = lemma_trim_start_bound(rest);
        assert(rest.subrange(inner, rest.len() as int) =~= s.subrange(inner + 1, s.len() as int));
        assert forall|i: int| 0 <= i < inner + 1 implies is_space(#[trigger] s[i]) by {
            if i > 0 {
                assert(s[i] == rest[i - 1]);
            }
        }
        assert(inner < rest.len() ==> s[inner + 1] == rest[inner]);
        inner + 1
    } else {
        assert(s.subrange(0, s.len() as int) =~= s);
        0
    }
}

/// Where the text of a line ends: `trim_end` drops exactly the white space
/// after the last character that is none.
pub proof fn lemma_trim_end_bound(s: Seq<char>) -> (end: int)
    ensures
        0 <= end <= s.len(),
        trim_end(s) == s.subrange(0, end),
        forall|i: int| end <= i < s.len() ==> is_space(#[trigger] s[i]),
        end > 0 ==> !is_space(s[end - 1]),
    decreases s.len(),
{
    if s.len() > 0 && is_space(s.last()) {
        let rest = s.drop_last();
        let inner = lemma_trim_end_bound(rest);
        assert(rest.subrange(0, inner) =~= s.subrange(0, inner));
        assert forall|i: int| inner <= i < s.len() implies is_space(#[trigger] s[i]) by {
            if i < rest.len() {
                assert(s[i] == rest[i]);
            }
        }
        assert(inner > 0 ==> s[inner - 1] == rest[inner - 1]);
        inner
    } else {
        assert(s.subrange(0, s.len() as int) =~= s);
        s.len() as int
    }
}

/// What trimming leaves: the stretch of the line from its first character
/// that is no white space to its last, and nothing where all is white
/// space.
pub proof fn law_trimmed_is_the_text_between_spaces(s: Seq<char>) -> (bounds: (int, int))
    ensures
        0 <= bounds.0 <= bounds.1 <= s.len(),
        trimmed(s) == s.subrange(bounds.0, bounds.1),
        forall|i: int| 0 <= i < bounds.0 ==> is_space(#[trigger] s[i]),
        forall|i: int| bounds.1 <= i < s.len() ==> is_space(#[trigger] s[i]),
        bounds.0 < bounds.1 ==> !is_space(s[bounds.0]) && !is_space(s[bounds.1 - 1]),
{
    let start = lemma_trim_start_bound(s);
    let tail = s.subrange(start, s.len() as int);
    let inner = lemma_trim_end_bound(tail);
    let end = start + inner;
    assert(tail.subrange(0, inner) =~= s.subrange(start, end));
    assert forall|i: int| end <= i < s.len() implies is_space(#[trigger] s[i]) by {
        assert(s[i] == tail[i - start]);
    }
    if start < end {
        assert(tail[inner - 1] == s[end - 1]);
    }
    (start, end)
}

/// Tells whether `c` is white space.
pub fn is_whitespace(c: char) -> (r: bool)
    ensures
        r == is_space(c),
{
    ('\u{9}' <= c && c <= '\u{d}') || c == ' ' || c == '\u{85}' || c == '\u{a0}' || c
        == '\u{1680}' || ('\u{2000}' <= c && c <= '\u{200a}') || c == '\u{2028}' || c
        == '\u{2029}' || c == '\u{202f}' || c == '\u{205f}' || c == '\u{3000}'
}

/// Tells whether `c` is a decimal digit.
pub fn is_decimal_digit(c: char) -> (r: bool)
    ensures
        r == is_digit(c),
{
    '0' <= c && c <= '9'
}

/// The position of the first character of `line` that is not white space,
/// or the length of `line` where there is none.
fn leading_spaces(line: &str, len: usize) -> (start: usize)
    requires
        len == line@.len(),
    ensures
        start <= len,
        trim_start(line@) == line@.subrange(start as int, len as int),
{
    let mut start: usize = 0;
    proof {
        assert(line@.subrange(0, len as int) =~= line@);
    }
    while start < len && is_whitespace(line.get_char(start))
        invariant
            start <= len,
            len == line@.len(),
            trim_start(line@) == trim_start(line@.subrange(start as int, len as int)),
        decreases len - start,
    {
        proof {
            let rest = line@.subrange(start as int, len as int);
            assert(rest.drop_first() =~= line@.subrange(start + 1, len as int));
        }
        start += 1;
    }
    start
}

/// One past the position of the last character of `line`, from `start` on,
/// that is not white space, or `start` where there is none.
fn trailing_spaces(line: &str, start: usize, len: usize) -> (end: usize)
    requires
        start <= len,
        len == line@.len(),
    ensures
        start <= end <= len,
        trim_end(line@.subrange(start as int, len as int)) == line@.subrange(
            start as int,
            end as int,
        ),
{
    let mut end: usize = len;
    while end > start && is_whitespace(line.get_char(end - 1))
        invariant
            start <= end <= len,
            len == line@.len(),
            trim_end(line@.subrange(start as int, len as int)) == trim_end(
                line@.subrange(start as int, end as int),
            ),
        decreases end - start,
    {
        proof {
            let rest = line@.subrange(start as int, end as int);
            assert(rest.drop_last() =~= line@.subrange(start as int, end - 1));
        }
        end -= 1;
    }
    end
}

/// Reads the digits of `line` between `from` and `to`. Gives `None` where
/// one of the characters is no digit, and otherwise the number they denote,
/// or 101 where that number is larger than 100.
fn read_digits(line: &str, from: usize, to: usize) -> (r: Option<u8>)
    requires
        from <= to <= line@.len(),
    ensures
        r is Some <==> all_digits(line@.subrange(from as int, to as int)),
        r matches Some(v) ==> {
            let value = digits_value(line@.subrange(from as int, to as int));
            if value <= 100 {
                v == value
            } else {
                v == 101
            }
        },
{
    let mut value: u8 = 0;
    let mut at: usize = from;
    while at < to
        invariant
            from <= at <= to <= line@.len(),
            all_digits(line@.subrange(from as int, at as int)),
            value <= 101,
            digits_value(line@.subrange(from as int, at as int)) <= 100 ==> value
                == digits_value(line@.subrange(from as int, at as int)),
            digits_value(line@.subrange(from as int, at as int)) > 100 ==> value == 101,
        decreases to - at,
    {
        let c = line.get_char(at);
        let ghost read = line@.subrange(from as int, at as int);
        let ghost more = line@.subrange(from as int, at + 1);
        proof {
            assert(more.drop_last() =~= read);
            assert(more.last() == c);
        }
        if !is_decimal_digit(c) {
            proof {
                let whole = line@.subrange(from as int, to as int);
                assert(whole[at - from] == c);
            }
            return None;
        }
        let digit: u8 = (c as u8) - ('0' as u8);
        proof {
            assert(digit as int == digit_value(c));
            assert forall|i: int| 0 <= i < more.len() implies is_digit(#[trigger] more[i]) by {
                if i < read.len() {
                    assert(more[i] == read[i]);
                }
            }
        }
        if value > 10 {
            value = 101;
        } else {
            value = value * 10 + digit;
            if value > 100 {
                value = 101;
            }
        }
        at += 1;
    }
    Some(value)
}

/// Reads a guess out of one line of input.
///
/// White space around the text is ignored. The rest must be an optional
/// `+` or `-` followed by at least one decimal digit, else the result is
/// `NotAnInteger`; and the integer must lie in `[1, 100]`, else the result
/// is `OutOfRange`.
pub fn parse_guess(line: &str) -> (r: Result<u8, ParseError>)
    ensures
        r == spec_parse_guess(line@),
        r matches Ok(v) ==> in_range(v as int),
{
    let len = line.unicode_len();
    let start = leading_spaces(line, len);
    let end = trailing_spaces(line, start, len);
    let ghost text = line@.subrange(start as int, end as int);
    proof {
        assert(trimmed(line@) == text);
    }
    if start == end {
        return Err(ParseError::NotAnInteger);
    }
    let first = line.get_char(start);
    proof {
        assert(text[0] == first);
    }
    let signed = first == '+' || first == '-';
    let from = if signed {
        start + 1
    } else {
        start
    };
    proof {
        if signed {
            assert(text.drop_first() =~= line@.subrange(from as int, end as int));
        }
    }
    if from == end {
        return Err(ParseError::NotAnInteger);
    }
    match read_digits(line, from, end) {
        None => Err(ParseError::NotAnInteger),
        Some(value) => {
            if first == '-' || value < SECRET_MIN || value > SECRET_MAX {
                Err(ParseError::OutOfRange)
            } else {
                Ok(value)
            }
        },
    }
}

} // verus!
