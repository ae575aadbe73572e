//! Decimal numbers and comma-separated fields, as text.
//!
//! A request and its answer travel as one line of text each. This module
//! holds what both directions share: how an unsigned number is written and
//! read, and where a field of a line ends.

use vstd::prelude::*;

verus! {

/// Whether `c` is one of the ten decimal digits.
pub open spec fn is_digit(c: char) -> bool {
    '0' <= c && c <= '9'
}

/// The digit that stands for `d`, for `d` below ten.
pub open spec fn digit_char(d: nat) -> char {
    if d == 0 {
        '0'
    } else if d == 1 {
        '1'
    } else if d == 2 {
        '2'
    } else if d == 3 {
        '3'
    } else if d == 4 {
        '4'
    } else if d == 5 {
        '5'
    } else if d == 6 {
        '6'
    } else if d == 7 {
        '7'
    } else if d == 8 {
        '8'
    } else {
        '9'
    }
}

/// The number that the digit `c` stands for; zero for any other character.
pub open spec fn digit_value(c: char) -> nat {
    if c == '1' {
        1
    } else if c == '2' {
        2
    } else if c == '3' {
        3
    } else if c == '4' {
        4
    } else if c == '5' {
        5
    } else if c == '6' {
        6
    } else if c == '7' {
        7
    } else if c == '8' {
        8
    } else if c == '9' {
        9
    } else {
        0
    }
}

/// How a number is written: in decimal digits, without sign or leading zero.
pub open spec fn decimal(n: nat) -> Seq<char>
    decreases n,
{
    if n < 10 {
        seq![digit_char(n)]
    } else {
        decimal(n / 10).push(digit_char(n % 10))
    }
}

/// Whether every character of `s` is a decimal digit.
pub open spec fn all_digits(s: Seq<char>) -> bool {
    forall|i: int| 0 <= i < s.len() ==> is_digit(#[trigger] s[i])
}

/// The number that a run of digits stands for, the first digit weighing most.
pub open spec fn digits_value(s: Seq<char>) -> nat
    decreases s.len(),
{
    if s.len() == 0 {
        0
    } else {
        digits_value(s.drop_last()) * 10 + digit_value(s.last())
    }
}

/// The text without the plus sign that may stand before a number.
pub open spec fn unsigned_digits(s: Seq<char>) -> Seq<char> {
    if s.len() > 0 && s[0] == '+' {
        s.subrange(1, s.len() as int)
    } else {
        s
    }
}

/// How a number is read: an optional plus sign, then one or more decimal
/// digits that stand for a number no greater than `u64::MAX`. Leading zeros
/// are read; anything else is no number.
pub open spec fn parsed_u64(s: Seq<char>) -> Option<u64> {
    let digits = unsigned_digits(s);
    if digits.len() > 0 && all_digits(digits) && digits_value(digits) <= u64::MAX {
        Some(digits_value(digits) as u64)
    } else {
        None
    }
}

/// Where the field that starts at `from` ends: at the next comma, or at the
/// end of the text.
pub open spec fn field_end(s: Seq<char>, from: int) -> int
    decreases s.len() - from,
{
    if from >= s.len() {
        s.len() as int
    } else if s[from] == ',' {
        from
    } else {
        field_end(s, from + 1)
    }
}

/// The first of the comma-separated fields of `s`.
pub open spec fn first_field(s: Seq<char>) -> Seq<char> {
    s.subrange(0, field_end(s, 0))
}

/// The second of the comma-separated fields of `s`, if `s` holds a comma.
pub open spec fn second_field(s: Seq<char>) -> Option<Seq<char>> {
    let comma = field_end(s, 0);
    if comma < s.len() {
        Some(s.subrange(comma + 1, field_end(s, comma + 1)))
    } else {
        None
    }
}

/// A field that starts at `from` ends at `end` when no comma stands between
/// the two and `end` is a comma or the end of the text.
pub proof fn field_ends_at_first_comma(s: Seq<char>, from: int, end: int)
    requires
        0 <= from <= end <= s.len(),
        forall|k: int| from <= k < end ==> s[k] != ',',
        end == s.len() || s[end] == ',',
    ensures
        field_end(s, from) == end,
    decreases end - from,
{
    if from < end {
        field_ends_at_first_comma(s, from + 1, end);
    }
}

/// A field ends within the text, not before it starts, and holds no comma.
pub proof fn field_end_is_first_comma(s: Seq<char>, from: int)
    requires
        0 <= from <= s.len(),
    ensures
        from <= field_end(s, from) <= s.len(),
        forall|k: int| from <= k < field_end(s, from) ==> s[k] != ',',
        field_end(s, from) == s.len() || s[field_end(s, from)] == ',',
    decreases s.len() - from,
{
    if from < s.len() && s[from] != ',' {
        field_end_is_first_comma(s, from + 1);
    }
}

/// A line that is a word, a comma and an argument without a comma is read as
/// those two fields.
pub proof fn two_fields_are_read_back(word: Seq<char>, argument: Seq<char>)
    requires
        forall|k: int| 0 <= k < word.len() ==> word[k] != ',',
        forall|k: int| 0 <= k < argument.len() ==> argument[k] != ',',
    ensures
        first_field(word + seq![','] + argument) == word,
        second_field(word + seq![','] + argument) == Some(argument),
{
    let line = word + seq![','] + argument;
    let comma = word.len() as int;
    assert forall|k: int| 0 <= k < comma implies line[k] != ',' by {
        assert(line[k] == word[k]);
    }
    assert(line[comma] == ',');
    field_ends_at_first_comma(line, 0, comma);
    assert forall|k: int| comma + 1 <= k < line.len() implies line[k] != ',' by {
        assert(line[k] == argument[k - comma - 1]);
    }
    field_ends_at_first_comma(line, comma + 1, line.len() as int);
    assert(line.subrange(0, comma) =~= word);
    assert(line.subrange(comma + 1, line.len() as int) =~= argument);
}

/// A number as written holds digits only, at least one, and so no comma; and
/// it stands for itself.
pub proof fn decimal_reads_back(n: nat)
    ensures
        decimal(n).len() > 0,
        all_digits(decimal(n)),
        forall|k: int| 0 <= k < decimal(n).len() ==> decimal(n)[k] != ',',
        digits_value(decimal(n)) == n,
    decreases n,
{
    if n < 10 {
        assert(decimal(n).drop_last() =~= Seq::<char>::empty());
        assert(digits_value(decimal(n).drop_last()) == 0);
    } else {
        decimal_reads_back(n / 10);
        assert(decimal(n).drop_last() =~= decimal(n / 10));
    }
    assert forall|k: int| 0 <= k < decimal(n).len() implies decimal(n)[k] != ',' by {
        assert(is_digit(decimal(n)[k]));
    }
}

/// Reading what was written gives the number back, for every `u64`.
pub proof fn written_number_is_read_back(n: u64)
    ensures
        parsed_u64(decimal(n as nat)) == Some(n),
{
    decimal_reads_back(n as nat);
    assert(is_digit(decimal(n as nat)[0]));
}

/// The digits read so far never stand for more than the whole run does.
pub proof fn digits_value_grows(s: Seq<char>, len: int)
    requires
        0 <= len <= s.len(),
    ensures
        digits_value(s.subrange(0, len)) <= digits_value(s),
    decreases s.len() - len,
{
    if len == s.len() {
        assert(s.subrange(0, len) =~= s);
    } else {
        digits_value_grows(s, len + 1);
        assert(s.subrange(0, len + 1).drop_last() =~= s.subrange(0, len));
    }
}

/// The digit that `c` is, if it is one.
pub fn digit_of(c: char) -> (digit: Option<u64>)
    ensures
        digit.is_some() <==> is_digit(c),
        is_digit(c) ==> digit == Some(digit_value(c) as u64) && digit_char(digit_value(c)) == c,
{
    if c == '0' {
        Some(0)
    } else if c == '1' {
        Some(1)
    } else if c == '2' {
        Some(2)
    } else if c == '3' {
        Some(3)
    } else if c == '4' {
        Some(4)
    } else if c == '5' {
        Some(5)
    } else if c == '6' {
        Some(6)
    } else if c == '7' {
        Some(7)
    } else if c == '8' {
        Some(8)
    } else if c == '9' {
        Some(9)
    } else {
        None
    }
}

/// The characters of a text, one by one.
pub fn chars_of(text: &str) -> (chars: Vec<char>)
    ensures
        chars@ == text@,
{
    let len: usize = text.unicode_len();
    let mut chars: Vec<char> = Vec::new();
    let mut i: usize = 0;
    while i < len
        invariant
            len == text@.len(),
            i <= len,
            chars@ == text@.subrange(0, i as int),
        decreases len - i,
    {
        chars.push(text.get_char(i));
        i += 1;
        assert(chars@ =~= text@.subrange(0, i as int));
    }
    assert(chars@ =~= text@);
    chars
}

/// Whether the characters from `from` up to `to` spell `word`.
pub fn range_is(chars: &Vec<char>, from: usize, to: usize, word: &str) -> (same: bool)
    requires
        from <= to <= chars.len(),
    ensures
        same == (chars@.subrange(from as int, to as int) == word@),
{
    let ghost range = chars@.subrange(from as int, to as int);
    let len: usize = word.unicode_len();
    if to - from != len {
        return false;
    }
    let mut i: usize = 0;
    while i < len
        invariant
            from <= to <= chars.len(),
            len == word@.len(),
            len == to - from,
            i <= len,
            range == chars@.subrange(from as int, to as int),
            range.subrange(0, i as int) == word@.subrange(0, i as int),
        decreases len - i,
    {
        if chars[from + i] != word.get_char(i) {
            assert(range[i as int] != word@[i as int]);
            return false;
        }
        i += 1;
        assert(range.subrange(0, i as int) =~= word@.subrange(0, i as int)) by {
            assert(range.subrange(0, i - 1) == word@.subrange(0, i - 1));
            assert forall|k: int| 0 <= k < i implies range[k] == word@[k] by {
                if k < i - 1 {
                    assert(range.subrange(0, i - 1)[k] == word@.subrange(0, i - 1)[k]);
                }
            }
        }
    }
    assert(range =~= range.subrange(0, len as int));
    assert(word@ =~= word@.subrange(0, len as int));
    true
}

/// Where the field that starts at `from` ends.
pub fn find_field_end(chars: &Vec<char>, from: usize) -> (end: usize)
    requires
        from <= chars.len(),
    ensures
        end == field_end(chars@, from as int),
        from <= end <= chars.len(),
{
    let mut i: usize = from;
    while i < chars.len() && chars[i] != ','
        invariant
            from <= i <= chars.len(),
            field_end(chars@, from as int) == field_end(chars@, i as int),
        decreases chars.len() - i,
    {
        i += 1;
    }
    i
}

/// Reads the number that the characters from `from` up to `to` spell.
pub fn parse_u64_range(chars: &Vec<char>, from: usize, to: usize) -> (value: Option<u64>)
    requires
        from <= to <= chars.len(),
    ensures
        value == parsed_u64(chars@.subrange(from as int, to as int)),
{
    let ghost text = chars@.subrange(from as int, to as int);
    let mut start: usize = from;
    if from < to && chars[from] == '+' {
        start = from + 1;
    }
    let ghost digits = chars@.subrange(start as int, to as int);
    assert(digits =~= unsigned_digits(text));
    if start == to {
        return None;
    }
    let mut value: u64 = 0;
    let mut i: usize = start;
    while i < to
        invariant
            from <= start <= i <= to <= chars.len(),
            start < to,
            text == chars@.subrange(from as int, to as int),
            digits == chars@.subrange(start as int, to as int),
            digits == unsigned_digits(text),
            all_digits(digits.subrange(0, i - start)),
            value == digits_value(digits.subrange(0, i - start)),
        decreases to - i,
    {
        let ghost read = digits.subrange(0, i - start);
        let ghost longer = digits.subrange(0, i + 1 - start);
        assert(longer.drop_last() =~= read);
        assert(longer.last() == chars[i as int]);
        match digit_of(chars[i]) {
            None => {
                assert(!is_digit(digits[i - start]));
                return None;
            },
            Some(digit) => {
                if value > (u64::MAX - digit) / 10 {
                    proof {
                        digits_value_grows(digits, i + 1 - start);
                    }
                    return None;
                }
                value = value * 10 + digit;
            },
        }
        i += 1;
        assert(all_digits(longer)) by {
            assert forall|k: int| 0 <= k < longer.len() implies is_digit(#[trigger] longer[k]) by {
                if k < read.len() {
                    assert(read[k] == longer[k]);
                }
            }
        }
    }
    assert(digits.subrange(0, i - start) =~= digits);
    Some(value)
}

/// Reads a number: an optional plus sign, then decimal digits. `None` where
/// the text is no such number or the number does not fit.
pub fn parse_u64(text: &str) -> (value: Option<u64>)
    ensures
        value == parsed_u64(text@),
{
    let chars = chars_of(text);
    assert(chars@.subrange(0, chars.len() as int) =~= text@);
    parse_u64_range(&chars, 0, chars.len())
}

/// The one-character text of a digit.
fn digit_text(digit: u64) -> (text: &'static str)
    requires
        digit < 10,
    ensures
        text@ == seq![digit_char(digit as nat)],
{
    proof {
        reveal_strlit("0");
        reveal_strlit("1");
        reveal_strlit("2");
        reveal_strlit("3");
        reveal_strlit("4");
        reveal_strlit("5");
        reveal_strlit("6");
        reveal_strlit("7");
        reveal_strlit("8");
        reveal_strlit("9");
    }
    let text = if digit == 0 {
        "0"
    } else if digit == 1 {
        "1"
    } else if digit == 2 {
        "2"
    } else if digit == 3 {
        "3"
    } else if digit == 4 {
        "4"
    } else if digit == 5 {
        "5"
    } else if digit == 6 {
        "6"
    } else if digit == 7 {
        "7"
    } else if digit == 8 {
        "8"
    } else {
        "9"
    };
    assert(text@ =~= seq![digit_char(digit as nat)]);
    text
}

/// Appends `n`, written in decimal, to `text`.
pub fn push_u64(text: &mut String, n: u64)
    ensures
        final(text)@ == old(text)@ + decimal(n as nat),
    decreases n,
{
    if n < 10 {
        text.append(digit_text(n));
    } else {
        push_u64(text, n / 10);
        text.append(digit_text(n % 10));
        assert(final(text)@ =~= old(text)@ + decimal(n as nat));
    }
}

/// Writes `n` in decimal.
pub fn format_u64(n: u64) -> (text: String)
    ensures
        text@ == decimal(n as nat),
{
    let mut text = String::new();
    push_u64(&mut text, n);
    assert(text@ =~= decimal(n as nat));
    text
}

} // verus!
