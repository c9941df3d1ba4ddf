//! Numbers and lists in text form.

use vstd::prelude::*;

verus! {

/// The digit with the given value, in bases up to sixteen.
pub open spec fn digit_char(value: int) -> char {
    if value < 10 {
        (48 + value) as char
    } else {
        (87 + value) as char
    }
}

/// A byte in hexadecimal: `0x` and two digits.
pub open spec fn hex_byte(byte: u8) -> Seq<char> {
    seq!['0', 'x', digit_char(byte as int / 16), digit_char(byte as int % 16)]
}

/// A number in decimal, without leading zeros.
pub open spec fn decimal(n: nat) -> Seq<char>
    decreases n,
{
    if n < 10 {
        seq![digit_char(n as int)]
    } else {
        decimal(n / 10).push(digit_char(n as int % 10))
    }
}

/// The text of a single digit.
fn digit(value: u8) -> (text: &'static str)
    requires
        value < 16,
    ensures
        text@ == seq![digit_char(value as int)],
{
    proof {
        reveal_strlit("0");
        reveal_strlit("1");
        reveal_strlit("2");
        reveal_strlit("3");
        reveal_strlit("4");
        reveal_strlit("5");
        reveal_strlit("6");
        reveal_strlit("7");
        reveal_strlit("8");
        reveal_strlit("9");
        reveal_strlit("a");
        reveal_strlit("b");
        reveal_strlit("c");
        reveal_strlit("d");
        reveal_strlit("e");
        reveal_strlit("f");
    }
    match value {
        0 => "0",
        1 => "1",
        2 => "2",
        3 => "3",
        4 => "4",
        5 => "5",
        6 => "6",
        7 => "7",
        8 => "8",
        9 => "9",
        10 => "a",
        11 => "b",
        12 => "c",
        13 => "d",
        14 => "e",
        _ => "f",
    }
}

/// Appends a byte in hexadecimal.
pub(crate) fn append_hex(text: &mut String, byte: u8)
    ensures
        final(text)@ == old(text)@ + hex_byte(byte),
{
    proof {
        reveal_strlit("0x");
    }
    text.append("0x");
    text.append(digit(byte / 16));
    text.append(digit(byte % 16));
    assert(text@ =~= old(text)@ + hex_byte(byte));
}

/// Appends a byte in decimal.
pub(crate) fn append_decimal(text: &mut String, byte: u8)
    ensures
        final(text)@ == old(text)@ + decimal(byte as nat),
{
    reveal_with_fuel(decimal, 3);
    if byte >= 100 {
        text.append(digit(byte / 100));
    }
    if byte >= 10 {
        text.append(digit(byte / 10 % 10));
    }
    text.append(digit(byte % 10));
    assert(text@ =~= old(text)@ + decimal(byte as nat));
}

/// Whether a character is white space by the Unicode property of that name.
pub open spec fn white_space(c: char) -> bool {
    ||| 0x09 <= c as u32 <= 0x0D
    ||| c as u32 == 0x20
    ||| c as u32 == 0x85
    ||| c as u32 == 0xA0
    ||| c as u32 == 0x1680
    ||| 0x2000 <= c as u32 <= 0x200A
    ||| c as u32 == 0x2028
    ||| c as u32 == 0x2029
    ||| c as u32 == 0x202F
    ||| c as u32 == 0x205F
    ||| c as u32 == 0x3000
}

/// A text without the white space that it starts with.
pub open spec fn trim_start(s: Seq<char>) -> Seq<char>
    decreases s.len(),
{
    if s.len() > 0 && white_space(s[0]) {
        trim_start(s.drop_first())
    } else {
        s
    }
}

/// A text without the white space that it ends with.
pub open spec fn trim_end(s: Seq<char>) -> Seq<char>
    decreases s.len(),
{
    if s.len() > 0 && white_space(s.last()) {
        trim_end(s.drop_last())
    } else {
        s
    }
}

/// A text without the white space around it.
pub open spec fn trim(s: Seq<char>) -> Seq<char> {
    trim_end(trim_start(s))
}

/// Whether a text is made of decimal digits, and of at least one.
pub open spec fn all_digits(s: Seq<char>) -> bool {
    &&& s.len() > 0
    &&& forall|i: int| 0 <= i < s.len() ==> '0' <= #[trigger] s[i] <= '9'
}

/// The number that decimal digits spell.
pub open spec fn digits_value(s: Seq<char>) -> nat
    decreases s.len(),
{
    if s.len() == 0 {
        0
    } else {
        (10 * digits_value(s.drop_last()) + (s.last() as int - '0' as int)) as nat
    }
}

/// A text without the plus sign that it may start with.
pub open spec fn unsigned(s: Seq<char>) -> Seq<char> {
    if s.len() > 0 && s[0] == '+' {
        s.drop_first()
    } else {
        s
    }
}

/// The number that a text spells, where it is an optional plus sign and decimal digits, and the
/// number is no greater than `max`.
pub open spec fn number(s: Seq<char>, max: nat) -> Option<nat> {
    if all_digits(unsigned(s)) && digits_value(unsigned(s)) <= max {
        Some(digits_value(unsigned(s)))
    } else {
        None
    }
}

/// The parts of a text between its commas.
pub open spec fn fields(s: Seq<char>) -> Seq<Seq<char>>
    decreases s.len(),
{
    if s.len() == 0 {
        seq![Seq::empty()]
    } else {
        let before = fields(s.drop_last());
        if s.last() == ',' {
            before.push(Seq::empty())
        } else {
            before.drop_last().push(before.last().push(s.last()))
        }
    }
}

/// The numbers among the parts of a list, each with white space around it left out. Parts that
/// are no number up to `u32::MAX` are passed over.
pub open spec fn numbers(parts: Seq<Seq<char>>) -> Seq<u32>
    decreases parts.len(),
{
    if parts.len() == 0 {
        Seq::empty()
    } else {
        let before = numbers(parts.drop_last());
        match number(trim(parts.last()), u32::MAX as nat) {
            Some(n) => before.push(n as u32),
            None => before,
        }
    }
}

/// Whether a character is white space by the Unicode property of that name.
pub fn is_white_space(c: char) -> (white: bool)
    ensures
        white == white_space(c),
{
    let code: u32 = c as u32;
    (0x09 <= code && code <= 0x0D) || code == 0x20 || code == 0x85 || code == 0xA0 || code == 0x1680
        || (0x2000 <= code && code <= 0x200A) || code == 0x2028 || code == 0x2029 || code == 0x202F
        || code == 0x205F || code == 0x3000
}

/// The characters of a text.
pub(crate) fn chars_of(text: &str) -> (chars: Vec<char>)
    ensures
        chars@ == text@,
{
    let mut chars: Vec<char> = Vec::new();
    for c in it: text.chars()
        invariant
            chars@ == it.seq().take(it.index() as int),
            it.seq() == text@,
    {
        chars.push(c);
    }
    assert(chars@ =~= text@);
    chars
}

/// Digits at the front of others spell no greater number.
proof fn lemma_prefix_value(s: Seq<char>, n: int)
    requires
        0 <= n <= s.len(),
        forall|i: int| 0 <= i < s.len() ==> '0' <= #[trigger] s[i] <= '9',
    ensures
        digits_value(s.take(n)) <= digits_value(s),
    decreases s.len(),
{
    if n == s.len() {
        assert(s.take(n) =~= s);
    } else {
        assert(s.drop_last().take(n) =~= s.take(n));
        lemma_prefix_value(s.drop_last(), n);
    }
}

/// The number that the characters from `from` up to `to` spell.
pub(crate) fn number_of(chars: &Vec<char>, from: usize, to: usize, max: u64) -> (r: Option<u64>)
    requires
        from <= to <= chars@.len(),
    ensures
        match r {
            Some(n) => number(chars@.subrange(from as int, to as int), max as nat) == Some(
                n as nat,
            ),
            None => number(chars@.subrange(from as int, to as int), max as nat) is None,
        },
{
    let ghost text = chars@.subrange(from as int, to as int);
    let start: usize = if from < to && chars[from] == '+' {
        from + 1
    } else {
        from
    };
    let ghost digits = unsigned(text);
    assert(digits =~= chars@.subrange(start as int, to as int));
    if start == to {
        return None;
    }
    let mut value: u64 = 0;
    let mut i: usize = start;
    while i < to
        invariant
            start <= i <= to <= chars@.len(),
            text == chars@.subrange(from as int, to as int),
            digits == unsigned(text),
            digits == chars@.subrange(start as int, to as int),
            forall|k: int| 0 <= k < i - start ==> '0' <= #[trigger] digits[k] <= '9',
            value == digits_value(digits.take(i - start)),
            value <= max,
        decreases to - i,
    {
        let c: char = chars[i];
        assert(c == digits[i - start]);
        if !('0' <= c && c <= '9') {
            return None;
        }
        let digit: u64 = c as u64 - '0' as u64;
        let ghost longer = digits.take(i - start + 1);
        assert(longer.drop_last() =~= digits.take(i - start));
        assert(digits_value(longer) == 10 * value + digit);
        if digit > max || value > (max - digit) / 10 {
            proof {
                if all_digits(digits) {
                    lemma_prefix_value(digits, i - start + 1);
                }
            }
            return None;
        }
        value = 10 * value + digit;
        i += 1;
    }
    assert(digits.take(to - start) =~= digits);
    Some(value)
}

/// The number that a text spells.
pub fn parse_number(text: &str, max: u64) -> (r: Option<u64>)
    ensures
        match r {
            Some(n) => number(text@, max as nat) == Some(n as nat),
            None => number(text@, max as nat) is None,
        },
{
    let chars: Vec<char> = chars_of(text);
    assert(chars@.subrange(0, chars@.len() as int) =~= text@);
    number_of(&chars, 0, chars.len(), max)
}

/// The number that one part of a list spells, white space around it left out.
fn number_in_field(chars: &Vec<char>, from: usize, to: usize) -> (r: Option<u32>)
    requires
        from <= to <= chars@.len(),
    ensures
        match r {
            Some(n) => number(
                trim(chars@.subrange(from as int, to as int)),
                u32::MAX as nat,
            ) == Some(n as nat),
            None => number(
                trim(chars@.subrange(from as int, to as int)),
                u32::MAX as nat,
            ) is None,
        },
{
    let ghost part = chars@.subrange(from as int, to as int);
    let mut start: usize = from;
    while start < to && is_white_space(chars[start])
        invariant
            from <= start <= to <= chars@.len(),
            trim_start(chars@.subrange(start as int, to as int)) == trim_start(part),
        decreases to - start,
    {
        assert(chars@.subrange(start as int, to as int).drop_first() =~= chars@.subrange(
            start + 1,
            to as int,
        ));
        start += 1;
    }
    assert(trim_start(part) == chars@.subrange(start as int, to as int));
    let mut end: usize = to;
    while start < end && is_white_space(chars[end - 1])
        invariant
            start <= end <= to <= chars@.len(),
            trim_end(chars@.subrange(start as int, end as int)) == trim(part),
        decreases end - start,
    {
        assert(chars@.subrange(start as int, end as int).drop_last() =~= chars@.subrange(
            start as int,
            end - 1,
        ));
        end -= 1;
    }
    assert(trim(part) == chars@.subrange(start as int, end as int));
    match number_of(chars, start, end, u32::MAX as u64) {
        Some(n) => Some(n as u32),
        None => None,
    }
}

/// The numbers in a list with commas between its parts. Parts that are no number up to
/// `u32::MAX` are passed over.
pub fn parse_numbers(text: &str) -> (found: Vec<u32>)
    ensures
        found@ == numbers(fields(text@)),
{
    let chars: Vec<char> = chars_of(text);
    let mut found: Vec<u32> = Vec::new();
    let mut start: usize = 0;
    let mut i: usize = 0;
    let ghost mut closed: Seq<Seq<char>> = Seq::empty();
    assert(chars@.take(0) =~= Seq::<char>::empty());
    assert(chars@.subrange(0, 0) =~= Seq::<char>::empty());
    assert(fields(chars@.take(0)) =~= closed.push(chars@.subrange(0, 0)));
    while i < chars.len()
        invariant
            start <= i <= chars@.len(),
            chars@ == text@,
            fields(chars@.take(i as int)) == closed.push(chars@.subrange(start as int, i as int)),
            found@ == numbers(closed),
        decreases chars@.len() - i,
    {
        let ghost part = chars@.subrange(start as int, i as int);
        let ghost longer = chars@.take(i + 1);
        assert(longer.drop_last() =~= chars@.take(i as int));
        assert(closed.push(part).drop_last() =~= closed);
        if chars[i] == ',' {
            if let Some(n) = number_in_field(&chars, start, i) {
                found.push(n);
            }
            proof {
                closed = closed.push(part);
            }
            start = i + 1;
            assert(chars@.subrange(start as int, i + 1) =~= Seq::<char>::empty());
        } else {
            assert(chars@.subrange(start as int, i + 1) =~= part.push(chars@[i as int]));
        }
        i += 1;
    }
    assert(chars@.take(i as int) =~= text@);
    if let Some(n) = number_in_field(&chars, start, i) {
        found.push(n);
    }
    proof {
        let parts = closed.push(chars@.subrange(start as int, i as int));
        assert(parts.drop_last() =~= closed);
    }
    found
}

} // verus!
