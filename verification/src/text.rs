//! Reading text: characters, substrings and unsigned decimal numbers.

use vstd::prelude::*;
use vstd::string::*;

verus! {

/// The characters of `text`, in order.
pub fn chars_of(text: &str) -> (chars: Vec<char>)
    ensures
        chars@ == text@,
{
    let length = text.unicode_len();
    let mut chars: Vec<char> = Vec::new();
    let mut i: usize = 0;
    while i < length
        invariant
            i <= length,
            length == text@.len(),
            chars@ == text@.take(i as int),
        decreases length - i,
    {
        chars.push(text.get_char(i));
        assert(text@.take(i + 1) =~= text@.take(i as int).push(text@[i as int]));
        i += 1;
    }
    assert(text@.take(length as int) =~= text@);
    chars
}

/// Whether `needle` stands in `haystack` at position `at`.
pub open spec fn occurs_at(needle: Seq<char>, haystack: Seq<char>, at: int) -> bool {
    &&& 0 <= at
    &&& at + needle.len() <= haystack.len()
    &&& haystack.subrange(at, at + needle.len()) == needle
}

/// Whether `needle` stands somewhere in `haystack`.
pub open spec fn occurs_in(needle: Seq<char>, haystack: Seq<char>) -> bool {
    exists|at: int| occurs_at(needle, haystack, at)
}

/// Whether `needle` stands in `haystack` at `at`.
fn matches_at(haystack: &Vec<char>, needle: &Vec<char>, at: usize) -> (found: bool)
    requires
        at + needle@.len() <= haystack@.len(),
    ensures
        found == occurs_at(needle@, haystack@, at as int),
{
    let length = needle.len();
    let limit = haystack.len();
    let mut j: usize = 0;
    while j < length
        invariant
            j <= length,
            length == needle@.len(),
            limit == haystack@.len(),
            at + length <= limit,
            forall|k: int| 0 <= k < j ==> haystack@[at + k] == needle@[k],
        decreases length - j,
    {
        if haystack[at + j] != needle[j] {
            assert(haystack@.subrange(at as int, at + needle@.len())[j as int] != needle@[j as int]);
            return false;
        }
        j += 1;
    }
    assert(haystack@.subrange(at as int, at + needle@.len()) =~= needle@);
    true
}

/// Whether `needle` stands somewhere in `haystack`.
pub fn contains(haystack: &Vec<char>, needle: &Vec<char>) -> (found: bool)
    ensures
        found == occurs_in(needle@, haystack@),
{
    if needle.len() > haystack.len() {
        return false;
    }
    let last = haystack.len() - needle.len();
    let mut at: usize = 0;
    loop
        invariant
            at <= last,
            last == haystack@.len() - needle@.len(),
            forall|earlier: int| 0 <= earlier < at ==> !occurs_at(needle@, haystack@, earlier),
        decreases last - at,
    {
        if matches_at(haystack, needle, at) {
            return true;
        }
        if at == last {
            return false;
        }
        at += 1;
    }
}

/// Whether `c` is one of the ten decimal digits.
pub open spec fn is_digit(c: char) -> bool {
    '0' <= c && c <= '9'
}

/// The number a decimal digit stands for; zero for any other character.
pub open spec fn digit_value(c: char) -> nat {
    if is_digit(c) { (c as u32 - '0' as u32) as nat } else { 0 }
}

/// The number that `digits` writes in decimal, most significant digit first.
pub open spec fn digits_value(digits: Seq<char>) -> nat
    decreases digits.len(),
{
    if digits.len() == 0 {
        0
    } else {
        digits_value(digits.drop_last()) * 10 + digit_value(digits.last())
    }
}

/// Whether `text` is made of decimal digits only.
pub open spec fn all_digits(text: Seq<char>) -> bool {
    forall|i: int| 0 <= i < text.len() ==> is_digit(#[trigger] text[i])
}

/// `text` without the plus sign it may begin with.
pub open spec fn without_sign(text: Seq<char>) -> Seq<char> {
    if text.len() > 0 && text[0] == '+' { text.drop_first() } else { text }
}

/// The number that `text` writes, if `text` is an unsigned decimal number
/// that fits 32 bits: an optional plus sign, then one or more digits and
/// nothing else. Blanks, a minus sign, underscores and empty text are not
/// numbers.
pub open spec fn decimal_u32(text: Seq<char>) -> Option<u32> {
    let digits = without_sign(text);
    if digits.len() > 0 && all_digits(digits) && digits_value(digits) <= u32::MAX {
        Some(digits_value(digits) as u32)
    } else {
        None
    }
}

/// A number only grows as digits are written after it.
pub proof fn lemma_digits_value_grows(digits: Seq<char>, shorter: int)
    requires
        0 <= shorter <= digits.len(),
    ensures
        digits_value(digits.take(shorter)) <= digits_value(digits),
    decreases digits.len(),
{
    if shorter < digits.len() {
        lemma_digits_value_grows(digits.drop_last(), shorter);
        assert(digits.drop_last().take(shorter) =~= digits.take(shorter));
    } else {
        assert(digits.take(shorter) =~= digits);
    }
}

/// Reads the unsigned decimal number written in `chars[from..to]`.
pub fn parse_u32(chars: &Vec<char>, from: usize, to: usize) -> (number: Option<u32>)
    requires
        from <= to <= chars@.len(),
    ensures
        number == decimal_u32(chars@.subrange(from as int, to as int)),
{
    let ghost text = chars@.subrange(from as int, to as int);
    let start = if from < to && chars[from] == '+' { from + 1 } else { from };
    let ghost digits = without_sign(text);
    assert(digits =~= chars@.subrange(start as int, to as int));
    if start == to {
        return None;
    }
    let mut value: u32 = 0;
    let mut i: usize = start;
    while i < to
        invariant
            from <= start <= i <= to <= chars@.len(),
            start < to,
            digits == without_sign(chars@.subrange(from as int, to as int)),
            digits == chars@.subrange(start as int, to as int),
            all_digits(digits.take(i - start)),
            value == digits_value(digits.take(i - start)),
        decreases to - i,
    {
        let c = chars[i];
        assert(digits[i - start] == c);
        assert(digits.take(i - start + 1).drop_last() =~= digits.take(i - start));
        assert(digits.take(i - start + 1).last() == c);
        if c < '0' || c > '9' {
            assert(!is_digit(digits[i - start]));
            return None;
        }
        let digit: u32 = c as u32 - '0' as u32;
        if value > (u32::MAX - digit) / 10 {
            proof {
                lemma_digits_value_grows(digits, i - start + 1);
            }
            return None;
        }
        value = value * 10 + digit;
        assert forall|k: int| 0 <= k < i - start + 1 implies is_digit(
            #[trigger] digits.take(i - start + 1)[k],
        ) by {
            if k < i - start {
                assert(digits.take(i - start)[k] == digits[k]);
            }
        }
        i += 1;
    }
    assert(digits.take(to - start) =~= digits);
    Some(value)
}

/// The character that writes the decimal digit `digit`.
pub open spec fn digit_char(digit: nat) -> char {
    if digit == 0 {
        '0'
    } else if digit == 1 {
        '1'
    } else if digit == 2 {
        '2'
    } else if digit == 3 {
        '3'
    } else if digit == 4 {
        '4'
    } else if digit == 5 {
        '5'
    } else if digit == 6 {
        '6'
    } else if digit == 7 {
        '7'
    } else if digit == 8 {
        '8'
    } else {
        '9'
    }
}

/// `number` written in decimal, without sign or leading zeros.
pub open spec fn decimal_of(number: nat) -> Seq<char>
    decreases number,
{
    if number < 10 {
        seq![digit_char(number)]
    } else {
        decimal_of(number / 10).push(digit_char(number % 10))
    }
}

/// The decimal digit `digit` as text.
fn digit_text(digit: u32) -> (text: &'static str)
    requires
        digit < 10,
    ensures
        text@ == seq![digit_char(digit as nat)],
{
    proof {
        reveal_strlit("0");
        reveal_strlit("1");
        reveal_strlit("2");
        reveal_strlit("3");
        reveal_strlit("4");
        reveal_strlit("5");
        reveal_strlit("6");
        reveal_strlit("7");
        reveal_strlit("8");
        reveal_strlit("9");
    }
    let text = if digit == 0 {
        "0"
    } else if digit == 1 {
        "1"
    } else if digit == 2 {
        "2"
    } else if digit == 3 {
        "3"
    } else if digit == 4 {
        "4"
    } else if digit == 5 {
        "5"
    } else if digit == 6 {
        "6"
    } else if digit == 7 {
        "7"
    } else if digit == 8 {
        "8"
    } else {
        "9"
    };
    assert(text@ =~= seq![digit_char(digit as nat)]);
    text
}

/// Writes `number` in decimal at the end of `line`.
pub fn append_decimal(line: &mut String, number: u32)
    ensures
        final(line)@ == old(line)@ + decimal_of(number as nat),
    decreases number,
{
    if number >= 10 {
        append_decimal(line, number / 10);
    }
    line.append(digit_text(number % 10));
    assert(line@ =~= old(line)@ + decimal_of(number as nat));
}

/// A number written in decimal reads back as itself.
pub proof fn lemma_decimal_reads_back(number: u32)
    ensures
        decimal_u32(decimal_of(number as nat)) == Some(number),
{
    lemma_decimal_digits(number as nat);
    let text = decimal_of(number as nat);
    assert(is_digit(text[0]));
    assert(without_sign(text) == text);
}

/// What is written for a number is one or more digits that write it.
pub proof fn lemma_decimal_digits(number: nat)
    ensures
        decimal_of(number).len() > 0,
        all_digits(decimal_of(number)),
        digits_value(decimal_of(number)) == number,
    decreases number,
{
    let text = decimal_of(number);
    if number < 10 {
        assert(text.drop_last() =~= Seq::<char>::empty());
        assert(digits_value(text.drop_last()) == 0);
        assert(text.last() == digit_char(number));
    } else {
        lemma_decimal_digits(number / 10);
        assert(text.drop_last() =~= decimal_of(number / 10));
        assert(text.last() == digit_char(number % 10));
        assert forall|i: int| 0 <= i < text.len() implies is_digit(#[trigger] text[i]) by {
            if i < text.len() - 1 {
                assert(text[i] == decimal_of(number / 10)[i]);
            }
        }
    }
}

/// The upper-case form of `text` under the Unicode case mapping that the
/// standard library carries. It depends on `text` alone.
pub uninterp spec fn uppercase_of(text: Seq<char>) -> Seq<char>;

/// `str::to_uppercase` of the standard library. Believed, not proved: what
/// it returns is the upper-case form of its argument, which this crate only
/// names. Nothing is claimed about which characters that form holds.
pub assume_specification[ str::to_uppercase ](text: &str) -> (upper: String)
    ensures
        upper@ == uppercase_of(text@),
;

} // verus!
