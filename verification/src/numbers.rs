//! Unsigned numbers in text, as the standard library reads them: an optional
//! `+`, then at least one digit of the radix, and nothing else.

use vstd::prelude::*;
use vstd::string::*;

verus! {

/// The value of the digit `c` in `radix`: `0` to `9`, then the letters of
/// either case from 10 on. A character that is no digit of the radix has none.
pub open spec fn digit_value(c: char, radix: int) -> Option<int> {
    let value = if '0' <= c <= '9' {
        c as int - '0' as int
    } else if 'a' <= c <= 'z' {
        c as int - 'a' as int + 10
    } else if 'A' <= c <= 'Z' {
        c as int - 'A' as int + 10
    } else {
        -1
    };
    if 0 <= value < radix {
        Some(value)
    } else {
        None
    }
}

/// Whether every character of `digits` is a digit of `radix`.
pub open spec fn all_digits(digits: Seq<char>, radix: int) -> bool {
    forall|i: int| 0 <= i < digits.len() ==> digit_value(#[trigger] digits[i], radix) is Some
}

/// The number that `digits` stand for in `radix`, the first digit weighing most.
pub open spec fn digits_value(digits: Seq<char>, radix: int) -> int
    decreases digits.len(),
{
    if digits.len() == 0 {
        0
    } else {
        digits_value(digits.drop_last(), radix) * radix + digit_value(digits.last(), radix)->0
    }
}

/// `text` without the `+` that may stand before the digits.
pub open spec fn without_plus(text: Seq<char>) -> Seq<char> {
    if text.len() > 0 && text[0] == '+' {
        text.skip(1)
    } else {
        text
    }
}

/// The number that `text` stands for in `radix`, where it is one and does not
/// exceed `max`.
pub open spec fn parse_unsigned(text: Seq<char>, radix: int, max: int) -> Option<int> {
    let digits = without_plus(text);
    if digits.len() > 0 && all_digits(digits, radix) && digits_value(digits, radix) <= max {
        Some(digits_value(digits, radix))
    } else {
        None
    }
}

/// The product id that `text` stands for: hexadecimal behind the prefix
/// `0x`, decimal without it.
pub open spec fn u16_from_text(text: Seq<char>) -> Option<u16> {
    let parsed = if text.len() >= 2 && text[0] == '0' && text[1] == 'x' {
        parse_unsigned(text.skip(2), 16, 0xFFFF)
    } else {
        parse_unsigned(text, 10, 0xFFFF)
    };
    match parsed {
        Some(value) => Some(value as u16),
        None => None,
    }
}

/// Whether `bytes` are the characters of `text`, all of them ASCII.
pub open spec fn is_ascii_text(bytes: Seq<u8>, text: Seq<char>) -> bool {
    &&& bytes.len() == text.len()
    &&& forall|i: int|
        0 <= i < text.len() ==> '\0' <= #[trigger] text[i] <= '\u{7f}' && bytes[i] == text[i] as u8
}

/// The value of a number is not below that of any of its prefixes.
proof fn lemma_prefix_value(digits: Seq<char>, k: int, radix: int)
    requires
        0 <= k <= digits.len(),
        all_digits(digits, radix),
        radix >= 1,
    ensures
        0 <= digits_value(digits.take(k), radix) <= digits_value(digits, radix),
    decreases digits.len(),
{
    if digits.len() == 0 {
        assert(digits.take(k) =~= digits);
    } else {
        let front = digits.drop_last();
        let last = digit_value(digits.last(), radix)->0;
        assert(all_digits(front, radix)) by {
            assert forall|i: int| 0 <= i < front.len() implies digit_value(
                #[trigger] front[i],
                radix,
            ) is Some by {
                assert(front[i] == digits[i]);
            }
        }
        lemma_prefix_value(front, front.len() as int, radix);
        assert(front.take(front.len() as int) =~= front);
        let below = digits_value(front, radix);
        assert(below * radix >= below) by (nonlinear_arith)
            requires
                below >= 0,
                radix >= 1,
        ;
        if k == digits.len() {
            assert(digits.take(k) =~= digits);
        } else {
            lemma_prefix_value(front, k, radix);
            assert(front.take(k) =~= digits.take(k));
        }
    }
}

/// Reads the digit that the ASCII byte `byte` stands for in `radix`.
fn digit_of(byte: u8, radix: u32, Ghost(c): Ghost<char>) -> (digit: Option<u32>)
    requires
        2 <= radix <= 36,
        '\0' <= c <= '\u{7f}',
        byte == c as u8,
    ensures
        digit is Some <==> digit_value(c, radix as int) is Some,
        digit matches Some(d) ==> d == digit_value(c, radix as int)->0,
{
    let value: u32 = if 0x30 <= byte && byte <= 0x39 {
        (byte - 0x30) as u32
    } else if 0x61 <= byte && byte <= 0x7A {
        (byte - 0x61) as u32 + 10
    } else if 0x41 <= byte && byte <= 0x5A {
        (byte - 0x41) as u32 + 10
    } else {
        return None;
    };
    if value < radix {
        Some(value)
    } else {
        None
    }
}

/// Reads the number that `bytes[start..]` stand for.
fn parse_unsigned_from(
    bytes: &[u8],
    start: usize,
    radix: u32,
    max: u64,
    Ghost(text): Ghost<Seq<char>>,
) -> (parsed: Option<u64>)
    requires
        2 <= radix <= 36,
        start <= bytes@.len(),
        is_ascii_text(bytes@, text),
    ensures
        parsed is Some <==> parse_unsigned(text.skip(start as int), radix as int, max as int) is Some,
        parsed matches Some(value) ==> value == parse_unsigned(
            text.skip(start as int),
            radix as int,
            max as int,
        )->0,
{
    let ghost tail = text.skip(start as int);
    let first: usize = if start < bytes.len() && bytes[start] == 0x2B {
        start + 1
    } else {
        start
    };
    let ghost digits = without_plus(tail);
    proof {
        if start < bytes@.len() {
            assert(tail[0] == text[start as int]);
        }
        assert(digits =~= text.skip(first as int));
    }
    if first == bytes.len() {
        return None;
    }
    let mut acc: u64 = 0;
    let mut i: usize = first;
    while i < bytes.len()
        invariant
            2 <= radix <= 36,
            first <= i <= bytes@.len(),
            is_ascii_text(bytes@, text),
            digits == text.skip(first as int),
            digits == without_plus(text.skip(start as int)),
            all_digits(digits.take(i - first), radix as int),
            acc == digits_value(digits.take(i - first), radix as int),
            acc <= max,
        decreases bytes@.len() - i,
    {
        let ghost c = text[i as int];
        let ghost next = digits.take(i - first + 1);
        proof {
            assert(digits[i - first] == c);
            assert(next.drop_last() =~= digits.take(i - first));
            assert(next.last() == c);
        }
        match digit_of(bytes[i], radix, Ghost(c)) {
            None => {
                return None;
            },
            Some(digit) => {
                proof {
                    assert forall|j: int| 0 <= j < next.len() implies digit_value(
                        #[trigger] next[j],
                        radix as int,
                    ) is Some by {
                        if j < i - first {
                            assert(digits.take(i - first)[j] == next[j]);
                        }
                    }
                    assert(acc * radix <= 0xFFFF_FFFF_FFFF_FFFF * 36) by (nonlinear_arith)
                        requires
                            acc <= 0xFFFF_FFFF_FFFF_FFFF,
                            radix <= 36,
                    ;
                }
                let wide: u128 = acc as u128 * radix as u128 + digit as u128;
                if wide > max as u128 {
                    proof {
                        if all_digits(digits, radix as int) {
                            lemma_prefix_value(digits, i - first + 1, radix as int);
                            assert(digits_value(next, radix as int) == wide);
                        }
                    }
                    return None;
                }
                acc = wide as u64;
            },
        }
        i = i + 1;
    }
    assert(digits.take(i - first) =~= digits);
    Some(acc)
}

/// A text with a character outside ASCII is no number.
proof fn lemma_not_ascii_is_no_number(text: Seq<char>, radix: int, max: int)
    requires
        !vstd::utf8::is_ascii_chars(text),
    ensures
        parse_unsigned(text, radix, max) is None,
        u16_from_text(text) is None,
{
    let i = choose|i: int| 0 <= i < text.len() && !('\0' <= #[trigger] text[i] <= '\u{7f}');
    let c = text[i];
    assert(digit_value(c, radix) is None);
    assert(digit_value(c, 10) is None);
    assert(digit_value(c, 16) is None);
    assert(c != '+' && c != '0' && c != 'x');
    let digits = without_plus(text);
    if digits.len() == text.len() {
        assert(digits[i] == c);
    } else {
        assert(digits[i - 1] == c);
    }
    if text.len() >= 2 && text[0] == '0' && text[1] == 'x' {
        let tail = text.skip(2);
        assert(tail[i - 2] == c);
        let hex = without_plus(tail);
        if hex.len() == tail.len() {
            assert(hex[i - 2] == c);
        } else {
            assert(hex[i - 3] == c);
        }
    }
}

/// Reads an unsigned number in `radix` that does not exceed `max`: an
/// optional `+`, then at least one digit, and nothing else. Every other text
/// gives `None`, and so does a number above `max`.
pub fn parse_unsigned_text(s: &str, radix: u32, max: u64) -> (parsed: Option<u64>)
    requires
        2 <= radix <= 36,
    ensures
        parsed is Some <==> parse_unsigned(s@, radix as int, max as int) is Some,
        parsed matches Some(value) ==> value == parse_unsigned(s@, radix as int, max as int)->0,
{
    if !s.is_ascii() {
        proof {
            lemma_not_ascii_is_no_number(s@, radix as int, max as int);
        }
        return None;
    }
    let bytes = s.as_bytes();
    proof {
        is_ascii_spec_bytes(s);
        assert(s@.skip(0) =~= s@);
    }
    parse_unsigned_from(bytes, 0, radix, max, Ghost(s@))
}

/// Reads a product id from an argument of the command line: hexadecimal
/// where the text begins with `0x`, decimal otherwise. No argument, and an
/// argument that is no number below 65536, give `None`.
pub fn get_u16_from_string(pid: Option<String>) -> (id: Option<u16>)
    ensures
        id == (match pid {
            Some(text) => u16_from_text(text@),
            None => None,
        }),
{
    let text = match pid {
        Some(text) => text,
        None => {
            return None;
        },
    };
    let s = text.as_str();
    if !s.is_ascii() {
        proof {
            lemma_not_ascii_is_no_number(s@, 10, 0xFFFF);
        }
        return None;
    }
    let bytes = s.as_bytes();
    proof {
        is_ascii_spec_bytes(s);
        assert(s@.skip(0) =~= s@);
        if bytes@.len() >= 2 {
            assert(bytes@[0] == s@[0] as u8 && '\0' <= s@[0] <= '\u{7f}');
            assert(bytes@[1] == s@[1] as u8 && '\0' <= s@[1] <= '\u{7f}');
        }
    }
    let parsed = if bytes.len() >= 2 && bytes[0] == 0x30 && bytes[1] == 0x78 {
        parse_unsigned_from(bytes, 2, 16, 0xFFFF, Ghost(s@))
    } else {
        parse_unsigned_from(bytes, 0, 10, 0xFFFF, Ghost(s@))
    };
    match parsed {
        Some(value) => Some(value as u16),
        None => None,
    }
}

} // verus!
