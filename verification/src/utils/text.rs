//! Texts as sequences of characters: reading a text character by character,
//! building one, and the characters the components tell apart.

use vstd::prelude::*;
use vstd::string::*;

verus! {

/// `String::push` of the standard library appends one character to the text.
pub assume_specification[ String::push ](s: &mut String, ch: char)
    ensures
        final(s)@ == old(s)@.push(ch),
;

/// The characters of `s`, in order.
pub fn chars_of(s: &str) -> (r: Vec<char>)
    ensures
        r@ == s@,
{
    let mut out: Vec<char> = Vec::new();
    for c in it: s.chars()
        invariant
            it.seq() == s@,
            out@ == it.seq().take(it.index() as int),
    {
        out.push(c);
    }
    out
}

/// Whether `c` is one of the digits `0` to `9`.
pub open spec fn is_digit(c: char) -> bool {
    '0' <= c <= '9'
}

/// The number that the digit `c` stands for.
pub open spec fn digit_value(c: char) -> nat {
    (c as int - '0' as int) as nat
}

/// The number that the digit `c` stands for, if it is a digit.
pub fn digit_of(c: char) -> (r: Option<u8>)
    ensures
        r is Some <==> is_digit(c),
        r matches Some(d) ==> d == digit_value(c) && d <= 9,
{
    if c >= '0' && c <= '9' {
        Some((c as u8) - ('0' as u8))
    } else {
        None
    }
}

/// The characters that count as white space: the blank, the tabulators,
/// the line feed, the form feed and the carriage return.
pub open spec fn is_space(c: char) -> bool {
    c == ' ' || ('\t' <= c <= '\r')
}

/// Whether `c` is a capital letter of the Latin alphabet.
pub open spec fn is_upper(c: char) -> bool {
    'A' <= c <= 'Z'
}

/// The small letter for a capital letter of the Latin alphabet; every other
/// character stays as it is.
pub open spec fn lower(c: char) -> char {
    if is_upper(c) {
        ((c as u8) + 32) as char
    } else {
        c
    }
}

/// The small letter for a capital letter of the Latin alphabet; every other
/// character stays as it is.
pub fn to_lower(c: char) -> (r: char)
    ensures
        r == lower(c),
{
    if c >= 'A' && c <= 'Z' {
        ((c as u8) + 32) as char
    } else {
        c
    }
}

/// Whether `s` consists of digits only.
pub open spec fn all_digits(s: Seq<char>) -> bool {
    forall|k: int| 0 <= k < s.len() ==> is_digit(#[trigger] s[k])
}

/// The number that the digits `s` write in base ten; 0 for no digits.
pub open spec fn decimal_value(s: Seq<char>) -> nat
    decreases s.len(),
{
    if s.len() == 0 {
        0
    } else {
        decimal_value(s.drop_last()) * 10 + digit_value(s.last())
    }
}

/// The number of digits that `s` begins with.
pub open spec fn leading_digits(s: Seq<char>) -> nat
    decreases s.len(),
{
    if s.len() > 0 && is_digit(s[0]) {
        1 + leading_digits(s.drop_first())
    } else {
        0
    }
}

/// A text that begins with `n` digits and goes on with something else, or
/// ends there, begins with exactly `n` digits.
pub proof fn lemma_leading_digits(s: Seq<char>, n: int)
    requires
        0 <= n <= s.len(),
        all_digits(s.take(n)),
        n == s.len() || !is_digit(s[n]),
    ensures
        leading_digits(s) == n,
    decreases n,
{
    if n > 0 {
        assert(is_digit(s.take(n)[0]));
        let rest = s.drop_first();
        assert forall|k: int| 0 <= k < n - 1 implies is_digit(#[trigger] rest.take(n - 1)[k]) by {
            assert(rest.take(n - 1)[k] == s.take(n)[k + 1]);
        }
        lemma_leading_digits(rest, n - 1);
    }
}

/// Another digit at the end never makes the number smaller.
pub proof fn lemma_decimal_value_grows(s: Seq<char>, c: char)
    ensures
        decimal_value(s.push(c)) == decimal_value(s) * 10 + digit_value(c),
        decimal_value(s.push(c)) >= decimal_value(s),
{
    assert(s.push(c).drop_last() == s);
}

/// Reads the digits that stand in `chars` from the position `start` on.
///
/// Returns the position behind the last of them, and the number they write
/// where it fits into 64 bits.
pub fn scan_digits(chars: &Vec<char>, start: usize) -> (r: (usize, Option<u64>))
    requires
        start <= chars@.len(),
    ensures
        start <= r.0 <= chars@.len(),
        all_digits(chars@.subrange(start as int, r.0 as int)),
        r.0 == chars@.len() || !is_digit(chars@[r.0 as int]),
        match r.1 {
            Some(v) => v == decimal_value(chars@.subrange(start as int, r.0 as int)),
            None => decimal_value(chars@.subrange(start as int, r.0 as int)) > u64::MAX,
        },
{
    let mut i: usize = start;
    let mut value: u64 = 0;
    let mut fits = true;
    let mut stopped = false;
    while i < chars.len() && !stopped
        invariant
            start <= i <= chars@.len(),
            all_digits(chars@.subrange(start as int, i as int)),
            stopped ==> i < chars@.len() && !is_digit(chars@[i as int]),
            fits ==> value == decimal_value(chars@.subrange(start as int, i as int)),
            !fits ==> decimal_value(chars@.subrange(start as int, i as int)) > u64::MAX,
        decreases chars@.len() - i + (if stopped { 0int } else { 1int }),
    {
        match digit_of(chars[i]) {
            None => {
                stopped = true;
            },
            Some(d) => {
                proof {
                    let before = chars@.subrange(start as int, i as int);
                    assert(chars@.subrange(start as int, i + 1) == before.push(chars@[i as int]));
                    lemma_decimal_value_grows(before, chars@[i as int]);
                }
                if fits && value <= (u64::MAX - d as u64) / 10 {
                    value = value * 10 + d as u64;
                } else {
                    fits = false;
                }
                i = i + 1;
            },
        }
    }
    if fits {
        (i, Some(value))
    } else {
        (i, None)
    }
}

/// The number that `s` states without a sign or with the sign `+`, if it
/// states one: the digits in base ten. A text without a digit, or with
/// anything but digits behind the sign, states none.
pub open spec fn unsigned_value(s: Seq<char>) -> Option<nat> {
    let digits = if s.len() > 0 && s[0] == '+' {
        s.drop_first()
    } else {
        s
    };
    if digits.len() > 0 && all_digits(digits) {
        Some(decimal_value(digits))
    } else {
        None
    }
}

/// The number that `s` states with or without a sign, if it states one.
pub open spec fn signed_value(s: Seq<char>) -> Option<int> {
    let digits = if s.len() > 0 && (s[0] == '+' || s[0] == '-') {
        s.drop_first()
    } else {
        s
    };
    if digits.len() > 0 && all_digits(digits) {
        if s[0] == '-' {
            Some(-(decimal_value(digits) as int))
        } else {
            Some(decimal_value(digits) as int)
        }
    } else {
        None
    }
}

/// The 16-bit number that `s` states, if it states one.
pub open spec fn value_u16(s: Seq<char>) -> Option<u16> {
    match unsigned_value(s) {
        Some(v) => if v <= u16::MAX {
            Some(v as u16)
        } else {
            None
        },
        None => None,
    }
}

/// The signed 64-bit number that `s` states, if it states one.
pub open spec fn value_i64(s: Seq<char>) -> Option<i64> {
    match signed_value(s) {
        Some(v) => if i64::MIN <= v <= i64::MAX {
            Some(v as i64)
        } else {
            None
        },
        None => None,
    }
}

/// Reads a 16-bit number from its decimal text.
pub fn parse_u16(text: &str) -> (r: Option<u16>)
    ensures
        r == value_u16(text@),
{
    let chars = chars_of(text);
    let start: usize = if chars.len() > 0 && chars[0] == '+' {
        1
    } else {
        0
    };
    let (end, value) = scan_digits(&chars, start);
    proof {
        if start == 1 {
            assert(chars@.drop_first() == chars@.subrange(1, chars@.len() as int));
        } else {
            assert(chars@ == chars@.subrange(0, chars@.len() as int));
        }
        if end < chars@.len() {
            assert(chars@.subrange(start as int, chars@.len() as int)[end - start]
                == chars@[end as int]);
        }
    }
    if end != chars.len() || end == start {
        return None;
    }
    match value {
        Some(v) => if v <= 65535 {
            Some(v as u16)
        } else {
            None
        },
        None => None,
    }
}

/// Reads a signed 64-bit number from its decimal text.
pub fn parse_i64(text: &str) -> (r: Option<i64>)
    ensures
        r == value_i64(text@),
{
    let chars = chars_of(text);
    let negative = chars.len() > 0 && chars[0] == '-';
    let start: usize = if chars.len() > 0 && (chars[0] == '+' || chars[0] == '-') {
        1
    } else {
        0
    };
    let (end, value) = scan_digits(&chars, start);
    proof {
        if start == 1 {
            assert(chars@.drop_first() == chars@.subrange(1, chars@.len() as int));
        } else {
            assert(chars@ == chars@.subrange(0, chars@.len() as int));
        }
        if end < chars@.len() {
            assert(chars@.subrange(start as int, chars@.len() as int)[end - start]
                == chars@[end as int]);
        }
    }
    if end != chars.len() || end == start {
        return None;
    }
    match value {
        Some(v) => {
            if negative {
                if v <= 0x7fff_ffff_ffff_ffff {
                    Some(-(v as i64))
                } else if v == 0x8000_0000_0000_0000 {
                    Some(i64::MIN)
                } else {
                    None
                }
            } else if v <= 0x7fff_ffff_ffff_ffff {
                Some(v as i64)
            } else {
                None
            }
        },
        None => None,
    }
}

/// The digit that stands for the number `d`, which is below ten.
pub open spec fn digit_char(d: nat) -> char {
    ((d + 48) as u8) as char
}

/// The digits that write `n` in base ten, without leading zeros; `0` for zero.
pub open spec fn decimal_text(n: nat) -> Seq<char>
    decreases n,
{
    if n < 10 {
        seq![digit_char(n)]
    } else {
        decimal_text(n / 10).push(digit_char(n % 10))
    }
}

/// The digits of a number are digits, and they write that number.
pub proof fn lemma_decimal_text(n: nat)
    ensures
        decimal_text(n).len() >= 1,
        all_digits(decimal_text(n)),
        decimal_value(decimal_text(n)) == n,
    decreases n,
{
    reveal_with_fuel(decimal_value, 2);
    if n < 10 {
        assert(decimal_text(n).drop_last() == Seq::<char>::empty());
    } else {
        lemma_decimal_text(n / 10);
        lemma_decimal_value_grows(decimal_text(n / 10), digit_char(n % 10));
    }
}

/// Appends the digits that write `n` in base ten to `out`.
pub fn push_decimal(out: &mut String, n: u64)
    ensures
        final(out)@ == old(out)@ + decimal_text(n as nat),
    decreases n,
{
    if n >= 10 {
        push_decimal(out, n / 10);
    }
    out.push(((n % 10) as u8 + 48) as char);
}

} // verus!
