//! Prices: decimal amounts with two places, held as whole hundredths and
//! compared exactly.

use crate::utils::text::{
    chars_of, decimal_text, decimal_value, digit_char, digit_of, digit_value, is_digit,
    leading_digits, lemma_decimal_text, lemma_leading_digits, push_decimal, scan_digits,
};
use vstd::prelude::*;

verus! {

/// A price, in hundredths of the currency unit.
#[derive(Debug, Clone, Copy, PartialEq, Eq, Structural)]
pub struct Price {
    pub hundredths: u64,
}

/// The number of hundredths that the text `s` states, if it states a price.
///
/// A price is written as one or more digits, which may be followed by a
/// point and one or two more digits: `7`, `7.5` and `7.50` all state 750
/// hundredths. Nothing else is a price: no sign, no blank, no third place.
pub open spec fn price_value(s: Seq<char>) -> Option<nat> {
    let w = leading_digits(s) as int;
    let whole = decimal_value(s.take(w));
    if w == 0 {
        None
    } else if s.len() == w {
        Some(whole * 100)
    } else if s[w] != '.' {
        None
    } else if s.len() == w + 2 && is_digit(s[w + 1]) {
        Some(whole * 100 + digit_value(s[w + 1]) * 10)
    } else if s.len() == w + 3 && is_digit(s[w + 1]) && is_digit(s[w + 2]) {
        Some(whole * 100 + digit_value(s[w + 1]) * 10 + digit_value(s[w + 2]))
    } else {
        None
    }
}

/// The text that states `hundredths` hundredths: the whole units, a point,
/// and two places.
pub open spec fn price_text(hundredths: nat) -> Seq<char> {
    decimal_text(hundredths / 100).push('.').push(digit_char(hundredths % 100 / 10)).push(
        digit_char(hundredths % 10),
    )
}

/// The text of a price states that price.
pub proof fn lemma_price_text_is_read_back(hundredths: nat)
    ensures
        price_value(price_text(hundredths)) == Some(hundredths),
{
    let whole = decimal_text(hundredths / 100);
    let s = price_text(hundredths);
    let w = whole.len() as int;
    lemma_decimal_text(hundredths / 100);
    assert(s.take(w) == whole);
    lemma_leading_digits(s, w);
}

impl Price {
    /// The price as decimal text with two places, such as `7.50`.
    pub fn to_text(self) -> (r: String)
        ensures
            r@ == price_text(self.hundredths as nat),
    {
        let mut out = String::new();
        push_decimal(&mut out, self.hundredths / 100);
        out.push('.');
        out.push(((self.hundredths % 100 / 10) as u8 + 48) as char);
        out.push(((self.hundredths % 10) as u8 + 48) as char);
        out
    }

    /// Whether the price lies between `low` and `high`, both included.
    pub open spec fn between(self, low: Price, high: Price) -> bool {
        low.hundredths <= self.hundredths <= high.hundredths
    }

    /// Whether the price lies between `low` and `high`, both included.
    pub fn is_between(self, low: Price, high: Price) -> (r: bool)
        ensures
            r == self.between(low, high),
    {
        low.hundredths <= self.hundredths && self.hundredths <= high.hundredths
    }

    /// Reads a price from its decimal text.
    ///
    /// Returns `None` where the text states no price, and where the price it
    /// states does not fit into 64 bits.
    pub fn parse(text: &str) -> (r: Option<Price>)
        ensures
            match r {
                Some(p) => price_value(text@) == Some(p.hundredths as nat),
                None => price_value(text@) matches Some(v) ==> v > u64::MAX,
            },
    {
        let chars = chars_of(text);
        let n = chars.len();
        let (w, whole) = scan_digits(&chars, 0);
        proof {
            lemma_leading_digits(chars@, w as int);
        }
        if w == 0 {
            return None;
        }
        let fraction: u64 = if n == w {
            0
        } else if chars[w] != '.' {
            return None;
        } else if n - w == 2 {
            match digit_of(chars[w + 1]) {
                Some(d) => d as u64 * 10,
                None => {
                    return None;
                },
            }
        } else if n - w == 3 {
            match (digit_of(chars[w + 1]), digit_of(chars[w + 2])) {
                (Some(d), Some(e)) => d as u64 * 10 + e as u64,
                _ => {
                    return None;
                },
            }
        } else {
            return None;
        };
        match whole {
            Some(units) => {
                if units <= (u64::MAX - fraction) / 100 {
                    Some(Price { hundredths: units * 100 + fraction })
                } else {
                    None
                }
            },
            None => None,
        }
    }
}

} // verus!
