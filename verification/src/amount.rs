//! Monetary amounts, held exactly as a count of hundredths of the currency
//! unit, with their written form of two decimal places.

use vstd::prelude::*;
use crate::numeral::{
    all_digits, decimal, decimal_digits, char_of_digit, digit_char, digit_of, digit_value,
    digits_value, is_digit, is_digit_char, lemma_decimal_denotes, lemma_digit_char, read_digits,
};
use crate::text::{chars_of, prefix_of, string_of};

verus! {

/// An amount of money: `cents` hundredths of the currency unit.
#[derive(Clone, Copy, Debug, PartialEq, Eq, Structural)]
pub struct Amount {
    pub cents: u64,
}

/// The written form of an amount of `cents` hundredths: the whole units in
/// decimal, a point, and exactly two decimal places.
pub open spec fn amount_text(cents: nat) -> Seq<char> {
    decimal(cents / 100) + seq!['.', digit_char((cents % 100) / 10), digit_char(cents % 10)]
}

/// The hundredths that a written amount denotes: a run of digits, which
/// counts whole units, or a run of digits, a point and two digits. Any
/// other text denotes nothing.
pub open spec fn amount_value(s: Seq<char>) -> Option<nat> {
    let n = s.len() as int;
    if n >= 1 && all_digits(s) {
        Some(digits_value(s) * 100)
    } else if n >= 4 && s[n - 3] == '.' && all_digits(s.take(n - 3)) && is_digit(s[n - 2])
        && is_digit(s[n - 1]) {
        Some(digits_value(s.take(n - 3)) * 100 + digit_value(s[n - 2]) * 10 + digit_value(s[n - 1]))
    } else {
        None
    }
}

/// The amount that a text denotes, where it denotes one that fits in 64
/// bits of hundredths.
pub open spec fn parse_amount(s: Seq<char>) -> Option<Amount> {
    match amount_value(s) {
        Some(v) => if v <= u64::MAX {
            Some(Amount { cents: v as u64 })
        } else {
            None
        },
        None => None,
    }
}

/// The larger of two amounts.
pub open spec fn larger(a: Amount, b: Amount) -> Amount {
    if a.cents >= b.cents {
        a
    } else {
        b
    }
}

/// Reading the written form of an amount gives the amount back: the text
/// holds exactly two decimal places, and nothing is lost.
pub proof fn lemma_amount_text_round_trip(a: Amount)
    ensures
        parse_amount(amount_text(a.cents as nat)) == Some(a),
{
    let c = a.cents as nat;
    let s = amount_text(c);
    let whole = decimal(c / 100);
    let n = s.len() as int;
    lemma_decimal_denotes(c / 100);
    lemma_digit_char((c % 100) / 10);
    lemma_digit_char(c % 10);
    assert(n == whole.len() + 3);
    assert(s[n - 3] == '.');
    assert(!is_digit(s[n - 3]));
    assert(!all_digits(s));
    assert(s.take(n - 3) =~= whole);
    assert(s[n - 2] == digit_char((c % 100) / 10));
    assert(s[n - 1] == digit_char(c % 10));
    assert((c / 100) * 100 + ((c % 100) / 10) * 10 + c % 10 == c);
}

impl Amount {
    /// An amount of `cents` hundredths.
    pub fn from_cents(cents: u64) -> (a: Amount)
        ensures
            a.cents == cents,
    {
        Amount { cents }
    }

    /// The written form with exactly two decimal places.
    pub fn format(&self) -> (out: String)
        ensures
            out@ == amount_text(self.cents as nat),
    {
        string_of(&self.format_chars())
    }

    /// The written form, as characters.
    pub fn format_chars(&self) -> (out: Vec<char>)
        ensures
            out@ == amount_text(self.cents as nat),
    {
        let mut out = decimal_digits(self.cents / 100);
        out.push('.');
        out.push(char_of_digit((self.cents % 100) / 10));
        out.push(char_of_digit(self.cents % 10));
        assert(out@ =~= amount_text(self.cents as nat));
        out
    }

    /// Reads a written amount.
    pub fn parse(text: &str) -> (r: Option<Amount>)
        ensures
            r == parse_amount(text@),
    {
        Amount::parse_chars(&chars_of(text))
    }

    /// Reads a written amount from its characters.
    pub fn parse_chars(s: &Vec<char>) -> (r: Option<Amount>)
        ensures
            r == parse_amount(s@),
    {
        let n = s.len();
        if n == 0 {
            return None;
        }
        if n >= 4 && s[n - 3] == '.' {
            assert(!is_digit(s@[n - 3]));
            assert(!all_digits(s@));
            if !is_digit_char(s[n - 2]) || !is_digit_char(s[n - 1]) {
                return None;
            }
            let whole = prefix_of(s, n - 3);
            let tail: u64 = digit_of(s[n - 2]) * 10 + digit_of(s[n - 1]);
            match read_digits(&whole) {
                Some(units) => {
                    if units > (u64::MAX - tail) / 100 {
                        None
                    } else {
                        Some(Amount { cents: units * 100 + tail })
                    }
                },
                None => None,
            }
        } else {
            match read_digits(s) {
                Some(units) => {
                    if units > u64::MAX / 100 {
                        None
                    } else {
                        Some(Amount { cents: units * 100 })
                    }
                },
                None => None,
            }
        }
    }
}

} // verus!
