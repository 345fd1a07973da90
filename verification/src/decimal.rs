//! Unsigned decimal numbers as text: an optional `+`, then one digit or more.

use vstd::prelude::*;
use vstd::std_specs::iter::IteratorSpec;

verus! {

broadcast use vstd::string::group_string_axioms;

/// Whether `c` is one of the digits `0` to `9`.
pub open spec fn is_digit(c: char) -> bool {
    '0' <= c <= '9'
}

/// The number that the digit `c` stands for.
pub open spec fn digit_value(c: char) -> nat {
    (c as u32 - '0' as u32) as nat
}

/// The number that the digits `s` spell, the last digit counting least.
pub open spec fn digits_value(s: Seq<char>) -> nat
    decreases s.len(),
{
    if s.len() == 0 {
        0
    } else {
        digits_value(s.drop_last()) * 10 + digit_value(s.last())
    }
}

/// What is left of `s` once a leading `+` is taken off.
pub open spec fn unsigned_part(s: Seq<char>) -> Seq<char> {
    if s.len() > 0 && s[0] == '+' {
        s.drop_first()
    } else {
        s
    }
}

/// Whether `s` is a number: an optional `+`, then digits, at least one.
pub open spec fn is_number(s: Seq<char>) -> bool {
    let digits = unsigned_part(s);
    digits.len() > 0 && forall|i: int| 0 <= i < digits.len() ==> is_digit(#[trigger] digits[i])
}

/// The number that `s` spells, if it is one and does not exceed `max`.
pub open spec fn number_up_to(s: Seq<char>, max: nat) -> Option<nat> {
    if is_number(s) && digits_value(unsigned_part(s)) <= max {
        Some(digits_value(unsigned_part(s)))
    } else {
        None
    }
}

/// A number only grows when a digit is added.
proof fn lemma_value_grows(s: Seq<char>, n: int)
    requires
        0 <= n <= s.len(),
    ensures
        digits_value(s.take(n)) <= digits_value(s),
    decreases s.len() - n,
{
    if n < s.len() {
        lemma_value_grows(s, n + 1);
        assert(s.take(n + 1).drop_last() == s.take(n));
    } else {
        assert(s.take(n) == s);
    }
}

/// Reads `s` as a number of at most 64 bits.
pub fn parse_u64(s: &str) -> (value: Option<u64>)
    ensures
        match value {
            Some(n) => number_up_to(s@, u64::MAX as nat) == Some(n as nat),
            None => number_up_to(s@, u64::MAX as nat) is None,
        },
{
    let mut chars = s.chars();
    let mut first = chars.next();
    let ghost mut seen: int = 0;
    if first == Some('+') {
        first = chars.next();
        proof {
            seen = 1;
        }
    }
    let ghost digits = unsigned_part(s@);
    assert(digits == s@.skip(seen));
    let mut current: char = match first {
        Some(c) => c,
        None => {
            return None;
        },
    };
    let mut total: u64 = 0;
    let ghost mut done: int = 0;
    loop
        invariant
            digits == unsigned_part(s@),
            0 <= done < digits.len(),
            current == digits[done],
            chars.obeys_prophetic_iter_laws(),
            chars.remaining() == digits.skip(done + 1),
            forall|i: int| 0 <= i < done ==> is_digit(#[trigger] digits[i]),
            total == digits_value(digits.take(done)),
        decreases digits.len() - done,
    {
        if !('0' <= current && current <= '9') {
            return None;
        }
        let digit: u64 = (current as u32 - '0' as u32) as u64;
        proof {
            assert(digits.take(done + 1).drop_last() == digits.take(done));
            lemma_value_grows(digits, done + 1);
        }
        let shifted: u64 = match total.checked_mul(10) {
            Some(v) => v,
            None => {
                return None;
            },
        };
        total = match shifted.checked_add(digit) {
            Some(v) => v,
            None => {
                return None;
            },
        };
        proof {
            done = done + 1;
        }
        match chars.next() {
            Some(c) => {
                current = c;
            },
            None => {
                assert(digits.take(done) == digits);
                return Some(total);
            },
        }
    }
}

/// Reads `s` as a number of at most 32 bits.
pub fn parse_u32(s: &str) -> (value: Option<u32>)
    ensures
        match value {
            Some(n) => number_up_to(s@, u32::MAX as nat) == Some(n as nat),
            None => number_up_to(s@, u32::MAX as nat) is None,
        },
{
    match parse_u64(s) {
        Some(n) => if n <= 0xffff_ffff {
            Some(n as u32)
        } else {
            None
        },
        None => {
            proof {
                if is_number(s@) {
                    assert(digits_value(unsigned_part(s@)) > u64::MAX);
                }
            }
            None
        },
    }
}

} // verus!
