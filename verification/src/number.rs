//! Decimal numerals.
//!
//! A numeral is one or more of the digits `0` to `9`, with one `+` in front
//! of them if the writer so wishes. Nothing else is a numeral: no sign
//! alone, no minus, no blank, no underscore.

use vstd::prelude::*;

verus! {

/// One of the ten digits.
pub open spec fn is_digit(c: char) -> bool {
    '0' <= c <= '9'
}

/// What a digit counts for.
pub open spec fn digit_value(c: char) -> int {
    c as int - '0' as int
}

/// A text of digits only.
pub open spec fn all_digits(s: Seq<char>) -> bool {
    forall|k: int| 0 <= k < s.len() ==> is_digit(#[trigger] s[k])
}

/// The number that a run of digits writes in base ten.
pub open spec fn digits_value(s: Seq<char>) -> int
    decreases s.len(),
{
    if s.len() == 0 {
        0
    } else {
        digits_value(s.drop_last()) * 10 + digit_value(s.last())
    }
}

/// The digits of a numeral: the text without its leading `+`, if it has
/// one.
pub open spec fn unsigned_part(s: Seq<char>) -> Seq<char> {
    if s.len() > 0 && s[0] == '+' {
        s.subrange(1, s.len() as int)
    } else {
        s
    }
}

/// A text that writes a number.
pub open spec fn is_numeral(s: Seq<char>) -> bool {
    unsigned_part(s).len() > 0 && all_digits(unsigned_part(s))
}

/// The value of the numeral `s` where it is one and does not exceed `max`.
pub open spec fn numeral_within(s: Seq<char>, max: int) -> Option<int> {
    if is_numeral(s) && digits_value(unsigned_part(s)) <= max {
        Some(digits_value(unsigned_part(s)))
    } else {
        None
    }
}

/// A run of digits writes no negative number.
pub proof fn digits_value_is_natural(s: Seq<char>)
    requires
        all_digits(s),
    ensures
        0 <= digits_value(s),
    decreases s.len(),
{
    if s.len() > 0 {
        digits_value_is_natural(s.drop_last());
    }
}

/// More digits behind a run of digits never write a smaller number.
pub proof fn digits_value_grows(s: Seq<char>, n: int)
    requires
        all_digits(s),
        0 <= n <= s.len(),
    ensures
        digits_value(s.take(n)) <= digits_value(s),
    decreases s.len(),
{
    if n == s.len() {
        assert(s.take(n) == s);
    } else {
        let shorter = s.drop_last();
        digits_value_grows(shorter, n);
        digits_value_is_natural(shorter);
        assert(shorter.take(n) == s.take(n));
    }
}

/// Reads `token` as a numeral that does not exceed `max`.
pub fn parse_decimal(token: &[char], max: usize) -> (value: Option<usize>)
    ensures
        match value {
            Some(v) => numeral_within(token@, max as int) == Some(v as int),
            None => numeral_within(token@, max as int) is None,
        },
{
    let n: usize = token.len();
    let start: usize = if n > 0 && token[0] == '+' {
        1
    } else {
        0
    };
    if start == n {
        return None;
    }
    let ghost digits = unsigned_part(token@);
    assert(digits == token@.subrange(start as int, n as int));
    let mut acc: usize = 0;
    let mut i: usize = start;
    while i < n
        invariant
            start <= i <= n,
            n == token@.len(),
            digits == unsigned_part(token@),
            digits == token@.subrange(start as int, n as int),
            all_digits(digits.take(i - start)),
            acc == digits_value(digits.take(i - start)),
            acc <= max,
        decreases n - i,
    {
        let c: char = token[i];
        let ghost seen = digits.take(i - start + 1);
        proof {
            assert(seen.drop_last() == digits.take(i - start));
            assert(seen.last() == c);
            assert(digits[i - start] == c);
        }
        if !('0' <= c && c <= '9') {
            assert(!is_digit(digits[i - start]));
            return None;
        }
        let d: usize = (c as u8 - 48) as usize;
        assert(d == digit_value(c));
        assert(digits_value(seen) == acc * 10 + d);
        let grown: Option<usize> = match acc.checked_mul(10) {
            Some(tenfold) => tenfold.checked_add(d),
            None => None,
        };
        let fits: bool = match grown {
            Some(v) => v <= max,
            None => false,
        };
        if !fits {
            proof {
                assert(digits_value(seen) > max);
                if all_digits(digits) {
                    digits_value_grows(digits, i - start + 1);
                    assert(digits_value(digits) > max);
                }
                assert(numeral_within(token@, max as int) is None);
            }
            return None;
        }
        acc = grown.unwrap();
        assert forall|k: int| 0 <= k < seen.len() implies is_digit(#[trigger] seen[k]) by {
            if k < i - start {
                assert(seen[k] == digits.take(i - start)[k]);
            }
        }
        i = i + 1;
    }
    proof {
        assert(digits.take(n - start) == digits);
    }
    Some(acc)
}

} // verus!
