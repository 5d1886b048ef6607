//! Parsing of the address and length arguments: decimal, or hexadecimal
//! behind a `0x` prefix.

use vstd::prelude::*;
use vstd::string::*;

verus! {

/// The value of `c` as a digit in base `radix`, when it is one.
pub open spec fn digit_value(c: char, radix: nat) -> Option<nat> {
    let cv = c as int;
    let v: Option<int> = if ('0' as int) <= cv && cv <= ('9' as int) {
        Some(cv - ('0' as int))
    } else if ('a' as int) <= cv && cv <= ('f' as int) {
        Some(cv - ('a' as int) + 10)
    } else if ('A' as int) <= cv && cv <= ('F' as int) {
        Some(cv - ('A' as int) + 10)
    } else {
        None
    };
    match v {
        Some(d) => if 0 <= d && d < radix {
            Some(d as nat)
        } else {
            None
        },
        None => None,
    }
}

/// Whether every character of `s` is a digit in base `radix`.
pub open spec fn all_digits(s: Seq<char>, radix: nat) -> bool {
    forall|i: int| 0 <= i < s.len() ==> digit_value(s[i], radix) is Some
}

/// The value of the digit string `s` in base `radix`, most significant digit
/// first (characters that are no digits count as zero).
pub open spec fn digits_value(s: Seq<char>, radix: nat) -> nat
    decreases s.len(),
{
    if s.len() == 0 {
        0
    } else {
        digits_value(s.drop_last(), radix) * radix + (match digit_value(s.last(), radix) {
            Some(d) => d,
            None => 0,
        })
    }
}

/// Whether `s` starts with the hexadecimal prefix.
pub open spec fn hex_prefixed(s: Seq<char>) -> bool {
    s.len() >= 2 && s[0] == '0' && s[1] == 'x'
}

/// The number that `s` denotes: the value of its digits in base 16 behind a
/// `0x` prefix and in base 10 otherwise, and `None` when no digits follow the
/// prefix, any character is no digit of the base, or the value exceeds `u32`.
pub open spec fn parse_num_model(s: Seq<char>) -> Option<u32> {
    let radix: nat = if hex_prefixed(s) {
        16
    } else {
        10
    };
    let digits = if hex_prefixed(s) {
        s.skip(2)
    } else {
        s
    };
    if digits.len() > 0 && all_digits(digits, radix) && digits_value(digits, radix) <= u32::MAX {
        Some(digits_value(digits, radix) as u32)
    } else {
        None
    }
}

/// The value of a prefix of a digit string never exceeds the value of the
/// whole.
proof fn lemma_digits_value_grows(s: Seq<char>, i: int, radix: nat)
    requires
        0 <= i <= s.len(),
        radix >= 2,
    ensures
        digits_value(s.take(i), radix) <= digits_value(s, radix),
    decreases s.len(),
{
    if i == s.len() {
        assert(s.take(i) =~= s);
    } else {
        let shorter = s.drop_last();
        assert(shorter.take(i) =~= s.take(i));
        lemma_digits_value_grows(shorter, i, radix);
        let v = digits_value(shorter, radix);
        assert(v * radix >= v) by (nonlinear_arith)
            requires
                radix >= 1,
        ;
    }
}

fn char_digit(c: char, hex: bool) -> (r: Option<u8>)
    ensures
        match r {
            Some(d) => digit_value(c, if hex { 16nat } else { 10nat }) == Some(d as nat),
            None => digit_value(c, if hex { 16nat } else { 10nat }) is None,
        },
{
    let v = c as u32;
    if v >= 48 && v <= 57 {
        Some((v - 48) as u8)
    } else if hex && v >= 97 && v <= 102 {
        Some((v - 97 + 10) as u8)
    } else if hex && v >= 65 && v <= 70 {
        Some((v - 65 + 10) as u8)
    } else {
        None
    }
}

/// Parse a numeric argument: decimal, or hexadecimal behind a `0x` prefix.
pub fn parse_num(s: &str) -> (r: Option<u32>)
    ensures
        r == parse_num_model(s@),
{
    let len = s.unicode_len();
    let hex = len >= 2 && s.get_char(0) == '0' && s.get_char(1) == 'x';
    let start: usize = if hex {
        2
    } else {
        0
    };
    let ghost radix: nat = if hex {
        16
    } else {
        10
    };
    let ghost digits: Seq<char> = if hex {
        s@.skip(2)
    } else {
        s@
    };
    if len == start {
        return None;
    }
    let mut i: usize = start;
    let mut acc: u64 = 0;
    while i < len
        invariant
            start <= i <= len,
            len == s@.len(),
            start == 0 || start == 2,
            hex <==> hex_prefixed(s@),
            radix == (if hex { 16nat } else { 10nat }),
            digits == (if hex { s@.skip(2) } else { s@ }),
            digits.len() == len - start,
            all_digits(digits.take(i - start), radix),
            acc == digits_value(digits.take(i - start), radix),
            acc <= u32::MAX,
        decreases len - i,
    {
        let c = s.get_char(i);
        proof {
            assert(digits[i - start] == s@[i as int]);
        }
        match char_digit(c, hex) {
            None => {
                proof {
                    assert(digit_value(digits[i - start], radix) is None);
                    assert(!all_digits(digits, radix));
                }
                return None;
            },
            Some(d) => {
                let next = if hex {
                    acc * 16
                } else {
                    acc * 10
                };
                acc = next + d as u64;
                proof {
                    let pre = digits.take(i - start);
                    let cur = digits.take(i + 1 - start);
                    assert(cur.drop_last() =~= pre);
                    assert(cur.last() == digits[i - start]);
                    assert(acc == digits_value(cur, radix));
                    assert(forall|j: int|
                        0 <= j < cur.len() ==> digit_value(cur[j], radix) is Some);
                }
                if acc > 0xFFFF_FFFF {
                    proof {
                        lemma_digits_value_grows(digits, i + 1 - start, radix);
                        assert(digits_value(digits, radix) > u32::MAX);
                    }
                    return None;
                }
                i += 1;
            },
        }
    }
    proof {
        assert(digits.take(i - start) =~= digits);
    }
    Some(acc as u32)
}

} // verus!
