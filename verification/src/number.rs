//! Numbers written in decimal: reading them and writing them.

use vstd::prelude::*;
use crate::alphabet::is_digit;

verus! {

/// The value of the decimal digit `ch`.
pub open spec fn digit_value(ch: char) -> nat {
    (ch as int - '0' as int) as nat
}

/// The decimal digit of value `d`.
pub open spec fn digit_char(d: nat) -> char {
    ('0' as int + d) as char
}

/// Whether `s` holds decimal digits only.
pub open spec fn all_digits(s: Seq<char>) -> bool {
    forall|i: int| 0 <= i < s.len() ==> is_digit(#[trigger] s[i])
}

/// The number that the digits `s` write; 0 for no digits.
pub open spec fn digits_value(s: Seq<char>) -> nat
    decreases s.len(),
{
    if s.len() == 0 {
        0
    } else {
        digits_value(s.drop_last()) * 10 + digit_value(s.last())
    }
}

/// `s` without a plus sign at its front.
pub open spec fn without_plus(s: Seq<char>) -> Seq<char> {
    if s.len() > 0 && s[0] == '+' {
        s.drop_first()
    } else {
        s
    }
}

/// The number that `s` writes without a sign or with a plus sign: one
/// digit at least, and nothing but digits.
pub open spec fn text_as_nat(s: Seq<char>) -> Option<nat> {
    if without_plus(s).len() > 0 && all_digits(without_plus(s)) {
        Some(digits_value(without_plus(s)))
    } else {
        None
    }
}

/// The `u32` that `s` writes, if it writes one.
pub open spec fn text_as_u32(s: Seq<char>) -> Option<u32> {
    match text_as_nat(s) {
        Some(n) => if n <= u32::MAX {
            Some(n as u32)
        } else {
            None
        },
        None => None,
    }
}

/// The `i32` that `s` writes, if it writes one: digits, with a plus or a
/// minus sign before them or none.
pub open spec fn text_as_i32(s: Seq<char>) -> Option<i32> {
    if s.len() > 0 && s[0] == '-' {
        if s.len() > 1 && all_digits(s.drop_first()) && digits_value(s.drop_first()) <= 0x8000_0000 {
            Some((0 - digits_value(s.drop_first())) as i32)
        } else {
            None
        }
    } else {
        match text_as_nat(s) {
            Some(n) => if n <= i32::MAX {
                Some(n as i32)
            } else {
                None
            },
            None => None,
        }
    }
}

/// `n` written in decimal, without leading zeros.
pub open spec fn decimal(n: nat) -> Seq<char>
    decreases n,
{
    if n < 10 {
        seq![digit_char(n)]
    } else {
        decimal(n / 10).push(digit_char(n % 10))
    }
}

/// `n` written in decimal with two digits at least.
pub open spec fn decimal_two(n: nat) -> Seq<char> {
    if n < 10 {
        seq!['0', digit_char(n)]
    } else {
        decimal(n)
    }
}

/// More digits never write a smaller number.
pub proof fn lemma_digits_grow(s: Seq<char>, n: int)
    requires
        0 <= n <= s.len(),
    ensures
        digits_value(s.take(n)) <= digits_value(s),
    decreases s.len() - n,
{
    if n < s.len() {
        lemma_digits_grow(s.drop_last(), n);
        assert(s.drop_last().take(n) =~= s.take(n));
    } else {
        assert(s.take(n) =~= s);
    }
}

/// The decimal writing of a number is digits, and they write the number.
pub proof fn lemma_decimal_reads_back(n: nat)
    ensures
        decimal(n).len() > 0,
        all_digits(decimal(n)),
        digits_value(decimal(n)) == n,
    decreases n,
{
    if n < 10 {
        let s = decimal(n);
        assert(digits_value(s.drop_last()) == 0);
    } else {
        lemma_decimal_reads_back(n / 10);
        let s = decimal(n);
        assert(s.drop_last() =~= decimal(n / 10));
    }
}

/// Writing a `u32` and reading it gives the number back.
pub proof fn u32_round_trip(n: u32)
    ensures
        text_as_u32(decimal(n as nat)) == Some(n),
{
    lemma_decimal_reads_back(n as nat);

}

/// The number that the characters of `v` from `from` on write, if they are
/// digits, one at least, and write no more than `limit`.
fn read_digits(v: &Vec<char>, from: usize, limit: u64) -> (r: Option<u64>)
    requires
        from <= v.len(),
        limit <= 0x1_0000_0000,
    ensures
        r is Some == {
            &&& from < v.len()
            &&& all_digits(v@.skip(from as int))
            &&& digits_value(v@.skip(from as int)) <= limit
        },
        r matches Some(n) ==> n == digits_value(v@.skip(from as int)),
{
    let ghost body = v@.skip(from as int);
    if from >= v.len() {
        return None;
    }
    let mut acc: u64 = 0;
    let mut i: usize = from;
    while i < v.len()
        invariant
            from <= i <= v.len(),
            body == v@.skip(from as int),
            limit <= 0x1_0000_0000,
            all_digits(body.take(i - from)),
            acc == digits_value(body.take(i - from)),
            acc <= limit,
        decreases v.len() - i,
    {
        let ch = v[i];
        proof {
            assert(body[i - from] == ch);
            assert(body.take(i - from + 1).drop_last() =~= body.take(i - from));
        }
        if ch < '0' || ch > '9' {
            return None;
        }
        let d: u64 = ((ch as u8) - ('0' as u8)) as u64;
        let next: u64 = acc * 10 + d;
        if next > limit {
            proof {
                lemma_digits_grow(body, i - from + 1);
            }
            return None;
        }
        acc = next;
        i += 1;
    }
    assert(body.take(i - from) =~= body);
    Some(acc)
}

/// The `u32` that `v` writes, if it writes one.
pub fn parse_u32(v: &Vec<char>) -> (r: Option<u32>)
    ensures
        r == text_as_u32(v@),
{
    let from: usize = if v.len() > 0 && v[0] == '+' {
        1
    } else {
        0
    };
    proof {
        if from == 0 {
            assert(v@.skip(0) =~= v@);
        }
    }
    match read_digits(v, from, 0xFFFF_FFFF) {
        Some(n) => Some(n as u32),
        None => None,
    }
}

/// The `i32` that `v` writes, if it writes one.
pub fn parse_i32(v: &Vec<char>) -> (r: Option<i32>)
    ensures
        r == text_as_i32(v@),
{
    if v.len() > 0 && v[0] == '-' {
        match read_digits(v, 1, 0x8000_0000) {
            Some(n) => {
                if n == 0x8000_0000 {
                    Some(i32::MIN)
                } else {
                    Some(0 - (n as i32))
                }
            },
            None => None,
        }
    } else {
        let from: usize = if v.len() > 0 && v[0] == '+' {
            1
        } else {
            0
        };
        proof {
            if from == 0 {
                assert(v@.skip(0) =~= v@);
            }
        }
        match read_digits(v, from, 0x7FFF_FFFF) {
            Some(n) => Some(n as i32),
            None => None,
        }
    }
}

/// The decimal digit of value `d`.
fn digit_of(d: u32) -> (r: char)
    requires
        d < 10,
    ensures
        r == digit_char(d as nat),
{
    (('0' as u8) + (d as u8)) as char
}

/// Appends `n` in decimal to `out`.
fn push_decimal(out: &mut Vec<char>, n: u32)
    ensures
        final(out)@ == old(out)@ + decimal(n as nat),
    decreases n,
{
    if n >= 10 {
        push_decimal(out, n / 10);
    }
    out.push(digit_of(n % 10));
}

/// `n` written in decimal, without leading zeros.
pub fn decimal_chars(n: u32) -> (r: Vec<char>)
    ensures
        r@ == decimal(n as nat),
{
    let mut r: Vec<char> = Vec::new();
    push_decimal(&mut r, n);
    r
}

/// `n` written in decimal with two digits at least.
pub fn decimal_two_chars(n: u32) -> (r: Vec<char>)
    ensures
        r@ == decimal_two(n as nat),
{
    let mut r: Vec<char> = Vec::new();
    if n < 10 {
        r.push('0');
    }
    push_decimal(&mut r, n);
    r
}

} // verus!
