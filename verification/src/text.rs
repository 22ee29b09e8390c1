//! Character sequences: conversion between strings and editable buffers,
//! and trimming of blanks.
//!
//! Field values are edited one character at a time, so the menu keeps them as
//! `Vec<char>`; strings appear only at the edge of the public interface.

use vstd::prelude::*;

verus! {

/// The number of blanks at the front of `s`.
pub open spec fn leading_spaces(s: Seq<char>) -> nat
    decreases s.len(),
{
    if s.len() > 0 && s[0] == ' ' {
        1 + leading_spaces(s.drop_first())
    } else {
        0
    }
}

/// The number of blanks at the back of `s`.
pub open spec fn trailing_spaces(s: Seq<char>) -> nat
    decreases s.len(),
{
    if s.len() > 0 && s.last() == ' ' {
        1 + trailing_spaces(s.drop_last())
    } else {
        0
    }
}

/// `s` without its leading and trailing blanks. A sequence of blanks only
/// trims to the empty sequence.
pub open spec fn trimmed(s: Seq<char>) -> Seq<char> {
    if leading_spaces(s) >= s.len() {
        Seq::empty()
    } else {
        s.subrange(leading_spaces(s) as int, s.len() - trailing_spaces(s))
    }
}

/// The value an editor shows for `s`: `s` itself, or a single blank where
/// `s` is empty, so that there is always a character under the cursor.
pub open spec fn editable(s: Seq<char>) -> Seq<char> {
    if s.len() == 0 {
        seq![' ']
    } else {
        s
    }
}

/// `leading_spaces(s)` is the one index `a` with blanks before it and
/// none at it.
pub proof fn lemma_leading_spaces(s: Seq<char>, a: int)
    requires
        0 <= a <= s.len(),
        forall|i: int| 0 <= i < a ==> s[i] == ' ',
        a < s.len() ==> s[a] != ' ',
    ensures
        leading_spaces(s) == a,
    decreases a,
{
    if a > 0 {
        let t = s.drop_first();
        lemma_leading_spaces(t, a - 1);
    }
}

/// `trailing_spaces(s)` is `s.len() - b` for the one index `b` with blanks
/// from it on and none just before it.
pub proof fn lemma_trailing_spaces(s: Seq<char>, b: int)
    requires
        0 <= b <= s.len(),
        forall|i: int| b <= i < s.len() ==> s[i] == ' ',
        b > 0 ==> s[b - 1] != ' ',
    ensures
        trailing_spaces(s) == s.len() - b,
    decreases s.len() - b,
{
    if b < s.len() {
        let t = s.drop_last();
        lemma_trailing_spaces(t, b);
    }
}

/// Where the blanks of `s` lie: `leading_spaces` and `trailing_spaces`
/// count exactly the blank runs at either end.
pub proof fn lemma_space_runs(s: Seq<char>)
    ensures
        leading_spaces(s) <= s.len(),
        trailing_spaces(s) <= s.len(),
        forall|i: int| 0 <= i < leading_spaces(s) ==> s[i] == ' ',
        forall|i: int| s.len() - trailing_spaces(s) <= i < s.len() ==> s[i] == ' ',
        leading_spaces(s) < s.len() ==> s[leading_spaces(s) as int] != ' ',
        trailing_spaces(s) < s.len() ==> s[s.len() - trailing_spaces(s) - 1] != ' ',
        leading_spaces(s) < s.len() ==> leading_spaces(s) + trailing_spaces(s) < s.len(),
    decreases s.len(),
{
    if s.len() > 0 {
        let f = s.drop_first();
        let l = s.drop_last();
        lemma_space_runs(f);
        lemma_space_runs(l);
        if s[0] == ' ' {
            assert forall|i: int| 0 <= i < leading_spaces(s) implies s[i] == ' ' by {
                if i > 0 {
                    assert(f[i - 1] == s[i]);
                }
            }
        }
        if s.last() == ' ' {
            assert forall|i: int| s.len() - trailing_spaces(s) <= i < s.len() implies s[i]
                == ' ' by {
                if i < s.len() - 1 {
                    assert(l[i] == s[i]);
                }
            }
        }
    }
}

/// A sequence with no blank at either end trims to itself.
pub proof fn lemma_trimmed_of_tight(s: Seq<char>)
    requires
        s.len() > 0 ==> s[0] != ' ' && s.last() != ' ',
    ensures
        trimmed(s) == s,
{
}

/// `String::push` appends the given character to the end of the string.
#[verifier::external_body]
fn push_char(s: &mut String, c: char)
    ensures
        final(s)@ == old(s)@.push(c),
{
    s.push(c);
}

/// The characters of `s`, in order.
pub fn chars_of(s: &str) -> (v: Vec<char>)
    ensures
        v@ == s@,
{
    let mut v: Vec<char> = Vec::new();
    for c in it: s.chars()
        invariant
            it.seq() == s@,
            v@ =~= it.seq().take(it.index() as int),
    {
        v.push(c);
    }
    v
}

/// The string made of the characters of `v`, in order.
pub fn string_of(v: &Vec<char>) -> (s: String)
    ensures
        s@ == v@,
{
    let mut s = String::new();
    let mut i: usize = 0;
    while i < v.len()
        invariant
            i <= v.len(),
            s@ =~= v@.take(i as int),
        decreases v.len() - i,
    {
        push_char(&mut s, v[i]);
        i += 1;
    }
    s
}

/// A copy of `v`.
pub fn copy_chars(v: &Vec<char>) -> (r: Vec<char>)
    ensures
        r@ == v@,
{
    let mut r: Vec<char> = Vec::new();
    let mut i: usize = 0;
    while i < v.len()
        invariant
            i <= v.len(),
            r@ =~= v@.take(i as int),
        decreases v.len() - i,
    {
        r.push(v[i]);
        i += 1;
    }
    r
}

/// Whether `a` and `b` hold the same characters.
pub fn same_chars(a: &Vec<char>, b: &Vec<char>) -> (r: bool)
    ensures
        r == (a@ == b@),
{
    if a.len() != b.len() {
        return false;
    }
    let mut i: usize = 0;
    while i < a.len()
        invariant
            i <= a.len(),
            a.len() == b.len(),
            forall|j: int| 0 <= j < i ==> a@[j] == b@[j],
        decreases a.len() - i,
    {
        if a[i] != b[i] {
            return false;
        }
        i += 1;
    }
    assert(a@ =~= b@);
    true
}

/// `v` without its leading and trailing blanks.
pub fn trim_chars(v: &Vec<char>) -> (r: Vec<char>)
    ensures
        r@ == trimmed(v@),
{
    let n = v.len();
    let mut a: usize = 0;
    while a < n && v[a] == ' '
        invariant
            a <= n,
            n == v.len(),
            forall|i: int| 0 <= i < a ==> v@[i] == ' ',
        decreases n - a,
    {
        a += 1;
    }
    let mut b: usize = n;
    while b > a && v[b - 1] == ' '
        invariant
            a <= b <= n,
            n == v.len(),
            forall|i: int| b <= i < n ==> v@[i] == ' ',
        decreases b,
    {
        b -= 1;
    }
    let mut r: Vec<char> = Vec::new();
    let mut i: usize = a;
    while i < b
        invariant
            a <= i <= b,
            b <= v.len(),
            r@ =~= v@.subrange(a as int, i as int),
        decreases b - i,
    {
        r.push(v[i]);
        i += 1;
    }
    proof {
        lemma_leading_spaces(v@, a as int);
        if a < n {
            lemma_trailing_spaces(v@, b as int);
        }
    }
    r
}

/// `v`, or a single blank where `v` is empty.
pub fn editable_chars(v: Vec<char>) -> (r: Vec<char>)
    ensures
        r@ == editable(v@),
{
    if v.len() == 0 {
        let mut r: Vec<char> = Vec::new();
        r.push(' ');
        r
    } else {
        v
    }
}

} // verus!
