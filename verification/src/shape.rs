//! The shape of a field's value: which characters may stand where.
//!
//! A value has a shape at rest, as it is stored and handed out, and a wider
//! one while it is being edited, when blanks may have been appended to it or
//! stepped into a number.

use vstd::prelude::*;
use crate::alphabet::{is_digit, is_hex_digit, is_printable, is_sign, step_char};
use crate::text::{
    editable, lemma_space_runs, lemma_trailing_spaces, trimmed,
};
use crate::ui::InputTypeChar;

verus! {

/// The length of a hardware address: six groups of two digits and five
/// separators.
pub const HW_ADDRESS_LEN: usize = 17;

/// The length of a time-zone offset: a sign and two digits.
pub const OFFSET_LEN: usize = 3;

/// The places of a hardware address that hold a separator.
pub open spec fn is_separator_position(i: int) -> bool {
    i == 2 || i == 5 || i == 8 || i == 11 || i == 14
}

/// The least number of characters a value of `kind` has.
pub open spec fn min_len(kind: InputTypeChar) -> nat {
    match kind {
        InputTypeChar::HWAddressType => HW_ADDRESS_LEN as nat,
        InputTypeChar::TimezoneType => OFFSET_LEN as nat,
        _ => 1,
    }
}

/// Whether `ch` may stand at place `i` of a value of `kind` that is being
/// edited. Past the end of a hardware address or of an offset only blanks
/// may stand. A selection is held to its options, not to an alphabet.
pub open spec fn char_fits(kind: InputTypeChar, i: int, ch: char) -> bool {
    match kind {
        InputTypeChar::StringType => is_printable(ch),
        InputTypeChar::ActionType => is_printable(ch),
        InputTypeChar::NumberType => ch == ' ' || is_digit(ch),
        InputTypeChar::HWAddressType => if i >= HW_ADDRESS_LEN {
            ch == ' '
        } else if is_separator_position(i) {
            ch == ':'
        } else {
            is_hex_digit(ch)
        },
        InputTypeChar::TimezoneType => if i >= OFFSET_LEN {
            ch == ' '
        } else if i == 0 {
            is_sign(ch)
        } else {
            is_digit(ch)
        },
        InputTypeChar::SelectType => true,
    }
}

/// The shape of a value of `kind` while it is edited: long enough, and
/// every character fit for its place.
pub open spec fn fits_while_edited(kind: InputTypeChar, w: Seq<char>) -> bool {
    &&& w.len() >= min_len(kind)
    &&& forall|i: int| 0 <= i < w.len() ==> char_fits(kind, i, #[trigger] w[i])
}

/// The shape of a value of `kind` at rest: that of an edited value, and
/// moreover a number is digits only, and a hardware address and an offset
/// have exactly their length.
pub open spec fn well_shaped(kind: InputTypeChar, v: Seq<char>) -> bool {
    &&& fits_while_edited(kind, v)
    &&& match kind {
        InputTypeChar::NumberType => forall|i: int| 0 <= i < v.len() ==> is_digit(#[trigger] v[i]),
        InputTypeChar::HWAddressType => v.len() == HW_ADDRESS_LEN,
        InputTypeChar::TimezoneType => v.len() == OFFSET_LEN,
        _ => true,
    }
}

/// A step keeps a character fit for its place.
pub proof fn step_fits(kind: InputTypeChar, i: int, ch: char, up: bool)
    requires
        char_fits(kind, i, ch),
    ensures
        char_fits(kind, i, step_char(up, ch, kind)),
{
}

/// Stepping one character of an edited value leaves it an edited value.
pub proof fn stepped_value_fits(kind: InputTypeChar, w: Seq<char>, at: int, up: bool)
    requires
        fits_while_edited(kind, w),
        0 <= at < w.len(),
    ensures
        fits_while_edited(kind, w.update(at, step_char(up, w[at], kind))),
{
}

/// Appending a blank to an edited value leaves it an edited value.
pub proof fn grown_value_fits(kind: InputTypeChar, w: Seq<char>)
    requires
        fits_while_edited(kind, w),
    ensures
        fits_while_edited(kind, w.push(' ')),
{
}

/// Trimming an edited value, and putting a blank where nothing is left,
/// gives an edited value again. A hardware address and an offset come out
/// at rest.
pub proof fn lemma_trimmed_value_fits(kind: InputTypeChar, w: Seq<char>)
    requires
        fits_while_edited(kind, w),
        kind != InputTypeChar::SelectType,
    ensures
        fits_while_edited(kind, editable(trimmed(w))),
        kind == InputTypeChar::HWAddressType || kind == InputTypeChar::TimezoneType
            ==> well_shaped(kind, trimmed(w)),
{
    lemma_space_runs(w);
    if kind == InputTypeChar::HWAddressType || kind == InputTypeChar::TimezoneType {
        let n = min_len(kind) as int;
        lemma_trailing_spaces(w, n);
    }
}

/// Whether `ch` may stand at place `i` of an edited value of `kind`.
pub fn check_char(kind: InputTypeChar, i: usize, ch: char) -> (r: bool)
    ensures
        r == char_fits(kind, i as int, ch),
{
    match kind {
        InputTypeChar::StringType => ch >= ' ' && ch <= '~',
        InputTypeChar::ActionType => ch >= ' ' && ch <= '~',
        InputTypeChar::NumberType => ch == ' ' || (ch >= '0' && ch <= '9'),
        InputTypeChar::HWAddressType => {
            if i >= HW_ADDRESS_LEN {
                ch == ' '
            } else if i == 2 || i == 5 || i == 8 || i == 11 || i == 14 {
                ch == ':'
            } else {
                (ch >= '0' && ch <= '9') || (ch >= 'A' && ch <= 'F') || (ch >= 'a' && ch <= 'f')
            }
        },
        InputTypeChar::TimezoneType => {
            if i >= OFFSET_LEN {
                ch == ' '
            } else if i == 0 {
                ch == '+' || ch == '-'
            } else {
                ch >= '0' && ch <= '9'
            }
        },
        InputTypeChar::SelectType => true,
    }
}

/// Whether `v` has the shape of a value of `kind` that is being edited.
pub fn check_edited(kind: InputTypeChar, v: &Vec<char>) -> (r: bool)
    ensures
        r == fits_while_edited(kind, v@),
{
    let least: usize = match kind {
        InputTypeChar::HWAddressType => HW_ADDRESS_LEN,
        InputTypeChar::TimezoneType => OFFSET_LEN,
        _ => 1,
    };
    if v.len() < least {
        return false;
    }
    let mut i: usize = 0;
    while i < v.len()
        invariant
            i <= v.len(),
            v.len() >= min_len(kind),
            forall|j: int| 0 <= j < i ==> char_fits(kind, j, #[trigger] v@[j]),
        decreases v.len() - i,
    {
        if !check_char(kind, i, v[i]) {
            return false;
        }
        i += 1;
    }
    true
}

/// Whether `v` has the shape of a value of `kind` at rest.
pub fn check_shape(kind: InputTypeChar, v: &Vec<char>) -> (r: bool)
    ensures
        r == well_shaped(kind, v@),
{
    if !check_edited(kind, v) {
        return false;
    }
    match kind {
        InputTypeChar::NumberType => {
            let mut i: usize = 0;
            while i < v.len()
                invariant
                    i <= v.len(),
                    kind == InputTypeChar::NumberType,
                    fits_while_edited(kind, v@),
                    forall|j: int| 0 <= j < i ==> is_digit(#[trigger] v@[j]),
                decreases v.len() - i,
            {
                if v[i] < '0' || v[i] > '9' {
                    return false;
                }
                i += 1;
            }
            true
        },
        InputTypeChar::HWAddressType => v.len() == HW_ADDRESS_LEN,
        InputTypeChar::TimezoneType => v.len() == OFFSET_LEN,
        _ => true,
    }
}

} // verus!
