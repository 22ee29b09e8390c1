//! The editing alphabets: which character follows which when a key steps
//! the character under the cursor.
//!
//! Text, number, hardware-address and time-zone fields each step through an
//! alphabet of their own. Most of an alphabet is a ring, on which stepping
//! forward as many times as the ring has symbols leads back to the start.

use vstd::prelude::*;
use vstd::arithmetic::div_mod::{
    lemma_add_mod_noop, lemma_mod_multiples_vanish, lemma_mod_twice, lemma_small_mod,
    lemma_sub_mod_noop,
};
use crate::ui::InputTypeChar;

verus! {

/// The printable characters, from the blank to the tilde.
pub open spec fn is_printable(ch: char) -> bool {
    ' ' <= ch <= '~'
}

pub open spec fn is_digit(ch: char) -> bool {
    '0' <= ch <= '9'
}

pub open spec fn is_upper_hex(ch: char) -> bool {
    'A' <= ch <= 'F'
}

pub open spec fn is_lower_hex(ch: char) -> bool {
    'a' <= ch <= 'f'
}

pub open spec fn is_hex_digit(ch: char) -> bool {
    is_digit(ch) || is_upper_hex(ch) || is_lower_hex(ch)
}

pub open spec fn is_sign(ch: char) -> bool {
    ch == '+' || ch == '-'
}

/// The character after `ch` in code order.
pub open spec fn succ(ch: char) -> char {
    ((ch as u32) + 1) as char
}

/// The character before `ch` in code order.
pub open spec fn pred(ch: char) -> char {
    ((ch as u32) - 1) as char
}

/// Text: the printable characters form one ring, the blank following the
/// tilde. Any other character stays as it is.
pub open spec fn step_text(up: bool, ch: char) -> char {
    if !is_printable(ch) {
        ch
    } else if up {
        if ch == '~' {
            ' '
        } else {
            succ(ch)
        }
    } else {
        if ch == ' ' {
            '~'
        } else {
            pred(ch)
        }
    }
}

/// Numbers: the blank and the ten digits form one ring, in that order.
/// Any other character stays as it is.
pub open spec fn step_number(up: bool, ch: char) -> char {
    if ch == ' ' {
        if up {
            '0'
        } else {
            '9'
        }
    } else if !is_digit(ch) {
        ch
    } else if up {
        if ch == '9' {
            ' '
        } else {
            succ(ch)
        }
    } else {
        if ch == '0' {
            ' '
        } else {
            pred(ch)
        }
    }
}

/// Hardware addresses: the digits and the capital letters A to F form one
/// ring. The small letters a to f step among themselves and leave at either
/// end into the digits. Any other character, the separator among them, stays
/// as it is.
pub open spec fn step_hex(up: bool, ch: char) -> char {
    if is_digit(ch) {
        if up {
            if ch == '9' {
                'A'
            } else {
                succ(ch)
            }
        } else {
            if ch == '0' {
                'F'
            } else {
                pred(ch)
            }
        }
    } else if is_upper_hex(ch) {
        if up {
            if ch == 'F' {
                '0'
            } else {
                succ(ch)
            }
        } else {
            if ch == 'A' {
                '9'
            } else {
                pred(ch)
            }
        }
    } else if is_lower_hex(ch) {
        if up {
            if ch == 'f' {
                '0'
            } else {
                succ(ch)
            }
        } else {
            if ch == 'a' {
                '9'
            } else {
                pred(ch)
            }
        }
    } else {
        ch
    }
}

/// Time-zone offsets: the ten digits form one ring; a sign turns into the
/// other sign whichever way it is stepped. Any other character stays as it
/// is.
pub open spec fn step_offset(up: bool, ch: char) -> char {
    if is_digit(ch) {
        if up {
            if ch == '9' {
                '0'
            } else {
                succ(ch)
            }
        } else {
            if ch == '0' {
                '9'
            } else {
                pred(ch)
            }
        }
    } else if ch == '-' {
        '+'
    } else if ch == '+' {
        '-'
    } else {
        ch
    }
}

/// One step from `ch` in the alphabet of `kind`: forward where `up` holds,
/// backward where it does not. Actions and selections have no alphabet.
pub open spec fn step_char(up: bool, ch: char, kind: InputTypeChar) -> char {
    match kind {
        InputTypeChar::StringType => step_text(up, ch),
        InputTypeChar::NumberType => step_number(up, ch),
        InputTypeChar::HWAddressType => step_hex(up, ch),
        InputTypeChar::TimezoneType => step_offset(up, ch),
        InputTypeChar::ActionType => ch,
        InputTypeChar::SelectType => ch,
    }
}

/// `n` steps from `ch`, all in one direction.
pub open spec fn step_char_n(up: bool, ch: char, kind: InputTypeChar, n: nat) -> char
    decreases n,
{
    if n == 0 {
        ch
    } else {
        step_char(up, step_char_n(up, ch, kind, (n - 1) as nat), kind)
    }
}

/// How many symbols the ring of `kind` has; 0 where `kind` has no ring.
pub open spec fn ring_size(kind: InputTypeChar) -> int {
    match kind {
        InputTypeChar::StringType => 95,
        InputTypeChar::NumberType => 11,
        InputTypeChar::HWAddressType => 16,
        InputTypeChar::TimezoneType => 10,
        InputTypeChar::ActionType => 0,
        InputTypeChar::SelectType => 0,
    }
}

/// Whether `ch` lies on the ring of `kind`.
pub open spec fn on_ring(ch: char, kind: InputTypeChar) -> bool {
    match kind {
        InputTypeChar::StringType => is_printable(ch),
        InputTypeChar::NumberType => ch == ' ' || is_digit(ch),
        InputTypeChar::HWAddressType => is_digit(ch) || is_upper_hex(ch),
        InputTypeChar::TimezoneType => is_digit(ch),
        InputTypeChar::ActionType => false,
        InputTypeChar::SelectType => false,
    }
}

/// The place of `ch` on the ring of `kind`, counted from 0.
pub open spec fn ring_rank(ch: char, kind: InputTypeChar) -> int {
    match kind {
        InputTypeChar::StringType => ch as int - ' ' as int,
        InputTypeChar::NumberType => if ch == ' ' {
            0
        } else {
            ch as int - '0' as int + 1
        },
        InputTypeChar::HWAddressType => if is_digit(ch) {
            ch as int - '0' as int
        } else {
            ch as int - 'A' as int + 10
        },
        InputTypeChar::TimezoneType => ch as int - '0' as int,
        InputTypeChar::ActionType => 0,
        InputTypeChar::SelectType => 0,
    }
}

/// The place reached from place `r` by `n` steps on a ring of `size`.
pub open spec fn ring_walk(r: int, n: int, up: bool, size: int) -> int {
    if up {
        (r + n) % size
    } else {
        (r - n) % size
    }
}

/// On its ring a character steps to the symbol one place further.
pub proof fn lemma_step_on_ring(up: bool, ch: char, kind: InputTypeChar)
    requires
        on_ring(ch, kind),
    ensures
        on_ring(step_char(up, ch, kind), kind),
        ring_rank(step_char(up, ch, kind), kind) == ring_walk(
            ring_rank(ch, kind),
            1,
            up,
            ring_size(kind),
        ),
{
}

/// Walking `n - 1` places and then one more is walking `n` places.
proof fn lemma_walk_one_more(r: int, n: int, up: bool, size: int)
    requires
        size > 1,
    ensures
        ring_walk(ring_walk(r, n - 1, up, size), 1, up, size) == ring_walk(r, n, up, size),
{
    lemma_small_mod(1, size as nat);
    if up {
        lemma_add_mod_noop(r + n - 1, 1, size);
        lemma_mod_twice(r + n - 1, size);
    } else {
        lemma_sub_mod_noop(r - (n - 1), 1, size);
        lemma_mod_twice(r - (n - 1), size);
    }
}

/// Walking once round the ring leads back to the start.
proof fn lemma_walk_full_turn(r: int, up: bool, size: int)
    requires
        size > 1,
        0 <= r < size,
    ensures
        ring_walk(r, size, up, size) == r,
{
    lemma_small_mod(r as nat, size as nat);
    if up {
        lemma_mod_multiples_vanish(1, r, size);
    } else {
        lemma_mod_multiples_vanish(-1, r, size);
    }
}

/// On its ring a character is carried `n` places by `n` steps.
pub proof fn lemma_steps_on_ring(up: bool, ch: char, kind: InputTypeChar, n: nat)
    requires
        on_ring(ch, kind),
    ensures
        on_ring(step_char_n(up, ch, kind, n), kind),
        ring_rank(step_char_n(up, ch, kind, n), kind) == ring_walk(
            ring_rank(ch, kind),
            n as int,
            up,
            ring_size(kind),
        ),
    decreases n,
{
    if n > 0 {
        let before = step_char_n(up, ch, kind, (n - 1) as nat);
        lemma_steps_on_ring(up, ch, kind, (n - 1) as nat);
        lemma_step_on_ring(up, before, kind);
        lemma_walk_one_more(ring_rank(ch, kind), n as int, up, ring_size(kind));
    } else {
        lemma_small_mod(ring_rank(ch, kind) as nat, ring_size(kind) as nat);
    }
}

/// A character that a step leaves alone is left alone by any number of
/// steps.
pub proof fn lemma_steps_at_rest(up: bool, ch: char, kind: InputTypeChar, n: nat)
    requires
        step_char(up, ch, kind) == ch,
    ensures
        step_char_n(up, ch, kind, n) == ch,
    decreases n,
{
    if n > 0 {
        lemma_steps_at_rest(up, ch, kind, (n - 1) as nat);
    }
}

/// A full turn of the ring: as many steps as the ring of `kind` has symbols
/// lead from a symbol of the ring back to it.
pub proof fn lemma_full_turn(up: bool, ch: char, kind: InputTypeChar)
    requires
        on_ring(ch, kind),
    ensures
        step_char_n(up, ch, kind, ring_size(kind) as nat) == ch,
{
    lemma_steps_on_ring(up, ch, kind, ring_size(kind) as nat);
    lemma_walk_full_turn(ring_rank(ch, kind), up, ring_size(kind));
}

/// Stepping a character of a text field 95 times in one direction gives the
/// character back.
pub proof fn text_ring_closes(up: bool, ch: char)
    ensures
        step_char_n(up, ch, InputTypeChar::StringType, 95) == ch,
{
    if is_printable(ch) {
        lemma_full_turn(up, ch, InputTypeChar::StringType);
    } else {
        lemma_steps_at_rest(up, ch, InputTypeChar::StringType, 95);
    }
}

/// Stepping a character of a number field 11 times in one direction gives
/// the character back.
pub proof fn number_ring_closes(up: bool, ch: char)
    ensures
        step_char_n(up, ch, InputTypeChar::NumberType, 11) == ch,
{
    if on_ring(ch, InputTypeChar::NumberType) {
        lemma_full_turn(up, ch, InputTypeChar::NumberType);
    } else {
        lemma_steps_at_rest(up, ch, InputTypeChar::NumberType, 11);
    }
}

/// An even number of steps leaves a sign as it is.
proof fn lemma_sign_steps(up: bool, ch: char, n: nat)
    requires
        is_sign(ch),
    ensures
        is_sign(step_char_n(up, ch, InputTypeChar::TimezoneType, n)),
        n % 2 == 0 ==> step_char_n(up, ch, InputTypeChar::TimezoneType, n) == ch,
        n % 2 == 1 ==> step_char_n(up, ch, InputTypeChar::TimezoneType, n) != ch,
    decreases n,
{
    if n > 0 {
        lemma_sign_steps(up, ch, (n - 1) as nat);
    }
}

/// Stepping a character of a time-zone field 10 times in one direction
/// gives the character back: a digit has gone once round its ring, a sign
/// has turned an even number of times.
pub proof fn offset_ring_closes(up: bool, ch: char)
    ensures
        step_char_n(up, ch, InputTypeChar::TimezoneType, 10) == ch,
{
    if is_digit(ch) {
        lemma_full_turn(up, ch, InputTypeChar::TimezoneType);
    } else if is_sign(ch) {
        lemma_sign_steps(up, ch, 10);
    } else {
        lemma_steps_at_rest(up, ch, InputTypeChar::TimezoneType, 10);
    }
}

/// Stepping a digit or a capital hexadecimal letter of a hardware address
/// 16 times in one direction gives the character back; so does stepping any
/// character that is no hexadecimal digit.
pub proof fn hex_ring_closes(up: bool, ch: char)
    requires
        !is_lower_hex(ch),
    ensures
        step_char_n(up, ch, InputTypeChar::HWAddressType, 16) == ch,
{
    if on_ring(ch, InputTypeChar::HWAddressType) {
        lemma_full_turn(up, ch, InputTypeChar::HWAddressType);
    } else {
        lemma_steps_at_rest(up, ch, InputTypeChar::HWAddressType, 16);
    }
}

/// A character of a hardware address that is no hexadecimal digit, such as
/// the separator, is still itself after 22 steps.
pub proof fn hex_rest_after_22(up: bool, ch: char)
    requires
        !is_hex_digit(ch),
    ensures
        step_char_n(up, ch, InputTypeChar::HWAddressType, 22) == ch,
{
    lemma_steps_at_rest(up, ch, InputTypeChar::HWAddressType, 22);
}

/// No step turns a character into a separator or a separator into anything
/// else.
pub proof fn separator_is_fixed(up: bool, ch: char)
    ensures
        (step_char(up, ch, InputTypeChar::HWAddressType) == ':') == (ch == ':'),
{
}

/// The character one step from `ch` in the alphabet of `kind`.
pub fn step(up: bool, ch: char, kind: InputTypeChar) -> (r: char)
    ensures
        r == step_char(up, ch, kind),
{
    match kind {
        InputTypeChar::StringType => {
            if ch < ' ' || ch > '~' {
                ch
            } else if up {
                if ch == '~' {
                    ' '
                } else {
                    next_code(ch)
                }
            } else {
                if ch == ' ' {
                    '~'
                } else {
                    prev_code(ch)
                }
            }
        },
        InputTypeChar::NumberType => {
            if ch == ' ' {
                if up {
                    '0'
                } else {
                    '9'
                }
            } else if ch < '0' || ch > '9' {
                ch
            } else if up {
                if ch == '9' {
                    ' '
                } else {
                    next_code(ch)
                }
            } else {
                if ch == '0' {
                    ' '
                } else {
                    prev_code(ch)
                }
            }
        },
        InputTypeChar::HWAddressType => {
            match ch {
                '0'..='9' => {
                    if up {
                        if ch == '9' {
                            'A'
                        } else {
                            next_code(ch)
                        }
                    } else {
                        if ch == '0' {
                            'F'
                        } else {
                            prev_code(ch)
                        }
                    }
                },
                'A'..='F' => {
                    if up {
                        if ch == 'F' {
                            '0'
                        } else {
                            next_code(ch)
                        }
                    } else {
                        if ch == 'A' {
                            '9'
                        } else {
                            prev_code(ch)
                        }
                    }
                },
                'a'..='f' => {
                    if up {
                        if ch == 'f' {
                            '0'
                        } else {
                            next_code(ch)
                        }
                    } else {
                        if ch == 'a' {
                            '9'
                        } else {
                            prev_code(ch)
                        }
                    }
                },
                _ => ch,
            }
        },
        InputTypeChar::TimezoneType => {
            match ch {
                '0'..='9' => {
                    if up {
                        if ch == '9' {
                            '0'
                        } else {
                            next_code(ch)
                        }
                    } else {
                        if ch == '0' {
                            '9'
                        } else {
                            prev_code(ch)
                        }
                    }
                },
                '-' => '+',
                '+' => '-',
                _ => ch,
            }
        },
        InputTypeChar::ActionType => ch,
        InputTypeChar::SelectType => ch,
    }
}

/// The character after the printable character `ch`.
fn next_code(ch: char) -> (r: char)
    requires
        ' ' <= ch < '~',
    ensures
        r == succ(ch),
{
    let code: u8 = ch as u8;
    (code + 1) as char
}

/// The character before the printable character `ch`.
fn prev_code(ch: char) -> (r: char)
    requires
        ' ' < ch <= '~',
    ensures
        r == pred(ch),
{
    let code: u8 = ch as u8;
    (code - 1) as char
}

} // verus!
