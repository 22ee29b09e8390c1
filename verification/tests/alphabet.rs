use wakepcbox::alphabet::step;
use wakepcbox::ui::{InputTypeChar, MenuTable};

fn steps(up: bool, ch: char, kind: InputTypeChar, n: usize) -> char {
    let mut c = ch;
    for _ in 0..n {
        c = step(up, c, kind);
    }
    c
}

#[test]
fn text_ring_wraps_at_both_ends() {
    assert_eq!(step(true, '~', InputTypeChar::StringType), ' ');
    assert_eq!(step(false, ' ', InputTypeChar::StringType), '~');
    assert_eq!(step(true, 'a', InputTypeChar::StringType), 'b');
    assert_eq!(step(false, 'b', InputTypeChar::StringType), 'a');
    assert_eq!(step(true, ' ', InputTypeChar::StringType), '!');
    assert_eq!(step(false, '~', InputTypeChar::StringType), '}');
}

#[test]
fn text_leaves_unprintable_characters_alone() {
    assert_eq!(step(true, '\n', InputTypeChar::StringType), '\n');
    assert_eq!(step(false, '\u{7f}', InputTypeChar::StringType), '\u{7f}');
    assert_eq!(step(true, 'é', InputTypeChar::StringType), 'é');
}

#[test]
fn text_ring_closes_after_95_steps() {
    for code in 0x20u8..=0x7e {
        let ch = code as char;
        assert_eq!(steps(true, ch, InputTypeChar::StringType, 95), ch);
        assert_eq!(steps(false, ch, InputTypeChar::StringType, 95), ch);
        assert_ne!(steps(true, ch, InputTypeChar::StringType, 94), ch);
    }
}

#[test]
fn number_ring_runs_blank_then_digits() {
    assert_eq!(step(true, ' ', InputTypeChar::NumberType), '0');
    assert_eq!(step(true, '0', InputTypeChar::NumberType), '1');
    assert_eq!(step(true, '8', InputTypeChar::NumberType), '9');
    assert_eq!(step(true, '9', InputTypeChar::NumberType), ' ');
    assert_eq!(step(false, ' ', InputTypeChar::NumberType), '9');
    assert_eq!(step(false, '0', InputTypeChar::NumberType), ' ');
    assert_eq!(step(false, '5', InputTypeChar::NumberType), '4');
    assert_eq!(step(true, 'x', InputTypeChar::NumberType), 'x');
}

#[test]
fn number_ring_closes_after_11_steps() {
    for ch in " 0123456789".chars() {
        assert_eq!(steps(true, ch, InputTypeChar::NumberType, 11), ch);
        assert_eq!(steps(false, ch, InputTypeChar::NumberType, 11), ch);
        assert_ne!(steps(true, ch, InputTypeChar::NumberType, 10), ch);
    }
}

#[test]
fn hex_ring_wraps_between_digits_and_letters() {
    assert_eq!(step(true, '9', InputTypeChar::HWAddressType), 'A');
    assert_eq!(step(true, 'F', InputTypeChar::HWAddressType), '0');
    assert_eq!(step(false, '0', InputTypeChar::HWAddressType), 'F');
    assert_eq!(step(false, 'A', InputTypeChar::HWAddressType), '9');
    assert_eq!(step(true, '3', InputTypeChar::HWAddressType), '4');
    assert_eq!(step(true, 'B', InputTypeChar::HWAddressType), 'C');
    assert_eq!(step(false, 'E', InputTypeChar::HWAddressType), 'D');
}

#[test]
fn hex_small_letters_step_in_their_case() {
    assert_eq!(step(true, 'a', InputTypeChar::HWAddressType), 'b');
    assert_eq!(step(true, 'f', InputTypeChar::HWAddressType), '0');
    assert_eq!(step(false, 'a', InputTypeChar::HWAddressType), '9');
    assert_eq!(step(false, 'c', InputTypeChar::HWAddressType), 'b');
}

#[test]
fn hex_ring_closes_after_16_steps() {
    for ch in "0123456789ABCDEF".chars() {
        assert_eq!(steps(true, ch, InputTypeChar::HWAddressType, 16), ch);
        assert_eq!(steps(false, ch, InputTypeChar::HWAddressType, 16), ch);
        assert_ne!(steps(true, ch, InputTypeChar::HWAddressType, 15), ch);
    }
}

#[test]
fn hex_digit_is_elsewhere_after_22_steps() {
    assert_eq!(steps(true, '0', InputTypeChar::HWAddressType, 22), '6');
    assert_eq!(steps(true, 'a', InputTypeChar::HWAddressType, 22), '0');
}

#[test]
fn separator_never_steps() {
    assert_eq!(step(true, ':', InputTypeChar::HWAddressType), ':');
    assert_eq!(step(false, ':', InputTypeChar::HWAddressType), ':');
    assert_eq!(steps(true, ':', InputTypeChar::HWAddressType, 22), ':');
    assert_eq!(step(true, ' ', InputTypeChar::HWAddressType), ' ');
    assert_eq!(step(true, 'g', InputTypeChar::HWAddressType), 'g');
}

#[test]
fn offset_digits_form_a_ring_of_ten() {
    assert_eq!(step(true, '9', InputTypeChar::TimezoneType), '0');
    assert_eq!(step(false, '0', InputTypeChar::TimezoneType), '9');
    assert_eq!(step(true, '4', InputTypeChar::TimezoneType), '5');
    for ch in "0123456789".chars() {
        assert_eq!(steps(true, ch, InputTypeChar::TimezoneType, 10), ch);
        assert_eq!(steps(false, ch, InputTypeChar::TimezoneType, 10), ch);
    }
}

#[test]
fn offset_sign_turns_over_either_way() {
    assert_eq!(step(true, '+', InputTypeChar::TimezoneType), '-');
    assert_eq!(step(false, '+', InputTypeChar::TimezoneType), '-');
    assert_eq!(step(true, '-', InputTypeChar::TimezoneType), '+');
    assert_eq!(step(false, '-', InputTypeChar::TimezoneType), '+');
    assert_eq!(step(true, ' ', InputTypeChar::TimezoneType), ' ');
}

#[test]
fn actions_and_selections_have_no_alphabet() {
    assert_eq!(step(true, 'a', InputTypeChar::ActionType), 'a');
    assert_eq!(step(false, 'a', InputTypeChar::SelectType), 'a');
}

#[test]
fn inc_dec_char_steps_through_the_alphabet() {
    let table = MenuTable::new();
    assert_eq!(table.inc_dec_char(true, '9', InputTypeChar::NumberType), ' ');
    assert_eq!(table.inc_dec_char(false, 'h', InputTypeChar::StringType), 'g');
    assert_eq!(table.inc_dec_char(true, 'F', InputTypeChar::HWAddressType), '0');
    assert_eq!(table.inc_dec_char(true, '+', InputTypeChar::TimezoneType), '-');
}
