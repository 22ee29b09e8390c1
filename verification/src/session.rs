//! A session in the menu: what each key does.
//!
//! The user stands in the category list, in the field list of a category,
//! or in a field; inside a field the menu may be asking to confirm the edit.
//! Keys act when they come up. `after_key` says where a key leads,
//! `ends_session` and `payload` say when the session is over and what it
//! hands out; `MenuTable::handle_key_event` does it.

use vstd::prelude::*;
use crate::keyevent::{key_of_event, up_event, KeyEvent};
use crate::shape::{is_separator_position, lemma_trimmed_value_fits, well_shaped};
use crate::text::lemma_trimmed_of_tight;
use crate::ui::{
    first_index_of, lemma_first_index_of, pairs_view, wrap_step, CategoryView, FieldView,
    InputTypeChar, MenuTable, MenuView, LEVEL_CATEGORIES, LEVEL_EDIT, LEVEL_FIELDS,
};

verus! {

/// Where the Up key (backward) or the Down key (forward) leads.
///
/// In a list the selection moves one place, round the end. In a field the
/// key steps the chosen option of a selection, and otherwise the character
/// under the cursor. While the menu asks to confirm, the key does nothing.
pub open spec fn after_vertical(m: MenuView, forward: bool) -> MenuView {
    if m.level == LEVEL_CATEGORIES {
        MenuView { selected: wrap_step(m.selected, m.categories.len(), forward), ..m }
    } else if m.level == LEVEL_FIELDS {
        m.with_category(
            m.selected as int,
            CategoryView {
                selected: wrap_step(
                    m.selected_sub(),
                    m.categories[m.selected as int].fields.len(),
                    forward,
                ),
                ..m.categories[m.selected as int]
            },
        )
    } else if m.level == LEVEL_EDIT && !m.confirming_flag {
        if m.selected_field().value_type == InputTypeChar::SelectType {
            m.with_selected_field(m.selected_field().option_stepped(forward))
        } else {
            m.with_selected_field(m.selected_field().char_stepped(forward))
        }
    } else {
        m
    }
}

/// Where the Left key leads.
///
/// From the category list it ends the session, and the menu stays as it
/// is. From a field list it leads back to the category list. In a field it
/// moves the cursor one place back; with the cursor at the start it gives
/// up the edit and leads back to the field list. While the menu asks to
/// confirm, it turns the answer over.
pub open spec fn after_left(m: MenuView) -> MenuView {
    if m.level == LEVEL_FIELDS {
        MenuView { level: LEVEL_CATEGORIES as nat, ..m }
    } else if m.level == LEVEL_EDIT {
        if m.confirming_flag {
            MenuView { confirmed_flag: !m.confirmed_flag, ..m }
        } else if m.selected_field().cursor > 0 {
            m.with_selected_field(
                FieldView {
                    cursor: (m.selected_field().cursor - 1) as nat,
                    ..m.selected_field()
                },
            )
        } else {
            MenuView {
                level: LEVEL_FIELDS as nat,
                ..m.with_selected_field(m.selected_field().reverted())
            }
        }
    } else {
        m
    }
}

/// Where the Right key leads.
///
/// In a field it moves the cursor one place on; with the cursor on the
/// last character it appends a blank and moves onto it, but for a
/// selection, whose value stays one of its options. While the menu asks to
/// confirm, it turns the answer over. In the lists it does nothing.
pub open spec fn after_right(m: MenuView) -> MenuView {
    if m.level == LEVEL_EDIT {
        if m.confirming_flag {
            MenuView { confirmed_flag: !m.confirmed_flag, ..m }
        } else if m.selected_field().cursor + 1 < m.selected_field().working.len() {
            m.with_selected_field(
                FieldView { cursor: m.selected_field().cursor + 1, ..m.selected_field() },
            )
        } else if m.selected_field().value_type == InputTypeChar::SelectType {
            m
        } else {
            m.with_selected_field(m.selected_field().grown())
        }
    } else {
        m
    }
}

/// Whether the Center key accepts an edit: the menu is asking to confirm
/// and the answer is yes.
pub open spec fn accepts_edit(m: MenuView) -> bool {
    m.level == LEVEL_EDIT && m.confirming_flag && m.confirmed_flag
}

/// Whether the Center key carries out an action: it accepts the edit of an
/// action field.
pub open spec fn triggers_action(m: MenuView) -> bool {
    accepts_edit(m) && m.selected_field().value_type == InputTypeChar::ActionType
}

/// Where the Center key leads.
///
/// From the category list it leads into the field list of the selected
/// category, from there into the selected field. In a field it asks to
/// confirm the edit, with the answer no. While the menu asks, it takes the
/// answer: on yes the edit is accepted, and the key leads back to the field
/// list unless the field is an action, which ends the session; on no it
/// leads back to the field list with the edit kept as it is, uncommitted.
pub open spec fn after_center(m: MenuView) -> MenuView {
    if m.level == LEVEL_CATEGORIES {
        MenuView { level: LEVEL_FIELDS as nat, ..m }
    } else if m.level == LEVEL_FIELDS {
        MenuView { level: LEVEL_EDIT as nat, ..m }
    } else if m.level == LEVEL_EDIT {
        if !m.confirming_flag {
            MenuView { confirming_flag: true, confirmed_flag: false, ..m }
        } else if !m.confirmed_flag {
            MenuView { confirming_flag: false, level: LEVEL_FIELDS as nat, ..m }
        } else {
            MenuView {
                confirming_flag: false,
                commit_flag: true,
                level: if triggers_action(m) {
                    m.level
                } else {
                    LEVEL_FIELDS as nat
                },
                ..m.with_selected_field(m.selected_field().accepted())
            }
        }
    } else {
        m
    }
}

/// The menu after `key`. A key going down changes nothing.
pub open spec fn after_key(m: MenuView, key: KeyEvent) -> MenuView {
    match key {
        KeyEvent::UpKeyUp => after_vertical(m, false),
        KeyEvent::DownKeyUp => after_vertical(m, true),
        KeyEvent::LeftKeyUp => after_left(m),
        KeyEvent::RightKeyUp => after_right(m),
        KeyEvent::CenterKeyUp => after_center(m),
        _ => m,
    }
}

/// Whether `key` ends the session: Left in the category list, and Center
/// where it carries out an action.
pub open spec fn ends_session(m: MenuView, key: KeyEvent) -> bool {
    ||| key == KeyEvent::LeftKeyUp && m.level == LEVEL_CATEGORIES
    ||| key == KeyEvent::CenterKeyUp && triggers_action(m)
}

/// What the session hands out at `key`: the values of the menu, where the
/// key ends a session in which something was committed; nothing where the
/// session goes on or ends without a commit.
pub open spec fn payload(m: MenuView, key: KeyEvent) -> Option<Seq<(Seq<char>, Seq<char>)>> {
    if ends_session(m, key) && after_key(m, key).commit_flag {
        Some(after_key(m, key).all_values())
    } else {
        None
    }
}

/// The menu after each of `keys` in turn.
pub open spec fn after_keys(m: MenuView, keys: Seq<KeyEvent>) -> MenuView
    decreases keys.len(),
{
    if keys.len() == 0 {
        m
    } else {
        after_key(after_keys(m, keys.drop_last()), keys.last())
    }
}

/// Stepping the character under the cursor keeps a field sound.
pub proof fn char_stepped_is_sound(f: FieldView, up: bool)
    requires
        f.is_sound(),
        f.value_type != InputTypeChar::SelectType,
    ensures
        f.char_stepped(up).is_sound(),
{
}

/// Stepping the chosen option keeps a selection sound.
pub proof fn option_stepped_is_sound(f: FieldView, forward: bool)
    requires
        f.is_sound(),
        f.value_type == InputTypeChar::SelectType,
    ensures
        f.option_stepped(forward).is_sound(),
{
}

/// Appending a blank keeps a field sound, unless it is a selection.
pub proof fn grown_is_sound(f: FieldView)
    requires
        f.is_sound(),
        f.value_type != InputTypeChar::SelectType,
    ensures
        f.grown().is_sound(),
{
}

/// A value that stands among the options is found among them.
pub proof fn lemma_option_is_found(options: Seq<Seq<char>>, k: int)
    requires
        0 <= k < options.len(),
    ensures
        first_index_of(options, options[k]) <= k,
{
    lemma_first_index_of(options, options[k]);
}

/// Accepting an edit keeps a field sound.
pub proof fn accepted_is_sound(f: FieldView)
    requires
        f.is_sound(),
    ensures
        f.accepted().is_sound(),
{
    if f.value_type == InputTypeChar::SelectType {
        lemma_trimmed_of_tight(f.working);
        lemma_option_is_found(f.options, f.selected_option as int);
    } else {
        lemma_trimmed_value_fits(f.value_type, f.working);
    }
}

/// An accepted hardware address or offset is committed in its shape at
/// rest, whatever blanks had been appended to it.
pub proof fn accepted_layout_is_at_rest(f: FieldView)
    requires
        f.is_sound(),
        f.value_type == InputTypeChar::HWAddressType || f.value_type
            == InputTypeChar::TimezoneType,
    ensures
        well_shaped(f.value_type, f.accepted().committed),
{
    lemma_trimmed_value_fits(f.value_type, f.working);
}

/// Giving up an edit keeps a field sound.
pub proof fn reverted_is_sound(f: FieldView)
    requires
        f.is_sound(),
    ensures
        f.reverted().is_sound(),
{
    if f.value_type == InputTypeChar::SelectType {
        lemma_first_index_of(f.options, f.committed);
    }
}

/// Opening a session leaves a sound menu sound. It changes no field, and
/// nothing of a category but which field is selected.
pub proof fn opened_is_sound(m: MenuView)
    requires
        m.is_sound(),
    ensures
        m.opened().is_sound(),
        m.opened().categories.len() == m.categories.len(),
        forall|i: int|
            0 <= i < m.categories.len() ==> {
                &&& (#[trigger] m.opened().categories[i]).fields == m.categories[i].fields
                &&& m.opened().categories[i].title == m.categories[i].title
                &&& m.opened().categories[i].selected == 0
            },
{
    assert forall|i: int| 0 <= i < m.opened().categories.len() implies (
    #[trigger] m.opened().categories[i]).is_sound() by {
        assert(m.categories[i].is_sound());
    }
}

/// A menu that is sound is sound after any key.
pub proof fn sound_after_key(m: MenuView, key: KeyEvent)
    requires
        m.is_sound(),
    ensures
        after_key(m, key).is_sound(),
{
    if key == KeyEvent::LeftKeyUp {
        reverted_is_sound(m.selected_field());
    }
    if key == KeyEvent::CenterKeyUp {
        accepted_is_sound(m.selected_field());
    }
}

/// A menu that is sound is sound after any keys.
pub proof fn sound_after_keys(m: MenuView, keys: Seq<KeyEvent>)
    requires
        m.is_sound(),
    ensures
        after_keys(m, keys).is_sound(),
    decreases keys.len(),
{
    if keys.len() > 0 {
        sound_after_keys(m, keys.drop_last());
        sound_after_key(after_keys(m, keys.drop_last()), keys.last());
    }
}

/// A key moves the level by one step at most, and a key that ends the
/// session leaves the menu at its level.
pub proof fn level_moves_one_step(m: MenuView, key: KeyEvent)
    requires
        m.is_sound(),
    ensures
        after_key(m, key).level == m.level || after_key(m, key).level == m.level + 1
            || after_key(m, key).level + 1 == m.level,
        ends_session(m, key) ==> after_key(m, key).level == m.level,
{
}

/// No key adds, removes or renames anything: after a key the menu has the
/// same categories and fields, and each field its title, key, kind and
/// options.
pub proof fn structure_stays(m: MenuView, key: KeyEvent)
    requires
        m.is_sound(),
    ensures
        after_key(m, key).categories.len() == m.categories.len(),
        forall|i: int|
            0 <= i < m.categories.len() ==> {
                &&& (#[trigger] after_key(m, key).categories[i]).title == m.categories[i].title
                &&& after_key(m, key).categories[i].fields.len() == m.categories[i].fields.len()
            },
        forall|i: int, j: int|
            m.has_field(i, j) ==> {
                &&& (#[trigger] after_key(m, key).field(i, j)).title == m.field(i, j).title
                &&& after_key(m, key).field(i, j).key == m.field(i, j).key
                &&& after_key(m, key).field(i, j).menu_type == m.field(i, j).menu_type
                &&& after_key(m, key).field(i, j).value_type == m.field(i, j).value_type
                &&& after_key(m, key).field(i, j).options == m.field(i, j).options
            },
{
}

/// A committed value changes only where an edit is accepted, and then only
/// that of the selected field: no other key, and no navigation, touches a
/// committed value.
pub proof fn commit_only_on_accept(m: MenuView, key: KeyEvent)
    requires
        m.is_sound(),
    ensures
        forall|i: int, j: int|
            m.has_field(i, j) && (#[trigger] after_key(m, key).field(i, j)).committed != m.field(
                i,
                j,
            ).committed ==> {
                &&& key == KeyEvent::CenterKeyUp
                &&& accepts_edit(m)
                &&& i == m.selected
                &&& j == m.selected_sub()
            },
{
}

/// In the category list and in a field list no key changes a field: there
/// the keys only move the selection and the level.
pub proof fn lists_keep_fields(m: MenuView, key: KeyEvent)
    requires
        m.is_sound(),
        m.level < LEVEL_EDIT,
    ensures
        forall|i: int, j: int|
            m.has_field(i, j) ==> #[trigger] after_key(m, key).field(i, j) == m.field(i, j),
{
}

/// A key going down changes nothing and ends nothing: keys act when they
/// come up.
pub proof fn key_down_is_ignored(m: MenuView, key: KeyEvent)
    requires
        key != up_event(key_of_event(key)),
    ensures
        after_key(m, key) == m,
        !ends_session(m, key),
        payload(m, key) is None,
{
}

/// From a field list the Left key leads back to the category list and
/// changes nothing else.
pub proof fn left_leaves_field_list(m: MenuView)
    requires
        m.level == LEVEL_FIELDS,
    ensures
        after_key(m, KeyEvent::LeftKeyUp) == (MenuView { level: LEVEL_CATEGORIES as nat, ..m }),
        !ends_session(m, KeyEvent::LeftKeyUp),
{
}

/// The separators of a hardware address stand at their places whatever
/// keys have been pressed.
pub proof fn separators_stay(m: MenuView, keys: Seq<KeyEvent>, i: int, j: int, at: int)
    requires
        m.is_sound(),
        m.has_field(i, j),
        m.field(i, j).value_type == InputTypeChar::HWAddressType,
        is_separator_position(at),
    ensures
        after_keys(m, keys).has_field(i, j),
        after_keys(m, keys).field(i, j).value_type == InputTypeChar::HWAddressType,
        at < after_keys(m, keys).field(i, j).working.len(),
        after_keys(m, keys).field(i, j).working[at] == ':',
        after_keys(m, keys).field(i, j).working[at] == m.field(i, j).working[at],
    decreases keys.len(),
{
    if keys.len() > 0 {
        let before = after_keys(m, keys.drop_last());
        separators_stay(m, keys.drop_last(), i, j, at);
        sound_after_keys(m, keys.drop_last());
        sound_after_key(before, keys.last());
    }
}

/// A step of the character under the cursor of a hardware address leaves
/// each separator where it is.
pub proof fn step_keeps_separators(f: FieldView, up: bool, at: int)
    requires
        f.is_sound(),
        f.value_type == InputTypeChar::HWAddressType,
        is_separator_position(at),
    ensures
        f.char_stepped(up).working[at] == f.working[at],
        f.working[at] == ':',
{
}

/// The place one step from `i` among `n` places, round the end.
fn step_index(i: usize, n: usize, forward: bool) -> (r: usize)
    requires
        n > 0,
    ensures
        r == wrap_step(i as nat, n as nat, forward),
{
    if forward {
        if i < n - 1 {
            i + 1
        } else {
            0
        }
    } else {
        if 0 < i && i < n {
            i - 1
        } else {
            n - 1
        }
    }
}

impl MenuTable {
    /// Acts on the Up key (backward) or the Down key (forward).
    fn press_vertical(&mut self, forward: bool)
        requires
            old(self)@.is_sound(),
        ensures
            final(self)@ == after_vertical(old(self)@, forward),
    {
        let level = self.get_current_level();
        let sel = self.get_current_select();
        if level == LEVEL_CATEGORIES {
            let count = self.get_menu_item_count();
            self.set_current_select(step_index(sel, count, forward));
        } else if level == LEVEL_FIELDS {
            let sel_sub = self.get_current_select_sub(sel);
            let count = self.get_menu_count(sel);
            self.set_current_select_sub(sel, step_index(sel_sub, count, forward));
        } else if level == LEVEL_EDIT && !self.get_confirming_flag() {
            let sel_sub = self.get_current_select_sub(sel);
            if self.get_value_type(sel, sel_sub) == InputTypeChar::SelectType {
                self.step_enumerated_option(sel, sel_sub, forward);
            } else {
                self.step_character_at(sel, sel_sub, forward);
            }
        }
    }

    /// Acts on the Left key anywhere but in the category list.
    fn press_left(&mut self)
        requires
            old(self)@.is_sound(),
        ensures
            final(self)@ == after_left(old(self)@),
    {
        let level = self.get_current_level();
        let sel = self.get_current_select();
        if level == LEVEL_FIELDS {
            self.set_current_level(LEVEL_CATEGORIES);
        } else if level == LEVEL_EDIT {
            if self.get_confirming_flag() {
                let answer = self.get_confirmed_flag();
                self.set_confirmed_flag(!answer);
            } else {
                let sel_sub = self.get_current_select_sub(sel);
                let cursor = self.get_current_cursor(sel, sel_sub);
                if cursor > 0 {
                    self.set_current_cursor(sel, sel_sub, cursor - 1);
                } else {
                    self.revert_value(sel, sel_sub);
                    self.set_current_level(LEVEL_FIELDS);
                }
            }
        }
    }

    /// Acts on the Right key.
    fn press_right(&mut self)
        requires
            old(self)@.is_sound(),
        ensures
            final(self)@ == after_right(old(self)@),
    {
        if self.get_current_level() == LEVEL_EDIT {
            if self.get_confirming_flag() {
                let answer = self.get_confirmed_flag();
                self.set_confirmed_flag(!answer);
            } else {
                let sel = self.get_current_select();
                let sel_sub = self.get_current_select_sub(sel);
                let cursor = self.get_current_cursor(sel, sel_sub);
                if cursor < self.get_value_len(sel, sel_sub) - 1 {
                    self.set_current_cursor(sel, sel_sub, cursor + 1);
                } else if self.get_value_type(sel, sel_sub) != InputTypeChar::SelectType {
                    self.grow_value(sel, sel_sub);
                }
            }
        }
    }

    /// Acts on the Center key and says whether an action was carried out.
    fn press_center(&mut self) -> (action: bool)
        requires
            old(self)@.is_sound(),
        ensures
            final(self)@ == after_center(old(self)@),
            action == triggers_action(old(self)@),
    {
        let level = self.get_current_level();
        if level == LEVEL_CATEGORIES {
            self.set_current_level(LEVEL_FIELDS);
            false
        } else if level == LEVEL_FIELDS {
            self.set_current_level(LEVEL_EDIT);
            false
        } else if level == LEVEL_EDIT {
            if !self.get_confirming_flag() {
                self.set_confirming_flag(true);
                self.set_confirmed_flag(false);
                false
            } else if !self.get_confirmed_flag() {
                self.set_confirming_flag(false);
                self.set_current_level(LEVEL_FIELDS);
                false
            } else {
                let sel = self.get_current_select();
                let sel_sub = self.get_current_select_sub(sel);
                let action = self.get_value_type(sel, sel_sub) == InputTypeChar::ActionType;
                self.accept_value(sel, sel_sub);
                self.set_confirming_flag(false);
                if !action {
                    self.set_current_level(LEVEL_FIELDS);
                }
                action
            }
        } else {
            false
        }
    }

    /// Acts on one key event of a session.
    ///
    /// The menu is afterwards what `after_key` says. The first part of the
    /// result says whether the session is over. The second is what the
    /// session hands out: the pairs of key and committed value, where the
    /// session ends after a commit.
    pub fn handle_key_event(&mut self, key: KeyEvent) -> (r: (
        bool,
        Option<Vec<(String, String)>>,
    ))
        requires
            old(self)@.is_sound(),
        ensures
            final(self)@ == after_key(old(self)@, key),
            final(self)@.is_sound(),
            r.0 == ends_session(old(self)@, key),
            r.1 is Some == payload(old(self)@, key) is Some,
            r.1 matches Some(pairs) ==> payload(old(self)@, key) == Some(pairs_view(pairs@)),
    {
        proof {
            sound_after_key(self@, key);
        }
        match key {
            KeyEvent::UpKeyUp => {
                self.press_vertical(false);
                (false, None)
            },
            KeyEvent::DownKeyUp => {
                self.press_vertical(true);
                (false, None)
            },
            KeyEvent::LeftKeyUp => {
                if self.get_current_level() == LEVEL_CATEGORIES {
                    if self.get_commit_flag() {
                        (true, Some(self.get_all_values()))
                    } else {
                        (true, None)
                    }
                } else {
                    self.press_left();
                    (false, None)
                }
            },
            KeyEvent::RightKeyUp => {
                self.press_right();
                (false, None)
            },
            KeyEvent::CenterKeyUp => {
                if self.press_center() {
                    (true, Some(self.get_all_values()))
                } else {
                    (false, None)
                }
            },
            _ => (false, None),
        }
    }
}

/// How a run of keys ends: the menu after it, whether it ended the
/// session, and what the session hands out.
pub struct RunView {
    pub menu: MenuView,
    pub ended: bool,
    pub handed_out: Option<Seq<(Seq<char>, Seq<char>)>>,
}

/// The keys `keys` acted on in turn, up to and with the first that ends
/// the session; the keys after that one are not looked at.
pub open spec fn run_keys(m: MenuView, keys: Seq<KeyEvent>) -> RunView
    decreases keys.len(),
{
    if keys.len() == 0 {
        RunView { menu: m, ended: false, handed_out: None }
    } else if ends_session(m, keys[0]) {
        RunView { menu: after_key(m, keys[0]), ended: true, handed_out: payload(m, keys[0]) }
    } else {
        run_keys(after_key(m, keys[0]), keys.drop_first())
    }
}

/// A run of keys leaves a sound menu sound.
pub proof fn sound_after_run(m: MenuView, keys: Seq<KeyEvent>)
    requires
        m.is_sound(),
    ensures
        run_keys(m, keys).menu.is_sound(),
    decreases keys.len(),
{
    if keys.len() > 0 {
        sound_after_key(m, keys[0]);
        if !ends_session(m, keys[0]) {
            sound_after_run(after_key(m, keys[0]), keys.drop_first());
        }
    }
}

impl MenuTable {
    /// Acts on the key events `keys` in turn, up to and with the first
    /// that ends the session.
    pub fn handle_key_events(&mut self, keys: &Vec<KeyEvent>) -> (r: (
        bool,
        Option<Vec<(String, String)>>,
    ))
        requires
            old(self)@.is_sound(),
        ensures
            final(self)@ == run_keys(old(self)@, keys@).menu,
            final(self)@.is_sound(),
            r.0 == run_keys(old(self)@, keys@).ended,
            r.1 is Some == run_keys(old(self)@, keys@).handed_out is Some,
            r.1 matches Some(pairs) ==> run_keys(old(self)@, keys@).handed_out == Some(
                pairs_view(pairs@),
            ),
    {
        let mut i: usize = 0;
        assert(keys@.skip(0) =~= keys@);
        while i < keys.len()
            invariant
                i <= keys.len(),
                self@.is_sound(),
                run_keys(old(self)@, keys@) == run_keys(self@, keys@.skip(i as int)),
            decreases keys.len() - i,
        {
            proof {
                assert(keys@.skip(i as int).drop_first() =~= keys@.skip(i + 1));
            }
            let (ended, handed_out) = self.handle_key_event(keys[i]);
            if ended {
                return (true, handed_out);
            }
            i += 1;
        }
        (false, None)
    }
}

} // verus!
