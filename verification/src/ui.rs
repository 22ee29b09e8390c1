//! The configuration menu: a typed tree of categories and fields.
//!
//! A `MenuTable` holds categories, each with its fields. A field has a
//! committed value, which is what the menu hands out, and a working value,
//! which is what the user edits; a cursor marks the character that the next
//! step changes. The table also holds where the user stands in the menu and
//! the flags of the running session.
//!
//! Contracts speak of a table through its view, a `MenuView`.

use vstd::prelude::*;
use crate::alphabet::{step, step_char};
use crate::shape::{check_edited, check_shape, fits_while_edited, well_shaped};
use crate::text::{
    chars_of, copy_chars, editable, editable_chars, same_chars, string_of, trim_chars, trimmed,
};

verus! {

/// Whether an entry is a category of the main menu or a field below one.
#[derive(Debug, Clone, Copy, PartialEq, Eq, Structural)]
pub enum MenuType {
    MainMenu,
    SubMenu,
}

/// What kind of value a field holds, and so how its characters are edited.
#[derive(Debug, Clone, Copy, PartialEq, Eq, Structural)]
pub enum InputTypeChar {
    /// Free text of printable characters.
    StringType,
    /// A number: digits, with blanks while it is being edited.
    NumberType,
    /// A hardware address: six groups of two hexadecimal digits.
    HWAddressType,
    /// An offset from UTC in hours: a sign and two digits.
    TimezoneType,
    /// An action that is carried out once it is confirmed.
    ActionType,
    /// One of a list of options.
    SelectType,
}

/// The level of the category list.
pub const LEVEL_CATEGORIES: usize = 0;

/// The level of the field list of one category.
pub const LEVEL_FIELDS: usize = 1;

/// The level at which one field is edited.
pub const LEVEL_EDIT: usize = 2;

/// A field, as contracts see it.
pub struct FieldView {
    pub title: Seq<char>,
    /// The key under which the field's value is stored.
    pub key: Seq<char>,
    pub menu_type: MenuType,
    pub value_type: InputTypeChar,
    /// The value as it is being edited.
    pub working: Seq<char>,
    /// The value that the menu hands out.
    pub committed: Seq<char>,
    /// The place of the character that a step changes.
    pub cursor: nat,
    /// Whether the action of the field has been confirmed.
    pub action_flag: bool,
    /// The options of a selection, in order.
    pub options: Seq<Seq<char>>,
    /// The place of the chosen option among the options.
    pub selected_option: nat,
}

/// A category, as contracts see it.
pub struct CategoryView {
    pub title: Seq<char>,
    pub fields: Seq<FieldView>,
    /// The place of the selected field among the fields.
    pub selected: nat,
}

/// A menu, as contracts see it.
pub struct MenuView {
    pub categories: Seq<CategoryView>,
    /// 0 in the category list, 1 in a field list, 2 in a field.
    pub level: nat,
    /// The place of the selected category among the categories.
    pub selected: nat,
    /// Whether a value has been committed in this session.
    pub commit_flag: bool,
    /// Whether the user is being asked to confirm an edit.
    pub confirming_flag: bool,
    /// The answer that the user has chosen so far.
    pub confirmed_flag: bool,
}

/// The place one step from `i` among `n` places, round the end in either
/// direction. From a place that is not among the `n` the step leads to the
/// first place forward and to the last backward.
pub open spec fn wrap_step(i: nat, n: nat, forward: bool) -> nat {
    if forward {
        if i + 1 < n {
            i + 1
        } else {
            0
        }
    } else {
        if 0 < i < n {
            (i - 1) as nat
        } else {
            (n - 1) as nat
        }
    }
}

/// The first place at which `value` stands among `options`, or the number
/// of options where it stands nowhere.
pub open spec fn first_index_of(options: Seq<Seq<char>>, value: Seq<char>) -> nat
    decreases options.len(),
{
    if options.len() == 0 {
        0
    } else if options[0] == value {
        0
    } else {
        1 + first_index_of(options.drop_first(), value)
    }
}

/// `first_index_of` finds the first place of `value`, where there is one.
pub proof fn lemma_first_index_of(options: Seq<Seq<char>>, value: Seq<char>)
    ensures
        first_index_of(options, value) <= options.len(),
        first_index_of(options, value) < options.len() ==> options[first_index_of(
            options,
            value,
        ) as int] == value,
        forall|k: int| 0 <= k < first_index_of(options, value) ==> options[k] != value,
    decreases options.len(),
{
    if options.len() > 0 && options[0] != value {
        let rest = options.drop_first();
        lemma_first_index_of(rest, value);
        assert forall|k: int| 0 <= k < first_index_of(options, value) implies options[k]
            != value by {
            if k > 0 {
                assert(rest[k - 1] == options[k]);
            }
        }
    }
}

impl FieldView {
    /// The field with the character under its cursor stepped once in the
    /// alphabet of its kind. With the cursor past the value nothing changes.
    pub open spec fn char_stepped(self, up: bool) -> FieldView {
        if self.cursor < self.working.len() {
            FieldView {
                working: self.working.update(
                    self.cursor as int,
                    step_char(up, self.working[self.cursor as int], self.value_type),
                ),
                ..self
            }
        } else {
            self
        }
    }

    /// The field with the next option chosen, or the one before; its working
    /// value is that option, and the cursor stays within it. Without options
    /// nothing changes.
    pub open spec fn option_stepped(self, forward: bool) -> FieldView {
        if self.options.len() == 0 {
            self
        } else {
            let k = wrap_step(self.selected_option, self.options.len(), forward);
            FieldView {
                selected_option: k,
                working: self.options[k as int],
                cursor: if self.cursor < self.options[k as int].len() {
                    self.cursor
                } else if self.options[k as int].len() > 0 {
                    (self.options[k as int].len() - 1) as nat
                } else {
                    0
                },
                ..self
            }
        }
    }

    /// The field with a blank appended to its working value and the cursor
    /// moved one place on.
    pub open spec fn grown(self) -> FieldView {
        FieldView { working: self.working.push(' '), cursor: self.cursor + 1, ..self }
    }

    /// The field after its edit has been accepted: the working value,
    /// trimmed, is the committed value; the working value is the same, or a
    /// blank where nothing is left; the cursor is back at the start; an
    /// action is marked as confirmed.
    pub open spec fn accepted(self) -> FieldView {
        FieldView {
            committed: trimmed(self.working),
            working: editable(trimmed(self.working)),
            cursor: 0,
            action_flag: self.action_flag || self.value_type == InputTypeChar::ActionType,
            ..self
        }
    }

    /// The field after its edit has been given up: the working value is the
    /// committed one again, or a blank where that is empty; the cursor is at
    /// the start; a selection is back at the committed option; an action is
    /// not confirmed.
    pub open spec fn reverted(self) -> FieldView {
        FieldView {
            working: editable(self.committed),
            cursor: 0,
            action_flag: false,
            selected_option: if self.value_type == InputTypeChar::SelectType && first_index_of(
                self.options,
                self.committed,
            ) < self.options.len() {
                first_index_of(self.options, self.committed)
            } else {
                self.selected_option
            },
            ..self
        }
    }

    /// The field as it is first shown with `value`: committed and working
    /// value are `value`, the cursor is at the start, a selection stands at
    /// the first option equal to `value`, an action is not confirmed.
    pub open spec fn loaded(self, value: Seq<char>) -> FieldView {
        FieldView {
            working: value,
            committed: value,
            cursor: 0,
            action_flag: false,
            selected_option: if first_index_of(self.options, value) < self.options.len() {
                first_index_of(self.options, value)
            } else {
                0
            },
            ..self
        }
    }

    /// Whether the menu hands out the value of this field: always, but for
    /// an action, whose value is handed out once it has been confirmed.
    pub open spec fn is_reported(self) -> bool {
        self.value_type != InputTypeChar::ActionType || self.action_flag
    }
}

/// Whether `option` can be one of a selection's options: not empty and
/// without a blank at either end.
pub open spec fn option_is_tight(option: Seq<char>) -> bool {
    option.len() > 0 && option[0] != ' ' && option.last() != ' '
}

impl FieldView {
    /// Whether `value` may be loaded into this field: it has the shape of
    /// the field's kind at rest; for a selection, it is one of the options,
    /// and each option is fit to be one.
    pub open spec fn accepts(self, value: Seq<char>) -> bool {
        if self.value_type == InputTypeChar::SelectType {
            &&& first_index_of(self.options, value) < self.options.len()
            &&& forall|k: int| 0 <= k < self.options.len() ==> option_is_tight(#[trigger] self.options[k])
        } else {
            well_shaped(self.value_type, value)
        }
    }

    /// What holds of a field at all times while the menu is in use.
    ///
    /// The cursor stands on a character of the working value, which has the
    /// shape of the field's kind. The committed value can be shown again. The
    /// working value of a selection is the chosen option, and its committed
    /// value is one of the options.
    pub open spec fn is_sound(self) -> bool {
        &&& self.cursor < self.working.len()
        &&& if self.value_type == InputTypeChar::SelectType {
            &&& self.selected_option < self.options.len()
            &&& self.working == self.options[self.selected_option as int]
            &&& first_index_of(self.options, self.committed) < self.options.len()
            &&& forall|k: int| 0 <= k < self.options.len() ==> option_is_tight(#[trigger] self.options[k])
        } else {
            &&& fits_while_edited(self.value_type, self.working)
            &&& fits_while_edited(self.value_type, editable(self.committed))
        }
    }
}

impl CategoryView {
    /// What holds of a category while the menu is in use: it has a field,
    /// one of its fields is selected, and each field is sound.
    pub open spec fn is_sound(self) -> bool {
        &&& self.selected < self.fields.len()
        &&& forall|j: int| 0 <= j < self.fields.len() ==> (#[trigger] self.fields[j]).is_sound()
    }
}

impl MenuView {
    pub open spec fn has_category(self, sel: int) -> bool {
        0 <= sel < self.categories.len()
    }

    pub open spec fn has_field(self, sel: int, sel_sub: int) -> bool {
        0 <= sel < self.categories.len() && 0 <= sel_sub < self.categories[sel].fields.len()
    }

    pub open spec fn field(self, sel: int, sel_sub: int) -> FieldView {
        self.categories[sel].fields[sel_sub]
    }

    /// The menu with category `sel` replaced by `c`.
    pub open spec fn with_category(self, sel: int, c: CategoryView) -> MenuView {
        MenuView { categories: self.categories.update(sel, c), ..self }
    }

    /// The menu with field `sel_sub` of category `sel` replaced by `f`.
    pub open spec fn with_field(self, sel: int, sel_sub: int, f: FieldView) -> MenuView {
        self.with_category(
            sel,
            CategoryView {
                fields: self.categories[sel].fields.update(sel_sub, f),
                ..self.categories[sel]
            },
        )
    }

    /// The place of the field that is selected in the selected category.
    pub open spec fn selected_sub(self) -> nat {
        self.categories[self.selected as int].selected
    }

    /// The field that is selected in the selected category.
    pub open spec fn selected_field(self) -> FieldView {
        self.field(self.selected as int, self.selected_sub() as int)
    }

    /// The menu with the selected field replaced by `f`.
    pub open spec fn with_selected_field(self, f: FieldView) -> MenuView {
        self.with_field(self.selected as int, self.selected_sub() as int, f)
    }

    /// What holds of a menu at all times while it is in use.
    ///
    /// There is a category, one of the categories is selected, and each is
    /// sound. The level is one of the three, and the user is asked to confirm
    /// only inside a field.
    pub open spec fn is_sound(self) -> bool {
        &&& self.level <= LEVEL_EDIT
        &&& self.selected < self.categories.len()
        &&& forall|i: int|
            0 <= i < self.categories.len() ==> (#[trigger] self.categories[i]).is_sound()
        &&& self.confirming_flag ==> self.level == LEVEL_EDIT
    }

    /// The menu as a session finds it when it opens: at the category list,
    /// with the first category selected and in each category its first
    /// field, and with no flag set. The fields are as they were.
    pub open spec fn opened(self) -> MenuView {
        MenuView {
            categories: Seq::new(
                self.categories.len(),
                |i: int| CategoryView { selected: 0, ..self.categories[i] },
            ),
            level: 0,
            selected: 0,
            commit_flag: false,
            confirming_flag: false,
            confirmed_flag: false,
        }
    }

    /// The pairs of key and committed value that the menu hands out, in the
    /// order of the categories and fields.
    pub open spec fn all_values(self) -> Seq<(Seq<char>, Seq<char>)> {
        category_pairs(self.categories)
    }
}

/// The pairs that `fields` hand out, in order: one of each reported field.
pub open spec fn field_pairs(fields: Seq<FieldView>) -> Seq<(Seq<char>, Seq<char>)>
    decreases fields.len(),
{
    if fields.len() == 0 {
        Seq::empty()
    } else if fields.last().is_reported() {
        field_pairs(fields.drop_last()).push((fields.last().key, fields.last().committed))
    } else {
        field_pairs(fields.drop_last())
    }
}

/// The pairs that `categories` hand out, in order.
pub open spec fn category_pairs(categories: Seq<CategoryView>) -> Seq<(Seq<char>, Seq<char>)>
    decreases categories.len(),
{
    if categories.len() == 0 {
        Seq::empty()
    } else {
        category_pairs(categories.drop_last()) + field_pairs(categories.last().fields)
    }
}

/// Pairs of strings as pairs of character sequences.
pub open spec fn pairs_view(pairs: Seq<(String, String)>) -> Seq<(Seq<char>, Seq<char>)> {
    Seq::new(pairs.len(), |i: int| (pairs[i].0@, pairs[i].1@))
}

/// Strings as character sequences.
pub open spec fn strings_view(strings: Seq<String>) -> Seq<Seq<char>> {
    Seq::new(strings.len(), |i: int| strings[i]@)
}

/// A field of the menu.
#[derive(Debug, Clone)]
pub struct MenuInfo {
    title: String,
    key: String,
    current_value: Vec<char>,
    set_value: Vec<char>,
    menu_type: MenuType,
    value_type: InputTypeChar,
    cursor: usize,
    action_flag: bool,
    select_item: Vec<String>,
    current_select_item: usize,
}

/// A category of the menu.
#[derive(Debug, Clone)]
pub struct MenuItem {
    title: String,
    menu: Vec<MenuInfo>,
    current_select: usize,
}

/// The menu.
#[derive(Debug, Clone)]
pub struct MenuTable {
    menu_item: Vec<MenuItem>,
    current_level: usize,
    current_select: usize,
    commit_flag: bool,
    confirming_flag: bool,
    confirmed_flag: bool,
}

impl View for MenuInfo {
    type V = FieldView;

    closed spec fn view(&self) -> FieldView {
        FieldView {
            title: self.title@,
            key: self.key@,
            menu_type: self.menu_type,
            value_type: self.value_type,
            working: self.current_value@,
            committed: self.set_value@,
            cursor: self.cursor as nat,
            action_flag: self.action_flag,
            options: strings_view(self.select_item@),
            selected_option: self.current_select_item as nat,
        }
    }
}

impl View for MenuItem {
    type V = CategoryView;

    closed spec fn view(&self) -> CategoryView {
        CategoryView {
            title: self.title@,
            fields: Seq::new(self.menu.len() as nat, |j: int| self.menu[j]@),
            selected: self.current_select as nat,
        }
    }
}

impl View for MenuTable {
    type V = MenuView;

    closed spec fn view(&self) -> MenuView {
        MenuView {
            categories: Seq::new(self.menu_item.len() as nat, |i: int| self.menu_item[i]@),
            level: self.current_level as nat,
            selected: self.current_select as nat,
            commit_flag: self.commit_flag,
            confirming_flag: self.confirming_flag,
            confirmed_flag: self.confirmed_flag,
        }
    }
}

/// A copy of `strings`.
fn copy_strings(strings: &Vec<String>) -> (r: Vec<String>)
    ensures
        strings_view(r@) == strings_view(strings@),
{
    let mut r: Vec<String> = Vec::new();
    let mut i: usize = 0;
    while i < strings.len()
        invariant
            i <= strings.len(),
            r.len() == i,
            forall|k: int| 0 <= k < i ==> r@[k]@ == strings@[k]@,
        decreases strings.len() - i,
    {
        r.push(strings[i].clone());
        i += 1;
    }
    r
}

impl MenuInfo {
    /// A copy of the field.
    pub fn duplicate(&self) -> (r: MenuInfo)
        ensures
            r@ == self@,
    {
        MenuInfo {
            title: self.title.clone(),
            key: self.key.clone(),
            current_value: copy_chars(&self.current_value),
            set_value: copy_chars(&self.set_value),
            menu_type: self.menu_type,
            value_type: self.value_type,
            cursor: self.cursor,
            action_flag: self.action_flag,
            select_item: copy_strings(&self.select_item),
            current_select_item: self.current_select_item,
        }
    }
}

/// A copy of `fields`.
fn copy_fields(fields: &Vec<MenuInfo>) -> (r: Vec<MenuInfo>)
    ensures
        r.len() == fields.len(),
        forall|j: int| 0 <= j < fields.len() ==> r@[j]@ == fields@[j]@,
{
    let mut r: Vec<MenuInfo> = Vec::new();
    let mut j: usize = 0;
    while j < fields.len()
        invariant
            j <= fields.len(),
            r.len() == j,
            forall|k: int| 0 <= k < j ==> r@[k]@ == fields@[k]@,
        decreases fields.len() - j,
    {
        r.push(fields[j].duplicate());
        j += 1;
    }
    r
}

impl MenuItem {
    /// A copy of the category.
    pub fn duplicate(&self) -> (r: MenuItem)
        ensures
            r@ == self@,
    {
        let r = MenuItem {
            title: self.title.clone(),
            menu: copy_fields(&self.menu),
            current_select: self.current_select,
        };
        assert(r@.fields =~= self@.fields);
        r
    }
}

/// What a change to one field of a table does to the table's view.
proof fn lemma_field_changed(before: MenuTable, after: MenuTable, sel: int, sel_sub: int)
    requires
        before@.has_field(sel, sel_sub),
        after.menu_item.len() == before.menu_item.len(),
        forall|i: int|
            0 <= i < before.menu_item.len() && i != sel ==> after.menu_item[i]
                == before.menu_item[i],
        after.menu_item[sel].title == before.menu_item[sel].title,
        after.menu_item[sel].current_select == before.menu_item[sel].current_select,
        after.menu_item[sel].menu.len() == before.menu_item[sel].menu.len(),
        forall|j: int|
            0 <= j < before.menu_item[sel].menu.len() && j != sel_sub
                ==> after.menu_item[sel].menu[j] == before.menu_item[sel].menu[j],
        after.current_level == before.current_level,
        after.current_select == before.current_select,
        after.commit_flag == before.commit_flag,
        after.confirming_flag == before.confirming_flag,
        after.confirmed_flag == before.confirmed_flag,
    ensures
        after@ == before@.with_field(sel, sel_sub, after.menu_item[sel].menu[sel_sub]@),
{
    let f = after.menu_item[sel].menu[sel_sub]@;
    assert(after@.categories[sel].fields =~= before@.categories[sel].fields.update(sel_sub, f));
    assert(after@.categories =~= before@.with_field(sel, sel_sub, f).categories);
}

/// What a change to one category of a table, its fields apart, does to the
/// table's view.
proof fn lemma_category_changed(before: MenuTable, after: MenuTable, sel: int)
    requires
        before@.has_category(sel),
        after.menu_item.len() == before.menu_item.len(),
        forall|i: int|
            0 <= i < before.menu_item.len() && i != sel ==> after.menu_item[i]
                == before.menu_item[i],
        after.current_level == before.current_level,
        after.current_select == before.current_select,
        after.commit_flag == before.commit_flag,
        after.confirming_flag == before.confirming_flag,
        after.confirmed_flag == before.confirmed_flag,
    ensures
        after@ == before@.with_category(sel, after.menu_item[sel]@),
{
    assert(after@.categories =~= before@.categories.update(sel, after.menu_item[sel]@));
}

impl MenuTable {
    /// An empty menu, at the category list, with no session flag set.
    pub fn new() -> (r: Self)
        ensures
            r@ == (MenuView {
                categories: Seq::empty(),
                level: 0,
                selected: 0,
                commit_flag: false,
                confirming_flag: false,
                confirmed_flag: false,
            }),
    {
        let r = MenuTable {
            menu_item: Vec::new(),
            current_level: 0,
            current_select: 0,
            commit_flag: false,
            confirming_flag: false,
            confirmed_flag: false,
        };
        assert(r@.categories =~= Seq::empty());
        r
    }

    /// Appends a category without fields.
    pub fn add_menu_item(&mut self, title: &str)
        ensures
            final(self)@ == (MenuView {
                categories: old(self)@.categories.push(
                    CategoryView { title: title@, fields: Seq::empty(), selected: 0 },
                ),
                ..old(self)@
            }),
    {
        let item = MenuItem { title: title.to_owned(), menu: Vec::new(), current_select: 0 };
        assert(item@.fields =~= Seq::empty());
        self.menu_item.push(item);
        assert(self@.categories =~= old(self)@.categories.push(item@));
    }

    /// Appends a field to category `sel`. Its committed and working value
    /// are `value`, its cursor is at the start, and the first option counts
    /// as chosen.
    pub fn add_menu(
        &mut self,
        sel: usize,
        title: &str,
        key: &str,
        menu_type: MenuType,
        value: &str,
        value_type: InputTypeChar,
        select_item: Vec<String>,
    )
        requires
            old(self)@.has_category(sel as int),
        ensures
            final(self)@ == old(self)@.with_category(
                sel as int,
                CategoryView {
                    fields: old(self)@.categories[sel as int].fields.push(
                        FieldView {
                            title: title@,
                            key: key@,
                            menu_type,
                            value_type,
                            working: value@,
                            committed: value@,
                            cursor: 0,
                            action_flag: false,
                            options: strings_view(select_item@),
                            selected_option: 0,
                        },
                    ),
                    ..old(self)@.categories[sel as int]
                },
            ),
    {
        let info = MenuInfo {
            title: title.to_owned(),
            key: key.to_owned(),
            current_value: chars_of(value),
            set_value: chars_of(value),
            menu_type,
            value_type,
            cursor: 0,
            action_flag: false,
            select_item,
            current_select_item: 0,
        };
        self.menu_item[sel].menu.push(info);
        proof {
            assert(self.menu_item[sel as int]@.fields =~= old(self)@.categories[sel as int].fields.push(
                info@,
            ));
            lemma_category_changed(*old(self), *self, sel as int);
        }
    }

    /// Opens a session: back to the category list, with the first category
    /// selected and in each category its first field, and with no session
    /// flag set. No field changes.
    pub fn reset_menu(&mut self)
        ensures
            final(self)@ == old(self)@.opened(),
    {
        let mut i: usize = 0;
        while i < self.menu_item.len()
            invariant
                i <= self.menu_item.len(),
                self.menu_item.len() == old(self).menu_item.len(),
                forall|k: int|
                    0 <= k < i ==> (#[trigger] self.menu_item[k])@ == (CategoryView {
                        selected: 0,
                        ..old(self).menu_item[k]@
                    }),
                forall|k: int|
                    i <= k < self.menu_item.len() ==> #[trigger] self.menu_item[k] == old(
                        self,
                    ).menu_item[k],
            decreases self.menu_item.len() - i,
        {
            self.menu_item[i].current_select = 0;
            assert(self.menu_item[i as int]@.fields =~= old(self).menu_item[i as int]@.fields);
            i += 1;
        }
        self.current_level = 0;
        self.current_select = 0;
        self.commit_flag = false;
        self.confirming_flag = false;
        self.confirmed_flag = false;
        assert(self@.categories =~= old(self)@.opened().categories);
    }

    /// Copies of the categories, in order.
    pub fn get_menu_item_list(&self) -> (r: Vec<MenuItem>)
        ensures
            r.len() == self@.categories.len(),
            forall|i: int| 0 <= i < r.len() ==> r@[i]@ == self@.categories[i],
    {
        let mut r: Vec<MenuItem> = Vec::new();
        let mut i: usize = 0;
        while i < self.menu_item.len()
            invariant
                i <= self.menu_item.len(),
                r.len() == i,
                forall|k: int| 0 <= k < i ==> r@[k]@ == self.menu_item@[k]@,
            decreases self.menu_item.len() - i,
        {
            r.push(self.menu_item[i].duplicate());
            i += 1;
        }
        r
    }

    /// Copies of the fields of category `sel`, in order.
    pub fn get_menu_list(&self, sel: usize) -> (r: Vec<MenuInfo>)
        requires
            self@.has_category(sel as int),
        ensures
            r.len() == self@.categories[sel as int].fields.len(),
            forall|j: int| 0 <= j < r.len() ==> r@[j]@ == self@.categories[sel as int].fields[j],
    {
        copy_fields(&self.menu_item[sel].menu)
    }

    /// The number of categories.
    pub fn get_menu_item_count(&self) -> (r: usize)
        ensures
            r == self@.categories.len(),
    {
        self.menu_item.len()
    }

    /// The number of fields of category `sel`.
    pub fn get_menu_count(&self, sel: usize) -> (r: usize)
        requires
            self@.has_category(sel as int),
        ensures
            r == self@.categories[sel as int].fields.len(),
    {
        self.menu_item[sel].menu.len()
    }

    pub fn get_menu_item_title(&self, sel: usize) -> (r: String)
        requires
            self@.has_category(sel as int),
        ensures
            r@ == self@.categories[sel as int].title,
    {
        self.menu_item[sel].title.clone()
    }

    pub fn get_menu_title(&self, sel: usize, sel_sub: usize) -> (r: String)
        requires
            self@.has_field(sel as int, sel_sub as int),
        ensures
            r@ == self@.field(sel as int, sel_sub as int).title,
    {
        self.menu_item[sel].menu[sel_sub].title.clone()
    }

    pub fn get_menu_key(&self, sel: usize, sel_sub: usize) -> (r: String)
        requires
            self@.has_field(sel as int, sel_sub as int),
        ensures
            r@ == self@.field(sel as int, sel_sub as int).key,
    {
        self.menu_item[sel].menu[sel_sub].key.clone()
    }

    /// The working value of the field.
    pub fn get_value(&self, sel: usize, sel_sub: usize) -> (r: String)
        requires
            self@.has_field(sel as int, sel_sub as int),
        ensures
            r@ == self@.field(sel as int, sel_sub as int).working,
    {
        string_of(&self.menu_item[sel].menu[sel_sub].current_value)
    }

    /// The committed value of the field.
    pub fn get_committed_value(&self, sel: usize, sel_sub: usize) -> (r: String)
        requires
            self@.has_field(sel as int, sel_sub as int),
        ensures
            r@ == self@.field(sel as int, sel_sub as int).committed,
    {
        string_of(&self.menu_item[sel].menu[sel_sub].set_value)
    }

    /// The number of characters of the working value of the field.
    pub fn get_value_len(&self, sel: usize, sel_sub: usize) -> (r: usize)
        requires
            self@.has_field(sel as int, sel_sub as int),
        ensures
            r == self@.field(sel as int, sel_sub as int).working.len(),
    {
        self.menu_item[sel].menu[sel_sub].current_value.len()
    }

    /// Replaces the working value of the field.
    pub fn set_value(&mut self, sel: usize, sel_sub: usize, value: &str)
        requires
            old(self)@.has_field(sel as int, sel_sub as int),
        ensures
            final(self)@ == old(self)@.with_field(
                sel as int,
                sel_sub as int,
                FieldView { working: value@, ..old(self)@.field(sel as int, sel_sub as int) },
            ),
    {
        self.menu_item[sel].menu[sel_sub].current_value = chars_of(value);
        proof {
            lemma_field_changed(*old(self), *self, sel as int, sel_sub as int);
        }
    }

    /// Commits the field: its working value becomes its committed value,
    /// and the session is marked as having a commit.
    pub fn commit_value(&mut self, sel: usize, sel_sub: usize)
        requires
            old(self)@.has_field(sel as int, sel_sub as int),
        ensures
            final(self)@ == (MenuView {
                commit_flag: true,
                ..old(self)@.with_field(
                    sel as int,
                    sel_sub as int,
                    FieldView {
                        committed: old(self)@.field(sel as int, sel_sub as int).working,
                        ..old(self)@.field(sel as int, sel_sub as int)
                    },
                )
            }),
    {
        let value = copy_chars(&self.menu_item[sel].menu[sel_sub].current_value);
        self.menu_item[sel].menu[sel_sub].set_value = value;
        proof {
            lemma_field_changed(*old(self), *self, sel as int, sel_sub as int);
        }
        self.commit_flag = true;
    }

    pub fn get_commit_flag(&self) -> (r: bool)
        ensures
            r == self@.commit_flag,
    {
        self.commit_flag
    }

    /// Gives up the edit of the field: its committed value becomes its
    /// working value.
    pub fn cancel_value(&mut self, sel: usize, sel_sub: usize)
        requires
            old(self)@.has_field(sel as int, sel_sub as int),
        ensures
            final(self)@ == old(self)@.with_field(
                sel as int,
                sel_sub as int,
                FieldView {
                    working: old(self)@.field(sel as int, sel_sub as int).committed,
                    ..old(self)@.field(sel as int, sel_sub as int)
                },
            ),
    {
        let value = copy_chars(&self.menu_item[sel].menu[sel_sub].set_value);
        self.menu_item[sel].menu[sel_sub].current_value = value;
        proof {
            lemma_field_changed(*old(self), *self, sel as int, sel_sub as int);
        }
    }

    pub fn get_current_level(&self) -> (r: usize)
        ensures
            r == self@.level,
    {
        self.current_level
    }

    /// The place of the selected category.
    pub fn get_current_select(&self) -> (r: usize)
        ensures
            r == self@.selected,
    {
        self.current_select
    }

    pub fn set_current_select(&mut self, sel: usize)
        ensures
            final(self)@ == (MenuView { selected: sel as nat, ..old(self)@ }),
    {
        self.current_select = sel;
    }

    pub fn set_current_level(&mut self, level: usize)
        ensures
            final(self)@ == (MenuView { level: level as nat, ..old(self)@ }),
    {
        self.current_level = level;
    }

    /// The place of the field that is selected in category `sel`.
    pub fn get_current_select_sub(&self, sel: usize) -> (r: usize)
        requires
            self@.has_category(sel as int),
        ensures
            r == self@.categories[sel as int].selected,
    {
        self.menu_item[sel].current_select
    }

    pub fn set_current_select_sub(&mut self, sel: usize, sel_sub: usize)
        requires
            old(self)@.has_category(sel as int),
        ensures
            final(self)@ == old(self)@.with_category(
                sel as int,
                CategoryView { selected: sel_sub as nat, ..old(self)@.categories[sel as int] },
            ),
    {
        self.menu_item[sel].current_select = sel_sub;
        proof {
            lemma_category_changed(*old(self), *self, sel as int);
        }
    }

    pub fn get_current_cursor(&self, sel: usize, sel_sub: usize) -> (r: usize)
        requires
            self@.has_field(sel as int, sel_sub as int),
        ensures
            r == self@.field(sel as int, sel_sub as int).cursor,
    {
        self.menu_item[sel].menu[sel_sub].cursor
    }

    pub fn set_current_cursor(&mut self, sel: usize, sel_sub: usize, cursor: usize)
        requires
            old(self)@.has_field(sel as int, sel_sub as int),
        ensures
            final(self)@ == old(self)@.with_field(
                sel as int,
                sel_sub as int,
                FieldView { cursor: cursor as nat, ..old(self)@.field(sel as int, sel_sub as int) },
            ),
    {
        self.menu_item[sel].menu[sel_sub].cursor = cursor;
        proof {
            lemma_field_changed(*old(self), *self, sel as int, sel_sub as int);
        }
    }

    pub fn get_value_type(&self, sel: usize, sel_sub: usize) -> (r: InputTypeChar)
        requires
            self@.has_field(sel as int, sel_sub as int),
        ensures
            r == self@.field(sel as int, sel_sub as int).value_type,
    {
        self.menu_item[sel].menu[sel_sub].value_type
    }

    pub fn get_action_flag(&self, sel: usize, sel_sub: usize) -> (r: bool)
        requires
            self@.has_field(sel as int, sel_sub as int),
        ensures
            r == self@.field(sel as int, sel_sub as int).action_flag,
    {
        self.menu_item[sel].menu[sel_sub].action_flag
    }

    pub fn set_action_flag(&mut self, sel: usize, sel_sub: usize, flag: bool)
        requires
            old(self)@.has_field(sel as int, sel_sub as int),
        ensures
            final(self)@ == old(self)@.with_field(
                sel as int,
                sel_sub as int,
                FieldView { action_flag: flag, ..old(self)@.field(sel as int, sel_sub as int) },
            ),
    {
        self.menu_item[sel].menu[sel_sub].action_flag = flag;
        proof {
            lemma_field_changed(*old(self), *self, sel as int, sel_sub as int);
        }
    }

    pub fn get_confirming_flag(&self) -> (r: bool)
        ensures
            r == self@.confirming_flag,
    {
        self.confirming_flag
    }

    pub fn set_confirming_flag(&mut self, flag: bool)
        ensures
            final(self)@ == (MenuView { confirming_flag: flag, ..old(self)@ }),
    {
        self.confirming_flag = flag;
    }

    pub fn get_confirmed_flag(&self) -> (r: bool)
        ensures
            r == self@.confirmed_flag,
    {
        self.confirmed_flag
    }

    pub fn set_confirmed_flag(&mut self, flag: bool)
        ensures
            final(self)@ == (MenuView { confirmed_flag: flag, ..old(self)@ }),
    {
        self.confirmed_flag = flag;
    }

    /// Option `item` of the field.
    pub fn get_select_item(&self, sel: usize, sel_sub: usize, item: usize) -> (r: String)
        requires
            self@.has_field(sel as int, sel_sub as int),
            item < self@.field(sel as int, sel_sub as int).options.len(),
        ensures
            r@ == self@.field(sel as int, sel_sub as int).options[item as int],
    {
        self.menu_item[sel].menu[sel_sub].select_item[item].clone()
    }

    /// Replaces the options of the field.
    pub fn set_select_item(&mut self, sel: usize, sel_sub: usize, item: Vec<String>)
        requires
            old(self)@.has_field(sel as int, sel_sub as int),
        ensures
            final(self)@ == old(self)@.with_field(
                sel as int,
                sel_sub as int,
                FieldView {
                    options: strings_view(item@),
                    ..old(self)@.field(sel as int, sel_sub as int)
                },
            ),
    {
        self.menu_item[sel].menu[sel_sub].select_item = item;
        proof {
            lemma_field_changed(*old(self), *self, sel as int, sel_sub as int);
        }
    }

    /// The first place at which `item` stands among the options of the
    /// field.
    pub fn get_select_item_index(&self, sel: usize, sel_sub: usize, item: &str) -> (r: usize)
        requires
            self@.has_field(sel as int, sel_sub as int),
            first_index_of(self@.field(sel as int, sel_sub as int).options, item@) < self@.field(
                sel as int,
                sel_sub as int,
            ).options.len(),
        ensures
            r == first_index_of(self@.field(sel as int, sel_sub as int).options, item@),
    {
        let wanted = chars_of(item);
        find_option(&self.menu_item[sel].menu[sel_sub].select_item, &wanted)
    }

    /// The place of the chosen option of the field.
    pub fn get_current_select_item(&self, sel: usize, sel_sub: usize) -> (r: usize)
        requires
            self@.has_field(sel as int, sel_sub as int),
        ensures
            r == self@.field(sel as int, sel_sub as int).selected_option,
    {
        self.menu_item[sel].menu[sel_sub].current_select_item
    }

    pub fn set_current_select_item(&mut self, sel: usize, sel_sub: usize, item: usize)
        requires
            old(self)@.has_field(sel as int, sel_sub as int),
        ensures
            final(self)@ == old(self)@.with_field(
                sel as int,
                sel_sub as int,
                FieldView {
                    selected_option: item as nat,
                    ..old(self)@.field(sel as int, sel_sub as int)
                },
            ),
    {
        self.menu_item[sel].menu[sel_sub].current_select_item = item;
        proof {
            lemma_field_changed(*old(self), *self, sel as int, sel_sub as int);
        }
    }

    /// The number of options of the field.
    pub fn get_select_item_count(&self, sel: usize, sel_sub: usize) -> (r: usize)
        requires
            self@.has_field(sel as int, sel_sub as int),
        ensures
            r == self@.field(sel as int, sel_sub as int).options.len(),
    {
        self.menu_item[sel].menu[sel_sub].select_item.len()
    }

    /// One step of character `ch` in the alphabet of `input_type`: forward
    /// where `incdec` holds, backward where it does not.
    pub fn inc_dec_char(&self, incdec: bool, ch: char, input_type: InputTypeChar) -> (r: char)
        ensures
            r == step_char(incdec, ch, input_type),
    {
        step(incdec, ch, input_type)
    }
}

/// The first place at which `value` stands among `options`, or their number
/// where it stands nowhere.
fn find_option(options: &Vec<String>, value: &Vec<char>) -> (r: usize)
    ensures
        r == first_index_of(strings_view(options@), value@),
{
    let mut i: usize = 0;
    while i < options.len()
        invariant
            i <= options.len(),
            forall|k: int| 0 <= k < i ==> strings_view(options@)[k] != value@,
        decreases options.len() - i,
    {
        let option = chars_of(options[i].as_str());
        assert(strings_view(options@)[i as int] == option@);
        if same_chars(&option, value) {
            proof {
                lemma_first_index_of(strings_view(options@), value@);
            }
            return i;
        }
        i += 1;
    }
    proof {
        lemma_first_index_of(strings_view(options@), value@);
    }
    i
}

/// The value of the first of `pairs` whose key is `key`.
pub open spec fn lookup(pairs: Seq<(Seq<char>, Seq<char>)>, key: Seq<char>) -> Option<Seq<char>>
    decreases pairs.len(),
{
    if pairs.len() == 0 {
        None
    } else if pairs[0].0 == key {
        Some(pairs[0].1)
    } else {
        lookup(pairs.drop_first(), key)
    }
}

impl FieldView {
    /// The value that `pairs` give this field: the one under its key, or,
    /// where they have none, the value it is committed to.
    pub open spec fn initial_value(self, pairs: Seq<(Seq<char>, Seq<char>)>) -> Seq<char> {
        match lookup(pairs, self.key) {
            Some(value) => value,
            None => self.committed,
        }
    }

    /// Whether the field can be loaded from `pairs`.
    pub open spec fn loads(self, pairs: Seq<(Seq<char>, Seq<char>)>) -> bool {
        self.accepts(self.initial_value(pairs))
    }

    /// The field loaded from `pairs`.
    pub open spec fn initialized(self, pairs: Seq<(Seq<char>, Seq<char>)>) -> FieldView {
        self.loaded(self.initial_value(pairs))
    }
}

impl CategoryView {
    /// The category with each field loaded from `pairs` and the first field
    /// selected.
    pub open spec fn initialized(self, pairs: Seq<(Seq<char>, Seq<char>)>) -> CategoryView {
        CategoryView {
            fields: Seq::new(self.fields.len(), |j: int| self.fields[j].initialized(pairs)),
            selected: 0,
            ..self
        }
    }
}

impl MenuView {
    /// Whether each field can be loaded from `pairs`.
    pub open spec fn loads(self, pairs: Seq<(Seq<char>, Seq<char>)>) -> bool {
        forall|i: int, j: int| self.has_field(i, j) ==> (#[trigger] self.field(i, j)).loads(pairs)
    }

    /// Whether each field that comes before field `j` of category `i`, in
    /// the order of the menu, can be loaded from `pairs`.
    pub open spec fn loads_before(self, pairs: Seq<(Seq<char>, Seq<char>)>, i: int, j: int) -> bool {
        forall|a: int, b: int|
            self.has_field(a, b) && (a < i || (a == i && b < j)) ==> (#[trigger] self.field(
                a,
                b,
            )).loads(pairs)
    }

    /// The menu with each field loaded from `pairs`, as a session first
    /// finds it: at the category list, the first category and the first
    /// field of each selected, no flag set.
    pub open spec fn initialized(self, pairs: Seq<(Seq<char>, Seq<char>)>) -> MenuView {
        MenuView {
            categories: Seq::new(
                self.categories.len(),
                |i: int| self.categories[i].initialized(pairs),
            ),
            level: 0,
            selected: 0,
            commit_flag: false,
            confirming_flag: false,
            confirmed_flag: false,
        }
    }

    /// Whether the menu has a category and each category has a field.
    pub open spec fn is_populated(self) -> bool {
        &&& self.categories.len() > 0
        &&& forall|i: int|
            0 <= i < self.categories.len() ==> (#[trigger] self.categories[i]).fields.len() > 0
    }
}

/// A value that does not have the shape of its field.
#[derive(Debug)]
pub struct ValidationError {
    /// The key of the field.
    pub key: String,
}

/// Whether `option` is not empty and has no blank at either end.
fn check_option(option: &String) -> (r: bool)
    ensures
        r == option_is_tight(option@),
{
    let chars = chars_of(option.as_str());
    chars.len() > 0 && chars[0] != ' ' && chars[chars.len() - 1] != ' '
}

/// Whether each of `options` is fit to be an option.
fn check_options(options: &Vec<String>) -> (r: bool)
    ensures
        r == (forall|k: int|
            0 <= k < options.len() ==> option_is_tight(#[trigger] strings_view(options@)[k])),
{
    let mut i: usize = 0;
    while i < options.len()
        invariant
            i <= options.len(),
            forall|k: int| 0 <= k < i ==> option_is_tight(#[trigger] strings_view(options@)[k]),
        decreases options.len() - i,
    {
        if !check_option(&options[i]) {
            assert(!option_is_tight(strings_view(options@)[i as int]));
            return false;
        }
        i += 1;
    }
    true
}

/// The value of the first of `pairs` whose key is `key`.
pub fn lookup_value(pairs: &Vec<(String, String)>, key: &str) -> (r: Option<Vec<char>>)
    ensures
        r is Some == lookup(pairs_view(pairs@), key@) is Some,
        r matches Some(v) ==> lookup(pairs_view(pairs@), key@) == Some(v@),
{
    let wanted = key.to_owned();
    let mut i: usize = 0;
    assert(pairs_view(pairs@).skip(0) =~= pairs_view(pairs@));
    while i < pairs.len()
        invariant
            i <= pairs.len(),
            wanted@ == key@,
            lookup(pairs_view(pairs@), key@) == lookup(pairs_view(pairs@).skip(i as int), key@),
        decreases pairs.len() - i,
    {
        proof {
            let rest = pairs_view(pairs@).skip(i as int);
            assert(rest.drop_first() =~= pairs_view(pairs@).skip(i + 1));
        }
        if pairs[i].0 == wanted {
            return Some(chars_of(pairs[i].1.as_str()));
        }
        i += 1;
    }
    None
}

impl MenuInfo {
    /// Whether what holds of a field in use holds of this one.
    pub fn is_sound(&self) -> (r: bool)
        ensures
            r == self@.is_sound(),
    {
        if self.cursor >= self.current_value.len() {
            return false;
        }
        if self.value_type == InputTypeChar::SelectType {
            if self.current_select_item >= self.select_item.len() {
                return false;
            }
            let chosen = chars_of(self.select_item[self.current_select_item].as_str());
            same_chars(&self.current_value, &chosen) && find_option(
                &self.select_item,
                &self.set_value,
            ) < self.select_item.len() && check_options(&self.select_item)
        } else {
            let shown = editable_chars(copy_chars(&self.set_value));
            check_edited(self.value_type, &self.current_value) && check_edited(
                self.value_type,
                &shown,
            )
        }
    }

    /// The field loaded from `pairs`, if it can be.
    fn load(&self, pairs: &Vec<(String, String)>) -> (r: Option<MenuInfo>)
        ensures
            r is Some == self@.loads(pairs_view(pairs@)),
            r matches Some(f) ==> f@ == self@.initialized(pairs_view(pairs@)),
    {
        let value = match lookup_value(pairs, self.key.as_str()) {
            Some(value) => value,
            None => copy_chars(&self.set_value),
        };
        let place = find_option(&self.select_item, &value);
        let fits = if self.value_type == InputTypeChar::SelectType {
            place < self.select_item.len() && check_options(&self.select_item)
        } else {
            check_shape(self.value_type, &value)
        };
        if !fits {
            return None;
        }
        Some(
            MenuInfo {
                title: self.title.clone(),
                key: self.key.clone(),
                current_value: copy_chars(&value),
                set_value: value,
                menu_type: self.menu_type,
                value_type: self.value_type,
                cursor: 0,
                action_flag: false,
                select_item: copy_strings(&self.select_item),
                current_select_item: if place < self.select_item.len() {
                    place
                } else {
                    0
                },
            },
        )
    }
}

impl MenuItem {
    /// Whether what holds of a category in use holds of this one.
    pub fn is_sound(&self) -> (r: bool)
        ensures
            r == self@.is_sound(),
    {
        if self.current_select >= self.menu.len() {
            return false;
        }
        let mut j: usize = 0;
        while j < self.menu.len()
            invariant
                j <= self.menu.len(),
                forall|k: int| 0 <= k < j ==> (#[trigger] self@.fields[k]).is_sound(),
            decreases self.menu.len() - j,
        {
            if !self.menu[j].is_sound() {
                assert(!self@.fields[j as int].is_sound());
                return false;
            }
            j += 1;
        }
        true
    }
}

impl MenuTable {
    /// Whether what holds of a menu in use holds of this one.
    pub fn is_sound(&self) -> (r: bool)
        ensures
            r == self@.is_sound(),
    {
        if self.current_level > LEVEL_EDIT || self.current_select >= self.menu_item.len() {
            return false;
        }
        if self.confirming_flag && self.current_level != LEVEL_EDIT {
            return false;
        }
        let mut i: usize = 0;
        while i < self.menu_item.len()
            invariant
                i <= self.menu_item.len(),
                forall|k: int| 0 <= k < i ==> (#[trigger] self@.categories[k]).is_sound(),
            decreases self.menu_item.len() - i,
        {
            if !self.menu_item[i].is_sound() {
                assert(!self@.categories[i as int].is_sound());
                return false;
            }
            i += 1;
        }
        true
    }

    /// Steps the character under the cursor of the field once in the
    /// alphabet of the field's kind: forward where `up` holds, backward where
    /// it does not.
    pub fn step_character_at(&mut self, sel: usize, sel_sub: usize, up: bool)
        requires
            old(self)@.has_field(sel as int, sel_sub as int),
        ensures
            final(self)@ == old(self)@.with_field(
                sel as int,
                sel_sub as int,
                old(self)@.field(sel as int, sel_sub as int).char_stepped(up),
            ),
    {
        let cursor = self.menu_item[sel].menu[sel_sub].cursor;
        if cursor < self.menu_item[sel].menu[sel_sub].current_value.len() {
            let kind = self.menu_item[sel].menu[sel_sub].value_type;
            let ch = self.menu_item[sel].menu[sel_sub].current_value[cursor];
            self.menu_item[sel].menu[sel_sub].current_value[cursor] = step(up, ch, kind);
        }
        proof {
            lemma_field_changed(*old(self), *self, sel as int, sel_sub as int);
        }
    }

    /// Chooses the next option of the field, or the one before, round the
    /// end of the options; the working value becomes that option.
    pub fn step_enumerated_option(&mut self, sel: usize, sel_sub: usize, forward: bool)
        requires
            old(self)@.has_field(sel as int, sel_sub as int),
        ensures
            final(self)@ == old(self)@.with_field(
                sel as int,
                sel_sub as int,
                old(self)@.field(sel as int, sel_sub as int).option_stepped(forward),
            ),
    {
        let count = self.menu_item[sel].menu[sel_sub].select_item.len();
        if count > 0 {
            let now = self.menu_item[sel].menu[sel_sub].current_select_item;
            let next = if forward {
                if now < count - 1 {
                    now + 1
                } else {
                    0
                }
            } else {
                if 0 < now && now < count {
                    now - 1
                } else {
                    count - 1
                }
            };
            let value = chars_of(self.menu_item[sel].menu[sel_sub].select_item[next].as_str());
            let len = value.len();
            let cursor = self.menu_item[sel].menu[sel_sub].cursor;
            self.menu_item[sel].menu[sel_sub].current_value = value;
            self.menu_item[sel].menu[sel_sub].current_select_item = next;
            self.menu_item[sel].menu[sel_sub].cursor = if cursor < len {
                cursor
            } else if len > 0 {
                len - 1
            } else {
                0
            };
        }
        proof {
            lemma_field_changed(*old(self), *self, sel as int, sel_sub as int);
        }
    }

    /// Appends a blank to the working value of the field and moves the
    /// cursor one place on.
    pub fn grow_value(&mut self, sel: usize, sel_sub: usize)
        requires
            old(self)@.has_field(sel as int, sel_sub as int),
            old(self)@.field(sel as int, sel_sub as int).cursor < usize::MAX,
        ensures
            final(self)@ == old(self)@.with_field(
                sel as int,
                sel_sub as int,
                old(self)@.field(sel as int, sel_sub as int).grown(),
            ),
    {
        let cursor = self.menu_item[sel].menu[sel_sub].cursor;
        self.menu_item[sel].menu[sel_sub].current_value.push(' ');
        self.menu_item[sel].menu[sel_sub].cursor = cursor + 1;
        proof {
            lemma_field_changed(*old(self), *self, sel as int, sel_sub as int);
        }
    }

    /// Accepts the edit of the field: trims the working value and commits
    /// it, marks an action as confirmed, and marks the session as having a
    /// commit.
    pub fn accept_value(&mut self, sel: usize, sel_sub: usize)
        requires
            old(self)@.has_field(sel as int, sel_sub as int),
        ensures
            final(self)@ == (MenuView {
                commit_flag: true,
                ..old(self)@.with_field(
                    sel as int,
                    sel_sub as int,
                    old(self)@.field(sel as int, sel_sub as int).accepted(),
                )
            }),
    {
        let value = trim_chars(&self.menu_item[sel].menu[sel_sub].current_value);
        let shown = editable_chars(copy_chars(&value));
        let is_action = self.menu_item[sel].menu[sel_sub].value_type == InputTypeChar::ActionType;
        let flag = self.menu_item[sel].menu[sel_sub].action_flag;
        self.menu_item[sel].menu[sel_sub].set_value = value;
        self.menu_item[sel].menu[sel_sub].current_value = shown;
        self.menu_item[sel].menu[sel_sub].cursor = 0;
        self.menu_item[sel].menu[sel_sub].action_flag = flag || is_action;
        proof {
            lemma_field_changed(*old(self), *self, sel as int, sel_sub as int);
        }
        self.commit_flag = true;
    }

    /// Gives up the edit of the field: shows the committed value again, with
    /// the cursor at the start, a selection at the committed option and an
    /// action not confirmed.
    pub fn revert_value(&mut self, sel: usize, sel_sub: usize)
        requires
            old(self)@.has_field(sel as int, sel_sub as int),
        ensures
            final(self)@ == old(self)@.with_field(
                sel as int,
                sel_sub as int,
                old(self)@.field(sel as int, sel_sub as int).reverted(),
            ),
    {
        let shown = editable_chars(copy_chars(&self.menu_item[sel].menu[sel_sub].set_value));
        let place = find_option(
            &self.menu_item[sel].menu[sel_sub].select_item,
            &self.menu_item[sel].menu[sel_sub].set_value,
        );
        let is_select = self.menu_item[sel].menu[sel_sub].value_type == InputTypeChar::SelectType;
        if is_select && place < self.menu_item[sel].menu[sel_sub].select_item.len() {
            self.menu_item[sel].menu[sel_sub].current_select_item = place;
        }
        self.menu_item[sel].menu[sel_sub].current_value = shown;
        self.menu_item[sel].menu[sel_sub].cursor = 0;
        self.menu_item[sel].menu[sel_sub].action_flag = false;
        proof {
            lemma_field_changed(*old(self), *self, sel as int, sel_sub as int);
        }
    }

    /// Loads each field from `pairs`, by its key, and makes the menu ready
    /// for a first session.
    ///
    /// A field for which `pairs` have no value keeps the value it is
    /// committed to. Where a value does not have the shape of its field, the
    /// menu is left as it was and the error names the first such field.
    pub fn initialize_from(&mut self, pairs: &Vec<(String, String)>) -> (r: Result<
        (),
        ValidationError,
    >)
        ensures
            r is Ok == old(self)@.loads(pairs_view(pairs@)),
            r is Ok ==> final(self)@ == old(self)@.initialized(pairs_view(pairs@)),
            r is Ok && old(self)@.is_populated() ==> final(self)@.is_sound(),
            r matches Err(e) ==> final(self)@ == old(self)@ && exists|i: int, j: int|
                {
                    &&& old(self)@.has_field(i, j)
                    &&& !(#[trigger] old(self)@.field(i, j)).loads(pairs_view(pairs@))
                    &&& old(self)@.loads_before(pairs_view(pairs@), i, j)
                    &&& e.key@ == old(self)@.field(i, j).key
                },
    {
        let ghost before = self@;
        let ghost given = pairs_view(pairs@);
        let mut loaded: Vec<MenuItem> = Vec::new();
        let mut i: usize = 0;
        while i < self.menu_item.len()
            invariant
                i <= self.menu_item.len(),
                self@ == before,
                *self == *old(self),
                given == pairs_view(pairs@),
                loaded.len() == i,
                forall|a: int| 0 <= a < i ==> (#[trigger] loaded@[a])@ == before.categories[a].initialized(given),
                before.loads_before(given, i as int, 0),
            decreases self.menu_item.len() - i,
        {
            let mut fields: Vec<MenuInfo> = Vec::new();
            let mut j: usize = 0;
            while j < self.menu_item[i as usize].menu.len()
                invariant
                    i < self.menu_item.len(),
                    j <= self.menu_item[i as int].menu.len(),
                    self@ == before,
                    *self == *old(self),
                    given == pairs_view(pairs@),
                    fields.len() == j,
                    forall|b: int| 0 <= b < j ==> (#[trigger] fields@[b])@ == before.field(i as int, b).initialized(given),
                    before.loads_before(given, i as int, j as int),
                decreases self.menu_item[i as int].menu.len() - j,
            {
                match self.menu_item[i].menu[j].load(pairs) {
                    Some(field) => {
                        fields.push(field);
                    },
                    None => {
                        let key = self.menu_item[i].menu[j].key.clone();
                        assert(!before.field(i as int, j as int).loads(given));
                        return Err(ValidationError { key });
                    },
                }
                j += 1;
            }
            let item = MenuItem {
                title: self.menu_item[i].title.clone(),
                menu: fields,
                current_select: 0,
            };
            assert(item@.fields =~= before.categories[i as int].initialized(given).fields);
            loaded.push(item);
            i += 1;
        }
        self.menu_item = loaded;
        self.current_level = 0;
        self.current_select = 0;
        self.commit_flag = false;
        self.confirming_flag = false;
        self.confirmed_flag = false;
        assert(self@.categories =~= before.initialized(given).categories);
        proof {
            if before.is_populated() {
                initialized_is_sound(before, given);
            }
        }
        Ok(())
    }

    /// The pairs of key and committed value of the fields, in the order of
    /// the menu: one of each field but the actions, and one of each action
    /// that has been confirmed.
    pub fn get_all_values(&self) -> (r: Vec<(String, String)>)
        ensures
            pairs_view(r@) == self@.all_values(),
    {
        let mut r: Vec<(String, String)> = Vec::new();
        let mut i: usize = 0;
        while i < self.menu_item.len()
            invariant
                i <= self.menu_item.len(),
                pairs_view(r@) =~= category_pairs(self@.categories.take(i as int)),
            decreases self.menu_item.len() - i,
        {
            let mut j: usize = 0;
            while j < self.menu_item[i].menu.len()
                invariant
                    i < self.menu_item.len(),
                    j <= self.menu_item[i as int].menu.len(),
                    pairs_view(r@) =~= category_pairs(self@.categories.take(i as int))
                        + field_pairs(self@.categories[i as int].fields.take(j as int)),
                decreases self.menu_item[i as int].menu.len() - j,
            {
                let info = &self.menu_item[i].menu[j];
                proof {
                    let fields = self@.categories[i as int].fields;
                    assert(fields.take(j + 1).drop_last() =~= fields.take(j as int));
                }
                let ghost so_far = pairs_view(r@);
                if info.value_type != InputTypeChar::ActionType || info.action_flag {
                    r.push((info.key.clone(), string_of(&info.set_value)));
                    assert(pairs_view(r@) =~= so_far.push((info@.key, info@.committed)));
                }
                j += 1;
            }
            proof {
                let cats = self@.categories;
                assert(cats[i as int].fields.take(j as int) =~= cats[i as int].fields);
                assert(cats.take(i + 1).drop_last() =~= cats.take(i as int));
            }
            i += 1;
        }
        assert(self@.categories.take(i as int) =~= self@.categories);
        r
    }
}

/// A field that can be loaded is sound once it is loaded.
pub proof fn lemma_loaded_is_sound(f: FieldView, value: Seq<char>)
    requires
        f.accepts(value),
    ensures
        f.loaded(value).is_sound(),
{
    if f.value_type == InputTypeChar::SelectType {
        lemma_first_index_of(f.options, value);
    }
}

/// A menu with a field in each category is ready for use once it has been
/// loaded: what holds of a menu in use holds of it.
pub proof fn initialized_is_sound(m: MenuView, pairs: Seq<(Seq<char>, Seq<char>)>)
    requires
        m.is_populated(),
        m.loads(pairs),
    ensures
        m.initialized(pairs).is_sound(),
{
    let n = m.initialized(pairs);
    assert forall|i: int| 0 <= i < n.categories.len() implies (#[trigger] n.categories[i]).is_sound() by {
        assert forall|j: int| 0 <= j < n.categories[i].fields.len() implies (
        #[trigger] n.categories[i].fields[j]).is_sound() by {
            lemma_loaded_is_sound(m.field(i, j), m.field(i, j).initial_value(pairs));
        }
    }
}

/// The pair of each reported field is among the pairs of its fields.
pub proof fn lemma_field_pair_is_listed(fields: Seq<FieldView>, j: int)
    requires
        0 <= j < fields.len(),
        fields[j].is_reported(),
    ensures
        field_pairs(fields).contains((fields[j].key, fields[j].committed)),
    decreases fields.len(),
{
    let rest = field_pairs(fields.drop_last());
    if j == fields.len() - 1 {
        assert(rest.push((fields[j].key, fields[j].committed))[rest.len() as int] == (
            fields[j].key,
            fields[j].committed,
        ));
    } else {
        lemma_field_pair_is_listed(fields.drop_last(), j);
        let at = choose|at: int|
            0 <= at < rest.len() && rest[at] == (fields[j].key, fields[j].committed);
        assert(field_pairs(fields)[at] == rest[at]);
    }
}

/// The pairs of each category are among the pairs of the categories.
pub proof fn lemma_category_pairs_are_listed(
    categories: Seq<CategoryView>,
    i: int,
    pair: (Seq<char>, Seq<char>),
)
    requires
        0 <= i < categories.len(),
        field_pairs(categories[i].fields).contains(pair),
    ensures
        category_pairs(categories).contains(pair),
    decreases categories.len(),
{
    let rest = category_pairs(categories.drop_last());
    let last = field_pairs(categories.last().fields);
    if i == categories.len() - 1 {
        let at = choose|at: int| 0 <= at < last.len() && last[at] == pair;
        assert((rest + last)[rest.len() + at] == pair);
    } else {
        lemma_category_pairs_are_listed(categories.drop_last(), i, pair);
        let at = choose|at: int| 0 <= at < rest.len() && rest[at] == pair;
        assert((rest + last)[at] == pair);
    }
}

/// What is loaded comes back: a menu that has just been loaded hands out,
/// for each field that is no action, the pair of the field's key and the
/// value that was loaded into it.
pub proof fn loaded_values_come_back(
    m: MenuView,
    pairs: Seq<(Seq<char>, Seq<char>)>,
    i: int,
    j: int,
)
    requires
        m.has_field(i, j),
        m.field(i, j).value_type != InputTypeChar::ActionType,
    ensures
        m.initialized(pairs).all_values().contains(
            (m.field(i, j).key, m.field(i, j).initial_value(pairs)),
        ),
        lookup(pairs, m.field(i, j).key) matches Some(value) ==> m.initialized(
            pairs,
        ).all_values().contains((m.field(i, j).key, value)),
{
    let n = m.initialized(pairs);
    let f = n.categories[i].fields[j];
    lemma_field_pair_is_listed(n.categories[i].fields, j);
    lemma_category_pairs_are_listed(n.categories, i, (f.key, f.committed));
}

} // verus!
