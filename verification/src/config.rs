//! The stored settings of the appliance.
//!
//! Settings are stored as a table of keys and values, written as TOML with
//! every value a string. `ConfigData` holds them typed.

use std::collections::HashMap;
use vstd::prelude::*;
use crate::number::{parse_i32, parse_u32, text_as_i32, text_as_u32};
use crate::text::{chars_of, string_of};
use crate::ui::{lookup, lookup_value, pairs_view};

verus! {

/// The settings that the appliance starts with when none are stored.
#[derive(Debug, Clone)]
pub struct Config {
    pub wifi_ssid: String,
    pub wifi_psk: String,
    pub target_mac_address1: String,
    pub target_mac_address2: String,
    pub target_mac_address3: String,
    pub target_mac_address4: String,
    /// Hours from UTC, from -12 to +14.
    pub timezone_offset: String,
    /// Seconds without a key until the appliance sleeps; 0 for never.
    pub idle_in_sleep_time: String,
    /// "light" or "deep".
    pub sleep_mode: String,
    /// Seconds until the display goes dark; 0 for never.
    pub display_off_time: String,
}

impl Default for Config {
    /// No network, no machines, UTC, half a minute to sleep and to a dark
    /// display, light sleep.
    fn default() -> (r: Config)
        ensures
            r.wifi_ssid@ == ""@,
            r.wifi_psk@ == ""@,
            r.target_mac_address1@ == ""@,
            r.target_mac_address2@ == ""@,
            r.target_mac_address3@ == ""@,
            r.target_mac_address4@ == ""@,
            r.timezone_offset@ == "0"@,
            r.idle_in_sleep_time@ == "30"@,
            r.sleep_mode@ == "light"@,
            r.display_off_time@ == "30"@,
    {
        Config {
            wifi_ssid: "".to_owned(),
            wifi_psk: "".to_owned(),
            target_mac_address1: "".to_owned(),
            target_mac_address2: "".to_owned(),
            target_mac_address3: "".to_owned(),
            target_mac_address4: "".to_owned(),
            timezone_offset: "0".to_owned(),
            idle_in_sleep_time: "30".to_owned(),
            sleep_mode: "light".to_owned(),
            display_off_time: "30".to_owned(),
        }
    }
}

/// The settings, typed.
#[derive(Debug)]
pub struct ConfigData {
    pub wifi_ssid: String,
    pub wifi_psk: String,
    pub target_mac_address1: String,
    pub target_mac_address2: String,
    pub target_mac_address3: String,
    pub target_mac_address4: String,
    pub timezone_offset: i32,
    pub idle_in_sleep_time: u32,
    pub sleep_mode: String,
    pub display_off_time: u32,
}

/// One of the settings.
#[derive(Debug, Clone, Copy, PartialEq, Eq, Structural)]
pub enum Setting {
    Ssid,
    Psk,
    Pc1,
    Pc2,
    Pc3,
    Pc4,
    Timezone,
    IdleSleep,
    SleepMode,
    DisplayOffTime,
}

/// Why settings could not be loaded.
#[derive(Debug, Clone, Copy, PartialEq, Eq, Structural)]
pub enum LoadError {
    /// Nothing is stored.
    NothingStored,
    /// What is stored is no table of strings, or may hold a key in quotes.
    Malformed,
    /// The table has no value for the setting.
    NotFound(Setting),
    /// The value of the setting is no number of its kind.
    NotANumber(Setting),
}

/// The key under which `setting` is stored.
pub open spec fn key_of(setting: Setting) -> Seq<char> {
    match setting {
        Setting::Ssid => "SSID"@,
        Setting::Psk => "PSK"@,
        Setting::Pc1 => "PC1"@,
        Setting::Pc2 => "PC2"@,
        Setting::Pc3 => "PC3"@,
        Setting::Pc4 => "PC4"@,
        Setting::Timezone => "TIMEZONE"@,
        Setting::IdleSleep => "IDLESLEEP"@,
        Setting::SleepMode => "SLEEPMODE"@,
        Setting::DisplayOffTime => "DISPLAYOFFTIME"@,
    }
}

/// What loading `setting` from `table` comes to: nothing if all is well,
/// else the error.
pub open spec fn failure_of(table: Map<Seq<char>, Seq<char>>, setting: Setting) -> Option<
    LoadError,
> {
    if !table.contains_key(key_of(setting)) {
        Some(LoadError::NotFound(setting))
    } else {
        match setting {
            Setting::Timezone => if text_as_i32(text_of(table, setting)) is None {
                Some(LoadError::NotANumber(setting))
            } else {
                None
            },
            Setting::IdleSleep | Setting::DisplayOffTime => if text_as_u32(
                text_of(table, setting),
            ) is None {
                Some(LoadError::NotANumber(setting))
            } else {
                None
            },
            _ => None,
        }
    }
}

/// The table that `pairs` write: each key with the value of the first pair
/// that has it.
pub open spec fn table_of(pairs: Seq<(Seq<char>, Seq<char>)>) -> Map<Seq<char>, Seq<char>> {
    Map::new(|key: Seq<char>| lookup(pairs, key) is Some, |key: Seq<char>| lookup(pairs, key)->0)
}

/// The settings in the order in which they are loaded.
pub open spec fn load_order() -> Seq<Setting> {
    seq![
        Setting::Ssid,
        Setting::Psk,
        Setting::Pc1,
        Setting::Pc2,
        Setting::Pc3,
        Setting::Pc4,
        Setting::Timezone,
        Setting::IdleSleep,
        Setting::SleepMode,
        Setting::DisplayOffTime,
    ]
}

/// How many settings load from `table` before one fails, counting from
/// place `from` of the order of loading.
pub open spec fn loaded_count(table: Map<Seq<char>, Seq<char>>, from: nat) -> nat
    decreases 10 - from,
{
    if from >= 10 {
        10
    } else if failure_of(table, load_order()[from as int]) is Some {
        from
    } else {
        loaded_count(table, from + 1)
    }
}

/// What loading from `table` comes to: the error of the first setting that
/// fails, if one does.
pub open spec fn load_result(table: Map<Seq<char>, Seq<char>>) -> Result<(), LoadError> {
    if loaded_count(table, 0) >= 10 {
        Ok(())
    } else {
        Err(failure_of(table, load_order()[loaded_count(table, 0) as int])->0)
    }
}

/// The settings, as contracts see them.
pub struct ConfigView {
    pub wifi_ssid: Seq<char>,
    pub wifi_psk: Seq<char>,
    pub target_mac_address1: Seq<char>,
    pub target_mac_address2: Seq<char>,
    pub target_mac_address3: Seq<char>,
    pub target_mac_address4: Seq<char>,
    pub timezone_offset: i32,
    pub idle_in_sleep_time: u32,
    pub sleep_mode: Seq<char>,
    pub display_off_time: u32,
}

impl View for ConfigData {
    type V = ConfigView;

    open spec fn view(&self) -> ConfigView {
        ConfigView {
            wifi_ssid: self.wifi_ssid@,
            wifi_psk: self.wifi_psk@,
            target_mac_address1: self.target_mac_address1@,
            target_mac_address2: self.target_mac_address2@,
            target_mac_address3: self.target_mac_address3@,
            target_mac_address4: self.target_mac_address4@,
            timezone_offset: self.timezone_offset,
            idle_in_sleep_time: self.idle_in_sleep_time,
            sleep_mode: self.sleep_mode@,
            display_off_time: self.display_off_time,
        }
    }
}

/// The value of `setting` in `table`, as text.
pub open spec fn text_of(table: Map<Seq<char>, Seq<char>>, setting: Setting) -> Seq<char> {
    table[key_of(setting)]
}

impl ConfigView {
    /// The settings with the first `count` of them, in the order of
    /// loading, taken from `table`.
    pub open spec fn loaded(self, table: Map<Seq<char>, Seq<char>>, count: nat) -> ConfigView {
        ConfigView {
            wifi_ssid: if count > 0 {
                text_of(table, Setting::Ssid)
            } else {
                self.wifi_ssid
            },
            wifi_psk: if count > 1 {
                text_of(table, Setting::Psk)
            } else {
                self.wifi_psk
            },
            target_mac_address1: if count > 2 {
                text_of(table, Setting::Pc1)
            } else {
                self.target_mac_address1
            },
            target_mac_address2: if count > 3 {
                text_of(table, Setting::Pc2)
            } else {
                self.target_mac_address2
            },
            target_mac_address3: if count > 4 {
                text_of(table, Setting::Pc3)
            } else {
                self.target_mac_address3
            },
            target_mac_address4: if count > 5 {
                text_of(table, Setting::Pc4)
            } else {
                self.target_mac_address4
            },
            timezone_offset: if count > 6 {
                text_as_i32(text_of(table, Setting::Timezone))->0
            } else {
                self.timezone_offset
            },
            idle_in_sleep_time: if count > 7 {
                text_as_u32(text_of(table, Setting::IdleSleep))->0
            } else {
                self.idle_in_sleep_time
            },
            sleep_mode: if count > 8 {
                text_of(table, Setting::SleepMode)
            } else {
                self.sleep_mode
            },
            display_off_time: if count > 9 {
                text_as_u32(text_of(table, Setting::DisplayOffTime))->0
            } else {
                self.display_off_time
            },
        }
    }
}

/// Whether a quote stands in the key part of a line of `text` from place
/// `from` on: before the first equals sign of the line, or anywhere in a
/// line without one. `in_key` says whether place `from` is in a key part.
pub open spec fn quoted_key_from(text: Seq<char>, from: int, in_key: bool) -> bool
    decreases text.len() - from,
{
    if from < 0 || from >= text.len() {
        false
    } else if text[from] == '\n' {
        quoted_key_from(text, from + 1, true)
    } else if in_key && (text[from] == '"' || text[from] == '\'') {
        true
    } else if text[from] == '=' {
        quoted_key_from(text, from + 1, false)
    } else {
        quoted_key_from(text, from + 1, in_key)
    }
}

/// Whether `text` may hold a key written in quotes. The keys of the
/// settings are plain words, so a stored text never does; only a key in
/// quotes can hold a dot or a bracket.
pub open spec fn has_quoted_key(text: Seq<char>) -> bool {
    quoted_key_from(text, 0, true)
}

/// The error with which `config` refuses a text.
#[verifier::external_type_specification]
#[verifier::external_body]
pub struct ExConfigError(::config::ConfigError);

/// Reads a TOML text as a table of strings: `config::Config::builder`
/// with the text as its one source, `build`, and `try_deserialize` into a
/// map from strings to strings, handed out as the pairs of the map.
///
/// `build` takes each key of the text as a path, in the order in which a
/// hash map yields the keys: a dot in a key leads into a table and a
/// bracket into an array, which is grown to the index. So a text with a
/// key that holds a bracket may make the call fail to return, and such a
/// key takes quotes, which `requires` leaves out. Nothing is promised of
/// what comes back.
#[verifier::external_body]
fn read_table(text: &str) -> (r: Result<Vec<(String, String)>, ::config::ConfigError>)
    requires
        !has_quoted_key(text@),
{
    let source = ::config::File::from_str(text, ::config::FileFormat::Toml);
    let settings = ::config::Config::builder().add_source(source).build()?;
    let table = settings.try_deserialize::<HashMap<String, String>>()?;
    Ok(table.into_iter().collect())
}

/// Whether `text` may hold a key written in quotes.
pub fn check_quoted_key(text: &str) -> (r: bool)
    ensures
        r == has_quoted_key(text@),
{
    let chars = chars_of(text);
    let mut in_key = true;
    let mut i: usize = 0;
    while i < chars.len()
        invariant
            i <= chars.len(),
            chars@ == text@,
            has_quoted_key(text@) == quoted_key_from(text@, i as int, in_key),
        decreases chars.len() - i,
    {
        let ch = chars[i];
        if ch == '\n' {
            in_key = true;
        } else if in_key && (ch == '"' || ch == '\'') {
            return true;
        } else if ch == '=' {
            in_key = false;
        }
        i += 1;
    }
    false
}

impl ConfigData {
    /// Settings with no network and no machines, at UTC, with half a
    /// minute to sleep and to a dark display, in light sleep.
    pub fn new() -> (r: ConfigData)
        ensures
            r@ == (ConfigView {
                wifi_ssid: Seq::empty(),
                wifi_psk: Seq::empty(),
                target_mac_address1: Seq::empty(),
                target_mac_address2: Seq::empty(),
                target_mac_address3: Seq::empty(),
                target_mac_address4: Seq::empty(),
                timezone_offset: 0,
                idle_in_sleep_time: 30,
                sleep_mode: "light"@,
                display_off_time: 30,
            }),
    {
        ConfigData {
            wifi_ssid: String::new(),
            wifi_psk: String::new(),
            target_mac_address1: String::new(),
            target_mac_address2: String::new(),
            target_mac_address3: String::new(),
            target_mac_address4: String::new(),
            timezone_offset: 0,
            idle_in_sleep_time: 30,
            sleep_mode: "light".to_owned(),
            display_off_time: 30,
        }
    }

    /// Takes the settings from `table`, one after the other: the network,
    /// the four machines, the time zone, the time to sleep, the sleep mode
    /// and the time to a dark display.
    ///
    /// The first setting that the table lacks, or whose value is no number
    /// where one is due, ends the loading with its error; the settings
    /// before it have been taken, it and those after it are as they were.
    pub fn load_table(&mut self, table: &Vec<(String, String)>) -> (r: Result<(), LoadError>)
        ensures
            r == load_result(table_of(pairs_view(table@))),
            final(self)@ == old(self)@.loaded(
                table_of(pairs_view(table@)),
                loaded_count(table_of(pairs_view(table@)), 0),
            ),
    {
        reveal_with_fuel(loaded_count, 11);
        match lookup_value(table, "SSID") {
            Some(v) => {
                self.wifi_ssid = string_of(&v);
            },
            None => {
                return Err(LoadError::NotFound(Setting::Ssid));
            },
        }
        match lookup_value(table, "PSK") {
            Some(v) => {
                self.wifi_psk = string_of(&v);
            },
            None => {
                return Err(LoadError::NotFound(Setting::Psk));
            },
        }
        match lookup_value(table, "PC1") {
            Some(v) => {
                self.target_mac_address1 = string_of(&v);
            },
            None => {
                return Err(LoadError::NotFound(Setting::Pc1));
            },
        }
        match lookup_value(table, "PC2") {
            Some(v) => {
                self.target_mac_address2 = string_of(&v);
            },
            None => {
                return Err(LoadError::NotFound(Setting::Pc2));
            },
        }
        match lookup_value(table, "PC3") {
            Some(v) => {
                self.target_mac_address3 = string_of(&v);
            },
            None => {
                return Err(LoadError::NotFound(Setting::Pc3));
            },
        }
        match lookup_value(table, "PC4") {
            Some(v) => {
                self.target_mac_address4 = string_of(&v);
            },
            None => {
                return Err(LoadError::NotFound(Setting::Pc4));
            },
        }
        match lookup_value(table, "TIMEZONE") {
            Some(v) => {
                match parse_i32(&v) {
                    Some(n) => {
                        self.timezone_offset = n;
                    },
                    None => {
                        return Err(LoadError::NotANumber(Setting::Timezone));
                    },
                }
            },
            None => {
                return Err(LoadError::NotFound(Setting::Timezone));
            },
        }
        match lookup_value(table, "IDLESLEEP") {
            Some(v) => {
                match parse_u32(&v) {
                    Some(n) => {
                        self.idle_in_sleep_time = n;
                    },
                    None => {
                        return Err(LoadError::NotANumber(Setting::IdleSleep));
                    },
                }
            },
            None => {
                return Err(LoadError::NotFound(Setting::IdleSleep));
            },
        }
        match lookup_value(table, "SLEEPMODE") {
            Some(v) => {
                self.sleep_mode = string_of(&v);
            },
            None => {
                return Err(LoadError::NotFound(Setting::SleepMode));
            },
        }
        match lookup_value(table, "DISPLAYOFFTIME") {
            Some(v) => {
                match parse_u32(&v) {
                    Some(n) => {
                        self.display_off_time = n;
                    },
                    None => {
                        return Err(LoadError::NotANumber(Setting::DisplayOffTime));
                    },
                }
            },
            None => {
                return Err(LoadError::NotFound(Setting::DisplayOffTime));
            },
        }
        Ok(())
    }

    /// Loads the settings from what is stored, a TOML text.
    ///
    /// With nothing stored no setting changes. A text that may hold a key
    /// in quotes is not read and counts as malformed, and so does a text
    /// that the reader refuses; no setting changes. Otherwise the settings
    /// are taken from the table that was read as `load_table` takes them.
    /// Which table is read from a text is the reader's matter.
    pub fn load_config(&mut self, nvs_value: Option<&str>) -> (r: Result<(), LoadError>)
        ensures
            nvs_value is None ==> r == Err::<(), LoadError>(LoadError::NothingStored) && final(self)@
                == old(self)@,
            nvs_value matches Some(text) ==> has_quoted_key(text@) ==> r == Err::<(), LoadError>(
                LoadError::Malformed,
            ) && final(self)@ == old(self)@,
            nvs_value is Some ==> {
                ||| r == Err::<(), LoadError>(LoadError::Malformed) && final(self)@ == old(self)@
                ||| exists|table: Map<Seq<char>, Seq<char>>|
                    {
                        &&& r == #[trigger] load_result(table)
                        &&& final(self)@ == old(self)@.loaded(table, loaded_count(table, 0))
                    }
            },
    {
        match nvs_value {
            None => Err(LoadError::NothingStored),
            Some(text) => {
                if check_quoted_key(text) {
                    return Err(LoadError::Malformed);
                }
                match read_table(text) {
                    Err(_) => Err(LoadError::Malformed),
                    Ok(pairs) => {
                        let r = self.load_table(&pairs);
                        assert(r == load_result(table_of(pairs_view(pairs@))));
                        r
                    },
                }
            },
        }
    }

    /// The pairs of key and value that are stored where nothing is stored
    /// yet: the values of `config` under the keys of the settings, in the
    /// order of loading.
    pub fn set_default_config(&self, config: &Config) -> (r: Vec<(String, String)>)
        ensures
            pairs_view(r@) == seq![
                ("SSID"@, config.wifi_ssid@),
                ("PSK"@, config.wifi_psk@),
                ("PC1"@, config.target_mac_address1@),
                ("PC2"@, config.target_mac_address2@),
                ("PC3"@, config.target_mac_address3@),
                ("PC4"@, config.target_mac_address4@),
                ("TIMEZONE"@, config.timezone_offset@),
                ("IDLESLEEP"@, config.idle_in_sleep_time@),
                ("SLEEPMODE"@, config.sleep_mode@),
                ("DISPLAYOFFTIME"@, config.display_off_time@),
            ],
    {
        let mut r: Vec<(String, String)> = Vec::new();
        r.push(("SSID".to_owned(), config.wifi_ssid.clone()));
        r.push(("PSK".to_owned(), config.wifi_psk.clone()));
        r.push(("PC1".to_owned(), config.target_mac_address1.clone()));
        r.push(("PC2".to_owned(), config.target_mac_address2.clone()));
        r.push(("PC3".to_owned(), config.target_mac_address3.clone()));
        r.push(("PC4".to_owned(), config.target_mac_address4.clone()));
        r.push(("TIMEZONE".to_owned(), config.timezone_offset.clone()));
        r.push(("IDLESLEEP".to_owned(), config.idle_in_sleep_time.clone()));
        r.push(("SLEEPMODE".to_owned(), config.sleep_mode.clone()));
        r.push(("DISPLAYOFFTIME".to_owned(), config.display_off_time.clone()));
        r
    }
}

/// The line that stores `value` under `key`: the key, an equals sign
/// between blanks, and the value in double quotes.
pub open spec fn toml_line(key: Seq<char>, value: Seq<char>) -> Seq<char> {
    key + seq![' ', '=', ' ', '"'] + value + seq!['"', '\n']
}

/// The text that stores `pairs`: a line for each, in order.
pub open spec fn toml_text(pairs: Seq<(Seq<char>, Seq<char>)>) -> Seq<char>
    decreases pairs.len(),
{
    if pairs.len() == 0 {
        Seq::empty()
    } else {
        toml_text(pairs.drop_last()) + toml_line(pairs.last().0, pairs.last().1)
    }
}

/// Appends the characters of `s` to `out`.
fn push_str(out: &mut Vec<char>, s: &str)
    ensures
        final(out)@ == old(out)@ + s@,
{
    let chars = chars_of(s);
    let mut i: usize = 0;
    while i < chars.len()
        invariant
            i <= chars.len(),
            chars@ == s@,
            out@ =~= old(out)@ + chars@.take(i as int),
        decreases chars.len() - i,
    {
        out.push(chars[i]);
        i += 1;
    }
}

/// The text that stores `keyval`: a line for each pair, for `load_config`
/// to read. A value is written between double quotes as it is, so a value
/// that holds a double quote or a backslash is not read back as it was.
pub fn convert_config_to_toml_string(keyval: &Vec<(String, String)>) -> (r: String)
    ensures
        r@ == toml_text(pairs_view(keyval@)),
{
    let mut out: Vec<char> = Vec::new();
    let mut i: usize = 0;
    while i < keyval.len()
        invariant
            i <= keyval.len(),
            out@ == toml_text(pairs_view(keyval@).take(i as int)),
        decreases keyval.len() - i,
    {
        proof {
            let pairs = pairs_view(keyval@);
            assert(pairs.take(i + 1).drop_last() =~= pairs.take(i as int));
        }
        push_str(&mut out, keyval[i].0.as_str());
        out.push(' ');
        out.push('=');
        out.push(' ');
        out.push('"');
        push_str(&mut out, keyval[i].1.as_str());
        out.push('"');
        out.push('\n');
        i += 1;
    }
    assert(pairs_view(keyval@).take(i as int) =~= pairs_view(keyval@));
    string_of(&out)
}

/// Whether `keyval` ask for the stored settings to be wiped: they hold a
/// pair under the key of that action.
pub fn is_going_to_reset(keyval: &Vec<(String, String)>) -> (r: bool)
    ensures
        r == lookup(pairs_view(keyval@), "RESETCONFIG"@) is Some,
{
    lookup_value(keyval, "RESETCONFIG").is_some()
}

} // verus!
