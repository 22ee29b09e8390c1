//! What the display shows, and the menu behind it.
//!
//! A `DisplayPanel` holds what a renderer needs to draw a frame: the
//! messages, the state of the network and of the battery, and the menu.
//! Drawing is not done here; this module decides what to draw.

use vstd::prelude::*;
use crate::config::{ConfigData, ConfigView};
use crate::keyevent::KeyEvent;
use crate::number::{decimal, decimal_chars, decimal_two, decimal_two_chars};
use crate::session::{after_key, ends_session, opened_is_sound, payload, run_keys};
use crate::text::string_of;
use crate::ui::{
    pairs_view, CategoryView, FieldView, InputTypeChar, MenuTable, MenuType, MenuView,
    ValidationError,
};

verus! {

/// The place of the network category in the menu.
pub const MAIN_MENU_WIFI: usize = 0;

/// The place of the category of hardware addresses in the menu.
pub const MAIN_MENU_HWADDR: usize = 1;

/// The place of the system category in the menu.
pub const MAIN_MENU_SYSTEM: usize = 2;

/// The state of the wireless network.
#[derive(Debug, Clone, Copy, PartialEq, Eq, Structural)]
pub enum WiFiStatus {
    Disconnected,
    Connecting,
    Connected,
}

/// What kind of screen is shown.
#[derive(Debug, Clone, Copy, PartialEq, Eq, Structural)]
pub enum MessageTypes {
    /// Nothing.
    Blank,
    Ready,
    Progress,
    WakeUp,
    Status,
    Error,
    Menu,
}

/// How much charge the battery symbol shows.
#[derive(Debug, Clone, Copy, PartialEq, Eq, Structural)]
pub enum BatteryLevel {
    Empty,
    Fifth,
    TwoFifths,
    ThreeFifths,
    FourFifths,
    Full,
    /// Running from external power.
    External,
}

/// The symbol of signal strength for `rssi` in dBm, weakest 0 to strongest
/// 4; none outside the range from -100 to -30.
pub open spec fn signal_bars(rssi: i32) -> Option<u8> {
    if -100 <= rssi <= -80 {
        Some(0u8)
    } else if -79 <= rssi <= -75 {
        Some(1u8)
    } else if -74 <= rssi <= -70 {
        Some(2u8)
    } else if -69 <= rssi <= -65 {
        Some(3u8)
    } else if -64 <= rssi <= -30 {
        Some(4u8)
    } else {
        None
    }
}

/// The battery symbol after a reading of `millivolts`, having shown
/// `level` before.
///
/// The symbol moves one step at a time, and the voltage at which it steps
/// up lies above the one at which it steps down again, so that a voltage
/// near a threshold does not make it flicker.
pub open spec fn next_battery_level(level: BatteryLevel, millivolts: u32) -> BatteryLevel {
    match level {
        BatteryLevel::Empty => if millivolts > 3750 {
            BatteryLevel::Fifth
        } else {
            level
        },
        BatteryLevel::Fifth => if millivolts > 3850 {
            BatteryLevel::TwoFifths
        } else if millivolts < 3700 {
            BatteryLevel::Empty
        } else {
            level
        },
        BatteryLevel::TwoFifths => if millivolts > 3950 {
            BatteryLevel::ThreeFifths
        } else if millivolts < 3800 {
            BatteryLevel::Fifth
        } else {
            level
        },
        BatteryLevel::ThreeFifths => if millivolts > 4000 {
            BatteryLevel::FourFifths
        } else if millivolts < 3900 {
            BatteryLevel::TwoFifths
        } else {
            level
        },
        BatteryLevel::FourFifths => if millivolts > 4050 {
            BatteryLevel::Full
        } else if millivolts < 3950 {
            BatteryLevel::ThreeFifths
        } else {
            level
        },
        BatteryLevel::Full => if millivolts > 4550 {
            BatteryLevel::External
        } else if millivolts < 4000 {
            BatteryLevel::FourFifths
        } else {
            level
        },
        BatteryLevel::External => if millivolts < 4500 {
            BatteryLevel::Full
        } else {
            level
        },
    }
}

/// The symbol of signal strength for `rssi`.
pub fn wifi_signal_bars(rssi: i32) -> (r: Option<u8>)
    ensures
        r == signal_bars(rssi),
{
    if rssi >= -100 && rssi <= -80 {
        Some(0)
    } else if rssi >= -79 && rssi <= -75 {
        Some(1)
    } else if rssi >= -74 && rssi <= -70 {
        Some(2)
    } else if rssi >= -69 && rssi <= -65 {
        Some(3)
    } else if rssi >= -64 && rssi <= -30 {
        Some(4)
    } else {
        None
    }
}

/// The count of frames after `count`: one more, and 0 after 15.
pub fn next_frame_count(count: u32) -> (r: u32)
    ensures
        r == if count >= 15 {
            0
        } else {
            count + 1
        },
{
    if count >= 15 {
        0
    } else {
        count + 1
    }
}

/// Which of the five symbols of a network that is connecting to show at
/// frame `count`: each for three frames in turn, the last to the end.
pub fn connecting_frame(count: u32) -> (r: u8)
    ensures
        r == if count <= 2 {
            0u8
        } else if count <= 5 {
            1u8
        } else if count <= 8 {
            2u8
        } else if count <= 11 {
            3u8
        } else {
            4u8
        },
{
    if count <= 2 {
        0
    } else if count <= 5 {
        1
    } else if count <= 8 {
        2
    } else if count <= 11 {
        3
    } else {
        4
    }
}

/// Which of the two pictures of a sleeping machine to show at frame
/// `count`: they change every four frames.
pub fn progress_frame(count: u32) -> (r: u8)
    ensures
        r == if (count / 4) % 2 == 0 {
            0u8
        } else {
            1u8
        },
{
    if (count / 4) % 2 == 0 {
        0
    } else {
        1
    }
}

/// The battery symbol after a reading of `millivolts`.
pub fn step_battery_level(level: BatteryLevel, millivolts: u32) -> (r: BatteryLevel)
    ensures
        r == next_battery_level(level, millivolts),
{
    match level {
        BatteryLevel::Empty => {
            if millivolts > 3750 {
                BatteryLevel::Fifth
            } else {
                level
            }
        },
        BatteryLevel::Fifth => {
            if millivolts > 3850 {
                BatteryLevel::TwoFifths
            } else if millivolts < 3700 {
                BatteryLevel::Empty
            } else {
                level
            }
        },
        BatteryLevel::TwoFifths => {
            if millivolts > 3950 {
                BatteryLevel::ThreeFifths
            } else if millivolts < 3800 {
                BatteryLevel::Fifth
            } else {
                level
            }
        },
        BatteryLevel::ThreeFifths => {
            if millivolts > 4000 {
                BatteryLevel::FourFifths
            } else if millivolts < 3900 {
                BatteryLevel::TwoFifths
            } else {
                level
            }
        },
        BatteryLevel::FourFifths => {
            if millivolts > 4050 {
                BatteryLevel::Full
            } else if millivolts < 3950 {
                BatteryLevel::ThreeFifths
            } else {
                level
            }
        },
        BatteryLevel::Full => {
            if millivolts > 4550 {
                BatteryLevel::External
            } else if millivolts < 4000 {
                BatteryLevel::FourFifths
            } else {
                level
            }
        },
        BatteryLevel::External => {
            if millivolts < 4500 {
                BatteryLevel::Full
            } else {
                level
            }
        },
    }
}

/// The size of `n`, as a natural number.
pub open spec fn magnitude(n: i32) -> nat {
    if n >= 0 {
        n as nat
    } else {
        (0 - n) as nat
    }
}

/// An offset from UTC as the menu shows it: a sign and two digits at
/// least.
pub open spec fn offset_text(hours: i32) -> Seq<char> {
    seq![if hours >= 0 {
        '+'
    } else {
        '-'
    }] + decimal_two(magnitude(hours))
}

/// A field of the menu as it is first made.
pub open spec fn new_field(
    title: Seq<char>,
    key: Seq<char>,
    value_type: InputTypeChar,
    value: Seq<char>,
    options: Seq<Seq<char>>,
) -> FieldView {
    FieldView {
        title,
        key,
        menu_type: MenuType::SubMenu,
        value_type,
        working: value,
        committed: value,
        cursor: 0,
        action_flag: false,
        options,
        selected_option: 0,
    }
}

/// The fields of the network category.
pub open spec fn wifi_fields(config: ConfigView) -> Seq<FieldView> {
    seq![
        new_field("SSID"@, "SSID"@, InputTypeChar::StringType, config.wifi_ssid, Seq::empty()),
        new_field("PSK"@, "PSK"@, InputTypeChar::StringType, config.wifi_psk, Seq::empty()),
    ]
}

/// The fields of the category of hardware addresses.
pub open spec fn address_fields(config: ConfigView) -> Seq<FieldView> {
    seq![
        new_field(
            "PC1"@,
            "PC1"@,
            InputTypeChar::HWAddressType,
            config.target_mac_address1,
            Seq::empty(),
        ),
        new_field(
            "PC2"@,
            "PC2"@,
            InputTypeChar::HWAddressType,
            config.target_mac_address2,
            Seq::empty(),
        ),
        new_field(
            "PC3"@,
            "PC3"@,
            InputTypeChar::HWAddressType,
            config.target_mac_address3,
            Seq::empty(),
        ),
        new_field(
            "PC4"@,
            "PC4"@,
            InputTypeChar::HWAddressType,
            config.target_mac_address4,
            Seq::empty(),
        ),
    ]
}

/// The fields of the system category.
pub open spec fn system_fields(config: ConfigView) -> Seq<FieldView> {
    seq![
        new_field(
            "TIME ZONE"@,
            "TIMEZONE"@,
            InputTypeChar::TimezoneType,
            offset_text(config.timezone_offset),
            Seq::empty(),
        ),
        new_field(
            "IDLE TIME"@,
            "IDLESLEEP"@,
            InputTypeChar::NumberType,
            decimal(config.idle_in_sleep_time as nat),
            Seq::empty(),
        ),
        new_field(
            "SLEEP MODE"@,
            "SLEEPMODE"@,
            InputTypeChar::SelectType,
            config.sleep_mode,
            seq!["light"@, "deep"@],
        ),
        new_field(
            "DISPLAY OFF TIME"@,
            "DISPLAYOFFTIME"@,
            InputTypeChar::NumberType,
            decimal(config.display_off_time as nat),
            Seq::empty(),
        ),
        new_field(
            "RESET CONFIG"@,
            "RESETCONFIG"@,
            InputTypeChar::ActionType,
            "BACK TO DEFAULT"@,
            Seq::empty(),
        ),
    ]
}

/// The menu of the appliance with the values of `config`, before it is
/// checked and made ready.
pub open spec fn standard_menu(config: ConfigView) -> MenuView {
    MenuView {
        categories: seq![
            CategoryView { title: "WiFi"@, fields: wifi_fields(config), selected: 0 },
            CategoryView { title: "HW Address"@, fields: address_fields(config), selected: 0 },
            CategoryView { title: "System"@, fields: system_fields(config), selected: 0 },
        ],
        level: 0,
        selected: 0,
        commit_flag: false,
        confirming_flag: false,
        confirmed_flag: false,
    }
}

/// What the display shows.
#[derive(Debug)]
pub struct DisplayPanel {
    pub display_active: bool,
    pub main_msg: String,
    pub second_msg: String,
    pub msg_type: MessageTypes,
    pub wifi_status: WiFiStatus,
    pub wifi_rssi: i32,
    pub num_send_pkt: u32,
    pub initial_logo: bool,
    pub timezone_offset: i32,
    /// The voltage of the battery in millivolts.
    pub battery_voltage: u32,
    pub menu_table: MenuTable,
}

/// The text of an offset from UTC.
fn offset_string(hours: i32) -> (r: String)
    ensures
        r@ == offset_text(hours),
{
    let size: u32 = if hours >= 0 {
        hours as u32
    } else if hours == i32::MIN {
        0x8000_0000
    } else {
        (0 - hours) as u32
    };
    let mut chars: Vec<char> = Vec::new();
    chars.push(if hours >= 0 {
        '+'
    } else {
        '-'
    });
    let mut digits = decimal_two_chars(size);
    chars.append(&mut digits);
    string_of(&chars)
}

/// The menu of the appliance with the values of `config`.
fn build_menu(config: &ConfigData) -> (r: MenuTable)
    ensures
        r@ == standard_menu(config@),
{
    let mut table = MenuTable::new();
    table.add_menu_item("WiFi");
    table.add_menu_item("HW Address");
    table.add_menu_item("System");
    table.add_menu(
        MAIN_MENU_WIFI,
        "SSID",
        "SSID",
        MenuType::SubMenu,
        config.wifi_ssid.as_str(),
        InputTypeChar::StringType,
        Vec::new(),
    );
    table.add_menu(
        MAIN_MENU_WIFI,
        "PSK",
        "PSK",
        MenuType::SubMenu,
        config.wifi_psk.as_str(),
        InputTypeChar::StringType,
        Vec::new(),
    );
    assert(table@.categories[0].fields =~= wifi_fields(config@)) by {
        assert(crate::ui::strings_view(Seq::<String>::empty()) =~= Seq::<Seq<char>>::empty());
    }
    table.add_menu(
        MAIN_MENU_HWADDR,
        "PC1",
        "PC1",
        MenuType::SubMenu,
        config.target_mac_address1.as_str(),
        InputTypeChar::HWAddressType,
        Vec::new(),
    );
    table.add_menu(
        MAIN_MENU_HWADDR,
        "PC2",
        "PC2",
        MenuType::SubMenu,
        config.target_mac_address2.as_str(),
        InputTypeChar::HWAddressType,
        Vec::new(),
    );
    table.add_menu(
        MAIN_MENU_HWADDR,
        "PC3",
        "PC3",
        MenuType::SubMenu,
        config.target_mac_address3.as_str(),
        InputTypeChar::HWAddressType,
        Vec::new(),
    );
    table.add_menu(
        MAIN_MENU_HWADDR,
        "PC4",
        "PC4",
        MenuType::SubMenu,
        config.target_mac_address4.as_str(),
        InputTypeChar::HWAddressType,
        Vec::new(),
    );
    assert(table@.categories[1].fields =~= address_fields(config@));
    let offset = offset_string(config.timezone_offset);
    table.add_menu(
        MAIN_MENU_SYSTEM,
        "TIME ZONE",
        "TIMEZONE",
        MenuType::SubMenu,
        offset.as_str(),
        InputTypeChar::TimezoneType,
        Vec::new(),
    );
    let idle = string_of(&decimal_chars(config.idle_in_sleep_time));
    table.add_menu(
        MAIN_MENU_SYSTEM,
        "IDLE TIME",
        "IDLESLEEP",
        MenuType::SubMenu,
        idle.as_str(),
        InputTypeChar::NumberType,
        Vec::new(),
    );
    let mut modes: Vec<String> = Vec::new();
    modes.push("light".to_owned());
    modes.push("deep".to_owned());
    assert(crate::ui::strings_view(modes@) =~= seq!["light"@, "deep"@]);
    table.add_menu(
        MAIN_MENU_SYSTEM,
        "SLEEP MODE",
        "SLEEPMODE",
        MenuType::SubMenu,
        config.sleep_mode.as_str(),
        InputTypeChar::SelectType,
        modes,
    );
    let dark = string_of(&decimal_chars(config.display_off_time));
    table.add_menu(
        MAIN_MENU_SYSTEM,
        "DISPLAY OFF TIME",
        "DISPLAYOFFTIME",
        MenuType::SubMenu,
        dark.as_str(),
        InputTypeChar::NumberType,
        Vec::new(),
    );
    table.add_menu(
        MAIN_MENU_SYSTEM,
        "RESET CONFIG",
        "RESETCONFIG",
        MenuType::SubMenu,
        "BACK TO DEFAULT",
        InputTypeChar::ActionType,
        Vec::new(),
    );
    assert(table@.categories[2].fields =~= system_fields(config@));
    assert(table@.categories =~= standard_menu(config@).categories);
    table
}

impl DisplayPanel {
    /// A dark panel with no message, no network and an empty menu.
    pub fn new() -> (r: DisplayPanel)
        ensures
            !r.display_active,
            r.main_msg@ == Seq::<char>::empty(),
            r.second_msg@ == Seq::<char>::empty(),
            r.msg_type == MessageTypes::Blank,
            r.wifi_status == WiFiStatus::Disconnected,
            r.wifi_rssi == 0,
            r.num_send_pkt == 0,
            !r.initial_logo,
            r.timezone_offset == 0,
            r.battery_voltage == 0,
            r.menu_table@ == (MenuView {
                categories: Seq::empty(),
                level: 0,
                selected: 0,
                commit_flag: false,
                confirming_flag: false,
                confirmed_flag: false,
            }),
    {
        DisplayPanel {
            display_active: false,
            main_msg: String::new(),
            second_msg: String::new(),
            msg_type: MessageTypes::Blank,
            wifi_status: WiFiStatus::Disconnected,
            wifi_rssi: 0,
            num_send_pkt: 0,
            initial_logo: false,
            timezone_offset: 0,
            battery_voltage: 0,
            menu_table: MenuTable::new(),
        }
    }

    pub fn set_second_msg(&mut self, msg: &String)
        ensures
            final(self).second_msg@ == msg@,
            final(self).menu_table@ == old(self).menu_table@,
            final(self).display_active == old(self).display_active,
            final(self).main_msg == old(self).main_msg,
            final(self).msg_type == old(self).msg_type,
            final(self).wifi_status == old(self).wifi_status,
            final(self).wifi_rssi == old(self).wifi_rssi,
            final(self).num_send_pkt == old(self).num_send_pkt,
            final(self).initial_logo == old(self).initial_logo,
            final(self).timezone_offset == old(self).timezone_offset,
            final(self).battery_voltage == old(self).battery_voltage,
    {
        self.second_msg = msg.clone();
    }

    pub fn set_wifi_status(&mut self, status: WiFiStatus)
        ensures
            *final(self) == (DisplayPanel { wifi_status: status, ..*old(self) }),
    {
        self.wifi_status = status;
    }

    pub fn set_send_pkt(&mut self, count: u32)
        ensures
            *final(self) == (DisplayPanel { num_send_pkt: count, ..*old(self) }),
    {
        self.num_send_pkt = count;
    }

    pub fn set_timezone_offset(&mut self, offset: i32)
        ensures
            *final(self) == (DisplayPanel { timezone_offset: offset, ..*old(self) }),
    {
        self.timezone_offset = offset;
    }

    pub fn set_initial_logo(&mut self, show: bool)
        ensures
            *final(self) == (DisplayPanel { initial_logo: show, ..*old(self) }),
    {
        self.initial_logo = show;
    }

    /// Sets the main message and its kind, and takes the logo away.
    pub fn set_main_msg(&mut self, msg: &String, msg_type: MessageTypes)
        ensures
            final(self).main_msg@ == msg@,
            final(self).msg_type == msg_type,
            !final(self).initial_logo,
            final(self).menu_table@ == old(self).menu_table@,
            final(self).display_active == old(self).display_active,
            final(self).second_msg == old(self).second_msg,
            final(self).wifi_status == old(self).wifi_status,
            final(self).wifi_rssi == old(self).wifi_rssi,
            final(self).num_send_pkt == old(self).num_send_pkt,
            final(self).timezone_offset == old(self).timezone_offset,
            final(self).battery_voltage == old(self).battery_voltage,
    {
        self.main_msg = msg.clone();
        self.msg_type = msg_type;
        self.initial_logo = false;
    }

    /// Sets the voltage of the battery, in millivolts.
    pub fn set_battery_voltage(&mut self, voltage: u32)
        ensures
            *final(self) == (DisplayPanel { battery_voltage: voltage, ..*old(self) }),
    {
        self.battery_voltage = voltage;
    }

    pub fn set_display_active(&mut self, active: bool)
        ensures
            *final(self) == (DisplayPanel { display_active: active, ..*old(self) }),
    {
        self.display_active = active;
    }

    pub fn set_wifi_rssi(&mut self, rssi: i32)
        ensures
            *final(self) == (DisplayPanel { wifi_rssi: rssi, ..*old(self) }),
    {
        self.wifi_rssi = rssi;
    }

    /// Makes the menu of the appliance from `config_data`: the network, the
    /// hardware addresses of the four machines and the system settings,
    /// each field with its value.
    ///
    /// Where a value does not have the shape of its field, the panel is
    /// left as it was and the error names the first such field. Otherwise
    /// the menu is ready for a session.
    pub fn initialize_menu(&mut self, config_data: &ConfigData) -> (r: Result<(), ValidationError>)
        ensures
            r is Ok == standard_menu(config_data@).loads(Seq::empty()),
            r is Ok ==> final(self).menu_table@ == standard_menu(config_data@).initialized(Seq::empty())
                && final(self).menu_table@.is_sound(),
            r matches Err(e) ==> final(self).menu_table@ == old(self).menu_table@ && exists|i: int, j: int|
                {
                    &&& standard_menu(config_data@).has_field(i, j)
                    &&& !(#[trigger] standard_menu(config_data@).field(i, j)).loads(Seq::empty())
                    &&& standard_menu(config_data@).loads_before(Seq::empty(), i, j)
                    &&& e.key@ == standard_menu(config_data@).field(i, j).key
                },
            final(self).display_active == old(self).display_active,
            final(self).main_msg == old(self).main_msg,
            final(self).second_msg == old(self).second_msg,
            final(self).msg_type == old(self).msg_type,
            final(self).wifi_status == old(self).wifi_status,
            final(self).wifi_rssi == old(self).wifi_rssi,
            final(self).num_send_pkt == old(self).num_send_pkt,
            final(self).initial_logo == old(self).initial_logo,
            final(self).timezone_offset == old(self).timezone_offset,
            final(self).battery_voltage == old(self).battery_voltage,
    {
        let mut table = build_menu(config_data);
        let nothing: Vec<(String, String)> = Vec::new();
        assert(pairs_view(nothing@) =~= Seq::empty());
        match table.initialize_from(&nothing) {
            Ok(()) => {
                self.menu_table = table;
                Ok(())
            },
            Err(e) => Err(e),
        }
    }

    /// Opens a session in the menu: back to the category list, with the
    /// first category selected and in each category its first field, and
    /// with no session flag set. No field changes.
    pub fn reset_menu(&mut self)
        ensures
            final(self).menu_table@ == old(self).menu_table@.opened(),
            old(self).menu_table@.is_sound() ==> final(self).menu_table@.is_sound(),
            final(self).display_active == old(self).display_active,
            final(self).main_msg == old(self).main_msg,
            final(self).second_msg == old(self).second_msg,
            final(self).msg_type == old(self).msg_type,
            final(self).wifi_status == old(self).wifi_status,
            final(self).wifi_rssi == old(self).wifi_rssi,
            final(self).num_send_pkt == old(self).num_send_pkt,
            final(self).initial_logo == old(self).initial_logo,
            final(self).timezone_offset == old(self).timezone_offset,
            final(self).battery_voltage == old(self).battery_voltage,
    {
        self.menu_table.reset_menu();
        proof {
            if old(self).menu_table@.is_sound() {
                opened_is_sound(old(self).menu_table@);
            }
        }
    }

    /// Whether the menu is ready for a session.
    pub fn is_menu_ready(&self) -> (r: bool)
        ensures
            r == self.menu_table@.is_sound(),
    {
        self.menu_table.is_sound()
    }

    /// Acts on one key event of a session in the menu.
    ///
    /// The first part of the result says whether the session is over, the
    /// second holds what it hands out: the pairs of key and committed value
    /// where it ends after a commit, nothing where it ends without one or
    /// goes on.
    pub fn key_event_input(&mut self, key: KeyEvent) -> (r: (bool, Option<Vec<(String, String)>>))
        requires
            old(self).menu_table@.is_sound(),
        ensures
            final(self).menu_table@ == after_key(old(self).menu_table@, key),
            final(self).menu_table@.is_sound(),
            r.0 == ends_session(old(self).menu_table@, key),
            r.1 is Some == payload(old(self).menu_table@, key) is Some,
            r.1 matches Some(pairs) ==> payload(old(self).menu_table@, key) == Some(pairs_view(pairs@)),
            final(self).display_active == old(self).display_active,
            final(self).main_msg == old(self).main_msg,
            final(self).second_msg == old(self).second_msg,
            final(self).msg_type == old(self).msg_type,
            final(self).wifi_status == old(self).wifi_status,
            final(self).wifi_rssi == old(self).wifi_rssi,
            final(self).num_send_pkt == old(self).num_send_pkt,
            final(self).initial_logo == old(self).initial_logo,
            final(self).timezone_offset == old(self).timezone_offset,
            final(self).battery_voltage == old(self).battery_voltage,
    {
        self.menu_table.handle_key_event(key)
    }

    /// Acts on the key events `keys` in turn, up to and with the first
    /// that ends the session.
    pub fn key_events_input(&mut self, keys: &Vec<KeyEvent>) -> (r: (
        bool,
        Option<Vec<(String, String)>>,
    ))
        requires
            old(self).menu_table@.is_sound(),
        ensures
            final(self).menu_table@ == run_keys(old(self).menu_table@, keys@).menu,
            final(self).menu_table@.is_sound(),
            r.0 == run_keys(old(self).menu_table@, keys@).ended,
            r.1 is Some == run_keys(old(self).menu_table@, keys@).handed_out is Some,
            r.1 matches Some(pairs) ==> run_keys(old(self).menu_table@, keys@).handed_out == Some(
                pairs_view(pairs@),
            ),
            final(self).display_active == old(self).display_active,
            final(self).main_msg == old(self).main_msg,
            final(self).second_msg == old(self).second_msg,
            final(self).msg_type == old(self).msg_type,
            final(self).wifi_status == old(self).wifi_status,
            final(self).wifi_rssi == old(self).wifi_rssi,
            final(self).num_send_pkt == old(self).num_send_pkt,
            final(self).initial_logo == old(self).initial_logo,
            final(self).timezone_offset == old(self).timezone_offset,
            final(self).battery_voltage == old(self).battery_voltage,
    {
        self.menu_table.handle_key_events(keys)
    }
}

} // verus!
