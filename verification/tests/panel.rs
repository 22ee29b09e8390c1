use wakepcbox::config::ConfigData;
use wakepcbox::displayctl::{
    connecting_frame, next_frame_count, progress_frame, step_battery_level, wifi_signal_bars,
    BatteryLevel, DisplayPanel, MessageTypes, WiFiStatus, MAIN_MENU_HWADDR, MAIN_MENU_SYSTEM,
    MAIN_MENU_WIFI,
};
use wakepcbox::keyevent::KeyEvent;
use wakepcbox::ui::InputTypeChar;

fn pair(k: &str, v: &str) -> (String, String) {
    (k.to_string(), v.to_string())
}

fn settings() -> ConfigData {
    let mut c = ConfigData::new();
    c.wifi_ssid = "home".to_string();
    c.wifi_psk = "secret".to_string();
    c.target_mac_address1 = "00:11:22:33:44:55".to_string();
    c.target_mac_address2 = "AA:BB:CC:DD:EE:FF".to_string();
    c.target_mac_address3 = "01:23:45:67:89:ab".to_string();
    c.target_mac_address4 = "ff:ff:ff:ff:ff:ff".to_string();
    c.timezone_offset = 9;
    c
}

#[test]
fn new_panel_is_dark_and_blank() {
    let dp = DisplayPanel::new();
    assert!(!dp.display_active);
    assert_eq!(dp.main_msg, "");
    assert_eq!(dp.second_msg, "");
    assert_eq!(dp.msg_type, MessageTypes::Blank);
    assert_eq!(dp.wifi_status, WiFiStatus::Disconnected);
    assert_eq!(dp.wifi_rssi, 0);
    assert_eq!(dp.num_send_pkt, 0);
    assert!(!dp.initial_logo);
    assert_eq!(dp.timezone_offset, 0);
    assert_eq!(dp.battery_voltage, 0);
    assert_eq!(dp.menu_table.get_menu_item_count(), 0);
    assert_eq!(dp.menu_table.get_current_level(), 0);
    assert_eq!(dp.menu_table.get_current_select(), 0);
    assert!(!dp.menu_table.get_commit_flag());
    assert!(!dp.menu_table.get_confirming_flag());
    assert!(!dp.menu_table.get_confirmed_flag());
    assert!(!dp.is_menu_ready());
}

#[test]
fn panel_setters() {
    let mut dp = DisplayPanel::new();
    dp.set_initial_logo(true);
    assert!(dp.initial_logo);
    dp.set_main_msg(&"Menu".to_string(), MessageTypes::Menu);
    assert_eq!(dp.main_msg, "Menu");
    assert_eq!(dp.msg_type, MessageTypes::Menu);
    assert!(!dp.initial_logo);
    dp.set_second_msg(&"AP:home".to_string());
    assert_eq!(dp.second_msg, "AP:home");
    dp.set_wifi_status(WiFiStatus::Connecting);
    assert_eq!(dp.wifi_status, WiFiStatus::Connecting);
    dp.set_send_pkt(3);
    assert_eq!(dp.num_send_pkt, 3);
    dp.set_timezone_offset(-5);
    assert_eq!(dp.timezone_offset, -5);
    dp.set_battery_voltage(3912);
    assert_eq!(dp.battery_voltage, 3912);
    dp.set_display_active(true);
    assert!(dp.display_active);
    dp.set_wifi_rssi(-67);
    assert_eq!(dp.wifi_rssi, -67);
    assert_eq!(dp.main_msg, "Menu");
}

#[test]
fn menu_of_the_appliance() {
    let mut dp = DisplayPanel::new();
    assert!(dp.initialize_menu(&settings()).is_ok());
    assert!(dp.is_menu_ready());
    let m = &dp.menu_table;
    assert_eq!(m.get_menu_item_count(), 3);
    assert_eq!(m.get_menu_item_title(MAIN_MENU_WIFI), "WiFi");
    assert_eq!(m.get_menu_item_title(MAIN_MENU_HWADDR), "HW Address");
    assert_eq!(m.get_menu_item_title(MAIN_MENU_SYSTEM), "System");
    assert_eq!(m.get_menu_count(0), 2);
    assert_eq!(m.get_menu_count(1), 4);
    assert_eq!(m.get_menu_count(2), 5);
    assert_eq!(m.get_menu_title(2, 0), "TIME ZONE");
    assert_eq!(m.get_menu_key(2, 0), "TIMEZONE");
    assert_eq!(m.get_value(2, 0), "+09");
    assert_eq!(m.get_value_type(2, 0), InputTypeChar::TimezoneType);
    assert_eq!(m.get_value(2, 1), "30");
    assert_eq!(m.get_value(2, 2), "light");
    assert_eq!(m.get_select_item_count(2, 2), 2);
    assert_eq!(m.get_select_item(2, 2, 1), "deep");
    assert_eq!(m.get_menu_title(2, 3), "DISPLAY OFF TIME");
    assert_eq!(m.get_value(2, 4), "BACK TO DEFAULT");
    assert_eq!(m.get_value_type(2, 4), InputTypeChar::ActionType);
    assert_eq!(
        m.get_all_values(),
        vec![
            pair("SSID", "home"),
            pair("PSK", "secret"),
            pair("PC1", "00:11:22:33:44:55"),
            pair("PC2", "AA:BB:CC:DD:EE:FF"),
            pair("PC3", "01:23:45:67:89:ab"),
            pair("PC4", "ff:ff:ff:ff:ff:ff"),
            pair("TIMEZONE", "+09"),
            pair("IDLESLEEP", "30"),
            pair("SLEEPMODE", "light"),
            pair("DISPLAYOFFTIME", "30"),
        ]
    );
}

#[test]
fn negative_offset_is_shown_with_its_sign() {
    let mut c = settings();
    c.timezone_offset = -12;
    c.sleep_mode = "deep".to_string();
    let mut dp = DisplayPanel::new();
    assert!(dp.initialize_menu(&c).is_ok());
    assert_eq!(dp.menu_table.get_value(2, 0), "-12");
    assert_eq!(dp.menu_table.get_current_select_item(2, 2), 1);
    c.timezone_offset = 0;
    assert!(dp.initialize_menu(&c).is_ok());
    assert_eq!(dp.menu_table.get_value(2, 0), "+00");
    assert_eq!(dp.menu_table.get_menu_item_count(), 3);
}

#[test]
fn misshapen_settings_are_named_and_leave_the_panel_alone() {
    let mut dp = DisplayPanel::new();
    let c = ConfigData::new();
    let e = dp.initialize_menu(&c).unwrap_err();
    assert_eq!(e.key, "SSID");
    assert_eq!(dp.menu_table.get_menu_item_count(), 0);
    let mut c = settings();
    c.target_mac_address3 = "01:23:45:67:89".to_string();
    assert_eq!(dp.initialize_menu(&c).unwrap_err().key, "PC3");
    let mut c = settings();
    c.timezone_offset = 100;
    assert_eq!(dp.initialize_menu(&c).unwrap_err().key, "TIMEZONE");
    let mut c = settings();
    c.sleep_mode = "nap".to_string();
    assert_eq!(dp.initialize_menu(&c).unwrap_err().key, "SLEEPMODE");
    assert!(!dp.is_menu_ready());
    assert!(dp.initialize_menu(&settings()).is_ok());
    let mut bad = settings();
    bad.wifi_psk = String::new();
    assert_eq!(dp.initialize_menu(&bad).unwrap_err().key, "PSK");
    assert!(dp.is_menu_ready());
    assert_eq!(dp.menu_table.get_value(0, 0), "home");
}

#[test]
fn panel_runs_a_session() {
    let mut dp = DisplayPanel::new();
    dp.initialize_menu(&settings()).unwrap();
    dp.set_main_msg(&"Menu".to_string(), MessageTypes::Menu);
    dp.reset_menu();
    let keys = [
        KeyEvent::CenterKeyUp,
        KeyEvent::CenterKeyUp,
        KeyEvent::UpKeyUp,
        KeyEvent::UpKeyUp,
        KeyEvent::CenterKeyUp,
        KeyEvent::RightKeyUp,
        KeyEvent::CenterKeyUp,
        KeyEvent::LeftKeyUp,
    ];
    for k in keys {
        assert_eq!(dp.key_event_input(k), (false, None));
    }
    let (ended, out) = dp.key_event_input(KeyEvent::LeftKeyUp);
    assert!(ended);
    assert_eq!(out.unwrap()[0], pair("SSID", "fome"));
    assert_eq!(dp.main_msg, "Menu");
    dp.reset_menu();
    assert!(!dp.menu_table.get_commit_flag());
    assert_eq!(dp.menu_table.get_committed_value(0, 0), "fome");
    assert!(dp.is_menu_ready());
    assert_eq!(dp.key_event_input(KeyEvent::LeftKeyUp), (true, None));
}

#[test]
fn panel_runs_a_batch_of_keys() {
    let mut dp = DisplayPanel::new();
    dp.initialize_menu(&settings()).unwrap();
    let keys = vec![
        KeyEvent::UpKeyUp,
        KeyEvent::CenterKeyUp,
        KeyEvent::UpKeyUp,
        KeyEvent::CenterKeyUp,
        KeyEvent::CenterKeyUp,
        KeyEvent::RightKeyUp,
        KeyEvent::CenterKeyUp,
        KeyEvent::LeftKeyUp,
    ];
    let (ended, out) = dp.key_events_input(&keys);
    assert!(ended);
    let out = out.unwrap();
    assert_eq!(out.len(), 11);
    assert_eq!(out[10], pair("RESETCONFIG", "BACK TO DEFAULT"));
    assert_eq!(dp.menu_table.get_current_level(), 2);
}

#[test]
fn signal_bars_by_strength() {
    assert_eq!(wifi_signal_bars(-101), None);
    assert_eq!(wifi_signal_bars(-100), Some(0));
    assert_eq!(wifi_signal_bars(-80), Some(0));
    assert_eq!(wifi_signal_bars(-79), Some(1));
    assert_eq!(wifi_signal_bars(-75), Some(1));
    assert_eq!(wifi_signal_bars(-74), Some(2));
    assert_eq!(wifi_signal_bars(-70), Some(2));
    assert_eq!(wifi_signal_bars(-69), Some(3));
    assert_eq!(wifi_signal_bars(-65), Some(3));
    assert_eq!(wifi_signal_bars(-64), Some(4));
    assert_eq!(wifi_signal_bars(-30), Some(4));
    assert_eq!(wifi_signal_bars(-29), None);
    assert_eq!(wifi_signal_bars(0), None);
}

#[test]
fn frames_of_the_animations() {
    assert_eq!(next_frame_count(0), 1);
    assert_eq!(next_frame_count(14), 15);
    assert_eq!(next_frame_count(15), 0);
    let connecting: Vec<u8> = (0..16).map(connecting_frame).collect();
    assert_eq!(connecting, vec![0, 0, 0, 1, 1, 1, 2, 2, 2, 3, 3, 3, 4, 4, 4, 4]);
    let progress: Vec<u8> = (0..16).map(progress_frame).collect();
    assert_eq!(progress, vec![0, 0, 0, 0, 1, 1, 1, 1, 0, 0, 0, 0, 1, 1, 1, 1]);
}

#[test]
fn battery_symbol_steps_with_hysteresis() {
    assert_eq!(step_battery_level(BatteryLevel::Empty, 3750), BatteryLevel::Empty);
    assert_eq!(step_battery_level(BatteryLevel::Empty, 3751), BatteryLevel::Fifth);
    assert_eq!(step_battery_level(BatteryLevel::Fifth, 3700), BatteryLevel::Fifth);
    assert_eq!(step_battery_level(BatteryLevel::Fifth, 3699), BatteryLevel::Empty);
    assert_eq!(step_battery_level(BatteryLevel::Fifth, 3850), BatteryLevel::Fifth);
    assert_eq!(step_battery_level(BatteryLevel::Fifth, 3851), BatteryLevel::TwoFifths);
    assert_eq!(step_battery_level(BatteryLevel::TwoFifths, 3799), BatteryLevel::Fifth);
    assert_eq!(step_battery_level(BatteryLevel::TwoFifths, 3951), BatteryLevel::ThreeFifths);
    assert_eq!(step_battery_level(BatteryLevel::ThreeFifths, 3899), BatteryLevel::TwoFifths);
    assert_eq!(step_battery_level(BatteryLevel::ThreeFifths, 4000), BatteryLevel::ThreeFifths);
    assert_eq!(step_battery_level(BatteryLevel::ThreeFifths, 4001), BatteryLevel::FourFifths);
    assert_eq!(step_battery_level(BatteryLevel::FourFifths, 3949), BatteryLevel::ThreeFifths);
    assert_eq!(step_battery_level(BatteryLevel::FourFifths, 4051), BatteryLevel::Full);
    assert_eq!(step_battery_level(BatteryLevel::Full, 3999), BatteryLevel::FourFifths);
    assert_eq!(step_battery_level(BatteryLevel::Full, 4550), BatteryLevel::Full);
    assert_eq!(step_battery_level(BatteryLevel::Full, 4551), BatteryLevel::External);
    assert_eq!(step_battery_level(BatteryLevel::External, 4500), BatteryLevel::External);
    assert_eq!(step_battery_level(BatteryLevel::External, 4499), BatteryLevel::Full);
    let mut level = BatteryLevel::Empty;
    for _ in 0..3 {
        level = step_battery_level(level, 4200);
    }
    assert_eq!(level, BatteryLevel::ThreeFifths);
}
