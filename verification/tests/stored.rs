use wakepcbox::config::{
    check_quoted_key, convert_config_to_toml_string, is_going_to_reset, Config, ConfigData,
    LoadError, Setting,
};
use wakepcbox::wakepacket::{parse_mac_address, TargetDevice, WakeError, WakePacket};

fn pair(k: &str, v: &str) -> (String, String) {
    (k.to_string(), v.to_string())
}

fn full_table() -> Vec<(String, String)> {
    vec![
        pair("SSID", "home"),
        pair("PSK", "secret"),
        pair("PC1", "00:11:22:33:44:55"),
        pair("PC2", "AA:BB:CC:DD:EE:FF"),
        pair("PC3", "01:23:45:67:89:ab"),
        pair("PC4", "ff:ff:ff:ff:ff:ff"),
        pair("TIMEZONE", "-5"),
        pair("IDLESLEEP", "60"),
        pair("SLEEPMODE", "deep"),
        pair("DISPLAYOFFTIME", "0"),
    ]
}

#[test]
fn new_settings() {
    let c = ConfigData::new();
    assert_eq!(c.wifi_ssid, "");
    assert_eq!(c.wifi_psk, "");
    assert_eq!(c.target_mac_address1, "");
    assert_eq!(c.target_mac_address4, "");
    assert_eq!(c.timezone_offset, 0);
    assert_eq!(c.idle_in_sleep_time, 30);
    assert_eq!(c.sleep_mode, "light");
    assert_eq!(c.display_off_time, 30);
}

#[test]
fn default_pairs_follow_the_order_of_loading() {
    let c = ConfigData::new();
    let d = Config::default();
    assert_eq!(
        c.set_default_config(&d),
        vec![
            pair("SSID", ""),
            pair("PSK", ""),
            pair("PC1", ""),
            pair("PC2", ""),
            pair("PC3", ""),
            pair("PC4", ""),
            pair("TIMEZONE", "0"),
            pair("IDLESLEEP", "30"),
            pair("SLEEPMODE", "light"),
            pair("DISPLAYOFFTIME", "30"),
        ]
    );
    let mut other = Config::default();
    other.wifi_ssid = "lab".to_string();
    other.display_off_time = "5".to_string();
    let pairs = c.set_default_config(&other);
    assert_eq!(pairs[0], pair("SSID", "lab"));
    assert_eq!(pairs[9], pair("DISPLAYOFFTIME", "5"));
}

#[test]
fn table_loads_into_settings() {
    let mut c = ConfigData::new();
    assert_eq!(c.load_table(&full_table()), Ok(()));
    assert_eq!(c.wifi_ssid, "home");
    assert_eq!(c.wifi_psk, "secret");
    assert_eq!(c.target_mac_address1, "00:11:22:33:44:55");
    assert_eq!(c.target_mac_address2, "AA:BB:CC:DD:EE:FF");
    assert_eq!(c.target_mac_address3, "01:23:45:67:89:ab");
    assert_eq!(c.target_mac_address4, "ff:ff:ff:ff:ff:ff");
    assert_eq!(c.timezone_offset, -5);
    assert_eq!(c.idle_in_sleep_time, 60);
    assert_eq!(c.sleep_mode, "deep");
    assert_eq!(c.display_off_time, 0);
}

#[test]
fn missing_setting_ends_the_loading_where_it_stands() {
    let mut table = full_table();
    table.remove(3);
    let mut c = ConfigData::new();
    assert_eq!(c.load_table(&table), Err(LoadError::NotFound(Setting::Pc2)));
    assert_eq!(c.wifi_ssid, "home");
    assert_eq!(c.target_mac_address1, "00:11:22:33:44:55");
    assert_eq!(c.target_mac_address2, "");
    assert_eq!(c.target_mac_address3, "");
    assert_eq!(c.idle_in_sleep_time, 30);
    assert_eq!(c.sleep_mode, "light");
    let mut c = ConfigData::new();
    assert_eq!(c.load_table(&Vec::new()), Err(LoadError::NotFound(Setting::Ssid)));
    assert_eq!(c.wifi_ssid, "");
}

#[test]
fn value_that_is_no_number_ends_the_loading() {
    let mut table = full_table();
    table[6] = pair("TIMEZONE", "five");
    let mut c = ConfigData::new();
    assert_eq!(c.load_table(&table), Err(LoadError::NotANumber(Setting::Timezone)));
    assert_eq!(c.target_mac_address4, "ff:ff:ff:ff:ff:ff");
    assert_eq!(c.timezone_offset, 0);
    assert_eq!(c.idle_in_sleep_time, 30);
    let mut table = full_table();
    table[7] = pair("IDLESLEEP", "-1");
    let mut c = ConfigData::new();
    assert_eq!(c.load_table(&table), Err(LoadError::NotANumber(Setting::IdleSleep)));
    assert_eq!(c.timezone_offset, -5);
    let mut table = full_table();
    table[9] = pair("DISPLAYOFFTIME", "4294967296");
    let mut c = ConfigData::new();
    assert_eq!(c.load_table(&table), Err(LoadError::NotANumber(Setting::DisplayOffTime)));
    assert_eq!(c.sleep_mode, "deep");
    assert_eq!(c.display_off_time, 30);
}

#[test]
fn each_setting_can_be_the_one_that_is_missing() {
    let order = [
        Setting::Ssid,
        Setting::Psk,
        Setting::Pc1,
        Setting::Pc2,
        Setting::Pc3,
        Setting::Pc4,
        Setting::Timezone,
        Setting::IdleSleep,
        Setting::SleepMode,
        Setting::DisplayOffTime,
    ];
    for (i, setting) in order.iter().enumerate() {
        let mut table = full_table();
        table.remove(i);
        let mut c = ConfigData::new();
        assert_eq!(c.load_table(&table), Err(LoadError::NotFound(*setting)));
    }
}

#[test]
fn nothing_stored_loads_nothing() {
    let mut c = ConfigData::new();
    assert_eq!(c.load_config(None), Err(LoadError::NothingStored));
    assert_eq!(c.idle_in_sleep_time, 30);
}

#[test]
fn stored_text_is_read_as_a_table() {
    let text = "SSID = \"home\"\nPSK = \"se cret\"\nPC1 = \"00:11:22:33:44:55\"\nPC2 = \"AA:BB:CC:DD:EE:FF\"\nPC3 = \"01:23:45:67:89:ab\"\nPC4 = \"ff:ff:ff:ff:ff:ff\"\nTIMEZONE = \"9\"\nIDLESLEEP = \"0\"\nSLEEPMODE = \"deep\"\nDISPLAYOFFTIME = \"15\"\n";
    let mut c = ConfigData::new();
    assert_eq!(c.load_config(Some(text)), Ok(()));
    assert_eq!(c.wifi_ssid, "home");
    assert_eq!(c.wifi_psk, "se cret");
    assert_eq!(c.target_mac_address3, "01:23:45:67:89:ab");
    assert_eq!(c.timezone_offset, 9);
    assert_eq!(c.idle_in_sleep_time, 0);
    assert_eq!(c.sleep_mode, "deep");
    assert_eq!(c.display_off_time, 15);
}

#[test]
fn stored_text_that_is_no_table_is_refused() {
    let mut c = ConfigData::new();
    assert_eq!(c.load_config(Some("SSID = ")), Err(LoadError::Malformed));
    assert_eq!(c.load_config(Some("this is not toml")), Err(LoadError::Malformed));
    assert_eq!(c.load_config(Some("[wifi]\nSSID = \"x\"\n")), Err(LoadError::Malformed));
    assert_eq!(c.wifi_ssid, "");
    assert_eq!(c.load_config(Some("")), Err(LoadError::NotFound(Setting::Ssid)));
    assert_eq!(c.load_config(Some("SSID = \"x\"\n")), Err(LoadError::NotFound(Setting::Psk)));
    assert_eq!(c.wifi_ssid, "x");
}

#[test]
fn written_text_reads_back() {
    let text = convert_config_to_toml_string(&full_table());
    assert_eq!(
        text,
        "SSID = \"home\"\nPSK = \"secret\"\nPC1 = \"00:11:22:33:44:55\"\nPC2 = \"AA:BB:CC:DD:EE:FF\"\nPC3 = \"01:23:45:67:89:ab\"\nPC4 = \"ff:ff:ff:ff:ff:ff\"\nTIMEZONE = \"-5\"\nIDLESLEEP = \"60\"\nSLEEPMODE = \"deep\"\nDISPLAYOFFTIME = \"0\"\n"
    );
    let mut c = ConfigData::new();
    assert_eq!(c.load_config(Some(&text)), Ok(()));
    assert_eq!(c.timezone_offset, -5);
    assert_eq!(c.idle_in_sleep_time, 60);
    assert_eq!(convert_config_to_toml_string(&Vec::new()), "");
    assert_eq!(convert_config_to_toml_string(&vec![pair("K", "")]), "K = \"\"\n");
}

#[test]
fn default_pairs_are_stored_and_loaded() {
    let c = ConfigData::new();
    let text = convert_config_to_toml_string(&c.set_default_config(&Config::default()));
    let mut loaded = ConfigData::new();
    loaded.idle_in_sleep_time = 1;
    assert_eq!(loaded.load_config(Some(&text)), Ok(()));
    assert_eq!(loaded.idle_in_sleep_time, 30);
    assert_eq!(loaded.sleep_mode, "light");
    assert_eq!(loaded.timezone_offset, 0);
}

#[test]
fn reset_is_asked_for_by_its_key() {
    assert!(!is_going_to_reset(&full_table()));
    assert!(!is_going_to_reset(&Vec::new()));
    let mut t = full_table();
    t.push(pair("RESETCONFIG", "BACK TO DEFAULT"));
    assert!(is_going_to_reset(&t));
    assert!(is_going_to_reset(&vec![pair("RESETCONFIG", "")]));
    assert!(!is_going_to_reset(&vec![pair("resetconfig", "BACK TO DEFAULT")]));
}

#[test]
fn hardware_address_is_parsed_by_groups() {
    assert_eq!(parse_mac_address("00:11:22:33:44:55"), Some([0x00, 0x11, 0x22, 0x33, 0x44, 0x55]));
    assert_eq!(parse_mac_address("AA:bb:Cc:dD:0f:F0"), Some([0xaa, 0xbb, 0xcc, 0xdd, 0x0f, 0xf0]));
    assert_eq!(parse_mac_address("ff:ff:ff:ff:ff:ff"), Some([255; 6]));
    assert_eq!(parse_mac_address(""), None);
    assert_eq!(parse_mac_address("00:11:22:33:44"), None);
    assert_eq!(parse_mac_address("00:11:22:33:44:5"), None);
    assert_eq!(parse_mac_address("00:11:22:33:44:55:66"), None);
    assert_eq!(parse_mac_address("00-11-22-33-44-55"), None);
    assert_eq!(parse_mac_address("0g:11:22:33:44:55"), None);
    assert_eq!(parse_mac_address("001122334455     "), None);
}

#[test]
fn target_addresses_are_set_one_by_one() {
    let mut wp = WakePacket::new();
    assert_eq!(wp.target_mac, [[0u8; 6]; 4]);
    wp.set_target_mac(TargetDevice::Device2, "01:02:03:04:05:06");
    assert_eq!(wp.target_mac[1], [1, 2, 3, 4, 5, 6]);
    assert_eq!(wp.target_mac[0], [0; 6]);
    wp.set_target_mac(TargetDevice::Device1, "AA:BB:CC:DD:EE:FF");
    wp.set_target_mac(TargetDevice::Device3, "10:20:30:40:50:60");
    wp.set_target_mac(TargetDevice::Device4, "0a:0b:0c:0d:0e:0f");
    assert_eq!(wp.target_mac[0], [0xaa, 0xbb, 0xcc, 0xdd, 0xee, 0xff]);
    assert_eq!(wp.target_mac[2], [0x10, 0x20, 0x30, 0x40, 0x50, 0x60]);
    assert_eq!(wp.target_mac[3], [10, 11, 12, 13, 14, 15]);
    let before = wp.target_mac;
    wp.set_target_mac(TargetDevice::NoDevice, "11:11:11:11:11:11");
    assert_eq!(wp.target_mac, before);
}

#[test]
fn magic_payload_is_the_header_and_sixteen_addresses() {
    let mut wp = WakePacket::new();
    wp.set_target_mac(TargetDevice::Device3, "0F:1E:2D:3C:4B:5A");
    let bytes = wp.magic_bytes(TargetDevice::Device3).unwrap();
    assert_eq!(bytes.len(), 102);
    assert_eq!(&bytes[0..6], &[0xffu8; 6]);
    for k in 0..16 {
        assert_eq!(&bytes[6 + 6 * k..12 + 6 * k], &[0x0f, 0x1e, 0x2d, 0x3c, 0x4b, 0x5a]);
    }
    let zero = wp.magic_bytes(TargetDevice::Device1).unwrap();
    assert_eq!(&zero[0..6], &[0xffu8; 6]);
    assert_eq!(&zero[6..], &[0u8; 96][..]);
}

#[test]
fn no_target_no_packet() {
    let wp = WakePacket::new();
    assert_eq!(wp.magic_bytes(TargetDevice::NoDevice), Err(WakeError::TargetNotSet));
}

#[test]
fn quotes_in_the_key_part_of_a_line_are_seen() {
    assert!(!check_quoted_key(""));
    assert!(!check_quoted_key("SSID = \"home\"\nPSK = \"a'b\"\n"));
    assert!(!check_quoted_key("[wifi]\nSSID = \"x\"\n"));
    assert!(!check_quoted_key("A = \"x\" # \"y\"\n"));
    assert!(check_quoted_key("\"SSID\" = \"home\"\n"));
    assert!(check_quoted_key("'SSID' = \"home\"\n"));
    assert!(check_quoted_key("A = \"x\"\n \"B\" = \"y\"\n"));
    assert!(check_quoted_key("[\"a=b\"]\n"));
    assert!(check_quoted_key("A.\"b\" = 1"));
    assert!(check_quoted_key("\""));
}

#[test]
fn text_with_a_key_in_quotes_is_not_read() {
    let mut c = ConfigData::new();
    assert_eq!(
        c.load_config(Some("\"a[9223372036854775807]\" = \"x\"\n")),
        Err(LoadError::Malformed)
    );
    assert_eq!(
        c.load_config(Some("SSID = \"home\"\n\"SSID.x\" = \"y\"\n")),
        Err(LoadError::Malformed)
    );
    assert_eq!(c.load_config(Some("\"SSID\" = \"home\"\n")), Err(LoadError::Malformed));
    assert_eq!(c.wifi_ssid, "");
    assert_eq!(c.idle_in_sleep_time, 30);
}

#[test]
fn value_with_a_quote_is_not_read_back() {
    let text = convert_config_to_toml_string(&vec![pair("SSID", "a\"b")]);
    assert_eq!(text, "SSID = \"a\"b\"\n");
    let mut c = ConfigData::new();
    assert_eq!(c.load_config(Some(&text)), Err(LoadError::Malformed));
}
