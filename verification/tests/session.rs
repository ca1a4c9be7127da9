use onerom_honda::plugin::{parse_plugin_type, PluginArgs, PluginType};
use onerom_honda::ports::{hide_problem_entry, is_likely_serial_port, list_pts_ports, select_ports};
use onerom_honda::session::{
    blink_value, is_blank, patch_source, patch_write_target, selected_file_is_usable, table_view_source,
    upload_source, RomSource, WriteTarget, NO_FILE_SELECTED,
};
use onerom_honda::text::{parse_u8, str_chars, trim_chars};

fn chars(s: &str) -> Vec<char> {
    s.chars().collect()
}

fn strings(v: &[&str]) -> Vec<String> {
    v.iter().map(|s| s.to_string()).collect()
}

#[test]
fn parse_u8_reads_decimal_bytes() {
    assert_eq!(parse_u8(&chars("0")), Some(0));
    assert_eq!(parse_u8(&chars("007")), Some(7));
    assert_eq!(parse_u8(&chars("+5")), Some(5));
    assert_eq!(parse_u8(&chars("255")), Some(255));
    assert_eq!(parse_u8(&chars("256")), None);
    assert_eq!(parse_u8(&chars("99999999999")), None);
    assert_eq!(parse_u8(&chars("")), None);
    assert_eq!(parse_u8(&chars("+")), None);
    assert_eq!(parse_u8(&chars("-1")), None);
    assert_eq!(parse_u8(&chars(" 7")), None);
    assert_eq!(parse_u8(&chars("1a")), None);
}

#[test]
fn parse_u8_agrees_with_std() {
    for s in ["0", "1", "12", "255", "256", "+0", "+255", "", "+", "-0", "abc", "0255", "1000", " 1"] {
        assert_eq!(parse_u8(&chars(s)), s.parse::<u8>().ok(), "{s:?}");
    }
}

#[test]
fn trimming_removes_surrounding_whitespace() {
    assert_eq!(trim_chars(&chars("  a b \t\n")), chars("a b"));
    assert_eq!(trim_chars(&chars("   ")), Vec::<char>::new());
    assert_eq!(trim_chars(&chars("\u{A0}x\u{2003}")), chars("x"));
    assert_eq!(str_chars("héllo"), chars("héllo"));
}

#[test]
fn blank_and_usable_paths() {
    assert!(is_blank(""));
    assert!(is_blank(" \t\n"));
    assert!(!is_blank(" x "));
    assert!(!selected_file_is_usable(""));
    assert!(!selected_file_is_usable("   "));
    assert!(!selected_file_is_usable(NO_FILE_SELECTED));
    assert!(!selected_file_is_usable("  No file selected  "));
    assert!(selected_file_is_usable("/home/me/rom.bin"));
    assert!(selected_file_is_usable("No file selected.bin"));
}

#[test]
fn rom_sources() {
    assert_eq!(patch_source(true, true), Some(RomSource::SelectedFile));
    assert_eq!(patch_source(false, true), Some(RomSource::StagedBuffer));
    assert_eq!(patch_source(false, false), None);
    assert_eq!(upload_source(true, true, true), Some(RomSource::StagedBuffer));
    assert_eq!(upload_source(true, false, true), Some(RomSource::SelectedFile));
    assert_eq!(upload_source(true, false, false), None);
    assert_eq!(upload_source(false, true, true), Some(RomSource::SelectedFile));
    assert_eq!(upload_source(false, true, false), Some(RomSource::StagedBuffer));
    assert_eq!(upload_source(false, false, false), None);
    assert_eq!(table_view_source(true, true), Some(RomSource::StagedBuffer));
    assert_eq!(table_view_source(false, true), Some(RomSource::SelectedFile));
    assert_eq!(table_view_source(false, false), None);
}

#[test]
fn write_target_follows_rom_port() {
    assert_eq!(patch_write_target(""), WriteTarget::LiveTemporary);
    assert_eq!(patch_write_target("  "), WriteTarget::LiveTemporary);
    assert_eq!(patch_write_target("/dev/ttyUSB0"), WriteTarget::OstrichPersistent);
}

#[test]
fn blink_value_falls_back_to_current() {
    assert_eq!(blink_value("12", 3), 12);
    assert_eq!(blink_value("abc", 3), 3);
    assert_eq!(blink_value("256", 3), 3);
    assert_eq!(blink_value("", 9), 9);
    assert_eq!(blink_value("+4", 3), 4);
}

#[test]
fn serial_port_names() {
    assert!(is_likely_serial_port("/dev/ttyUSB0"));
    assert!(is_likely_serial_port("/dev/ttyACM1"));
    assert!(is_likely_serial_port("/dev/pts/3"));
    assert!(is_likely_serial_port("COM4"));
    assert!(is_likely_serial_port("/dev/cu.usbserial-1410"));
    assert!(!is_likely_serial_port("/dev/ttyS0"));
    assert!(!is_likely_serial_port("/dev/com1"));
    assert!(hide_problem_entry("/dev/ttyACM0-3D09"));
    assert!(hide_problem_entry("FLAG_PORT"));
    assert!(!hide_problem_entry("/dev/ttyUSB0"));
}

#[test]
fn port_selection_sorts_dedups_and_prefers_serial() {
    let available = strings(&["/dev/ttyS0", "/dev/ttyUSB0", "/dev/ttyACM3d09", "/dev/ttyUSB0"]);
    let pts = strings(&["/dev/pts/2"]);
    let (all, preferred) = select_ports(&available, &pts);
    assert_eq!(all, strings(&["/dev/pts/2", "/dev/ttyS0", "/dev/ttyUSB0"]));
    assert_eq!(preferred, strings(&["/dev/pts/2", "/dev/ttyUSB0"]));
}

#[test]
fn port_selection_offers_all_when_none_looks_serial() {
    let available = strings(&["/dev/ttyS1", "/dev/ttyS0"]);
    let (all, preferred) = select_ports(&available, &Vec::new());
    assert_eq!(all, strings(&["/dev/ttyS0", "/dev/ttyS1"]));
    assert_eq!(preferred, all);
    let (none_all, none_pref) = select_ports(&Vec::new(), &Vec::new());
    assert!(none_all.is_empty());
    assert!(none_pref.is_empty());
}

#[test]
fn pts_ports_are_numeric_entries() {
    let names = strings(&["ptmx", "4", "10", "2", "x1"]);
    assert_eq!(list_pts_ports(&names), strings(&["/dev/pts/10", "/dev/pts/2", "/dev/pts/4"]));
}

#[test]
fn plugin_type_values() {
    assert_eq!(PluginType::try_from_str("system"), Some(PluginType::System));
    assert_eq!(PluginType::try_from_str("user"), Some(PluginType::User));
    assert_eq!(PluginType::try_from_str("System"), None);
    assert_eq!(parse_plugin_type("user"), Ok(PluginType::User));
    assert_eq!(
        parse_plugin_type("both"),
        Err("invalid plugin type 'both': expected 'system' or 'user'".to_string())
    );
    assert_eq!(parse_plugin_type(""), Err("invalid plugin type '': expected 'system' or 'user'".to_string()));
}

#[test]
fn plugin_listing_needs_no_device() {
    let args = PluginArgs { all_versions: true, plugin_type: Some(PluginType::System), fw_version: Some("0.6.6".to_string()) };
    assert!(!args.requires_device());
    let plain = PluginArgs { all_versions: false, plugin_type: None, fw_version: None };
    assert!(!plain.requires_device());
}
