use ax206lcd::config::{level_from_name, parse_hex_or_int, AppConfig, LogLevel};

#[test]
fn mod_test_default_config() {
    let config = AppConfig::default();
    assert_eq!(config.lcd.backlight, 2);
    assert_eq!(config.lcd.width, 420);
    assert_eq!(config.lcd.height, 250);
    assert_eq!(config.lcd.file, "current.png");
    assert_eq!(config.lcd.polling, 3);
    assert_eq!(config.dashboard.file, "dashboard.png");
    assert_eq!(config.dashboard.enabled, false);
    assert_eq!(config.dashboard.save_to_file, false);
}

#[test]
fn default_resources_follow_insertion_order() {
    let config = AppConfig::default();
    assert_eq!(config.resources.disks, vec!["nvme0n1", "sda1"]);
    assert_eq!(config.resources.networks, vec!["enp13s0", "enx0024278838ca"]);
    assert_eq!(config.resources.mount_points, vec!["/"]);
    let sensors: Vec<(&str, &str)> = config
        .resources
        .sensors
        .iter()
        .map(|(k, v)| (k.as_str(), v.as_str()))
        .collect();
    assert_eq!(
        sensors,
        vec![
            ("k10temp", "CPU"),
            ("amdgpu", "GPU0"),
            ("NVIDIA RTX A2000", "GPU1"),
            ("r8169", "Eth0"),
            ("nvme composite", "NVMe0"),
        ]
    );
    assert_eq!(config.logging.level, "info");
    assert_eq!(config.lcd.vid, 0x1908);
    assert_eq!(config.lcd.pid, 0x0102);
}

#[test]
fn hexadecimal_ids_are_read() {
    assert_eq!(parse_hex_or_int("0x1234"), Some(0x1234));
    assert_eq!(parse_hex_or_int("0x0102"), Some(0x0102));
    assert_eq!(parse_hex_or_int("0X1908"), Some(0x1908));
    assert_eq!(parse_hex_or_int("0xffff"), Some(0xFFFF));
    assert_eq!(parse_hex_or_int("0x+1f"), Some(0x1F));
}

#[test]
fn decimal_ids_are_read() {
    assert_eq!(parse_hex_or_int("6408"), Some(6408));
    assert_eq!(parse_hex_or_int("0"), Some(0));
    assert_eq!(parse_hex_or_int("0102"), Some(102));
    assert_eq!(parse_hex_or_int("65535"), Some(65535));
}

#[test]
fn ids_that_are_no_numbers_are_refused() {
    for text in ["", "0x", "0X", "x12", "0x10000", "65536", "12ab", "0xg", " 0x12", "0x 12", "-1"] {
        assert_eq!(parse_hex_or_int(text), None, "{:?}", text);
    }
}

#[test]
fn log_level_is_found_by_name() {
    assert_eq!(level_from_name("trace"), LogLevel::Trace);
    assert_eq!(level_from_name("debug"), LogLevel::Debug);
    assert_eq!(level_from_name("info"), LogLevel::Info);
    assert_eq!(level_from_name("warn"), LogLevel::Warn);
    assert_eq!(level_from_name("error"), LogLevel::Error);
    assert_eq!(level_from_name("off"), LogLevel::Off);
    assert_eq!(level_from_name("verbose"), LogLevel::Info);
    assert_eq!(level_from_name(""), LogLevel::Info);
    assert_eq!(level_from_name("TRACE"), LogLevel::Info);
}

#[test]
fn log_level_ignores_case() {
    let mut config = AppConfig::default();
    assert_eq!(config.get_log_level(), LogLevel::Info);
    for (name, level) in [
        ("TRACE", LogLevel::Trace),
        ("Debug", LogLevel::Debug),
        ("wArN", LogLevel::Warn),
        ("ERROR", LogLevel::Error),
        ("Off", LogLevel::Off),
        ("nonsense", LogLevel::Info),
    ] {
        config.logging.level = name.to_string();
        assert_eq!(config.get_log_level(), level);
    }
}

#[test]
fn default_settings_as_text() {
    let expected = "[LCD]\nbacklight = 2\nwidth = 420\nheight = 250\nfile = current.png\n\
                    polling = 3\nvid = 0x1908\npid = 0x0102\n\n\
                    [DASHBOARD]\nfile = dashboard.png\nenabled = false\nsave_to_file = false\n\n\
                    [LOGGING]\nlevel = info\n\n\
                    [RESOURCES]\n\
                    disks = \"nvme0n1\"\ndisks = \"sda1\"\n\
                    networks = \"enp13s0\"\nnetworks = \"enx0024278838ca\"\n\
                    mount_points = \"/\"\n\
                    \n[RESOURCES.sensors]\n\
                    k10temp = \"CPU\"\namdgpu = \"GPU0\"\nNVIDIA RTX A2000 = \"GPU1\"\n\
                    r8169 = \"Eth0\"\nnvme composite = \"NVMe0\"\n";
    assert_eq!(AppConfig::default().to_ini(), expected);
}

#[test]
fn settings_without_resources_as_text() {
    let mut config = AppConfig::default();
    config.resources.disks.clear();
    config.resources.networks.clear();
    config.resources.mount_points.clear();
    config.resources.sensors.clear();
    config.lcd.backlight = 7;
    config.lcd.width = 1024;
    config.lcd.height = 768;
    config.lcd.file = "saved.png".to_string();
    config.lcd.polling = 5;
    config.dashboard.file = "saved-dashboard.png".to_string();
    config.dashboard.enabled = true;
    config.dashboard.save_to_file = true;
    let expected = "[LCD]\nbacklight = 7\nwidth = 1024\nheight = 768\nfile = saved.png\n\
                    polling = 5\nvid = 0x1908\npid = 0x0102\n\n\
                    [DASHBOARD]\nfile = saved-dashboard.png\nenabled = true\nsave_to_file = true\n\n\
                    [LOGGING]\nlevel = info\n\n\
                    [RESOURCES]\n";
    assert_eq!(config.to_ini(), expected);
}
