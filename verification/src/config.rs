//! Settings of the display and of what is shown on it.

use vstd::prelude::*;
use indexmap::IndexMap;
use vstd::string::StringExecFns;
use crate::text::{decimal, hex4, parse_u16, parsed_u16, same_text, to_decimal, to_hex4};

verus! {

/// `indexmap::IndexMap`, a hash map that keeps its entries in the order in
/// which their keys were first inserted. Nothing inside it is visible here.
#[verifier::external_type_specification]
#[verifier::external_body]
#[verifier::reject_recursive_types(K)]
#[verifier::reject_recursive_types(V)]
#[verifier::reject_recursive_types(S)]
pub struct ExIndexMap<K, V, S>(IndexMap<K, V, S>);

/// The entries of a map from text to text, in its order, each as key and
/// value.
pub uninterp spec fn sensor_entries(map: IndexMap<String, String>) -> Seq<(Seq<char>, Seq<char>)>;

/// What `str::to_lowercase` makes of a text.
pub uninterp spec fn lowercase(s: Seq<char>) -> Seq<char>;

/// Makes an empty map with `IndexMap::new`.
///
/// Trusted: the new map has no entries.
#[verifier::external_body]
fn sensors_new() -> (map: IndexMap<String, String>)
    ensures
        sensor_entries(map) == Seq::<(Seq<char>, Seq<char>)>::empty(),
{
    IndexMap::new()
}

/// Puts an entry into a map with `IndexMap::insert`.
///
/// Trusted: a key that the map does not hold yet is added with its value
/// as the last entry; for a key that it holds, the value is replaced and
/// the entry stays where it is. No other entry changes.
#[verifier::external_body]
fn sensors_insert(map: &mut IndexMap<String, String>, key: String, value: String)
    ensures
        (forall|i: int| 0 <= i < sensor_entries(*old(map)).len() ==> sensor_entries(*old(map))[i].0
            != key@) ==> sensor_entries(*final(map)) == sensor_entries(*old(map)).push(
            (key@, value@),
        ),
        forall|i: int|
            0 <= i < sensor_entries(*old(map)).len() && sensor_entries(*old(map))[i].0 == key@
                ==> sensor_entries(*final(map)) == sensor_entries(*old(map)).update(
                i,
                (key@, value@),
            ),
{
    map.insert(key, value);
}

/// Copies the entries out of a map with `IndexMap::iter`.
///
/// Trusted: the result holds the entries of the map, in its order.
#[verifier::external_body]
fn sensors_list(map: &IndexMap<String, String>) -> (list: Vec<(String, String)>)
    ensures
        list@.len() == sensor_entries(*map).len(),
        forall|i: int|
            0 <= i < list@.len() ==> (#[trigger] list@[i]).0@ == sensor_entries(*map)[i].0
                && list@[i].1@ == sensor_entries(*map)[i].1,
{
    map.iter().map(|(key, value)| (key.clone(), value.clone())).collect()
}

/// Lower-cases a text with `str::to_lowercase`.
///
/// Trusted: the result depends on the text alone.
#[verifier::external_body]
fn to_lowercase(s: &str) -> (out: String)
    ensures
        out@ == lowercase(s@),
{
    s.to_lowercase()
}

/// The vendor id of the display when none is configured.
pub open spec fn spec_default_vid() -> u16 {
    0x1908
}

/// The product id of the display when none is configured.
pub open spec fn spec_default_pid() -> u16 {
    0x0102
}

/// The vendor id of the display when none is configured.
#[verifier::when_used_as_spec(spec_default_vid)]
pub fn default_vid() -> (vid: u16)
    ensures
        vid == spec_default_vid(),
{
    0x1908
}

/// The product id of the display when none is configured.
#[verifier::when_used_as_spec(spec_default_pid)]
pub fn default_pid() -> (pid: u16)
    ensures
        pid == spec_default_pid(),
{
    0x0102
}

/// The log level when none is configured: "info".
pub fn default_log_level() -> (level: String)
    ensures
        level@ == "info"@,
{
    "info".to_owned()
}

/// Settings of the display.
#[derive(Debug, Clone)]
pub struct LcdConfig {
    /// Brightness of the backlight, 0 to 7.
    pub backlight: u8,
    /// Width of the rendered picture.
    pub width: u16,
    /// Height of the rendered picture.
    pub height: u16,
    /// The picture that is shown when no dashboard is rendered.
    pub file: String,
    /// Seconds between two cycles.
    pub polling: u64,
    /// USB vendor id of the display.
    pub vid: u16,
    /// USB product id of the display.
    pub pid: u16,
}

impl Default for LcdConfig {
    fn default() -> (config: Self)
        ensures
            config.backlight == 2,
            config.width == 420,
            config.height == 250,
            config.file@ == "current.png"@,
            config.polling == 3,
            config.vid == default_vid(),
            config.pid == default_pid(),
    {
        LcdConfig {
            backlight: 2,
            width: 420,
            height: 250,
            file: "current.png".to_owned(),
            polling: 3,
            vid: default_vid(),
            pid: default_pid(),
        }
    }
}

/// Settings of the dashboard.
#[derive(Debug, Clone)]
pub struct DashboardConfig {
    /// Where the rendered dashboard is saved.
    pub file: String,
    /// Whether a dashboard is rendered at all.
    pub enabled: bool,
    /// Whether the rendered dashboard is saved.
    pub save_to_file: bool,
}

impl Default for DashboardConfig {
    fn default() -> (config: Self)
        ensures
            config.file@ == "dashboard.png"@,
            !config.enabled,
            !config.save_to_file,
    {
        DashboardConfig { file: "dashboard.png".to_owned(), enabled: false, save_to_file: false }
    }
}

/// Settings of the log.
#[derive(Debug, Clone)]
pub struct LoggingConfig {
    /// Name of the most verbose level that is logged.
    pub level: String,
}

impl Default for LoggingConfig {
    fn default() -> (config: Self)
        ensures
            config.level@ == "info"@,
    {
        LoggingConfig { level: default_log_level() }
    }
}

/// Which disks, networks, mount points and sensors are watched.
#[derive(Debug)]
pub struct ResourcesConfig {
    /// Block devices whose traffic is summed.
    pub disks: Vec<String>,
    /// Network interfaces whose traffic is summed.
    pub networks: Vec<String>,
    /// Mount points whose space is summed.
    pub mount_points: Vec<String>,
    /// Sensors that are shown: a hint to find each by, and the label it is
    /// shown under, in the order in which they are shown.
    pub sensors: IndexMap<String, String>,
}

/// The sensors that are watched when none are configured.
pub open spec fn default_sensors() -> Seq<(Seq<char>, Seq<char>)> {
    seq![
        ("k10temp"@, "CPU"@),
        ("amdgpu"@, "GPU0"@),
        ("NVIDIA RTX A2000"@, "GPU1"@),
        ("r8169"@, "Eth0"@),
        ("nvme composite"@, "NVMe0"@),
    ]
}

impl Default for ResourcesConfig {
    fn default() -> (config: Self)
        ensures
            config.disks@.len() == 2,
            config.disks@[0]@ == "nvme0n1"@,
            config.disks@[1]@ == "sda1"@,
            config.networks@.len() == 2,
            config.networks@[0]@ == "enp13s0"@,
            config.networks@[1]@ == "enx0024278838ca"@,
            config.mount_points@.len() == 1,
            config.mount_points@[0]@ == "/"@,
            sensor_entries(config.sensors) == default_sensors(),
    {
        proof {
            reveal_strlit("k10temp");
            reveal_strlit("amdgpu");
            reveal_strlit("NVIDIA RTX A2000");
            reveal_strlit("r8169");
            reveal_strlit("nvme composite");
        }
        let ghost k = seq!["k10temp"@, "amdgpu"@, "NVIDIA RTX A2000"@, "r8169"@, "nvme composite"@];
        assert(k[0][0] == 'k' && k[1][0] == 'a' && k[2][0] == 'N' && k[3][0] == 'r' && k[4][0]
            == 'n');
        let mut sensors = sensors_new();
        sensors_insert(&mut sensors, "k10temp".to_owned(), "CPU".to_owned());
        assert(sensor_entries(sensors) =~= seq![(k[0], "CPU"@)]);
        sensors_insert(&mut sensors, "amdgpu".to_owned(), "GPU0".to_owned());
        assert(sensor_entries(sensors) =~= seq![(k[0], "CPU"@), (k[1], "GPU0"@)]);
        sensors_insert(&mut sensors, "NVIDIA RTX A2000".to_owned(), "GPU1".to_owned());
        assert(sensor_entries(sensors) =~= seq![(k[0], "CPU"@), (k[1], "GPU0"@), (k[2], "GPU1"@)]);
        sensors_insert(&mut sensors, "r8169".to_owned(), "Eth0".to_owned());
        assert(sensor_entries(sensors) =~= seq![
            (k[0], "CPU"@),
            (k[1], "GPU0"@),
            (k[2], "GPU1"@),
            (k[3], "Eth0"@),
        ]);
        sensors_insert(&mut sensors, "nvme composite".to_owned(), "NVMe0".to_owned());
        assert(sensor_entries(sensors) =~= default_sensors());
        let mut disks: Vec<String> = Vec::new();
        disks.push("nvme0n1".to_owned());
        disks.push("sda1".to_owned());
        let mut networks: Vec<String> = Vec::new();
        networks.push("enp13s0".to_owned());
        networks.push("enx0024278838ca".to_owned());
        let mut mount_points: Vec<String> = Vec::new();
        mount_points.push("/".to_owned());
        ResourcesConfig { disks, networks, mount_points, sensors }
    }
}

/// How much is logged.
#[derive(Clone, Copy, Debug, PartialEq, Eq, Structural)]
pub enum LogLevel {
    Off,
    Error,
    Warn,
    Info,
    Debug,
    Trace,
}

/// The level that a name in lower case stands for; `Info` for a name that
/// is none of the six.
pub open spec fn level_named(name: Seq<char>) -> LogLevel {
    if name == "trace"@ {
        LogLevel::Trace
    } else if name == "debug"@ {
        LogLevel::Debug
    } else if name == "info"@ {
        LogLevel::Info
    } else if name == "warn"@ {
        LogLevel::Warn
    } else if name == "error"@ {
        LogLevel::Error
    } else if name == "off"@ {
        LogLevel::Off
    } else {
        LogLevel::Info
    }
}

/// Finds the level that a name in lower case stands for.
pub fn level_from_name(name: &str) -> (level: LogLevel)
    ensures
        level == level_named(name@),
{
    if same_text(name, "trace") {
        LogLevel::Trace
    } else if same_text(name, "debug") {
        LogLevel::Debug
    } else if same_text(name, "info") {
        LogLevel::Info
    } else if same_text(name, "warn") {
        LogLevel::Warn
    } else if same_text(name, "error") {
        LogLevel::Error
    } else if same_text(name, "off") {
        LogLevel::Off
    } else {
        LogLevel::Info
    }
}

/// The number that the text of a vendor or product id denotes: hexadecimal
/// after a prefix `0x` or `0X`, decimal otherwise.
pub open spec fn hex_or_int(value: Seq<char>) -> Option<u16> {
    if value.len() >= 2 && value[0] == '0' && (value[1] == 'x' || value[1] == 'X') {
        parsed_u16(value.subrange(2, value.len() as int), 16)
    } else {
        parsed_u16(value, 10)
    }
}

/// Reads a vendor or product id; `None` when the text is not a number that
/// fits in 16 bits.
pub fn parse_hex_or_int(value: &str) -> (id: Option<u16>)
    ensures
        id == hex_or_int(value@),
{
    let n = value.unicode_len();
    if n >= 2 && value.get_char(0) == '0' && (value.get_char(1) == 'x' || value.get_char(1)
        == 'X') {
        parse_u16(value.substring_char(2, n), 16)
    } else {
        parse_u16(value, 10)
    }
}

/// All settings.
#[derive(Debug)]
pub struct AppConfig {
    pub lcd: LcdConfig,
    pub dashboard: DashboardConfig,
    pub resources: ResourcesConfig,
    pub logging: LoggingConfig,
}

impl Default for AppConfig {
    fn default() -> (config: Self)
        ensures
            config.lcd.backlight == 2,
            config.lcd.width == 420,
            config.lcd.height == 250,
            config.lcd.file@ == "current.png"@,
            config.lcd.polling == 3,
            config.lcd.vid == default_vid(),
            config.lcd.pid == default_pid(),
            config.dashboard.file@ == "dashboard.png"@,
            !config.dashboard.enabled,
            !config.dashboard.save_to_file,
            sensor_entries(config.resources.sensors) == default_sensors(),
            config.logging.level@ == "info"@,
    {
        AppConfig {
            lcd: LcdConfig::default(),
            dashboard: DashboardConfig::default(),
            resources: ResourcesConfig::default(),
            logging: LoggingConfig::default(),
        }
    }
}

impl AppConfig {
    /// The level that is logged: the one that the configured name stands
    /// for, whatever its case, and `Info` for a name that stands for none.
    pub fn get_log_level(&self) -> (level: LogLevel)
        ensures
            level == level_named(lowercase(self.logging.level@)),
    {
        let lowered = to_lowercase(self.logging.level.as_str());
        level_from_name(lowered.as_str())
    }
}

/// The text of a truth value.
pub open spec fn bool_text(b: bool) -> Seq<char> {
    if b {
        "true"@
    } else {
        "false"@
    }
}

/// The texts of a list.
pub open spec fn texts(list: Seq<String>) -> Seq<Seq<char>> {
    Seq::new(list.len(), |i: int| list[i]@)
}

/// One line `key = "item"` for each item, in order.
pub open spec fn quoted_lines(key: Seq<char>, items: Seq<Seq<char>>) -> Seq<char>
    decreases items.len(),
{
    if items.len() == 0 {
        Seq::empty()
    } else {
        quoted_lines(key, items.drop_last()) + key + " = \""@ + items.last() + "\"\n"@
    }
}

/// One line `key = "value"` for each entry, in order.
pub open spec fn entry_lines(entries: Seq<(Seq<char>, Seq<char>)>) -> Seq<char>
    decreases entries.len(),
{
    if entries.len() == 0 {
        Seq::empty()
    } else {
        entry_lines(entries.drop_last()) + entries.last().0 + " = \""@ + entries.last().1
            + "\"\n"@
    }
}

/// The section of the display.
pub open spec fn lcd_section(lcd: LcdConfig) -> Seq<char> {
    "[LCD]\nbacklight = "@ + decimal(lcd.backlight as nat) + "\nwidth = "@ + decimal(
        lcd.width as nat,
    ) + "\nheight = "@ + decimal(lcd.height as nat) + "\nfile = "@ + lcd.file@ + "\npolling = "@
        + decimal(lcd.polling as nat) + "\nvid = "@ + hex4(lcd.vid) + "\npid = "@ + hex4(lcd.pid)
        + "\n\n"@
}

/// The section of the dashboard.
pub open spec fn dashboard_section(dashboard: DashboardConfig) -> Seq<char> {
    "[DASHBOARD]\nfile = "@ + dashboard.file@ + "\nenabled = "@ + bool_text(dashboard.enabled)
        + "\nsave_to_file = "@ + bool_text(dashboard.save_to_file) + "\n\n"@
}

/// The section of the log.
pub open spec fn logging_section(logging: LoggingConfig) -> Seq<char> {
    "[LOGGING]\nlevel = "@ + logging.level@ + "\n\n"@
}

/// The section of the watched resources, and after it the section of the
/// sensors if there are any.
pub open spec fn resources_section(resources: ResourcesConfig) -> Seq<char> {
    "[RESOURCES]\n"@ + quoted_lines("disks"@, texts(resources.disks@)) + quoted_lines(
        "networks"@,
        texts(resources.networks@),
    ) + quoted_lines("mount_points"@, texts(resources.mount_points@)) + (if sensor_entries(
        resources.sensors,
    ).len() == 0 {
        Seq::<char>::empty()
    } else {
        "\n[RESOURCES.sensors]\n"@ + entry_lines(sensor_entries(resources.sensors))
    })
}

/// All settings as the text of a settings file.
pub open spec fn ini_text(config: AppConfig) -> Seq<char> {
    lcd_section(config.lcd) + dashboard_section(config.dashboard) + logging_section(
        config.logging,
    ) + resources_section(config.resources)
}

/// Appends one line `key = "item"` for each item.
fn append_quoted(out: &mut String, key: &str, items: &Vec<String>)
    ensures
        final(out)@ == old(out)@ + quoted_lines(key@, texts(items@)),
{
    let ghost before = out@;
    let mut i: usize = 0;
    while i < items.len()
        invariant
            i <= items@.len(),
            out@ == before + quoted_lines(key@, texts(items@).subrange(0, i as int)),
        decreases items@.len() - i,
    {
        let ghost done = texts(items@).subrange(0, i as int);
        let ghost more = texts(items@).subrange(0, i + 1);
        out.append(key);
        out.append(" = \"");
        out.append(items[i].as_str());
        out.append("\"\n");
        proof {
            assert(more.drop_last() =~= done);
            assert(more.last() == items@[i as int]@);
            assert(out@ =~= before + quoted_lines(key@, more));
        }
        i += 1;
    }
    assert(texts(items@).subrange(0, items@.len() as int) =~= texts(items@));
}

/// Appends one line `key = "value"` for each entry.
fn append_entries(out: &mut String, list: &Vec<(String, String)>, Ghost(entries): Ghost<
    Seq<(Seq<char>, Seq<char>)>,
>)
    requires
        list@.len() == entries.len(),
        forall|i: int|
            0 <= i < list@.len() ==> (#[trigger] list@[i]).0@ == entries[i].0 && list@[i].1@
                == entries[i].1,
    ensures
        final(out)@ == old(out)@ + entry_lines(entries),
{
    let ghost before = out@;
    let mut i: usize = 0;
    while i < list.len()
        invariant
            i <= list@.len(),
            list@.len() == entries.len(),
            forall|j: int|
                0 <= j < list@.len() ==> (#[trigger] list@[j]).0@ == entries[j].0 && list@[j].1@
                    == entries[j].1,
            out@ == before + entry_lines(entries.subrange(0, i as int)),
        decreases list@.len() - i,
    {
        let ghost done = entries.subrange(0, i as int);
        let ghost more = entries.subrange(0, i + 1);
        out.append(list[i].0.as_str());
        out.append(" = \"");
        out.append(list[i].1.as_str());
        out.append("\"\n");
        proof {
            assert(more.drop_last() =~= done);
            assert(more.last() == entries[i as int]);
            assert(list@[i as int].0@ == entries[i as int].0);
            assert(out@ =~= before + entry_lines(more));
        }
        i += 1;
    }
    assert(entries.subrange(0, entries.len() as int) =~= entries);
}

/// The text of a truth value.
fn bool_str(b: bool) -> (s: &'static str)
    ensures
        s@ == bool_text(b),
{
    if b {
        "true"
    } else {
        "false"
    }
}

impl AppConfig {
    /// Writes all settings as the text of a settings file: the sections of
    /// the display, the dashboard and the log, then the watched resources
    /// with one quoted line each, and the sensors in their order if there
    /// are any.
    pub fn to_ini(&self) -> (out: String)
        ensures
            out@ == ini_text(*self),
    {
        let mut out = "[LCD]\nbacklight = ".to_owned();
        out.append(to_decimal(self.lcd.backlight as u64).as_str());
        out.append("\nwidth = ");
        out.append(to_decimal(self.lcd.width as u64).as_str());
        out.append("\nheight = ");
        out.append(to_decimal(self.lcd.height as u64).as_str());
        out.append("\nfile = ");
        out.append(self.lcd.file.as_str());
        out.append("\npolling = ");
        out.append(to_decimal(self.lcd.polling).as_str());
        out.append("\nvid = ");
        out.append(to_hex4(self.lcd.vid).as_str());
        out.append("\npid = ");
        out.append(to_hex4(self.lcd.pid).as_str());
        out.append("\n\n");
        assert(out@ =~= lcd_section(self.lcd));
        let ghost lcd = out@;

        out.append("[DASHBOARD]\nfile = ");
        out.append(self.dashboard.file.as_str());
        out.append("\nenabled = ");
        out.append(bool_str(self.dashboard.enabled));
        out.append("\nsave_to_file = ");
        out.append(bool_str(self.dashboard.save_to_file));
        out.append("\n\n");
        assert(out@ =~= lcd + dashboard_section(self.dashboard));

        out.append("[LOGGING]\nlevel = ");
        out.append(self.logging.level.as_str());
        out.append("\n\n");
        assert(out@ =~= lcd + dashboard_section(self.dashboard) + logging_section(self.logging));
        let ghost head = out@;

        out.append("[RESOURCES]\n");
        append_quoted(&mut out, "disks", &self.resources.disks);
        append_quoted(&mut out, "networks", &self.resources.networks);
        append_quoted(&mut out, "mount_points", &self.resources.mount_points);
        let list = sensors_list(&self.resources.sensors);
        if list.len() > 0 {
            out.append("\n[RESOURCES.sensors]\n");
            append_entries(&mut out, &list, Ghost(sensor_entries(self.resources.sensors)));
        }
        assert(out@ =~= head + resources_section(self.resources));
        out
    }
}

} // verus!
