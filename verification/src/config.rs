//! The monitor's configuration: its settings, their defaults, where the
//! configuration file is looked for, and how the file's entries become settings.

use vstd::prelude::*;
use configparser::ini::Ini;
use crate::ini::{
    entry_value, ini_entries, ini_get, ini_has_default_options, ini_new, ini_read,
    ini_read_outcome, ini_set, ini_writes, is_folded_name, is_plain_key, is_plain_store, is_plain_text, no_entries, opt_view,
    store_set,
};
use crate::cleaner::Platform;
use crate::text::{
    all_digits, decimal, law_parse_renders_back, parse_unsigned, parse_unsigned_spec, unsigned_body,
};

verus! {

/// The monitor's settings.
///
/// The memory threshold is held in hundredths of a percent (`9800` is 98%).
#[derive(Debug)]
pub struct MonitorConfig {
    pub threshold_centi: i32,
    pub check_interval: u64,
    pub cleanmem_path: String,
    pub growl_host: String,
    pub growl_port: u16,
    pub growl_password: String,
    pub growl_app_name: String,
    pub icon_path: String,
}

/// The default threshold: 98%.
pub open spec fn default_threshold_centi() -> i32 { 9800 }

/// The default interval between checks, in seconds.
pub open spec fn default_check_interval() -> u64 { 60 }

/// The default Growl port.
pub open spec fn default_growl_port() -> u16 { 23053 }

/// Whether `c` holds every default setting.
pub open spec fn is_default_config(c: MonitorConfig) -> bool {
    &&& c.threshold_centi == default_threshold_centi()
    &&& c.check_interval == default_check_interval()
    &&& c.cleanmem_path@ == Seq::<char>::empty()
    &&& c.growl_host@ == "localhost"@
    &&& c.growl_port == default_growl_port()
    &&& c.growl_password@ == Seq::<char>::empty()
    &&& c.growl_app_name@ == "Memory Monitor"@
    &&& c.icon_path@ == "memory-monitor.png"@
}

impl Default for MonitorConfig {
    /// The default settings: threshold 98%, a check every 60 seconds, no
    /// external cleaner (the native cleanup runs), Growl on localhost:23053
    /// without password as "Memory Monitor", icon `memory-monitor.png`.
    fn default() -> (c: MonitorConfig)
        ensures
            is_default_config(c),
    {
        MonitorConfig {
            threshold_centi: 9800,
            check_interval: 60,
            cleanmem_path: String::new(),
            growl_host: String::from_str("localhost"),
            growl_port: 23053,
            growl_password: String::new(),
            growl_app_name: String::from_str("Memory Monitor"),
            icon_path: String::from_str("memory-monitor.png"),
        }
    }
}


/// The entries of the configuration file written on first run.
pub open spec fn default_entries() -> Map<Seq<char>, Map<Seq<char>, Option<Seq<char>>>> {
    let e = store_set(no_entries(), "settings"@, "threshold"@, Some("98.0"@));
    let e = store_set(e, "settings"@, "check_interval"@, Some("60"@));
    let e = store_set(e, "settings"@, "cleanmem_path"@, Some(Seq::<char>::empty()));
    let e = store_set(e, "settings"@, "icon_path"@, Some("memory-monitor.png"@));
    let e = store_set(e, "growl"@, "host"@, Some("localhost"@));
    let e = store_set(e, "growl"@, "port"@, Some("23053"@));
    let e = store_set(e, "growl"@, "password"@, Some(Seq::<char>::empty()));
    store_set(e, "growl"@, "app_name"@, Some("Memory Monitor"@))
}

/// The entries read from a configuration file's text: none where there is
/// no text or it does not parse.
pub open spec fn loaded_entries(text: Option<Seq<char>>) -> Map<Seq<char>, Map<Seq<char>, Option<Seq<char>>>> {
    match text {
        Some(t) => match ini_read_outcome(t) {
            Some(e) => e,
            None => no_entries(),
        },
        None => no_entries(),
    }
}

/// The text setting `key` of `section`, or `default` where it is missing.
pub open spec fn text_setting(
    e: Map<Seq<char>, Map<Seq<char>, Option<Seq<char>>>>,
    section: Seq<char>,
    key: Seq<char>,
    default: Seq<char>,
) -> Seq<char> {
    match entry_value(e, section, key) {
        Some(v) => v,
        None => default,
    }
}

/// The unsigned setting `key` of `section` (at most `max`), or `default`
/// where it is missing or does not parse.
pub open spec fn unsigned_setting(
    e: Map<Seq<char>, Map<Seq<char>, Option<Seq<char>>>>,
    section: Seq<char>,
    key: Seq<char>,
    max: nat,
    default: nat,
) -> nat {
    match entry_value(e, section, key) {
        Some(v) => match parse_unsigned_spec(v, max) {
            Some(n) => n,
            None => default,
        },
        None => default,
    }
}

/// Whether `c` holds the settings that the entries `e` give, where the
/// threshold setting read as `threshold` hundredths of a percent (`None`
/// where it is missing or is no number): every missing or unreadable setting
/// takes its default.
pub open spec fn config_from_entries(
    c: MonitorConfig,
    e: Map<Seq<char>, Map<Seq<char>, Option<Seq<char>>>>,
    threshold: Option<i32>,
) -> bool {
    &&& c.threshold_centi == (match threshold {
        Some(t) => t,
        None => default_threshold_centi(),
    })
    &&& c.check_interval as nat == unsigned_setting(e, "settings"@, "check_interval"@, u64::MAX as nat,
        default_check_interval() as nat)
    &&& c.cleanmem_path@ == text_setting(e, "settings"@, "cleanmem_path"@, ""@)
    &&& c.icon_path@ == text_setting(e, "settings"@, "icon_path"@, "memory-monitor.png"@)
    &&& c.growl_host@ == text_setting(e, "growl"@, "host"@, "localhost"@)
    &&& c.growl_port as nat == unsigned_setting(e, "growl"@, "port"@, u16::MAX as nat,
        default_growl_port() as nat)
    &&& c.growl_password@ == text_setting(e, "growl"@, "password"@, ""@)
    &&& c.growl_app_name@ == text_setting(e, "growl"@, "app_name"@, "Memory Monitor"@)
}

/// The text setting `key` of `section` in `ini`, or `default`.
fn read_text_setting(ini: &Ini, section: &str, key: &str, default: &str) -> (v: String)
    requires
        ini_has_default_options(*ini),
        is_folded_name(section@),
        is_folded_name(key@),
    ensures
        v@ == text_setting(ini_entries(*ini), section@, key@, default@),
{
    match ini_get(ini, section, key) {
        Some(v) => v,
        None => String::from_str(default),
    }
}

/// The unsigned setting `key` of `section` in `ini`, at most `max`, or `default`.
fn read_unsigned_setting(ini: &Ini, section: &str, key: &str, max: u64, default: u64) -> (v: u64)
    requires
        ini_has_default_options(*ini),
        is_folded_name(section@),
        is_folded_name(key@),
    ensures
        v as nat == unsigned_setting(ini_entries(*ini), section@, key@, max as nat, default as nat),
        v <= max || v == default,
{
    match ini_get(ini, section, key) {
        Some(text) => match parse_unsigned(text.as_str(), max) {
            Some(n) => n,
            None => default,
        },
        None => default,
    }
}

/// The configuration file written on first run reads back as the default
/// settings (its threshold, "98.0", read as 98%).
pub proof fn law_default_file_gives_defaults(c: MonitorConfig)
    requires
        config_from_entries(c, default_entries(), Some(default_threshold_centi())),
    ensures
        is_default_config(c),
{
    reveal_strlit("settings");
    reveal_strlit("growl");
    reveal_strlit("threshold");
    reveal_strlit("check_interval");
    reveal_strlit("cleanmem_path");
    reveal_strlit("icon_path");
    reveal_strlit("host");
    reveal_strlit("port");
    reveal_strlit("password");
    reveal_strlit("app_name");
    reveal_strlit("");
    reveal_strlit("60");
    reveal_strlit("23053");
    reveal_with_fuel(decimal, 6);
    assert(""@ =~= Seq::<char>::empty());
    assert("60"@ =~= decimal(60));
    assert("23053"@ =~= decimal(23053));
    law_parse_renders_back(60, u64::MAX);
    law_parse_renders_back(23053, 65535);
    let e = default_entries();
    assert("check_interval"@.len() == 14 && "cleanmem_path"@.len() == 13 && "icon_path"@.len() == 9);
    assert("threshold"@.len() == 9 && "threshold"@[0] != "icon_path"@[0]);
    assert("settings"@.len() == 8 && "growl"@.len() == 5);
    assert("host"@.len() == 4 && "port"@.len() == 4 && "host"@[0] != "port"@[0]);
    assert("password"@.len() == 8 && "app_name"@.len() == 8 && "password"@[0] != "app_name"@[0]);
    assert(entry_value(e, "settings"@, "check_interval"@) == Some("60"@));
    assert(entry_value(e, "settings"@, "cleanmem_path"@) == Some(""@));
    assert(entry_value(e, "settings"@, "icon_path"@) == Some("memory-monitor.png"@));
    assert(entry_value(e, "growl"@, "host"@) == Some("localhost"@));
    assert(entry_value(e, "growl"@, "port"@) == Some("23053"@));
    assert(entry_value(e, "growl"@, "password"@) == Some(""@));
    assert(entry_value(e, "growl"@, "app_name"@) == Some("Memory Monitor"@));
}

/// The search tries the executable's directory first and the working
/// directory next (each where it is known), on every platform; the
/// platform's configuration directories come after them and do not depend on
/// either.
pub proof fn law_search_order(env: Environment, platform: Platform)
    ensures
        env.exe_dir is Some ==> search_dirs(env, platform)[0] == seq![env.exe_dir->0@],
        env.cwd is Some ==> search_dirs(env, platform)[if env.exe_dir is Some { 1int } else { 0int }]
            == seq![env.cwd->0@],
        ({
            let lead: int = (if env.exe_dir is Some { 1int } else { 0int }) + (if env.cwd is Some {
                1int
            } else {
                0int
            });
            let bare = Environment { exe_dir: None, cwd: None, ..env };
            &&& search_dirs(env, platform).len() == lead + search_dirs(bare, platform).len()
            &&& search_dirs(env, platform).skip(lead) == search_dirs(bare, platform)
        }),
{
    let lead: int = (if env.exe_dir is Some { 1int } else { 0int }) + (if env.cwd is Some {
        1int
    } else {
        0int
    });
    let bare = Environment { exe_dir: None, cwd: None, ..env };
    assert(xdg_base(bare) == xdg_base(env));
    assert(search_dirs(env, platform).skip(lead) =~= search_dirs(bare, platform));
}

/// Where the executable's directory is known and writable, the default file
/// goes there, on every platform, and no directory is created; otherwise the
/// executable's directory plays no part. The file is always named
/// `config.ini`, inside the directory that is created for it.
pub proof fn law_default_location(env: Environment, platform: Platform)
    ensures
        env.exe_dir is Some && env.exe_dir_writable ==> default_config_location(env, platform) == (
            seq![env.exe_dir->0@, "config.ini"@],
            None::<Seq<Seq<char>>>,
        ),
        !(env.exe_dir is Some && env.exe_dir_writable) ==> default_config_location(env, platform)
            == default_config_location(Environment { exe_dir: None, ..env }, platform),
        default_config_location(env, platform).0.len() > 0,
        default_config_location(env, platform).0.last() == "config.ini"@,
        default_config_location(env, platform).1 matches Some(d) ==> default_config_location(env, platform).0
            == d.push("config.ini"@),
{
    let bare = Environment { exe_dir: None, ..env };
    assert(xdg_base(bare) == xdg_base(env));
}

/// Every setting that the file holds is the one loaded, and every missing
/// one takes its default: a text setting is the file's text, a number
/// written in decimal within its type's range is that number, and the
/// threshold is what the caller read from the file.
pub proof fn law_file_settings_are_loaded(
    c: MonitorConfig,
    e: Map<Seq<char>, Map<Seq<char>, Option<Seq<char>>>>,
    threshold: Option<i32>,
)
    requires
        config_from_entries(c, e, threshold),
    ensures
        threshold matches Some(t) ==> c.threshold_centi == t,
        threshold is None ==> c.threshold_centi == 9800,
        match entry_value(e, "settings"@, "cleanmem_path"@) {
            Some(v) => c.cleanmem_path@ == v,
            None => c.cleanmem_path@ == Seq::<char>::empty(),
        },
        match entry_value(e, "settings"@, "icon_path"@) {
            Some(v) => c.icon_path@ == v,
            None => c.icon_path@ == "memory-monitor.png"@,
        },
        match entry_value(e, "growl"@, "host"@) {
            Some(v) => c.growl_host@ == v,
            None => c.growl_host@ == "localhost"@,
        },
        match entry_value(e, "growl"@, "password"@) {
            Some(v) => c.growl_password@ == v,
            None => c.growl_password@ == Seq::<char>::empty(),
        },
        match entry_value(e, "growl"@, "app_name"@) {
            Some(v) => c.growl_app_name@ == v,
            None => c.growl_app_name@ == "Memory Monitor"@,
        },
        forall|n: u64| entry_value(e, "settings"@, "check_interval"@) == Some(#[trigger] decimal(n as nat))
            ==> c.check_interval == n,
        entry_value(e, "settings"@, "check_interval"@) is None ==> c.check_interval == 60,
        forall|n: u16| entry_value(e, "growl"@, "port"@) == Some(#[trigger] decimal(n as nat))
            ==> c.growl_port == n,
        entry_value(e, "growl"@, "port"@) is None ==> c.growl_port == 23053,
{
    reveal_strlit("");
    assert(""@ =~= Seq::<char>::empty());
    assert forall|n: u64| entry_value(e, "settings"@, "check_interval"@) == Some(
        #[trigger] decimal(n as nat),
    ) implies c.check_interval == n by {
        law_parse_renders_back(n, u64::MAX);
    }
    assert forall|n: u16| entry_value(e, "growl"@, "port"@) == Some(#[trigger] decimal(n as nat))
        implies c.growl_port == n by {
        law_parse_renders_back(n as u64, 65535);
    }
}

/// The file names looked for: `config.ini` first, then `memory-monitor.ini`
/// and `memory_monitor.ini`; with a known executable name `e`, then `e.ini`,
/// `e.conf` and `e_config.ini`, and nothing else.
pub proof fn law_candidate_filenames(stem: Option<Seq<char>>)
    ensures
        candidate_filenames(stem)[0] == "config.ini"@,
        candidate_filenames(stem)[1] == "memory-monitor.ini"@,
        candidate_filenames(stem)[2] == "memory_monitor.ini"@,
        stem is None ==> candidate_filenames(stem).len() == 3,
        stem matches Some(e) ==> candidate_filenames(stem).len() == 6
            && candidate_filenames(stem)[3] == e + ".ini"@
            && candidate_filenames(stem)[4] == e + ".conf"@
            && candidate_filenames(stem)[5] == e + "_config.ini"@,
{
}

/// The platform's own configuration directories, in order, as searched
/// after the executable's and the working directory: on Windows
/// `APPDATA\memory-monitor` then `PROGRAMDATA\memory-monitor` (each where
/// set); on Linux `XDG_CONFIG_HOME/memory-monitor` (or
/// `HOME/.config/memory-monitor`, `HOME` taken as `/home/user` where unset)
/// then `/etc/memory-monitor`; on macOS
/// `HOME/Library/Application Support/memory-monitor` (where `HOME` is set)
/// then `/Library/Application Support/memory-monitor`; none elsewhere.
pub proof fn law_platform_dirs(env: Environment, platform: Platform)
    ensures
        ({
            let own = search_dirs(Environment { exe_dir: None, cwd: None, ..env }, platform);
            let home: Seq<char> = match env.home {
                Some(h) => h@,
                None => "/home/user"@,
            };
            &&& platform == Platform::Other ==> own.len() == 0
            &&& platform == Platform::Windows ==> own == (match env.appdata {
                Some(a) => seq![seq![a@, "memory-monitor"@]],
                None => Seq::<Seq<Seq<char>>>::empty(),
            }) + (match env.programdata {
                Some(p) => seq![seq![p@, "memory-monitor"@]],
                None => Seq::<Seq<Seq<char>>>::empty(),
            })
            &&& platform == Platform::Linux ==> own.len() == 2 && own[1] == seq!["/etc/memory-monitor"@]
                && own[0] == (match env.xdg_config_home {
                    Some(x) => seq![x@, "memory-monitor"@],
                    None => seq![home, ".config"@, "memory-monitor"@],
                })
            &&& platform == Platform::MacOs ==> own == (match env.home {
                Some(h) => seq![seq![h@, "Library"@, "Application Support"@, "memory-monitor"@]],
                None => Seq::<Seq<Seq<char>>>::empty(),
            }) + seq![seq!["/Library/Application Support/memory-monitor"@]]
        }),
{
    let bare = Environment { exe_dir: None, cwd: None, ..env };
    let own = search_dirs(bare, platform);
    if platform == Platform::Linux {
        assert(own[0] =~= xdg_base(env).push("memory-monitor"@));
    }
}

/// Where the default file goes when the executable's directory is not
/// writable (or unknown): on Windows `APPDATA\<name>\config.ini` (creating
/// `APPDATA\<name>`) where `APPDATA` is set; on Linux
/// `<config dir>/<name>/config.ini`, the configuration directory as searched;
/// on macOS `HOME/Library/Application Support/<name>/config.ini` where `HOME`
/// is set; otherwise `config.ini` in the working directory, creating nothing.
/// `<name>` is the executable's name, `memory-monitor` where it is unknown.
pub proof fn law_default_location_by_platform(env: Environment, platform: Platform)
    requires
        !(env.exe_dir is Some && env.exe_dir_writable),
    ensures
        ({
            let name: Seq<char> = match env.exe_stem {
                Some(s) => s@,
                None => "memory-monitor"@,
            };
            let loc = default_config_location(env, platform);
            let fallback = (seq!["config.ini"@], None::<Seq<Seq<char>>>);
            &&& platform == Platform::Windows ==> loc == (match env.appdata {
                Some(a) => (seq![a@, name, "config.ini"@], Some(seq![a@, name])),
                None => fallback,
            })
            &&& platform == Platform::Linux ==> loc.1 == Some(
                search_dirs(Environment { exe_dir: None, cwd: None, ..env }, platform)[0].drop_last().push(name),
            )
            &&& platform == Platform::MacOs ==> loc == (match env.home {
                Some(h) => (
                    seq![h@, "Library"@, "Application Support"@, name, "config.ini"@],
                    Some(seq![h@, "Library"@, "Application Support"@, name]),
                ),
                None => fallback,
            })
            &&& platform == Platform::Other ==> loc == fallback
        }),
{
    let bare = Environment { exe_dir: None, cwd: None, ..env };
    if platform == Platform::Linux {
        assert(search_dirs(bare, platform)[0].drop_last() =~= xdg_base(env));
    }
    if platform == Platform::MacOs {
        match env.home {
            Some(h) => {
                let d = seq![h@, "Library"@, "Application Support"@, name_of(env)];
                assert(d.push("config.ini"@) =~= seq![h@, "Library"@, "Application Support"@, name_of(env), "config.ini"@]);
            },
            None => {},
        }
    }
}

/// The executable's name, `memory-monitor` where it is unknown.
spec fn name_of(env: Environment) -> Seq<char> {
    match opt_view(env.exe_stem) {
        Some(s) => s,
        None => "memory-monitor"@,
    }
}

/// A number setting whose text is not a number (anything but an optional
/// `+` and decimal digits) takes its default.
pub proof fn law_unreadable_numbers_take_defaults(
    c: MonitorConfig,
    e: Map<Seq<char>, Map<Seq<char>, Option<Seq<char>>>>,
    threshold: Option<i32>,
)
    requires
        config_from_entries(c, e, threshold),
    ensures
        entry_value(e, "settings"@, "check_interval"@) matches Some(v) && !(unsigned_body(v).len() > 0
            && all_digits(unsigned_body(v))) ==> c.check_interval == 60,
        entry_value(e, "growl"@, "port"@) matches Some(v) && !(unsigned_body(v).len() > 0 && all_digits(
            unsigned_body(v),
        )) ==> c.growl_port == 23053,
{
}

/// The default file's names and values are written and read back unchanged.
proof fn lemma_default_entries_plain()
    ensures
        is_plain_store(default_entries()),
{
    reveal_strlit("settings");
    reveal_strlit("growl");
    reveal_strlit("default");
    reveal_strlit("threshold");
    reveal_strlit("check_interval");
    reveal_strlit("cleanmem_path");
    reveal_strlit("icon_path");
    reveal_strlit("host");
    reveal_strlit("port");
    reveal_strlit("password");
    reveal_strlit("app_name");
    reveal_strlit("98.0");
    reveal_strlit("60");
    reveal_strlit("memory-monitor.png");
    reveal_strlit("localhost");
    reveal_strlit("23053");
    reveal_strlit("Memory Monitor");
    let e = default_entries();
    assert forall|s: Seq<char>| #[trigger] e.contains_key(s) implies {
        &&& is_plain_text(s)
        &&& is_folded_name(s)
        &&& (s == "default"@ ==> e[s].dom().len() > 0)
        &&& forall|k: Seq<char>| #[trigger] e[s].contains_key(k) ==> is_plain_key(k) && match e[s][k] {
            Some(v) => is_plain_text(v),
            None => true,
        }
    } by {
        assert(s == "settings"@ || s == "growl"@);
        assert(s != "default"@);
    }
}

impl MonitorConfig {
    /// The store of the configuration file written on first run: the
    /// default settings, in sections `settings` and `growl`.
    pub fn default_ini() -> (ini: Ini)
        ensures
            ini_has_default_options(ini),
            ini_entries(ini) == default_entries(),
    {
        proof {
            reveal_strlit("settings");
            reveal_strlit("growl");
            reveal_strlit("threshold");
            reveal_strlit("check_interval");
            reveal_strlit("cleanmem_path");
            reveal_strlit("icon_path");
            reveal_strlit("host");
            reveal_strlit("port");
            reveal_strlit("password");
            reveal_strlit("app_name");
        }
        let mut ini = ini_new();
        ini_set(&mut ini, "settings", "threshold", Some(String::from_str("98.0")));
        ini_set(&mut ini, "settings", "check_interval", Some(String::from_str("60")));
        ini_set(&mut ini, "settings", "cleanmem_path", Some(String::new()));
        ini_set(&mut ini, "settings", "icon_path", Some(String::from_str("memory-monitor.png")));
        ini_set(&mut ini, "growl", "host", Some(String::from_str("localhost")));
        ini_set(&mut ini, "growl", "port", Some(String::from_str("23053")));
        ini_set(&mut ini, "growl", "password", Some(String::new()));
        ini_set(&mut ini, "growl", "app_name", Some(String::from_str("Memory Monitor")));
        ini
    }

    /// The text of the configuration file written on first run: the default
    /// store in INI syntax, which reads back as exactly the default entries.
    pub fn default_config_text() -> (text: String)
        ensures
            ini_read_outcome(text@) == Some(default_entries()),
            loaded_entries(Some(text@)) == default_entries(),
    {
        let ini = Self::default_ini();
        proof {
            lemma_default_entries_plain();
        }
        ini_writes(&ini)
    }

    /// The store of a configuration file's text (`None` where the file could
    /// not be read): its entries where it parses, none otherwise.
    pub fn read_ini(text: Option<String>) -> (ini: Ini)
        ensures
            ini_has_default_options(ini),
            ini_entries(ini) == loaded_entries(opt_view(text)),
    {
        let mut ini = ini_new();
        match text {
            Some(t) => {
                let _ = ini_read(&mut ini, t);
            },
            None => {},
        }
        ini
    }

    /// The text of the threshold setting, which the caller reads as a
    /// floating-point percentage.
    pub fn threshold_setting(ini: &Ini) -> (v: Option<String>)
        ensures
            ini_has_default_options(*ini) ==> opt_view(v) == entry_value(
                ini_entries(*ini),
                "settings"@,
                "threshold"@,
            ),
    {
        proof {
            reveal_strlit("settings");
            reveal_strlit("threshold");
        }
        ini_get(ini, "settings", "threshold")
    }

    /// The settings that `ini` holds, where the threshold setting read as
    /// `threshold` hundredths of a percent: each missing or unreadable setting
    /// takes its default.
    pub fn from_ini(ini: &Ini, threshold: Option<i32>) -> (c: MonitorConfig)
        requires
            ini_has_default_options(*ini),
        ensures
            config_from_entries(c, ini_entries(*ini), threshold),
    {
        proof {
            reveal_strlit("settings");
            reveal_strlit("growl");
            reveal_strlit("check_interval");
            reveal_strlit("cleanmem_path");
            reveal_strlit("icon_path");
            reveal_strlit("host");
            reveal_strlit("port");
            reveal_strlit("password");
            reveal_strlit("app_name");
            reveal_strlit("");
        }
        let threshold_centi = match threshold {
            Some(t) => t,
            None => 9800,
        };
        let check_interval = read_unsigned_setting(ini, "settings", "check_interval", u64::MAX, 60);
        let port = read_unsigned_setting(ini, "growl", "port", 65535, 23053);
        MonitorConfig {
            threshold_centi,
            check_interval,
            cleanmem_path: read_text_setting(ini, "settings", "cleanmem_path", ""),
            icon_path: read_text_setting(ini, "settings", "icon_path", "memory-monitor.png"),
            growl_host: read_text_setting(ini, "growl", "host", "localhost"),
            growl_port: port as u16,
            growl_password: read_text_setting(ini, "growl", "password", ""),
            growl_app_name: read_text_setting(ini, "growl", "app_name", "Memory Monitor"),
        }
    }
}

/// What the configuration search needs to know of the running program and
/// its environment; each `Option` is `None` where the value could not be
/// had (an unset or non-Unicode variable, an unknown executable path).
pub struct Environment {
    /// The directory of the executable.
    pub exe_dir: Option<String>,
    /// Whether that directory can be written to.
    pub exe_dir_writable: bool,
    /// The executable's file name without its extension.
    pub exe_stem: Option<String>,
    /// The current working directory.
    pub cwd: Option<String>,
    /// `APPDATA`.
    pub appdata: Option<String>,
    /// `PROGRAMDATA`.
    pub programdata: Option<String>,
    /// `XDG_CONFIG_HOME`.
    pub xdg_config_home: Option<String>,
    /// `HOME`.
    pub home: Option<String>,
}

/// A path, as the components that are joined to form it (the first one may
/// itself be a full path).
pub open spec fn strings_view(v: Seq<String>) -> Seq<Seq<char>> {
    v.map_values(|s: String| s@)
}

/// A list of paths.
pub open spec fn paths_view(v: Seq<Vec<String>>) -> Seq<Seq<Seq<char>>> {
    v.map_values(|p: Vec<String>| strings_view(p@))
}

/// The file names looked for, in order: three fixed names, then three
/// derived from the executable's name where it is known.
pub open spec fn candidate_filenames(stem: Option<Seq<char>>) -> Seq<Seq<char>> {
    let base = seq!["config.ini"@, "memory-monitor.ini"@, "memory_monitor.ini"@];
    match stem {
        Some(e) => base + seq![e + ".ini"@, e + ".conf"@, e + "_config.ini"@],
        None => base,
    }
}

/// The user's configuration directory on Linux: `XDG_CONFIG_HOME`, or else
/// `.config` under `HOME` (under `/home/user` where `HOME` is unknown).
pub open spec fn xdg_base(env: Environment) -> Seq<Seq<char>> {
    match opt_view(env.xdg_config_home) {
        Some(x) => seq![x],
        None => seq![
            match opt_view(env.home) {
                Some(h) => h,
                None => "/home/user"@,
            },
            ".config"@,
        ],
    }
}

/// The directories searched for the configuration file, in priority order:
/// the executable's directory, the working directory, then the platform's
/// configuration directories.
pub open spec fn search_dirs(env: Environment, platform: Platform) -> Seq<Seq<Seq<char>>> {
    let exe: Seq<Seq<Seq<char>>> = match opt_view(env.exe_dir) {
        Some(d) => seq![seq![d]],
        None => Seq::empty(),
    };
    let cwd: Seq<Seq<Seq<char>>> = match opt_view(env.cwd) {
        Some(d) => seq![seq![d]],
        None => Seq::empty(),
    };
    let own: Seq<Seq<Seq<char>>> = match platform {
        Platform::Windows => {
            let a: Seq<Seq<Seq<char>>> = match opt_view(env.appdata) {
                Some(d) => seq![seq![d, "memory-monitor"@]],
                None => Seq::empty(),
            };
            let p: Seq<Seq<Seq<char>>> = match opt_view(env.programdata) {
                Some(d) => seq![seq![d, "memory-monitor"@]],
                None => Seq::empty(),
            };
            a + p
        },
        Platform::Linux => seq![xdg_base(env).push("memory-monitor"@), seq!["/etc/memory-monitor"@]],
        Platform::MacOs => {
            let h: Seq<Seq<Seq<char>>> = match opt_view(env.home) {
                Some(d) => seq![seq![d, "Library"@, "Application Support"@, "memory-monitor"@]],
                None => Seq::empty(),
            };
            h + seq![seq!["/Library/Application Support/memory-monitor"@]]
        },
        Platform::Other => Seq::empty(),
    };
    exe + cwd + own
}

/// Every file name in every directory: the directories in order, and within
/// each the names in order.
pub open spec fn candidate_paths(dirs: Seq<Seq<Seq<char>>>, names: Seq<Seq<char>>) -> Seq<Seq<Seq<char>>>
    decreases dirs.len(),
{
    if dirs.len() == 0 {
        Seq::empty()
    } else {
        candidate_paths(dirs.drop_last(), names) + names.map_values(|n: Seq<char>| dirs.last().push(n))
    }
}

/// There is one candidate for every directory and name.
pub proof fn lemma_candidate_count(dirs: Seq<Seq<Seq<char>>>, names: Seq<Seq<char>>)
    ensures
        candidate_paths(dirs, names).len() == dirs.len() * names.len(),
    decreases dirs.len(),
{
    if dirs.len() > 0 {
        lemma_candidate_count(dirs.drop_last(), names);
        let k = dirs.len();
        let n = names.len();
        assert((k - 1) * n + n == k * n) by (nonlinear_arith);
    }
}

/// The search tries directories in priority order, and within a directory
/// the names in order: the name `j` in the directory `i` is candidate
/// `i * names.len() + j`.
pub proof fn law_candidate_order(dirs: Seq<Seq<Seq<char>>>, names: Seq<Seq<char>>, i: int, j: int)
    requires
        0 <= i < dirs.len(),
        0 <= j < names.len(),
    ensures
        candidate_paths(dirs, names).len() == dirs.len() * names.len(),
        candidate_paths(dirs, names)[i * names.len() + j] == dirs[i].push(names[j]),
    decreases dirs.len(),
{
    lemma_candidate_count(dirs, names);
    let n = names.len();
    let k = dirs.len();
    let front = dirs.drop_last();
    lemma_candidate_count(front, names);
    if i < k - 1 {
        law_candidate_order(front, names, i, j);
        assert(i * n + j < (k - 1) * n) by (nonlinear_arith)
            requires 0 <= i < k - 1, 0 <= j < n;
        assert(front[i] == dirs[i]);
    } else {
        assert(i * n + j == (k - 1) * n + j);
    }
}

/// Where the configuration file is created when none is found, and the
/// directory to create for it (`None` where none is created): the
/// executable's directory where it can be written to, else the platform's
/// configuration directory for the program, else `config.ini` in the working
/// directory.
pub open spec fn default_config_location(env: Environment, platform: Platform) -> (
    Seq<Seq<char>>,
    Option<Seq<Seq<char>>>,
) {
    let name = match opt_view(env.exe_stem) {
        Some(s) => s,
        None => "memory-monitor"@,
    };
    let fallback = (seq!["config.ini"@], None::<Seq<Seq<char>>>);
    if env.exe_dir is Some && env.exe_dir_writable {
        (seq![env.exe_dir->0@, "config.ini"@], None)
    } else {
        match platform {
            Platform::Windows => match opt_view(env.appdata) {
                Some(a) => (seq![a, name, "config.ini"@], Some(seq![a, name])),
                None => fallback,
            },
            Platform::Linux => {
                let d = xdg_base(env).push(name);
                (d.push("config.ini"@), Some(d))
            },
            Platform::MacOs => match opt_view(env.home) {
                Some(h) => {
                    let d = seq![h, "Library"@, "Application Support"@, name];
                    (d.push("config.ini"@), Some(d))
                },
                None => fallback,
            },
            Platform::Other => fallback,
        }
    }
}

/// The path of the configuration file to create, and the directory to create first.
pub struct DefaultConfigPath {
    pub file: Vec<String>,
    pub create_dir: Option<Vec<String>>,
}

/// A copy of a path.
fn copy_path(p: &Vec<String>) -> (q: Vec<String>)
    ensures
        strings_view(q@) == strings_view(p@),
{
    let mut q: Vec<String> = Vec::new();
    let mut i: usize = 0;
    while i < p.len()
        invariant
            i <= p.len(),
            q.len() == i,
            strings_view(q@) == strings_view(p@).take(i as int),
        decreases p.len() - i,
    {
        let c = p[i].clone();
        assert(c@ == p@[i as int]@);
        q.push(c);
        assert(strings_view(q@) =~= strings_view(p@).take(i as int + 1));
        i = i + 1;
    }
    assert(strings_view(p@).take(p.len() as int) =~= strings_view(p@));
    q
}

/// A copy of an optional string.
fn copy_opt(o: &Option<String>) -> (c: Option<String>)
    ensures
        opt_view(c) == opt_view(*o),
{
    match o {
        Some(s) => Some(s.clone()),
        None => None,
    }
}

/// The single-component path `a`.
fn path1(a: String) -> (p: Vec<String>)
    ensures
        strings_view(p@) == seq![a@],
{
    let mut p: Vec<String> = Vec::new();
    p.push(a);
    assert(strings_view(p@) =~= seq![a@]);
    p
}

/// The path `a/b`.
fn path2(a: String, b: String) -> (p: Vec<String>)
    ensures
        strings_view(p@) == seq![a@, b@],
{
    let mut p: Vec<String> = Vec::new();
    p.push(a);
    p.push(b);
    assert(strings_view(p@) =~= seq![a@, b@]);
    p
}

/// `p` with `last` appended.
fn extend_path(p: Vec<String>, last: String) -> (q: Vec<String>)
    ensures
        strings_view(q@) == strings_view(p@).push(last@),
{
    let mut q = p;
    q.push(last);
    assert(strings_view(q@) =~= strings_view(p@).push(last@));
    q
}

/// The user's configuration directory on Linux (see `xdg_base`).
fn linux_config_base(env: &Environment) -> (p: Vec<String>)
    ensures
        strings_view(p@) == xdg_base(*env),
{
    match &env.xdg_config_home {
        Some(x) => path1(x.clone()),
        None => {
            let home = match &env.home {
                Some(h) => h.clone(),
                None => String::from_str("/home/user"),
            };
            path2(home, String::from_str(".config"))
        },
    }
}

impl MonitorConfig {
    /// The configuration file names looked for, given the executable's name
    /// without extension where it is known.
    pub fn get_candidate_filenames(exe_stem: &Option<String>) -> (names: Vec<String>)
        ensures
            strings_view(names@) == candidate_filenames(opt_view(*exe_stem)),
    {
        let mut names: Vec<String> = Vec::new();
        names.push(String::from_str("config.ini"));
        names.push(String::from_str("memory-monitor.ini"));
        names.push(String::from_str("memory_monitor.ini"));
        match exe_stem {
            Some(e) => {
                names.push(e.clone().concat(".ini"));
                names.push(e.clone().concat(".conf"));
                names.push(e.clone().concat("_config.ini"));
            },
            None => {},
        }
        assert(strings_view(names@) =~= candidate_filenames(opt_view(*exe_stem)));
        names
    }

    /// The directories searched for the configuration file on `platform`, in
    /// priority order (see `search_dirs`).
    pub fn get_search_dirs(env: &Environment, platform: Platform) -> (dirs: Vec<Vec<String>>)
        ensures
            paths_view(dirs@) == search_dirs(*env, platform),
    {
        let mut dirs: Vec<Vec<String>> = Vec::new();
        match &env.exe_dir {
            Some(d) => dirs.push(path1(d.clone())),
            None => {},
        }
        match &env.cwd {
            Some(d) => dirs.push(path1(d.clone())),
            None => {},
        }
        match platform {
            Platform::Windows => {
                match &env.appdata {
                    Some(d) => dirs.push(path2(d.clone(), String::from_str("memory-monitor"))),
                    None => {},
                }
                match &env.programdata {
                    Some(d) => dirs.push(path2(d.clone(), String::from_str("memory-monitor"))),
                    None => {},
                }
            },
            Platform::Linux => {
                dirs.push(extend_path(linux_config_base(env), String::from_str("memory-monitor")));
                dirs.push(path1(String::from_str("/etc/memory-monitor")));
            },
            Platform::MacOs => {
                match &env.home {
                    Some(h) => {
                        let p = extend_path(
                            extend_path(path2(h.clone(), String::from_str("Library")),
                                String::from_str("Application Support")),
                            String::from_str("memory-monitor"),
                        );
                        dirs.push(p);
                    },
                    None => {},
                }
                dirs.push(path1(String::from_str("/Library/Application Support/memory-monitor")));
            },
            Platform::Other => {},
        }
        assert(paths_view(dirs@) =~~= search_dirs(*env, platform));
        dirs
    }

    /// Every candidate file, in search order: each directory of `dirs` in
    /// turn, with each name of `names` in turn.
    pub fn config_file_candidates(dirs: &Vec<Vec<String>>, names: &Vec<String>) -> (paths: Vec<Vec<String>>)
        ensures
            paths_view(paths@) == candidate_paths(paths_view(dirs@), strings_view(names@)),
    {
        let ghost dv = paths_view(dirs@);
        let ghost nv = strings_view(names@);
        let mut paths: Vec<Vec<String>> = Vec::new();
        let mut i: usize = 0;
        assert(dv.take(0) =~= Seq::<Seq<Seq<char>>>::empty());
        while i < dirs.len()
            invariant
                i <= dirs.len(),
                dv == paths_view(dirs@),
                nv == strings_view(names@),
                paths_view(paths@) == candidate_paths(dv.take(i as int), nv),
            decreases dirs.len() - i,
        {
            let ghost before = paths_view(paths@);
            let mut j: usize = 0;
            while j < names.len()
                invariant
                    i < dirs.len(),
                    j <= names.len(),
                    paths.len() == before.len() + j,
                    dv == paths_view(dirs@),
                    nv == strings_view(names@),
                    paths_view(paths@) == before + nv.take(j as int).map_values(
                        |n: Seq<char>| dv[i as int].push(n),
                    ),
                decreases names.len() - j,
            {
                let p = extend_path(copy_path(&dirs[i]), names[j].clone());
                let ghost old_paths = paths@;
                paths.push(p);
                assert(paths_view(paths@) =~= paths_view(old_paths).push(strings_view(p@)));
                assert(nv.take(j as int + 1).map_values(|n: Seq<char>| dv[i as int].push(n))
                    =~= nv.take(j as int).map_values(|n: Seq<char>| dv[i as int].push(n)).push(
                    dv[i as int].push(nv[j as int])));
                assert(paths_view(paths@) =~= before + nv.take(j as int + 1).map_values(
                    |n: Seq<char>| dv[i as int].push(n),
                ));
                j = j + 1;
            }
            assert(nv.take(names.len() as int) =~= nv);
            assert(dv.take(i as int + 1).drop_last() =~= dv.take(i as int));
            assert(dv.take(i as int + 1).last() == dv[i as int]);
            i = i + 1;
        }
        assert(dv.take(dirs.len() as int) =~= dv);
        paths
    }

    /// Where the configuration file is created when none is found (see
    /// `default_config_location`).
    pub fn get_default_config_path(env: &Environment, platform: Platform) -> (r: DefaultConfigPath)
        ensures
            strings_view(r.file@) == default_config_location(*env, platform).0,
            match default_config_location(*env, platform).1 {
                Some(d) => r.create_dir matches Some(c) && strings_view(c@) == d,
                None => r.create_dir is None,
            },
    {
        let name = match &env.exe_stem {
            Some(s) => s.clone(),
            None => String::from_str("memory-monitor"),
        };
        if env.exe_dir.is_some() && env.exe_dir_writable {
            let d = match &env.exe_dir {
                Some(d) => d.clone(),
                None => String::new(),
            };
            return DefaultConfigPath { file: path2(d, String::from_str("config.ini")), create_dir: None };
        }
        let dir: Option<Vec<String>> = match platform {
            Platform::Windows => match &env.appdata {
                Some(a) => Some(path2(a.clone(), name)),
                None => None,
            },
            Platform::Linux => Some(extend_path(linux_config_base(env), name)),
            Platform::MacOs => match &env.home {
                Some(h) => Some(extend_path(
                    extend_path(path2(h.clone(), String::from_str("Library")),
                        String::from_str("Application Support")),
                    name,
                )),
                None => None,
            },
            Platform::Other => None,
        };
        match dir {
            Some(d) => {
                let file = extend_path(copy_path(&d), String::from_str("config.ini"));
                proof {
                    assert(strings_view(file@) =~= default_config_location(*env, platform).0);
                }
                DefaultConfigPath { file, create_dir: Some(d) }
            },
            None => DefaultConfigPath {
                file: path1(String::from_str("config.ini")),
                create_dir: None,
            },
        }
    }

    /// Whether a file named by the caller is tried before the search: any
    /// name other than `config.ini`, or an absolute path.
    pub fn explicit_file_requested(config_file: &str, is_absolute: bool) -> (b: bool)
        ensures
            b == (config_file@ != "config.ini"@ || is_absolute),
    {
        let named = String::from_str(config_file);
        let standard = String::from_str("config.ini");
        !(named == standard) || is_absolute
    }
}

} // verus!
