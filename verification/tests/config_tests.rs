use memory_monitor::cleaner::Platform;
use memory_monitor::config::{Environment, MonitorConfig};

fn centi_from_f64(t: f64) -> i32 {
    (t * 100.0).round() as i32
}

fn load(text: Option<&str>) -> MonitorConfig {
    let ini = MonitorConfig::read_ini(text.map(|t| t.to_string()));
    let threshold = MonitorConfig::threshold_setting(&ini)
        .and_then(|v| v.parse::<f64>().ok())
        .map(centi_from_f64);
    MonitorConfig::from_ini(&ini, threshold)
}

fn paths(v: Vec<Vec<String>>) -> Vec<Vec<String>> {
    v
}

fn p(parts: &[&str]) -> Vec<String> {
    parts.iter().map(|s| s.to_string()).collect()
}

fn empty_env() -> Environment {
    Environment {
        exe_dir: None,
        exe_dir_writable: false,
        exe_stem: None,
        cwd: None,
        appdata: None,
        programdata: None,
        xdg_config_home: None,
        home: None,
    }
}

#[test]
fn test_default_config() {
    let config = MonitorConfig::default();
    assert_eq!(f64::from(config.threshold_centi) / 100.0, 98.0);
    assert_eq!(config.check_interval, 60);
    assert_eq!(config.icon_path, "memory-monitor.png");
}

#[test]
fn test_candidate_filenames() {
    let candidates = MonitorConfig::get_candidate_filenames(&Some("memory-monitor".to_string()));
    assert!(candidates.contains(&"config.ini".to_string()));
    assert!(candidates.contains(&"memory-monitor.ini".to_string()));
    assert!(candidates.contains(&"memory_monitor.ini".to_string()));
}

#[test]
fn test_create_and_load_config() {
    let written = MonitorConfig::default_config_text();
    let config = load(Some(&written));
    assert_eq!(f64::from(config.threshold_centi) / 100.0, 98.0);
    assert_eq!(config.growl_port, 23053);
}

#[test]
fn default_settings_are_the_documented_ones() {
    let c = MonitorConfig::default();
    assert_eq!(c.threshold_centi, 9800);
    assert_eq!(c.cleanmem_path, "");
    assert_eq!(c.growl_host, "localhost");
    assert_eq!(c.growl_port, 23053);
    assert_eq!(c.growl_password, "");
    assert_eq!(c.growl_app_name, "Memory Monitor");
}

#[test]
fn default_file_holds_every_default_setting() {
    let ini = MonitorConfig::default_ini();
    assert_eq!(ini.get("Settings", "threshold").as_deref(), Some("98.0"));
    assert_eq!(ini.get("Settings", "check_interval").as_deref(), Some("60"));
    assert_eq!(ini.get("Settings", "cleanmem_path").as_deref(), Some(""));
    assert_eq!(ini.get("Settings", "icon_path").as_deref(), Some("memory-monitor.png"));
    assert_eq!(ini.get("Growl", "host").as_deref(), Some("localhost"));
    assert_eq!(ini.get("Growl", "port").as_deref(), Some("23053"));
    assert_eq!(ini.get("Growl", "password").as_deref(), Some(""));
    assert_eq!(ini.get("Growl", "app_name").as_deref(), Some("Memory Monitor"));
}

#[test]
fn default_file_reads_back_as_defaults() {
    let written = MonitorConfig::default_config_text();
    assert!(written.contains("[settings]"));
    assert!(written.contains("threshold=98.0"));
    assert!(written.contains("password="));
    let c = load(Some(&written));
    assert_eq!(c.threshold_centi, 9800);
    assert_eq!(c.check_interval, 60);
    assert_eq!(c.cleanmem_path, "");
    assert_eq!(c.icon_path, "memory-monitor.png");
    assert_eq!(c.growl_host, "localhost");
    assert_eq!(c.growl_password, "");
    assert_eq!(c.growl_app_name, "Memory Monitor");
}

#[test]
fn settings_are_read_from_the_file() {
    let c = load(Some(
        "[Settings]\nthreshold = 90.5\ncheck_interval = 30\ncleanmem_path = C:\\Tools\\cleanmem.exe\n\
         [Growl]\nhost = growl.local\nport = 1234\npassword = secret\napp_name = Mem\n",
    ));
    assert_eq!(c.threshold_centi, 9050);
    assert_eq!(c.check_interval, 30);
    assert_eq!(c.cleanmem_path, "C:\\Tools\\cleanmem.exe");
    assert_eq!(c.growl_host, "growl.local");
    assert_eq!(c.growl_port, 1234);
    assert_eq!(c.growl_password, "secret");
    assert_eq!(c.growl_app_name, "Mem");
    assert_eq!(c.icon_path, "memory-monitor.png");
}

#[test]
fn unreadable_numbers_take_their_defaults() {
    let c = load(Some("[settings]\nthreshold = high\ncheck_interval = -5\n[growl]\nport = 70000\n"));
    assert_eq!(c.threshold_centi, 9800);
    assert_eq!(c.check_interval, 60);
    assert_eq!(c.growl_port, 23053);
}

#[test]
fn a_leading_plus_is_accepted_in_numbers() {
    let c = load(Some("[settings]\ncheck_interval = +15\n[growl]\nport = 65535\n"));
    assert_eq!(c.check_interval, 15);
    assert_eq!(c.growl_port, 65535);
}

#[test]
fn a_missing_file_gives_the_defaults() {
    let c = load(None);
    assert_eq!(c.threshold_centi, 9800);
    assert_eq!(c.check_interval, 60);
    assert_eq!(c.growl_port, 23053);
    assert_eq!(c.cleanmem_path, "");
}

#[test]
fn a_file_that_does_not_parse_gives_the_defaults() {
    let c = load(Some("[settings\ncheck_interval = 5\n"));
    assert_eq!(c.check_interval, 60);
}

#[test]
fn candidate_filenames_follow_the_executable_name() {
    let c = MonitorConfig::get_candidate_filenames(&Some("mm".to_string()));
    assert_eq!(c, p(&["config.ini", "memory-monitor.ini", "memory_monitor.ini", "mm.ini", "mm.conf", "mm_config.ini"]));
    assert_eq!(MonitorConfig::get_candidate_filenames(&None).len(), 3);
}

#[test]
fn search_dirs_on_linux() {
    let mut env = empty_env();
    env.exe_dir = Some("/opt/mm".to_string());
    env.cwd = Some("/work".to_string());
    env.home = Some("/home/ann".to_string());
    let dirs = paths(MonitorConfig::get_search_dirs(&env, Platform::Linux));
    assert_eq!(dirs, vec![
        p(&["/opt/mm"]),
        p(&["/work"]),
        p(&["/home/ann", ".config", "memory-monitor"]),
        p(&["/etc/memory-monitor"]),
    ]);
    env.xdg_config_home = Some("/cfg".to_string());
    let dirs = MonitorConfig::get_search_dirs(&env, Platform::Linux);
    assert_eq!(dirs[2], p(&["/cfg", "memory-monitor"]));
    env.xdg_config_home = None;
    env.home = None;
    let dirs = MonitorConfig::get_search_dirs(&env, Platform::Linux);
    assert_eq!(dirs[2], p(&["/home/user", ".config", "memory-monitor"]));
}

#[test]
fn search_dirs_on_windows_and_macos() {
    let mut env = empty_env();
    env.appdata = Some("C:\\AppData".to_string());
    env.programdata = Some("C:\\ProgramData".to_string());
    env.home = Some("/Users/ann".to_string());
    assert_eq!(MonitorConfig::get_search_dirs(&env, Platform::Windows), vec![
        p(&["C:\\AppData", "memory-monitor"]),
        p(&["C:\\ProgramData", "memory-monitor"]),
    ]);
    assert_eq!(MonitorConfig::get_search_dirs(&env, Platform::MacOs), vec![
        p(&["/Users/ann", "Library", "Application Support", "memory-monitor"]),
        p(&["/Library/Application Support/memory-monitor"]),
    ]);
    assert!(MonitorConfig::get_search_dirs(&env, Platform::Other).is_empty());
}

#[test]
fn candidates_go_directory_by_directory() {
    let dirs = vec![p(&["a"]), p(&["b", "c"])];
    let names = p(&["x.ini", "y.ini"]);
    assert_eq!(MonitorConfig::config_file_candidates(&dirs, &names), vec![
        p(&["a", "x.ini"]),
        p(&["a", "y.ini"]),
        p(&["b", "c", "x.ini"]),
        p(&["b", "c", "y.ini"]),
    ]);
}

#[test]
fn default_path_prefers_a_writable_executable_directory() {
    let mut env = empty_env();
    env.exe_dir = Some("/opt/mm".to_string());
    env.exe_dir_writable = true;
    env.exe_stem = Some("mm".to_string());
    let d = MonitorConfig::get_default_config_path(&env, Platform::Linux);
    assert_eq!(d.file, p(&["/opt/mm", "config.ini"]));
    assert!(d.create_dir.is_none());
}

#[test]
fn default_path_falls_back_to_the_platform_directory() {
    let mut env = empty_env();
    env.exe_dir = Some("/usr/bin".to_string());
    env.exe_stem = Some("mm".to_string());
    env.home = Some("/home/ann".to_string());
    let d = MonitorConfig::get_default_config_path(&env, Platform::Linux);
    assert_eq!(d.file, p(&["/home/ann", ".config", "mm", "config.ini"]));
    assert_eq!(d.create_dir, Some(p(&["/home/ann", ".config", "mm"])));
    env.exe_stem = None;
    env.appdata = Some("C:\\AppData".to_string());
    let d = MonitorConfig::get_default_config_path(&env, Platform::Windows);
    assert_eq!(d.file, p(&["C:\\AppData", "memory-monitor", "config.ini"]));
    let d = MonitorConfig::get_default_config_path(&env, Platform::MacOs);
    assert_eq!(d.file, p(&["/home/ann", "Library", "Application Support", "memory-monitor", "config.ini"]));
    let d = MonitorConfig::get_default_config_path(&empty_env(), Platform::Windows);
    assert_eq!(d.file, p(&["config.ini"]));
    assert!(d.create_dir.is_none());
    let d = MonitorConfig::get_default_config_path(&empty_env(), Platform::Other);
    assert_eq!(d.file, p(&["config.ini"]));
}

#[test]
fn explicit_files_are_tried_first() {
    assert!(!MonitorConfig::explicit_file_requested("config.ini", false));
    assert!(MonitorConfig::explicit_file_requested("config.ini", true));
    assert!(MonitorConfig::explicit_file_requested("other.ini", false));
}
