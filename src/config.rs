//! Settings records consumed by the host and by shell integration, with
//! their default values.

use vstd::prelude::*;

verus! {

/// General application settings.
#[derive(Clone, Debug)]
pub struct GeneralConfig {
    /// Application log level.
    pub log_level: String,
    /// User-friendly name.
    pub user_name: String,
    /// Whether to start on boot.
    pub start_on_boot: bool,
    /// Where application data is stored.
    pub data_path: String,
}

/// Shell replacement settings.
#[derive(Clone, Debug)]
pub struct ShellConfig {
    /// Replacement method ("shelllauncherv2" or "registry").
    pub replacement_method: String,
    /// Number of crashes tolerated before falling back.
    pub crash_threshold: u32,
    /// Time window for crash detection, in seconds.
    pub crash_window_seconds: u32,
    /// Whether automatic recovery is attempted.
    pub auto_recovery: bool,
    /// Key combination for a manual override at startup.
    pub override_key_combo: String,
}

/// Resource monitoring settings.
#[derive(Clone, Debug)]
pub struct MonitoringConfig {
    /// Update period, in milliseconds.
    pub update_interval_ms: u32,
    pub monitor_cpu: bool,
    pub monitor_ram: bool,
    pub monitor_network: bool,
    pub monitor_disk: bool,
    /// Alert threshold for CPU usage (percent).
    pub cpu_alert_threshold: u32,
    /// Alert threshold for RAM usage (percent).
    pub ram_alert_threshold: u32,
    /// Alert threshold for disk usage (percent).
    pub disk_alert_threshold: u32,
    /// Alert threshold for free disk space (percent).
    pub disk_space_alert_threshold: u32,
}

/// Security settings for scripting.
#[derive(Clone, Debug)]
pub struct SecurityConfig {
    /// Whether scripts run sandboxed.
    pub enable_sandboxing: bool,
    /// Whether unsafe mode is enabled.
    pub unsafe_mode: bool,
    /// Modules scripts may load.
    pub allowed_modules: Vec<String>,
}

impl Default for GeneralConfig {
    fn default() -> (r: GeneralConfig)
        ensures
            r.log_level@ == "info"@,
            r.user_name@ == "User"@,
            !r.start_on_boot,
            r.data_path@ == "%LOCALAPPDATA%\\MAVIS"@,
    {
        GeneralConfig {
            log_level: "info".to_owned(),
            user_name: "User".to_owned(),
            start_on_boot: false,
            data_path: "%LOCALAPPDATA%\\MAVIS".to_owned(),
        }
    }
}

impl Default for ShellConfig {
    fn default() -> (r: ShellConfig)
        ensures
            r.replacement_method@ == "registry"@,
            r.crash_threshold == 3,
            r.crash_window_seconds == 30,
            r.auto_recovery,
            r.override_key_combo@ == "Ctrl+Alt+Shift+F4"@,
    {
        ShellConfig {
            replacement_method: "registry".to_owned(),
            crash_threshold: 3,
            crash_window_seconds: 30,
            auto_recovery: true,
            override_key_combo: "Ctrl+Alt+Shift+F4".to_owned(),
        }
    }
}

impl Default for MonitoringConfig {
    fn default() -> (r: MonitoringConfig)
        ensures
            r.update_interval_ms == 500,
            r.monitor_cpu && r.monitor_ram && r.monitor_network && r.monitor_disk,
            r.cpu_alert_threshold == 90,
            r.ram_alert_threshold == 90,
            r.disk_alert_threshold == 95,
            r.disk_space_alert_threshold == 10,
    {
        MonitoringConfig {
            update_interval_ms: 500,
            monitor_cpu: true,
            monitor_ram: true,
            monitor_network: true,
            monitor_disk: true,
            cpu_alert_threshold: 90,
            ram_alert_threshold: 90,
            disk_alert_threshold: 95,
            disk_space_alert_threshold: 10,
        }
    }
}

impl Default for SecurityConfig {
    fn default() -> (r: SecurityConfig)
        ensures
            r.enable_sandboxing,
            !r.unsafe_mode,
            r.allowed_modules@.len() == 3,
            r.allowed_modules@[0]@ == "table"@,
            r.allowed_modules@[1]@ == "string"@,
            r.allowed_modules@[2]@ == "math"@,
    {
        SecurityConfig {
            enable_sandboxing: true,
            unsafe_mode: false,
            allowed_modules: vec!["table".to_owned(), "string".to_owned(), "math".to_owned()],
        }
    }
}

} // verus!
