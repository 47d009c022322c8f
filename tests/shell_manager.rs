use mavis_term::config::{GeneralConfig, MonitoringConfig, SecurityConfig, ShellConfig};
use mavis_term::shell::ShellManager;

#[test]
fn test_shell_manager_new() {
    let default_config = ShellConfig::default();
    let manager = ShellManager::new(default_config);
    assert!(manager.is_ok());
}

#[test]
fn test_manual_override_placeholder() {
    let default_config = ShellConfig::default();
    let manager = ShellManager::new(default_config).unwrap();
    assert_eq!(manager.check_for_manual_override(), false);
}

#[test]
fn shell_policy_operations_succeed() {
    let manager = ShellManager::new(ShellConfig::default()).unwrap();
    assert!(manager.register_shell().is_ok());
    assert!(manager.unregister_shell().is_ok());
    assert!(!manager.is_safe_mode());
    assert!(manager.monitor_process_health().is_ok());
}

#[test]
fn default_settings() {
    let shell = ShellConfig::default();
    assert_eq!(shell.replacement_method, "registry");
    assert_eq!(shell.crash_threshold, 3);
    assert_eq!(shell.crash_window_seconds, 30);
    assert!(shell.auto_recovery);
    assert_eq!(shell.override_key_combo, "Ctrl+Alt+Shift+F4");
    let general = GeneralConfig::default();
    assert_eq!(general.log_level, "info");
    assert_eq!(general.user_name, "User");
    assert!(!general.start_on_boot);
    assert_eq!(general.data_path, "%LOCALAPPDATA%\\MAVIS");
    let monitoring = MonitoringConfig::default();
    assert_eq!(monitoring.update_interval_ms, 500);
    assert_eq!(monitoring.disk_alert_threshold, 95);
    assert_eq!(monitoring.disk_space_alert_threshold, 10);
    let security = SecurityConfig::default();
    assert!(security.enable_sandboxing);
    assert!(!security.unsafe_mode);
    assert_eq!(security.allowed_modules, vec!["table", "string", "math"]);
}
