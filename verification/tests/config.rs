use meeting_monitor::config::{default_config, level_from_str, Config, LogLevel};

#[test]
fn defaults() {
    let c = default_config();
    assert_eq!(c.user_name, "user");
    assert_eq!(
        c.user_icon,
        "https://cdn.iconscout.com/icon/free/png-256/avatar-370-456322.png"
    );
    assert_eq!(c.server_url, "");
    assert_eq!(c.log_level, LogLevel::Info);
    assert!(!c.notifications_enabled());
}

#[test]
fn a_target_url_enables_notifications() {
    let c = Config::new(
        "alice".to_string(),
        "http://example.com/icon.png".to_string(),
        "http://example.com/notify".to_string(),
        LogLevel::Debug,
    );
    assert!(c.notifications_enabled());
}

#[test]
fn level_names_any_case() {
    assert_eq!(level_from_str("ERROR"), LogLevel::Error);
    assert_eq!(level_from_str("error"), LogLevel::Error);
    assert_eq!(level_from_str("WARN"), LogLevel::Warn);
    assert_eq!(level_from_str("WaRn"), LogLevel::Warn);
    assert_eq!(level_from_str("INFO"), LogLevel::Info);
    assert_eq!(level_from_str("DEBUG"), LogLevel::Debug);
    assert_eq!(level_from_str("TRACE"), LogLevel::Trace);
    assert_eq!(level_from_str("trace"), LogLevel::Trace);
}

#[test]
fn unknown_level_falls_back_to_info() {
    assert_eq!(level_from_str(""), LogLevel::Info);
    assert_eq!(level_from_str("verbose"), LogLevel::Info);
    assert_eq!(level_from_str("warning"), LogLevel::Info);
    assert_eq!(level_from_str("errors"), LogLevel::Info);
}
