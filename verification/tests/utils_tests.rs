use std::path::PathBuf;

use focust::error::{to_tauri_result, AudioError, ConfigError, FocustError};
use focust::logging::LogLevel;
use focust::paths::{debug_dir_name, modify_app_dir_for_debug};
use focust::test_helpers::{assert_duration_near, full_time_range, time_range, TestConfigBuilder};
use focust::time::{TimeRange, Weekday};

// ---------------------------------------------------------------------------
// Errors
// ---------------------------------------------------------------------------

#[test]
fn test_focust_error_display() {
    let err = FocustError::Config("Invalid value".to_string());
    assert_eq!(err.message(), "Configuration error: Invalid value");

    let io_err = std::io::Error::new(std::io::ErrorKind::NotFound, "file not found");
    let err = FocustError::Io(io_err);
    assert!(err.message().contains("IO error"));
}

#[test]
fn focust_error_messages_of_each_variant() {
    let io_err = std::io::Error::new(std::io::ErrorKind::NotFound, "file not found");
    assert_eq!(FocustError::Io(io_err).message(), "IO error: file not found");
    assert_eq!(FocustError::Audio("x".to_string()).message(), "Audio error: x");
    assert_eq!(FocustError::Path("p".to_string()).message(), "Path error: p");
    assert_eq!(FocustError::Serialization("s".to_string()).message(), "Serialization error: s");
    assert_eq!(FocustError::Other("plain".to_string()).message(), "plain");
}

#[test]
fn test_config_error_display() {
    let err = ConfigError::ValidationError("Missing field".to_string());
    assert_eq!(err.message(), "Invalid config value: Missing field");
}

#[test]
fn config_error_messages_of_each_variant() {
    let read = ConfigError::ReadError {
        path: "/c.json".to_string(),
        source: std::io::Error::new(std::io::ErrorKind::Other, "denied"),
    };
    assert_eq!(read.message(), "Failed to read config file at /c.json: denied");
    let write = ConfigError::WriteError {
        path: "/c.json".to_string(),
        source: std::io::Error::new(std::io::ErrorKind::Other, "full"),
    };
    assert_eq!(write.message(), "Failed to write config file at /c.json: full");
    let parse = ConfigError::ParseError { path: "/c.json".to_string(), message: "bad".to_string() };
    assert_eq!(parse.message(), "Failed to parse config file at /c.json: bad");
    assert_eq!(
        ConfigError::DirectoryError("none".to_string()).message(),
        "Failed to get config directory: none"
    );
}

#[test]
fn test_audio_error_display() {
    let path = PathBuf::from("/test/audio.mp3");
    let err = AudioError::FileNotFound(path.display().to_string());
    assert_eq!(err.message(), format!("Audio file not found: {}", path.display()));
}

#[test]
fn audio_error_messages_of_each_variant() {
    assert_eq!(
        AudioError::DeviceError("d".to_string()).message(),
        "Failed to initialize audio device: d"
    );
    assert_eq!(
        AudioError::DecodeError { path: "/a.mp3".to_string(), message: "m".to_string() }.message(),
        "Failed to decode audio file at /a.mp3: m"
    );
    assert_eq!(AudioError::PlaybackError("p".to_string()).message(), "Failed to play audio: p");
    assert_eq!(AudioError::InvalidFormat("f".to_string()).message(), "Invalid audio format: f");
}

#[test]
fn test_to_tauri_result() {
    let ok_result: Result<i32, FocustError> = Ok(42);
    let tauri_result = to_tauri_result(ok_result);
    assert_eq!(tauri_result, Ok(42));

    let err_result: Result<i32, FocustError> = Err(FocustError::Config("test".to_string()));
    let tauri_result = to_tauri_result(err_result);
    assert!(tauri_result.is_err());
    assert_eq!(tauri_result.unwrap_err(), "Configuration error: test");
}

#[test]
fn to_tauri_result_with_config_and_audio_errors() {
    let r: Result<(), ConfigError> = Err(ConfigError::ValidationError("v".to_string()));
    assert_eq!(to_tauri_result(r), Err("Invalid config value: v".to_string()));
    let r: Result<u8, AudioError> = Err(AudioError::PlaybackError("x".to_string()));
    assert_eq!(to_tauri_result(r), Err("Failed to play audio: x".to_string()));
    let r: Result<u8, AudioError> = Ok(3);
    assert_eq!(to_tauri_result(r), Ok(3));
}

// ---------------------------------------------------------------------------
// Log levels
// ---------------------------------------------------------------------------

#[test]
fn test_log_level_parsing() {
    assert_eq!(LogLevel::parse("trace").unwrap(), LogLevel::Trace);
    assert_eq!(LogLevel::parse("debug").unwrap(), LogLevel::Debug);
    assert_eq!(LogLevel::parse("info").unwrap(), LogLevel::Info);
    assert_eq!(LogLevel::parse("warn").unwrap(), LogLevel::Warn);
    assert_eq!(LogLevel::parse("error").unwrap(), LogLevel::Error);

    assert!(LogLevel::parse("INFO").is_none());
    assert!(LogLevel::parse("Debug").is_none());

    assert!(LogLevel::parse("invalid").is_none());
}

#[test]
fn test_log_level_display() {
    assert_eq!(LogLevel::Trace.display_string(), "trace");
    assert_eq!(LogLevel::Debug.display_string(), "debug");
    assert_eq!(LogLevel::Info.display_string(), "info");
    assert_eq!(LogLevel::Warn.display_string(), "warn");
    assert_eq!(LogLevel::Error.display_string(), "error");
}

#[test]
fn test_log_level_to_tracing_level() {
    assert_eq!(LogLevel::Trace.to_tracing_level(), tracing::Level::TRACE);
    assert_eq!(LogLevel::Debug.to_tracing_level(), tracing::Level::DEBUG);
    assert_eq!(LogLevel::Info.to_tracing_level(), tracing::Level::INFO);
    assert_eq!(LogLevel::Warn.to_tracing_level(), tracing::Level::WARN);
    assert_eq!(LogLevel::Error.to_tracing_level(), tracing::Level::ERROR);
}

#[test]
fn log_level_name_round_trip_and_build_default() {
    for l in [LogLevel::Trace, LogLevel::Debug, LogLevel::Info, LogLevel::Warn, LogLevel::Error] {
        assert_eq!(LogLevel::parse(l.as_str()), Some(l));
    }
    assert_eq!(LogLevel::default_for_build(true), LogLevel::Trace);
    assert_eq!(LogLevel::default_for_build(false), LogLevel::Info);
}

// ---------------------------------------------------------------------------
// Paths
// ---------------------------------------------------------------------------

#[test]
fn test_modify_app_dir_for_debug() {
    let original = r"C:\Users\TestUser\AppData\Roaming\com.fesmoph.focust".to_string();
    let modified = modify_app_dir_for_debug(original);
    assert_eq!(
        PathBuf::from(modified),
        PathBuf::from(r"C:\Users\TestUser\AppData\Roaming\com.fesmoph.focust.dev")
    );

    let original = "/Users/TestUser/Library/Application Support/com.fesmoph.focust".to_string();
    let modified = modify_app_dir_for_debug(original);
    assert_eq!(
        PathBuf::from(modified),
        PathBuf::from("/Users/TestUser/Library/Application Support/com.fesmoph.focust.dev")
    );

    let original = "/home/testuser/.config/com.fesmoph.focust".to_string();
    let modified = modify_app_dir_for_debug(original);
    assert_eq!(modified, "/home/testuser/.config/com.fesmoph.focust.dev");
}

#[test]
fn modify_app_dir_keeps_path_without_last_component() {
    assert_eq!(modify_app_dir_for_debug("/".to_string()), "/");
    assert_eq!(debug_dir_name("focust"), "focust.dev");
}

// ---------------------------------------------------------------------------
// Test helpers
// ---------------------------------------------------------------------------

#[test]
fn test_config_builder_defaults() {
    let config = TestConfigBuilder::new().build();

    assert_eq!(config.schedules.len(), 1);
    assert!(config.schedules[0].enabled);
    assert_eq!(config.schedules[0].mini_breaks.interval_s, 1200);
    assert_eq!(config.schedules[0].mini_breaks.base.duration_s, 20);
}

#[test]
fn config_builder_defaults_in_full() {
    let c = TestConfigBuilder::new().build();
    let s = &c.schedules[0];
    assert!(s.mini_breaks.base.enabled);
    assert!(s.long_breaks.base.enabled);
    assert_eq!(s.long_breaks.after_mini_breaks, 4);
    assert_eq!(s.long_breaks.base.duration_s, 300);
    assert_eq!(s.notification_before_s, 0);
    assert_eq!(s.days_of_week.len(), 7);
    assert_eq!(c.inactive_s, 300);
    assert!(c.app_exclusions.is_empty());
    assert!(c.advanced.reset_mini_break_counter_on_pause_reasons.is_empty());
    assert!(c.attentions.is_empty());
}

#[test]
fn test_config_builder_customization() {
    let config = TestConfigBuilder::new()
        .mini_break_interval_s(120)
        .mini_break_duration_s(30)
        .time_range(time_range(9, 0, 17, 0))
        .days_of_week(vec![Weekday::Mon, Weekday::Tue, Weekday::Wed, Weekday::Thu, Weekday::Fri])
        .build();

    assert_eq!(config.schedules[0].mini_breaks.interval_s, 120);
    assert_eq!(config.schedules[0].mini_breaks.base.duration_s, 30);
    assert_eq!(config.schedules[0].days_of_week.len(), 5);
}

#[test]
fn config_builder_setters() {
    let config = TestConfigBuilder::new()
        .long_break_duration_s(600)
        .long_break_after_mini_breaks(3)
        .notification_before_s(15)
        .mini_breaks_enabled(false)
        .long_breaks_enabled(false)
        .schedule_enabled(false)
        .postpone_settings(5, 60)
        .build();
    let s = &config.schedules[0];
    assert_eq!(s.long_breaks.base.duration_s, 600);
    assert_eq!(s.long_breaks.after_mini_breaks, 3);
    assert_eq!(s.notification_before_s, 15);
    assert!(!s.mini_breaks.base.enabled);
    assert!(!s.long_breaks.base.enabled);
    assert!(!s.enabled);
    assert_eq!(s.mini_breaks.base.max_postpone_count, 5);
    assert_eq!(s.mini_breaks.base.postponed_s, 60);
}

#[test]
fn config_builder_add_schedule_appends() {
    let extra = TestConfigBuilder::new().mini_break_interval_s(99).build().schedules[0].clone();
    let config = TestConfigBuilder::new().add_schedule(extra).build();
    assert_eq!(config.schedules.len(), 2);
    assert_eq!(config.schedules[1].mini_breaks.interval_s, 99);
    assert_eq!(config.schedules[0].mini_breaks.interval_s, 1200);
}

#[test]
fn time_range_helpers_compute_seconds() {
    assert_eq!(time_range(9, 0, 17, 30), TimeRange { start: 32400, end: 63000 });
    assert_eq!(full_time_range(), TimeRange { start: 0, end: 0 });
    assert!(full_time_range().contains(0));
    assert!(full_time_range().contains(86399));
    let r = time_range(9, 0, 17, 0);
    assert!(r.contains(32400));
    assert!(!r.contains(61200));
    assert!(!r.contains(32399));
}

#[test]
fn duration_near_tolerance() {
    assert!(assert_duration_near(1800, 1800, 0));
    assert!(assert_duration_near(1803, 1800, 5));
    assert!(assert_duration_near(1795, 1800, 5));
    assert!(!assert_duration_near(1806, 1800, 5));
    assert!(!assert_duration_near(1794, 1800, 5));
}

#[test]
fn config_builder_default_matches_new() {
    let config = TestConfigBuilder::default().build();
    assert_eq!(config.schedules.len(), 1);
    assert_eq!(config.schedules[0].name, "Test Schedule");
    assert!(config.attentions.is_empty());
}
