use healthmon::cli::input::{match_command, InputType};
use healthmon::config::{
    def_alert_discord_content_basic, def_alert_discord_is_insecure, def_alert_discord_timeout,
    def_alert_type, def_check_http_is_insecure, def_check_http_method, def_check_http_timeout,
    def_check_http_url, def_check_type, def_cron, def_debug_lvl, def_fails_cnt_to_alert,
    def_lats_max_track, def_log_dir, AlertType, CheckType, Config,
};
use healthmon::debugger::{LogLevel, Logger};
use healthmon::helper::{format_contents, HttpMethod};
use healthmon::service::ServiceError;

#[test]
fn commands_are_recognized() {
    assert_eq!(
        match_command(&"list".to_string()),
        Some(InputType::ServiceList)
    );
    assert_eq!(match_command(&"exit".to_string()), Some(InputType::Exit));
    assert_eq!(match_command(&"quit".to_string()), Some(InputType::Exit));
    assert_eq!(match_command(&"q".to_string()), Some(InputType::Exit));
    assert_eq!(match_command(&"status".to_string()), None);
    assert_eq!(match_command(&"".to_string()), None);
}

#[test]
fn configuration_defaults() {
    assert_eq!(def_debug_lvl(), Some("info".to_string()));
    assert_eq!(def_log_dir(), None);
    assert_eq!(def_fails_cnt_to_alert(), Some(3));
    assert_eq!(def_lats_max_track(), Some(10));
    assert_eq!(def_cron(), "0 * * * * *");
    assert_eq!(def_check_type(), CheckType::HTTP);
    assert_eq!(def_check_http_method(), "GET");
    assert_eq!(def_check_http_timeout(), 10);
    assert_eq!(def_check_http_url(), "http://127.0.0.1");
    assert_eq!(def_alert_type(), AlertType::DISCORD);
    assert_eq!(def_alert_discord_timeout(), 10);
    assert_eq!(def_alert_discord_content_basic(), "Found {s.name} offline!");
    assert!(!def_check_http_is_insecure());
    assert!(!def_alert_discord_is_insecure());
}

#[test]
fn empty_config_has_no_services() {
    let cfg = Config::new();
    assert!(cfg.debug_lvl.is_none());
    assert!(cfg.log_dir.is_none());
    assert!(cfg.services.is_empty());
}

#[test]
fn template_formatting_replaces_placeholders() {
    let out = format_contents(
        "Found {s.name} offline!",
        vec![("{s.name}".to_string(), "web".to_string())],
    );
    assert_eq!(out, "Found web offline!");
}

#[test]
fn template_formatting_applies_pairs_in_order() {
    let out = format_contents(
        "ab",
        vec![
            ("a".to_string(), "b".to_string()),
            ("b".to_string(), "c".to_string()),
        ],
    );
    assert_eq!(out, "cc");
}

#[test]
fn template_formatting_with_no_pairs_is_identity() {
    assert_eq!(format_contents("unchanged", vec![]), "unchanged");
}

#[test]
fn http_method_parsing_ignores_case() {
    assert_eq!(HttpMethod::from_str("GET"), HttpMethod::GET);
    assert_eq!(HttpMethod::from_str("post"), HttpMethod::POST);
    assert_eq!(HttpMethod::from_str("Put"), HttpMethod::PUT);
    assert_eq!(HttpMethod::from_str("DELETE"), HttpMethod::DELETE);
    assert_eq!(HttpMethod::from_str("patch"), HttpMethod::PATCH);
    assert_eq!(HttpMethod::from_str("bogus"), HttpMethod::GET);
}

#[test]
fn http_method_labels() {
    assert_eq!(HttpMethod::GET.as_str(), "GET");
    assert_eq!(HttpMethod::POST.as_str(), "POST");
    assert_eq!(HttpMethod::PUT.as_str(), "PUT");
    assert_eq!(HttpMethod::DELETE.as_str(), "DELETE");
    assert_eq!(HttpMethod::PATCH.as_str(), "PATCH");
}

#[test]
fn log_filter_matrix() {
    let dbg = Logger::new(LogLevel::DEBUG, None);
    assert!(dbg.should_log(&LogLevel::DEBUG));
    assert!(dbg.should_log(&LogLevel::ERROR));

    let info = Logger::new(LogLevel::INFO, None);
    assert!(!info.should_log(&LogLevel::DEBUG));
    assert!(info.should_log(&LogLevel::INFO));
    assert!(info.should_log(&LogLevel::WARN));
    assert!(info.should_log(&LogLevel::ERROR));

    let warn = Logger::new(LogLevel::WARN, None);
    assert!(!warn.should_log(&LogLevel::INFO));
    assert!(warn.should_log(&LogLevel::WARN));
    assert!(warn.should_log(&LogLevel::ERROR));

    let err = Logger::new(LogLevel::ERROR, None);
    assert!(!err.should_log(&LogLevel::WARN));
    assert!(err.should_log(&LogLevel::ERROR));
}

#[test]
fn log_level_labels() {
    assert_eq!(LogLevel::DEBUG.as_str(), "DEBUG");
    assert_eq!(LogLevel::INFO.as_str(), "INFO");
    assert_eq!(LogLevel::WARN.as_str(), "WARN");
    assert_eq!(LogLevel::ERROR.as_str(), "ERROR");
}

#[test]
fn service_error_keeps_its_message() {
    let e = ServiceError::new("bad cron expression".to_string());
    assert_eq!(e.message, "bad cron expression");
}

#[test]
fn logger_new_keeps_settings() {
    let logger = Logger::new(LogLevel::WARN, Some("/var/log/mon.log".to_string()));
    assert_eq!(logger.level, LogLevel::WARN);
    assert_eq!(logger.log_file, Some("/var/log/mon.log".to_string()));
}
