use auth_backend::config::ServerConfig;
use auth_backend::error::AppError;

#[test]
fn config_defaults_match_the_documented_values() {
    assert_eq!(ServerConfig::default_session_timeout_seconds(), 432000);
    assert_eq!(ServerConfig::default_session_cleanup_interval_seconds(), 5);
    assert_eq!(ServerConfig::default_session_table(), "sessions");
}

#[test]
fn config_holds_its_fields() {
    let cfg = ServerConfig {
        database_file: "db/database.sqlite3".to_string(),
        session_table_name: ServerConfig::default_session_table(),
        session_cleanup_interval_seconds: ServerConfig::default_session_cleanup_interval_seconds(),
        session_timeout_seconds: ServerConfig::default_session_timeout_seconds(),
    };
    assert_eq!(cfg.database_file, "db/database.sqlite3");
    assert_eq!(cfg.session_table_name, "sessions");
    assert_eq!(cfg.session_cleanup_interval_seconds, 5);
    assert_eq!(cfg.session_timeout_seconds, 432000);
}

#[test]
fn status_codes_by_error_kind() {
    assert_eq!(AppError::NotFound.status_code(), 404);
    assert_eq!(AppError::Internal("store unreachable".to_string()).status_code(), 500);
    assert_eq!(AppError::Invalid("too short".to_string()).status_code(), 406);
}

#[test]
fn messages_by_error_kind() {
    assert_eq!(AppError::NotFound.message(), "Not Found");
    assert_eq!(
        AppError::Internal("store unreachable".to_string()).message(),
        "Internal Error: store unreachable"
    );
    assert_eq!(
        AppError::Invalid("too short".to_string()).message(),
        "Invalid data: too short"
    );
}
