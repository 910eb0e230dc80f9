use vstd::prelude::*;

verus! {

/// Server configuration: where the credential database lives and how the
/// session table is managed. Fields that a configuration file may leave out
/// fall back to the `default_*` functions below.
#[derive(Clone, Debug, PartialEq)]
pub struct ServerConfig {
    /// Path of the database file holding the credential records.
    pub database_file: String,
    /// The name of the session storage table.
    pub session_table_name: String,
    /// Seconds to wait between scans that delete expired sessions.
    pub session_cleanup_interval_seconds: i64,
    /// Seconds of inactivity before a session expires.
    pub session_timeout_seconds: i64,
}

impl ServerConfig {
    /// Default session lifetime: five days, in seconds.
    pub fn default_session_timeout_seconds() -> (secs: i64)
        ensures
            secs == 60 * 60 * 24 * 5,
    {
        60 * 60 * 24 * 5
    }

    /// Default pause between expired-session cleanup scans.
    pub fn default_session_cleanup_interval_seconds() -> (secs: i64)
        ensures
            secs == 5,
    {
        5
    }

    /// Default name of the session storage table.
    pub fn default_session_table() -> (name: String)
        ensures
            name@ == "sessions"@,
    {
        String::from_str("sessions")
    }
}

} // verus!
