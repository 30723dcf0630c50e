//! The single error type the library reports: a kind plus a human message.
use vstd::prelude::*;

verus! {

/// Every failure the library surfaces, tagged by what went wrong.
#[derive(Debug, Clone, PartialEq, Eq)]
pub enum AppError {
    /// SSH transport / protocol failure.
    Ssh(String),
    /// Connection lifecycle failure (bind, connect, auth, forward).
    Connection(String),
    /// A referenced entity (forward, group) does not exist.
    NotFound(String),
    /// User-supplied input failed validation.
    InvalidInput(String),
    /// Configuration read/parse/merge failure.
    Config(String),
    /// Persistence failure.
    Storage(String),
    /// Backup export/import failure (incl. version rejection).
    Backup(String),
    /// Keychain / credential store failure.
    Credential(String),
    /// Self-updater failure.
    Updater(String),
    /// (De)serialization failure.
    Serialization(String),
    /// Underlying I/O failure.
    Io(String),
    /// Catch-all for unexpected internal failures.
    Internal(String),
}

/// The human-readable line for an error: a kind prefix, then the message.
pub open spec fn error_text(e: AppError) -> Seq<char> {
    match e {
        AppError::Ssh(m) => "SSH error: "@ + m@,
        AppError::Connection(m) => "connection error: "@ + m@,
        AppError::NotFound(m) => "not found: "@ + m@,
        AppError::InvalidInput(m) => "invalid input: "@ + m@,
        AppError::Config(m) => "configuration error: "@ + m@,
        AppError::Storage(m) => "storage error: "@ + m@,
        AppError::Backup(m) => "backup error: "@ + m@,
        AppError::Credential(m) => "credential error: "@ + m@,
        AppError::Updater(m) => "updater error: "@ + m@,
        AppError::Serialization(m) => "serialization error: "@ + m@,
        AppError::Io(m) => "I/O error: "@ + m@,
        AppError::Internal(m) => "internal error: "@ + m@,
    }
}

impl AppError {
    /// The human-readable line for this error (`"<kind prefix>: <message>"`).
    pub fn to_text(&self) -> (r: String)
        ensures
            r@ == error_text(*self),
    {
        match self {
            AppError::Ssh(m) => "SSH error: ".to_string().concat(m.as_str()),
            AppError::Connection(m) => "connection error: ".to_string().concat(m.as_str()),
            AppError::NotFound(m) => "not found: ".to_string().concat(m.as_str()),
            AppError::InvalidInput(m) => "invalid input: ".to_string().concat(m.as_str()),
            AppError::Config(m) => "configuration error: ".to_string().concat(m.as_str()),
            AppError::Storage(m) => "storage error: ".to_string().concat(m.as_str()),
            AppError::Backup(m) => "backup error: ".to_string().concat(m.as_str()),
            AppError::Credential(m) => "credential error: ".to_string().concat(m.as_str()),
            AppError::Updater(m) => "updater error: ".to_string().concat(m.as_str()),
            AppError::Serialization(m) => "serialization error: ".to_string().concat(
                m.as_str(),
            ),
            AppError::Io(m) => "I/O error: ".to_string().concat(m.as_str()),
            AppError::Internal(m) => "internal error: ".to_string().concat(m.as_str()),
        }
    }
}

} // verus!
