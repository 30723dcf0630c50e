//! Persistence rules: the config document and backup export/import planning.
pub mod backup;
pub mod config_file;
