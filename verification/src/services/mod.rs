//! Parsing and decision logic behind the Windows queries.
pub mod registry_manifest;
pub mod csv_service;
pub mod process_service;
pub mod log_service;
pub mod registry_service;
pub mod timestamp;
pub mod wmi_service;
pub mod installed_program_service;
pub mod disk_service;
pub mod event_log_service;
