//! Inspection and remediation logic for a Windows virtualization-compatibility tool.
pub mod commands;
pub mod models;
pub mod services;
pub mod text;
