//! The logic of the user-facing commands.
pub mod virtualization;
pub mod system_info;
pub mod disable;
pub mod export;
