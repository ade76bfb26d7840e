//! Plain data rows exchanged with the user interface.
pub mod installed_program;
pub mod system_info;
pub mod virtualization;
