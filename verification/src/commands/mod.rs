//! The commands: one state machine per lifecycle operation.

pub mod activate;
pub mod global_list;
pub mod install;
pub mod list;
pub mod remove;
