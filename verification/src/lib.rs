//! Verified core of the MindLink desktop router.

pub mod text;
pub mod seq_facts;
pub mod json;
pub mod string_map;
pub mod error;
pub mod commands;
pub mod error_reporter;
pub mod logging;
pub mod process_monitor;
pub mod managers;
pub mod supervisor;
pub mod dialog;
pub mod command_helpers;
pub mod laws;
