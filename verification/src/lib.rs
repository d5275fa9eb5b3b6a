//! Core logic of the RS Shield backup tool: what its command line and its
//! desktop app decide and show. Commands and their options, retention
//! policies, profile and snapshot listings, snapshot comparison, the
//! authentication server's answers and device-flow login, the desktop's
//! forms, outcome reports and settings, and the texts shown to users.

pub mod numeric;
pub mod byte_sizes;
pub mod text;
pub mod text_lines;
pub mod text_order;
pub mod error_handler;
pub mod operation_timer;
pub mod retention;
pub mod operations_helpers;
pub mod auth;
pub mod snapshot_cmd;
pub mod snapshot_listing;
pub mod profile_loader;
pub mod app_preferences;
pub mod realtime_sync;
pub mod diagnostics;
pub mod operation_forms;
pub mod operation_outcomes;
pub mod screen_runs;
pub mod backup_integrity;
pub mod config_paths;
pub mod profile_listing;
pub mod profile_manager;
pub mod desktop_session;
pub mod integrations;
pub mod desktop_views;
pub mod cli_commands;
