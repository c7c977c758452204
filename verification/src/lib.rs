//! Verified core of a MAME desktop front end: audit-output classification,
//! configuration precedence, MAME argument construction, catalog query
//! building and the bounded text handling they share.

pub mod app_info;
pub mod argv;
pub mod bios;
pub mod artwork;
pub mod audit;
pub mod audit_runner;
pub mod audit_store;
pub mod bulk_audit;
pub mod bundled_runtime;
pub mod catalog_import;
pub mod catalog_query;
pub mod collections;
pub mod config;
pub mod config_persistence;
pub mod controller_profiles;
pub mod controller_settings;
pub mod diagnostics;
pub mod errors;
pub mod machine_detail;
pub mod machine_query;
pub mod mame_ui;
pub mod mame_ui_bootstrap;
pub mod mame_ui_launch;
pub mod metadata_status;
pub mod mame_ui_export;
pub mod mame_ui_state;
pub mod event_names;
pub mod executable;
pub mod favorites;
pub mod general_settings;
pub mod history;
pub mod json;
pub mod library;
pub mod listxml;
pub mod explain;
pub mod path_configuration;
pub mod precedence;
pub mod preferences;
pub mod recent_log;
pub mod software_list;
pub mod text;
pub mod xml;
