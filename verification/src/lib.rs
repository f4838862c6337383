//! Library of the Steam Cloud file manager: the Steam Cloud save configuration
//! formats (text and binary `appinfo.vdf`), path resolution rules, sync-state
//! decisions and the user-interface message catalogue.
use vstd::prelude::*;

pub mod app_state;
pub mod appinfo_writer;
pub mod backup;
pub mod bytes;
pub mod cdp_client;
pub mod config;
pub mod conflict;
pub mod downloader;
pub mod error;
pub mod file_manager;
pub mod file_tree;
pub mod game_scanner;
pub mod i18n;
pub(crate) mod icons;
pub mod logger;
pub mod path_resolver;
pub mod root_paths;
pub mod steam_api;
pub mod steam_process;
pub mod steam_worker;
pub mod symlink_manager;
pub mod text;
pub mod ufs_text;
pub mod vdf;

verus! {

} // verus!
