//! The logic of a launcher that installs and updates a game client, and
//! replaces itself by newer releases: which release and asset suit this
//! platform, what a download reports, what unpacking an archive makes, in
//! which order an update is carried out, and what the window keeps track of.
//!
//! The library reads no file and opens no connection. Whatever touches the
//! disk, the network or another process is done by the caller, step by step,
//! as the library asks for it.
pub mod archive;
pub mod archive_model;
pub mod config;
pub mod crypter;
pub mod download;
pub mod encryption_helper;
pub mod github;
pub mod i18n;
pub mod launch;
pub mod profile_editor;
pub mod system_info;
pub mod text;
pub mod ui;
pub mod update;
pub mod update_check;
pub mod version_marker;
pub mod version_reader;
