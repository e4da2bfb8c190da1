//! A declarative plugin manager: plugin specifications, their download
//! URLs, the configuration they live in, and the policies that drive an
//! install run.

pub mod paths;

pub use paths::{expand_path, get_config_dir, join_path};
pub mod plugin;

pub use plugin::{ArchivePlugin, GitProvider, GitRepo, Plugin};
pub mod config;
pub mod install;
pub mod reset;

pub use config::Config;
pub use install::{archive_from_response, first_error, InstallError};
pub use reset::{reset_plan, PathKind, ResetStep};
