//! What each subcommand decides, apart from the work it hands to the system.

pub mod create;
pub mod v6pool;
pub mod hook;
pub mod self_update;
pub mod save_all;
pub mod restore_all;
pub mod install_hook;
