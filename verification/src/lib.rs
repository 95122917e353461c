use vstd::prelude::*;

pub mod archive;
pub mod command;
pub mod error;
pub mod homebrew;
pub mod install;
pub mod linux;
pub mod manager;
pub mod provision;
pub mod reconcile;
pub mod registry;
pub mod sizes;
pub mod state;
pub mod supervise;
pub mod table;
pub mod text;
pub mod types;
pub mod utils;
pub mod windows;

pub use error::LifecycleError;
pub use install::InstallDatabaseParams;
pub use manager::DatabaseManager;
pub use state::{AppState, AppStateData, Records};
pub use types::{
    AsyncTask, BackupRecord, DatabaseConfig, DatabaseInfo, DatabaseStatus, DatabaseType,
    GlobalSettings, OperationResult, TaskStatus,
};
