use crate::text::opt_text;
use std::collections::HashMap;
use vstd::prelude::*;

verus! {

/// The engines that can be managed.
#[derive(Clone, Copy, Debug, PartialEq, Eq, Structural, Hash)]
pub enum DatabaseType {
    MySQL,
    PostgreSQL,
    MongoDB,
    Redis,
    Qdrant,
    SurrealDB,
}

impl DatabaseType {
    /// The lower-case name under which an engine is stored and looked up.
    pub open spec fn spec_as_str(self) -> Seq<char> {
        match self {
            DatabaseType::MySQL => "mysql"@,
            DatabaseType::PostgreSQL => "postgresql"@,
            DatabaseType::MongoDB => "mongodb"@,
            DatabaseType::Redis => "redis"@,
            DatabaseType::Qdrant => "qdrant"@,
            DatabaseType::SurrealDB => "surrealdb"@,
        }
    }

    /// The name that is shown to people.
    pub open spec fn spec_display_name(self) -> Seq<char> {
        match self {
            DatabaseType::MySQL => "MySQL"@,
            DatabaseType::PostgreSQL => "PostgreSQL"@,
            DatabaseType::MongoDB => "MongoDB"@,
            DatabaseType::Redis => "Redis"@,
            DatabaseType::Qdrant => "Qdrant"@,
            DatabaseType::SurrealDB => "SurrealDB"@,
        }
    }

    /// The well-known port of each engine.
    pub open spec fn spec_default_port(self) -> u16 {
        match self {
            DatabaseType::MySQL => 3306,
            DatabaseType::PostgreSQL => 5432,
            DatabaseType::MongoDB => 27017,
            DatabaseType::Redis => 6379,
            DatabaseType::Qdrant => 6333,
            DatabaseType::SurrealDB => 8000,
        }
    }

    /// The engine that a lower-case name stands for.
    pub open spec fn spec_from_name(name: Seq<char>) -> Option<DatabaseType> {
        if name == "mysql"@ {
            Some(DatabaseType::MySQL)
        } else if name == "postgresql"@ {
            Some(DatabaseType::PostgreSQL)
        } else if name == "mongodb"@ {
            Some(DatabaseType::MongoDB)
        } else if name == "redis"@ {
            Some(DatabaseType::Redis)
        } else if name == "qdrant"@ {
            Some(DatabaseType::Qdrant)
        } else if name == "surrealdb"@ {
            Some(DatabaseType::SurrealDB)
        } else {
            None
        }
    }

    /// The lower-case name under which the engine is stored and looked up.
    pub fn as_str(&self) -> (name: &'static str)
        ensures
            name@ == self.spec_as_str(),
    {
        match self {
            DatabaseType::MySQL => "mysql",
            DatabaseType::PostgreSQL => "postgresql",
            DatabaseType::MongoDB => "mongodb",
            DatabaseType::Redis => "redis",
            DatabaseType::Qdrant => "qdrant",
            DatabaseType::SurrealDB => "surrealdb",
        }
    }

    /// The name that is shown to people.
    pub fn display_name(&self) -> (name: &'static str)
        ensures
            name@ == self.spec_display_name(),
    {
        match self {
            DatabaseType::MySQL => "MySQL",
            DatabaseType::PostgreSQL => "PostgreSQL",
            DatabaseType::MongoDB => "MongoDB",
            DatabaseType::Redis => "Redis",
            DatabaseType::Qdrant => "Qdrant",
            DatabaseType::SurrealDB => "SurrealDB",
        }
    }

    /// The well-known port of the engine.
    pub fn default_port(&self) -> (port: u16)
        ensures
            port == self.spec_default_port(),
    {
        match self {
            DatabaseType::MySQL => 3306,
            DatabaseType::PostgreSQL => 5432,
            DatabaseType::MongoDB => 27017,
            DatabaseType::Redis => 6379,
            DatabaseType::Qdrant => 6333,
            DatabaseType::SurrealDB => 8000,
        }
    }

    /// The engine with the given lower-case name, if there is one.
    pub fn from_name(name: &str) -> (found: Option<DatabaseType>)
        ensures
            found == Self::spec_from_name(name@),
    {
        if *name == *"mysql" {
            Some(DatabaseType::MySQL)
        } else if *name == *"postgresql" {
            Some(DatabaseType::PostgreSQL)
        } else if *name == *"mongodb" {
            Some(DatabaseType::MongoDB)
        } else if *name == *"redis" {
            Some(DatabaseType::Redis)
        } else if *name == *"qdrant" {
            Some(DatabaseType::Qdrant)
        } else if *name == *"surrealdb" {
            Some(DatabaseType::SurrealDB)
        } else {
            None
        }
    }

    /// Every engine is found again under its own name.
    pub proof fn lemma_name_round_trip(self)
        ensures
            Self::spec_from_name(self.spec_as_str()) == Some(self),
    {
        reveal_strlit("mysql");
        reveal_strlit("postgresql");
        reveal_strlit("mongodb");
        reveal_strlit("redis");
        reveal_strlit("qdrant");
        reveal_strlit("surrealdb");
        assert("mysql"@.len() == 5 && "mysql"@[0] == 'm');
        assert("postgresql"@.len() == 10);
        assert("mongodb"@.len() == 7);
        assert("redis"@.len() == 5 && "redis"@[0] == 'r');
        assert("qdrant"@.len() == 6);
        assert("surrealdb"@.len() == 9);
    }
}

/// What is known of whether an engine runs.
#[derive(Clone, Copy, Debug, PartialEq, Eq, Structural)]
pub enum DatabaseStatus {
    Running,
    Stopped,
    NotInstalled,
}

/// One managed database instance.
#[derive(Debug, PartialEq, Eq)]
pub struct DatabaseInfo {
    pub id: String,
    pub name: String,
    pub db_type: DatabaseType,
    pub version: String,
    pub install_path: String,
    pub data_path: String,
    pub log_path: String,
    pub port: u16,
    pub username: Option<String>,
    pub password: Option<String>,
    pub config: Option<String>,
    pub status: DatabaseStatus,
    pub auto_start: bool,
    pub pid: Option<u32>,
    pub created_at: String,
    pub updated_at: String,
}

/// What a `DatabaseInfo` holds, as plain values.
pub struct DatabaseRecord {
    pub id: Seq<char>,
    pub name: Seq<char>,
    pub db_type: DatabaseType,
    pub version: Seq<char>,
    pub install_path: Seq<char>,
    pub data_path: Seq<char>,
    pub log_path: Seq<char>,
    pub port: u16,
    pub username: Option<Seq<char>>,
    pub password: Option<Seq<char>>,
    pub config: Option<Seq<char>>,
    pub status: DatabaseStatus,
    pub auto_start: bool,
    pub pid: Option<u32>,
    pub created_at: Seq<char>,
    pub updated_at: Seq<char>,
}

impl View for DatabaseInfo {
    type V = DatabaseRecord;

    open spec fn view(&self) -> DatabaseRecord {
        DatabaseRecord {
            id: self.id@,
            name: self.name@,
            db_type: self.db_type,
            version: self.version@,
            install_path: self.install_path@,
            data_path: self.data_path@,
            log_path: self.log_path@,
            port: self.port,
            username: opt_text(self.username),
            password: opt_text(self.password),
            config: opt_text(self.config),
            status: self.status,
            auto_start: self.auto_start,
            pid: self.pid,
            created_at: self.created_at@,
            updated_at: self.updated_at@,
        }
    }
}

impl Clone for DatabaseInfo {
    fn clone(&self) -> (copy: Self)
        ensures
            copy == *self,
    {
        DatabaseInfo {
            id: self.id.clone(),
            name: self.name.clone(),
            db_type: self.db_type,
            version: self.version.clone(),
            install_path: self.install_path.clone(),
            data_path: self.data_path.clone(),
            log_path: self.log_path.clone(),
            port: self.port,
            username: self.username.clone(),
            password: self.password.clone(),
            config: self.config.clone(),
            status: self.status,
            auto_start: self.auto_start,
            pid: self.pid,
            created_at: self.created_at.clone(),
            updated_at: self.updated_at.clone(),
        }
    }
}

/// The records that a sequence of `DatabaseInfo` stands for.
pub open spec fn records_of(v: Seq<DatabaseInfo>) -> Seq<DatabaseRecord> {
    v.map_values(|d: DatabaseInfo| d@)
}

/// Settings with which a database may be set up.
#[derive(Debug)]
pub struct DatabaseConfig {
    pub port: Option<u16>,
    pub data_path: Option<String>,
    pub username: Option<String>,
    pub password: Option<String>,
    pub config: Option<HashMap<String, String>>,
}

/// One backup that was taken of a database.
#[derive(Debug, PartialEq, Eq)]
pub struct BackupRecord {
    pub id: String,
    pub database_id: String,
    pub file_path: String,
    pub file_size: u64,
    pub created_at: String,
}

/// The settings of the whole application.
#[derive(Debug, PartialEq, Eq)]
pub struct GlobalSettings {
    pub default_storage_path: String,
    pub auto_start: bool,
    pub theme: String,
    pub language: String,
    pub auto_backup: bool,
    pub backup_frequency: String,
    pub backup_retention_days: u32,
    pub log_level: String,
    pub log_retention_days: u32,
}

/// What a `GlobalSettings` holds, as plain values.
pub struct SettingsView {
    pub default_storage_path: Seq<char>,
    pub auto_start: bool,
    pub theme: Seq<char>,
    pub language: Seq<char>,
    pub auto_backup: bool,
    pub backup_frequency: Seq<char>,
    pub backup_retention_days: u32,
    pub log_level: Seq<char>,
    pub log_retention_days: u32,
}

impl View for GlobalSettings {
    type V = SettingsView;

    open spec fn view(&self) -> SettingsView {
        SettingsView {
            default_storage_path: self.default_storage_path@,
            auto_start: self.auto_start,
            theme: self.theme@,
            language: self.language@,
            auto_backup: self.auto_backup,
            backup_frequency: self.backup_frequency@,
            backup_retention_days: self.backup_retention_days,
            log_level: self.log_level@,
            log_retention_days: self.log_retention_days,
        }
    }
}

impl Clone for GlobalSettings {
    fn clone(&self) -> (copy: Self)
        ensures
            copy == *self,
    {
        GlobalSettings {
            default_storage_path: self.default_storage_path.clone(),
            auto_start: self.auto_start,
            theme: self.theme.clone(),
            language: self.language.clone(),
            auto_backup: self.auto_backup,
            backup_frequency: self.backup_frequency.clone(),
            backup_retention_days: self.backup_retention_days,
            log_level: self.log_level.clone(),
            log_retention_days: self.log_retention_days,
        }
    }
}

impl GlobalSettings {
    /// The settings of a fresh installation that keeps its files under
    /// `storage_path`.
    pub open spec fn spec_with_storage_path(storage_path: Seq<char>) -> SettingsView {
        SettingsView {
            default_storage_path: storage_path,
            auto_start: false,
            theme: "light"@,
            language: "en"@,
            auto_backup: false,
            backup_frequency: "daily"@,
            backup_retention_days: 7,
            log_level: "info"@,
            log_retention_days: 7,
        }
    }

    /// The settings of a fresh installation that keeps its files under
    /// `storage_path`.
    pub fn with_storage_path(storage_path: String) -> (settings: GlobalSettings)
        ensures
            settings@ == Self::spec_with_storage_path(storage_path@),
    {
        GlobalSettings {
            default_storage_path: storage_path,
            auto_start: false,
            theme: "light".to_string(),
            language: "en".to_string(),
            auto_backup: false,
            backup_frequency: "daily".to_string(),
            backup_retention_days: 7,
            log_level: "info".to_string(),
            log_retention_days: 7,
        }
    }
}

impl Default for GlobalSettings {
    /// The settings of a fresh installation that keeps its files where the
    /// user who runs the process has them by default.
    fn default() -> (settings: Self)
        ensures
            exists|home: Option<Seq<char>>|
                settings@ == Self::spec_with_storage_path(
                    crate::utils::spec_default_storage_path(home),
                ),
    {
        let path = crate::utils::get_default_storage_path();
        let ghost home = choose|home: Option<Seq<char>>|
            path@ == crate::utils::spec_default_storage_path(home);
        let settings = Self::with_storage_path(path);
        assert(settings@ == Self::spec_with_storage_path(
            crate::utils::spec_default_storage_path(home),
        ));
        settings
    }
}

/// The envelope in which every command answers.
#[derive(Debug, PartialEq, Eq)]
pub struct OperationResult<T> {
    pub success: bool,
    pub message: String,
    pub data: Option<T>,
}

impl<T> OperationResult<T> {
    /// The envelope of an operation that went well.
    pub fn success(message: String, data: Option<T>) -> (result: Self)
        ensures
            result.success,
            result.message@ == message@,
            result.data == data,
    {
        OperationResult { success: true, message, data }
    }

    /// The envelope of an operation that failed.
    pub fn error(message: String) -> (result: Self)
        ensures
            !result.success,
            result.message@ == message@,
            result.data is None,
    {
        OperationResult { success: false, message, data: None }
    }
}

/// How far a background task has come.
#[derive(Clone, Copy, Debug, PartialEq, Eq, Structural)]
pub enum TaskStatus {
    Pending,
    Running,
    Completed,
    Failed,
}

/// A long-running operation that is followed by its id.
#[derive(Debug, PartialEq, Eq)]
pub struct AsyncTask {
    pub id: String,
    pub task_type: String,
    pub db_type: String,
    pub status: TaskStatus,
    pub progress: u8,
    pub message: String,
    pub error: Option<String>,
    pub created_at: String,
    pub updated_at: String,
}

/// What an `AsyncTask` holds, as plain values.
pub struct TaskView {
    pub id: Seq<char>,
    pub task_type: Seq<char>,
    pub db_type: Seq<char>,
    pub status: TaskStatus,
    pub progress: u8,
    pub message: Seq<char>,
    pub error: Option<Seq<char>>,
    pub created_at: Seq<char>,
    pub updated_at: Seq<char>,
}

impl View for AsyncTask {
    type V = TaskView;

    open spec fn view(&self) -> TaskView {
        TaskView {
            id: self.id@,
            task_type: self.task_type@,
            db_type: self.db_type@,
            status: self.status,
            progress: self.progress,
            message: self.message@,
            error: opt_text(self.error),
            created_at: self.created_at@,
            updated_at: self.updated_at@,
        }
    }
}

impl Clone for AsyncTask {
    fn clone(&self) -> (copy: Self)
        ensures
            copy == *self,
    {
        AsyncTask {
            id: self.id.clone(),
            task_type: self.task_type.clone(),
            db_type: self.db_type.clone(),
            status: self.status,
            progress: self.progress,
            message: self.message.clone(),
            error: self.error.clone(),
            created_at: self.created_at.clone(),
            updated_at: self.updated_at.clone(),
        }
    }
}

} // verus!
