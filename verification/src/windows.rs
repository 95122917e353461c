use crate::error::LifecycleError;
use crate::provision::{
    arguments, as_slice, directories_of, engine_dirs, fresh_record, layout_of, new_record,
    opt_slice, or_default, owned, plan_holds, port_or_default, refuse, spawn_outcome,
    spec_or_default, spec_port_or_default, Arch, ConfigFile, InitCondition, Initialization,
    InstallPlan, Invocation, SpawnPlan, SpawnView,
};
use crate::reconcile::pid_file_name;
use crate::text::{
    concat, concat_all, decimal, opt_text, replace_char, slices, spec_concat_all, spec_decimal,
    spec_replace_char, spec_trim, texts, trim,
};
use crate::types::{DatabaseInfo, DatabaseRecord, DatabaseType};
use crate::utils::{generate_id, get_timestamp, join_path, path_join, spec_timestamp};
use vstd::prelude::*;

verus! {

/// What is asked for when an engine is installed on Windows.
#[derive(Clone, Copy, Debug)]
pub struct WindowsInstallOptions<'a> {
    pub version: Option<&'a str>,
    pub port: Option<u16>,
    pub username: Option<&'a str>,
    pub password: Option<&'a str>,
    pub auto_start: bool,
}

impl<'a> Default for WindowsInstallOptions<'a> {
    fn default() -> (options: Self)
        ensures
            options.version is None,
            options.port is None,
            options.username is None,
            options.password is None,
            options.auto_start,
    {
        WindowsInstallOptions {
            version: None,
            port: None,
            username: None,
            password: None,
            auto_start: true,
        }
    }
}

/// A path as configuration files write it: with `/` for every `\`.
pub open spec fn spec_slashed(path: Seq<char>) -> Seq<char> {
    spec_replace_char(path, '\\', '/')
}

/// A path as configuration files write it: with `/` for every `\`.
pub fn slashed(path: &str) -> (written: String)
    ensures
        written@ == spec_slashed(path@),
{
    replace_char(path, '\\', '/')
}

/// The configuration of Redis.
pub open spec fn spec_redis_config(port: u16, data_path: Seq<char>, log_path: Seq<char>) -> Seq<char> {
    spec_concat_all(
        seq![
            "port "@,
            spec_decimal(port as nat),
            "\nbind 127.0.0.1\ndir \""@,
            spec_slashed(data_path),
            "\"\nlogfile \""@,
            spec_slashed(log_path),
            "\"\n"@,
        ],
    )
}

/// The configuration of Redis.
pub fn redis_config(port: u16, data_path: &str, log_path: &str) -> (content: String)
    ensures
        content@ == spec_redis_config(port, data_path@, log_path@),
{
    let port_text = decimal(port as u128);
    let data = slashed(data_path);
    let log = slashed(log_path);
    let parts = vec![
        "port ",
        port_text.as_str(),
        "\nbind 127.0.0.1\ndir \"",
        data.as_str(),
        "\"\nlogfile \"",
        log.as_str(),
        "\"\n",
    ];
    assert(slices(parts@) =~= seq![
        "port "@,
        spec_decimal(port as nat),
        "\nbind 127.0.0.1\ndir \""@,
        spec_slashed(data_path@),
        "\"\nlogfile \""@,
        spec_slashed(log_path@),
        "\"\n"@,
    ]);
    concat_all(&parts)
}

/// The configuration of Qdrant.
pub open spec fn spec_qdrant_config(port: u16, data_path: Seq<char>) -> Seq<char> {
    spec_concat_all(
        seq![
            "service:\n  http_port: "@,
            spec_decimal(port as nat),
            "\nstorage:\n  storage_path: "@,
            spec_slashed(data_path),
            "\n"@,
        ],
    )
}

/// The configuration of Qdrant.
pub fn qdrant_config(port: u16, data_path: &str) -> (content: String)
    ensures
        content@ == spec_qdrant_config(port, data_path@),
{
    let port_text = decimal(port as u128);
    let data = slashed(data_path);
    let parts = vec![
        "service:\n  http_port: ",
        port_text.as_str(),
        "\nstorage:\n  storage_path: ",
        data.as_str(),
        "\n",
    ];
    assert(slices(parts@) =~= seq![
        "service:\n  http_port: "@,
        spec_decimal(port as nat),
        "\nstorage:\n  storage_path: "@,
        spec_slashed(data_path@),
        "\n"@,
    ]);
    concat_all(&parts)
}

/// The name by which the releases of Qdrant call a processor.
pub open spec fn spec_arch_name(arch: Arch) -> Seq<char> {
    match arch {
        Arch::Aarch64 => "aarch64"@,
        Arch::X86_64 => "x86_64"@,
    }
}

/// The name by which the releases of SurrealDB call a processor.
pub open spec fn spec_arch_short(arch: Arch) -> Seq<char> {
    match arch {
        Arch::Aarch64 => "arm64"@,
        Arch::X86_64 => "amd64"@,
    }
}

/// Where an engine is fetched from for Windows.
pub open spec fn spec_download_url(db_type: DatabaseType, arch: Arch) -> Seq<char> {
    match db_type {
        DatabaseType::Redis => "https://github.com/tporadowski/redis/releases/download/v5.0.14.1/Redis-x64-5.0.14.1.zip"@,
        DatabaseType::Qdrant => "https://github.com/qdrant/qdrant/releases/latest/download/qdrant-"@
            + spec_arch_name(arch) + "-pc-windows-msvc.zip"@,
        DatabaseType::SurrealDB => "https://github.com/surrealdb/surrealdb/releases/latest/download/surreal-v2.1.4-windows-"@
            + spec_arch_short(arch) + ".zip"@,
        DatabaseType::MongoDB => "https://fastdl.mongodb.org/windows/mongodb-windows-x86_64-7.0.9.zip"@,
        DatabaseType::MySQL => "https://dev.mysql.com/get/Downloads/MySQL-8.4/mysql-8.4.0-winx64.zip"@,
        DatabaseType::PostgreSQL => "https://get.enterprisedb.com/postgresql/postgresql-18.2-1-windows-x64-binaries.zip"@,
    }
}

/// Where an engine is fetched from for Windows.
pub fn download_url(db_type: DatabaseType, arch: Arch) -> (url: String)
    ensures
        url@ == spec_download_url(db_type, arch),
{
    match db_type {
        DatabaseType::Redis => "https://github.com/tporadowski/redis/releases/download/v5.0.14.1/Redis-x64-5.0.14.1.zip".to_string(),
        DatabaseType::Qdrant => {
            let mut url = concat(
                "https://github.com/qdrant/qdrant/releases/latest/download/qdrant-",
                match arch {
                    Arch::Aarch64 => "aarch64",
                    Arch::X86_64 => "x86_64",
                },
            );
            url.append("-pc-windows-msvc.zip");
            url
        },
        DatabaseType::SurrealDB => {
            let mut url = concat(
                "https://github.com/surrealdb/surrealdb/releases/latest/download/surreal-v2.1.4-windows-",
                match arch {
                    Arch::Aarch64 => "arm64",
                    Arch::X86_64 => "amd64",
                },
            );
            url.append(".zip");
            url
        },
        DatabaseType::MongoDB => "https://fastdl.mongodb.org/windows/mongodb-windows-x86_64-7.0.9.zip".to_string(),
        DatabaseType::MySQL => "https://dev.mysql.com/get/Downloads/MySQL-8.4/mysql-8.4.0-winx64.zip".to_string(),
        DatabaseType::PostgreSQL => "https://get.enterprisedb.com/postgresql/postgresql-18.2-1-windows-x64-binaries.zip".to_string(),
    }
}

/// The binary of an engine below the directory of its binaries.
pub open spec fn spec_binary_path(db_type: DatabaseType, bin: Seq<char>) -> Seq<char> {
    match db_type {
        DatabaseType::Redis => path_join(bin, "redis-server.exe"@),
        DatabaseType::Qdrant => path_join(bin, "qdrant.exe"@),
        DatabaseType::SurrealDB => path_join(bin, "surreal.exe"@),
        DatabaseType::MongoDB => path_join(path_join(bin, "bin"@), "mongod.exe"@),
        DatabaseType::MySQL => path_join(path_join(bin, "bin"@), "mysqld.exe"@),
        DatabaseType::PostgreSQL => path_join(path_join(bin, "bin"@), "pg_ctl.exe"@),
    }
}

/// The binary of an engine below the directory of its binaries.
pub fn binary_path(db_type: DatabaseType, bin: &str) -> (path: String)
    ensures
        path@ == spec_binary_path(db_type, bin@),
{
    match db_type {
        DatabaseType::Redis => join_path(bin, "redis-server.exe"),
        DatabaseType::Qdrant => join_path(bin, "qdrant.exe"),
        DatabaseType::SurrealDB => join_path(bin, "surreal.exe"),
        DatabaseType::MongoDB => {
            let dir = join_path(bin, "bin");
            join_path(dir.as_str(), "mongod.exe")
        },
        DatabaseType::MySQL => {
            let dir = join_path(bin, "bin");
            join_path(dir.as_str(), "mysqld.exe")
        },
        DatabaseType::PostgreSQL => {
            let dir = join_path(bin, "bin");
            join_path(dir.as_str(), "pg_ctl.exe")
        },
    }
}

/// The name of the log file of an engine.
pub open spec fn spec_log_file_name(db_type: DatabaseType) -> Seq<char> {
    match db_type {
        DatabaseType::Redis => "redis.log"@,
        DatabaseType::Qdrant => "qdrant.log"@,
        DatabaseType::SurrealDB => "surreal.log"@,
        DatabaseType::MongoDB => "mongodb.log"@,
        DatabaseType::MySQL => "mysql.log"@,
        DatabaseType::PostgreSQL => "postgresql.log"@,
    }
}

/// The name of the log file of an engine.
pub fn log_file_name(db_type: DatabaseType) -> (name: &'static str)
    ensures
        name@ == spec_log_file_name(db_type),
{
    match db_type {
        DatabaseType::Redis => "redis.log",
        DatabaseType::Qdrant => "qdrant.log",
        DatabaseType::SurrealDB => "surreal.log",
        DatabaseType::MongoDB => "mongodb.log",
        DatabaseType::MySQL => "mysql.log",
        DatabaseType::PostgreSQL => "postgresql.log",
    }
}

/// The version of an engine that is installed on Windows.
pub open spec fn spec_version(db_type: DatabaseType) -> Seq<char> {
    match db_type {
        DatabaseType::Redis => "5.0.14.1"@,
        DatabaseType::Qdrant => "latest"@,
        DatabaseType::SurrealDB => "latest"@,
        DatabaseType::MongoDB => "7.0.9"@,
        DatabaseType::MySQL => "8.4.0"@,
        DatabaseType::PostgreSQL => "18.2"@,
    }
}

/// The version of an engine that is installed on Windows.
pub fn version_of(db_type: DatabaseType) -> (version: &'static str)
    ensures
        version@ == spec_version(db_type),
{
    match db_type {
        DatabaseType::Redis => "5.0.14.1",
        DatabaseType::Qdrant => "latest",
        DatabaseType::SurrealDB => "latest",
        DatabaseType::MongoDB => "7.0.9",
        DatabaseType::MySQL => "8.4.0",
        DatabaseType::PostgreSQL => "18.2",
    }
}

/// The user of an engine that is installed on Windows.
pub open spec fn spec_username(db_type: DatabaseType, given: Option<Seq<char>>) -> Option<Seq<char>> {
    match db_type {
        DatabaseType::Redis => None,
        DatabaseType::Qdrant => None,
        DatabaseType::MongoDB => None,
        DatabaseType::SurrealDB => Some(spec_or_default(given, "root"@)),
        DatabaseType::MySQL => Some(spec_or_default(given, "root"@)),
        DatabaseType::PostgreSQL => Some(spec_or_default(given, "postgres"@)),
    }
}

/// The user of an engine that is installed on Windows.
pub fn username_of(db_type: DatabaseType, given: Option<&str>) -> (username: Option<String>)
    ensures
        opt_text(username) == spec_username(db_type, opt_slice(given)),
{
    match db_type {
        DatabaseType::Redis => None,
        DatabaseType::Qdrant => None,
        DatabaseType::MongoDB => None,
        DatabaseType::SurrealDB => Some(or_default(given, "root")),
        DatabaseType::MySQL => Some(or_default(given, "root")),
        DatabaseType::PostgreSQL => Some(or_default(given, "postgres")),
    }
}

/// The password of an engine that is installed on Windows.
pub open spec fn spec_password(db_type: DatabaseType, given: Option<Seq<char>>) -> Option<Seq<char>> {
    match db_type {
        DatabaseType::MongoDB => None,
        DatabaseType::SurrealDB => Some(spec_or_default(given, "root"@)),
        _ => given,
    }
}

/// The password of an engine that is installed on Windows.
pub fn password_of(db_type: DatabaseType, given: Option<&str>) -> (password: Option<String>)
    ensures
        opt_text(password) == spec_password(db_type, opt_slice(given)),
{
    match db_type {
        DatabaseType::MongoDB => None,
        DatabaseType::SurrealDB => Some(or_default(given, "root")),
        _ => owned(given),
    }
}

/// The configuration file of an engine and what is written to it, where the
/// installation writes one.
pub open spec fn spec_config(
    db_type: DatabaseType,
    config_dir: Seq<char>,
    port: u16,
    data_dir: Seq<char>,
    log_file: Seq<char>,
) -> Option<(Seq<char>, Seq<char>)> {
    match db_type {
        DatabaseType::Redis => Some(
            (path_join(config_dir, "redis.conf"@), spec_redis_config(port, data_dir, log_file)),
        ),
        DatabaseType::Qdrant => Some(
            (path_join(config_dir, "config.yaml"@), spec_qdrant_config(port, data_dir)),
        ),
        _ => None,
    }
}

/// How the data directory of an engine is set up on Windows, where it needs
/// to be: MySQL and PostgreSQL set up a data directory that is empty.
pub open spec fn spec_initialization(
    db_type: DatabaseType,
    bin: Seq<char>,
    data_dir: Seq<char>,
    username: Option<Seq<char>>,
) -> Option<(Seq<char>, Seq<Seq<char>>)> {
    match db_type {
        DatabaseType::MySQL => Some(
            (
                spec_binary_path(db_type, bin),
                seq!["--initialize-insecure"@, "--datadir="@ + data_dir],
            ),
        ),
        DatabaseType::PostgreSQL => Some(
            (
                path_join(path_join(bin, "bin"@), "initdb.exe"@),
                seq![
                    "-D"@,
                    data_dir,
                    "-U"@,
                    spec_or_default(username, "postgres"@),
                    "--auth=trust"@,
                ],
            ),
        ),
        _ => None,
    }
}

/// Whether the installation of an engine makes a directory for its
/// configuration.
pub open spec fn spec_makes_config_dir(db_type: DatabaseType) -> bool {
    db_type == DatabaseType::Redis || db_type == DatabaseType::Qdrant || db_type
        == DatabaseType::MySQL
}

/// Whether `plan` is what the installation of an engine on Windows is to do.
pub open spec fn install_plan(
    plan: InstallPlan,
    db_type: DatabaseType,
    storage: Seq<char>,
    options: WindowsInstallOptions<'_>,
    arch: Arch,
    id: Seq<char>,
    now: Seq<char>,
) -> bool {
    let dirs = engine_dirs(storage, db_type.spec_as_str());
    let log_file = path_join(dirs.logs, spec_log_file_name(db_type));
    let port = spec_port_or_default(options.port, db_type);
    let config = spec_config(db_type, dirs.config, port, dirs.data, log_file);
    &&& plan_holds(
        plan,
        storage,
        db_type.spec_as_str(),
        spec_binary_path(db_type, dirs.bin),
        spec_download_url(db_type, arch),
        None,
        spec_makes_config_dir(db_type),
        config,
        fresh_record(
            id,
            db_type.spec_display_name(),
            db_type,
            spec_version(db_type),
            dirs.bin,
            dirs.data,
            log_file,
            port,
            spec_username(db_type, opt_slice(options.username)),
            spec_password(db_type, opt_slice(options.password)),
            match config {
                Some((path, content)) => Some(path),
                None => None,
            },
            options.auto_start,
            now,
        ),
    )
    &&& match spec_initialization(db_type, dirs.bin, dirs.data, opt_slice(options.username)) {
        Some((program, args)) => {
            &&& plan.initialization matches Some(init)
            &&& init.condition matches InitCondition::DirectoryEmpty(dir)
            &&& dir@ == dirs.data
            &&& init.invocation.program@ == program
            &&& texts(init.invocation.args@) == args
        },
        None => plan.initialization is None,
    }
}

/// What the installation of an engine on Windows is to do, for a record
/// with the given id that is made at the moment `now`. The engine is
/// fetched as a zip archive and unpacked into the directory of its binaries.
pub fn plan_install(
    db_type: &DatabaseType,
    storage_path: &str,
    options: &WindowsInstallOptions<'_>,
    arch: Arch,
    id: String,
    now: String,
) -> (plan: InstallPlan)
    ensures
        install_plan(plan, *db_type, storage_path@, *options, arch, id@, now@),
{
    let db_type = *db_type;
    let layout = layout_of(storage_path, db_type.as_str());
    let log_file = join_path(layout.logs.as_str(), log_file_name(db_type));
    let port = port_or_default(options.port, db_type);
    let config_file: Option<ConfigFile> = match db_type {
        DatabaseType::Redis => Some(
            ConfigFile {
                path: join_path(layout.config.as_str(), "redis.conf"),
                content: redis_config(port, layout.data.as_str(), log_file.as_str()),
            },
        ),
        DatabaseType::Qdrant => Some(
            ConfigFile {
                path: join_path(layout.config.as_str(), "config.yaml"),
                content: qdrant_config(port, layout.data.as_str()),
            },
        ),
        _ => None,
    };
    let initialization: Option<Initialization> = match db_type {
        DatabaseType::MySQL => {
            let flag = concat("--datadir=", layout.data.as_str());
            let args = arguments(&vec!["--initialize-insecure", flag.as_str()]);
            assert(texts(args@) =~= seq!["--initialize-insecure"@, flag@]);
            Some(
                Initialization {
                    condition: InitCondition::DirectoryEmpty(layout.data.clone()),
                    invocation: Invocation {
                        program: binary_path(db_type, layout.bin.as_str()),
                        args,
                    },
                },
            )
        },
        DatabaseType::PostgreSQL => {
            let user = or_default(options.username, "postgres");
            let args = arguments(
                &vec!["-D", layout.data.as_str(), "-U", user.as_str(), "--auth=trust"],
            );
            assert(texts(args@) =~= seq!["-D"@, layout.data@, "-U"@, user@, "--auth=trust"@]);
            let dir = join_path(layout.bin.as_str(), "bin");
            Some(
                Initialization {
                    condition: InitCondition::DirectoryEmpty(layout.data.clone()),
                    invocation: Invocation { program: join_path(dir.as_str(), "initdb.exe"), args },
                },
            )
        },
        _ => None,
    };
    let config_path: Option<String> = match &config_file {
        Some(file) => Some(file.path.clone()),
        None => None,
    };
    let record = new_record(
        id,
        db_type.display_name(),
        db_type,
        version_of(db_type).to_string(),
        layout.bin.clone(),
        layout.data.clone(),
        log_file,
        port,
        username_of(db_type, options.username),
        password_of(db_type, options.password),
        config_path,
        options.auto_start,
        now,
    );
    InstallPlan {
        directories: directories_of(
            &layout,
            match db_type {
                DatabaseType::Redis => true,
                DatabaseType::Qdrant => true,
                DatabaseType::MySQL => true,
                _ => false,
            },
        ),
        binary_path: binary_path(db_type, layout.bin.as_str()),
        download_url: download_url(db_type, arch),
        archive_path: None,
        unpack_dir: layout.bin,
        config_file,
        initialization,
        record,
        auto_start: options.auto_start,
    }
}

/// What the installation of an engine on Windows is to do, for a record
/// with a fresh id that is made at the present moment.
pub fn install_database(
    db_type: &DatabaseType,
    storage_path: &str,
    options: &WindowsInstallOptions<'_>,
    arch: Arch,
) -> (plan: InstallPlan)
    ensures
        exists|micros: nat, at: nat|
            install_plan(
                plan,
                *db_type,
                storage_path@,
                *options,
                arch,
                spec_decimal(micros),
                spec_timestamp(at),
            ),
        plan.record.id@.len() > 0,
{
    let id = generate_id();
    let now = get_timestamp();
    let ghost micros = choose|micros: nat| id@ == spec_decimal(micros);
    let ghost at = choose|at: nat| now@ == spec_timestamp(at);
    let plan = plan_install(db_type, storage_path, options, arch, id, now);
    assert(install_plan(
        plan,
        *db_type,
        storage_path@,
        *options,
        arch,
        spec_decimal(micros),
        spec_timestamp(at),
    ));
    plan
}

/// The arguments with which an engine is started on Windows, or why it
/// cannot be.
pub open spec fn spec_start_args(record: DatabaseRecord) -> Result<Seq<Seq<char>>, Seq<char>> {
    let port = spec_decimal(record.port as nat);
    match record.db_type {
        DatabaseType::Qdrant => match record.config {
            Some(config) => Ok(seq!["--config-path"@, config]),
            None => Err("Config path missing"@),
        },
        DatabaseType::Redis => match record.config {
            Some(config) => Ok(seq![config]),
            None => Err("Config path missing"@),
        },
        DatabaseType::SurrealDB => Ok(
            seq![
                "start"@,
                "--bind"@,
                "127.0.0.1:"@ + port,
                "--user"@,
                spec_or_default(record.username, "root"@),
                "--pass"@,
                spec_or_default(record.password, "root"@),
                "rocksdb://"@ + record.data_path,
            ],
        ),
        DatabaseType::MongoDB => Ok(
            seq!["--dbpath"@, record.data_path, "--port"@, port, "--logpath"@, record.log_path],
        ),
        DatabaseType::MySQL => Ok(
            seq!["--port="@ + port, "--datadir="@ + record.data_path, "--console"@],
        ),
        DatabaseType::PostgreSQL => Ok(
            seq!["start"@, "-D"@, record.data_path, "-o"@, "-p "@ + port],
        ),
    }
}

/// How an engine is started on Windows, or why it cannot be.
pub open spec fn spec_start_service(record: DatabaseRecord) -> Result<SpawnView, Seq<char>> {
    match spec_start_args(record) {
        Ok(args) => Ok(
            SpawnView {
                program: spec_binary_path(record.db_type, record.install_path),
                args,
                pid_file: Some(
                    path_join(record.data_path, record.db_type.spec_as_str() + ".pid"@),
                ),
            },
        ),
        Err(text) => Err(text),
    }
}

/// The arguments with which an engine is started on Windows.
fn start_args(db_info: &DatabaseInfo) -> (outcome: Result<Vec<String>, LifecycleError>)
    ensures
        match spec_start_args(db_info@) {
            Ok(args) => outcome matches Ok(made) && texts(made@) == args,
            Err(text) => outcome matches Err(LifecycleError::Provisioning(said)) && said@ == text,
        },
{
    let port = decimal(db_info.port as u128);
    let data = db_info.data_path.as_str();
    match db_info.db_type {
        DatabaseType::Qdrant => match &db_info.config {
            Some(config) => {
                let args = arguments(&vec!["--config-path", config.as_str()]);
                assert(texts(args@) =~= seq!["--config-path"@, config@]);
                Ok(args)
            },
            None => refuse("Config path missing"),
        },
        DatabaseType::Redis => match &db_info.config {
            Some(config) => {
                let args = arguments(&vec![config.as_str()]);
                assert(texts(args@) =~= seq![config@]);
                Ok(args)
            },
            None => refuse("Config path missing"),
        },
        DatabaseType::SurrealDB => {
            let user = or_default(as_slice(&db_info.username), "root");
            let pass = or_default(as_slice(&db_info.password), "root");
            let bind = concat("127.0.0.1:", port.as_str());
            let store = concat("rocksdb://", data);
            let args = arguments(
                &vec![
                    "start",
                    "--bind",
                    bind.as_str(),
                    "--user",
                    user.as_str(),
                    "--pass",
                    pass.as_str(),
                    store.as_str(),
                ],
            );
            assert(texts(args@) =~= seq![
                "start"@,
                "--bind"@,
                bind@,
                "--user"@,
                user@,
                "--pass"@,
                pass@,
                store@,
            ]);
            Ok(args)
        },
        DatabaseType::MongoDB => {
            let args = arguments(
                &vec![
                    "--dbpath",
                    data,
                    "--port",
                    port.as_str(),
                    "--logpath",
                    db_info.log_path.as_str(),
                ],
            );
            assert(texts(args@) =~= seq![
                "--dbpath"@,
                data@,
                "--port"@,
                port@,
                "--logpath"@,
                db_info.log_path@,
            ]);
            Ok(args)
        },
        DatabaseType::MySQL => {
            let port_flag = concat("--port=", port.as_str());
            let data_flag = concat("--datadir=", data);
            let args = arguments(&vec![port_flag.as_str(), data_flag.as_str(), "--console"]);
            assert(texts(args@) =~= seq![port_flag@, data_flag@, "--console"@]);
            Ok(args)
        },
        DatabaseType::PostgreSQL => {
            let port_flag = concat("-p ", port.as_str());
            let args = arguments(&vec!["start", "-D", data, "-o", port_flag.as_str()]);
            assert(texts(args@) =~= seq!["start"@, "-D"@, data@, "-o"@, port_flag@]);
            Ok(args)
        },
    }
}

/// How an engine is started on Windows: the program to run with its
/// arguments, and the file that is to hold the id of its process. Redis and
/// Qdrant are not started without their configuration file.
pub fn start_service(db_info: &DatabaseInfo) -> (outcome: Result<SpawnPlan, LifecycleError>)
    ensures
        spawn_outcome(outcome, spec_start_service(db_info@)),
{
    let args = start_args(db_info)?;
    let name = pid_file_name(db_info.db_type);
    Ok(
        SpawnPlan {
            invocation: Invocation {
                program: binary_path(db_info.db_type, db_info.install_path.as_str()),
                args,
            },
            pid_file: Some(join_path(db_info.data_path.as_str(), name.as_str())),
        },
    )
}

/// How an engine is stopped on Windows: the file that holds the id of the
/// process that is to be ended. Where there is no such file, nothing runs.
pub fn stop_service(db_info: &DatabaseInfo) -> (pid_file: String)
    ensures
        pid_file@ == path_join(db_info.data_path@, db_info.db_type.spec_as_str() + ".pid"@),
{
    let name = pid_file_name(db_info.db_type);
    join_path(db_info.data_path.as_str(), name.as_str())
}

/// The command that ends the process whose id a pid file holds: `taskkill`
/// by force, with what the file says, white space at either end aside.
pub fn taskkill_invocation(pid_file_content: &str) -> (invocation: Invocation)
    ensures
        invocation.program@ == "taskkill"@,
        texts(invocation.args@) == seq!["/PID"@, spec_trim(pid_file_content@), "/F"@],
{
    let pid = trim(pid_file_content);
    let args = arguments(&vec!["/PID", pid.as_str(), "/F"]);
    assert(texts(args@) =~= seq!["/PID"@, pid@, "/F"@]);
    Invocation { program: "taskkill".to_string(), args }
}

} // verus!
