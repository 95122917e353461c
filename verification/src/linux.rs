use crate::error::LifecycleError;
use crate::provision::{
    directories_of, engine_dirs, fresh_record, layout_of, new_record, opt_slice, or_default, owned,
    port_or_default, spec_or_default, spec_port_or_default, Arch, ConfigFile, arguments, as_slice,
    plan_holds, refuse, spawn_outcome, InitCondition, Initialization, InstallPlan, Invocation,
    SpawnPlan, SpawnView,
};
use crate::reconcile::pid_file_name;
use crate::text::{
    concat, concat_all, decimal, opt_text, slices, spec_concat_all, spec_decimal, texts,
};
use crate::types::{DatabaseInfo, DatabaseRecord, DatabaseType};
use crate::utils::{generate_id, get_timestamp, join_path, path_join, spec_timestamp};
use vstd::prelude::*;

verus! {

/// What is asked for when an engine is installed on Linux.
#[derive(Clone, Copy, Debug)]
pub struct LinuxInstallOptions<'a> {
    pub version: Option<&'a str>,
    pub port: Option<u16>,
    pub username: Option<&'a str>,
    pub password: Option<&'a str>,
    pub auto_start: bool,
}

impl<'a> Default for LinuxInstallOptions<'a> {
    fn default() -> (options: Self)
        ensures
            options.version is None,
            options.port is None,
            options.username is None,
            options.password is None,
            options.auto_start,
    {
        LinuxInstallOptions {
            version: None,
            port: None,
            username: None,
            password: None,
            auto_start: true,
        }
    }
}

/// The name by which the releases of Qdrant, MySQL and MongoDB call a
/// processor.
pub open spec fn spec_arch_name(arch: Arch) -> Seq<char> {
    match arch {
        Arch::Aarch64 => "aarch64"@,
        Arch::X86_64 => "x86_64"@,
    }
}

/// The name by which the releases of Qdrant, MySQL and MongoDB call a
/// processor.
pub fn arch_name(arch: Arch) -> (name: &'static str)
    ensures
        name@ == spec_arch_name(arch),
{
    match arch {
        Arch::Aarch64 => "aarch64",
        Arch::X86_64 => "x86_64",
    }
}

/// The name by which the releases of SurrealDB call a processor.
pub open spec fn spec_arch_short(arch: Arch) -> Seq<char> {
    match arch {
        Arch::Aarch64 => "arm64"@,
        Arch::X86_64 => "amd64"@,
    }
}

/// The name by which the releases of SurrealDB call a processor.
pub fn arch_short(arch: Arch) -> (name: &'static str)
    ensures
        name@ == spec_arch_short(arch),
{
    match arch {
        Arch::Aarch64 => "arm64",
        Arch::X86_64 => "amd64",
    }
}

/// `front`, the name of the processor, then `back`.
fn release_url(front: &str, arch: &str, back: &str) -> (url: String)
    ensures
        url@ == front@ + arch@ + back@,
{
    let mut url = concat(front, arch);
    url.append(back);
    url
}

/// The configuration of Qdrant.
pub open spec fn spec_qdrant_config(port: u16, data_path: Seq<char>, log_path: Seq<char>) -> Seq<char> {
    spec_concat_all(
        seq![
            "service:\n  port: "@,
            spec_decimal(port as nat),
            "\n  grpc_port: "@,
            spec_decimal((port + 1) as nat),
            "\nstorage:\n  path: "@,
            data_path,
            "\nlogging:\n  level: INFO\n  file_path: "@,
            log_path,
            "\n"@,
        ],
    )
}

/// The configuration of Qdrant: it listens on `port`, and for gRPC on the
/// port after it.
pub fn qdrant_config(port: u16, data_path: &str, log_path: &str) -> (content: String)
    ensures
        content@ == spec_qdrant_config(port, data_path@, log_path@),
{
    let port_text = decimal(port as u128);
    let grpc_text = decimal(port as u128 + 1);
    let parts = vec![
        "service:\n  port: ",
        port_text.as_str(),
        "\n  grpc_port: ",
        grpc_text.as_str(),
        "\nstorage:\n  path: ",
        data_path,
        "\nlogging:\n  level: INFO\n  file_path: ",
        log_path,
        "\n",
    ];
    assert(slices(parts@) =~= seq![
        "service:\n  port: "@,
        spec_decimal(port as nat),
        "\n  grpc_port: "@,
        spec_decimal((port + 1) as nat),
        "\nstorage:\n  path: "@,
        data_path@,
        "\nlogging:\n  level: INFO\n  file_path: "@,
        log_path@,
        "\n"@,
    ]);
    concat_all(&parts)
}

/// The configuration of MySQL.
pub open spec fn spec_mysql_config(
    port: u16,
    data_path: Seq<char>,
    base_path: Seq<char>,
    log_path: Seq<char>,
    pid_path: Seq<char>,
) -> Seq<char> {
    spec_concat_all(
        seq![
            "[mysqld]\ndatadir="@,
            data_path,
            "\nbasedir="@,
            base_path,
            "\nsocket=/tmp/mysql.sock\nport="@,
            spec_decimal(port as nat),
            "\nlog-error="@,
            log_path,
            "\npid-file="@,
            pid_path,
            "\n"@,
        ],
    )
}

/// The configuration of MySQL.
pub fn mysql_config(port: u16, data_path: &str, base_path: &str, log_path: &str, pid_path: &str) -> (content:
    String)
    ensures
        content@ == spec_mysql_config(port, data_path@, base_path@, log_path@, pid_path@),
{
    let port_text = decimal(port as u128);
    let parts = vec![
        "[mysqld]\ndatadir=",
        data_path,
        "\nbasedir=",
        base_path,
        "\nsocket=/tmp/mysql.sock\nport=",
        port_text.as_str(),
        "\nlog-error=",
        log_path,
        "\npid-file=",
        pid_path,
        "\n",
    ];
    assert(slices(parts@) =~= seq![
        "[mysqld]\ndatadir="@,
        data_path@,
        "\nbasedir="@,
        base_path@,
        "\nsocket=/tmp/mysql.sock\nport="@,
        spec_decimal(port as nat),
        "\nlog-error="@,
        log_path@,
        "\npid-file="@,
        pid_path@,
        "\n"@,
    ]);
    concat_all(&parts)
}

/// The configuration of MongoDB.
pub open spec fn spec_mongodb_config(
    port: u16,
    data_path: Seq<char>,
    log_path: Seq<char>,
    pid_path: Seq<char>,
) -> Seq<char> {
    spec_concat_all(
        seq![
            "systemLog:\n  destination: file\n  path: \""@,
            log_path,
            "\"\n  logAppend: true\nstorage:\n  dbPath: \""@,
            data_path,
            "\"\n  engine: wiredTiger\nnet:\n  port: "@,
            spec_decimal(port as nat),
            "\n  bindIp: 127.0.0.1\nprocessManagement:\n  fork: true\n  pidFilePath: "@,
            pid_path,
            "\n"@,
        ],
    )
}

/// The configuration of MongoDB.
pub fn mongodb_config(port: u16, data_path: &str, log_path: &str, pid_path: &str) -> (content: String)
    ensures
        content@ == spec_mongodb_config(port, data_path@, log_path@, pid_path@),
{
    let port_text = decimal(port as u128);
    let parts = vec![
        "systemLog:\n  destination: file\n  path: \"",
        log_path,
        "\"\n  logAppend: true\nstorage:\n  dbPath: \"",
        data_path,
        "\"\n  engine: wiredTiger\nnet:\n  port: ",
        port_text.as_str(),
        "\n  bindIp: 127.0.0.1\nprocessManagement:\n  fork: true\n  pidFilePath: ",
        pid_path,
        "\n",
    ];
    assert(slices(parts@) =~= seq![
        "systemLog:\n  destination: file\n  path: \""@,
        log_path@,
        "\"\n  logAppend: true\nstorage:\n  dbPath: \""@,
        data_path@,
        "\"\n  engine: wiredTiger\nnet:\n  port: "@,
        spec_decimal(port as nat),
        "\n  bindIp: 127.0.0.1\nprocessManagement:\n  fork: true\n  pidFilePath: "@,
        pid_path@,
        "\n"@,
    ]);
    concat_all(&parts)
}

/// What the installation of Qdrant on Linux is to do.
pub open spec fn qdrant_plan(
    plan: InstallPlan,
    storage: Seq<char>,
    port: Option<u16>,
    password: Option<Seq<char>>,
    auto_start: bool,
    arch: Arch,
    id: Seq<char>,
    now: Seq<char>,
) -> bool {
    let dirs = engine_dirs(storage, "qdrant"@);
    let log_file = path_join(dirs.logs, "qdrant.log"@);
    let config_path = path_join(dirs.config, "qdrant-config.yaml"@);
    let chosen = spec_port_or_default(port, DatabaseType::Qdrant);
    &&& plan_holds(
        plan,
        storage,
        "qdrant"@,
        path_join(dirs.bin, "qdrant"@),
        "https://github.com/qdrant/qdrant/releases/latest/download/qdrant-"@ + spec_arch_name(arch)
            + "-unknown-linux-gnu.tar.gz"@,
        Some("qdrant.tar.gz"@),
        true,
        Some((config_path, spec_qdrant_config(chosen, dirs.data, log_file))),
        fresh_record(
            id,
            "Qdrant"@,
            DatabaseType::Qdrant,
            "latest"@,
            dirs.bin,
            dirs.data,
            log_file,
            chosen,
            None,
            password,
            Some(config_path),
            auto_start,
            now,
        ),
    )
    &&& plan.initialization is None
}

/// What the installation of Qdrant on Linux is to do.
pub fn install_qdrant(
    storage_path: &str,
    options: &LinuxInstallOptions<'_>,
    arch: Arch,
    id: String,
    now: String,
) -> (plan: InstallPlan)
    ensures
        qdrant_plan(
            plan,
            storage_path@,
            options.port,
            opt_slice(options.password),
            options.auto_start,
            arch,
            id@,
            now@,
        ),
{
    let layout = layout_of(storage_path, "qdrant");
    let binary_path = join_path(layout.bin.as_str(), "qdrant");
    let log_file = join_path(layout.logs.as_str(), "qdrant.log");
    let config_path = join_path(layout.config.as_str(), "qdrant-config.yaml");
    let download_url = release_url(
        "https://github.com/qdrant/qdrant/releases/latest/download/qdrant-",
        arch_name(arch),
        "-unknown-linux-gnu.tar.gz",
    );
    let port = port_or_default(options.port, DatabaseType::Qdrant);
    let content = qdrant_config(port, layout.data.as_str(), log_file.as_str());
    let record = new_record(
        id,
        "Qdrant",
        DatabaseType::Qdrant,
        "latest".to_string(),
        layout.bin.clone(),
        layout.data.clone(),
        log_file,
        port,
        None,
        owned(options.password),
        Some(config_path.clone()),
        options.auto_start,
        now,
    );
    InstallPlan {
        directories: directories_of(&layout, true),
        binary_path,
        download_url,
        archive_path: Some(join_path(layout.bin.as_str(), "qdrant.tar.gz")),
        unpack_dir: layout.bin,
        config_file: Some(ConfigFile { path: config_path, content }),
        initialization: None,
        record,
        auto_start: options.auto_start,
    }
}

/// What the installation of SurrealDB on Linux is to do.
pub open spec fn surrealdb_plan(
    plan: InstallPlan,
    storage: Seq<char>,
    port: Option<u16>,
    username: Option<Seq<char>>,
    password: Option<Seq<char>>,
    auto_start: bool,
    arch: Arch,
    id: Seq<char>,
    now: Seq<char>,
) -> bool {
    let dirs = engine_dirs(storage, "surrealdb"@);
    &&& plan_holds(
        plan,
        storage,
        "surrealdb"@,
        path_join(dirs.bin, "surreal"@),
        "https://github.com/surrealdb/surrealdb/releases/latest/download/surreal-v2.1.4-linux-"@
            + spec_arch_short(arch) + ".tar.gz"@,
        Some("surreal.tar.gz"@),
        false,
        None,
        fresh_record(
            id,
            "SurrealDB"@,
            DatabaseType::SurrealDB,
            "latest"@,
            dirs.bin,
            dirs.data,
            path_join(dirs.logs, "surreal.log"@),
            spec_port_or_default(port, DatabaseType::SurrealDB),
            Some(spec_or_default(username, "root"@)),
            Some(spec_or_default(password, "root"@)),
            None,
            auto_start,
            now,
        ),
    )
    &&& plan.initialization is None
}

/// What the installation of SurrealDB on Linux is to do.
pub fn install_surrealdb(
    storage_path: &str,
    options: &LinuxInstallOptions<'_>,
    arch: Arch,
    id: String,
    now: String,
) -> (plan: InstallPlan)
    ensures
        surrealdb_plan(
            plan,
            storage_path@,
            options.port,
            opt_slice(options.username),
            opt_slice(options.password),
            options.auto_start,
            arch,
            id@,
            now@,
        ),
{
    let layout = layout_of(storage_path, "surrealdb");
    let binary_path = join_path(layout.bin.as_str(), "surreal");
    let log_file = join_path(layout.logs.as_str(), "surreal.log");
    let download_url = release_url(
        "https://github.com/surrealdb/surrealdb/releases/latest/download/surreal-v2.1.4-linux-",
        arch_short(arch),
        ".tar.gz",
    );
    let record = new_record(
        id,
        "SurrealDB",
        DatabaseType::SurrealDB,
        "latest".to_string(),
        layout.bin.clone(),
        layout.data.clone(),
        log_file,
        port_or_default(options.port, DatabaseType::SurrealDB),
        Some(or_default(options.username, "root")),
        Some(or_default(options.password, "root")),
        None,
        options.auto_start,
        now,
    );
    InstallPlan {
        directories: directories_of(&layout, false),
        binary_path,
        download_url,
        archive_path: Some(join_path(layout.bin.as_str(), "surreal.tar.gz")),
        unpack_dir: layout.bin,
        config_file: None,
        initialization: None,
        record,
        auto_start: options.auto_start,
    }
}

/// What the installation of MySQL on Linux is to do.
pub open spec fn mysql_plan(
    plan: InstallPlan,
    storage: Seq<char>,
    port: Option<u16>,
    username: Option<Seq<char>>,
    password: Option<Seq<char>>,
    auto_start: bool,
    arch: Arch,
    id: Seq<char>,
    now: Seq<char>,
) -> bool {
    let dirs = engine_dirs(storage, "mysql"@);
    let binary = path_join(path_join(dirs.bin, "bin"@), "mysqld"@);
    let log_file = path_join(dirs.logs, "mysqld.log"@);
    let config_path = path_join(dirs.config, "my.cnf"@);
    let chosen = spec_port_or_default(port, DatabaseType::MySQL);
    &&& plan_holds(
        plan,
        storage,
        "mysql"@,
        binary,
        "https://cdn.mysql.com/Downloads/MySQL-8.4/mysql-8.4.0-linux-glibc2.28-"@ + spec_arch_name(
            arch,
        ) + ".tar.xz"@,
        Some("mysql.tar.xz"@),
        true,
        Some(
            (
                config_path,
                spec_mysql_config(
                    chosen,
                    dirs.data,
                    dirs.bin,
                    log_file,
                    path_join(dirs.data, "mysql.pid"@),
                ),
            ),
        ),
        fresh_record(
            id,
            "MySQL"@,
            DatabaseType::MySQL,
            "8.4.0"@,
            dirs.bin,
            dirs.data,
            log_file,
            chosen,
            Some(spec_or_default(username, "root"@)),
            password,
            Some(config_path),
            auto_start,
            now,
        ),
    )
    &&& plan.initialization matches Some(init)
    &&& init.condition matches InitCondition::PathMissing(marker)
    &&& marker@ == path_join(dirs.data, "mysql"@)
    &&& init.invocation.program@ == binary
    &&& texts(init.invocation.args@) == seq![
        "--initialize-insecure"@,
        "--datadir="@ + dirs.data,
        "--basedir="@ + dirs.bin,
    ]
}

/// What the installation of MySQL on Linux is to do.
pub fn install_mysql(
    storage_path: &str,
    options: &LinuxInstallOptions<'_>,
    arch: Arch,
    id: String,
    now: String,
) -> (plan: InstallPlan)
    ensures
        mysql_plan(
            plan,
            storage_path@,
            options.port,
            opt_slice(options.username),
            opt_slice(options.password),
            options.auto_start,
            arch,
            id@,
            now@,
        ),
{
    let layout = layout_of(storage_path, "mysql");
    let binary_dir = join_path(layout.bin.as_str(), "bin");
    let binary_path = join_path(binary_dir.as_str(), "mysqld");
    let log_file = join_path(layout.logs.as_str(), "mysqld.log");
    let config_path = join_path(layout.config.as_str(), "my.cnf");
    let pid_path = join_path(layout.data.as_str(), "mysql.pid");
    let download_url = release_url(
        "https://cdn.mysql.com/Downloads/MySQL-8.4/mysql-8.4.0-linux-glibc2.28-",
        arch_name(arch),
        ".tar.xz",
    );
    let port = port_or_default(options.port, DatabaseType::MySQL);
    let content = mysql_config(
        port,
        layout.data.as_str(),
        layout.bin.as_str(),
        log_file.as_str(),
        pid_path.as_str(),
    );
    let mut args: Vec<String> = Vec::new();
    args.push("--initialize-insecure".to_string());
    args.push(concat("--datadir=", layout.data.as_str()));
    args.push(concat("--basedir=", layout.bin.as_str()));
    assert(texts(args@) =~= seq![
        "--initialize-insecure"@,
        "--datadir="@ + layout.data@,
        "--basedir="@ + layout.bin@,
    ]);
    let initialization = Initialization {
        condition: InitCondition::PathMissing(join_path(layout.data.as_str(), "mysql")),
        invocation: Invocation { program: binary_path.clone(), args },
    };
    let record = new_record(
        id,
        "MySQL",
        DatabaseType::MySQL,
        "8.4.0".to_string(),
        layout.bin.clone(),
        layout.data.clone(),
        log_file,
        port,
        Some(or_default(options.username, "root")),
        owned(options.password),
        Some(config_path.clone()),
        options.auto_start,
        now,
    );
    InstallPlan {
        directories: directories_of(&layout, true),
        binary_path,
        download_url,
        archive_path: Some(join_path(layout.bin.as_str(), "mysql.tar.xz")),
        unpack_dir: layout.bin,
        config_file: Some(ConfigFile { path: config_path, content }),
        initialization: Some(initialization),
        record,
        auto_start: options.auto_start,
    }
}

/// What the installation of MongoDB on Linux is to do.
pub open spec fn mongodb_plan(
    plan: InstallPlan,
    storage: Seq<char>,
    port: Option<u16>,
    username: Option<Seq<char>>,
    password: Option<Seq<char>>,
    auto_start: bool,
    arch: Arch,
    id: Seq<char>,
    now: Seq<char>,
) -> bool {
    let dirs = engine_dirs(storage, "mongodb"@);
    let log_file = path_join(dirs.logs, "mongod.log"@);
    let config_path = path_join(dirs.config, "mongod.conf"@);
    let chosen = spec_port_or_default(port, DatabaseType::MongoDB);
    &&& plan_holds(
        plan,
        storage,
        "mongodb"@,
        path_join(path_join(dirs.bin, "bin"@), "mongod"@),
        "https://fastdl.mongodb.org/linux/mongodb-linux-"@ + spec_arch_name(arch)
            + "-ubuntu2004-7.0.9.tgz"@,
        Some("mongodb.tgz"@),
        true,
        Some(
            (
                config_path,
                spec_mongodb_config(
                    chosen,
                    dirs.data,
                    log_file,
                    path_join(dirs.data, "mongodb.pid"@),
                ),
            ),
        ),
        fresh_record(
            id,
            "MongoDB"@,
            DatabaseType::MongoDB,
            "7.0.9"@,
            dirs.bin,
            dirs.data,
            log_file,
            chosen,
            username,
            password,
            Some(config_path),
            auto_start,
            now,
        ),
    )
    &&& plan.initialization is None
}

/// What the installation of MongoDB on Linux is to do.
pub fn install_mongodb(
    storage_path: &str,
    options: &LinuxInstallOptions<'_>,
    arch: Arch,
    id: String,
    now: String,
) -> (plan: InstallPlan)
    ensures
        mongodb_plan(
            plan,
            storage_path@,
            options.port,
            opt_slice(options.username),
            opt_slice(options.password),
            options.auto_start,
            arch,
            id@,
            now@,
        ),
{
    let layout = layout_of(storage_path, "mongodb");
    let binary_dir = join_path(layout.bin.as_str(), "bin");
    let binary_path = join_path(binary_dir.as_str(), "mongod");
    let log_file = join_path(layout.logs.as_str(), "mongod.log");
    let config_path = join_path(layout.config.as_str(), "mongod.conf");
    let pid_path = join_path(layout.data.as_str(), "mongodb.pid");
    let download_url = release_url(
        "https://fastdl.mongodb.org/linux/mongodb-linux-",
        arch_name(arch),
        "-ubuntu2004-7.0.9.tgz",
    );
    let port = port_or_default(options.port, DatabaseType::MongoDB);
    let content = mongodb_config(port, layout.data.as_str(), log_file.as_str(), pid_path.as_str());
    let record = new_record(
        id,
        "MongoDB",
        DatabaseType::MongoDB,
        "7.0.9".to_string(),
        layout.bin.clone(),
        layout.data.clone(),
        log_file,
        port,
        owned(options.username),
        owned(options.password),
        Some(config_path.clone()),
        options.auto_start,
        now,
    );
    InstallPlan {
        directories: directories_of(&layout, true),
        binary_path,
        download_url,
        archive_path: Some(join_path(layout.bin.as_str(), "mongodb.tgz")),
        unpack_dir: layout.bin,
        config_file: Some(ConfigFile { path: config_path, content }),
        initialization: None,
        record,
        auto_start: options.auto_start,
    }
}

/// Why an engine cannot be installed on Linux through this library, if it
/// cannot.
pub open spec fn install_refusal(db_type: DatabaseType) -> Option<Seq<char>> {
    match db_type {
        DatabaseType::Redis => Some(
            "Redis on Linux should be installed via package manager as per docs/linux.md. Automated binary install not yet supported."@,
        ),
        DatabaseType::PostgreSQL => Some(
            "PostgreSQL installation on Linux is not yet implemented via binary"@,
        ),
        _ => None,
    }
}

/// Whether `plan` is what the installation of an engine on Linux is to do.
pub open spec fn install_plan(
    plan: InstallPlan,
    db_type: DatabaseType,
    storage: Seq<char>,
    options: LinuxInstallOptions<'_>,
    arch: Arch,
    id: Seq<char>,
    now: Seq<char>,
) -> bool {
    let username = opt_slice(options.username);
    let password = opt_slice(options.password);
    match db_type {
        DatabaseType::Qdrant => qdrant_plan(
            plan,
            storage,
            options.port,
            password,
            options.auto_start,
            arch,
            id,
            now,
        ),
        DatabaseType::SurrealDB => surrealdb_plan(
            plan,
            storage,
            options.port,
            username,
            password,
            options.auto_start,
            arch,
            id,
            now,
        ),
        DatabaseType::MySQL => mysql_plan(
            plan,
            storage,
            options.port,
            username,
            password,
            options.auto_start,
            arch,
            id,
            now,
        ),
        DatabaseType::MongoDB => mongodb_plan(
            plan,
            storage,
            options.port,
            username,
            password,
            options.auto_start,
            arch,
            id,
            now,
        ),
        _ => false,
    }
}

/// What the installation of an engine on Linux is to do, for a record with
/// the given id that is made at the moment `now`. Redis and PostgreSQL are
/// not installed this way.
pub fn plan_install(
    db_type: &DatabaseType,
    storage_path: &str,
    options: &LinuxInstallOptions<'_>,
    arch: Arch,
    id: String,
    now: String,
) -> (outcome: Result<InstallPlan, LifecycleError>)
    ensures
        match install_refusal(*db_type) {
            Some(text) => outcome matches Err(LifecycleError::Provisioning(said)) && said@ == text,
            None => outcome matches Ok(plan) && install_plan(
                plan,
                *db_type,
                storage_path@,
                *options,
                arch,
                id@,
                now@,
            ),
        },
{
    match db_type {
        DatabaseType::Redis => Err(
            LifecycleError::Provisioning(
                "Redis on Linux should be installed via package manager as per docs/linux.md. Automated binary install not yet supported.".to_string(),
            ),
        ),
        DatabaseType::PostgreSQL => Err(
            LifecycleError::Provisioning(
                "PostgreSQL installation on Linux is not yet implemented via binary".to_string(),
            ),
        ),
        DatabaseType::Qdrant => Ok(install_qdrant(storage_path, options, arch, id, now)),
        DatabaseType::SurrealDB => Ok(install_surrealdb(storage_path, options, arch, id, now)),
        DatabaseType::MySQL => Ok(install_mysql(storage_path, options, arch, id, now)),
        DatabaseType::MongoDB => Ok(install_mongodb(storage_path, options, arch, id, now)),
    }
}

/// What the installation of an engine on Linux is to do, for a record with a
/// fresh id that is made at the present moment.
pub fn install_database(
    db_type: &DatabaseType,
    storage_path: &str,
    options: &LinuxInstallOptions<'_>,
    arch: Arch,
) -> (outcome: Result<InstallPlan, LifecycleError>)
    ensures
        match install_refusal(*db_type) {
            Some(text) => outcome matches Err(LifecycleError::Provisioning(said)) && said@ == text,
            None => outcome matches Ok(plan) && exists|micros: nat, at: nat|
                install_plan(
                    plan,
                    *db_type,
                    storage_path@,
                    *options,
                    arch,
                    spec_decimal(micros),
                    spec_timestamp(at),
                ),
        },
        outcome matches Ok(plan) ==> plan.record.id@.len() > 0,
{
    let id = generate_id();
    let now = get_timestamp();
    let ghost micros = choose|micros: nat| id@ == spec_decimal(micros);
    let ghost at = choose|at: nat| now@ == spec_timestamp(at);
    let outcome = plan_install(db_type, storage_path, options, arch, id, now);
    proof {
        if outcome is Ok {
            assert(install_plan(
                outcome->Ok_0,
                *db_type,
                storage_path@,
                *options,
                arch,
                spec_decimal(micros),
                spec_timestamp(at),
            ));
        }
    }
    outcome
}

/// How an engine is started on Linux, or why it cannot be.
pub open spec fn spec_start_service(record: DatabaseRecord) -> Result<SpawnView, Seq<char>> {
    match record.db_type {
        DatabaseType::Redis => Err("Redis service management on Linux not yet implemented"@),
        DatabaseType::PostgreSQL => Err(
            "PostgreSQL service management on Linux is not yet implemented"@,
        ),
        DatabaseType::Qdrant => match record.config {
            Some(config) => Ok(
                SpawnView {
                    program: path_join(record.install_path, "qdrant"@),
                    args: seq!["--config-path"@, config],
                    pid_file: Some(path_join(record.data_path, "qdrant.pid"@)),
                },
            ),
            None => Err("Config path missing"@),
        },
        DatabaseType::SurrealDB => Ok(
            SpawnView {
                program: path_join(record.install_path, "surreal"@),
                args: seq![
                    "start"@,
                    "--user"@,
                    spec_or_default(record.username, "root"@),
                    "--pass"@,
                    spec_or_default(record.password, "root"@),
                    "--bind"@,
                    "0.0.0.0:"@ + spec_decimal(record.port as nat),
                    "file://"@ + record.data_path,
                ],
                pid_file: Some(path_join(record.data_path, "surrealdb.pid"@)),
            },
        ),
        DatabaseType::MySQL => match record.config {
            Some(config) => Ok(
                SpawnView {
                    program: path_join(path_join(record.install_path, "bin"@), "mysqld"@),
                    args: seq!["--defaults-file="@ + config],
                    pid_file: Some(path_join(record.data_path, "mysql.pid"@)),
                },
            ),
            None => Err("Config path missing"@),
        },
        DatabaseType::MongoDB => match record.config {
            Some(config) => Ok(
                SpawnView {
                    program: path_join(path_join(record.install_path, "bin"@), "mongod"@),
                    args: seq!["--config"@, config],
                    pid_file: None,
                },
            ),
            None => Err("Config path missing"@),
        },
    }
}

/// How an engine is started on Linux: the program to run with its
/// arguments, and the file that is to hold the id of its process. Redis and
/// PostgreSQL are not started this way, and an engine that is configured by
/// a file is not started without one.
pub fn start_service(db_info: &DatabaseInfo) -> (outcome: Result<SpawnPlan, LifecycleError>)
    ensures
        spawn_outcome(outcome, spec_start_service(db_info@)),
{
    let install = db_info.install_path.as_str();
    let data = db_info.data_path.as_str();
    match db_info.db_type {
        DatabaseType::Redis => refuse("Redis service management on Linux not yet implemented"),
        DatabaseType::PostgreSQL => refuse(
            "PostgreSQL service management on Linux is not yet implemented",
        ),
        DatabaseType::Qdrant => match &db_info.config {
            Some(config) => {
                let args = arguments(&vec!["--config-path", config.as_str()]);
                assert(texts(args@) =~= seq!["--config-path"@, config@]);
                Ok(
                    SpawnPlan {
                        invocation: Invocation { program: join_path(install, "qdrant"), args },
                        pid_file: Some(join_path(data, "qdrant.pid")),
                    },
                )
            },
            None => refuse("Config path missing"),
        },
        DatabaseType::SurrealDB => {
            let user = or_default(as_slice(&db_info.username), "root");
            let pass = or_default(as_slice(&db_info.password), "root");
            let bind = concat("0.0.0.0:", decimal(db_info.port as u128).as_str());
            let store = concat("file://", data);
            let args = arguments(
                &vec![
                    "start",
                    "--user",
                    user.as_str(),
                    "--pass",
                    pass.as_str(),
                    "--bind",
                    bind.as_str(),
                    store.as_str(),
                ],
            );
            assert(texts(args@) =~= seq![
                "start"@,
                "--user"@,
                user@,
                "--pass"@,
                pass@,
                "--bind"@,
                bind@,
                store@,
            ]);
            Ok(
                SpawnPlan {
                    invocation: Invocation { program: join_path(install, "surreal"), args },
                    pid_file: Some(join_path(data, "surrealdb.pid")),
                },
            )
        },
        DatabaseType::MySQL => match &db_info.config {
            Some(config) => {
                let flag = concat("--defaults-file=", config.as_str());
                let args = arguments(&vec![flag.as_str()]);
                assert(texts(args@) =~= seq![flag@]);
                let binary_dir = join_path(install, "bin");
                Ok(
                    SpawnPlan {
                        invocation: Invocation {
                            program: join_path(binary_dir.as_str(), "mysqld"),
                            args,
                        },
                        pid_file: Some(join_path(data, "mysql.pid")),
                    },
                )
            },
            None => refuse("Config path missing"),
        },
        DatabaseType::MongoDB => match &db_info.config {
            Some(config) => {
                let args = arguments(&vec!["--config", config.as_str()]);
                assert(texts(args@) =~= seq!["--config"@, config@]);
                let binary_dir = join_path(install, "bin");
                Ok(
                    SpawnPlan {
                        invocation: Invocation {
                            program: join_path(binary_dir.as_str(), "mongod"),
                            args,
                        },
                        pid_file: None,
                    },
                )
            },
            None => refuse("Config path missing"),
        },
    }
}

/// The file that holds the process id of an engine on Linux, or why the
/// engine cannot be stopped.
pub open spec fn spec_stop_service(record: DatabaseRecord) -> Result<Seq<char>, Seq<char>> {
    match record.db_type {
        DatabaseType::PostgreSQL => Err(
            "PostgreSQL service management on Linux is not yet implemented"@,
        ),
        _ => Ok(path_join(record.data_path, record.db_type.spec_as_str() + ".pid"@)),
    }
}

/// How an engine is stopped on Linux: the file that holds the id of the
/// process that is to be ended. Where there is no such file, nothing runs.
/// PostgreSQL is not stopped this way.
pub fn stop_service(db_info: &DatabaseInfo) -> (outcome: Result<String, LifecycleError>)
    ensures
        match spec_stop_service(db_info@) {
            Ok(path) => outcome matches Ok(pid_file) && pid_file@ == path,
            Err(text) => outcome matches Err(LifecycleError::Provisioning(said)) && said@ == text,
        },
{
    match db_info.db_type {
        DatabaseType::PostgreSQL => refuse(
            "PostgreSQL service management on Linux is not yet implemented",
        ),
        _ => {
            let name = pid_file_name(db_info.db_type);
            Ok(join_path(db_info.data_path.as_str(), name.as_str()))
        },
    }
}

/// The directory that an unpacked archive consists of, where it consists of
/// one directory and nothing else: what lies in it is then moved up.
pub open spec fn spec_single_root(entries: Seq<(Seq<char>, bool)>) -> Option<Seq<char>> {
    if entries.len() == 1 && entries[0].1 {
        Some(entries[0].0)
    } else {
        None
    }
}

/// The directory that an unpacked archive consists of, where it consists of
/// one directory and nothing else. `entries` are the names of what the
/// target directory holds, with whether each is a directory.
pub fn move_from_root_if_needed(entries: &Vec<(String, bool)>) -> (root: Option<String>)
    ensures
        opt_text(root) == spec_single_root(crate::archive::headers_of(entries@)),
{
    if entries.len() == 1 && entries[0].1 {
        assert(crate::archive::headers_of(entries@)[0] == (entries[0].0@, entries[0].1));
        Some(entries[0].0.clone())
    } else {
        None
    }
}

} // verus!
