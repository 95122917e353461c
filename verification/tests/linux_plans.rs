use local_db::linux::{self, LinuxInstallOptions};
use local_db::provision::{Arch, InitCondition};
use local_db::{DatabaseInfo, DatabaseStatus, DatabaseType, LifecycleError};

fn join(base: &str, parts: &[&str]) -> String {
    let mut p = std::path::PathBuf::from(base);
    for part in parts {
        p = p.join(part);
    }
    p.to_string_lossy().to_string()
}

fn options<'a>(port: Option<u16>, user: Option<&'a str>, pass: Option<&'a str>) -> LinuxInstallOptions<'a> {
    LinuxInstallOptions { version: None, port, username: user, password: pass, auto_start: false }
}

#[test]
fn the_usual_options() {
    let o = LinuxInstallOptions::default();
    assert_eq!(o.version, None);
    assert_eq!(o.port, None);
    assert_eq!(o.username, None);
    assert_eq!(o.password, None);
    assert!(o.auto_start);
}

#[test]
fn qdrant_on_linux() {
    let plan = linux::plan_install(
        &DatabaseType::Qdrant,
        "/store",
        &options(None, Some("ignored"), Some("pw")),
        Arch::Aarch64,
        "id1".to_string(),
        "now".to_string(),
    )
    .unwrap();
    assert_eq!(
        plan.directories,
        vec![
            join("/store", &["bin", "qdrant"]),
            join("/store", &["data", "qdrant"]),
            join("/store", &["logs", "qdrant"]),
            join("/store", &["config", "qdrant"]),
        ]
    );
    assert_eq!(plan.binary_path, join("/store", &["bin", "qdrant", "qdrant"]));
    assert_eq!(
        plan.download_url,
        "https://github.com/qdrant/qdrant/releases/latest/download/qdrant-aarch64-unknown-linux-gnu.tar.gz"
    );
    assert_eq!(plan.archive_path, Some(join("/store", &["bin", "qdrant", "qdrant.tar.gz"])));
    assert_eq!(plan.unpack_dir, join("/store", &["bin", "qdrant"]));
    let config = plan.config_file.unwrap();
    assert_eq!(config.path, join("/store", &["config", "qdrant", "qdrant-config.yaml"]));
    assert_eq!(
        config.content,
        format!(
            "service:\n  port: 6333\n  grpc_port: 6334\nstorage:\n  path: {}\nlogging:\n  level: INFO\n  file_path: {}\n",
            join("/store", &["data", "qdrant"]),
            join("/store", &["logs", "qdrant", "qdrant.log"])
        )
    );
    assert!(plan.initialization.is_none());
    assert!(!plan.auto_start);
    assert_eq!(
        plan.record,
        DatabaseInfo {
            id: "id1".to_string(),
            name: "Qdrant".to_string(),
            db_type: DatabaseType::Qdrant,
            version: "latest".to_string(),
            install_path: join("/store", &["bin", "qdrant"]),
            data_path: join("/store", &["data", "qdrant"]),
            log_path: join("/store", &["logs", "qdrant", "qdrant.log"]),
            port: 6333,
            username: None,
            password: Some("pw".to_string()),
            config: Some(join("/store", &["config", "qdrant", "qdrant-config.yaml"])),
            status: DatabaseStatus::Stopped,
            auto_start: false,
            pid: None,
            created_at: "now".to_string(),
            updated_at: "now".to_string(),
        }
    );
}

#[test]
fn the_port_after_the_last_port() {
    assert!(linux::qdrant_config(65535, "/d", "/l").contains("grpc_port: 65536\n"));
}

#[test]
fn surrealdb_on_linux() {
    let plan = linux::plan_install(
        &DatabaseType::SurrealDB,
        "/store",
        &options(Some(9000), None, Some("pw")),
        Arch::X86_64,
        "id2".to_string(),
        "now".to_string(),
    )
    .unwrap();
    assert_eq!(plan.directories.len(), 3);
    assert_eq!(plan.binary_path, join("/store", &["bin", "surrealdb", "surreal"]));
    assert_eq!(
        plan.download_url,
        "https://github.com/surrealdb/surrealdb/releases/latest/download/surreal-v2.1.4-linux-amd64.tar.gz"
    );
    assert!(plan.config_file.is_none());
    assert_eq!(plan.record.port, 9000);
    assert_eq!(plan.record.username, Some("root".to_string()));
    assert_eq!(plan.record.password, Some("pw".to_string()));
    assert_eq!(plan.record.config, None);
    assert_eq!(plan.record.log_path, join("/store", &["logs", "surrealdb", "surreal.log"]));
    assert_eq!(plan.record.name, "SurrealDB");
}

#[test]
fn mysql_on_linux() {
    let plan = linux::plan_install(
        &DatabaseType::MySQL,
        "/store",
        &options(None, None, None),
        Arch::X86_64,
        "id3".to_string(),
        "now".to_string(),
    )
    .unwrap();
    let data = join("/store", &["data", "mysql"]);
    let bin = join("/store", &["bin", "mysql"]);
    assert_eq!(plan.binary_path, join("/store", &["bin", "mysql", "bin", "mysqld"]));
    assert_eq!(
        plan.download_url,
        "https://cdn.mysql.com/Downloads/MySQL-8.4/mysql-8.4.0-linux-glibc2.28-x86_64.tar.xz"
    );
    assert_eq!(plan.archive_path, Some(join("/store", &["bin", "mysql", "mysql.tar.xz"])));
    let init = plan.initialization.unwrap();
    assert_eq!(init.condition, InitCondition::PathMissing(join(&data, &["mysql"])));
    assert_eq!(init.invocation.program, plan.binary_path);
    assert_eq!(
        init.invocation.args,
        vec![
            "--initialize-insecure".to_string(),
            format!("--datadir={}", data),
            format!("--basedir={}", bin)
        ]
    );
    assert_eq!(
        plan.config_file.unwrap().content,
        format!(
            "[mysqld]\ndatadir={}\nbasedir={}\nsocket=/tmp/mysql.sock\nport=3306\nlog-error={}\npid-file={}\n",
            data,
            bin,
            join("/store", &["logs", "mysql", "mysqld.log"]),
            join(&data, &["mysql.pid"])
        )
    );
    assert_eq!(plan.record.version, "8.4.0");
    assert_eq!(plan.record.username, Some("root".to_string()));
    assert_eq!(plan.record.password, None);
    assert_eq!(plan.record.port, 3306);
}

#[test]
fn mongodb_on_linux() {
    let plan = linux::plan_install(
        &DatabaseType::MongoDB,
        "/store",
        &options(Some(28000), Some("me"), None),
        Arch::Aarch64,
        "id4".to_string(),
        "now".to_string(),
    )
    .unwrap();
    assert_eq!(
        plan.download_url,
        "https://fastdl.mongodb.org/linux/mongodb-linux-aarch64-ubuntu2004-7.0.9.tgz"
    );
    assert_eq!(
        plan.config_file.unwrap().content,
        format!(
            "systemLog:\n  destination: file\n  path: \"{}\"\n  logAppend: true\nstorage:\n  dbPath: \"{}\"\n  engine: wiredTiger\nnet:\n  port: 28000\n  bindIp: 127.0.0.1\nprocessManagement:\n  fork: true\n  pidFilePath: {}\n",
            join("/store", &["logs", "mongodb", "mongod.log"]),
            join("/store", &["data", "mongodb"]),
            join("/store", &["data", "mongodb", "mongodb.pid"])
        )
    );
    assert_eq!(plan.record.version, "7.0.9");
    assert_eq!(plan.record.username, Some("me".to_string()));
    assert_eq!(plan.record.password, None);
}

#[test]
fn engines_that_are_not_installed_on_linux() {
    let redis = linux::install_database(
        &DatabaseType::Redis,
        "/store",
        &LinuxInstallOptions::default(),
        Arch::X86_64,
    );
    assert_eq!(
        redis.err(),
        Some(LifecycleError::Provisioning(
            "Redis on Linux should be installed via package manager as per docs/linux.md. Automated binary install not yet supported.".to_string()
        ))
    );
    let postgres = linux::install_database(
        &DatabaseType::PostgreSQL,
        "/store",
        &LinuxInstallOptions::default(),
        Arch::X86_64,
    );
    assert_eq!(
        postgres.err(),
        Some(LifecycleError::Provisioning(
            "PostgreSQL installation on Linux is not yet implemented via binary".to_string()
        ))
    );
}

#[test]
fn an_installation_gets_a_fresh_id_and_the_present_moment() {
    let plan = linux::install_database(
        &DatabaseType::Qdrant,
        "/store",
        &LinuxInstallOptions::default(),
        Arch::X86_64,
    )
    .unwrap();
    assert!(plan.record.id.chars().all(|c| c.is_ascii_digit()));
    assert!(!plan.record.id.is_empty());
    assert!(chrono::DateTime::parse_from_rfc3339(&plan.record.created_at).is_ok());
    assert_eq!(plan.record.created_at, plan.record.updated_at);
    assert!(plan.auto_start);
    assert!(plan.record.auto_start);
}

fn installed(db_type: DatabaseType, config: Option<&str>) -> DatabaseInfo {
    DatabaseInfo {
        id: "i".to_string(),
        name: db_type.display_name().to_string(),
        db_type,
        version: "1".to_string(),
        install_path: "/store/bin/e".to_string(),
        data_path: "/store/data/e".to_string(),
        log_path: "/store/logs/e/e.log".to_string(),
        port: 8123,
        username: None,
        password: Some("pw".to_string()),
        config: config.map(String::from),
        status: DatabaseStatus::Stopped,
        auto_start: false,
        pid: None,
        created_at: "t".to_string(),
        updated_at: "t".to_string(),
    }
}

#[test]
fn how_engines_are_started_on_linux() {
    let q = linux::start_service(&installed(DatabaseType::Qdrant, Some("/c/q.yaml"))).unwrap();
    assert_eq!(q.invocation.program, join("/store/bin/e", &["qdrant"]));
    assert_eq!(q.invocation.args, vec!["--config-path", "/c/q.yaml"]);
    assert_eq!(q.pid_file, Some(join("/store/data/e", &["qdrant.pid"])));

    let s = linux::start_service(&installed(DatabaseType::SurrealDB, None)).unwrap();
    assert_eq!(s.invocation.program, join("/store/bin/e", &["surreal"]));
    assert_eq!(
        s.invocation.args,
        vec!["start", "--user", "root", "--pass", "pw", "--bind", "0.0.0.0:8123", "file:///store/data/e"]
    );
    assert_eq!(s.pid_file, Some(join("/store/data/e", &["surrealdb.pid"])));

    let m = linux::start_service(&installed(DatabaseType::MySQL, Some("/c/my.cnf"))).unwrap();
    assert_eq!(m.invocation.program, join("/store/bin/e", &["bin", "mysqld"]));
    assert_eq!(m.invocation.args, vec!["--defaults-file=/c/my.cnf"]);
    assert_eq!(m.pid_file, Some(join("/store/data/e", &["mysql.pid"])));

    let g = linux::start_service(&installed(DatabaseType::MongoDB, Some("/c/mongod.conf"))).unwrap();
    assert_eq!(g.invocation.program, join("/store/bin/e", &["bin", "mongod"]));
    assert_eq!(g.invocation.args, vec!["--config", "/c/mongod.conf"]);
    assert_eq!(g.pid_file, None);
}

#[test]
fn engines_that_cannot_be_started_on_linux() {
    for t in [DatabaseType::Qdrant, DatabaseType::MySQL, DatabaseType::MongoDB] {
        assert_eq!(
            linux::start_service(&installed(t, None)).err(),
            Some(LifecycleError::Provisioning("Config path missing".to_string()))
        );
    }
    assert_eq!(
        linux::start_service(&installed(DatabaseType::Redis, Some("c"))).err(),
        Some(LifecycleError::Provisioning(
            "Redis service management on Linux not yet implemented".to_string()
        ))
    );
    assert_eq!(
        linux::start_service(&installed(DatabaseType::PostgreSQL, Some("c"))).err(),
        Some(LifecycleError::Provisioning(
            "PostgreSQL service management on Linux is not yet implemented".to_string()
        ))
    );
}

#[test]
fn how_engines_are_stopped_on_linux() {
    assert_eq!(
        linux::stop_service(&installed(DatabaseType::Redis, None)),
        Ok(join("/store/data/e", &["redis.pid"]))
    );
    assert_eq!(
        linux::stop_service(&installed(DatabaseType::MongoDB, None)),
        Ok(join("/store/data/e", &["mongodb.pid"]))
    );
    assert_eq!(
        linux::stop_service(&installed(DatabaseType::PostgreSQL, None)).err(),
        Some(LifecycleError::Provisioning(
            "PostgreSQL service management on Linux is not yet implemented".to_string()
        ))
    );
}
