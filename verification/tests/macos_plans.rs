use local_db::homebrew::{
    self, HomebrewDatabaseRecipe, HomebrewFinding, HomebrewInstall, HomebrewInstallOptions,
    ServiceAction,
};
use local_db::provision::{Arch, InitCondition, StartReport};
use local_db::state::AppStateData;
use local_db::{AppState, DatabaseInfo, DatabaseStatus, DatabaseType, GlobalSettings, LifecycleError};

fn join(base: &str, parts: &[&str]) -> String {
    let mut p = std::path::PathBuf::from(base);
    for part in parts {
        p = p.join(part);
    }
    p.to_string_lossy().to_string()
}

fn record(id: &str, db_type: DatabaseType, status: DatabaseStatus) -> DatabaseInfo {
    DatabaseInfo {
        id: id.to_string(),
        name: db_type.display_name().to_string(),
        db_type,
        version: "1.0".to_string(),
        install_path: "/opt/e".to_string(),
        data_path: "/store/data/e".to_string(),
        log_path: "/store/logs/e/e.log".to_string(),
        port: 8123,
        username: None,
        password: None,
        config: None,
        status,
        auto_start: false,
        pid: Some(3),
        created_at: "t0".to_string(),
        updated_at: "t0".to_string(),
    }
}

fn state_with(records: Vec<DatabaseInfo>) -> AppState {
    AppState::new(AppStateData {
        databases: records,
        settings: GlobalSettings::with_storage_path("/store".to_string()),
    })
}

#[test]
fn the_usual_homebrew_options() {
    let o = HomebrewInstallOptions::default();
    assert_eq!((o.version, o.port, o.username, o.password, o.auto_start), (None, None, None, None, true));
}

#[test]
fn recipes() {
    assert_eq!(
        HomebrewDatabaseRecipe::resolve(&DatabaseType::Redis),
        Ok(HomebrewDatabaseRecipe {
            db_type: DatabaseType::Redis,
            tap: None,
            formula: "redis",
            service_name: "redis",
            port: 6379
        })
    );
    let mysql = HomebrewDatabaseRecipe::resolve(&DatabaseType::MySQL).unwrap();
    assert_eq!((mysql.formula, mysql.service_name, mysql.port, mysql.tap), ("mysql@8.4", "mysql@8.4", 3306, None));
    let pg = HomebrewDatabaseRecipe::resolve(&DatabaseType::PostgreSQL).unwrap();
    assert_eq!((pg.formula, pg.service_name, pg.port, pg.tap), ("postgresql@18", "postgresql@18", 5432, None));
    let mongo = HomebrewDatabaseRecipe::resolve(&DatabaseType::MongoDB).unwrap();
    assert_eq!(
        (mongo.formula, mongo.service_name, mongo.port, mongo.tap),
        ("mongodb-community@7.0", "mongodb-community@7.0", 27017, Some("mongodb/brew"))
    );
    assert_eq!(
        HomebrewDatabaseRecipe::resolve(&DatabaseType::Qdrant),
        Err(LifecycleError::Provisioning(
            "Qdrant should be installed via binary, not Homebrew".to_string()
        ))
    );
    assert_eq!(
        HomebrewDatabaseRecipe::resolve(&DatabaseType::SurrealDB),
        Err(LifecycleError::Provisioning(
            "SurrealDB should be started via direct process, not brew services".to_string()
        ))
    );
}

#[test]
fn users_and_passwords() {
    assert_eq!(homebrew::resolve_username(&DatabaseType::MySQL, None), Some("admin".to_string()));
    assert_eq!(homebrew::resolve_username(&DatabaseType::MySQL, Some("me")), Some("me".to_string()));
    assert_eq!(homebrew::resolve_username(&DatabaseType::Redis, None), None);
    assert_eq!(homebrew::resolve_username(&DatabaseType::Qdrant, None), None);
    assert_eq!(homebrew::resolve_username(&DatabaseType::Redis, Some("me")), Some("me".to_string()));
    assert_eq!(homebrew::resolve_password(&DatabaseType::MongoDB, None), Some("admin888".to_string()));
    assert_eq!(homebrew::resolve_password(&DatabaseType::MongoDB, Some("pw")), Some("pw".to_string()));
    assert_eq!(homebrew::resolve_password(&DatabaseType::Redis, None), None);
    assert_eq!(homebrew::resolve_password(&DatabaseType::Qdrant, None), None);
}

#[test]
fn where_qdrant_comes_from() {
    assert_eq!(homebrew::get_qdrant_binary_name(Arch::Aarch64), "qdrant-aarch64-apple-darwin.tar.gz");
    assert_eq!(homebrew::get_qdrant_binary_name(Arch::X86_64), "qdrant-x86_64-apple-darwin.tar.gz");
    assert_eq!(
        homebrew::get_qdrant_download_url(None, Arch::Aarch64),
        "https://github.com/qdrant/qdrant/releases/latest/download/qdrant-aarch64-apple-darwin.tar.gz"
    );
    assert_eq!(
        homebrew::get_qdrant_download_url(Some("1.9.0"), Arch::X86_64),
        "https://github.com/qdrant/qdrant/releases/download/v1.9.0/qdrant-x86_64-apple-darwin.tar.gz"
    );
    assert_eq!(
        homebrew::get_qdrant_download_url(Some("v1.9.0"), Arch::X86_64),
        "https://github.com/qdrant/qdrant/releases/download/v1.9.0/qdrant-x86_64-apple-darwin.tar.gz"
    );
}

#[test]
fn qdrant_on_macos() {
    let options = HomebrewInstallOptions {
        version: Some("1.9.0"),
        port: Some(7000),
        username: Some("ignored"),
        password: Some("pw"),
        auto_start: false,
    };
    let plan = homebrew::install_qdrant_binary("/store", &options, Arch::Aarch64, "id".to_string(), "now".to_string());
    assert_eq!(plan.directories.len(), 4);
    assert_eq!(plan.binary_path, join("/store", &["bin", "qdrant", "qdrant"]));
    assert_eq!(plan.archive_path, None);
    let config = plan.config_file.unwrap();
    assert_eq!(config.path, join("/store", &["config", "qdrant", "config.yaml"]));
    assert_eq!(
        config.content,
        format!(
            "# Qdrant configuration for local-db\nservice:\n  host: 0.0.0.0\n  http_port: 7000\n  grpc_port: 7001\n\nlog_level: INFO\n\nstorage:\n  storage_path: {}\n\ntelemetry_disabled: true\n",
            join("/store", &["data", "qdrant"])
        )
    );
    assert_eq!(plan.record.version, "1.9.0");
    assert_eq!(plan.record.port, 7000);
    assert_eq!(plan.record.username, None);
    assert_eq!(plan.record.password, Some("pw".to_string()));
    assert_eq!(plan.record.log_path, join("/store", &["logs", "qdrant", "qdrant.log"]));
    assert_eq!(plan.record.status, DatabaseStatus::Stopped);

    let usual = homebrew::install_qdrant_binary(
        "/store",
        &HomebrewInstallOptions::default(),
        Arch::X86_64,
        "id".to_string(),
        "now".to_string(),
    );
    assert_eq!(usual.record.version, "latest");
    assert_eq!(usual.record.port, 6333);
    assert!(usual.auto_start);
}

#[test]
fn how_engines_are_installed_on_macos() {
    let options = HomebrewInstallOptions::default();
    match homebrew::install_database_via_homebrew(&DatabaseType::Qdrant, "/s", &options, Arch::X86_64) {
        Ok(HomebrewInstall::Binary(plan)) => assert_eq!(plan.record.db_type, DatabaseType::Qdrant),
        other => panic!("{:?}", other),
    }
    match homebrew::install_database_via_homebrew(&DatabaseType::SurrealDB, "/s", &options, Arch::X86_64) {
        Ok(HomebrewInstall::Formula { tap, formula, service_name }) => {
            assert_eq!((tap, formula, service_name), (Some("surrealdb/tap"), "surreal", None))
        }
        other => panic!("{:?}", other),
    }
    match homebrew::install_database_via_homebrew(&DatabaseType::MongoDB, "/s", &options, Arch::X86_64) {
        Ok(HomebrewInstall::Formula { tap, formula, service_name }) => assert_eq!(
            (tap, formula, service_name),
            (Some("mongodb/brew"), "mongodb-community@7.0", Some("mongodb-community@7.0"))
        ),
        other => panic!("{:?}", other),
    }
}

#[test]
fn redis_conf_is_rewritten() {
    assert_eq!(
        homebrew::rewrite_redis_conf("", "/d", "/l/redis.log"),
        "dir /d\nlogfile /l/redis.log\nappendonly no\nloglevel notice\n"
    );
    assert_eq!(
        homebrew::rewrite_redis_conf("port 6379\n  dir /old\nlogfile \"\"\nsave 60 1", "/d", "/l"),
        "port 6379\ndir /d\nlogfile /l\nsave 60 1\n"
    );
    assert_eq!(
        homebrew::rewrite_redis_conf("port 6379\n# dir /x\ndirectory\n", "/d", "/l"),
        "port 6379\n# dir /x\ndirectory\ndir /d\nlogfile /l\n"
    );
    assert_eq!(homebrew::rewrite_redis_conf("logfile x\n", "/d", "/l"), "logfile /l\ndir /d\n");
    assert_eq!(homebrew::rewrite_redis_conf("\n", "/d", "/l"), "\ndir /d\nlogfile /l\n");
}

#[test]
fn what_is_set_up_before_a_formula_runs() {
    let c = homebrew::configure_database(&DatabaseType::Redis, "/opt/redis", "/store", 6379, "me", "port 1\n");
    assert_eq!(c.config_path, join("/opt/redis", &["etc", "redis.conf"]));
    assert_eq!(c.log_path, join("/store", &["logs", "redis", "redis.log"]));
    assert_eq!(
        c.directories,
        vec![join("/opt/redis", &["etc"]), join("/store", &["data", "redis"]), join("/store", &["logs", "redis"])]
    );
    assert_eq!(
        c.content,
        Some(format!(
            "port 1\ndir {}\nlogfile {}\n",
            join("/store", &["data", "redis"]),
            join("/store", &["logs", "redis", "redis.log"])
        ))
    );

    let c = homebrew::configure_database(&DatabaseType::MySQL, "/opt/mysql", "/store", 3307, "me", "");
    let data = join("/store", &["data", "mysql"]);
    assert_eq!(c.config_path, join("/opt/mysql", &["etc", "my.cnf"]));
    assert_eq!(
        c.content,
        Some(format!(
            "[mysqld]\n\tdatadir = {d}\n\tsocket = {s}\n\tlog-error = {l}\n\tpid-file = {p}\n\tport = 3307\n\tuser = me\n[client]\n\tsocket = {s}\n\tport = 3307\n",
            d = data,
            s = join(&data, &["mysql.sock"]),
            l = join("/store", &["logs", "mysql", "mysqld.log"]),
            p = join(&data, &["mysqld.pid"])
        ))
    );

    let c = homebrew::configure_database(&DatabaseType::PostgreSQL, "/opt/pg", "/store", 5433, "me", "");
    let content = c.content.unwrap();
    assert!(content.starts_with("# PostgreSQL configuration for local-db\n# Port configuration\nport = 5433\n\n# Connection settings\n"));
    assert!(content.contains(&format!("log_directory = '{}'\n", join("/store", &["logs", "postgresql"]))));
    assert!(content.ends_with("default_text_search_config = 'pg_catalog.english'\n"));
    assert_eq!(content.lines().count(), 34);
    let expected = format!(
        "# PostgreSQL configuration for local-db\n\
            # Port configuration\n\
            port = {}\n\
            \n\
            # Connection settings\n\
            listen_addresses = 'localhost'\n\
            max_connections = 100\n\
            \n\
            # Memory settings\n\
            shared_buffers = 128MB\n\
            effective_cache_size = 512MB\n\
            maintenance_work_mem = 32MB\n\
            checkpoint_completion_target = 0.9\n\
            wal_buffers = 4MB\n\
            default_statistics_target = 100\n\
            random_page_cost = 1.1\n\
            effective_io_concurrency = 200\n\
            work_mem = 2621kB\n\
            min_wal_size = 1GB\n\
            max_wal_size = 4GB\n\
            \n\
            # Logging\n\
            logging_collector = on\n\
            log_directory = '{}'\n\
            log_filename = 'postgresql-%Y-%m-%d_%H%M%S.log'\n\
            log_rotation_age = 1d\n\
            log_rotation_size = 100MB\n\
            log_line_prefix = '%t [%p]: [%l-1] user=%u,db=%d,app=%a,client=%h '\n\
            log_timezone = 'UTC'\n\
            \n\
            # Locale and encoding\n\
            datestyle = 'iso, mdy'\n\
            timezone = 'UTC'\n\
            default_text_search_config = 'pg_catalog.english'\n",
        5433,
        join("/store", &["logs", "postgresql"])
    );
    assert_eq!(content, expected);

    let c = homebrew::configure_database(&DatabaseType::SurrealDB, "/opt/s", "/store", 8001, "me", "");
    assert_eq!(c.config_path, join("/opt/s", &["etc", "surrealdb.env"]));
    assert_eq!(
        c.content,
        Some(format!(
            "# SurrealDB configuration for local-db\n# Data directory\nSURREAL_PATH={}\n# Server bind address\nSURREAL_BIND=0.0.0.0:8001\n# Log level\nSURREAL_LOG=info\n# Log file\nSURREAL_LOG_FILE={}\n",
            join("/store", &["data", "surrealdb"]),
            join("/store", &["logs", "surrealdb", "surrealdb.log"])
        ))
    );

    let c = homebrew::configure_database(&DatabaseType::MongoDB, "/opt/m", "/store", 1, "me", "");
    assert_eq!(c.content, None);
    assert_eq!(c.config_path, join("/opt/m", &["etc", "mongod.conf"]));
    assert_eq!(c.log_path, join("/store", &["logs", "mongodb", "mongod.log"]));
    assert_eq!(c.directories.len(), 2);
    assert_eq!(homebrew::config_formula(DatabaseType::MySQL), "mysql@8.4");
    assert_eq!(homebrew::config_formula(DatabaseType::Redis), "redis");
}

#[test]
fn how_data_directories_are_set_up_on_macos() {
    let (init, first_run) = homebrew::data_dir_setup(DatabaseType::MySQL, "/opt/m", "/d", "me");
    let init = init.unwrap();
    assert_eq!(init.condition, InitCondition::DirectoryEmpty("/d".to_string()));
    assert_eq!(init.invocation.program, join("/opt/m", &["bin", "mysqld"]));
    assert_eq!(init.invocation.args, vec!["--initialize-insecure", "--user=me", "--datadir=/d"]);
    assert!(first_run.is_empty());

    let (init, first_run) = homebrew::data_dir_setup(DatabaseType::PostgreSQL, "/opt/p", "/d", "me");
    let init = init.unwrap();
    assert_eq!(init.invocation.program, join("/opt/p", &["bin", "initdb"]));
    assert_eq!(
        init.invocation.args,
        vec!["-D", "/d", "--username=me", "--auth-local=trust", "--auth-host=trust", "--encoding=UTF8", "--no-locale"]
    );
    assert_eq!(first_run.len(), 3);
    assert_eq!(first_run[0].program, join("/opt/p", &["bin", "pg_ctl"]));
    assert_eq!(
        first_run[0].args,
        vec!["-D".to_string(), "/d".to_string(), "-l".to_string(), join("/d", &["logfile"]), "start".to_string(), "-w".to_string()]
    );
    assert_eq!(first_run[1].program, join("/opt/p", &["bin", "psql"]));
    assert_eq!(
        first_run[1].args,
        vec![
            "-U", "me", "-d", "postgres", "-c",
            "CREATE ROLE admin WITH LOGIN SUPERUSER CREATEDB CREATEROLE PASSWORD 'admin888';"
        ]
    );
    assert_eq!(first_run[2].args, vec!["-D", "/d", "stop", "-m", "fast"]);

    for t in [DatabaseType::Redis, DatabaseType::MongoDB, DatabaseType::Qdrant, DatabaseType::SurrealDB] {
        let (init, first_run) = homebrew::data_dir_setup(t, "/opt", "/d", "me");
        assert!(init.is_none());
        assert!(first_run.is_empty());
    }
    let c = homebrew::configure_database(&DatabaseType::MySQL, "/opt/mysql", "/store", 3307, "me", "");
    assert_eq!(
        c.initialization.unwrap().invocation.args[2],
        format!("--datadir={}", join("/store", &["data", "mysql"]))
    );
}

#[test]
fn the_record_of_a_formula() {
    let options = HomebrewInstallOptions {
        version: Some("asked"),
        port: None,
        username: None,
        password: Some("pw"),
        auto_start: true,
    };
    let configured =
        homebrew::configure_database(&DatabaseType::MySQL, "/opt/mysql@8.4", "/store", 3306, "me", "");
    let r = homebrew::homebrew_record(
        &DatabaseType::MySQL,
        "/store",
        &options,
        "/opt/mysql@8.4",
        "mysql@8.4 8.4.3\n",
        &configured,
        "id".to_string(),
        "now".to_string(),
    );
    assert_eq!(r.id, "id");
    assert_eq!(r.name, "MySQL");
    assert_eq!(r.version, "8.4.3");
    assert_eq!(r.install_path, "/opt/mysql@8.4");
    assert_eq!(r.data_path, join("/store", &["data", "mysql"]));
    assert_eq!(r.log_path, configured.log_path);
    assert_eq!(r.port, 3306);
    assert_eq!(r.username, Some("admin".to_string()));
    assert_eq!(r.password, Some("pw".to_string()));
    assert_eq!(r.config, Some(configured.config_path.clone()));
    assert_eq!(r.status, DatabaseStatus::Stopped);
    assert!(r.auto_start);
    assert_eq!(r.pid, None);
    assert_eq!((r.created_at.as_str(), r.updated_at.as_str()), ("now", "now"));

    let r = homebrew::homebrew_record(
        &DatabaseType::MySQL, "/store", &options, "/p", "", &configured, "i".to_string(), "n".to_string(),
    );
    assert_eq!(r.version, "asked");
    let r = homebrew::homebrew_record(
        &DatabaseType::MySQL,
        "/store",
        &HomebrewInstallOptions::default(),
        "/p",
        "mysql\n",
        &configured,
        "i".to_string(),
        "n".to_string(),
    );
    assert_eq!(r.version, "latest");
}

#[test]
fn how_engines_are_started_and_stopped_on_macos() {
    let mut q = record("q", DatabaseType::Qdrant, DatabaseStatus::Stopped);
    q.config = Some("/c/config.yaml".to_string());
    match homebrew::start_service_for_database(&q).unwrap() {
        ServiceAction::Spawn(plan) => {
            assert_eq!(plan.invocation.program, join("/opt/e", &["qdrant"]));
            assert_eq!(plan.invocation.args, vec!["--config-path", "/c/config.yaml"]);
            assert_eq!(plan.pid_file, Some(join("/store/data/e", &["qdrant.pid"])));
        }
        other => panic!("{:?}", other),
    }
    q.config = None;
    match homebrew::start_service_for_database(&q).unwrap() {
        ServiceAction::Spawn(plan) => assert_eq!(
            plan.invocation.args,
            vec!["--config-path".to_string(), join("/store/data", &["config", "qdrant", "config.yaml"])]
        ),
        other => panic!("{:?}", other),
    }
    q.data_path = "".to_string();
    assert_eq!(
        homebrew::start_service_for_database(&q),
        Err(LifecycleError::Provisioning("Config path missing".to_string()))
    );

    let s = record("s", DatabaseType::SurrealDB, DatabaseStatus::Stopped);
    assert_eq!(homebrew::start_service_for_database(&s), Ok(ServiceAction::SpawnSurrealDb));
    let (plan, log_file) = homebrew::start_surrealdb_process(&s, "/opt/homebrew/opt/surreal");
    assert_eq!(plan.invocation.program, join("/opt/homebrew/opt/surreal", &["bin", "surreal"]));
    assert_eq!(
        plan.invocation.args,
        vec![
            "start", "--bind", "0.0.0.0:8123", "--log", "info", "--user", "admin", "--pass",
            "admin888", "rocksdb:///store/data/e"
        ]
    );
    assert_eq!(plan.pid_file, Some(join("/store/data/e", &["surrealdb.pid"])));
    assert_eq!(log_file, join("/store/logs/e", &["surrealdb.log"]));

    let m = record("m", DatabaseType::MySQL, DatabaseStatus::Stopped);
    assert_eq!(
        homebrew::start_service_for_database(&m),
        Ok(ServiceAction::BrewService { name: "mysql@8.4".to_string() })
    );
    assert_eq!(
        homebrew::stop_service_for_database(&m),
        Ok(ServiceAction::BrewService { name: "mysql@8.4".to_string() })
    );
    assert_eq!(
        homebrew::stop_service_for_database(&s),
        Ok(ServiceAction::EndProcess { pid_file: join("/store/data/e", &["surrealdb.pid"]) })
    );
    let q = record("q", DatabaseType::Qdrant, DatabaseStatus::Running);
    assert_eq!(
        homebrew::stop_service_for_database(&q),
        Ok(ServiceAction::EndProcess { pid_file: join("/store/data/e", &["qdrant.pid"]) })
    );
}

#[test]
fn the_process_that_is_to_be_ended() {
    assert_eq!(homebrew::stop_pid("4711\n"), Ok(4711));
    assert_eq!(homebrew::stop_pid(" 4294967295 "), Ok(4294967295));
    for bad in ["", "-1", "-0", "4294967296", "1 2", "pid"] {
        assert_eq!(
            homebrew::stop_pid(bad),
            Err(LifecycleError::Provisioning("Invalid PID format".to_string())),
            "{:?}",
            bad
        );
    }
}

#[test]
fn finding_brew() {
    assert_eq!(homebrew::which_brew(true, "/opt/homebrew/bin/brew\n"), Some("/opt/homebrew/bin/brew".to_string()));
    assert_eq!(homebrew::which_brew(true, "\n"), None);
    assert_eq!(homebrew::which_brew(false, "/x\n"), None);
    assert_eq!(homebrew::brew_candidates(), vec!["/opt/homebrew/bin/brew", "/usr/local/bin/brew"]);
    let (fetch, run) = homebrew::install_homebrew_via_script("/tmp/homebrew-install.sh");
    assert_eq!(
        fetch,
        "curl -fsSL https://raw.githubusercontent.com/Homebrew/install/HEAD/install.sh -o /tmp/homebrew-install.sh"
    );
    assert_eq!(run, "NONINTERACTIVE=1 /bin/bash /tmp/homebrew-install.sh");
}

#[test]
fn service_names() {
    assert_eq!(homebrew::get_brew_service_name(&DatabaseType::Redis), "redis");
    assert_eq!(homebrew::get_brew_service_name(&DatabaseType::MySQL), "mysql");
    assert_eq!(homebrew::get_brew_service_name(&DatabaseType::PostgreSQL), "postgresql");
    assert_eq!(homebrew::get_brew_service_name(&DatabaseType::MongoDB), "mongodb-community@7.0");
    assert_eq!(homebrew::get_brew_service_name(&DatabaseType::Qdrant), "qdrant");
    assert_eq!(homebrew::get_brew_service_name(&DatabaseType::SurrealDB), "surreal");
}

#[test]
fn records_are_brought_up_to_the_service_list_at_startup() {
    let listing = "Name Status\nredis started\nmysql stopped\n";
    let mut state = state_with(vec![
        record("r", DatabaseType::Redis, DatabaseStatus::Stopped),
        record("m", DatabaseType::MySQL, DatabaseStatus::Running),
        record("p", DatabaseType::PostgreSQL, DatabaseStatus::Running),
    ]);
    homebrew::refresh_from_listing(&mut state, Some(listing), "t1");
    let r = state.get_database("r").unwrap();
    assert_eq!((r.status, r.pid, r.updated_at.as_str()), (DatabaseStatus::Running, None, "t1"));
    // Another service is started; the line of `mysql` says that it is not.
    let m = state.get_database("m").unwrap();
    assert_eq!((m.status, m.pid, m.updated_at.as_str()), (DatabaseStatus::Stopped, None, "t1"));
    let p = state.get_database("p").unwrap();
    assert_eq!((p.status, p.pid, p.updated_at.as_str()), (DatabaseStatus::Stopped, None, "t1"));

    let before = state.get_all_databases();
    homebrew::refresh_from_listing(&mut state, None, "t2");
    assert_eq!(state.get_all_databases(), before);

    let mut one = record("x", DatabaseType::Redis, DatabaseStatus::Running);
    homebrew::refresh_record(&mut one, Some("Name Status\nredis none\n"), "t3");
    assert_eq!((one.status, one.pid, one.updated_at.as_str()), (DatabaseStatus::Stopped, None, "t3"));
}

#[test]
fn engines_that_homebrew_has_installed_get_records() {
    assert_eq!(
        homebrew::get_installed_databases_from_homebrew(&vec![true, false, true, false, true]),
        vec![DatabaseType::Redis, DatabaseType::PostgreSQL, DatabaseType::SurrealDB]
    );
    assert_eq!(homebrew::get_installed_databases_from_homebrew(&vec![]), vec![]);
    assert_eq!(
        homebrew::get_installed_databases_from_homebrew(&vec![false, true]),
        vec![DatabaseType::MySQL]
    );
    assert_eq!(homebrew::sync_formulas().len(), 5);

    let info = homebrew::create_info_from_homebrew(
        DatabaseType::MySQL,
        "/store",
        true,
        Some("/opt/homebrew/opt/mysql\n"),
        Some("mysql 9.0.1\n"),
        "now".to_string(),
    );
    assert_eq!(info.id, "homebrew-sync-mysql");
    assert_eq!(info.name, "MySQL");
    assert_eq!(info.version, "9.0.1");
    assert_eq!(info.install_path, "/opt/homebrew/opt/mysql");
    assert_eq!(info.data_path, join("/store", &["data", "mysql"]));
    assert_eq!(info.log_path, join("/store", &["logs", "mysql"]));
    assert_eq!(info.port, 3306);
    assert_eq!(info.username, Some("root".to_string()));
    assert_eq!(info.password, None);
    assert_eq!(info.config, Some(join("/opt/homebrew/opt/mysql", &["etc", "my.cnf"])));
    assert_eq!(info.status, DatabaseStatus::Running);
    assert!(!info.auto_start);

    let info = homebrew::create_info_from_homebrew(
        DatabaseType::MongoDB, "/store", false, None, None, "now".to_string(),
    );
    assert_eq!(info.install_path, "/usr/local/opt/mongodb-community@7.0");
    assert_eq!(info.version, "latest");
    assert_eq!(info.username, None);
    assert_eq!(info.status, DatabaseStatus::Stopped);
    assert_eq!(info.config, Some(join("/usr/local/opt/mongodb-community@7.0", &["etc", "mongod.conf"])));

    let mut state = state_with(vec![record("r", DatabaseType::Redis, DatabaseStatus::Stopped)]);
    let findings = vec![
        HomebrewFinding { db_type: DatabaseType::Redis, prefix: None, versions: None },
        HomebrewFinding {
            db_type: DatabaseType::PostgreSQL,
            prefix: Some("/p\n".to_string()),
            versions: Some("postgresql 17.1".to_string()),
        },
    ];
    homebrew::sync_with_homebrew(
        &mut state,
        &findings,
        "/store",
        Some("Name Status\nredis stopped\npostgresql started\n"),
        "now",
    );
    assert_eq!(state.get_all_databases().len(), 2);
    assert_eq!(state.get_database("r").unwrap(), record("r", DatabaseType::Redis, DatabaseStatus::Stopped));
    let pg = state.get_database("homebrew-sync-postgresql").unwrap();
    assert_eq!(pg.status, DatabaseStatus::Running);
    assert_eq!(pg.version, "17.1");
    assert_eq!(pg.username, Some("postgres".to_string()));
    homebrew::sync_with_homebrew(&mut state, &findings, "/store", None, "later");
    assert_eq!(state.get_database("homebrew-sync-postgresql").unwrap(), pg);

    // Another service is started; PostgreSQL has a line of its own, and is not.
    let mut state = state_with(vec![]);
    homebrew::sync_with_homebrew(
        &mut state,
        &findings,
        "/store",
        Some("Name Status\nredis started\npostgresql none\n"),
        "now",
    );
    assert_eq!(state.get_database("homebrew-sync-redis").unwrap().status, DatabaseStatus::Running);
    assert_eq!(
        state.get_database("homebrew-sync-postgresql").unwrap().status,
        DatabaseStatus::Stopped
    );
}

#[test]
fn the_steps_of_a_first_run() {
    assert!(homebrew::first_run_due(true, &vec![true, true, true]));
    assert!(homebrew::first_run_due(true, &vec![]));
    assert!(!homebrew::first_run_due(true, &vec![true, false, true]));
    assert!(!homebrew::first_run_due(true, &vec![false, true, false]));
    assert!(!homebrew::first_run_due(false, &vec![true, true, true]));
    assert_eq!(homebrew::first_run_wait(0), 2);
    assert_eq!(homebrew::first_run_wait(1), 0);
    assert_eq!(homebrew::first_run_wait(2), 0);
    assert_eq!(homebrew::FIRST_RUN_WAIT_SECS, 2);
}

#[test]
fn how_an_installation_by_formula_ends() {
    let mut started = record("m", DatabaseType::MySQL, DatabaseStatus::Stopped);
    started.auto_start = true;
    let mut runs = started.clone();
    runs.status = DatabaseStatus::Running;
    assert_eq!(
        homebrew::conclude_formula_install(started.clone(), Some("mysql"), StartReport::Started),
        Ok(runs.clone())
    );
    assert_eq!(
        homebrew::conclude_formula_install(
            started.clone(),
            Some("mysql"),
            StartReport::Failed("no".to_string())
        ),
        Err(LifecycleError::Provisioning("no".to_string()))
    );
    // An engine that runs as a process of its own is installed all the same.
    assert_eq!(
        homebrew::conclude_formula_install(
            started.clone(),
            None,
            StartReport::Failed("no".to_string())
        ),
        Ok(started.clone())
    );
    assert_eq!(
        homebrew::conclude_formula_install(started.clone(), None, StartReport::Started),
        Ok(runs)
    );
    let manual = record("m", DatabaseType::MySQL, DatabaseStatus::Stopped);
    for service in [Some("mysql"), None] {
        assert_eq!(
            homebrew::conclude_formula_install(manual.clone(), service, StartReport::NotAsked),
            Ok(manual.clone())
        );
        assert_eq!(
            homebrew::conclude_formula_install(manual.clone(), service, StartReport::Started),
            Ok(manual.clone())
        );
    }
}
