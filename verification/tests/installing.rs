use local_db::install::{self, InstallRequest};
use local_db::linux::{self, LinuxInstallOptions};
use local_db::provision::{
    self, Arch, FetchStep, InitCondition, InitStep, Initialization, Invocation, StartAction,
    StartReport, Unpacking,
};
use local_db::state::AppStateData;
use local_db::{
    AppState, DatabaseInfo, DatabaseStatus, DatabaseType, GlobalSettings, InstallDatabaseParams,
    LifecycleError, TaskStatus,
};

fn empty_state() -> AppState {
    AppState::new(AppStateData {
        databases: Vec::new(),
        settings: GlobalSettings::with_storage_path("/store".to_string()),
    })
}

fn params(db_type: &str) -> InstallDatabaseParams {
    InstallDatabaseParams {
        db_type: db_type.to_string(),
        version: Some("9.9".to_string()),
        port: None,
        username: Some("u".to_string()),
        password: None,
    }
}

fn installed(id: &str, db_type: DatabaseType) -> DatabaseInfo {
    provision::new_record(
        id.to_string(),
        db_type.display_name(),
        db_type,
        "1".to_string(),
        "/i".to_string(),
        "/d".to_string(),
        "/l".to_string(),
        provision::port_or_default(None, db_type),
        None,
        None,
        None,
        false,
        "t0".to_string(),
    )
}

fn accepted(state: &mut AppState, db_type: &str) -> InstallRequest {
    install::request_install(state, params(db_type), "77", "t0".to_string()).unwrap()
}

#[test]
fn an_installation_that_is_accepted_gets_a_pending_task() {
    let mut state = empty_state();
    let request = accepted(&mut state, "mysql");
    assert_eq!(request.task_id, "install-mysql-77");
    assert_eq!(request.db_type, DatabaseType::MySQL);
    assert_eq!(request.storage_path, "/store");
    assert_eq!(request.version, Some("9.9".to_string()));
    assert_eq!(request.port, None);
    assert_eq!(request.username, Some("u".to_string()));
    assert_eq!(request.password, None);
    let task = state.get_task("install-mysql-77").unwrap();
    assert_eq!(task.id, "install-mysql-77");
    assert_eq!(task.task_type, "install");
    assert_eq!(task.db_type, "mysql");
    assert_eq!(task.status, TaskStatus::Pending);
    assert_eq!(task.progress, 0);
    assert_eq!(task.message, "Installation pending...");
    assert_eq!(task.error, None);
    assert_eq!(task.created_at, "t0");
    assert_eq!(task.updated_at, "t0");
    assert!(state.get_all_databases().is_empty());
}

#[test]
fn an_installation_gets_a_fresh_task_id() {
    let mut state = empty_state();
    let request = install::install_database(&mut state, params("redis")).unwrap();
    assert!(request.task_id.starts_with("install-redis-"));
    assert!(request.task_id.len() > "install-redis-".len());
    assert_eq!(state.get_task(&request.task_id).unwrap().status, TaskStatus::Pending);
}

#[test]
fn an_engine_that_is_installed_is_not_installed_again() {
    let mut state = empty_state();
    assert!(state.add_database(installed("m", DatabaseType::MySQL)).is_ok());
    assert_eq!(
        install::request_install(&mut state, params("mysql"), "1", "t".to_string()).err(),
        Some(LifecycleError::Conflict("Database type already installed".to_string()))
    );
    assert_eq!(
        install::install_database(&mut state, params("mysql")).err(),
        Some(LifecycleError::Conflict("Database type already installed".to_string()))
    );
    assert!(state.get_all_tasks().is_empty());
}

#[test]
fn an_unknown_engine_is_not_installed() {
    let mut state = empty_state();
    assert_eq!(
        install::request_install(&mut state, params("neo4j"), "1", "t".to_string()).err(),
        Some(LifecycleError::InvalidState("Unsupported database type".to_string()))
    );
    assert!(state.get_all_tasks().is_empty());
}

#[test]
fn progress_is_reported_and_ticks_on() {
    let mut state = empty_state();
    let request = accepted(&mut state, "redis");
    let id = request.task_id.as_str();
    // A task that does not run yet is not ticked.
    assert_eq!(install::tick_install_progress(&mut state, id, 2, "t1".to_string()), None);
    let shown =
        install::report_install_progress(&mut state, id, 0, "Starting installation...", "t1".to_string())
            .unwrap();
    assert_eq!(shown.status, TaskStatus::Running);
    assert_eq!(shown.progress, 0);
    assert_eq!(shown.message, "Starting installation...");
    assert_eq!(shown.updated_at, "t1");
    assert_eq!(shown.created_at, "t0");
    assert_eq!(state.get_task(id), Some(shown));

    let mut progress = 0u8;
    let mut ticks = 0;
    while progress < install::PROGRESS_CEILING {
        progress = install::next_progress(progress);
        let shown = install::tick_install_progress(&mut state, id, progress, "t2".to_string());
        assert_eq!(shown.unwrap().progress, progress);
        ticks += 1;
    }
    assert_eq!(ticks, 49);
    assert_eq!(state.get_task(id).unwrap().progress, 98);
    assert_eq!(state.get_task(id).unwrap().message, "Starting installation...");
    assert_eq!(install::next_progress(0), 2);
    assert_eq!(install::next_progress(95), 97);
    assert_eq!(install::next_progress(96), 98);
    assert_eq!(install::next_progress(97), 98);
    assert_eq!(install::next_progress(98), 98);
    assert_eq!(install::next_progress(255), 98);

    assert_eq!(install::report_install_progress(&mut state, "none", 1, "m", "t".to_string()), None);
    assert_eq!(install::tick_install_progress(&mut state, "none", 1, "t".to_string()), None);
}

#[test]
fn an_installation_that_went_well_adds_its_record() {
    let mut state = empty_state();
    let request = accepted(&mut state, "mysql");
    let shown = install::finish_install(
        &mut state,
        &request.task_id,
        Ok(installed("m1", DatabaseType::MySQL)),
        "t9".to_string(),
    )
    .unwrap();
    assert_eq!(shown.status, TaskStatus::Completed);
    assert_eq!(shown.progress, 100);
    assert_eq!(shown.message, "Installation completed successfully");
    assert_eq!(shown.error, None);
    assert_eq!(shown.updated_at, "t9");
    assert_eq!(state.get_task(&request.task_id), Some(shown));
    assert_eq!(state.get_database("m1"), Some(installed("m1", DatabaseType::MySQL)));
    // A task that is over is not ticked any more.
    assert_eq!(install::tick_install_progress(&mut state, &request.task_id, 50, "t".to_string()), None);
}

#[test]
fn an_installation_that_failed_leaves_no_record() {
    let mut state = empty_state();
    let request = accepted(&mut state, "mysql");
    let shown = install::finish_install(
        &mut state,
        &request.task_id,
        Err("network unreachable".to_string()),
        "t9".to_string(),
    )
    .unwrap();
    assert_eq!(shown.status, TaskStatus::Failed);
    assert_eq!(shown.message, "Installation failed");
    assert_eq!(shown.error, Some("Installation failed: network unreachable".to_string()));
    assert_eq!(shown.progress, 0);
    assert!(state.get_all_databases().is_empty());
}

#[test]
fn an_installation_whose_record_is_refused_fails() {
    let mut state = empty_state();
    let request = accepted(&mut state, "mysql");
    assert!(state.add_database(installed("other", DatabaseType::MySQL)).is_ok());
    let shown = install::finish_install(
        &mut state,
        &request.task_id,
        Ok(installed("m1", DatabaseType::MySQL)),
        "t9".to_string(),
    )
    .unwrap();
    assert_eq!(shown.status, TaskStatus::Failed);
    assert_eq!(shown.message, "Installation completed but failed to register");
    assert_eq!(
        shown.error,
        Some(
            "Failed to add database to state: Database type already exists: mysql (id=other)"
                .to_string()
        )
    );
    assert_eq!(state.get_all_databases().len(), 1);
    assert!(state.get_database("m1").is_none());
}

#[test]
fn an_installation_whose_task_is_gone_still_adds_its_record() {
    let mut state = empty_state();
    let shown = install::finish_install(
        &mut state,
        "gone",
        Ok(installed("m1", DatabaseType::MySQL)),
        "t9".to_string(),
    );
    assert_eq!(shown, None);
    assert!(state.get_database("m1").is_some());
    assert!(state.get_all_tasks().is_empty());
}

#[test]
fn mysql_without_a_port_gets_the_well_known_one() {
    for auto_start in [false, true] {
        let mut state = empty_state();
        let request = accepted(&mut state, "mysql");
        let options = LinuxInstallOptions {
            version: request.version.as_deref(),
            port: request.port,
            username: request.username.as_deref(),
            password: request.password.as_deref(),
            auto_start,
        };
        let plan = linux::install_database(
            &request.db_type,
            &request.storage_path,
            &options,
            Arch::X86_64,
        )
        .unwrap();
        assert_eq!(plan.record.port, 3306);
        assert_eq!(plan.record.status, DatabaseStatus::Stopped);
        let start = if plan.auto_start { StartReport::Started } else { StartReport::NotAsked };
        let record = provision::conclude_install(plan.record, start, false).unwrap();
        let shown =
            install::finish_install(&mut state, &request.task_id, Ok(record), "t".to_string());
        assert_eq!(shown.unwrap().status, TaskStatus::Completed);
        let all = state.get_all_databases();
        assert_eq!(all.iter().filter(|d| d.db_type == DatabaseType::MySQL).count(), 1);
        let mysql = &all[0];
        assert_eq!(mysql.port, 3306);
        assert_eq!(mysql.auto_start, auto_start);
        assert_eq!(
            mysql.status,
            if auto_start { DatabaseStatus::Running } else { DatabaseStatus::Stopped }
        );
    }
}

#[test]
fn how_an_installation_is_concluded() {
    let mut record = installed("q", DatabaseType::Qdrant);
    record.auto_start = true;
    assert_eq!(
        provision::conclude_install(record.clone(), StartReport::NotAsked, false),
        Ok(record.clone())
    );
    let started = provision::conclude_install(record.clone(), StartReport::Started, false).unwrap();
    assert_eq!(started.status, DatabaseStatus::Running);
    assert_eq!(started.id, "q");
    assert!(started.auto_start);
    assert_eq!(
        provision::conclude_install(record.clone(), StartReport::Failed("boom".to_string()), false),
        Err(LifecycleError::Provisioning("boom".to_string()))
    );
    assert_eq!(
        provision::conclude_install(record.clone(), StartReport::Failed("boom".to_string()), true),
        Ok(record)
    );
}

#[test]
fn an_engine_that_is_not_to_start_by_itself_stays_stopped() {
    let record = installed("q", DatabaseType::Qdrant);
    assert!(!record.auto_start);
    for lenient in [false, true] {
        for start in [
            StartReport::NotAsked,
            StartReport::Started,
            StartReport::Failed("boom".to_string()),
        ] {
            let done = provision::conclude_install(record.clone(), start, lenient).unwrap();
            assert_eq!(done, record);
            assert_eq!(done.status, DatabaseStatus::Stopped);
        }
    }
}

#[test]
fn how_an_engine_is_started_after_its_installation() {
    assert_eq!(provision::start_after_install(false, Some("mysql")), StartAction::NoStart);
    assert_eq!(provision::start_after_install(false, None), StartAction::NoStart);
    assert_eq!(
        provision::start_after_install(true, Some("mysql@8.4")),
        StartAction::RestartService("mysql@8.4".to_string())
    );
    assert_eq!(
        provision::start_after_install(true, None),
        StartAction::StartProcess { lenient: true }
    );
    assert!(!StartAction::NoStart.lenient());
    assert!(!StartAction::RestartService("redis".to_string()).lenient());
    assert!(StartAction::StartProcess { lenient: true }.lenient());
    assert!(!StartAction::StartProcess { lenient: false }.lenient());
}

#[test]
fn how_a_plan_fetches_and_starts_its_engine() {
    for auto_start in [false, true] {
        let options = LinuxInstallOptions {
            version: None,
            port: None,
            username: None,
            password: None,
            auto_start,
        };
        let plan =
            linux::install_database(&DatabaseType::Qdrant, "/store", &options, Arch::X86_64).unwrap();
        assert!(!plan.record.id.is_empty());
        assert!(plan.record.id.chars().all(|c| c.is_ascii_digit()));
        assert_eq!(provision::fetch_step(&plan, false, true), FetchStep::Skip);
        assert_eq!(provision::fetch_step(&plan, true, true), FetchStep::Skip);
        let archive = plan.archive_path.clone().unwrap();
        assert!(archive.ends_with("qdrant.tar.gz"));
        assert_eq!(
            provision::fetch_step(&plan, false, false),
            FetchStep::Fetch(Unpacking::Archive(archive))
        );
        let expected = if auto_start {
            StartAction::StartProcess { lenient: false }
        } else {
            StartAction::NoStart
        };
        assert_eq!(provision::start_of_plan(&plan, false), expected);
        let expected = if auto_start {
            StartAction::StartProcess { lenient: true }
        } else {
            StartAction::NoStart
        };
        assert_eq!(provision::start_of_plan(&plan, true), expected);

        let mut held = plan;
        held.archive_path = None;
        assert_eq!(provision::fetch_step(&held, true, false), FetchStep::Fetch(Unpacking::BinaryEntry));
        assert_eq!(provision::fetch_step(&held, false, false), FetchStep::Fetch(Unpacking::Zip));
        assert_eq!(provision::fetch_step(&held, false, true), FetchStep::Skip);
    }
}

#[test]
fn what_was_asked_for_or_what_is_usual() {
    assert_eq!(provision::port_or_default(Some(1234), DatabaseType::Redis), 1234);
    assert_eq!(provision::port_or_default(None, DatabaseType::Redis), 6379);
    assert_eq!(provision::or_default(Some("me"), "root"), "me");
    assert_eq!(provision::or_default(None, "root"), "root");
    assert_eq!(provision::owned(Some("x")), Some("x".to_string()));
    assert_eq!(provision::owned(None), None);
}

#[test]
fn when_a_data_directory_is_set_up() {
    let init = Initialization {
        condition: InitCondition::DirectoryEmpty("/store/data/mysql".to_string()),
        invocation: Invocation {
            program: "/store/bin/mysql/bin/mysqld".to_string(),
            args: vec!["--initialize-insecure".to_string()],
        },
    };
    for program_exists in [false, true] {
        for condition_holds in [false, true] {
            assert_eq!(provision::init_step(None, program_exists, condition_holds), InitStep::Nothing);
        }
    }
    for condition_holds in [false, true] {
        assert_eq!(
            provision::init_step(Some(&init), false, condition_holds),
            InitStep::Refuse("/store/bin/mysql/bin/mysqld not found".to_string())
        );
    }
    assert_eq!(provision::init_step(Some(&init), true, true), InitStep::Run);
    assert_eq!(provision::init_step(Some(&init), true, false), InitStep::Nothing);
}
