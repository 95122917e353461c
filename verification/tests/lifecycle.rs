use local_db::command::{self, DeleteStep, RestartStep, RESTART_COOLDOWN_SECS};
use local_db::manager::{self, FIRST_MOCK_PID};
use local_db::state::AppStateData;
use local_db::{
    AppState, AsyncTask, DatabaseInfo, DatabaseManager, DatabaseStatus, DatabaseType,
    GlobalSettings, LifecycleError, TaskStatus,
};

fn record(id: &str, db_type: DatabaseType, status: DatabaseStatus) -> DatabaseInfo {
    DatabaseInfo {
        id: id.to_string(),
        name: db_type.display_name().to_string(),
        db_type,
        version: "1.0".to_string(),
        install_path: format!("/store/bin/{}", db_type.as_str()),
        data_path: format!("/store/data/{}", db_type.as_str()),
        log_path: format!("/store/logs/{}", db_type.as_str()),
        port: db_type.default_port(),
        username: None,
        password: Some("secret".to_string()),
        config: None,
        status,
        auto_start: false,
        pid: None,
        created_at: "2024-01-01T00:00:00+00:00".to_string(),
        updated_at: "2024-01-01T00:00:00+00:00".to_string(),
    }
}

fn empty_state() -> AppState {
    AppState::new(AppStateData {
        databases: Vec::new(),
        settings: GlobalSettings::with_storage_path("/store".to_string()),
    })
}

fn never_stopped(_: DatabaseInfo) -> Result<(), String> {
    panic!("nothing is stopped")
}

fn state_with(records: Vec<DatabaseInfo>) -> AppState {
    AppState::new(AppStateData {
        databases: records,
        settings: GlobalSettings::with_storage_path("/store".to_string()),
    })
}

fn count_of(state: &AppState, db_type: DatabaseType) -> usize {
    state.get_all_databases().iter().filter(|d| d.db_type == db_type).count()
}

fn task(id: &str) -> AsyncTask {
    AsyncTask {
        id: id.to_string(),
        task_type: "install".to_string(),
        db_type: "redis".to_string(),
        status: TaskStatus::Pending,
        progress: 0,
        message: "waiting".to_string(),
        error: None,
        created_at: "t0".to_string(),
        updated_at: "t0".to_string(),
    }
}

#[test]
fn a_fresh_state_is_empty() {
    let state = empty_state();
    assert!(state.get_all_databases().is_empty());
    assert!(state.get_all_tasks().is_empty());
    assert_eq!(state.get_settings().default_storage_path, "/store");
    assert_eq!(state.db_manager.storage_path(), "/store");
    assert_eq!(state.get_database("x"), None);
}

#[test]
fn adding_and_getting() {
    let mut state = empty_state();
    let r = record("1", DatabaseType::Redis, DatabaseStatus::Stopped);
    assert_eq!(state.add_database(r.clone()), Ok(()));
    assert_eq!(state.get_database("1"), Some(r.clone()));
    assert_eq!(state.get_database("2"), None);
    assert_eq!(state.get_database_by_type("redis"), Some(r.clone()));
    assert_eq!(state.get_database_by_type("mysql"), None);
    assert_eq!(state.get_database_by_type("Redis"), None);
    assert_eq!(state.get_all_databases(), vec![r]);
}

#[test]
fn adding_a_taken_id_is_a_conflict() {
    let mut state = empty_state();
    assert_eq!(state.add_database(record("1", DatabaseType::Redis, DatabaseStatus::Stopped)), Ok(()));
    let outcome = state.add_database(record("1", DatabaseType::MySQL, DatabaseStatus::Stopped));
    assert_eq!(
        outcome,
        Err(LifecycleError::Conflict("Database id already exists: 1".to_string()))
    );
    assert_eq!(state.get_all_databases().len(), 1);
    assert_eq!(state.get_database("1").unwrap().db_type, DatabaseType::Redis);
}

#[test]
fn adding_a_taken_engine_is_a_conflict() {
    let mut state = empty_state();
    assert_eq!(state.add_database(record("1", DatabaseType::Redis, DatabaseStatus::Stopped)), Ok(()));
    let outcome = state.add_database(record("2", DatabaseType::Redis, DatabaseStatus::Stopped));
    assert_eq!(
        outcome,
        Err(LifecycleError::Conflict("Database type already exists: redis (id=1)".to_string()))
    );
    assert_eq!(state.get_database("2"), None);
    assert_eq!(count_of(&state, DatabaseType::Redis), 1);
}

#[test]
fn redis_then_mysql_then_redis_again() {
    // By the id-based way in, the second Redis is refused.
    let mut state = empty_state();
    assert!(state.add_database(record("r1", DatabaseType::Redis, DatabaseStatus::Stopped)).is_ok());
    assert!(state.add_database(record("m1", DatabaseType::MySQL, DatabaseStatus::Stopped)).is_ok());
    let refused = state.add_database(record("r2", DatabaseType::Redis, DatabaseStatus::Stopped));
    assert!(matches!(refused, Err(LifecycleError::Conflict(_))));
    assert_eq!(count_of(&state, DatabaseType::Redis), 1);
    assert!(state.get_database("r1").is_some());
    assert!(state.get_database("m1").is_some());

    // By the update, the second Redis evicts the first.
    state.update_database(record("r2", DatabaseType::Redis, DatabaseStatus::Stopped));
    assert_eq!(count_of(&state, DatabaseType::Redis), 1);
    assert_eq!(count_of(&state, DatabaseType::MySQL), 1);
    assert!(state.get_database("r1").is_none());
    assert!(state.get_database("r2").is_some());
    assert_eq!(state.get_all_databases().len(), 2);
}

#[test]
fn an_update_in_place_changes_one_record() {
    let mut state = state_with(vec![
        record("r", DatabaseType::Redis, DatabaseStatus::Stopped),
        record("m", DatabaseType::MySQL, DatabaseStatus::Stopped),
    ]);
    let mut changed = record("r", DatabaseType::Redis, DatabaseStatus::Running);
    changed.port = 7000;
    state.update_database(changed.clone());
    assert_eq!(state.get_database("r"), Some(changed));
    assert_eq!(
        state.get_database("m"),
        Some(record("m", DatabaseType::MySQL, DatabaseStatus::Stopped))
    );
    assert_eq!(state.get_all_databases().len(), 2);
}

#[test]
fn an_update_that_changes_the_engine_of_an_id_evicts_the_holder() {
    let mut state = state_with(vec![
        record("a", DatabaseType::Redis, DatabaseStatus::Stopped),
        record("b", DatabaseType::MySQL, DatabaseStatus::Stopped),
    ]);
    state.update_database(record("a", DatabaseType::MySQL, DatabaseStatus::Stopped));
    let all = state.get_all_databases();
    assert_eq!(all.len(), 1);
    assert_eq!(all[0].id, "a");
    assert_eq!(all[0].db_type, DatabaseType::MySQL);
}

#[test]
fn removing() {
    let mut state = state_with(vec![record("r", DatabaseType::Redis, DatabaseStatus::Stopped)]);
    assert_eq!(state.remove_database("x"), None);
    assert_eq!(
        state.remove_database("r"),
        Some(record("r", DatabaseType::Redis, DatabaseStatus::Stopped))
    );
    assert!(state.get_all_databases().is_empty());
    assert_eq!(state.remove_database("r"), None);
}

#[test]
fn at_most_one_record_of_each_engine_whatever_is_done() {
    let types = [
        DatabaseType::MySQL,
        DatabaseType::PostgreSQL,
        DatabaseType::MongoDB,
        DatabaseType::Redis,
        DatabaseType::Qdrant,
        DatabaseType::SurrealDB,
    ];
    let mut state = empty_state();
    let mut seed: u32 = 12345;
    for step in 0..400 {
        seed = seed.wrapping_mul(1103515245).wrapping_add(12345);
        let t = types[(seed >> 8) as usize % types.len()];
        let id = format!("id{}", (seed >> 16) % 9);
        match step % 3 {
            0 => {
                let _ = state.add_database(record(&id, t, DatabaseStatus::Stopped));
            }
            1 => state.update_database(record(&id, t, DatabaseStatus::Stopped)),
            _ => {
                let _ = state.remove_database(&id);
            }
        }
        let all = state.get_all_databases();
        for t in types {
            assert!(all.iter().filter(|d| d.db_type == t).count() <= 1);
        }
        for d in &all {
            assert_eq!(all.iter().filter(|e| e.id == d.id).count(), 1);
        }
    }
}

#[test]
fn what_is_written_out_is_read_back() {
    let mut state = empty_state();
    let mut r = record("r", DatabaseType::Redis, DatabaseStatus::Running);
    r.pid = Some(4711);
    r.username = Some("admin".to_string());
    r.config = Some("/etc/redis.conf".to_string());
    r.auto_start = true;
    state.update_database(r);
    state.update_database(record("m", DatabaseType::MySQL, DatabaseStatus::Stopped));
    state.update_database(record("q", DatabaseType::Qdrant, DatabaseStatus::NotInstalled));
    let written = state.snapshot();
    let expected = state.get_all_databases();
    assert_eq!(written.databases, expected);
    assert_eq!(written.settings, state.get_settings());
    let read = AppState::new(written);
    assert_eq!(read.get_all_databases(), expected);
    assert_eq!(read.get_settings(), state.get_settings());
}

#[test]
fn reading_a_file_with_two_records_of_one_engine_keeps_the_later() {
    let state = state_with(vec![
        record("r1", DatabaseType::Redis, DatabaseStatus::Stopped),
        record("m", DatabaseType::MySQL, DatabaseStatus::Stopped),
        record("r2", DatabaseType::Redis, DatabaseStatus::Running),
    ]);
    assert_eq!(state.get_all_databases().len(), 2);
    assert!(state.get_database("r1").is_none());
    assert_eq!(state.get_database("r2").unwrap().status, DatabaseStatus::Running);
}

#[test]
fn tasks_come_and_go() {
    let mut state = empty_state();
    state.add_task(task("t1"));
    state.add_task(task("t2"));
    assert_eq!(state.get_task("t1"), Some(task("t1")));
    assert_eq!(state.get_task("t3"), None);
    assert_eq!(state.get_all_tasks(), vec![task("t1"), task("t2")]);
    state.update_task("t1", |mut t| {
        t.progress = 40;
        t.status = TaskStatus::Running;
        t
    });
    let changed = state.get_task("t1").unwrap();
    assert_eq!(changed.progress, 40);
    assert_eq!(changed.status, TaskStatus::Running);
    assert_ne!(changed.updated_at, "t0");
    assert_eq!(changed.created_at, "t0");
    state.update_task("missing", |mut t| {
        t.progress = 99;
        t
    });
    assert_eq!(state.get_all_tasks().len(), 2);
    state.remove_task("t1");
    assert_eq!(state.get_task("t1"), None);
    assert_eq!(state.get_all_tasks(), vec![task("t2")]);
    assert_eq!(command::get_task_status(&state, "t2"), Some(task("t2")));
}

#[test]
fn settings_are_replaced_as_a_whole() {
    let mut state = empty_state();
    let mut s = GlobalSettings::with_storage_path("/elsewhere".to_string());
    s.theme = "dark".to_string();
    let answer = command::update_settings(&mut state, s.clone());
    assert!(answer.success);
    assert_eq!(answer.message, "Settings updated successfully");
    assert_eq!(command::get_settings(&state), s);
}

#[test]
fn the_manager_starts_a_stopped_record() {
    let mut manager = DatabaseManager::new("/store");
    let mut r = record("r", DatabaseType::Redis, DatabaseStatus::Stopped);
    assert!(manager.is_installed(&r));
    assert_eq!(manager.get_status(&r), DatabaseStatus::Stopped);
    let answer = manager.start_database(&mut r).unwrap();
    assert!(answer.success);
    assert_eq!(answer.message, "Redis started successfully");
    assert_eq!(r.status, DatabaseStatus::Running);
    assert_eq!(r.pid, Some(FIRST_MOCK_PID));
    assert_ne!(r.updated_at, "2024-01-01T00:00:00+00:00");
    assert_eq!(manager.get_status(&r), DatabaseStatus::Running);

    let mut m = record("m", DatabaseType::MySQL, DatabaseStatus::Stopped);
    manager.start_database(&mut m).unwrap();
    assert_eq!(m.pid, Some(FIRST_MOCK_PID + 1));
}

#[test]
fn starting_a_running_record_is_refused_and_changes_nothing() {
    let mut manager = DatabaseManager::new("/store");
    let mut r = record("r", DatabaseType::Redis, DatabaseStatus::Running);
    r.pid = Some(77);
    let before = r.clone();
    assert_eq!(
        manager.start_database(&mut r),
        Err(LifecycleError::InvalidState("Database is already running".to_string()))
    );
    assert_eq!(r, before);
}

#[test]
fn starting_a_record_that_is_not_installed_is_refused() {
    let mut manager = DatabaseManager::new("/store");
    let mut r = record("r", DatabaseType::Redis, DatabaseStatus::NotInstalled);
    let before = r.clone();
    assert!(!manager.is_installed(&r));
    assert_eq!(manager.get_status(&r), DatabaseStatus::NotInstalled);
    assert_eq!(
        manager.start_database(&mut r),
        Err(LifecycleError::InvalidState("Database is not installed".to_string()))
    );
    assert_eq!(r, before);
}

#[test]
fn stopping_a_stopped_record_is_refused_and_changes_nothing() {
    let mut manager = DatabaseManager::new("/store");
    let mut r = record("r", DatabaseType::Redis, DatabaseStatus::Stopped);
    let before = r.clone();
    assert_eq!(
        manager.stop_database(&mut r),
        Err(LifecycleError::InvalidState("Database is not running".to_string()))
    );
    assert_eq!(r, before);
}

#[test]
fn the_manager_stops_a_running_record() {
    let mut manager = DatabaseManager::new("/store");
    let mut r = record("r", DatabaseType::Redis, DatabaseStatus::Stopped);
    manager.start_database(&mut r).unwrap();
    let answer = manager.stop_database(&mut r).unwrap();
    assert!(answer.success);
    assert_eq!(answer.message, "Redis stopped successfully");
    assert_eq!(r.status, DatabaseStatus::Stopped);
    assert_eq!(r.pid, None);
    assert_eq!(manager.get_status(&r), DatabaseStatus::Stopped);
}

#[test]
fn the_storage_layout_has_five_directories() {
    let manager = DatabaseManager::new("/store");
    let join = |d: &str| std::path::Path::new("/store").join(d).to_string_lossy().to_string();
    assert_eq!(
        manager.init_directories(),
        vec![join("bin"), join("config"), join("data"), join("logs"), join("backups")]
    );
}

#[test]
fn commands_report_a_missing_record() {
    let mut state = empty_state();
    for answer in [
        command::start_database(&mut state, "x"),
        command::stop_database(&mut state, "x"),
        command::resume_restart(&mut state, "x", |_| -> Result<Option<u32>, String> {
            panic!("nothing is started")
        }),
        command::update_database_autostart(&mut state, "x", true),
    ] {
        assert!(!answer.success);
        assert_eq!(answer.message, "Database not found");
        assert_eq!(answer.data, None);
    }
    assert_eq!(command::get_database_status(&state, "x"), None);
    assert_eq!(command::begin_start(&state, "x"), Err(LifecycleError::NotFound));
    assert_eq!(command::begin_stop(&state, "x"), Err(LifecycleError::NotFound));
    match command::delete_database(&mut state, "x", true, never_stopped) {
        DeleteStep::Finished(answer) => {
            assert!(!answer.success);
            assert_eq!(answer.message, "Database not found");
        }
        other => panic!("{:?}", other),
    }
    match command::restart_database(&mut state, "x", never_stopped) {
        RestartStep::Finished(answer) => assert_eq!(answer.message, "Database not found"),
        other => panic!("{:?}", other),
    }
}

#[test]
fn start_and_stop_through_the_commands() {
    let mut state = state_with(vec![record("r", DatabaseType::Redis, DatabaseStatus::Stopped)]);
    let answer = command::start_database(&mut state, "r");
    assert!(answer.success);
    assert_eq!(answer.message, "Redis started successfully");
    let started = state.get_database("r").unwrap();
    assert_eq!(started.status, DatabaseStatus::Running);
    assert_eq!(started.pid, Some(FIRST_MOCK_PID));
    assert_eq!(command::get_database_status(&state, "r"), Some(DatabaseStatus::Running));

    let again = command::start_database(&mut state, "r");
    assert!(!again.success);
    assert_eq!(again.message, "Database is already running");
    assert_eq!(state.get_database("r").unwrap(), started);

    let answer = command::stop_database(&mut state, "r");
    assert!(answer.success);
    assert_eq!(answer.message, "Redis stopped successfully");
    let stopped = state.get_database("r").unwrap();
    assert_eq!(stopped.status, DatabaseStatus::Stopped);
    assert_eq!(stopped.pid, None);

    let again = command::stop_database(&mut state, "r");
    assert!(!again.success);
    assert_eq!(again.message, "Database is not running");
    assert_eq!(state.get_database("r").unwrap(), stopped);
}

#[test]
fn a_backend_that_fails_to_start_leaves_the_record() {
    let mut state = state_with(vec![record("r", DatabaseType::Redis, DatabaseStatus::Stopped)]);
    let r = command::begin_start(&state, "r").unwrap();
    let before = state.get_all_databases();
    let outcome =
        command::commit_start(&mut state, r, Err("no such binary".to_string()), "t1".to_string());
    assert_eq!(
        outcome,
        Err(LifecycleError::Provisioning("Failed to start database: no such binary".to_string()))
    );
    let answer = command::envelope_of(&outcome.unwrap_err());
    assert!(!answer.success);
    assert_eq!(answer.message, "Failed to start database: no such binary");
    assert_eq!(answer.data, None);
    assert_eq!(state.get_all_databases(), before);
}

#[test]
fn a_backend_that_starts_gives_its_process_id() {
    let mut state = state_with(vec![record("r", DatabaseType::Redis, DatabaseStatus::Stopped)]);
    let r = command::begin_start(&state, "r").unwrap();
    let answer = command::commit_start(&mut state, r, Ok(Some(4242)), "t1".to_string()).unwrap();
    assert!(answer.success);
    assert_eq!(answer.message, "Redis started successfully");
    let now = state.get_database("r").unwrap();
    assert_eq!(now.status, DatabaseStatus::Running);
    assert_eq!(now.pid, Some(4242));
    assert_eq!(now.updated_at, "t1");
    assert_eq!(now.created_at, "2024-01-01T00:00:00+00:00");
    assert_eq!(
        command::begin_start(&state, "r"),
        Err(LifecycleError::InvalidState("Database is already running".to_string()))
    );

    let r = command::begin_stop(&state, "r").unwrap();
    let answer = command::commit_stop(&mut state, r, Ok(()), "t2".to_string()).unwrap();
    assert!(answer.success);
    assert_eq!(answer.message, "Redis stopped successfully");
    let now = state.get_database("r").unwrap();
    assert_eq!(now.status, DatabaseStatus::Stopped);
    assert_eq!(now.pid, None);
    assert_eq!(now.updated_at, "t2");
    assert_eq!(
        command::begin_stop(&state, "r"),
        Err(LifecycleError::InvalidState("Database is not running".to_string()))
    );
}

#[test]
fn a_restart_whose_stop_fails_reports_the_stop_and_never_starts() {
    let mut running = record("r", DatabaseType::Redis, DatabaseStatus::Running);
    running.pid = Some(900);
    let mut state = state_with(vec![running.clone()]);
    let r = command::begin_stop(&state, "r").unwrap();
    let outcome = command::restart_after_stop(
        &mut state,
        r,
        Err("service manager is busy".to_string()),
        "t1".to_string(),
    );
    assert_eq!(
        outcome,
        Err(LifecycleError::Provisioning(
            "Failed to stop database: service manager is busy".to_string()
        ))
    );
    assert_eq!(state.get_database("r"), Some(running));
}

#[test]
fn a_restart_whose_stop_goes_well_waits_before_the_start() {
    let mut running = record("r", DatabaseType::Redis, DatabaseStatus::Running);
    running.pid = Some(900);
    let mut state = state_with(vec![running]);
    let r = command::begin_stop(&state, "r").unwrap();
    assert_eq!(command::restart_after_stop(&mut state, r, Ok(()), "t1".to_string()), Ok(2));
    let stopped = state.get_database("r").unwrap();
    assert_eq!((stopped.status, stopped.pid), (DatabaseStatus::Stopped, None));
    let r = command::begin_start(&state, "r").unwrap();
    assert!(command::commit_start(&mut state, r, Ok(None), "t2".to_string()).is_ok());
    let started = state.get_database("r").unwrap();
    assert_eq!((started.status, started.pid), (DatabaseStatus::Running, None));
}

#[test]
fn a_restart_stops_waits_and_starts() {
    let mut running = record("r", DatabaseType::Redis, DatabaseStatus::Running);
    running.pid = Some(900);
    let mut state = state_with(vec![running.clone()]);
    let mut asked = Vec::new();
    let step = command::restart_database(&mut state, "r", |d| {
        asked.push(d);
        Ok(())
    });
    assert_eq!(asked, vec![running.clone()]);
    assert_eq!(step, RestartStep::Cooldown { seconds: RESTART_COOLDOWN_SECS });
    assert_eq!(RESTART_COOLDOWN_SECS, 2);
    let stopped = state.get_database("r").unwrap();
    assert_eq!((stopped.status, stopped.pid), (DatabaseStatus::Stopped, None));
    let mut asked = Vec::new();
    let answer = command::resume_restart(&mut state, "r", |d| {
        asked.push(d);
        Ok(Some(901))
    });
    assert_eq!(asked, vec![stopped]);
    assert!(answer.success);
    assert_eq!(answer.message, "Redis started successfully");
    let now = state.get_database("r").unwrap();
    assert_eq!(now.status, DatabaseStatus::Running);
    assert_eq!(now.pid, Some(901));
}

#[test]
fn a_restart_whose_stop_fails_reports_it_and_starts_nothing() {
    let mut running = record("r", DatabaseType::Redis, DatabaseStatus::Running);
    running.pid = Some(900);
    let mut state = state_with(vec![running.clone()]);
    let step = command::restart_database(&mut state, "r", |_| Err("still draining".to_string()));
    match step {
        RestartStep::Finished(answer) => {
            assert!(!answer.success);
            assert_eq!(answer.message, "Failed to stop database: still draining");
            assert_eq!(answer.data, None);
        }
        other => panic!("{:?}", other),
    }
    // The record still runs, with the process id it had.
    assert_eq!(state.get_database("r"), Some(running));
}

#[test]
fn a_restart_whose_start_fails_leaves_the_record_stopped() {
    let mut state = state_with(vec![record("r", DatabaseType::Redis, DatabaseStatus::Running)]);
    let step = command::restart_database(&mut state, "r", |_| Ok(()));
    assert_eq!(step, RestartStep::Cooldown { seconds: 2 });
    let stopped = state.get_database("r").unwrap();
    let answer = command::resume_restart(&mut state, "r", |_| Err("port in use".to_string()));
    assert!(!answer.success);
    assert_eq!(answer.message, "Failed to start database: port in use");
    assert_eq!(state.get_database("r"), Some(stopped));
}

#[test]
fn a_restart_of_a_stopped_record_reports_that_it_does_not_run() {
    let mut state = state_with(vec![record("r", DatabaseType::Redis, DatabaseStatus::Stopped)]);
    match command::restart_database(&mut state, "r", never_stopped) {
        RestartStep::Finished(answer) => {
            assert!(!answer.success);
            assert_eq!(answer.message, "Database is not running");
        }
        other => panic!("{:?}", other),
    }
    assert_eq!(state.get_database("r").unwrap().status, DatabaseStatus::Stopped);
}

#[test]
fn a_deletion_of_a_running_record_whose_stop_fails_is_given_up() {
    for with_data in [false, true] {
        let mut running = record("r", DatabaseType::Redis, DatabaseStatus::Running);
        running.pid = Some(900);
        let mut state = state_with(vec![running.clone()]);
        let mut asked = Vec::new();
        let step = command::delete_database(&mut state, "r", with_data, |d| {
            asked.push(d);
            Err("still draining".to_string())
        });
        assert_eq!(asked, vec![running.clone()]);
        match step {
            DeleteStep::Finished(answer) => {
                assert!(!answer.success);
                assert_eq!(answer.message, "Failed to stop database: still draining");
            }
            other => panic!("{:?}", other),
        }
        assert_eq!(state.get_database("r"), Some(running));
    }
}

#[test]
fn a_deletion_whose_stop_fails_leaves_record_and_data() {
    let mut running = record("r", DatabaseType::Redis, DatabaseStatus::Running);
    running.pid = Some(900);
    let mut state = state_with(vec![running.clone()]);
    let r = command::begin_stop(&state, "r").unwrap();
    let outcome = command::delete_after_stop(
        &mut state,
        r,
        Err("still draining".to_string()),
        "t1".to_string(),
        true,
    );
    assert_eq!(
        outcome,
        Err(LifecycleError::Provisioning("Failed to stop database: still draining".to_string()))
    );
    assert_eq!(state.get_database("r"), Some(running));
}

#[test]
fn a_deletion_with_data_waits_for_the_directory() {
    let mut state = state_with(vec![record("r", DatabaseType::Redis, DatabaseStatus::Running)]);
    let mut stops = 0;
    let step = command::delete_database(&mut state, "r", true, |_| {
        stops += 1;
        Ok(())
    });
    assert_eq!(stops, 1);
    assert_eq!(
        step,
        DeleteStep::RemoveData { id: "r".to_string(), data_path: "/store/data/redis".to_string() }
    );
    let kept = state.get_database("r").unwrap();
    assert_eq!(kept.status, DatabaseStatus::Stopped);
    assert_eq!(command::get_database_status(&state, "r"), Some(DatabaseStatus::Stopped));

    let failed = command::finish_delete(&mut state, "r", Err("permission denied".to_string()));
    assert_eq!(
        failed,
        Err(LifecycleError::Filesystem("Failed to delete data: permission denied".to_string()))
    );
    assert!(state.get_database("r").is_some());

    let done = command::finish_delete(&mut state, "r", Ok(())).unwrap();
    assert!(done.success);
    assert_eq!(done.message, "Database deleted successfully");
    assert!(state.get_database("r").is_none());
}

#[test]
fn a_deletion_without_data_is_done_at_once() {
    let mut state = state_with(vec![
        record("r", DatabaseType::Redis, DatabaseStatus::Stopped),
        record("m", DatabaseType::MySQL, DatabaseStatus::Stopped),
    ]);
    match command::delete_database(&mut state, "r", false, never_stopped) {
        DeleteStep::Finished(answer) => {
            assert!(answer.success);
            assert_eq!(answer.message, "Database deleted successfully");
        }
        other => panic!("{:?}", other),
    }
    assert!(state.get_database("r").is_none());
    assert!(state.get_database("m").is_some());
}

#[test]
fn a_deletion_after_a_stop_that_went_well() {
    let mut state = state_with(vec![record("r", DatabaseType::Redis, DatabaseStatus::Running)]);
    let r = command::begin_stop(&state, "r").unwrap();
    let step = command::delete_after_stop(&mut state, r, Ok(()), "t1".to_string(), false);
    assert!(matches!(step, Ok(DeleteStep::Finished(ref a)) if a.success));
    assert!(state.get_database("r").is_none());

    let mut state = state_with(vec![record("r", DatabaseType::Redis, DatabaseStatus::Running)]);
    let r = command::begin_stop(&state, "r").unwrap();
    let step = command::delete_after_stop(&mut state, r, Ok(()), "t1".to_string(), true);
    assert_eq!(
        step,
        Ok(DeleteStep::RemoveData {
            id: "r".to_string(),
            data_path: "/store/data/redis".to_string()
        })
    );
    assert_eq!(state.get_database("r").unwrap().status, DatabaseStatus::Stopped);
}

#[test]
fn the_autostart_flag_touches_no_process() {
    let mut running = record("r", DatabaseType::Redis, DatabaseStatus::Running);
    running.pid = Some(5);
    let mut state = state_with(vec![running.clone()]);
    let answer = command::update_database_autostart(&mut state, "r", true);
    assert!(answer.success);
    assert_eq!(answer.message, "Autostart setting updated");
    let now = state.get_database("r").unwrap();
    assert!(now.auto_start);
    assert_eq!(now.status, DatabaseStatus::Running);
    assert_eq!(now.pid, Some(5));
    assert_ne!(now.updated_at, running.updated_at);
    assert_eq!(state.db_manager.get_status(&now), DatabaseStatus::Stopped);
}

#[test]
fn records_marked_for_it_are_started_when_the_application_comes_up() {
    let mut a = record("a", DatabaseType::Redis, DatabaseStatus::Stopped);
    a.auto_start = true;
    let b = record("b", DatabaseType::MySQL, DatabaseStatus::Stopped);
    let mut c = record("c", DatabaseType::Qdrant, DatabaseStatus::NotInstalled);
    c.auto_start = true;
    let mut d = record("d", DatabaseType::MongoDB, DatabaseStatus::Stopped);
    d.auto_start = true;
    let mut state = state_with(vec![a, b.clone(), c.clone(), d]);
    state.start_autostart_databases();
    assert_eq!(state.get_database("a").unwrap().status, DatabaseStatus::Running);
    assert_eq!(state.get_database("a").unwrap().pid, Some(FIRST_MOCK_PID));
    assert_eq!(state.get_database("b"), Some(b));
    assert_eq!(state.get_database("c"), Some(c));
    assert_eq!(state.get_database("d").unwrap().status, DatabaseStatus::Running);
    assert_eq!(state.get_database("d").unwrap().pid, Some(FIRST_MOCK_PID + 1));
    assert_eq!(state.get_all_databases().len(), 4);
}

#[test]
fn guards_by_themselves() {
    let stopped = record("r", DatabaseType::Redis, DatabaseStatus::Stopped);
    let running = record("r", DatabaseType::Redis, DatabaseStatus::Running);
    let absent = record("r", DatabaseType::Redis, DatabaseStatus::NotInstalled);
    assert_eq!(manager::check_startable(&stopped), Ok(()));
    assert!(matches!(manager::check_startable(&running), Err(LifecycleError::InvalidState(_))));
    assert!(matches!(manager::check_startable(&absent), Err(LifecycleError::InvalidState(_))));
    assert_eq!(manager::check_stoppable(&running), Ok(()));
    assert!(matches!(manager::check_stoppable(&stopped), Err(LifecycleError::InvalidState(_))));
    assert!(matches!(manager::check_stoppable(&absent), Err(LifecycleError::InvalidState(_))));
}

#[test]
fn every_record_is_listed_by_the_command() {
    let state = state_with(vec![
        record("r", DatabaseType::Redis, DatabaseStatus::Stopped),
        record("m", DatabaseType::MySQL, DatabaseStatus::Stopped),
    ]);
    assert_eq!(command::get_databases(&state), state.get_all_databases());
    assert_eq!(command::get_databases(&state).len(), 2);
}
