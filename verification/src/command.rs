use crate::error::LifecycleError;
use crate::manager::{
    check_startable, check_stoppable, finish_start, finish_stop, spec_started, spec_stopped,
    start_refusal, stop_refusal, DatabaseManager,
};
use crate::registry::{lemma_upsert_in_place, registry_ok, upsert, Registry};
use crate::state::AppState;
use crate::text::concat;
use crate::types::{
    AsyncTask, DatabaseInfo, DatabaseRecord, DatabaseStatus, GlobalSettings, OperationResult,
};
use crate::utils::get_timestamp;
use vstd::prelude::*;

verus! {

/// How long a restart waits between the stop and the start, in seconds, so
/// that a service manager can drain before the port is bound again.
pub const RESTART_COOLDOWN_SECS: u64 = 2;

/// The text with which a start of the record `id` is refused, if it is
/// refused: there is no such record, or its state forbids the start.
pub open spec fn start_verdict(m: Registry, id: Seq<char>) -> Option<Seq<char>> {
    if !m.dom().contains(id) {
        Some("Database not found"@)
    } else {
        start_refusal(m[id].status)
    }
}

/// The text with which a stop of the record `id` is refused, if it is
/// refused: there is no such record, or its state forbids the stop.
pub open spec fn stop_verdict(m: Registry, id: Seq<char>) -> Option<Seq<char>> {
    if !m.dom().contains(id) {
        Some("Database not found"@)
    } else {
        stop_refusal(m[id].status)
    }
}

/// Whether `outcome` answers a request for the record `id` as `refusal` asks:
/// with the record, or with the error of the refusal.
pub open spec fn lookup_outcome(
    m: Registry,
    id: Seq<char>,
    refusal: Option<Seq<char>>,
    outcome: Result<DatabaseInfo, LifecycleError>,
) -> bool {
    match outcome {
        Ok(d) => refusal is None && m.dom().contains(id) && d@ == m[id],
        Err(LifecycleError::NotFound) => !m.dom().contains(id),
        Err(LifecycleError::InvalidState(said)) => m.dom().contains(id) && refusal == Some(said@),
        Err(_) => false,
    }
}

/// Whether `answer` reports a failure with the given text.
pub open spec fn fails_with(answer: OperationResult<()>, text: Seq<char>) -> bool {
    !answer.success && answer.message@ == text && answer.data is None
}

/// Whether `answer` reports a success with the given text.
pub open spec fn succeeds_with(answer: OperationResult<()>, text: Seq<char>) -> bool {
    answer.success && answer.message@ == text && answer.data is None
}

/// The envelope that reports an error.
pub fn envelope_of(error: &LifecycleError) -> (answer: OperationResult<()>)
    ensures
        fails_with(answer, error.spec_message()),
{
    OperationResult::error(error.message())
}

/// Looks up the record that is to be started and checks that it may be.
pub fn begin_start(state: &AppState, id: &str) -> (outcome: Result<DatabaseInfo, LifecycleError>)
    ensures
        lookup_outcome(state.databases@, id@, start_verdict(state.databases@, id@), outcome),
{
    match state.get_database(id) {
        None => Err(LifecycleError::NotFound),
        Some(db_info) => match check_startable(&db_info) {
            Ok(_) => Ok(db_info),
            Err(refusal) => Err(refusal),
        },
    }
}

/// Looks up the record that is to be stopped and checks that it may be.
pub fn begin_stop(state: &AppState, id: &str) -> (outcome: Result<DatabaseInfo, LifecycleError>)
    ensures
        lookup_outcome(state.databases@, id@, stop_verdict(state.databases@, id@), outcome),
{
    match state.get_database(id) {
        None => Err(LifecycleError::NotFound),
        Some(db_info) => match check_stoppable(&db_info) {
            Ok(_) => Ok(db_info),
            Err(refusal) => Err(refusal),
        },
    }
}

/// Whether `outcome` reports that the backend failed, with `text`.
pub open spec fn provisioning_failure<T>(outcome: Result<T, LifecycleError>, text: Seq<char>) -> bool {
    outcome matches Err(LifecycleError::Provisioning(said)) && said@ == text
}

/// Takes in what the backend answered to the start of `db_info`. On success
/// the started record is put in place; on failure nothing changes and the
/// error carries the backend's diagnostic.
pub fn commit_start(
    state: &mut AppState,
    db_info: DatabaseInfo,
    backend: Result<Option<u32>, String>,
    now: String,
) -> (outcome: Result<OperationResult<()>, LifecycleError>)
    ensures
        final(state).same_but_records(old(state)),
        match backend {
            Ok(pid) => {
                &&& outcome matches Ok(answer)
                &&& succeeds_with(answer, db_info.name@ + " started successfully"@)
                &&& final(state).databases@ == upsert(
                    old(state).databases@,
                    spec_started(db_info@, pid, now@),
                )
                &&& registry_ok(final(state).databases@)
            },
            Err(diagnostic) => {
                &&& provisioning_failure(outcome, "Failed to start database: "@ + diagnostic@)
                &&& *final(state) == *old(state)
            },
        },
{
    let mut db_info = db_info;
    match finish_start(&mut db_info, backend, now) {
        Ok(answer) => {
            state.update_database(db_info);
            Ok(answer)
        },
        Err(error) => Err(error),
    }
}

/// Takes in what the backend answered to the stop of `db_info`. On success
/// the stopped record is put in place; on failure nothing changes and the
/// error carries the backend's diagnostic.
pub fn commit_stop(
    state: &mut AppState,
    db_info: DatabaseInfo,
    backend: Result<(), String>,
    now: String,
) -> (outcome: Result<OperationResult<()>, LifecycleError>)
    ensures
        final(state).same_but_records(old(state)),
        match backend {
            Ok(_) => {
                &&& outcome matches Ok(answer)
                &&& succeeds_with(answer, db_info.name@ + " stopped successfully"@)
                &&& final(state).databases@ == upsert(
                    old(state).databases@,
                    spec_stopped(db_info@, now@),
                )
                &&& registry_ok(final(state).databases@)
            },
            Err(diagnostic) => {
                &&& provisioning_failure(outcome, "Failed to stop database: "@ + diagnostic@)
                &&& *final(state) == *old(state)
            },
        },
{
    let mut db_info = db_info;
    match finish_stop(&mut db_info, backend, now) {
        Ok(answer) => {
            state.update_database(db_info);
            Ok(answer)
        },
        Err(error) => Err(error),
    }
}

/// Whether a state came of another by a start of the record `id` on the
/// manager's own process table, at some moment.
pub open spec fn started_in(before: &AppState, after: &AppState, id: Seq<char>) -> bool {
    let pid = before.db_manager.next_pid();
    &&& exists|now: Seq<char>|
        after.databases@ == before.databases@.insert(
            id,
            spec_started(before.databases@[id], Some(pid), now),
        )
    &&& after.db_manager.processes() == before.db_manager.processes().insert(id, pid)
    &&& after.db_manager.next_pid() == DatabaseManager::pid_after(pid)
    &&& after.db_manager.storage() == before.db_manager.storage()
    &&& after.settings == before.settings
    &&& after.tasks == before.tasks
}

/// Whether a state came of another by a stop of the record `id` on the
/// manager's own process table, at some moment.
pub open spec fn stopped_in(before: &AppState, after: &AppState, id: Seq<char>) -> bool {
    &&& exists|now: Seq<char>|
        after.databases@ == before.databases@.insert(id, spec_stopped(before.databases@[id], now))
    &&& after.db_manager.processes() == before.db_manager.processes().remove(id)
    &&& after.db_manager.next_pid() == before.db_manager.next_pid()
    &&& after.db_manager.storage() == before.db_manager.storage()
    &&& after.settings == before.settings
    &&& after.tasks == before.tasks
}

/// Starts the record with the given id on the manager's own process table.
/// A record that is missing, not installed or running already is refused,
/// and nothing changes.
pub fn start_database(state: &mut AppState, id: &str) -> (answer: OperationResult<()>)
    ensures
        registry_ok(final(state).databases@),
        match start_verdict(old(state).databases@, id@) {
            Some(text) => fails_with(answer, text) && *final(state) == *old(state),
            None => succeeds_with(
                answer,
                old(state).databases@[id@].name + " started successfully"@,
            ) && started_in(old(state), final(state), id@),
        },
{
    match state.databases.get(id) {
        None => OperationResult::error("Database not found".to_string()),
        Some(db_info) => {
            let mut db_info = db_info;
            let ghost record = db_info@;
            let ghost before = state.databases@;
            assert(before[id@].id == id@);
            match state.db_manager.start_database(&mut db_info) {
                Ok(answer) => {
                    proof {
                        lemma_upsert_in_place(before, db_info@);
                        assert(db_info@ == spec_started(
                            record,
                            Some(old(state).db_manager.next_pid()),
                            db_info@.updated_at,
                        ));
                    }
                    state.update_database(db_info);
                    answer
                },
                Err(error) => envelope_of(&error),
            }
        },
    }
}

/// Stops the record with the given id on the manager's own process table.
/// A record that is missing or does not run is refused, and nothing changes.
pub fn stop_database(state: &mut AppState, id: &str) -> (answer: OperationResult<()>)
    ensures
        registry_ok(final(state).databases@),
        match stop_verdict(old(state).databases@, id@) {
            Some(text) => fails_with(answer, text) && *final(state) == *old(state),
            None => succeeds_with(
                answer,
                old(state).databases@[id@].name + " stopped successfully"@,
            ) && stopped_in(old(state), final(state), id@),
        },
{
    match state.databases.get(id) {
        None => OperationResult::error("Database not found".to_string()),
        Some(db_info) => {
            let mut db_info = db_info;
            let ghost record = db_info@;
            let ghost before = state.databases@;
            assert(before[id@].id == id@);
            match state.db_manager.stop_database(&mut db_info) {
                Ok(answer) => {
                    proof {
                        lemma_upsert_in_place(before, db_info@);
                        assert(db_info@ == spec_stopped(record, db_info@.updated_at));
                    }
                    state.update_database(db_info);
                    answer
                },
                Err(error) => envelope_of(&error),
            }
        },
    }
}

/// What a restart does next.
#[derive(Debug, PartialEq, Eq)]
pub enum RestartStep {
    /// The restart is over, with this answer.
    Finished(OperationResult<()>),
    /// The engine was stopped. After this many seconds it is to be started.
    Cooldown { seconds: u64 },
}

/// What the first half of a restart makes of a state that holds the running
/// record `id`, given what the backend answered to the stop. Where the stop
/// failed, the restart is over: it reports the stop's diagnostic, and nothing
/// has changed, so the record still runs with the process id it had. Else
/// the record is stopped, and the start is to follow after the cooldown.
pub open spec fn restart_begun(
    before: &AppState,
    after: &AppState,
    id: Seq<char>,
    backend: Result<(), String>,
    step: RestartStep,
) -> bool {
    match backend {
        Ok(_) => {
            &&& step == (RestartStep::Cooldown { seconds: RESTART_COOLDOWN_SECS })
            &&& after.same_but_records(before)
            &&& exists|now: Seq<char>|
                after.databases@ == before.databases@.insert(
                    id,
                    spec_stopped(before.databases@[id], now),
                )
        },
        Err(diagnostic) => {
            &&& step matches RestartStep::Finished(answer)
            &&& fails_with(answer, "Failed to stop database: "@ + diagnostic@)
            &&& *after == *before
        },
    }
}

/// The first half of a restart: the record is stopped, by `stop`, which is
/// how the backend stops the engine of a record. A record that is missing
/// or not running is refused: `stop` is not asked, and nothing changes.
/// Where the stop fails the restart is over and reports what the stop
/// reported; nothing has changed then, and no start is to follow.
pub fn restart_database<S: FnOnce(DatabaseInfo) -> Result<(), String>>(
    state: &mut AppState,
    id: &str,
    stop: S,
) -> (step: RestartStep)
    requires
        forall|db_info: DatabaseInfo| stop.requires((db_info,)),
    ensures
        registry_ok(final(state).databases@),
        match stop_verdict(old(state).databases@, id@) {
            Some(text) => {
                &&& step matches RestartStep::Finished(answer)
                &&& fails_with(answer, text)
                &&& *final(state) == *old(state)
            },
            None => exists|db_info: DatabaseInfo, backend: Result<(), String>|
                {
                    &&& #[trigger] stop.ensures((db_info,), backend)
                    &&& db_info@ == old(state).databases@[id@]
                    &&& restart_begun(old(state), final(state), id@, backend, step)
                },
        },
{
    proof {
        use_type_invariant(&state.databases);
    }
    match begin_stop(state, id) {
        Err(refusal) => RestartStep::Finished(envelope_of(&refusal)),
        Ok(db_info) => {
            let ghost before = state.databases@;
            assert(before[id@].id == id@);
            let backend = stop(db_info.clone());
            let ghost given = db_info;
            let ghost answered = backend;
            let now = get_timestamp();
            proof {
                lemma_upsert_in_place(before, spec_stopped(db_info@, now@));
            }
            let step = match restart_after_stop(state, db_info, backend, now) {
                Ok(seconds) => RestartStep::Cooldown { seconds },
                Err(error) => RestartStep::Finished(envelope_of(&error)),
            };
            assert(stop.ensures((given,), answered) && restart_begun(
                old(state),
                state,
                id@,
                answered,
                step,
            ));
            step
        },
    }
}

/// What the second half of a restart makes of a state that holds the
/// stopped record `id`, given what the backend answered to the start.
pub open spec fn restart_resumed(
    before: &AppState,
    after: &AppState,
    id: Seq<char>,
    backend: Result<Option<u32>, String>,
    answer: OperationResult<()>,
) -> bool {
    match backend {
        Ok(pid) => {
            &&& succeeds_with(answer, before.databases@[id].name + " started successfully"@)
            &&& after.same_but_records(before)
            &&& exists|now: Seq<char>|
                after.databases@ == before.databases@.insert(
                    id,
                    spec_started(before.databases@[id], pid, now),
                )
        },
        Err(diagnostic) => {
            &&& fails_with(answer, "Failed to start database: "@ + diagnostic@)
            &&& *after == *before
        },
    }
}

/// The second half of a restart, after the cooldown: the record is started,
/// by `start`, which is how the backend starts the engine of a record. A
/// record that is missing, not installed or running is refused: `start` is
/// not asked, and nothing changes.
pub fn resume_restart<T: FnOnce(DatabaseInfo) -> Result<Option<u32>, String>>(
    state: &mut AppState,
    id: &str,
    start: T,
) -> (answer: OperationResult<()>)
    requires
        forall|db_info: DatabaseInfo| start.requires((db_info,)),
    ensures
        registry_ok(final(state).databases@),
        match start_verdict(old(state).databases@, id@) {
            Some(text) => fails_with(answer, text) && *final(state) == *old(state),
            None => exists|db_info: DatabaseInfo, backend: Result<Option<u32>, String>|
                {
                    &&& #[trigger] start.ensures((db_info,), backend)
                    &&& db_info@ == old(state).databases@[id@]
                    &&& restart_resumed(old(state), final(state), id@, backend, answer)
                },
        },
{
    proof {
        use_type_invariant(&state.databases);
    }
    match begin_start(state, id) {
        Err(refusal) => envelope_of(&refusal),
        Ok(db_info) => {
            let ghost before = state.databases@;
            assert(before[id@].id == id@);
            let backend = start(db_info.clone());
            let ghost given = db_info;
            let ghost answered = backend;
            let now = get_timestamp();
            proof {
                if backend is Ok {
                    lemma_upsert_in_place(before, spec_started(db_info@, backend->Ok_0, now@));
                }
            }
            let answer = match commit_start(state, db_info, backend, now) {
                Ok(answer) => answer,
                Err(error) => envelope_of(&error),
            };
            assert(start.ensures((given,), answered) && restart_resumed(
                old(state),
                state,
                id@,
                answered,
                answer,
            ));
            answer
        },
    }
}

/// Takes in what the backend answered to the stop with which a restart of
/// `db_info` begins, and tells how many seconds to wait before the start.
/// Where the stop failed the restart is over: it fails with the stop's
/// diagnostic, nothing has changed, and no start is to follow.
pub fn restart_after_stop(
    state: &mut AppState,
    db_info: DatabaseInfo,
    backend: Result<(), String>,
    now: String,
) -> (outcome: Result<u64, LifecycleError>)
    ensures
        final(state).same_but_records(old(state)),
        match backend {
            Ok(_) => {
                &&& outcome == Ok::<u64, LifecycleError>(RESTART_COOLDOWN_SECS)
                &&& final(state).databases@ == upsert(
                    old(state).databases@,
                    spec_stopped(db_info@, now@),
                )
                &&& registry_ok(final(state).databases@)
            },
            Err(diagnostic) => {
                &&& provisioning_failure(outcome, "Failed to stop database: "@ + diagnostic@)
                &&& *final(state) == *old(state)
            },
        },
{
    match commit_stop(state, db_info, backend, now) {
        Ok(_) => Ok(RESTART_COOLDOWN_SECS),
        Err(error) => Err(error),
    }
}

/// What a deletion does next.
#[derive(Debug, PartialEq, Eq)]
pub enum DeleteStep {
    /// The deletion is over, with this answer.
    Finished(OperationResult<()>),
    /// The data directory of the record is to be removed; the record is
    /// deleted once that is done.
    RemoveData { id: String, data_path: String },
}

/// What a deletion makes of a state that holds the record `id`, once the
/// record runs no more. `stopped` tells whether it was stopped for the
/// deletion. Where the data is to go as well, the record stays until the
/// directory is gone; else the record is deleted.
pub open spec fn delete_proceeds(
    before: &AppState,
    after: &AppState,
    id: Seq<char>,
    with_data: bool,
    stopped: bool,
    step: DeleteStep,
) -> bool {
    let record = before.databases@[id];
    &&& after.same_but_records(before)
    &&& if with_data {
        &&& step matches DeleteStep::RemoveData { id: target, data_path }
        &&& target@ == id
        &&& data_path@ == record.data_path
        &&& if stopped {
            exists|now: Seq<char>|
                after.databases@ == before.databases@.insert(id, spec_stopped(record, now))
        } else {
            after.databases@ == before.databases@
        }
    } else {
        &&& step matches DeleteStep::Finished(answer)
        &&& succeeds_with(answer, "Database deleted successfully"@)
        &&& after.databases@ == before.databases@.remove(id)
    }
}

/// What a deletion makes of a state that holds the running record `id`,
/// given what the backend answered to the stop. Where the stop failed, the
/// deletion is over: it reports the stop's diagnostic, and the record and
/// its data stay as they were.
pub open spec fn delete_begun(
    before: &AppState,
    after: &AppState,
    id: Seq<char>,
    with_data: bool,
    backend: Result<(), String>,
    step: DeleteStep,
) -> bool {
    match backend {
        Ok(_) => delete_proceeds(before, after, id, with_data, true, step),
        Err(diagnostic) => {
            &&& step matches DeleteStep::Finished(answer)
            &&& fails_with(answer, "Failed to stop database: "@ + diagnostic@)
            &&& *after == *before
        },
    }
}

/// Deletes the record with the given id. A running record is stopped first,
/// by `stop`, which is how the backend stops the engine of a record; where
/// that fails, the deletion is over, and the record and its data stay as
/// they were. A record that does not run is not stopped. Where the data is
/// to go as well, the record stays until `finish_delete` hears that the
/// directory is gone.
pub fn delete_database<S: FnOnce(DatabaseInfo) -> Result<(), String>>(
    state: &mut AppState,
    id: &str,
    with_data: bool,
    stop: S,
) -> (step: DeleteStep)
    requires
        forall|db_info: DatabaseInfo| stop.requires((db_info,)),
    ensures
        registry_ok(final(state).databases@),
        if !old(state).databases@.dom().contains(id@) {
            &&& step matches DeleteStep::Finished(answer)
            &&& fails_with(answer, "Database not found"@)
            &&& *final(state) == *old(state)
        } else if old(state).databases@[id@].status == DatabaseStatus::Running {
            exists|db_info: DatabaseInfo, backend: Result<(), String>|
                {
                    &&& #[trigger] stop.ensures((db_info,), backend)
                    &&& db_info@ == old(state).databases@[id@]
                    &&& delete_begun(old(state), final(state), id@, with_data, backend, step)
                }
        } else {
            delete_proceeds(old(state), final(state), id@, with_data, false, step)
        },
{
    proof {
        use_type_invariant(&state.databases);
    }
    match state.databases.get(id) {
        None => DeleteStep::Finished(OperationResult::error("Database not found".to_string())),
        Some(db_info) => {
            let ghost before = state.databases@;
            let ghost record = db_info@;
            assert(before[id@].id == id@);
            match db_info.status {
                DatabaseStatus::Running => {
                    let backend = stop(db_info.clone());
                    let ghost given = db_info;
                    let ghost answered = backend;
                    let now = get_timestamp();
                    proof {
                        lemma_upsert_in_place(before, spec_stopped(record, now@));
                    }
                    let step = match delete_after_stop(state, db_info, backend, now, with_data) {
                        Ok(step) => step,
                        Err(error) => DeleteStep::Finished(envelope_of(&error)),
                    };
                    proof {
                        if answered is Ok {
                            let stopped = before.insert(id@, spec_stopped(record, now@));
                            if with_data {
                                assert(state.databases@ == stopped);
                            } else {
                                assert(stopped.remove(id@) =~= before.remove(id@));
                            }
                        }
                        assert(stop.ensures((given,), answered) && delete_begun(
                            old(state),
                            state,
                            id@,
                            with_data,
                            answered,
                            step,
                        ));
                    }
                    step
                },
                _ => {
                    if with_data {
                        DeleteStep::RemoveData { id: db_info.id, data_path: db_info.data_path }
                    } else {
                        let _ = state.remove_database(id);
                        assert(state.databases@ =~= before.remove(id@));
                        DeleteStep::Finished(
                            OperationResult::success(
                                "Database deleted successfully".to_string(),
                                None,
                            ),
                        )
                    }
                },
            }
        },
    }
}

/// Takes in whether the data directory of the record `id` could be removed.
/// If so the record is deleted; if not it stays, and the error says why.
pub fn finish_delete(state: &mut AppState, id: &str, removal: Result<(), String>) -> (outcome:
    Result<OperationResult<()>, LifecycleError>)
    ensures
        match removal {
            Ok(_) => {
                &&& outcome matches Ok(answer)
                &&& succeeds_with(answer, "Database deleted successfully"@)
                &&& final(state).databases@ == old(state).databases@.remove(id@)
                &&& final(state).same_but_records(old(state))
                &&& registry_ok(final(state).databases@)
            },
            Err(diagnostic) => {
                &&& outcome matches Err(LifecycleError::Filesystem(said))
                &&& said@ == "Failed to delete data: "@ + diagnostic@
                &&& *final(state) == *old(state)
            },
        },
{
    match removal {
        Ok(_) => {
            let _ = state.remove_database(id);
            Ok(OperationResult::success("Database deleted successfully".to_string(), None))
        },
        Err(diagnostic) => Err(
            LifecycleError::Filesystem(concat("Failed to delete data: ", diagnostic.as_str())),
        ),
    }
}

/// Takes in what the backend answered to the stop with which the deletion of
/// the running record `db_info` begins. Where the stop failed the deletion is
/// over: the record and its data stay as they were.
pub fn delete_after_stop(
    state: &mut AppState,
    db_info: DatabaseInfo,
    backend: Result<(), String>,
    now: String,
    with_data: bool,
) -> (outcome: Result<DeleteStep, LifecycleError>)
    ensures
        final(state).same_but_records(old(state)),
        match backend {
            Err(diagnostic) => {
                &&& provisioning_failure(outcome, "Failed to stop database: "@ + diagnostic@)
                &&& *final(state) == *old(state)
            },
            Ok(_) => {
                let stopped = upsert(old(state).databases@, spec_stopped(db_info@, now@));
                &&& registry_ok(final(state).databases@)
                &&& outcome matches Ok(step)
                &&& if with_data {
                    &&& step matches DeleteStep::RemoveData { id, data_path }
                    &&& id@ == db_info.id@
                    &&& data_path@ == db_info.data_path@
                    &&& final(state).databases@ == stopped
                } else {
                    &&& step matches DeleteStep::Finished(answer)
                    &&& succeeds_with(answer, "Database deleted successfully"@)
                    &&& final(state).databases@ == stopped.remove(db_info.id@)
                }
            },
        },
{
    let id = db_info.id.clone();
    let data_path = db_info.data_path.clone();
    let _ = commit_stop(state, db_info, backend, now)?;
    if with_data {
        Ok(DeleteStep::RemoveData { id, data_path })
    } else {
        let _ = state.remove_database(id.as_str());
        Ok(
            DeleteStep::Finished(
                OperationResult::success("Database deleted successfully".to_string(), None),
            ),
        )
    }
}

/// The record with a new autostart flag, as changed at the moment `now`.
pub open spec fn spec_with_autostart(record: DatabaseRecord, auto_start: bool, now: Seq<char>) -> DatabaseRecord {
    DatabaseRecord { auto_start, updated_at: now, ..record }
}

/// Sets whether the record with the given id is started when the application
/// comes up. No process is touched.
pub fn update_database_autostart(state: &mut AppState, id: &str, auto_start: bool) -> (answer:
    OperationResult<()>)
    ensures
        registry_ok(final(state).databases@),
        if old(state).databases@.dom().contains(id@) {
            &&& succeeds_with(answer, "Autostart setting updated"@)
            &&& final(state).same_but_records(old(state))
            &&& exists|now: Seq<char>|
                final(state).databases@ == old(state).databases@.insert(
                    id@,
                    spec_with_autostart(old(state).databases@[id@], auto_start, now),
                )
        } else {
            fails_with(answer, "Database not found"@) && *final(state) == *old(state)
        },
{
    match state.databases.get(id) {
        None => OperationResult::error("Database not found".to_string()),
        Some(db_info) => {
            let mut db_info = db_info;
            let ghost before = state.databases@;
            let ghost record = db_info@;
            assert(before[id@].id == id@);
            db_info.auto_start = auto_start;
            db_info.updated_at = get_timestamp();
            proof {
                assert(db_info@ == spec_with_autostart(record, auto_start, db_info@.updated_at));
                lemma_upsert_in_place(before, db_info@);
            }
            state.update_database(db_info);
            OperationResult::success("Autostart setting updated".to_string(), None)
        },
    }
}

/// What the manager's process table says of the record with the given id.
pub fn get_database_status(state: &AppState, id: &str) -> (status: Option<DatabaseStatus>)
    ensures
        status == (if state.databases@.dom().contains(id@) {
            Some(state.db_manager.spec_status(state.databases@[id@]))
        } else {
            None
        }),
{
    match state.get_database(id) {
        Some(db_info) => Some(state.db_manager.get_status(&db_info)),
        None => None,
    }
}

/// Every record.
pub fn get_databases(state: &AppState) -> (all: Vec<DatabaseInfo>)
    ensures
        crate::state::listing(
            state.databases@,
            state.databases.order(),
            crate::types::records_of(all@),
        ),
{
    state.get_all_databases()
}

/// The task with the given id.
pub fn get_task_status(state: &AppState, task_id: &str) -> (found: Option<AsyncTask>)
    ensures
        match found {
            Some(task) => state.tasks@.dom().contains(task_id@) && task == state.tasks@[task_id@],
            None => !state.tasks@.dom().contains(task_id@),
        },
{
    state.get_task(task_id)
}

/// The settings.
pub fn get_settings(state: &AppState) -> (settings: GlobalSettings)
    ensures
        settings == state.settings,
{
    state.get_settings()
}

/// Puts new settings in the place of the old ones.
pub fn update_settings(state: &mut AppState, settings: GlobalSettings) -> (answer: OperationResult<
    (),
>)
    ensures
        succeeds_with(answer, "Settings updated successfully"@),
        final(state).settings == settings,
        final(state).databases == old(state).databases,
        final(state).tasks == old(state).tasks,
        final(state).db_manager == old(state).db_manager,
{
    state.update_settings(settings);
    OperationResult::success("Settings updated successfully".to_string(), None)
}

} // verus!
