use crate::error::LifecycleError;
use crate::registry::{add_refusal, added, registry_ok};
use crate::state::AppState;
use crate::text::{concat, opt_text};
use crate::types::{AsyncTask, DatabaseInfo, DatabaseType, TaskStatus, TaskView};
use crate::utils::{generate_id, get_timestamp, hyphenate};
use vstd::prelude::*;

verus! {

/// What is asked for when an engine is to be installed.
#[derive(Debug)]
pub struct InstallDatabaseParams {
    pub db_type: String,
    pub version: Option<String>,
    pub port: Option<u16>,
    pub username: Option<String>,
    pub password: Option<String>,
}

/// An installation that was accepted: what the worker is to install, and the
/// task under which it reports.
#[derive(Debug)]
pub struct InstallRequest {
    pub task_id: String,
    pub db_type: DatabaseType,
    pub storage_path: String,
    pub version: Option<String>,
    pub port: Option<u16>,
    pub username: Option<String>,
    pub password: Option<String>,
}

/// The highest progress that is shown while an installation still runs.
pub const PROGRESS_CEILING: u8 = 98;

/// By how much the shown progress grows with each tick.
pub const PROGRESS_STEP: u8 = 2;

/// Why an installation is not accepted.
pub enum InstallRefusal {
    /// An engine of that name is installed already.
    Installed,
    /// No engine has that name.
    Unsupported,
}

/// Why an installation is not accepted, if it is not.
pub open spec fn install_refusal(state: &AppState, db_type: Seq<char>) -> Option<InstallRefusal> {
    if exists|k: Seq<char>|
        state.databases@.dom().contains(k) && (#[trigger] state.databases@[k]).db_type.spec_as_str()
            == db_type {
        Some(InstallRefusal::Installed)
    } else if DatabaseType::spec_from_name(db_type) is None {
        Some(InstallRefusal::Unsupported)
    } else {
        None
    }
}

/// The id of the task that follows the installation of an engine.
pub open spec fn spec_task_id(db_type: Seq<char>, suffix: Seq<char>) -> Seq<char> {
    "install-"@ + db_type + "-"@ + suffix
}

/// The task of an installation that was accepted at the moment `now`.
pub open spec fn pending_task(db_type: Seq<char>, suffix: Seq<char>, now: Seq<char>) -> TaskView {
    TaskView {
        id: spec_task_id(db_type, suffix),
        task_type: "install"@,
        db_type,
        status: TaskStatus::Pending,
        progress: 0,
        message: "Installation pending..."@,
        error: None,
        created_at: now,
        updated_at: now,
    }
}

/// Whether `request` asks the worker for what `params` ask, under the task
/// that `suffix` names, with files kept under the state's storage path.
pub open spec fn requests(
    state: &AppState,
    params: InstallDatabaseParams,
    suffix: Seq<char>,
    request: InstallRequest,
) -> bool {
    &&& request.task_id@ == spec_task_id(params.db_type@, suffix)
    &&& Some(request.db_type) == DatabaseType::spec_from_name(params.db_type@)
    &&& request.storage_path@ == state.settings.default_storage_path@
    &&& opt_text(request.version) == opt_text(params.version)
    &&& request.port == params.port
    &&& opt_text(request.username) == opt_text(params.username)
    &&& opt_text(request.password) == opt_text(params.password)
}

/// Accepts or refuses an installation. An accepted one gets a pending task
/// whose id ends in `suffix`; a refused one leaves the state as it was.
pub fn request_install(
    state: &mut AppState,
    params: InstallDatabaseParams,
    suffix: &str,
    now: String,
) -> (outcome: Result<InstallRequest, LifecycleError>)
    ensures
        final(state).same_but_tasks(old(state)),
        match install_refusal(old(state), params.db_type@) {
            Some(InstallRefusal::Installed) => {
                &&& outcome matches Err(LifecycleError::Conflict(said))
                &&& said@ == "Database type already installed"@
                &&& *final(state) == *old(state)
            },
            Some(InstallRefusal::Unsupported) => {
                &&& outcome matches Err(LifecycleError::InvalidState(said))
                &&& said@ == "Unsupported database type"@
                &&& *final(state) == *old(state)
            },
            None => {
                &&& outcome matches Ok(request)
                &&& requests(old(state), params, suffix@, request)
                &&& final(state).tasks@.dom() == old(state).tasks@.dom().insert(request.task_id@)
                &&& final(state).tasks@[request.task_id@]@ == pending_task(
                    params.db_type@,
                    suffix@,
                    now@,
                )
                &&& forall|k: Seq<char>|
                    old(state).tasks@.dom().contains(k) && k != request.task_id@ ==> (
                    #[trigger] final(state).tasks@[k]) == old(state).tasks@[k]
            },
        },
{
    if state.get_database_by_type(params.db_type.as_str()).is_some() {
        return Err(LifecycleError::Conflict("Database type already installed".to_string()));
    }
    let db_type = match DatabaseType::from_name(params.db_type.as_str()) {
        Some(t) => t,
        None => {
            return Err(LifecycleError::InvalidState("Unsupported database type".to_string()));
        },
    };
    let storage_path = state.settings.default_storage_path.clone();
    let prefix = concat("install-", params.db_type.as_str());
    let task_id = hyphenate(prefix.as_str(), suffix);
    let task = AsyncTask {
        id: task_id.clone(),
        task_type: "install".to_string(),
        db_type: params.db_type.clone(),
        status: TaskStatus::Pending,
        progress: 0,
        message: "Installation pending...".to_string(),
        error: None,
        created_at: now.clone(),
        updated_at: now,
    };
    assert(task@ == pending_task(params.db_type@, suffix@, now@));
    state.add_task(task);
    let InstallDatabaseParams { db_type: _, version, port, username, password } = params;
    Ok(InstallRequest { task_id, db_type, storage_path, version, port, username, password })
}

/// Accepts or refuses an installation, at the present moment. An accepted
/// one gets a pending task with a fresh id.
pub fn install_database(state: &mut AppState, params: InstallDatabaseParams) -> (outcome: Result<
    InstallRequest,
    LifecycleError,
>)
    ensures
        final(state).same_but_tasks(old(state)),
        match install_refusal(old(state), params.db_type@) {
            Some(InstallRefusal::Installed) => {
                &&& outcome matches Err(LifecycleError::Conflict(said))
                &&& said@ == "Database type already installed"@
                &&& *final(state) == *old(state)
            },
            Some(InstallRefusal::Unsupported) => {
                &&& outcome matches Err(LifecycleError::InvalidState(said))
                &&& said@ == "Unsupported database type"@
                &&& *final(state) == *old(state)
            },
            None => {
                &&& outcome matches Ok(request)
                &&& exists|suffix: Seq<char>, now: Seq<char>|
                    {
                        &&& requests(old(state), params, suffix, request)
                        &&& final(state).tasks@[request.task_id@]@ == pending_task(
                            params.db_type@,
                            suffix,
                            now,
                        )
                    }
                &&& final(state).tasks@.dom() == old(state).tasks@.dom().insert(request.task_id@)
                &&& forall|k: Seq<char>|
                    old(state).tasks@.dom().contains(k) && k != request.task_id@ ==> (
                    #[trigger] final(state).tasks@[k]) == old(state).tasks@[k]
            },
        },
{
    let suffix = generate_id();
    let now = get_timestamp();
    let outcome = request_install(state, params, suffix.as_str(), now);
    proof {
        if outcome is Ok {
            assert(requests(old(state), params, suffix@, outcome->Ok_0));
        }
    }
    outcome
}

/// The task once the worker has reported that it runs and how far it is.
pub open spec fn progressed(task: TaskView, progress: u8, message: Seq<char>, now: Seq<char>) -> TaskView {
    TaskView { status: TaskStatus::Running, progress, message, updated_at: now, ..task }
}

/// The worker reports that the installation runs, how far it is, and what
/// it does. The changed task is handed back; without such a task nothing
/// happens.
pub fn report_install_progress(
    state: &mut AppState,
    task_id: &str,
    progress: u8,
    message: &str,
    now: String,
) -> (shown: Option<AsyncTask>)
    ensures
        final(state).same_but_tasks(old(state)),
        match shown {
            Some(task) => {
                &&& old(state).tasks@.dom().contains(task_id@)
                &&& task@ == progressed(old(state).tasks@[task_id@]@, progress, message@, now@)
                &&& final(state).tasks@ == old(state).tasks@.insert(task_id@, task)
            },
            None => !old(state).tasks@.dom().contains(task_id@) && *final(state) == *old(state),
        },
{
    match state.get_task(task_id) {
        None => None,
        Some(task) => {
            let mut task = task;
            task.status = TaskStatus::Running;
            task.progress = progress;
            task.message = message.to_owned();
            task.updated_at = now;
            let shown = task.clone();
            let _ = state.tasks.insert(task_id.to_owned(), task);
            Some(shown)
        },
    }
}

/// The progress that is shown one tick after `current` was shown.
pub open spec fn spec_next_progress(current: u8) -> u8 {
    if current >= PROGRESS_CEILING - PROGRESS_STEP {
        PROGRESS_CEILING
    } else {
        (current + PROGRESS_STEP) as u8
    }
}

/// The progress that is shown one tick after `current` was shown: it grows
/// by a fixed step and stops short of completion.
pub fn next_progress(current: u8) -> (next: u8)
    ensures
        next == spec_next_progress(current),
        next <= PROGRESS_CEILING,
        current < PROGRESS_CEILING ==> next > current,
{
    if current >= PROGRESS_CEILING - PROGRESS_STEP {
        PROGRESS_CEILING
    } else {
        current + PROGRESS_STEP
    }
}

/// The task after a tick of the clock.
pub open spec fn ticked(task: TaskView, progress: u8, now: Seq<char>) -> TaskView {
    TaskView { progress, updated_at: now, ..task }
}

/// One tick of the clock while an installation runs: the task shows
/// `progress`. A task that is missing, or that no longer runs, is left alone
/// and `None` comes back: the ticking is to end.
pub fn tick_install_progress(state: &mut AppState, task_id: &str, progress: u8, now: String) -> (shown:
    Option<AsyncTask>)
    ensures
        final(state).same_but_tasks(old(state)),
        match shown {
            Some(task) => {
                &&& old(state).tasks@.dom().contains(task_id@)
                &&& old(state).tasks@[task_id@].status == TaskStatus::Running
                &&& task@ == ticked(old(state).tasks@[task_id@]@, progress, now@)
                &&& final(state).tasks@ == old(state).tasks@.insert(task_id@, task)
            },
            None => {
                &&& !(old(state).tasks@.dom().contains(task_id@) && old(
                    state,
                ).tasks@[task_id@].status == TaskStatus::Running)
                &&& *final(state) == *old(state)
            },
        },
{
    match state.get_task(task_id) {
        None => None,
        Some(task) => {
            let mut task = task;
            match task.status {
                TaskStatus::Running => {
                    task.progress = progress;
                    task.updated_at = now;
                    let shown = task.clone();
                    let _ = state.tasks.insert(task_id.to_owned(), task);
                    Some(shown)
                },
                _ => None,
            }
        },
    }
}

/// How an installation ended.
pub enum InstallEnd {
    /// The engine was installed and its record was added.
    Registered,
    /// The engine was installed, but its record was refused with this text.
    Unregistered(Seq<char>),
    /// The engine was not installed; this is what the installer reported.
    Failed(Seq<char>),
}

/// How an installation ended that came back with `result`, for a registry
/// that held `m`.
pub open spec fn install_end(m: crate::registry::Registry, result: Result<DatabaseInfo, String>) -> InstallEnd {
    match result {
        Ok(db_info) => match add_refusal(m, db_info@) {
            None => InstallEnd::Registered,
            Some(text) => InstallEnd::Unregistered(text),
        },
        Err(diagnostic) => InstallEnd::Failed(diagnostic@),
    }
}

/// The task of an installation that ended.
pub open spec fn finished_task(task: TaskView, end: InstallEnd, now: Seq<char>) -> TaskView {
    match end {
        InstallEnd::Registered => TaskView {
            status: TaskStatus::Completed,
            progress: 100,
            message: "Installation completed successfully"@,
            updated_at: now,
            ..task
        },
        InstallEnd::Unregistered(text) => TaskView {
            status: TaskStatus::Failed,
            error: Some("Failed to add database to state: "@ + text),
            message: "Installation completed but failed to register"@,
            updated_at: now,
            ..task
        },
        InstallEnd::Failed(diagnostic) => TaskView {
            status: TaskStatus::Failed,
            error: Some("Installation failed: "@ + diagnostic),
            message: "Installation failed"@,
            updated_at: now,
            ..task
        },
    }
}

/// Takes in what the installer came back with. A record that came back is
/// added, unless its id or its engine is taken; nothing is added where the
/// installer failed. The task tells how it ended and is handed back; where
/// the task is gone, the tasks stay as they were.
pub fn finish_install(
    state: &mut AppState,
    task_id: &str,
    result: Result<DatabaseInfo, String>,
    now: String,
) -> (shown: Option<AsyncTask>)
    ensures
        final(state).settings == old(state).settings,
        final(state).db_manager == old(state).db_manager,
        registry_ok(final(state).databases@),
        final(state).databases@ == (match result {
            Ok(db_info) => added(old(state).databases@, db_info@),
            Err(_) => old(state).databases@,
        }),
        match shown {
            Some(task) => {
                &&& old(state).tasks@.dom().contains(task_id@)
                &&& task@ == finished_task(
                    old(state).tasks@[task_id@]@,
                    install_end(old(state).databases@, result),
                    now@,
                )
                &&& final(state).tasks@ == old(state).tasks@.insert(task_id@, task)
            },
            None => !old(state).tasks@.dom().contains(task_id@) && final(state).tasks == old(
                state,
            ).tasks,
        },
{
    let (registered, installed): (Result<(), String>, bool) = match result {
        Ok(db_info) => match state.add_database(db_info) {
            Ok(_) => (Ok(()), true),
            Err(error) => (
                Err(concat("Failed to add database to state: ", error.message().as_str())),
                true,
            ),
        },
        Err(diagnostic) => {
            proof {
                use_type_invariant(&state.databases);
            }
            (Err(concat("Installation failed: ", diagnostic.as_str())), false)
        },
    };
    match state.get_task(task_id) {
        None => None,
        Some(task) => {
            let mut task = task;
            match registered {
                Ok(_) => {
                    task.status = TaskStatus::Completed;
                    task.progress = 100;
                    task.message = "Installation completed successfully".to_string();
                },
                Err(text) => {
                    task.status = TaskStatus::Failed;
                    task.error = Some(text);
                    task.message = if installed {
                        "Installation completed but failed to register".to_string()
                    } else {
                        "Installation failed".to_string()
                    };
                },
            }
            task.updated_at = now;
            let shown = task.clone();
            let _ = state.tasks.insert(task_id.to_owned(), task);
            Some(shown)
        },
    }
}

} // verus!
