use crate::error::LifecycleError;
use crate::table::Table;
use crate::text::concat;
use crate::types::{DatabaseInfo, DatabaseRecord, DatabaseStatus, OperationResult};
use crate::utils::{get_timestamp, join_path, path_join};
use vstd::prelude::*;

verus! {

/// The first process id that the in-memory process table hands out.
pub const FIRST_MOCK_PID: u32 = 10000;

/// The record of an engine that was started under `pid` at the moment `now`.
pub open spec fn spec_started(record: DatabaseRecord, pid: Option<u32>, now: Seq<char>) -> DatabaseRecord {
    DatabaseRecord { status: DatabaseStatus::Running, pid, updated_at: now, ..record }
}

/// The record of an engine that was stopped at the moment `now`.
pub open spec fn spec_stopped(record: DatabaseRecord, now: Seq<char>) -> DatabaseRecord {
    DatabaseRecord { status: DatabaseStatus::Stopped, pid: None, updated_at: now, ..record }
}

/// The text with which a start is refused, if the record's state refuses it.
pub open spec fn start_refusal(status: DatabaseStatus) -> Option<Seq<char>> {
    match status {
        DatabaseStatus::NotInstalled => Some("Database is not installed"@),
        DatabaseStatus::Running => Some("Database is already running"@),
        DatabaseStatus::Stopped => None,
    }
}

/// The text with which a stop is refused, if the record's state refuses it.
pub open spec fn stop_refusal(status: DatabaseStatus) -> Option<Seq<char>> {
    match status {
        DatabaseStatus::Running => None,
        _ => Some("Database is not running"@),
    }
}

/// Whether `outcome` is the refusal that `refusal` describes.
pub open spec fn refused_with(outcome: Result<(), LifecycleError>, refusal: Option<Seq<char>>) -> bool {
    match refusal {
        Some(text) => outcome matches Err(LifecycleError::InvalidState(said)) && said@ == text,
        None => outcome is Ok,
    }
}

/// Whether a record may be started: only a stopped one may.
pub fn check_startable(db_info: &DatabaseInfo) -> (outcome: Result<(), LifecycleError>)
    ensures
        refused_with(outcome, start_refusal(db_info.status)),
{
    match db_info.status {
        DatabaseStatus::NotInstalled => Err(
            LifecycleError::InvalidState("Database is not installed".to_string()),
        ),
        DatabaseStatus::Running => Err(
            LifecycleError::InvalidState("Database is already running".to_string()),
        ),
        DatabaseStatus::Stopped => Ok(()),
    }
}

/// Whether a record may be stopped: only a running one may.
pub fn check_stoppable(db_info: &DatabaseInfo) -> (outcome: Result<(), LifecycleError>)
    ensures
        refused_with(outcome, stop_refusal(db_info.status)),
{
    match db_info.status {
        DatabaseStatus::Running => Ok(()),
        _ => Err(LifecycleError::InvalidState("Database is not running".to_string())),
    }
}

/// What a start that the backend has answered makes of a record, and what it
/// answers: a started record and a word of success, or the record as it was
/// and the backend's diagnostic.
pub open spec fn start_outcome(
    record: DatabaseRecord,
    backend: Result<Option<u32>, String>,
    now: Seq<char>,
    after: DatabaseRecord,
    answer: Result<OperationResult<()>, LifecycleError>,
) -> bool {
    match backend {
        Ok(pid) => {
            &&& after == spec_started(record, pid, now)
            &&& answer matches Ok(said)
            &&& said.success
            &&& said.message@ == record.name + " started successfully"@
            &&& said.data is None
        },
        Err(diagnostic) => {
            &&& after == record
            &&& answer matches Err(LifecycleError::Provisioning(said))
            &&& said@ == "Failed to start database: "@ + diagnostic@
        },
    }
}

/// What a stop that the backend has answered makes of a record, and what it
/// answers.
pub open spec fn stop_outcome(
    record: DatabaseRecord,
    backend: Result<(), String>,
    now: Seq<char>,
    after: DatabaseRecord,
    answer: Result<OperationResult<()>, LifecycleError>,
) -> bool {
    match backend {
        Ok(_) => {
            &&& after == spec_stopped(record, now)
            &&& answer matches Ok(said)
            &&& said.success
            &&& said.message@ == record.name + " stopped successfully"@
            &&& said.data is None
        },
        Err(diagnostic) => {
            &&& after == record
            &&& answer matches Err(LifecycleError::Provisioning(said))
            &&& said@ == "Failed to stop database: "@ + diagnostic@
        },
    }
}

/// Records what the backend answered to a start: on success the record runs
/// under the process id that came back, on failure it stays as it was.
pub fn finish_start(
    db_info: &mut DatabaseInfo,
    backend: Result<Option<u32>, String>,
    now: String,
) -> (answer: Result<OperationResult<()>, LifecycleError>)
    ensures
        start_outcome(old(db_info)@, backend, now@, final(db_info)@, answer),
        backend is Err ==> *final(db_info) == *old(db_info),
{
    match backend {
        Ok(pid) => {
            db_info.status = DatabaseStatus::Running;
            db_info.pid = pid;
            db_info.updated_at = now;
            let message = concat(db_info.name.as_str(), " started successfully");
            Ok(OperationResult::success(message, None))
        },
        Err(diagnostic) => Err(
            LifecycleError::Provisioning(concat("Failed to start database: ", diagnostic.as_str())),
        ),
    }
}

/// Records what the backend answered to a stop: on success the record is
/// stopped and has no process id, on failure it stays as it was.
pub fn finish_stop(db_info: &mut DatabaseInfo, backend: Result<(), String>, now: String) -> (answer:
    Result<OperationResult<()>, LifecycleError>)
    ensures
        stop_outcome(old(db_info)@, backend, now@, final(db_info)@, answer),
        backend is Err ==> *final(db_info) == *old(db_info),
{
    match backend {
        Ok(_) => {
            db_info.status = DatabaseStatus::Stopped;
            db_info.pid = None;
            db_info.updated_at = now;
            let message = concat(db_info.name.as_str(), " stopped successfully");
            Ok(OperationResult::success(message, None))
        },
        Err(diagnostic) => Err(
            LifecycleError::Provisioning(concat("Failed to stop database: ", diagnostic.as_str())),
        ),
    }
}

/// Starts and stops engines against a process table that it keeps in memory.
pub struct DatabaseManager {
    storage_path: String,
    mock_pids: Table<u32>,
    next_pid: u32,
}

impl DatabaseManager {
    /// The directory under which everything is kept.
    pub closed spec fn storage(&self) -> Seq<char> {
        self.storage_path@
    }

    /// The process id of each record that runs.
    pub closed spec fn processes(&self) -> Map<Seq<char>, u32> {
        self.mock_pids@
    }

    /// The process id that the next start gets.
    pub closed spec fn next_pid(&self) -> u32 {
        self.next_pid
    }

    /// The process id that follows `pid`.
    pub open spec fn pid_after(pid: u32) -> u32 {
        if pid == u32::MAX {
            FIRST_MOCK_PID
        } else {
            (pid + 1) as u32
        }
    }

    /// A manager that keeps its files under `storage_path` and has started
    /// nothing yet.
    pub fn new(storage_path: &str) -> (manager: Self)
        ensures
            manager.storage() == storage_path@,
            manager.processes() == Map::<Seq<char>, u32>::empty(),
            manager.next_pid() == FIRST_MOCK_PID,
    {
        DatabaseManager {
            storage_path: storage_path.to_owned(),
            mock_pids: Table::new(),
            next_pid: FIRST_MOCK_PID,
        }
    }

    /// The directory under which everything is kept.
    pub fn storage_path(&self) -> (path: &str)
        ensures
            path@ == self.storage(),
    {
        self.storage_path.as_str()
    }

    /// Hands out the next process id. After the largest one the first one
    /// comes again.
    fn generate_mock_pid(&mut self) -> (pid: u32)
        ensures
            pid == old(self).next_pid(),
            final(self).next_pid() == Self::pid_after(pid),
            final(self).processes() == old(self).processes(),
            final(self).storage() == old(self).storage(),
    {
        let pid = self.next_pid;
        self.next_pid = if pid == u32::MAX {
            FIRST_MOCK_PID
        } else {
            pid + 1
        };
        pid
    }

    /// Whether the table holds a process for the record.
    fn is_mock_process_running(&self, db_id: &str) -> (running: bool)
        ensures
            running == self.processes().dom().contains(db_id@),
    {
        self.mock_pids.contains_key(db_id)
    }

    /// Enters a process for the record into the table, under the next
    /// process id.
    fn start_mock_process(&mut self, db_id: &str) -> (pid: u32)
        ensures
            pid == old(self).next_pid(),
            final(self).next_pid() == Self::pid_after(pid),
            final(self).processes() == old(self).processes().insert(db_id@, pid),
            final(self).storage() == old(self).storage(),
    {
        let pid = self.generate_mock_pid();
        let _ = self.mock_pids.insert(db_id.to_owned(), pid);
        pid
    }

    /// Takes the process of the record out of the table.
    fn stop_mock_process(&mut self, db_id: &str)
        ensures
            final(self).next_pid() == old(self).next_pid(),
            final(self).processes() == old(self).processes().remove(db_id@),
            final(self).storage() == old(self).storage(),
    {
        let _ = self.mock_pids.remove(db_id);
    }

    /// The five directories of the storage layout.
    pub open spec fn spec_directories(storage: Seq<char>) -> Seq<Seq<char>> {
        seq![
            path_join(storage, "bin"@),
            path_join(storage, "config"@),
            path_join(storage, "data"@),
            path_join(storage, "logs"@),
            path_join(storage, "backups"@),
        ]
    }

    /// The directories that make up the storage layout, in the order in
    /// which they are to be made.
    pub fn init_directories(&self) -> (dirs: Vec<String>)
        ensures
            crate::text::texts(dirs@) == Self::spec_directories(self.storage()),
    {
        let root = self.storage_path.as_str();
        let mut dirs: Vec<String> = Vec::new();
        dirs.push(join_path(root, "bin"));
        dirs.push(join_path(root, "config"));
        dirs.push(join_path(root, "data"));
        dirs.push(join_path(root, "logs"));
        dirs.push(join_path(root, "backups"));
        assert(crate::text::texts(dirs@) =~= Self::spec_directories(self.storage()));
        dirs
    }

    /// Whether the record stands for an engine that is installed.
    pub fn is_installed(&self, db_info: &DatabaseInfo) -> (installed: bool)
        ensures
            installed == (db_info.status != DatabaseStatus::NotInstalled),
    {
        match db_info.status {
            DatabaseStatus::NotInstalled => false,
            _ => true,
        }
    }

    /// What the process table says of a record.
    pub open spec fn spec_status(&self, record: DatabaseRecord) -> DatabaseStatus {
        if record.status == DatabaseStatus::NotInstalled {
            DatabaseStatus::NotInstalled
        } else if self.processes().dom().contains(record.id) {
            DatabaseStatus::Running
        } else {
            DatabaseStatus::Stopped
        }
    }

    /// What the process table says of a record: an engine that is not
    /// installed stays so, another one runs where the table holds its id.
    pub fn get_status(&self, db_info: &DatabaseInfo) -> (status: DatabaseStatus)
        ensures
            status == self.spec_status(db_info@),
    {
        if !self.is_installed(db_info) {
            return DatabaseStatus::NotInstalled;
        }
        if self.is_mock_process_running(db_info.id.as_str()) {
            return DatabaseStatus::Running;
        }
        DatabaseStatus::Stopped
    }

    /// Starts a stopped record: it gets the next process id and runs. A
    /// record in another state is refused and nothing changes.
    pub fn start_database(&mut self, db_info: &mut DatabaseInfo) -> (answer: Result<
        OperationResult<()>,
        LifecycleError,
    >)
        ensures
            final(self).storage() == old(self).storage(),
            match start_refusal(old(db_info).status) {
                Some(text) => {
                    &&& answer matches Err(LifecycleError::InvalidState(said))
                    &&& said@ == text
                    &&& *final(db_info) == *old(db_info)
                    &&& *final(self) == *old(self)
                },
                None => {
                    &&& exists|now: Seq<char>|
                        start_outcome(
                            old(db_info)@,
                            Ok(Some(old(self).next_pid())),
                            now,
                            final(db_info)@,
                            answer,
                        )
                    &&& final(self).processes() == old(self).processes().insert(
                        old(db_info).id@,
                        old(self).next_pid(),
                    )
                    &&& final(self).next_pid() == Self::pid_after(old(self).next_pid())
                },
            },
    {
        match check_startable(db_info) {
            Err(refusal) => Err(refusal),
            Ok(_) => {
                let pid = self.start_mock_process(db_info.id.as_str());
                let now = get_timestamp();
                let answer = finish_start(db_info, Ok(Some(pid)), now);
                assert(start_outcome(
                    old(db_info)@,
                    Ok(Some(old(self).next_pid())),
                    now@,
                    db_info@,
                    answer,
                ));
                answer
            },
        }
    }

    /// Stops a running record: its process leaves the table. A record in
    /// another state is refused and nothing changes.
    pub fn stop_database(&mut self, db_info: &mut DatabaseInfo) -> (answer: Result<
        OperationResult<()>,
        LifecycleError,
    >)
        ensures
            final(self).storage() == old(self).storage(),
            final(self).next_pid() == old(self).next_pid(),
            match stop_refusal(old(db_info).status) {
                Some(text) => {
                    &&& answer matches Err(LifecycleError::InvalidState(said))
                    &&& said@ == text
                    &&& *final(db_info) == *old(db_info)
                    &&& *final(self) == *old(self)
                },
                None => {
                    &&& exists|now: Seq<char>|
                        stop_outcome(old(db_info)@, Ok(()), now, final(db_info)@, answer)
                    &&& final(self).processes() == old(self).processes().remove(old(db_info).id@)
                },
            },
    {
        match check_stoppable(db_info) {
            Err(refusal) => Err(refusal),
            Ok(_) => {
                self.stop_mock_process(db_info.id.as_str());
                let now = get_timestamp();
                let answer = finish_stop(db_info, Ok(()), now);
                assert(stop_outcome(old(db_info)@, Ok(()), now@, db_info@, answer));
                answer
            },
        }
    }
}

} // verus!
