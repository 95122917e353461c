use crate::error::LifecycleError;
use crate::text::{concat, opt_text, texts};
use crate::utils::{
    get_db_bin_path, get_db_config_path, get_db_data_path, get_db_log_path, path_join, spec_db_path,
};
use crate::types::{DatabaseInfo, DatabaseRecord, DatabaseStatus, DatabaseType};
use vstd::prelude::*;

verus! {

/// The processors for which engines are fetched.
#[derive(Clone, Copy, Debug, PartialEq, Eq, Structural)]
pub enum Arch {
    Aarch64,
    X86_64,
}

/// The characters of an optional string slice.
pub open spec fn opt_slice(o: Option<&str>) -> Option<Seq<char>> {
    match o {
        Some(s) => Some(s@),
        None => None,
    }
}

/// An owned copy of an optional string slice.
pub fn owned(o: Option<&str>) -> (copy: Option<String>)
    ensures
        opt_text(copy) == opt_slice(o),
{
    match o {
        Some(s) => Some(s.to_owned()),
        None => None,
    }
}

/// `given` where there is one, `fallback` otherwise.
pub open spec fn spec_or_default(given: Option<Seq<char>>, fallback: Seq<char>) -> Seq<char> {
    match given {
        Some(s) => s,
        None => fallback,
    }
}

/// An owned copy of `given` where there is one, of `fallback` otherwise.
pub fn or_default(given: Option<&str>, fallback: &str) -> (chosen: String)
    ensures
        chosen@ == spec_or_default(opt_slice(given), fallback@),
{
    match given {
        Some(s) => s.to_owned(),
        None => fallback.to_owned(),
    }
}

/// `given` where there is one, the well-known port of the engine otherwise.
pub open spec fn spec_port_or_default(given: Option<u16>, db_type: DatabaseType) -> u16 {
    match given {
        Some(port) => port,
        None => db_type.spec_default_port(),
    }
}

/// The port of an installation: the one that was asked for, or the
/// well-known port of the engine where none was.
pub fn port_or_default(given: Option<u16>, db_type: DatabaseType) -> (port: u16)
    ensures
        port == spec_port_or_default(given, db_type),
{
    match given {
        Some(port) => port,
        None => db_type.default_port(),
    }
}

/// A file that an installation writes.
#[derive(Debug, PartialEq, Eq)]
pub struct ConfigFile {
    pub path: String,
    pub content: String,
}

/// A program that is to be run.
#[derive(Debug, PartialEq, Eq)]
pub struct Invocation {
    pub program: String,
    pub args: Vec<String>,
}

/// An engine that is to be run as a process of its own.
#[derive(Debug, PartialEq, Eq)]
pub struct SpawnPlan {
    pub invocation: Invocation,
    /// The file that is to hold the id of the process, if one is kept.
    pub pid_file: Option<String>,
}

/// What a `SpawnPlan` holds, as plain values.
pub struct SpawnView {
    pub program: Seq<char>,
    pub args: Seq<Seq<char>>,
    pub pid_file: Option<Seq<char>>,
}

impl View for SpawnPlan {
    type V = SpawnView;

    open spec fn view(&self) -> SpawnView {
        SpawnView {
            program: self.invocation.program@,
            args: texts(self.invocation.args@),
            pid_file: opt_text(self.pid_file),
        }
    }
}

/// Whether `outcome` is the plan, or the refusal, that `expected` describes.
pub open spec fn spawn_outcome(
    outcome: Result<SpawnPlan, LifecycleError>,
    expected: Result<SpawnView, Seq<char>>,
) -> bool {
    match expected {
        Ok(view) => outcome matches Ok(plan) && plan@ == view,
        Err(text) => outcome matches Err(LifecycleError::Provisioning(said)) && said@ == text,
    }
}

/// The strings of `args`, as owned arguments.
pub fn arguments(args: &Vec<&str>) -> (owned_args: Vec<String>)
    ensures
        texts(owned_args@) == crate::text::slices(args@),
{
    let mut owned_args: Vec<String> = Vec::new();
    let mut i: usize = 0;
    while i < args.len()
        invariant
            i <= args.len(),
            owned_args.len() == i,
            forall|j: int| 0 <= j < i ==> (#[trigger] owned_args[j])@ == args[j]@,
        decreases args.len() - i,
    {
        owned_args.push(args[i].to_owned());
        i += 1;
    }
    assert(texts(owned_args@) =~= crate::text::slices(args@));
    owned_args
}

/// When the data directory of an engine is set up.
#[derive(Debug, PartialEq, Eq)]
pub enum InitCondition {
    /// Where this path does not exist.
    PathMissing(String),
    /// Where this directory is empty.
    DirectoryEmpty(String),
}

/// How the data directory of an engine is set up before its first start.
#[derive(Debug, PartialEq, Eq)]
pub struct Initialization {
    pub condition: InitCondition,
    pub invocation: Invocation,
}

/// What is done about the data directory of an engine before its first
/// start.
#[derive(Debug, PartialEq, Eq)]
pub enum InitStep {
    /// Nothing is to be done.
    Nothing,
    /// The data directory cannot be set up; the text says why.
    Refuse(String),
    /// The program that sets up the data directory is run.
    Run,
}

/// What is done about the data directory of an engine before its first
/// start. `program_exists` tells whether the program that sets it up is
/// there, `condition_holds` whether the directory is in the state in which
/// it is set up. Where nothing is to be set up, nothing is done. Without
/// the program the installation is refused. Else the program is run exactly
/// where the condition holds.
pub fn init_step(
    initialization: Option<&Initialization>,
    program_exists: bool,
    condition_holds: bool,
) -> (step: InitStep)
    ensures
        match initialization {
            None => step == InitStep::Nothing,
            Some(init) => if !program_exists {
                step matches InitStep::Refuse(said) && said@ == init.invocation.program@
                    + " not found"@
            } else if condition_holds {
                step == InitStep::Run
            } else {
                step == InitStep::Nothing
            },
        },
{
    match initialization {
        None => InitStep::Nothing,
        Some(init) => {
            if !program_exists {
                InitStep::Refuse(concat(init.invocation.program.as_str(), " not found"))
            } else if condition_holds {
                InitStep::Run
            } else {
                InitStep::Nothing
            }
        },
    }
}

/// What is to be done to install an engine.
#[derive(Debug)]
pub struct InstallPlan {
    /// The directories that are to exist, in the order in which they are
    /// made.
    pub directories: Vec<String>,
    /// The file whose presence tells that the engine need not be fetched.
    pub binary_path: String,
    /// Where the engine is fetched from.
    pub download_url: String,
    /// The file in which what was fetched is kept until it is unpacked, where
    /// it is kept at all.
    pub archive_path: Option<String>,
    /// The directory into which what was fetched is unpacked.
    pub unpack_dir: String,
    /// The configuration that is written.
    pub config_file: Option<ConfigFile>,
    /// How the data directory is set up, where it needs to be.
    pub initialization: Option<Initialization>,
    /// The record of the engine once it is installed and not yet started.
    pub record: DatabaseInfo,
    /// Whether the engine is to be started at once.
    pub auto_start: bool,
}

/// The four directories of an engine under the storage path.
pub struct EngineDirs {
    pub bin: Seq<char>,
    pub data: Seq<char>,
    pub logs: Seq<char>,
    pub config: Seq<char>,
}

/// The four directories of the engine that is kept under the name `dir`.
pub open spec fn engine_dirs(storage: Seq<char>, dir: Seq<char>) -> EngineDirs {
    EngineDirs {
        bin: spec_db_path(storage, "bin"@, dir),
        data: spec_db_path(storage, "data"@, dir),
        logs: spec_db_path(storage, "logs"@, dir),
        config: spec_db_path(storage, "config"@, dir),
    }
}

/// The directories that an installation makes: those of the binaries, the
/// data and the logs, and that of the configuration where one is kept.
pub open spec fn made_directories(dirs: EngineDirs, with_config: bool) -> Seq<Seq<char>> {
    if with_config {
        seq![dirs.bin, dirs.data, dirs.logs, dirs.config]
    } else {
        seq![dirs.bin, dirs.data, dirs.logs]
    }
}

/// The directories of an engine, as they are made.
pub struct Layout {
    pub bin: String,
    pub data: String,
    pub logs: String,
    pub config: String,
}

impl View for Layout {
    type V = EngineDirs;

    open spec fn view(&self) -> EngineDirs {
        EngineDirs { bin: self.bin@, data: self.data@, logs: self.logs@, config: self.config@ }
    }
}

/// The four directories of the engine that is kept under the name `dir`.
pub fn layout_of(storage_path: &str, dir: &str) -> (layout: Layout)
    ensures
        layout@ == engine_dirs(storage_path@, dir@),
{
    Layout {
        bin: get_db_bin_path(storage_path, dir),
        data: get_db_data_path(storage_path, dir),
        logs: get_db_log_path(storage_path, dir),
        config: get_db_config_path(storage_path, dir),
    }
}

/// The directories that an installation makes.
pub fn directories_of(layout: &Layout, with_config: bool) -> (directories: Vec<String>)
    ensures
        texts(directories@) == made_directories(layout@, with_config),
{
    let mut directories: Vec<String> = Vec::new();
    directories.push(layout.bin.clone());
    directories.push(layout.data.clone());
    directories.push(layout.logs.clone());
    if with_config {
        directories.push(layout.config.clone());
    }
    assert(texts(directories@) =~= made_directories(layout@, with_config));
    directories
}

/// The record of an engine that was just installed, as a stopped one.
pub open spec fn fresh_record(
    id: Seq<char>,
    name: Seq<char>,
    db_type: DatabaseType,
    version: Seq<char>,
    install_path: Seq<char>,
    data_path: Seq<char>,
    log_path: Seq<char>,
    port: u16,
    username: Option<Seq<char>>,
    password: Option<Seq<char>>,
    config: Option<Seq<char>>,
    auto_start: bool,
    now: Seq<char>,
) -> DatabaseRecord {
    DatabaseRecord {
        id,
        name,
        db_type,
        version,
        install_path,
        data_path,
        log_path,
        port,
        username,
        password,
        config,
        status: DatabaseStatus::Stopped,
        auto_start,
        pid: None,
        created_at: now,
        updated_at: now,
    }
}

/// The record of an engine that was just installed, as a stopped one.
pub fn new_record(
    id: String,
    name: &str,
    db_type: DatabaseType,
    version: String,
    install_path: String,
    data_path: String,
    log_path: String,
    port: u16,
    username: Option<String>,
    password: Option<String>,
    config: Option<String>,
    auto_start: bool,
    now: String,
) -> (record: DatabaseInfo)
    ensures
        record@ == fresh_record(
            id@,
            name@,
            db_type,
            version@,
            install_path@,
            data_path@,
            log_path@,
            port,
            opt_text(username),
            opt_text(password),
            opt_text(config),
            auto_start,
            now@,
        ),
{
    DatabaseInfo {
        id,
        name: name.to_owned(),
        db_type,
        version,
        install_path,
        data_path,
        log_path,
        port,
        username,
        password,
        config,
        status: DatabaseStatus::Stopped,
        auto_start,
        pid: None,
        created_at: now.clone(),
        updated_at: now,
    }
}

/// What is done with what was fetched for an engine.
#[derive(Debug, PartialEq, Eq)]
pub enum Unpacking {
    /// It is written to this file, unpacked from there into the directory
    /// of the plan, and the file is removed again.
    Archive(String),
    /// It is a gzip-compressed tar archive in memory, of which the entry
    /// with the name of the binary is written out as the binary.
    BinaryEntry,
    /// It is a zip archive in memory that is unpacked into the directory of
    /// the plan.
    Zip,
}

/// Whether an engine is fetched, and what is done with what was fetched.
#[derive(Debug, PartialEq, Eq)]
pub enum FetchStep {
    /// The binary is there: nothing is fetched.
    Skip,
    /// The engine is fetched and unpacked.
    Fetch(Unpacking),
}

/// How a plan gets its engine: nothing is fetched where the binary exists.
/// Else what is fetched goes to the archive file of the plan where it names
/// one; without one it is held in memory, on macOS as a gzip-compressed tar
/// archive that holds the binary, elsewhere as a zip archive.
pub fn fetch_step(plan: &InstallPlan, macos: bool, binary_exists: bool) -> (step: FetchStep)
    ensures
        match step {
            FetchStep::Skip => binary_exists,
            FetchStep::Fetch(Unpacking::Archive(file)) => !binary_exists && opt_text(
                plan.archive_path,
            ) == Some(file@),
            FetchStep::Fetch(Unpacking::BinaryEntry) => !binary_exists && plan.archive_path is None
                && macos,
            FetchStep::Fetch(Unpacking::Zip) => !binary_exists && plan.archive_path is None
                && !macos,
        },
{
    if binary_exists {
        return FetchStep::Skip;
    }
    match &plan.archive_path {
        Some(path) => FetchStep::Fetch(Unpacking::Archive(path.clone())),
        None => if macos {
            FetchStep::Fetch(Unpacking::BinaryEntry)
        } else {
            FetchStep::Fetch(Unpacking::Zip)
        },
    }
}

/// How an engine is started at the end of its installation.
#[derive(Debug, PartialEq, Eq)]
pub enum StartAction {
    /// No start is made.
    NoStart,
    /// The service of this name is restarted by the service manager. Where
    /// that fails, the installation has failed.
    RestartService(String),
    /// The engine is started as a process of its own. Where that fails, a
    /// lenient installation still stands, and a strict one has failed.
    StartProcess { lenient: bool },
}

impl StartAction {
    /// Whether the installation stands where the start fails.
    pub open spec fn spec_lenient(self) -> bool {
        self matches StartAction::StartProcess { lenient } && lenient
    }

    /// Whether the installation stands where the start fails.
    pub fn lenient(&self) -> (lenient: bool)
        ensures
            lenient == self.spec_lenient(),
    {
        match self {
            StartAction::StartProcess { lenient } => *lenient,
            _ => false,
        }
    }
}

/// How an engine that was installed by its formula is started: not at all
/// where no start was asked for; by a restart of its service where it has
/// one, which must succeed; else as a process of its own, whose failure the
/// installation survives.
pub fn start_after_install(auto_start: bool, service_name: Option<&str>) -> (action: StartAction)
    ensures
        match action {
            StartAction::NoStart => !auto_start,
            StartAction::RestartService(name) => auto_start && opt_slice(service_name) == Some(
                name@,
            ),
            StartAction::StartProcess { lenient } => auto_start && service_name is None && lenient,
        },
{
    if !auto_start {
        return StartAction::NoStart;
    }
    match service_name {
        Some(service) => StartAction::RestartService(service.to_owned()),
        None => StartAction::StartProcess { lenient: true },
    }
}

/// How an engine that was installed by a plan is started: not at all where
/// the plan asks for no start, else as a process of its own. Only on macOS
/// does the installation survive the failure of that start.
pub fn start_of_plan(plan: &InstallPlan, macos: bool) -> (action: StartAction)
    ensures
        match action {
            StartAction::NoStart => !plan.auto_start,
            StartAction::RestartService(name) => false,
            StartAction::StartProcess { lenient } => plan.auto_start && lenient == macos,
        },
{
    if plan.auto_start {
        StartAction::StartProcess { lenient: macos }
    } else {
        StartAction::NoStart
    }
}

/// How the start that ends an installation went: none was made, or it
/// succeeded, or it failed with a diagnostic.
#[derive(Debug)]
pub enum StartReport {
    NotAsked,
    Started,
    Failed(String),
}

/// What an installation comes to, given how the start that ends it went.
pub open spec fn concluded(record: DatabaseRecord, start: StartReport, lenient: bool) -> Result<
    DatabaseRecord,
    Seq<char>,
> {
    if !record.auto_start {
        Ok(record)
    } else {
        match start {
            StartReport::NotAsked => Ok(record),
            StartReport::Started => Ok(DatabaseRecord { status: DatabaseStatus::Running, ..record }),
            StartReport::Failed(diagnostic) => if lenient {
                Ok(record)
            } else {
                Err(diagnostic@)
            },
        }
    }
}

/// What an installation comes to, given how the start that ends it went.
/// The record of an engine that is not to start by itself stays as it is,
/// whatever is reported. Else an engine that was started runs, and one for
/// which no start was made stays as it is. Where the start failed, a
/// lenient installation still stands, with the record as it is; a strict
/// one has failed with the diagnostic.
pub fn conclude_install(record: DatabaseInfo, start: StartReport, lenient: bool) -> (outcome: Result<
    DatabaseInfo,
    LifecycleError,
>)
    ensures
        match concluded(record@, start, lenient) {
            Ok(done) => outcome matches Ok(info) && info@ == done,
            Err(diagnostic) => outcome matches Err(LifecycleError::Provisioning(said)) && said@
                == diagnostic,
        },
{
    let mut record = record;
    if !record.auto_start {
        return Ok(record);
    }
    match start {
        StartReport::NotAsked => Ok(record),
        StartReport::Started => {
            record.status = DatabaseStatus::Running;
            Ok(record)
        },
        StartReport::Failed(diagnostic) => {
            if lenient {
                Ok(record)
            } else {
                Err(LifecycleError::Provisioning(diagnostic))
            }
        },
    }
}

/// The status of an engine after its installation follows whether it is to
/// start by itself: a record that was stopped, of an engine that is not to
/// start by itself, is stopped afterwards; and a record that runs afterwards
/// is of an engine that is to start by itself and whose start succeeded.
pub proof fn lemma_status_follows_auto_start(
    record: DatabaseRecord,
    start: StartReport,
    lenient: bool,
)
    requires
        record.status == DatabaseStatus::Stopped,
    ensures
        concluded(record, start, lenient) matches Ok(done) ==> (done.status
            == DatabaseStatus::Running <==> record.auto_start && start is Started),
        !record.auto_start ==> concluded(record, start, lenient) == Ok::<
            DatabaseRecord,
            Seq<char>,
        >(record),
        record.auto_start && start is Started ==> concluded(record, start, lenient) == Ok::<
            DatabaseRecord,
            Seq<char>,
        >(DatabaseRecord { status: DatabaseStatus::Running, ..record }),
{
}

/// What the plan of an installation holds beside how the data directory is
/// set up: the directories to make, the binary that tells whether the engine
/// is there, where it is fetched from and unpacked, the configuration to
/// write, and the record.
pub open spec fn plan_holds(
    plan: InstallPlan,
    storage: Seq<char>,
    dir: Seq<char>,
    binary_path: Seq<char>,
    download_url: Seq<char>,
    archive: Option<Seq<char>>,
    with_config_dir: bool,
    config: Option<(Seq<char>, Seq<char>)>,
    record: DatabaseRecord,
) -> bool {
    let dirs = engine_dirs(storage, dir);
    &&& texts(plan.directories@) == made_directories(dirs, with_config_dir)
    &&& plan.binary_path@ == binary_path
    &&& plan.download_url@ == download_url
    &&& opt_text(plan.archive_path) == (match archive {
        Some(file) => Some(path_join(dirs.bin, file)),
        None => None,
    })
    &&& plan.unpack_dir@ == dirs.bin
    &&& match config {
        Some((path, content)) => plan.config_file matches Some(file) && file.path@ == path
            && file.content@ == content,
        None => plan.config_file is None,
    }
    &&& plan.record@ == record
    &&& plan.auto_start == record.auto_start
}

/// The refusal that says `text`.
pub fn refuse<T>(text: &str) -> (outcome: Result<T, LifecycleError>)
    ensures
        outcome matches Err(LifecycleError::Provisioning(said)) && said@ == text@,
{
    Err(LifecycleError::Provisioning(text.to_owned()))
}

/// An optional string as a slice.
pub fn as_slice(o: &Option<String>) -> (slice: Option<&str>)
    ensures
        opt_slice(slice) == opt_text(*o),
{
    match o {
        Some(s) => Some(s.as_str()),
        None => None,
    }
}

} // verus!
