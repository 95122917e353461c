use crate::homebrew::{parse_stop_pid, stop_pid};
use crate::provision::{Invocation, SpawnPlan};
use crate::reconcile::{parse_pid, spec_parse_pid, Platform};
use crate::text::{concat, decimal, spec_decimal, spec_trim, texts};
use crate::windows::taskkill_invocation;
use vstd::prelude::*;

verus! {

/// The milliseconds that a process is given after it was started, before it
/// is probed.
pub const SETTLE_MILLIS: u64 = 500;

/// The seconds that a process is given to end after it was asked to, before
/// it is ended by force.
pub const GRACE_SECS: u64 = 2;

/// What is done when an engine is to be started as a process of its own.
#[derive(Debug, PartialEq, Eq)]
pub enum SpawnStep {
    /// Nothing can be started; the text says why.
    Refuse(String),
    /// The process that the pid file names is alive: the engine runs
    /// already, and nothing is started.
    AlreadyRunning(i32),
    /// The program is started. A pid file that is there names no process
    /// that is alive, and is removed first.
    Launch { remove_stale: bool },
}

/// The process id that the pid file of a plan names, where the plan keeps
/// such a file, the file is there, and it holds a process id.
pub open spec fn named_pid(plan: SpawnPlan, pid_file_exists: bool, content: Option<&str>) -> Option<
    int,
> {
    if plan.pid_file is Some && pid_file_exists {
        match content {
            Some(text) => spec_parse_pid(text@),
            None => None,
        }
    } else {
        None
    }
}

/// What is done when an engine is to be started as a process of its own.
/// `binary_exists` tells whether the program of the plan is there,
/// `pid_file_exists` whether the pid file of the plan is, `content` is what
/// that file holds where it could be read, and `probe` tells whether a
/// process with a given id exists. Without the program nothing is started.
/// Where the pid file names a process that is alive, the engine runs
/// already. Else the program is started, after a pid file that is there was
/// removed.
pub fn before_spawn<F: FnOnce(i32) -> bool>(
    plan: &SpawnPlan,
    binary_exists: bool,
    pid_file_exists: bool,
    content: Option<&str>,
    probe: F,
) -> (step: SpawnStep)
    requires
        forall|pid: i32| probe.requires((pid,)),
    ensures
        !binary_exists ==> (step matches SpawnStep::Refuse(said) && said@ == "Binary not found at "@
            + plan.invocation.program@),
        binary_exists ==> match named_pid(*plan, pid_file_exists, content) {
            Some(pid) => if step == SpawnStep::AlreadyRunning(pid as i32) {
                probe.ensures((pid as i32,), true)
            } else {
                step == (SpawnStep::Launch { remove_stale: true }) && probe.ensures(
                    (pid as i32,),
                    false,
                )
            },
            None => step == (SpawnStep::Launch {
                remove_stale: plan.pid_file is Some && pid_file_exists,
            }),
        },
{
    if !binary_exists {
        return SpawnStep::Refuse(concat("Binary not found at ", plan.invocation.program.as_str()));
    }
    if plan.pid_file.is_none() || !pid_file_exists {
        return SpawnStep::Launch { remove_stale: false };
    }
    let named = match content {
        Some(text) => parse_pid(text),
        None => None,
    };
    match named {
        Some(pid) => {
            let alive = probe(pid);
            if alive {
                SpawnStep::AlreadyRunning(pid)
            } else {
                SpawnStep::Launch { remove_stale: true }
            }
        },
        None => SpawnStep::Launch { remove_stale: true },
    }
}

/// What is done once the program of an engine was started.
#[derive(Debug, PartialEq, Eq)]
pub enum LaunchStep {
    /// The process id is written to the pid file as `content`; after
    /// `wait_millis` the process is probed.
    Record { pid_file: String, content: String, wait_millis: u64 },
    /// No pid file is kept: the end of the program is waited for.
    Await,
}

/// What is done once the program of a plan was started as the process
/// `pid`: where the plan keeps a pid file, the process id is written there
/// in decimal digits, and the process is probed after it was given time to
/// settle; else the end of the program is waited for.
pub fn after_launch(plan: &SpawnPlan, pid: u32) -> (step: LaunchStep)
    ensures
        match plan.pid_file {
            Some(file) => step matches LaunchStep::Record { pid_file, content, wait_millis }
                && pid_file@ == file@ && content@ == spec_decimal(pid as nat) && wait_millis
                == SETTLE_MILLIS,
            None => step == LaunchStep::Await,
        },
{
    match &plan.pid_file {
        Some(file) => LaunchStep::Record {
            pid_file: file.clone(),
            content: decimal(pid as u128),
            wait_millis: SETTLE_MILLIS,
        },
        None => LaunchStep::Await,
    }
}

/// What a start has come to.
#[derive(Debug, PartialEq, Eq)]
pub enum SpawnEnd {
    /// The engine runs, as the process with this id where one is kept.
    Runs(Option<u32>),
    /// The start has failed with this text; `remove_pid_file` tells whether
    /// the pid file is to be removed again.
    Failed { text: String, remove_pid_file: bool },
}

/// What a start has come to where a pid file is kept: the engine runs where
/// the process was found alive after it was given time to settle; else the
/// start has failed, and the pid file is removed again.
pub fn settle(pid: u32, alive: bool) -> (end: SpawnEnd)
    ensures
        alive ==> end == SpawnEnd::Runs(Some(pid)),
        !alive ==> (end matches SpawnEnd::Failed { text, remove_pid_file } && text@
            == "Process failed to start"@ && remove_pid_file),
{
    if alive {
        SpawnEnd::Runs(Some(pid))
    } else {
        SpawnEnd::Failed { text: "Process failed to start".to_string(), remove_pid_file: true }
    }
}

/// What a start has come to where no pid file is kept and the end of the
/// program was waited for: the engine runs where the program ended well;
/// else the start has failed with what the program said.
pub fn awaited(succeeded: bool, said: &str) -> (end: SpawnEnd)
    ensures
        succeeded ==> end == SpawnEnd::Runs(None),
        !succeeded ==> (end matches SpawnEnd::Failed { text, remove_pid_file } && text@
            == "Process failed to start: "@ + said@ && !remove_pid_file),
{
    if succeeded {
        SpawnEnd::Runs(None)
    } else {
        SpawnEnd::Failed { text: concat("Process failed to start: ", said), remove_pid_file: false }
    }
}

/// What was found of a pid file.
#[derive(Debug, PartialEq, Eq)]
pub enum PidFileRead {
    /// There is no such file.
    Missing,
    /// The file is there and could not be read; the text says why.
    Unreadable(String),
    /// What the file holds.
    Content(String),
}

/// What is done to end the process of an engine.
#[derive(Debug, PartialEq, Eq)]
pub enum EndStep {
    /// There is no pid file: nothing runs, and nothing is done.
    Nothing,
    /// Nothing can be ended; the text says why. `remove_pid_file` tells
    /// whether the pid file is removed all the same.
    Fail { text: String, remove_pid_file: bool },
    /// The process is asked to end, given `grace_secs` to do so, and ended
    /// by force where it is still alive then. The pid file is removed
    /// whatever came of it.
    Terminate { pid: u32, grace_secs: u64 },
    /// The command is run that ends the process. The pid file is removed
    /// whatever came of it.
    Run(Invocation),
}

/// What is done to end the process of an engine, by what was found of its
/// pid file. Without a pid file nothing is done. A file that cannot be read
/// is left alone, and the stop fails. On Windows `taskkill` is run with
/// what the file says, which ends the process by force. Elsewhere the
/// process that the file names is asked to end and ended by force after a
/// while; a file that names none is removed, and the stop fails.
pub fn end_step(platform: Platform, read: &PidFileRead) -> (step: EndStep)
    ensures
        match *read {
            PidFileRead::Missing => step == EndStep::Nothing,
            PidFileRead::Unreadable(why) => step matches EndStep::Fail { text, remove_pid_file }
                && text@ == "Failed to read PID file: "@ + why@ && !remove_pid_file,
            PidFileRead::Content(content) => if platform == Platform::Windows {
                step matches EndStep::Run(invocation) && invocation.program@ == "taskkill"@
                    && texts(invocation.args@) == seq!["/PID"@, spec_trim(content@), "/F"@]
            } else {
                match parse_stop_pid(content@) {
                    Some(pid) => step == (EndStep::Terminate {
                        pid: pid as u32,
                        grace_secs: GRACE_SECS,
                    }),
                    None => step matches EndStep::Fail { text, remove_pid_file } && text@
                        == "Invalid PID format"@ && remove_pid_file,
                }
            },
        },
{
    match read {
        PidFileRead::Missing => EndStep::Nothing,
        PidFileRead::Unreadable(why) => EndStep::Fail {
            text: concat("Failed to read PID file: ", why.as_str()),
            remove_pid_file: false,
        },
        PidFileRead::Content(content) => match platform {
            Platform::Windows => EndStep::Run(taskkill_invocation(content.as_str())),
            _ => match stop_pid(content.as_str()) {
                Ok(pid) => EndStep::Terminate { pid, grace_secs: GRACE_SECS },
                Err(_) => EndStep::Fail {
                    text: "Invalid PID format".to_string(),
                    remove_pid_file: true,
                },
            },
        },
    }
}

/// What comes after a process was asked to end.
#[derive(Debug, PartialEq, Eq)]
pub enum GraceStep {
    /// The process could not be asked; the stop has failed with this text.
    Fail(String),
    /// The process is gone: the stop is done.
    Done,
    /// The process is still alive: it is ended by force, and the stop is
    /// done whatever comes of that.
    Force,
}

/// What comes after a process was asked to end. `asked` is `None` where the
/// request was delivered, else what went wrong with it; `alive` tells
/// whether the process was found alive after the time it was given. A
/// request that could not be delivered fails the stop. Else the process is
/// ended by force exactly where it is still alive.
pub fn after_grace(asked: Option<&str>, alive: bool) -> (step: GraceStep)
    ensures
        match asked {
            Some(why) => step matches GraceStep::Fail(text) && text@ == "Failed to send SIGTERM: "@
                + why@,
            None => step == (if alive {
                GraceStep::Force
            } else {
                GraceStep::Done
            }),
        },
{
    match asked {
        Some(why) => GraceStep::Fail(concat("Failed to send SIGTERM: ", why)),
        None => if alive {
            GraceStep::Force
        } else {
            GraceStep::Done
        },
    }
}

} // verus!
