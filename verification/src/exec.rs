//! `dev exec`: running a command in the workspace's container.
use vstd::prelude::*;

pub mod laws;

use crate::model::{copy_opt, first_running, running_at, ContainerInfo, ExecResult};
use crate::number::show_unsigned;
use crate::text::{
    begins_with, cat2, cat3, contains_text, holds_char, occurs_in, owned, starts_with, trim, trimmed,
};
use crate::up::secrets::SecretValue;

verus! {

/// The runtime announces that it could not start a command.
pub open spec fn announces_no_start(output: Seq<char>) -> bool {
    begins_with(output, "OCI runtime exec failed"@) || begins_with(output, "exec failed"@) || begins_with(
        output,
        "unable to start container process"@,
    )
}

/// The shell that records the command never started: the status of a command
/// that was not found, and the runtime's own announcement, naming the shell. The
/// announcement is one line, and nothing else was printed.
pub open spec fn no_shell(result: ExecResult) -> bool {
    let output = trimmed(result.stdout@ + result.stderr@);
    &&& result.exit_code == 127
    &&& announces_no_start(output)
    &&& occurs_in("/bin/sh"@, output)
    &&& !output.contains('\n')
}

/// Whether the shell that records the command never started, so that the
/// command can be run again without having run twice.
pub fn reports_missing_shell(result: &ExecResult) -> (r: bool)
    ensures
        r == no_shell(*result),
{
    if result.exit_code != 127 {
        return false;
    }
    let both = cat2(result.stdout.as_str(), result.stderr.as_str());
    let output = trim(both.as_str());
    (starts_with(output.as_str(), "OCI runtime exec failed") || starts_with(output.as_str(), "exec failed")
        || starts_with(output.as_str(), "unable to start container process")) && contains_text(
        output.as_str(),
        "/bin/sh",
    ) && !holds_char(output.as_str(), '\n')
}

/// The status that a shell reports for a process that took a signal.
pub fn signalled_status(signal: i32) -> (r: i32)
    requires
        signal <= i32::MAX - 128,
    ensures
        r == 128 + signal,
{
    128 + signal
}

/// What is said where no container of the workspace is running.
pub open spec fn no_container_text() -> Seq<char> {
    "No running container found for this workspace. Run `dev up` first."@
}

/// What is said where no container of the workspace is running.
pub fn no_running_container() -> (r: String)
    ensures
        r@ == no_container_text(),
{
    owned("No running container found for this workspace. Run `dev up` first.")
}

/// What is said of a sweep for orphaned sessions: nothing if none was found.
pub fn sweep_notice(reaped: usize) -> (r: Option<String>)
    ensures
        reaped == 0 ==> r is None,
        reaped > 0 ==> r is Some && r->Some_0@ == "dev: reaped "@ + crate::number::decimal_of(reaped as nat)
            + " orphaned container session(s)"@,
{
    if reaped == 0 {
        return None;
    }
    let n = show_unsigned(reaped as u64);
    Some(cat3("dev: reaped ", n.as_str(), " orphaned container session(s)"))
}

/// What is said of a sweep that could not be made.
pub fn sweep_warning(e: &str) -> (r: String)
    ensures
        r@ == "Warning: could not check for orphaned sessions: "@ + e@,
{
    cat2("Warning: could not check for orphaned sessions: ", e)
}

/// Where commands are run: what the configuration resolves to, else the
/// workspace's folder.
pub fn resolve_workdir(configured: &Option<String>, workspace_name: &str) -> (r: String)
    ensures
        match *configured {
            Some(folder) => r@ == folder@,
            None => r@ == "/workspaces/"@ + workspace_name@,
        },
{
    match configured {
        Some(folder) => folder.clone(),
        None => cat2("/workspaces/", workspace_name),
    }
}

// ---------------------------------------------------------------------------
// The order of things
// ---------------------------------------------------------------------------

/// How a command is run in a container.
pub struct ExecCall {
    pub container: String,
    /// Whom it is run as, if not the image's own user.
    pub user: Option<String>,
    pub workdir: String,
    /// What is added to its environment.
    pub secrets: Vec<(String, SecretValue)>,
}

/// What is to be done.
pub enum ExecTask {
    ListContainers,
    /// Find out whom commands are run as in containers of this image.
    ResolveUser { id: String, image: String },
    /// Find out where this user's commands are run.
    ResolveWorkdir { id: String, user: Option<String> },
    /// Ask the providers for the workspace's secrets.
    ResolveSecrets { id: String, user: Option<String>, workdir: String },
    /// End the container's orphaned sessions, as the call's user.
    Sweep { call: ExecCall },
    /// Run the command so that it can be found again.
    RunRecorded { call: ExecCall },
    /// Run the command as it is.
    RunPlain { call: ExecCall },
    /// End what this process started in the container.
    Release { id: String, user: Option<String>, status: i32 },
    /// Pass on what the command printed, and its status.
    Finish(ExecResult),
    /// Exit with this status.
    Exit(i32),
    /// No container of the workspace is running.
    FailNoContainer,
    Fail(String),
}

/// What came of it.
pub enum ExecEvent {
    Failed(String),
    Listed(Vec<ContainerInfo>),
    User(Option<String>),
    Workdir(String),
    Secrets(Vec<(String, SecretValue)>),
    /// How many orphaned sessions were ended.
    Swept(usize),
    Ran(ExecResult),
    /// The runtime says that the command could not be found.
    MissingCommand(String),
    /// This process was told to end.
    Signalled(i32),
    Released,
}

/// Something to say.
pub enum ExecNotice {
    Swept(usize),
    SweepFailed(String),
}

/// What is to be said, and then done.
pub struct ExecStep {
    pub notice: Option<ExecNotice>,
    pub task: ExecTask,
}

pub open spec fn just(task: ExecTask) -> ExecStep {
    ExecStep { notice: None, task }
}

/// The event is one that the task can come to.
pub open spec fn fits(task: ExecTask, event: ExecEvent) -> bool {
    match task {
        ExecTask::ListContainers => event is Listed || event is Failed,
        ExecTask::ResolveUser { .. } => event is User || event is Failed,
        ExecTask::ResolveWorkdir { .. } => event is Workdir || event is Failed,
        ExecTask::ResolveSecrets { .. } => event is Secrets || event is Failed,
        ExecTask::Sweep { .. } => event is Swept || event is Failed,
        ExecTask::RunRecorded { .. } => event is Ran || event is MissingCommand || event is Failed || (
        event is Signalled && event->Signalled_0 <= i32::MAX - 128),
        ExecTask::RunPlain { .. } => event is Ran || event is MissingCommand || event is Failed || (
        event is Signalled && event->Signalled_0 <= i32::MAX - 128),
        ExecTask::Release { .. } => event is Released,
        _ => false,
    }
}

/// What comes next. `asked` is whom `--user` names.
pub open spec fn exec_next(asked: Option<String>, task: ExecTask, event: ExecEvent) -> ExecStep {
    match (task, event) {
        (ExecTask::Sweep { call }, ExecEvent::Failed(e)) => ExecStep {
            notice: Some(ExecNotice::SweepFailed(e)),
            task: ExecTask::RunRecorded { call },
        },
        (_, ExecEvent::Failed(e)) => just(ExecTask::Fail(e)),
        (ExecTask::ListContainers, ExecEvent::Listed(found)) => {
            let i = running_at(found@);
            if i < found@.len() {
                let c = found@[i];
                if asked is Some {
                    just(ExecTask::ResolveWorkdir { id: c.id, user: asked })
                } else {
                    just(ExecTask::ResolveUser { id: c.id, image: c.image })
                }
            } else {
                just(ExecTask::FailNoContainer)
            }
        },
        (ExecTask::ResolveUser { id, .. }, ExecEvent::User(user)) => just(
            ExecTask::ResolveWorkdir { id, user },
        ),
        (ExecTask::ResolveWorkdir { id, user }, ExecEvent::Workdir(workdir)) => just(
            ExecTask::ResolveSecrets { id, user, workdir },
        ),
        (ExecTask::ResolveSecrets { id, user, workdir }, ExecEvent::Secrets(secrets)) => just(
            ExecTask::Sweep { call: ExecCall { container: id, user, workdir, secrets } },
        ),
        (ExecTask::Sweep { call }, ExecEvent::Swept(n)) => ExecStep {
            notice: Some(ExecNotice::Swept(n)),
            task: ExecTask::RunRecorded { call },
        },
        (ExecTask::RunRecorded { call }, ExecEvent::Ran(result)) => {
            if no_shell(result) {
                just(ExecTask::RunPlain { call })
            } else {
                just(ExecTask::Finish(result))
            }
        },
        (ExecTask::RunRecorded { call }, ExecEvent::MissingCommand(_)) => just(ExecTask::RunPlain { call }),
        (ExecTask::RunPlain { .. }, ExecEvent::Ran(result)) => just(ExecTask::Finish(result)),
        (ExecTask::RunPlain { .. }, ExecEvent::MissingCommand(e)) => just(ExecTask::Fail(e)),
        (ExecTask::RunRecorded { call }, ExecEvent::Signalled(signal)) => just(
            ExecTask::Release { id: call.container, user: call.user, status: (128 + signal) as i32 },
        ),
        (ExecTask::RunPlain { call }, ExecEvent::Signalled(signal)) => just(
            ExecTask::Release { id: call.container, user: call.user, status: (128 + signal) as i32 },
        ),
        (ExecTask::Release { status, .. }, _) => just(ExecTask::Exit(status)),
        _ => just(ExecTask::FailNoContainer),
    }
}

fn do_just(task: ExecTask) -> (r: ExecStep)
    ensures
        r == just(task),
{
    ExecStep { notice: None, task }
}

/// What is to be said and done next, given what came of a task.
pub fn step(asked: &Option<String>, task: ExecTask, event: ExecEvent) -> (r: ExecStep)
    requires
        fits(task, event),
    ensures
        r == exec_next(*asked, task, event),
{
    match (task, event) {
        (ExecTask::Sweep { call }, ExecEvent::Failed(e)) => ExecStep {
            notice: Some(ExecNotice::SweepFailed(e)),
            task: ExecTask::RunRecorded { call },
        },
        (_, ExecEvent::Failed(e)) => do_just(ExecTask::Fail(e)),
        (ExecTask::ListContainers, ExecEvent::Listed(found)) => {
            let mut found = found;
            match first_running(&found) {
                Some(i) => {
                    let c = found.remove(i);
                    if asked.is_some() {
                        do_just(ExecTask::ResolveWorkdir { id: c.id, user: copy_opt(asked) })
                    } else {
                        do_just(ExecTask::ResolveUser { id: c.id, image: c.image })
                    }
                },
                None => do_just(ExecTask::FailNoContainer),
            }
        },
        (ExecTask::ResolveUser { id, .. }, ExecEvent::User(user)) => do_just(
            ExecTask::ResolveWorkdir { id, user },
        ),
        (ExecTask::ResolveWorkdir { id, user }, ExecEvent::Workdir(workdir)) => do_just(
            ExecTask::ResolveSecrets { id, user, workdir },
        ),
        (ExecTask::ResolveSecrets { id, user, workdir }, ExecEvent::Secrets(secrets)) => do_just(
            ExecTask::Sweep { call: ExecCall { container: id, user, workdir, secrets } },
        ),
        (ExecTask::Sweep { call }, ExecEvent::Swept(n)) => ExecStep {
            notice: Some(ExecNotice::Swept(n)),
            task: ExecTask::RunRecorded { call },
        },
        (ExecTask::RunRecorded { call }, ExecEvent::Ran(result)) => {
            if reports_missing_shell(&result) {
                do_just(ExecTask::RunPlain { call })
            } else {
                do_just(ExecTask::Finish(result))
            }
        },
        (ExecTask::RunRecorded { call }, ExecEvent::MissingCommand(_)) => do_just(
            ExecTask::RunPlain { call },
        ),
        (ExecTask::RunPlain { .. }, ExecEvent::Ran(result)) => do_just(ExecTask::Finish(result)),
        (ExecTask::RunPlain { .. }, ExecEvent::MissingCommand(e)) => do_just(ExecTask::Fail(e)),
        (ExecTask::RunRecorded { call }, ExecEvent::Signalled(signal)) => do_just(
            ExecTask::Release {
                id: call.container,
                user: call.user,
                status: signalled_status(signal),
            },
        ),
        (ExecTask::RunPlain { call }, ExecEvent::Signalled(signal)) => do_just(
            ExecTask::Release {
                id: call.container,
                user: call.user,
                status: signalled_status(signal),
            },
        ),
        (ExecTask::Release { status, .. }, _) => do_just(ExecTask::Exit(status)),
        _ => do_just(ExecTask::FailNoContainer),
    }
}

/// What of a finished command is passed on.
pub struct ExecReport {
    pub stdout: Option<String>,
    pub stderr: Option<String>,
    /// The status to exit with, if it is not success.
    pub exit: Option<i32>,
}

/// What of a finished command is passed on: what it printed, if it printed
/// anything, and its status, if it is not success.
pub fn report(result: ExecResult) -> (r: ExecReport)
    ensures
        r.stdout == (if result.stdout@.len() > 0 {
            Some(result.stdout)
        } else {
            None::<String>
        }),
        r.stderr == (if result.stderr@.len() > 0 {
            Some(result.stderr)
        } else {
            None::<String>
        }),
        r.exit == (if result.exit_code != 0 {
            Some(result.exit_code)
        } else {
            None::<i32>
        }),
{
    ExecReport {
        stdout: if result.stdout.as_str().is_empty() {
            None
        } else {
            Some(result.stdout)
        },
        stderr: if result.stderr.as_str().is_empty() {
            None
        } else {
            Some(result.stderr)
        },
        exit: if result.exit_code != 0 {
            Some(result.exit_code)
        } else {
            None
        },
    }
}

impl ExecNotice {
    /// What is said, if anything.
    pub fn text(&self) -> (r: Option<String>)
        ensures
            match self {
                ExecNotice::Swept(n) => if *n == 0 {
                    r is None
                } else {
                    r is Some && r->Some_0@ == "dev: reaped "@ + crate::number::decimal_of(*n as nat)
                        + " orphaned container session(s)"@
                },
                ExecNotice::SweepFailed(e) => r is Some && r->Some_0@
                    == "Warning: could not check for orphaned sessions: "@ + e@,
            },
    {
        match self {
            ExecNotice::Swept(n) => sweep_notice(*n),
            ExecNotice::SweepFailed(e) => Some(sweep_warning(e.as_str())),
        }
    }
}

// ---------------------------------------------------------------------------
// Every run
// ---------------------------------------------------------------------------

/// What follows an event.
#[verifier::opaque]
pub open spec fn following(asked: Option<String>, task: ExecTask, event: ExecEvent) -> ExecStep {
    exec_next(asked, task, event)
}

/// What is to be done after a series of events.
pub open spec fn after(asked: Option<String>, events: Seq<ExecEvent>) -> ExecTask
    decreases events.len(),
{
    if events.len() == 0 {
        ExecTask::ListContainers
    } else {
        following(asked, after(asked, events.drop_last()), events.last()).task
    }
}

/// Each event is one that the task before it can come to.
#[verifier::opaque]
pub open spec fn in_turn(asked: Option<String>, events: Seq<ExecEvent>) -> bool {
    forall|i: int| 0 <= i < events.len() ==> fits(after(asked, events.take(i)), #[trigger] events[i])
}

proof fn in_turn_before(asked: Option<String>, events: Seq<ExecEvent>)
    requires
        in_turn(asked, events),
        events.len() > 0,
    ensures
        in_turn(asked, events.drop_last()),
        fits(after(asked, events.drop_last()), events.last()),
{
    reveal(in_turn);
    let rest = events.drop_last();
    assert forall|i: int| 0 <= i < rest.len() implies fits(after(asked, rest.take(i)), #[trigger] rest[i]) by {
        assert(events[i] == rest[i]);
        assert(rest.take(i) == events.take(i));
    }
    assert(events.take(events.len() - 1) == rest);
    assert(events[events.len() - 1] == events.last());
}

/// The event is a listing whose first running container is this one.
pub open spec fn shows_running(event: ExecEvent, id: String) -> bool {
    event matches ExecEvent::Listed(found) && running_at(found@) < found@.len() && found@[running_at(
        found@,
    )].id == id
}

/// A listing showed this container running.
#[verifier::opaque]
pub open spec fn found_running(events: Seq<ExecEvent>, id: String) -> bool {
    exists|i: int| 0 <= i < events.len() && shows_running(#[trigger] events[i], id)
}

/// The user is the one that was asked for, or else the one that was found.
#[verifier::opaque]
pub open spec fn is_the_user(asked: Option<String>, events: Seq<ExecEvent>, user: Option<String>) -> bool {
    if asked is Some {
        user == asked
    } else {
        exists|i: int| 0 <= i < events.len() && #[trigger] events[i] == ExecEvent::User(user)
    }
}

/// After the first `i` events the folder of this user was looked for, and this
/// one was found.
pub open spec fn folder_found_at(
    asked: Option<String>,
    events: Seq<ExecEvent>,
    i: int,
    user: Option<String>,
    workdir: String,
) -> bool {
    &&& 0 <= i < events.len()
    &&& after(asked, events.take(i)) is ResolveWorkdir
    &&& after(asked, events.take(i))->ResolveWorkdir_user == user
    &&& events[i] == ExecEvent::Workdir(workdir)
}

/// This is the folder that was found for the user.
#[verifier::opaque]
pub open spec fn is_the_folder(
    asked: Option<String>,
    events: Seq<ExecEvent>,
    user: Option<String>,
    workdir: String,
) -> bool {
    exists|i: int| #[trigger] folder_found_at(asked, events, i, user, workdir)
}

/// These are the secrets that the providers gave.
#[verifier::opaque]
pub open spec fn are_the_secrets(events: Seq<ExecEvent>, secrets: Vec<(String, SecretValue)>) -> bool {
    exists|i: int| 0 <= i < events.len() && #[trigger] events[i] == ExecEvent::Secrets(secrets)
}

/// Everything a command is run with is what was found for it.
pub open spec fn accounted_for(asked: Option<String>, events: Seq<ExecEvent>, call: ExecCall) -> bool {
    &&& found_running(events, call.container)
    &&& is_the_user(asked, events, call.user)
    &&& is_the_folder(asked, events, call.user, call.workdir)
    &&& are_the_secrets(events, call.secrets)
}

spec fn task_accounted_for(asked: Option<String>, events: Seq<ExecEvent>, task: ExecTask) -> bool {
    match task {
        ExecTask::ResolveUser { id, .. } => found_running(events, id) && asked is None,
        ExecTask::ResolveWorkdir { id, user } => found_running(events, id) && is_the_user(asked, events, user),
        ExecTask::ResolveSecrets { id, user, workdir } => found_running(events, id) && is_the_user(
            asked,
            events,
            user,
        ) && is_the_folder(asked, events, user, workdir),
        ExecTask::Sweep { call } => accounted_for(asked, events, call),
        ExecTask::RunRecorded { call } => accounted_for(asked, events, call),
        ExecTask::RunPlain { call } => accounted_for(asked, events, call),
        ExecTask::Release { id, user, .. } => found_running(events, id) && is_the_user(asked, events, user),
        _ => true,
    }
}

proof fn still_found(asked: Option<String>, events: Seq<ExecEvent>)
    requires
        events.len() > 0,
    ensures
        forall|id: String| #[trigger] found_running(events.drop_last(), id) ==> found_running(events, id),
        forall|id: String| shows_running(events.last(), id) ==> #[trigger] found_running(events, id),
        forall|user: Option<String>| #[trigger]
            is_the_user(asked, events.drop_last(), user) ==> is_the_user(asked, events, user),
        forall|user: Option<String>|
            (if asked is Some { user == asked } else { events.last() == ExecEvent::User(user) }) ==> #[trigger] is_the_user(
                asked,
                events,
                user,
            ),
        forall|user: Option<String>, workdir: String| #[trigger]
            is_the_folder(asked, events.drop_last(), user, workdir) ==> is_the_folder(
                asked,
                events,
                user,
                workdir,
            ),
        forall|user: Option<String>, workdir: String|
            (after(asked, events.drop_last()) matches ExecTask::ResolveWorkdir { user: u, .. } && u == user)
                && events.last() == ExecEvent::Workdir(workdir) ==> #[trigger] is_the_folder(
                asked,
                events,
                user,
                workdir,
            ),
        forall|secrets: Vec<(String, SecretValue)>| #[trigger]
            are_the_secrets(events.drop_last(), secrets) ==> are_the_secrets(events, secrets),
        forall|secrets: Vec<(String, SecretValue)>|
            events.last() == ExecEvent::Secrets(secrets) ==> #[trigger] are_the_secrets(events, secrets),
{
    reveal(found_running);
    reveal(is_the_user);
    reveal(is_the_folder);
    reveal(are_the_secrets);
    let rest = events.drop_last();
    let n = events.len() - 1;
    assert(events[n] == events.last());
    assert(events.take(n) == rest);
    assert forall|id: String| #[trigger] found_running(rest, id) implies found_running(events, id) by {
        let i = choose|i: int| 0 <= i < rest.len() && shows_running(#[trigger] rest[i], id);
        assert(shows_running(events[i], id));
    }
    assert forall|user: Option<String>| #[trigger] is_the_user(asked, rest, user) implies is_the_user(
        asked,
        events,
        user,
    ) by {
        if asked is None {
            let i = choose|i: int| 0 <= i < rest.len() && #[trigger] rest[i] == ExecEvent::User(user);
            assert(events[i] == ExecEvent::User(user));
        }
    }
    assert forall|user: Option<String>, workdir: String| #[trigger]
        is_the_folder(asked, rest, user, workdir) implies is_the_folder(asked, events, user, workdir) by {
        let i = choose|i: int| #[trigger] folder_found_at(asked, rest, i, user, workdir);
        assert(rest.take(i) == events.take(i));
        assert(folder_found_at(asked, events, i, user, workdir));
    }
    assert forall|user: Option<String>, workdir: String|
        (after(asked, rest) matches ExecTask::ResolveWorkdir { user: u, .. } && u == user) && events.last()
            == ExecEvent::Workdir(workdir) implies #[trigger] is_the_folder(asked, events, user, workdir) by {
        assert(folder_found_at(asked, events, n, user, workdir));
    }
    assert forall|secrets: Vec<(String, SecretValue)>| #[trigger]
        are_the_secrets(rest, secrets) implies are_the_secrets(events, secrets) by {
        let i = choose|i: int| 0 <= i < rest.len() && #[trigger] rest[i] == ExecEvent::Secrets(secrets);
        assert(events[i] == ExecEvent::Secrets(secrets));
    }
}

/// How far a task is on the way.
spec fn rank(task: ExecTask) -> int {
    match task {
        ExecTask::ListContainers => 0,
        ExecTask::ResolveUser { .. } => 1,
        ExecTask::ResolveWorkdir { .. } => 2,
        ExecTask::ResolveSecrets { .. } => 3,
        ExecTask::Sweep { .. } => 4,
        ExecTask::RunRecorded { .. } => 5,
        ExecTask::RunPlain { .. } => 6,
        ExecTask::Release { .. } => 7,
        _ => 8,
    }
}

proof fn single_step(asked: Option<String>, task: ExecTask, event: ExecEvent)
    requires
        fits(task, event),
    ensures
        ({
            let next = following(asked, task, event).task;
            &&& rank(next) > rank(task)
            &&& next matches ExecTask::Release { status, .. } ==> (event matches ExecEvent::Signalled(signal)
                && status == 128 + signal)
            &&& next matches ExecTask::Exit(status) ==> task is Release && task->Release_status == status
        }),
{
    reveal(following);
}

proof fn calls_are_accounted_for(asked: Option<String>, events: Seq<ExecEvent>)
    requires
        in_turn(asked, events),
    ensures
        task_accounted_for(asked, events, after(asked, events)),
    decreases events.len(),
{
    if events.len() > 0 {
        in_turn_before(asked, events);
        calls_are_accounted_for(asked, events.drop_last());
        still_found(asked, events);
        reveal(following);
    }
}

/// A command is run in the container that a listing showed running, as the user
/// that was asked for or else found, in the folder that was found for that user,
/// and with the secrets that the providers gave; and no session is ended before
/// all of that is known.
pub proof fn commands_run_with_what_was_resolved(asked: Option<String>, events: Seq<ExecEvent>)
    requires
        in_turn(asked, events),
    ensures
        match after(asked, events) {
            ExecTask::Sweep { call } => accounted_for(asked, events, call),
            ExecTask::RunRecorded { call } => accounted_for(asked, events, call),
            ExecTask::RunPlain { call } => accounted_for(asked, events, call),
            _ => true,
        },
{
    calls_are_accounted_for(asked, events);
}

/// No provider is asked and no container touched unless a listing showed a
/// running one.
pub proof fn nothing_without_a_running_container(asked: Option<String>, events: Seq<ExecEvent>)
    requires
        in_turn(asked, events),
        ({
            let task = after(asked, events);
            task is ResolveSecrets || task is Sweep || task is RunRecorded || task is RunPlain
        }),
    ensures
        exists|id: String| #[trigger] found_running(events, id),
{
    calls_are_accounted_for(asked, events);
}

/// Secrets that cannot be resolved leave the container as it was: no session is
/// ended and nothing is run.
pub proof fn bad_secrets_leave_the_container_alone(
    asked: Option<String>,
    id: String,
    user: Option<String>,
    workdir: String,
    e: String,
)
    ensures
        exec_next(asked, ExecTask::ResolveSecrets { id, user, workdir }, ExecEvent::Failed(e)) == just(
            ExecTask::Fail(e),
        ),
{
}

/// A command is run a second time only when the first attempt ran nothing: the
/// runtime could not find the shell, or all that was printed is its announcement
/// that the shell did not start. The second attempt is made as the first was.
pub proof fn rerun_only_when_nothing_ran(asked: Option<String>, task: ExecTask, event: ExecEvent, call: ExecCall)
    requires
        fits(task, event),
        exec_next(asked, task, event).task == (ExecTask::RunPlain { call }),
    ensures
        task == (ExecTask::RunRecorded { call }),
        event is MissingCommand || (event matches ExecEvent::Ran(result) && no_shell(result)),
{
}

proof fn later_tasks_rank_higher(asked: Option<String>, events: Seq<ExecEvent>, i: int)
    requires
        in_turn(asked, events),
        0 <= i <= events.len(),
    ensures
        rank(after(asked, events.take(i))) + (events.len() - i) <= rank(after(asked, events)),
    decreases events.len(),
{
    if i == events.len() {
        assert(events.take(i) == events);
    } else {
        let rest = events.drop_last();
        in_turn_before(asked, events);
        later_tasks_rank_higher(asked, rest, i);
        single_step(asked, after(asked, rest), events.last());
        assert(rest.take(i) == events.take(i));
    }
}

proof fn in_turn_up_to(asked: Option<String>, events: Seq<ExecEvent>, n: int)
    requires
        in_turn(asked, events),
        0 <= n <= events.len(),
    ensures
        in_turn(asked, events.take(n)),
{
    reveal(in_turn);
    let first = events.take(n);
    assert forall|k: int| 0 <= k < first.len() implies fits(after(asked, first.take(k)), #[trigger] first[k]) by {
        assert(first.take(k) == events.take(k));
        assert(first[k] == events[k]);
    }
}

/// The providers are asked once in a run, however often the command is tried.
pub proof fn secrets_are_asked_for_once(asked: Option<String>, events: Seq<ExecEvent>, i: int, j: int)
    requires
        in_turn(asked, events),
        0 <= i <= j <= events.len(),
        after(asked, events.take(i)) is ResolveSecrets,
        after(asked, events.take(j)) is ResolveSecrets,
    ensures
        i == j,
{
    in_turn_up_to(asked, events, j);
    later_tasks_rank_higher(asked, events.take(j), i);
    assert(events.take(j).take(i) == events.take(i));
}

/// A run that exits with a status of its own was told to end by a signal, which
/// the status names, and released what it had started first.
pub proof fn interrupted_commands_are_released(asked: Option<String>, events: Seq<ExecEvent>, status: i32)
    requires
        in_turn(asked, events),
        after(asked, events) == ExecTask::Exit(status),
    ensures
        events.len() > 1,
        after(asked, events.drop_last()) is Release,
        events[events.len() - 2] matches ExecEvent::Signalled(signal) && status == 128 + signal,
{
    let rest = events.drop_last();
    in_turn_before(asked, events);
    single_step(asked, after(asked, rest), events.last());
    in_turn_before(asked, rest);
    single_step(asked, after(asked, rest.drop_last()), rest.last());
    assert(rest.last() == events[events.len() - 2]);
}

} // verus!
