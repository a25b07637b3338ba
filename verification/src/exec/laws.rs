//! What holds of every run of `dev exec`, whatever comes of what it does.
use vstd::prelude::*;

use crate::exec::{
    after, exec_next, fits, following, in_turn, in_turn_before, report, ExecCall, ExecEvent, ExecNotice, ExecReport,
    ExecStep, ExecTask,
};
use crate::model::{ContainerInfo, ExecResult};
use crate::text::trimmed;

verus! {

/// Whatever a run finishes with is what the last command left behind: the same
/// status, the same standard output and the same standard error.
pub proof fn output_is_passed_on_as_it_was(asked: Option<String>, events: Seq<ExecEvent>, result: ExecResult)
    requires
        in_turn(asked, events),
        after(asked, events) == ExecTask::Finish(result),
    ensures
        events.len() > 0,
        events.last() == ExecEvent::Ran(result),
        after(asked, events.drop_last()) is RunRecorded || after(asked, events.drop_last()) is RunPlain,
{
    in_turn_before(asked, events);
    reveal(following);
}

/// A command that ran ends the run, unless its status is that of a command that
/// was not found and the shell is named in what was printed. One that was run
/// without the shell always ends it.
pub proof fn a_command_that_ran_ends_the_run(asked: Option<String>, call: ExecCall, result: ExecResult)
    ensures
        exec_next(asked, ExecTask::RunPlain { call }, ExecEvent::Ran(result)) == (ExecStep {
            notice: None,
            task: ExecTask::Finish(result),
        }),
        result.exit_code != 127 ==> exec_next(asked, ExecTask::RunRecorded { call }, ExecEvent::Ran(result)) == (
        ExecStep { notice: None, task: ExecTask::Finish(result) }),
        (forall|i: int|
            0 <= i <= trimmed(result.stdout@ + result.stderr@).len() - 7 ==> #[trigger] trimmed(
                result.stdout@ + result.stderr@,
            ).subrange(i, i + 7) != "/bin/sh"@) ==> exec_next(
            asked,
            ExecTask::RunRecorded { call },
            ExecEvent::Ran(result),
        ) == (ExecStep { notice: None, task: ExecTask::Finish(result) }),
        (exists|i: int|
            0 <= i < trimmed(result.stdout@ + result.stderr@).len() && #[trigger] trimmed(
                result.stdout@ + result.stderr@,
            )[i] == '\n') ==> exec_next(asked, ExecTask::RunRecorded { call }, ExecEvent::Ran(result)) == (
        ExecStep { notice: None, task: ExecTask::Finish(result) }),
{
    reveal_strlit("/bin/sh");
    assert("/bin/sh"@.len() == 7);
}

/// Where the runtime announces on one line, and says nothing else, that it could
/// not start the shell, the command is run again as it is and like before.
pub proof fn a_shell_that_did_not_start_leads_to_a_plain_run(
    asked: Option<String>,
    call: ExecCall,
    result: ExecResult,
    opening: Seq<char>,
    before: Seq<char>,
    behind: Seq<char>,
)
    requires
        result.exit_code == 127,
        opening == "OCI runtime exec failed"@ || opening == "exec failed"@ || opening
            == "unable to start container process"@,
        trimmed(result.stdout@ + result.stderr@) == opening + before + "/bin/sh"@ + behind,
        forall|i: int| 0 <= i < before.len() ==> before[i] != '\n',
        forall|i: int| 0 <= i < behind.len() ==> behind[i] != '\n',
    ensures
        exec_next(asked, ExecTask::RunRecorded { call }, ExecEvent::Ran(result)) == (ExecStep {
            notice: None,
            task: ExecTask::RunPlain { call },
        }),
{
    reveal_strlit("/bin/sh");
    reveal_strlit("OCI runtime exec failed");
    reveal_strlit("exec failed");
    reveal_strlit("unable to start container process");
    let output = opening + before + "/bin/sh"@ + behind;
    assert(output.take(opening.len() as int) =~= opening);
    let at = (opening + before).len() as int;
    assert(output.subrange(at, at + 7) =~= "/bin/sh"@);
    assert(crate::text::occurs_at("/bin/sh"@, output, at));
    assert forall|i: int| 0 <= i < output.len() implies output[i] != '\n' by {
        if i < opening.len() {
            assert(output[i] == opening[i]);
        } else if i < at {
            assert(output[i] == before[i - opening.len()]);
        } else if i < at + 7 {
            assert(output[i] == "/bin/sh"@[i - at]);
        } else {
            assert(output[i] == behind[i - at - 7]);
        }
    }
}

/// The listing shows this container running, and none before it.
pub open spec fn first_that_runs(found: Seq<ContainerInfo>, i: int) -> bool {
    &&& 0 <= i < found.len()
    &&& found[i].state is Running
    &&& forall|j: int| 0 <= j < i ==> !((#[trigger] found[j]).state is Running)
}

/// What a listing leads to: the first container that runs is taken, and its user
/// looked for unless one was asked for; where none runs, that is the end.
pub proof fn the_first_running_container_is_taken(asked: Option<String>, found: Vec<ContainerInfo>, i: int)
    ensures
        first_that_runs(found@, i) ==> {
            let next = exec_next(asked, ExecTask::ListContainers, ExecEvent::Listed(found)).task;
            match asked {
                Some(_) => next == (ExecTask::ResolveWorkdir { id: found@[i].id, user: asked }),
                None => next == (ExecTask::ResolveUser { id: found@[i].id, image: found@[i].image }),
            }
        },
        (forall|j: int| 0 <= j < found@.len() ==> !((#[trigger] found@[j]).state is Running)) ==> exec_next(
            asked,
            ExecTask::ListContainers,
            ExecEvent::Listed(found),
        ).task is FailNoContainer,
{
    if first_that_runs(found@, i) {
        crate::model::running_at_is(found@, i);
    }
    if forall|j: int| 0 <= j < found@.len() ==> !((#[trigger] found@[j]).state is Running) {
        crate::model::running_at_is(found@, found@.len() as int);
    }
}

/// How what was resolved goes on: the user is looked up before the folder, the
/// folder before the secrets, and orphaned sessions are ended before the command
/// is run. What is found is carried along unchanged.
pub proof fn what_is_found_is_carried_along(
    asked: Option<String>,
    id: String,
    image: String,
    user: Option<String>,
    workdir: String,
    secrets: Vec<(String, crate::up::secrets::SecretValue)>,
    swept: usize,
)
    ensures
        ({
            let call = ExecCall { container: id, user, workdir, secrets };
            &&& exec_next(asked, ExecTask::ResolveUser { id, image }, ExecEvent::User(user)).task == (
            ExecTask::ResolveWorkdir { id, user })
            &&& exec_next(asked, ExecTask::ResolveWorkdir { id, user }, ExecEvent::Workdir(workdir)).task == (
            ExecTask::ResolveSecrets { id, user, workdir })
            &&& exec_next(
                asked,
                ExecTask::ResolveSecrets { id, user, workdir },
                ExecEvent::Secrets(secrets),
            ).task == (ExecTask::Sweep { call })
            &&& exec_next(asked, ExecTask::Sweep { call }, ExecEvent::Swept(swept)) == (ExecStep {
                notice: Some(ExecNotice::Swept(swept)),
                task: ExecTask::RunRecorded { call },
            })
        }),
{
}

/// A sweep that failed is warned of and the command run all the same; anything
/// else that fails ends the run with what it said.
pub proof fn failures_end_the_run(asked: Option<String>, task: ExecTask, e: String)
    requires
        fits(task, ExecEvent::Failed(e)),
    ensures
        exec_next(asked, task, ExecEvent::Failed(e)) == match task {
            ExecTask::Sweep { call } => ExecStep {
                notice: Some(ExecNotice::SweepFailed(e)),
                task: ExecTask::RunRecorded { call },
            },
            _ => ExecStep { notice: None, task: ExecTask::Fail(e) },
        },
{
}

/// A command that cannot be found is tried without the shell once, and then is
/// what the run fails with.
pub proof fn a_missing_command_is_tried_plainly_once(asked: Option<String>, call: ExecCall, e: String)
    ensures
        exec_next(asked, ExecTask::RunRecorded { call }, ExecEvent::MissingCommand(e)).task == (
        ExecTask::RunPlain { call }),
        exec_next(asked, ExecTask::RunPlain { call }, ExecEvent::MissingCommand(e)).task == ExecTask::Fail(e),
{
}

/// A signal has what was started released, in the same container and as the same
/// user, and the run then exits with the status a shell gives that signal.
pub proof fn a_signal_releases_what_was_started(asked: Option<String>, call: ExecCall, signal: i32, recorded: bool)
    requires
        signal <= i32::MAX - 128,
    ensures
        ({
            let task = if recorded {
                ExecTask::RunRecorded { call }
            } else {
                ExecTask::RunPlain { call }
            };
            let release = exec_next(asked, task, ExecEvent::Signalled(signal)).task;
            &&& release matches ExecTask::Release { id, user, status } && id == call.container && user == call.user
                && status == 128 + signal
            &&& exec_next(asked, release, ExecEvent::Released).task == ExecTask::Exit((128 + signal) as i32)
        }),
{
}

/// Where nothing runs, it says how to have something run.
pub proof fn what_is_said_where_nothing_runs()
    ensures
        crate::exec::no_container_text() == "No running container found for this workspace. Run `dev up` first."@,
{
}

/// What is written out of a command that ran is what it wrote, each to where the command
/// wrote it; and `dev` exits as the command did.
pub proof fn what_is_written_is_what_the_command_wrote(result: ExecResult, r: ExecReport)
    requires
        call_ensures(report, (result,), r),
    ensures
        ({
            let out = match r.stdout {
                Some(text) => text@,
                None => Seq::empty(),
            };
            let err = match r.stderr {
                Some(text) => text@,
                None => Seq::empty(),
            };
            let status = match r.exit {
                Some(code) => code as int,
                None => 0,
            };
            out == result.stdout@ && err == result.stderr@ && status == result.exit_code
        }),
{
}

} // verus!
