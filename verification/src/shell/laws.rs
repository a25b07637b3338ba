//! What holds of every run of `dev shell`, in terms of what was asked for and what came
//! of it.
use vstd::prelude::*;

use crate::cmux::StatusGuard;
use crate::exec::ExecCall;
use crate::model::ContainerInfo;
use crate::session::Session;
use crate::shell::{
    after, after_cd, after_exec, decides, decision_calls, fits, following, in_turn, in_turn_before, pill_text,
    quoted, quoted_values_are_one_word, read_of, read_word, session_pill_call, session_script, Outcome, SessionPill, ShellChoice,
    ShellEvent, ShellNotice, ShellStep, ShellTask,
};

verus! {

/// After the first `i` events this was to be done, and this came of it.
pub open spec fn answered_at(
    asked: Option<String>,
    events: Seq<ShellEvent>,
    i: int,
    task: ShellTask,
    event: ShellEvent,
) -> bool {
    &&& 0 <= i < events.len()
    &&& after(asked, events.take(i)) == task
    &&& events[i] == event
}

/// This was to be done, and this came of it.
#[verifier::opaque]
pub open spec fn answered(asked: Option<String>, events: Seq<ShellEvent>, task: ShellTask, event: ShellEvent) -> bool {
    exists|i: int| #[trigger] answered_at(asked, events, i, task, event)
}

proof fn still_answered(asked: Option<String>, events: Seq<ShellEvent>)
    requires
        events.len() > 0,
    ensures
        forall|t: ShellTask, e: ShellEvent| #[trigger]
            answered(asked, events.drop_last(), t, e) ==> answered(asked, events, t, e),
        answered(asked, events, after(asked, events.drop_last()), events.last()),
{
    reveal(answered);
    let rest = events.drop_last();
    let n = events.len() - 1;
    assert(events.take(n) == rest);
    assert(events[n] == events.last());
    assert forall|t: ShellTask, e: ShellEvent| #[trigger] answered(asked, rest, t, e) implies answered(
        asked,
        events,
        t,
        e,
    ) by {
        let i = choose|i: int| #[trigger] answered_at(asked, rest, i, t, e);
        assert(rest.take(i) == events.take(i));
        assert(answered_at(asked, events, i, t, e));
    }
    assert(answered_at(asked, events, n, after(asked, rest), events.last()));
}

// ---------------------------------------------------------------------------
// Which shell
// ---------------------------------------------------------------------------

/// The container was asked, as this user, whether it has this shell, and had it.
pub open spec fn has_shell(
    asked: Option<String>,
    events: Seq<ShellEvent>,
    id: String,
    user: Option<String>,
    shell: ShellChoice,
) -> bool {
    answered(asked, events, ShellTask::Probe { id, user, shell }, ShellEvent::Status(0))
}

/// The container was asked, as this user, whether it has this shell, and did not have
/// it.
#[verifier::opaque]
pub open spec fn lacks_shell(
    asked: Option<String>,
    events: Seq<ShellEvent>,
    id: String,
    user: Option<String>,
    shell: ShellChoice,
) -> bool {
    exists|status: i32|
        status != 0 && #[trigger] answered(
            asked,
            events,
            ShellTask::Probe { id, user, shell },
            ShellEvent::Status(status),
        )
}

/// The shell is the one that was asked for; where none was, it is the first of `zsh` and
/// `bash` that the container has, or `sh` where it has neither.
pub open spec fn rightly_chosen(
    asked: Option<String>,
    events: Seq<ShellEvent>,
    id: String,
    user: Option<String>,
    shell: ShellChoice,
) -> bool {
    match asked {
        Some(path) => shell == ShellChoice::Asked(path),
        None => match shell {
            ShellChoice::Asked(_) => false,
            ShellChoice::Zsh => has_shell(asked, events, id, user, ShellChoice::Zsh),
            ShellChoice::Bash => lacks_shell(asked, events, id, user, ShellChoice::Zsh) && has_shell(
                asked,
                events,
                id,
                user,
                ShellChoice::Bash,
            ),
            ShellChoice::Sh => lacks_shell(asked, events, id, user, ShellChoice::Zsh) && lacks_shell(
                asked,
                events,
                id,
                user,
                ShellChoice::Bash,
            ),
        },
    }
}

spec fn choice_record(asked: Option<String>, events: Seq<ShellEvent>, task: ShellTask) -> bool {
    match task {
        ShellTask::Probe { id, user, shell } => asked is None && match shell {
            ShellChoice::Zsh => true,
            ShellChoice::Bash => lacks_shell(asked, events, id, user, ShellChoice::Zsh),
            ShellChoice::Sh => lacks_shell(asked, events, id, user, ShellChoice::Zsh) && lacks_shell(
                asked,
                events,
                id,
                user,
                ShellChoice::Bash,
            ),
            _ => false,
        },
        ShellTask::ResolveWorkdir { id, user, shell } => rightly_chosen(asked, events, id, user, shell),
        ShellTask::ResolveSecrets { id, user, shell, .. } => rightly_chosen(asked, events, id, user, shell),
        ShellTask::Sweep { call, shell } => rightly_chosen(asked, events, call.container, call.user, shell),
        ShellTask::PaintEntry { call, shell } => rightly_chosen(asked, events, call.container, call.user, shell),
        ShellTask::Attend { call, shell } => rightly_chosen(asked, events, call.container, call.user, shell),
        _ => true,
    }
}

proof fn choice_step(asked: Option<String>, task: ShellTask, event: ShellEvent)
    requires
        fits(task, event),
    ensures
        match following(asked, task, event).task {
            ShellTask::Probe { id, user, shell } => asked is None && (shell is Zsh || task is Probe
                && task->Probe_id == id && task->Probe_user == user && event is Status && event->Status_0 != 0 && (
            task->Probe_shell is Zsh && shell is Bash || task->Probe_shell is Bash && shell is Sh)) || task is Probe
                && event is Status && task->Probe_id == id && task->Probe_user == user && event->Status_0 != 0 && (
            task->Probe_shell is Zsh && shell is Bash || task->Probe_shell is Bash && shell is Sh),
            ShellTask::ResolveWorkdir { id, user, shell } => match asked {
                Some(path) => task is ResolveUser && shell == ShellChoice::Asked(path) || task is Probe,
                None => task is Probe && task->Probe_id == id && task->Probe_user == user && event is Status && (
                event->Status_0 == 0 && shell == task->Probe_shell || event->Status_0 != 0 && shell is Sh
                    && !(task->Probe_shell is Zsh) && !(task->Probe_shell is Bash)),
            },
            ShellTask::ResolveSecrets { id, user, shell, .. } => task == (ShellTask::ResolveWorkdir { id, user, shell }),
            ShellTask::Sweep { call, shell } => task is ResolveSecrets && task->ResolveSecrets_id == call.container
                && task->ResolveSecrets_user == call.user && task->ResolveSecrets_shell == shell,
            ShellTask::PaintEntry { call, shell } => task == (ShellTask::Sweep { call, shell }),
            ShellTask::Attend { call, shell } => task == (ShellTask::PaintEntry { call, shell }),
            _ => true,
        },
{
    reveal(following);
}

proof fn still_lacks(asked: Option<String>, events: Seq<ShellEvent>)
    requires
        events.len() > 0,
    ensures
        forall|id: String, user: Option<String>, shell: ShellChoice| #[trigger]
            lacks_shell(asked, events.drop_last(), id, user, shell) ==> lacks_shell(asked, events, id, user, shell),
        forall|id: String, user: Option<String>, shell: ShellChoice| #[trigger]
            rightly_chosen(asked, events.drop_last(), id, user, shell) ==> rightly_chosen(
                asked,
                events,
                id,
                user,
                shell,
            ),
        after(asked, events.drop_last()) matches ShellTask::Probe { id, user, shell } ==> (events.last() is Status
            && events.last()->Status_0 != 0 ==> lacks_shell(asked, events, id, user, shell)),
{
    still_answered(asked, events);
    let rest = events.drop_last();
    assert forall|id: String, user: Option<String>, shell: ShellChoice| #[trigger]
        lacks_shell(asked, rest, id, user, shell) implies lacks_shell(asked, events, id, user, shell) by {
        reveal(lacks_shell);
        let status = choose|status: i32|
            status != 0 && #[trigger] answered(
                asked,
                rest,
                ShellTask::Probe { id, user, shell },
                ShellEvent::Status(status),
            );
        assert(answered(asked, events, ShellTask::Probe { id, user, shell }, ShellEvent::Status(status)));
    }
    if let ShellTask::Probe { id, user, shell } = after(asked, rest) {
        if let ShellEvent::Status(status) = events.last() {
            if status != 0 {
                reveal(lacks_shell);
                assert(answered(asked, events, ShellTask::Probe { id, user, shell }, ShellEvent::Status(status)));
            }
        }
    }
}

proof fn choice_invariant(asked: Option<String>, events: Seq<ShellEvent>)
    requires
        in_turn(asked, events),
    ensures
        choice_record(asked, events, after(asked, events)),
    decreases events.len(),
{
    if events.len() > 0 {
        let rest = events.drop_last();
        in_turn_before(asked, events);
        choice_invariant(asked, rest);
        choice_step(asked, after(asked, rest), events.last());
        still_answered(asked, events);
        still_lacks(asked, events);
        let task = after(asked, rest);
        match after(asked, events) {
            ShellTask::ResolveSecrets { id, user, shell, .. } => {
                assert(rightly_chosen(asked, rest, id, user, shell));
            },
            ShellTask::Sweep { call, shell } => {
                assert(rightly_chosen(asked, rest, call.container, call.user, shell));
            },
            ShellTask::PaintEntry { call, shell } => {
                assert(rightly_chosen(asked, rest, call.container, call.user, shell));
            },
            ShellTask::Attend { call, shell } => {
                assert(rightly_chosen(asked, rest, call.container, call.user, shell));
            },
            _ => {},
        }
    }
}

/// A session is opened with the shell that was asked for; where none was, with the first
/// of `zsh` and `bash` that its container has for its user, or with `sh` where it has
/// neither.
pub proof fn sessions_open_the_right_shell(
    asked: Option<String>,
    events: Seq<ShellEvent>,
    call: ExecCall,
    shell: ShellChoice,
)
    requires
        in_turn(asked, events),
        after(asked, events) == (ShellTask::Attend { call, shell }),
    ensures
        rightly_chosen(asked, events, call.container, call.user, shell),
{
    choice_invariant(asked, events);
}

/// The shells stand under these paths.
pub proof fn shells_have_their_paths(path: String)
    ensures
        ShellChoice::Zsh.path_text() == "/bin/zsh"@,
        ShellChoice::Bash.path_text() == "/bin/bash"@,
        ShellChoice::Sh.path_text() == "/bin/sh"@,
        ShellChoice::Asked(path).path_text() == path@,
{
}

// ---------------------------------------------------------------------------
// How a run ends
// ---------------------------------------------------------------------------

/// A session in this container, as this user, came to this status: it ended with it, or
/// a signal ended it, which adds 128 to the signal's number.
#[verifier::opaque]
pub open spec fn session_came_to(
    asked: Option<String>,
    events: Seq<ShellEvent>,
    id: String,
    user: Option<String>,
    status: i32,
) -> bool {
    exists|call: ExecCall, shell: ShellChoice, event: ShellEvent|
        {
            &&& #[trigger] answered(asked, events, ShellTask::Attend { call, shell }, event)
            &&& call.container == id
            &&& call.user == user
            &&& event == ShellEvent::Status(status) || (event is Signalled && event->Signalled_0 + 128 == status)
        }
}

/// A session in this container, as this user, failed with this message.
#[verifier::opaque]
pub open spec fn session_failed(
    asked: Option<String>,
    events: Seq<ShellEvent>,
    id: String,
    user: Option<String>,
    e: String,
) -> bool {
    exists|call: ExecCall, shell: ShellChoice|
        {
            &&& #[trigger] answered(asked, events, ShellTask::Attend { call, shell }, ShellEvent::Failed(e))
            &&& call.container == id
            &&& call.user == user
        }
}

/// The status is what some session came to, and what that session had started was ended
/// in its container.
#[verifier::opaque]
pub open spec fn released_with(asked: Option<String>, events: Seq<ShellEvent>, status: i32) -> bool {
    exists|id: String, user: Option<String>|
        #[trigger] session_came_to(asked, events, id, user, status) && answered(
            asked,
            events,
            ShellTask::Release { id, user, status },
            ShellEvent::Released,
        )
}

spec fn end_record(asked: Option<String>, events: Seq<ShellEvent>, task: ShellTask) -> bool {
    match task {
        ShellTask::Release { id, user, status } => session_came_to(asked, events, id, user, status),
        ShellTask::PaintExit { id, user, outcome } => match outcome {
            Outcome::Status(status) => session_came_to(asked, events, id, user, status) && answered(
                asked,
                events,
                ShellTask::Release { id, user, status },
                ShellEvent::Released,
            ),
            Outcome::Failed(e) => session_failed(asked, events, id, user, e),
        },
        ShellTask::Exit(status) => released_with(asked, events, status),
        _ => true,
    }
}

proof fn end_step(asked: Option<String>, task: ShellTask, event: ShellEvent)
    requires
        fits(task, event),
    ensures
        match following(asked, task, event).task {
            ShellTask::Release { id, user, status } => task is Attend && task->Attend_call.container == id
                && task->Attend_call.user == user && (event == ShellEvent::Status(status) || (event is Signalled
                && event->Signalled_0 + 128 == status)),
            ShellTask::PaintExit { id, user, outcome } => match outcome {
                Outcome::Status(status) => task == (ShellTask::Release { id, user, status }) && event is Released,
                Outcome::Failed(e) => task is Attend && task->Attend_call.container == id && task->Attend_call.user
                    == user && event == ShellEvent::Failed(e),
            },
            ShellTask::Exit(status) => task is PaintExit && task->PaintExit_outcome == Outcome::Status(status),
            _ => true,
        },
{
    reveal(following);
}

proof fn still_ended(asked: Option<String>, events: Seq<ShellEvent>)
    requires
        events.len() > 0,
    ensures
        forall|id: String, user: Option<String>, status: i32| #[trigger]
            session_came_to(asked, events.drop_last(), id, user, status) ==> session_came_to(
                asked,
                events,
                id,
                user,
                status,
            ),
        forall|id: String, user: Option<String>, e: String| #[trigger]
            session_failed(asked, events.drop_last(), id, user, e) ==> session_failed(asked, events, id, user, e),
{
    still_answered(asked, events);
    let rest = events.drop_last();
    assert forall|id: String, user: Option<String>, status: i32| #[trigger]
        session_came_to(asked, rest, id, user, status) implies session_came_to(asked, events, id, user, status) by {
        reveal(session_came_to);
        let (call, shell, event) = choose|call: ExecCall, shell: ShellChoice, event: ShellEvent|
            {
                &&& #[trigger] answered(asked, rest, ShellTask::Attend { call, shell }, event)
                &&& call.container == id
                &&& call.user == user
                &&& event == ShellEvent::Status(status) || (event is Signalled && event->Signalled_0 + 128 == status)
            };
        assert(answered(asked, events, ShellTask::Attend { call, shell }, event));
    }
    assert forall|id: String, user: Option<String>, e: String| #[trigger]
        session_failed(asked, rest, id, user, e) implies session_failed(asked, events, id, user, e) by {
        reveal(session_failed);
        let (call, shell) = choose|call: ExecCall, shell: ShellChoice|
            {
                &&& #[trigger] answered(asked, rest, ShellTask::Attend { call, shell }, ShellEvent::Failed(e))
                &&& call.container == id
                &&& call.user == user
            };
        assert(answered(asked, events, ShellTask::Attend { call, shell }, ShellEvent::Failed(e)));
    }
}

proof fn end_invariant(asked: Option<String>, events: Seq<ShellEvent>)
    requires
        in_turn(asked, events),
    ensures
        end_record(asked, events, after(asked, events)),
    decreases events.len(),
{
    if events.len() > 0 {
        let rest = events.drop_last();
        let task = after(asked, rest);
        let event = events.last();
        in_turn_before(asked, events);
        end_invariant(asked, rest);
        end_step(asked, task, event);
        still_answered(asked, events);
        still_ended(asked, events);
        match after(asked, events) {
            ShellTask::Release { id, user, status } => {
                reveal(session_came_to);
                let call = task->Attend_call;
                let shell = task->Attend_shell;
                assert(answered(asked, events, ShellTask::Attend { call, shell }, event));
            },
            ShellTask::PaintExit { id, user, outcome } => {
                if let Outcome::Failed(e) = outcome {
                    reveal(session_failed);
                    let call = task->Attend_call;
                    let shell = task->Attend_shell;
                    assert(answered(asked, events, ShellTask::Attend { call, shell }, ShellEvent::Failed(e)));
                }
            },
            ShellTask::Exit(status) => {
                reveal(released_with);
                let id = task->PaintExit_id;
                let user = task->PaintExit_user;
                assert(session_came_to(asked, events, id, user, status));
            },
            _ => {},
        }
    }
}

/// A run ends with the very status that its session came to, or with 128 more than the
/// signal that ended it; and not before what the session had started was ended in the
/// session's own container, as the session's own user. A failure of the session is passed
/// on as it was.
pub proof fn a_session_passes_its_status_on(asked: Option<String>, events: Seq<ShellEvent>)
    requires
        in_turn(asked, events),
    ensures
        match after(asked, events) {
            ShellTask::Exit(status) => released_with(asked, events, status),
            ShellTask::Release { id, user, status } => session_came_to(asked, events, id, user, status),
            ShellTask::PaintExit { id, user, outcome } => match outcome {
                Outcome::Status(status) => session_came_to(asked, events, id, user, status),
                Outcome::Failed(e) => session_failed(asked, events, id, user, e),
            },
            _ => true,
        },
{
    end_invariant(asked, events);
}

/// A status is exited with, and a failure reported, once the pill was painted.
pub proof fn the_outcome_is_the_end(asked: Option<String>, id: String, user: Option<String>, status: i32, e: String)
    ensures
        following(
            asked,
            ShellTask::PaintExit { id, user, outcome: Outcome::Status(status) },
            ShellEvent::Painted,
        ).task == ShellTask::Exit(status),
        following(
            asked,
            ShellTask::PaintExit { id, user, outcome: Outcome::Failed(e) },
            ShellEvent::Painted,
        ).task == ShellTask::Fail(e),
{
    reveal(following);
}

/// What a listing leads to: the first container that runs is gone on with, under its own
/// id and image; where none runs, that is said.
pub proof fn the_first_running_container_is_taken(asked: Option<String>, found: Vec<ContainerInfo>, k: int)
    ensures
        0 <= k < found@.len() && found@[k].state is Running && (forall|j: int|
            0 <= j < k ==> !((#[trigger] found@[j]).state is Running)) ==> following(
            asked,
            ShellTask::ListContainers,
            ShellEvent::Listed(found),
        ).task == (ShellTask::ResolveUser { id: found@[k].id, image: found@[k].image }),
        (forall|j: int| 0 <= j < found@.len() ==> !((#[trigger] found@[j]).state is Running)) ==> following(
            asked,
            ShellTask::ListContainers,
            ShellEvent::Listed(found),
        ).task is FailNoContainer,
{
    reveal(following);
    if 0 <= k < found@.len() && found@[k].state is Running && (forall|j: int|
        0 <= j < k ==> !((#[trigger] found@[j]).state is Running)) {
        crate::model::running_at_is(found@, k);
    }
    if forall|j: int| 0 <= j < found@.len() ==> !((#[trigger] found@[j]).state is Running) {
        crate::model::running_at_is(found@, found@.len() as int);
    }
}

/// A sweep never keeps a session from being opened: how many orphans it ended is said, or
/// that it failed.
pub proof fn sweeping_never_stops_a_session(
    asked: Option<String>,
    call: ExecCall,
    shell: ShellChoice,
    n: usize,
    e: String,
)
    ensures
        following(asked, ShellTask::Sweep { call, shell }, ShellEvent::Swept(n)) == (ShellStep {
            notice: Some(ShellNotice::Swept(n)),
            task: ShellTask::PaintEntry { call, shell },
        }),
        following(asked, ShellTask::Sweep { call, shell }, ShellEvent::Failed(e)) == (ShellStep {
            notice: Some(ShellNotice::SweepFailed(e)),
            task: ShellTask::PaintEntry { call, shell },
        }),
        following(asked, ShellTask::PaintEntry { call, shell }, ShellEvent::Painted).task == (ShellTask::Attend {
            call,
            shell,
        }),
{
    reveal(following);
}

/// Whatever else fails before a session is open ends the run with the message.
pub proof fn early_failures_end_the_run(asked: Option<String>, task: ShellTask, e: String)
    requires
        fits(task, ShellEvent::Failed(e)),
        !(task is Sweep),
        !(task is Attend),
    ensures
        following(asked, task, ShellEvent::Failed(e)).task == ShellTask::Fail(e),
        following(asked, task, ShellEvent::Failed(e)).notice is None,
{
    reveal(following);
}

// ---------------------------------------------------------------------------
// The pill and the script
// ---------------------------------------------------------------------------

/// The pill names the workspace and then the runtime; only where several shells are open
/// it says first how many.
pub proof fn the_pill_counts_from_two(name: Seq<char>, runtime: Seq<char>, shells: nat)
    ensures
        shells <= 1 ==> pill_text(name, runtime, shells) == name + " · "@ + runtime,
        shells >= 2 ==> pill_text(name, runtime, shells) == crate::number::decimal_of(shells) + " shells · "@
            + pill_text(name, runtime, 1),
{
    if shells >= 2 {
        assert(pill_text(name, runtime, shells) =~= crate::number::decimal_of(shells) + " shells · "@ + pill_text(
            name,
            runtime,
            1,
        ));
    }
}

/// The pill is shown with its value under its key, as a blue terminal.
pub proof fn the_pill_is_a_blue_terminal(key: Seq<char>, value: Seq<char>)
    ensures
        ({
            let call = session_pill_call(key, value);
            &&& call.len() == 7
            &&& call[0] == "set-status"@ && call[1] == key && call[2] == value
            &&& call[3] == "--icon"@ && call[4] == "terminal"@
            &&& call[5] == "--color"@ && call[6] == "#3B82F6"@
        }),
{
}

/// A read that shows this many other live shells has the pill show them, with this one
/// where it counts.
pub proof fn the_pill_shows_the_shells_that_were_read(
    pill: SessionPill,
    read: Seq<Session>,
    own: u32,
    counting_self: bool,
    name: Seq<char>,
    runtime: Seq<char>,
)
    requires
        decides(pill, Some(read), own, counting_self, name, runtime),
    ensures
        ({
            let others = crate::session::other_live_shells(read, own);
            let all = if counting_self {
                others + 1
            } else {
                others
            };
            &&& all == 0 ==> pill is Clear
            &&& all > 0 ==> pill is Show && pill->Show_0@ == pill_text(name, runtime, all)
        }),
{
}

/// A session's script records the session, then enters the folder: a shell reads the
/// very folder that was given. Where that fails it names the folder and ends with a
/// failure; else it becomes the very shell that was given, as a login shell.
pub proof fn what_the_script_says(shell: Seq<char>, workdir: Seq<char>, register: Seq<char>)
    ensures
        ({
            let script = session_script(shell, workdir, register);
            let entering = script.skip(register.len() as int + 3);
            let (folder, failing) = read_word(entering, false)->Some_0;
            let naming = failing.skip(" || { printf 'dev: could not enter %s\\n' "@.len() as int);
            let (named, ending) = read_word(naming, false)->Some_0;
            let becoming = ending.skip(" >&2; exit 1; }; exec "@.len() as int);
            &&& script.take(register.len() as int) == register
            &&& script.subrange(register.len() as int, register.len() as int + 3) == "cd "@
            &&& folder == workdir
            &&& crate::text::begins_with(failing, " || { printf 'dev: could not enter %s\\n' "@)
            &&& named == workdir
            &&& crate::text::begins_with(ending, " >&2; exit 1; }; exec "@)
            &&& read_word(becoming, false) == Some((shell, " -l"@))
        }),
{
    reveal_strlit("cd ");
    reveal_strlit(" || { printf 'dev: could not enter %s\\n' ");
    reveal_strlit(" >&2; exit 1; }; exec ");
    reveal_strlit(" -l");
    let script = session_script(shell, workdir, register);
    let entering = after_cd(shell, workdir);
    let first = " || { printf 'dev: could not enter %s\\n' "@;
    let second = " >&2; exit 1; }; exec "@;
    let becoming = after_exec(shell);
    let ending = second + becoming;
    let failing = first + (quoted(workdir) + ending);
    assert(script.skip(register.len() as int + 3) =~= entering);
    assert(script.take(register.len() as int) =~= register);
    assert(script.subrange(register.len() as int, register.len() as int + 3) =~= "cd "@);
    assert(entering =~= quoted(workdir) + failing);
    assert(failing[0] == ' ');
    quoted_values_are_one_word(workdir, failing);
    assert(failing.take(first.len() as int) =~= first);
    assert(failing.skip(first.len() as int) =~= quoted(workdir) + ending);
    assert(ending[0] == ' ');
    quoted_values_are_one_word(workdir, ending);
    assert(ending.take(second.len() as int) =~= second);
    assert(ending.skip(second.len() as int) =~= becoming);
    quoted_values_are_one_word(shell, " -l"@);
}

/// A decision to show has the value put up under the pill's own key, one to clear takes
/// that very pill down, and one to leave it makes no call.
pub proof fn decisions_touch_their_own_pill(guard: StatusGuard, pill: SessionPill)
    requires
        guard.live(),
    ensures
        match pill {
            SessionPill::Show(value) => {
                let calls = decision_calls(guard, pill);
                &&& calls.drop_last() == guard.made()
                &&& calls.last().len() > 2
                &&& calls.last()[0] == "set-status"@ && calls.last()[1] == guard.key() && calls.last()[2] == value@
            },
            SessionPill::Clear => decision_calls(guard, pill) == guard.made().push(seq!["clear-status"@, guard.key()]),
            SessionPill::Leave => decision_calls(guard, pill) == guard.made(),
        },
{
}

/// What was read is what decides; a read that failed decides as no read at all.
pub proof fn a_failed_read_is_no_read(read: Option<&Vec<Session>>)
    ensures
        read is None <==> read_of(read) is None,
        read matches Some(sessions) ==> read_of(read) == Some(sessions@),
{
}

} // verus!
