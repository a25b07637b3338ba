//! `dev shell`: an interactive session in the workspace's container.
use vstd::prelude::*;

pub mod laws;

use crate::cmux::{clear_call, session_pill_style, StatusGuard};
use crate::exec::{signalled_status, ExecCall};
use crate::model::{first_running, running_at, ContainerInfo};
use crate::number::{decimal_of, show_unsigned};
use crate::session::{count_other_live_shells, other_live_shells, Session};
use crate::text::{cat2, cat3, cat5, owned, replace, replaced, texts};
use crate::up::secrets::SecretValue;

verus! {

// ---------------------------------------------------------------------------
// The pill
// ---------------------------------------------------------------------------

/// What a read of the live sessions has done to the pill. No shells are shown
/// only on evidence: a read that found none takes the pill down, and one that
/// failed leaves it as it is.
#[derive(Debug, PartialEq, Eq)]
pub enum SessionPill {
    /// Show this.
    Show(String),
    /// Take the pill down.
    Clear,
    /// Leave the pill as it is.
    Leave,
}

/// What the pill says of open shells: their number, if there are several, the
/// workspace and the runtime.
pub open spec fn pill_text(name: Seq<char>, runtime_name: Seq<char>, shells: nat) -> Seq<char> {
    if shells > 1 {
        decimal_of(shells) + " shells · "@ + name + " · "@ + runtime_name
    } else {
        name + " · "@ + runtime_name
    }
}

/// What the pill says of open shells.
pub fn pill_value(name: &str, runtime_name: &str, shells: usize) -> (r: String)
    ensures
        r@ == pill_text(name@, runtime_name@, shells as nat),
{
    if shells > 1 {
        let n = show_unsigned(shells as u64);
        cat5(n.as_str(), " shells · ", name, " · ", runtime_name)
    } else {
        cat3(name, " · ", runtime_name)
    }
}

/// The shells there are, with this one where it counts.
pub open spec fn shell_count(sessions: Seq<Session>, own_host_pid: u32, counting_self: bool) -> nat {
    other_live_shells(sessions, own_host_pid) + if counting_self {
        1nat
    } else {
        0nat
    }
}

/// The decision that a read of the live sessions leads to.
pub open spec fn decides(
    pill: SessionPill,
    sessions: Option<Seq<Session>>,
    own_host_pid: u32,
    counting_self: bool,
    workspace_name: Seq<char>,
    runtime_name: Seq<char>,
) -> bool {
    match sessions {
        None => pill is Leave,
        Some(read) => {
            let shells = shell_count(read, own_host_pid, counting_self);
            if shells == 0 {
                pill is Clear
            } else {
                pill matches SessionPill::Show(value) && value@ == pill_text(
                    workspace_name,
                    runtime_name,
                    shells,
                )
            }
        },
    }
}

/// The sessions of a read that answered.
pub open spec fn read_of(sessions: Option<&Vec<Session>>) -> Option<Seq<Session>> {
    match sessions {
        Some(v) => Some(v@),
        None => None,
    }
}

/// Decide from one read of the live sessions; none is a read that failed.
pub fn session_pill_action(
    sessions: Option<&Vec<Session>>,
    own_host_pid: u32,
    counting_self: bool,
    workspace_name: &str,
    runtime_name: &str,
) -> (r: SessionPill)
    requires
        sessions is Some ==> sessions->Some_0@.len() < usize::MAX,
    ensures
        decides(r, read_of(sessions), own_host_pid, counting_self, workspace_name@, runtime_name@),
{
    match sessions {
        None => SessionPill::Leave,
        Some(read) => {
            let mut shells: usize = count_other_live_shells(read, own_host_pid);
            if counting_self {
                shells = shells + 1;
            }
            if shells == 0 {
                SessionPill::Clear
            } else {
                SessionPill::Show(pill_value(workspace_name, runtime_name, shells))
            }
        },
    }
}

/// The call that shows the pill of open shells.
pub open spec fn session_pill_call(key: Seq<char>, value: Seq<char>) -> Seq<Seq<char>> {
    seq!["set-status"@, key, value, "--icon"@, "terminal"@, "--color"@, "#3B82F6"@]
}

/// The calls that a decision adds to a guard's.
pub open spec fn decision_calls(guard: StatusGuard, pill: SessionPill) -> Seq<Seq<Seq<char>>> {
    match pill {
        SessionPill::Show(value) => guard.with_call(session_pill_call(guard.key(), value@)),
        SessionPill::Clear => guard.with_call(clear_call(guard.key())),
        SessionPill::Leave => guard.made(),
    }
}

/// Carry a read of the live sessions out on the pill, at once: on entry, where
/// this session counts too, and at its end, after which the guard has nothing
/// left to do. A pill that is not wanted is not touched.
pub fn paint_session_pill(
    enabled: bool,
    sessions: Option<&Vec<Session>>,
    own_host_pid: u32,
    counting_self: bool,
    workspace_name: &str,
    runtime_name: &str,
    pill: &mut StatusGuard,
)
    requires
        sessions is Some ==> sessions->Some_0@.len() < usize::MAX,
    ensures
        !enabled ==> *final(pill) == *old(pill),
        final(pill).same_pill(*old(pill)),
        final(pill).outcome() == old(pill).outcome(),
        final(pill).notice() == old(pill).notice(),
        enabled ==> exists|decision: SessionPill|
            {
                &&& #[trigger] decides(
                    decision,
                    read_of(sessions),
                    own_host_pid,
                    counting_self,
                    workspace_name@,
                    runtime_name@,
                )
                &&& final(pill).made() == decision_calls(*old(pill), decision)
                &&& final(pill).armed() == (counting_self && (decision is Show || (decision is Leave && old(
                    pill,
                ).armed())))
            },
{
    if !enabled {
        return ;
    }
    let decision = session_pill_action(
        sessions,
        own_host_pid,
        counting_self,
        workspace_name,
        runtime_name,
    );
    match &decision {
        SessionPill::Show(value) => {
            let style = session_pill_style();
            proof {
                let call = crate::cmux::status_call(pill.key(), value@, style);
                assert(call =~= session_pill_call(pill.key(), value@));
            }
            pill.phase(value.as_str(), style);
        },
        SessionPill::Clear => {
            pill.clear();
        },
        SessionPill::Leave => {},
    }
    if !counting_self {
        pill.disarm();
    }
    assert(decides(
        decision,
        read_of(sessions),
        own_host_pid,
        counting_self,
        workspace_name@,
        runtime_name@,
    ));
}

/// A read decides what is shown: any two decisions from the same read make the
/// same calls.
pub proof fn a_read_decides(
    a: SessionPill,
    b: SessionPill,
    sessions: Option<Seq<Session>>,
    own_host_pid: u32,
    counting_self: bool,
    workspace_name: Seq<char>,
    runtime_name: Seq<char>,
    guard: StatusGuard,
)
    requires
        decides(a, sessions, own_host_pid, counting_self, workspace_name, runtime_name),
        decides(b, sessions, own_host_pid, counting_self, workspace_name, runtime_name),
    ensures
        decision_calls(guard, a) == decision_calls(guard, b),
{
}

/// The pill comes down only on evidence: a read that answered, and in which no
/// other shell is live. A read that failed leaves it, and a session never takes
/// the pill down on its way in.
pub proof fn no_shells_are_shown_only_on_evidence(
    pill: SessionPill,
    sessions: Option<Seq<Session>>,
    own_host_pid: u32,
    counting_self: bool,
    workspace_name: Seq<char>,
    runtime_name: Seq<char>,
)
    requires
        decides(pill, sessions, own_host_pid, counting_self, workspace_name, runtime_name),
    ensures
        pill is Clear <==> (sessions is Some && !counting_self && other_live_shells(
            sessions->Some_0,
            own_host_pid,
        ) == 0),
        pill is Leave <==> sessions is None,
{
}

/// What a session decides at its end is the last word on the pill: the guard,
/// which was told nothing to notify of, makes no call after it.
pub proof fn nothing_follows_the_last_decision(guard: StatusGuard, elapsed: u128)
    requires
        !guard.armed(),
        guard.notice() is None,
    ensures
        crate::cmux::closing(
            guard.live(),
            guard.armed(),
            guard.key(),
            guard.outcome(),
            guard.notice(),
            elapsed,
        ) == Seq::<Seq<Seq<char>>>::empty(),
{
}

// ---------------------------------------------------------------------------
// The command
// ---------------------------------------------------------------------------

/// A value in single quotes, with each quote of its own closed over, given
/// literally, and opened again.
pub open spec fn quoted(value: Seq<char>) -> Seq<char> {
    "'"@ + replaced(value, '\'', "'\\''"@) + "'"@
}

/// A value as one word of a shell's script.
pub fn single_quoted(value: &str) -> (r: String)
    ensures
        r@ == quoted(value@),
{
    let inner = replace(value, '\'', "'\\''");
    cat3("'", inner.as_str(), "'")
}

/// A character that ends a shell's word where nothing quotes it.
pub open spec fn ends_word(c: char) -> bool {
    c == ' ' || c == '\t' || c == '\n' || c == ';' || c == '&' || c == '|' || c == '<' || c == '>' || c == '('
        || c == ')'
}

/// A character that stands for itself where nothing quotes it.
pub open spec fn plain(c: char) -> bool {
    !ends_word(c) && c != '\'' && c != '"' && c != '\\' && c != '$' && c != '`' && c != '*' && c != '?' && c != '['
        && c != '#' && c != '~' && c != '='
}

pub open spec fn put_first(c: char, word: Option<(Seq<char>, Seq<char>)>) -> Option<(Seq<char>, Seq<char>)> {
    match word {
        Some((text, rest)) => Some((seq![c] + text, rest)),
        None => None,
    }
}

/// How a shell reads a word that needs no expansion: the word's text, and what
/// is left of the script after it. Within single quotes each character stands
/// for itself up to the next quote; outside of them a backslash has the next one
/// do so. Nothing where a quote is not closed or something would be expanded.
pub open spec fn read_word(script: Seq<char>, in_quotes: bool) -> Option<(Seq<char>, Seq<char>)>
    decreases script.len(),
{
    if script.len() == 0 {
        if in_quotes {
            None
        } else {
            Some((Seq::empty(), Seq::empty()))
        }
    } else if in_quotes {
        if script[0] == '\'' {
            read_word(script.skip(1), false)
        } else {
            put_first(script[0], read_word(script.skip(1), true))
        }
    } else if script[0] == '\'' {
        read_word(script.skip(1), true)
    } else if script[0] == '\\' {
        if script.len() >= 2 {
            put_first(script[1], read_word(script.skip(2), false))
        } else {
            None
        }
    } else if ends_word(script[0]) {
        Some((Seq::empty(), script))
    } else if plain(script[0]) {
        put_first(script[0], read_word(script.skip(1), false))
    } else {
        None
    }
}

proof fn replaced_front(s: Seq<char>, c: char, with: Seq<char>)
    requires
        s.len() > 0,
    ensures
        replaced(s, c, with) == (if s[0] == c {
            with
        } else {
            seq![s[0]]
        }) + replaced(s.skip(1), c, with),
    decreases s.len(),
{
    let t = s.drop_last();
    let first = if s[0] == c {
        with
    } else {
        seq![s[0]]
    };
    if s.len() == 1 {
        assert(s.skip(1) =~= Seq::<char>::empty());
        assert(t =~= Seq::<char>::empty());
        assert(replaced(s, c, with) =~= first + replaced(s.skip(1), c, with));
    } else {
        replaced_front(t, c, with);
        assert(t.skip(1) =~= s.skip(1).drop_last());
        assert(s.skip(1).last() == s.last());
        assert(t[0] == s[0]);
        assert(replaced(s, c, with) =~= first + replaced(s.skip(1), c, with));
    }
}

proof fn quoted_run_is_read(value: Seq<char>, rest: Seq<char>)
    requires
        rest.len() == 0 || ends_word(rest[0]),
    ensures
        read_word(replaced(value, '\'', "'\\''"@) + "'"@ + rest, true) == Some((value, rest)),
    decreases value.len(),
{
    reveal_strlit("'\\''");
    reveal_strlit("'");
    let with = "'\\''"@;
    assert(with =~= seq!['\'', '\\', '\'', '\'']);
    assert("'"@ =~= seq!['\'']);
    let script = replaced(value, '\'', with) + "'"@ + rest;
    if value.len() == 0 {
        assert(replaced(value, '\'', with) =~= Seq::<char>::empty());
        assert(script[0] == '\'');
        assert(script.skip(1) =~= rest);
        assert(value =~= Seq::<char>::empty());
        assert(rest.len() == 0 ==> rest =~= Seq::<char>::empty());
        assert(read_word(rest, false) == Some((value, rest)));
        assert(read_word(script, true) == read_word(rest, false));
    } else {
        let tail = value.skip(1);
        let inner = replaced(tail, '\'', with) + "'"@ + rest;
        replaced_front(value, '\'', with);
        quoted_run_is_read(tail, rest);
        assert(seq![value[0]] + tail =~= value);
        if value[0] == '\'' {
            assert(script =~= with + inner);
            let one = script.skip(1);
            let three = one.skip(2);
            assert(script[0] == '\'');
            assert(one[0] == '\\' && one[1] == '\'');
            assert(three[0] == '\'');
            assert(three.skip(1) =~= inner);
            assert(read_word(three, false) == read_word(inner, true));
            assert(read_word(one, false) == put_first('\'', read_word(three, false)));
            assert(read_word(script, true) == read_word(one, false));
            assert(seq!['\''] + tail =~= value);
        } else {
            assert(script =~= seq![value[0]] + inner);
            assert(script[0] == value[0]);
            assert(script.skip(1) =~= inner);
            assert(read_word(script, true) == put_first(value[0], read_word(inner, true)));
        }
    }
}

/// A quoted value is one word to a shell, and the word's text is the value,
/// whatever characters it has; what follows the word is read as it stands.
pub proof fn quoted_values_are_one_word(value: Seq<char>, rest: Seq<char>)
    requires
        rest.len() == 0 || ends_word(rest[0]),
    ensures
        read_word(quoted(value) + rest, false) == Some((value, rest)),
{
    reveal_strlit("'");
    let script = quoted(value) + rest;
    let run = replaced(value, '\'', "'\\''"@) + "'"@ + rest;
    assert(script =~= seq!['\''] + run);
    assert(script.skip(1) =~= run);
    quoted_run_is_read(value, rest);
}

/// The script of a session: it records itself, enters the folder, and becomes
/// the login shell; if it cannot enter, it says so and ends.
pub open spec fn session_script(shell: Seq<char>, workdir: Seq<char>, register: Seq<char>) -> Seq<char> {
    register + "cd "@ + after_cd(shell, workdir)
}

/// The script of a session after the word `cd`.
pub open spec fn after_cd(shell: Seq<char>, workdir: Seq<char>) -> Seq<char> {
    quoted(workdir) + (" || { printf 'dev: could not enter %s\\n' "@ + (quoted(workdir) + (
    " >&2; exit 1; }; exec "@ + after_exec(shell))))
}

/// The script of a session after the word `exec`.
pub open spec fn after_exec(shell: Seq<char>) -> Seq<char> {
    quoted(shell) + " -l"@
}

/// The command that a session is. `register` is the script that records it,
/// which comes before anything that can fail.
pub fn session_command(shell: &str, workdir: &str, register: &str) -> (r: Vec<String>)
    ensures
        texts(r@) == seq![shell@, "-c"@, session_script(shell@, workdir@, register@)],
{
    let quoted_workdir = single_quoted(workdir);
    let quoted_shell = single_quoted(shell);
    let end = cat3(" >&2; exit 1; }; exec ", quoted_shell.as_str(), " -l");
    let complaint = cat3(
        " || { printf 'dev: could not enter %s\\n' ",
        quoted_workdir.as_str(),
        end.as_str(),
    );
    let entry = cat2(quoted_workdir.as_str(), complaint.as_str());
    let script = cat3(register, "cd ", entry.as_str());
    proof {
        assert(end@ =~= " >&2; exit 1; }; exec "@ + after_exec(shell@));
        assert(complaint@ =~= " || { printf 'dev: could not enter %s\\n' "@ + (quoted(workdir@) + end@));
        assert(script@ =~= session_script(shell@, workdir@, register@));
    }
    let command: Vec<String> = vec![owned(shell), owned("-c"), script];
    assert(texts(command@) =~= seq![shell@, "-c"@, session_script(shell@, workdir@, register@)]);
    command
}

/// Where the script names the folder and the shell, a shell reads exactly the
/// folder and the shell that were given, whatever characters they have.
pub proof fn sessions_enter_what_they_were_given(shell: Seq<char>, workdir: Seq<char>)
    ensures
        read_word(after_cd(shell, workdir), false) is Some,
        read_word(after_cd(shell, workdir), false)->Some_0.0 == workdir,
        read_word(after_exec(shell), false) == Some((shell, " -l"@)),
{
    reveal_strlit(" || { printf 'dev: could not enter %s\\n' ");
    reveal_strlit(" -l");
    let rest = " || { printf 'dev: could not enter %s\\n' "@ + (quoted(workdir) + (
    " >&2; exit 1; }; exec "@ + after_exec(shell)));
    assert(rest[0] == ' ');
    quoted_values_are_one_word(workdir, rest);
    assert(" -l"@[0] == ' ');
    quoted_values_are_one_word(shell, " -l"@);
}

// ---------------------------------------------------------------------------
// The order of things
// ---------------------------------------------------------------------------

/// A shell to open.
pub enum ShellChoice {
    /// The one that was asked for.
    Asked(String),
    Zsh,
    Bash,
    Sh,
}

impl ShellChoice {
    /// The shell's path.
    pub open spec fn path_text(&self) -> Seq<char> {
        match self {
            ShellChoice::Asked(path) => path@,
            ShellChoice::Zsh => "/bin/zsh"@,
            ShellChoice::Bash => "/bin/bash"@,
            ShellChoice::Sh => "/bin/sh"@,
        }
    }

    /// The shell's path.
    pub fn path(&self) -> (r: String)
        ensures
            r@ == self.path_text(),
    {
        match self {
            ShellChoice::Asked(path) => path.clone(),
            ShellChoice::Zsh => owned("/bin/zsh"),
            ShellChoice::Bash => owned("/bin/bash"),
            ShellChoice::Sh => owned("/bin/sh"),
        }
    }

    /// The command that asks whether the container has the shell.
    pub fn probe(&self) -> (r: Vec<String>)
        ensures
            texts(r@) == seq!["test"@, "-x"@, self.path_text()],
    {
        let command: Vec<String> = vec![owned("test"), owned("-x"), self.path()];
        assert(texts(command@) =~= seq!["test"@, "-x"@, self.path_text()]);
        command
    }
}

/// What is to be done.
pub enum ShellTask {
    ListContainers,
    /// Find out whom sessions are run as in containers of this image.
    ResolveUser { id: String, image: String },
    /// Ask the container, as this user, whether it has this shell; in no folder of
    /// its own and with nothing added to the environment.
    Probe { id: String, user: Option<String>, shell: ShellChoice },
    /// Find out where this user's session starts.
    ResolveWorkdir { id: String, user: Option<String>, shell: ShellChoice },
    /// Ask the providers for the workspace's secrets.
    ResolveSecrets { id: String, user: Option<String>, workdir: String, shell: ShellChoice },
    /// End the container's orphaned sessions, as the call's user.
    Sweep { call: ExecCall, shell: ShellChoice },
    /// Read the container's sessions and paint the pill, counting this one.
    PaintEntry { call: ExecCall, shell: ShellChoice },
    /// Open a session with this shell.
    Attend { call: ExecCall, shell: ShellChoice },
    /// End what this process started in the container.
    Release { id: String, user: Option<String>, status: i32 },
    /// Read the container's sessions and paint the pill, without this one.
    PaintExit { id: String, user: Option<String>, outcome: Outcome },
    /// Exit with this status.
    Exit(i32),
    /// No container of the workspace is running.
    FailNoContainer,
    Fail(String),
}

/// What came of it.
pub enum ShellEvent {
    Failed(String),
    Listed(Vec<ContainerInfo>),
    User(Option<String>),
    /// The status of a command.
    Status(i32),
    Workdir(String),
    Secrets(Vec<(String, SecretValue)>),
    /// How many orphaned sessions were ended.
    Swept(usize),
    Painted,
    /// This process was told to end.
    Signalled(i32),
    Released,
}

/// What a session came to.
pub enum Outcome {
    Status(i32),
    Failed(String),
}

/// Something to say.
pub enum ShellNotice {
    Swept(usize),
    SweepFailed(String),
}

impl ShellNotice {
    /// What is said, if anything.
    pub fn text(&self) -> (r: Option<String>)
        ensures
            match self {
                ShellNotice::Swept(n) => if *n == 0 {
                    r is None
                } else {
                    r is Some && r->Some_0@ == "dev: reaped "@ + decimal_of(*n as nat)
                        + " orphaned container session(s)"@
                },
                ShellNotice::SweepFailed(e) => r is Some && r->Some_0@
                    == "Warning: could not check for orphaned sessions: "@ + e@,
            },
    {
        match self {
            ShellNotice::Swept(n) => crate::exec::sweep_notice(*n),
            ShellNotice::SweepFailed(e) => Some(crate::exec::sweep_warning(e.as_str())),
        }
    }
}

/// What is to be said, and then done.
pub struct ShellStep {
    pub notice: Option<ShellNotice>,
    pub task: ShellTask,
}

pub open spec fn just(task: ShellTask) -> ShellStep {
    ShellStep { notice: None, task }
}

/// The event is one that the task can come to.
pub open spec fn fits(task: ShellTask, event: ShellEvent) -> bool {
    match task {
        ShellTask::ListContainers => event is Listed || event is Failed,
        ShellTask::ResolveUser { .. } => event is User || event is Failed,
        ShellTask::Probe { .. } => event is Status || event is Failed,
        ShellTask::ResolveWorkdir { .. } => event is Workdir || event is Failed,
        ShellTask::ResolveSecrets { .. } => event is Secrets || event is Failed,
        ShellTask::Sweep { .. } => event is Swept || event is Failed,
        ShellTask::PaintEntry { .. } => event is Painted,
        ShellTask::Attend { .. } => event is Status || event is Failed || (event is Signalled
            && event->Signalled_0 <= i32::MAX - 128),
        ShellTask::Release { .. } => event is Released,
        ShellTask::PaintExit { .. } => event is Painted,
        _ => false,
    }
}

/// The shell that is asked for after this one was not there: the last one is
/// opened without asking.
pub open spec fn next_choice(shell: ShellChoice) -> Option<ShellChoice> {
    match shell {
        ShellChoice::Zsh => Some(ShellChoice::Bash),
        ShellChoice::Bash => Some(ShellChoice::Sh),
        _ => None,
    }
}

/// What comes next. `asked` is the shell that `--shell` names.
pub open spec fn shell_next(asked: Option<String>, task: ShellTask, event: ShellEvent) -> ShellStep {
    match (task, event) {
        (ShellTask::Sweep { call, shell }, ShellEvent::Failed(e)) => ShellStep {
            notice: Some(ShellNotice::SweepFailed(e)),
            task: ShellTask::PaintEntry { call, shell },
        },
        (ShellTask::Attend { call, .. }, ShellEvent::Failed(e)) => just(
            ShellTask::PaintExit { id: call.container, user: call.user, outcome: Outcome::Failed(e) },
        ),
        (_, ShellEvent::Failed(e)) => just(ShellTask::Fail(e)),
        (ShellTask::ListContainers, ShellEvent::Listed(found)) => {
            let i = running_at(found@);
            if i < found@.len() {
                just(ShellTask::ResolveUser { id: found@[i].id, image: found@[i].image })
            } else {
                just(ShellTask::FailNoContainer)
            }
        },
        (ShellTask::ResolveUser { id, .. }, ShellEvent::User(user)) => match asked {
            Some(path) => just(ShellTask::ResolveWorkdir { id, user, shell: ShellChoice::Asked(path) }),
            None => just(ShellTask::Probe { id, user, shell: ShellChoice::Zsh }),
        },
        (ShellTask::Probe { id, user, shell }, ShellEvent::Status(status)) => {
            if status == 0 {
                just(ShellTask::ResolveWorkdir { id, user, shell })
            } else {
                match next_choice(shell) {
                    Some(next) => just(ShellTask::Probe { id, user, shell: next }),
                    None => just(ShellTask::ResolveWorkdir { id, user, shell: ShellChoice::Sh }),
                }
            }
        },
        (ShellTask::ResolveWorkdir { id, user, shell }, ShellEvent::Workdir(workdir)) => just(
            ShellTask::ResolveSecrets { id, user, workdir, shell },
        ),
        (ShellTask::ResolveSecrets { id, user, workdir, shell }, ShellEvent::Secrets(secrets)) => just(
            ShellTask::Sweep { call: ExecCall { container: id, user, workdir, secrets }, shell },
        ),
        (ShellTask::Sweep { call, shell }, ShellEvent::Swept(n)) => ShellStep {
            notice: Some(ShellNotice::Swept(n)),
            task: ShellTask::PaintEntry { call, shell },
        },
        (ShellTask::PaintEntry { call, shell }, _) => just(ShellTask::Attend { call, shell }),
        (ShellTask::Attend { call, .. }, ShellEvent::Status(status)) => just(
            ShellTask::Release { id: call.container, user: call.user, status },
        ),
        (ShellTask::Attend { call, .. }, ShellEvent::Signalled(signal)) => just(
            ShellTask::Release { id: call.container, user: call.user, status: (128 + signal) as i32 },
        ),
        (ShellTask::Release { id, user, status }, _) => just(
            ShellTask::PaintExit { id, user, outcome: Outcome::Status(status) },
        ),
        (ShellTask::PaintExit { outcome, .. }, _) => just(
            match outcome {
                Outcome::Status(status) => ShellTask::Exit(status),
                Outcome::Failed(e) => ShellTask::Fail(e),
            },
        ),
        _ => just(ShellTask::FailNoContainer),
    }
}

fn do_just(task: ShellTask) -> (r: ShellStep)
    ensures
        r == just(task),
{
    ShellStep { notice: None, task }
}

fn next_shell(shell: &ShellChoice) -> (r: Option<ShellChoice>)
    ensures
        r == next_choice(*shell),
{
    match shell {
        ShellChoice::Zsh => Some(ShellChoice::Bash),
        ShellChoice::Bash => Some(ShellChoice::Sh),
        _ => None,
    }
}

/// What is to be said and done next, given what came of a task.
pub fn step(asked: &Option<String>, task: ShellTask, event: ShellEvent) -> (r: ShellStep)
    requires
        fits(task, event),
    ensures
        r == shell_next(*asked, task, event),
{
    match (task, event) {
        (ShellTask::Sweep { call, shell }, ShellEvent::Failed(e)) => ShellStep {
            notice: Some(ShellNotice::SweepFailed(e)),
            task: ShellTask::PaintEntry { call, shell },
        },
        (ShellTask::Attend { call, .. }, ShellEvent::Failed(e)) => do_just(
            ShellTask::PaintExit { id: call.container, user: call.user, outcome: Outcome::Failed(e) },
        ),
        (_, ShellEvent::Failed(e)) => do_just(ShellTask::Fail(e)),
        (ShellTask::ListContainers, ShellEvent::Listed(found)) => {
            let mut found = found;
            match first_running(&found) {
                Some(i) => {
                    let c = found.remove(i);
                    do_just(ShellTask::ResolveUser { id: c.id, image: c.image })
                },
                None => do_just(ShellTask::FailNoContainer),
            }
        },
        (ShellTask::ResolveUser { id, .. }, ShellEvent::User(user)) => match asked {
            Some(path) => do_just(
                ShellTask::ResolveWorkdir { id, user, shell: ShellChoice::Asked(path.clone()) },
            ),
            None => do_just(ShellTask::Probe { id, user, shell: ShellChoice::Zsh }),
        },
        (ShellTask::Probe { id, user, shell }, ShellEvent::Status(status)) => {
            if status == 0 {
                do_just(ShellTask::ResolveWorkdir { id, user, shell })
            } else {
                match next_shell(&shell) {
                    Some(next) => do_just(ShellTask::Probe { id, user, shell: next }),
                    None => do_just(ShellTask::ResolveWorkdir { id, user, shell: ShellChoice::Sh }),
                }
            }
        },
        (ShellTask::ResolveWorkdir { id, user, shell }, ShellEvent::Workdir(workdir)) => do_just(
            ShellTask::ResolveSecrets { id, user, workdir, shell },
        ),
        (ShellTask::ResolveSecrets { id, user, workdir, shell }, ShellEvent::Secrets(secrets)) => do_just(
            ShellTask::Sweep { call: ExecCall { container: id, user, workdir, secrets }, shell },
        ),
        (ShellTask::Sweep { call, shell }, ShellEvent::Swept(n)) => ShellStep {
            notice: Some(ShellNotice::Swept(n)),
            task: ShellTask::PaintEntry { call, shell },
        },
        (ShellTask::PaintEntry { call, shell }, _) => do_just(ShellTask::Attend { call, shell }),
        (ShellTask::Attend { call, .. }, ShellEvent::Status(status)) => do_just(
            ShellTask::Release { id: call.container, user: call.user, status },
        ),
        (ShellTask::Attend { call, .. }, ShellEvent::Signalled(signal)) => do_just(
            ShellTask::Release {
                id: call.container,
                user: call.user,
                status: signalled_status(signal),
            },
        ),
        (ShellTask::Release { id, user, status }, _) => do_just(
            ShellTask::PaintExit { id, user, outcome: Outcome::Status(status) },
        ),
        (ShellTask::PaintExit { outcome, .. }, _) => match outcome {
            Outcome::Status(status) => do_just(ShellTask::Exit(status)),
            Outcome::Failed(e) => do_just(ShellTask::Fail(e)),
        },
        _ => do_just(ShellTask::FailNoContainer),
    }
}

// ---------------------------------------------------------------------------
// Every run
// ---------------------------------------------------------------------------

/// What follows an event.
#[verifier::opaque]
pub open spec fn following(asked: Option<String>, task: ShellTask, event: ShellEvent) -> ShellStep {
    shell_next(asked, task, event)
}

/// What is to be done after a series of events.
pub open spec fn after(asked: Option<String>, events: Seq<ShellEvent>) -> ShellTask
    decreases events.len(),
{
    if events.len() == 0 {
        ShellTask::ListContainers
    } else {
        following(asked, after(asked, events.drop_last()), events.last()).task
    }
}

/// Each event is one that the task before it can come to.
#[verifier::opaque]
pub open spec fn in_turn(asked: Option<String>, events: Seq<ShellEvent>) -> bool {
    forall|i: int| 0 <= i < events.len() ==> fits(after(asked, events.take(i)), #[trigger] events[i])
}

proof fn in_turn_before(asked: Option<String>, events: Seq<ShellEvent>)
    requires
        in_turn(asked, events),
        events.len() > 0,
    ensures
        in_turn(asked, events.drop_last()),
        fits(after(asked, events.drop_last()), events.last()),
{
    reveal(in_turn);
    let rest = events.drop_last();
    assert forall|i: int| 0 <= i < rest.len() implies fits(after(asked, rest.take(i)), #[trigger] rest[i]) by {
        assert(events[i] == rest[i]);
        assert(rest.take(i) == events.take(i));
    }
    assert(events.take(events.len() - 1) == rest);
    assert(events[events.len() - 1] == events.last());
}

/// The event is a listing whose first running container is this one.
pub open spec fn shows_running(event: ShellEvent, id: String) -> bool {
    event matches ShellEvent::Listed(found) && running_at(found@) < found@.len() && found@[running_at(
        found@,
    )].id == id
}

/// A listing showed this container running.
#[verifier::opaque]
pub open spec fn found_running(events: Seq<ShellEvent>, id: String) -> bool {
    exists|i: int| 0 <= i < events.len() && shows_running(#[trigger] events[i], id)
}

/// This is the user that was found.
#[verifier::opaque]
pub open spec fn is_the_user(events: Seq<ShellEvent>, user: Option<String>) -> bool {
    exists|i: int| 0 <= i < events.len() && #[trigger] events[i] == ShellEvent::User(user)
}

/// After the first `i` events the folder of this user was looked for, and this
/// one was found.
pub open spec fn folder_found_at(
    asked: Option<String>,
    events: Seq<ShellEvent>,
    i: int,
    user: Option<String>,
    workdir: String,
) -> bool {
    &&& 0 <= i < events.len()
    &&& after(asked, events.take(i)) is ResolveWorkdir
    &&& after(asked, events.take(i))->ResolveWorkdir_user == user
    &&& events[i] == ShellEvent::Workdir(workdir)
}

/// This is the folder that was found for the user.
#[verifier::opaque]
pub open spec fn is_the_folder(
    asked: Option<String>,
    events: Seq<ShellEvent>,
    user: Option<String>,
    workdir: String,
) -> bool {
    exists|i: int| #[trigger] folder_found_at(asked, events, i, user, workdir)
}

/// These are the secrets that the providers gave.
#[verifier::opaque]
pub open spec fn are_the_secrets(events: Seq<ShellEvent>, secrets: Vec<(String, SecretValue)>) -> bool {
    exists|i: int| 0 <= i < events.len() && #[trigger] events[i] == ShellEvent::Secrets(secrets)
}

/// Everything a session is opened with is what was found for it.
pub open spec fn accounted_for(asked: Option<String>, events: Seq<ShellEvent>, call: ExecCall) -> bool {
    &&& found_running(events, call.container)
    &&& is_the_user(events, call.user)
    &&& is_the_folder(asked, events, call.user, call.workdir)
    &&& are_the_secrets(events, call.secrets)
}

spec fn task_accounted_for(asked: Option<String>, events: Seq<ShellEvent>, task: ShellTask) -> bool {
    match task {
        ShellTask::ResolveUser { id, .. } => found_running(events, id),
        ShellTask::Probe { id, user, .. } => found_running(events, id) && is_the_user(events, user),
        ShellTask::ResolveWorkdir { id, user, .. } => found_running(events, id) && is_the_user(events, user),
        ShellTask::ResolveSecrets { id, user, workdir, .. } => found_running(events, id) && is_the_user(
            events,
            user,
        ) && is_the_folder(asked, events, user, workdir),
        ShellTask::Sweep { call, .. } => accounted_for(asked, events, call),
        ShellTask::PaintEntry { call, .. } => accounted_for(asked, events, call),
        ShellTask::Attend { call, .. } => accounted_for(asked, events, call),
        _ => true,
    }
}

proof fn still_found(asked: Option<String>, events: Seq<ShellEvent>)
    requires
        events.len() > 0,
    ensures
        forall|id: String| #[trigger] found_running(events.drop_last(), id) ==> found_running(events, id),
        forall|id: String| shows_running(events.last(), id) ==> #[trigger] found_running(events, id),
        forall|user: Option<String>| #[trigger]
            is_the_user(events.drop_last(), user) ==> is_the_user(events, user),
        forall|user: Option<String>|
            events.last() == ShellEvent::User(user) ==> #[trigger] is_the_user(events, user),
        forall|user: Option<String>, workdir: String| #[trigger]
            is_the_folder(asked, events.drop_last(), user, workdir) ==> is_the_folder(
                asked,
                events,
                user,
                workdir,
            ),
        forall|user: Option<String>, workdir: String|
            (after(asked, events.drop_last()) matches ShellTask::ResolveWorkdir { user: u, .. } && u == user)
                && events.last() == ShellEvent::Workdir(workdir) ==> #[trigger] is_the_folder(
                asked,
                events,
                user,
                workdir,
            ),
        forall|secrets: Vec<(String, SecretValue)>| #[trigger]
            are_the_secrets(events.drop_last(), secrets) ==> are_the_secrets(events, secrets),
        forall|secrets: Vec<(String, SecretValue)>|
            events.last() == ShellEvent::Secrets(secrets) ==> #[trigger] are_the_secrets(events, secrets),
{
    reveal(found_running);
    reveal(is_the_user);
    reveal(is_the_folder);
    reveal(are_the_secrets);
    let rest = events.drop_last();
    let n = events.len() - 1;
    assert(events[n] == events.last());
    assert(events.take(n) == rest);
    assert forall|id: String| #[trigger] found_running(rest, id) implies found_running(events, id) by {
        let i = choose|i: int| 0 <= i < rest.len() && shows_running(#[trigger] rest[i], id);
        assert(shows_running(events[i], id));
    }
    assert forall|user: Option<String>| #[trigger] is_the_user(rest, user) implies is_the_user(events, user) by {
        let i = choose|i: int| 0 <= i < rest.len() && #[trigger] rest[i] == ShellEvent::User(user);
        assert(events[i] == ShellEvent::User(user));
    }
    assert forall|user: Option<String>, workdir: String| #[trigger]
        is_the_folder(asked, rest, user, workdir) implies is_the_folder(asked, events, user, workdir) by {
        let i = choose|i: int| #[trigger] folder_found_at(asked, rest, i, user, workdir);
        assert(rest.take(i) == events.take(i));
        assert(folder_found_at(asked, events, i, user, workdir));
    }
    assert forall|user: Option<String>, workdir: String|
        (after(asked, rest) matches ShellTask::ResolveWorkdir { user: u, .. } && u == user) && events.last()
            == ShellEvent::Workdir(workdir) implies #[trigger] is_the_folder(asked, events, user, workdir) by {
        assert(folder_found_at(asked, events, n, user, workdir));
    }
    assert forall|secrets: Vec<(String, SecretValue)>| #[trigger]
        are_the_secrets(rest, secrets) implies are_the_secrets(events, secrets) by {
        let i = choose|i: int| 0 <= i < rest.len() && #[trigger] rest[i] == ShellEvent::Secrets(secrets);
        assert(events[i] == ShellEvent::Secrets(secrets));
    }
}

proof fn calls_are_accounted_for(asked: Option<String>, events: Seq<ShellEvent>)
    requires
        in_turn(asked, events),
    ensures
        task_accounted_for(asked, events, after(asked, events)),
    decreases events.len(),
{
    if events.len() > 0 {
        in_turn_before(asked, events);
        calls_are_accounted_for(asked, events.drop_last());
        still_found(asked, events);
        reveal(following);
    }
}

/// A session is opened in the container that a listing showed running, as the
/// user that was found, in the folder that was found for that user, and with the
/// secrets that the providers gave.
pub proof fn sessions_open_with_what_was_resolved(
    asked: Option<String>,
    events: Seq<ShellEvent>,
    call: ExecCall,
    shell: ShellChoice,
)
    requires
        in_turn(asked, events),
        after(asked, events) == (ShellTask::Attend { call, shell }),
    ensures
        accounted_for(asked, events, call),
{
    calls_are_accounted_for(asked, events);
}

/// What could not be resolved ends the run without a session, and leaves the
/// container as it was.
pub proof fn bad_secrets_open_no_session(
    asked: Option<String>,
    id: String,
    user: Option<String>,
    workdir: String,
    shell: ShellChoice,
    e: String,
)
    ensures
        shell_next(asked, ShellTask::ResolveSecrets { id, user, workdir, shell }, ShellEvent::Failed(e)) == just(
            ShellTask::Fail(e),
        ),
{
}

/// The shells are asked for in their order, and the first that is there is
/// opened; where one was named, it is opened without asking.
pub proof fn the_first_shell_there_is_opened(asked: Option<String>, task: ShellTask, event: ShellEvent)
    requires
        fits(task, event),
        shell_next(asked, task, event).task is ResolveWorkdir,
    ensures
        ({
            let opened = shell_next(asked, task, event).task->ResolveWorkdir_shell;
            match task {
                ShellTask::ResolveUser { .. } => asked is Some && opened == ShellChoice::Asked(asked->Some_0),
                ShellTask::Probe { shell, .. } => if event == ShellEvent::Status(0) {
                    opened == shell
                } else {
                    opened is Sh && next_choice(shell) is None
                },
                _ => false,
            }
        }),
{
}

/// After some of the events, this was to be done.
pub open spec fn came_to(asked: Option<String>, events: Seq<ShellEvent>, what: spec_fn(ShellTask) -> bool) -> bool {
    exists|n: int| 0 <= n <= events.len() && what(#[trigger] after(asked, events.take(n)))
}

proof fn came_to_grows(asked: Option<String>, events: Seq<ShellEvent>, what: spec_fn(ShellTask) -> bool)
    requires
        events.len() > 0,
    ensures
        came_to(asked, events.drop_last(), what) || what(after(asked, events)) ==> came_to(asked, events, what),
{
    let rest = events.drop_last();
    assert(events.take(events.len() as int) == events);
    if came_to(asked, rest, what) {
        let n = choose|n: int| 0 <= n <= rest.len() && what(#[trigger] after(asked, rest.take(n)));
        assert(rest.take(n) == events.take(n));
    }
}

spec fn behind_it(asked: Option<String>, events: Seq<ShellEvent>, task: ShellTask) -> bool {
    let attended = came_to(asked, events, |t: ShellTask| t is Attend);
    let released = came_to(asked, events, |t: ShellTask| t is Release);
    &&& task is Attend || task is Release || task is PaintExit || task is Exit ==> attended
    &&& task is Release || task is Exit || (task matches ShellTask::PaintExit { outcome, .. }
        && outcome is Status) ==> released
    &&& task is PaintExit || task is Exit ==> came_to(asked, events, |t: ShellTask| t is PaintExit)
}

proof fn single_step(asked: Option<String>, task: ShellTask, event: ShellEvent)
    requires
        fits(task, event),
    ensures
        ({
            let next = following(asked, task, event).task;
            &&& next is Release ==> task is Attend
            &&& next matches ShellTask::PaintExit { outcome, .. } ==> if outcome is Status {
                task is Release
            } else {
                task is Attend
            }
            &&& next is Exit ==> (task matches ShellTask::PaintExit { outcome, .. } && outcome is Status)
        }),
{
    reveal(following);
}

proof fn behind_every_task(asked: Option<String>, events: Seq<ShellEvent>)
    requires
        in_turn(asked, events),
    ensures
        behind_it(asked, events, after(asked, events)),
    decreases events.len(),
{
    if events.len() > 0 {
        in_turn_before(asked, events);
        behind_every_task(asked, events.drop_last());
        single_step(asked, after(asked, events.drop_last()), events.last());
        came_to_grows(asked, events, |t: ShellTask| t is Attend);
        came_to_grows(asked, events, |t: ShellTask| t is Release);
        came_to_grows(asked, events, |t: ShellTask| t is PaintExit);
    }
}

/// A run that ends with a session's status has opened a session, released it in
/// the container, and painted the pill once more.
pub proof fn ended_sessions_were_released(asked: Option<String>, events: Seq<ShellEvent>)
    requires
        in_turn(asked, events),
        after(asked, events) is Exit,
    ensures
        came_to(asked, events, |t: ShellTask| t is Attend),
        came_to(asked, events, |t: ShellTask| t is Release),
        came_to(asked, events, |t: ShellTask| t is PaintExit),
{
    behind_every_task(asked, events);
}

/// Where a session that was opened fails, the pill is painted once more before
/// the failure is passed on.
pub proof fn failed_sessions_repaint(asked: Option<String>, call: ExecCall, shell: ShellChoice, e: String)
    ensures
        ({
            let painting = ShellTask::PaintExit {
                id: call.container,
                user: call.user,
                outcome: Outcome::Failed(e),
            };
            &&& shell_next(asked, ShellTask::Attend { call, shell }, ShellEvent::Failed(e)) == just(painting)
            &&& shell_next(asked, painting, ShellEvent::Painted) == just(ShellTask::Fail(e))
        }),
{
}

} // verus!
