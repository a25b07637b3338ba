//! cmux's sidebar: status pills and notifications.
//!
//! A handle collects the calls that are made through it; whoever holds it hands
//! them to the worker. An inert handle collects none.
use vstd::prelude::*;

use crate::model::copy_texts;
use crate::number::show_unsigned;
use crate::text::{owned, text_opt, texts};

pub mod agent;
pub mod worker;

verus! {

/// The status key of the pill that shows a build's phases.
pub const BUILD_KEY: &'static str = "dev_build";

/// The status key of the pill that shows open shells. It is another one, so
/// that neither pill takes the other's place.
pub const SHELL_KEY: &'static str = "dev_shell";

/// How a pill looks.
#[derive(Debug, Clone, Copy)]
pub struct StatusStyle<'a> {
    pub icon: Option<&'a str>,
    pub color: Option<&'a str>,
    pub priority: Option<u32>,
}

impl<'a> Default for StatusStyle<'a> {
    fn default() -> (r: Self)
        ensures
            r.icon is None && r.color is None && r.priority is None,
    {
        StatusStyle { icon: None, color: None, priority: None }
    }
}

/// How the pill of a build looks: an amber hammer.
pub fn build_style() -> (r: StatusStyle<'static>)
    ensures
        r.icon is Some && r.icon->Some_0@ == "hammer"@,
        r.color is Some && r.color->Some_0@ == "#F59E0B"@,
        r.priority is None,
{
    StatusStyle { icon: Some("hammer"), color: Some("#F59E0B"), priority: None }
}

/// How the pill of open shells looks: a blue terminal.
pub fn session_pill_style() -> (r: StatusStyle<'static>)
    ensures
        r.icon is Some && r.icon->Some_0@ == "terminal"@,
        r.color is Some && r.color->Some_0@ == "#3B82F6"@,
        r.priority is None,
{
    StatusStyle { icon: Some("terminal"), color: Some("#3B82F6"), priority: None }
}

// ---------------------------------------------------------------------------
// Calls
// ---------------------------------------------------------------------------

/// A flag and its value, if there is one.
pub open spec fn flag(name: Seq<char>, value: Option<Seq<char>>) -> Seq<Seq<char>> {
    match value {
        Some(v) => seq![name, v],
        None => Seq::empty(),
    }
}

/// The flags of a style: icon, color, priority.
pub open spec fn style_flags(style: StatusStyle) -> Seq<Seq<char>> {
    flag(
        "--icon"@,
        match style.icon {
            Some(s) => Some(s@),
            None => None,
        },
    ) + flag(
        "--color"@,
        match style.color {
            Some(s) => Some(s@),
            None => None,
        },
    ) + flag(
        "--priority"@,
        match style.priority {
            Some(n) => Some(crate::number::decimal_of(n as nat)),
            None => None,
        },
    )
}

/// The call that shows a pill.
pub open spec fn status_call(key: Seq<char>, value: Seq<char>, style: StatusStyle) -> Seq<Seq<char>> {
    seq!["set-status"@, key, value] + style_flags(style)
}

/// The call that takes a pill down.
pub open spec fn clear_call(key: Seq<char>) -> Seq<Seq<char>> {
    seq!["clear-status"@, key]
}

/// The call that shows a notification.
pub open spec fn notify_call(title: Seq<char>, body: Seq<char>) -> Seq<Seq<char>> {
    seq!["notify"@, "--title"@, title, "--body"@, body]
}

fn push_flag(args: &mut Vec<String>, name: &str, value: &str)
    ensures
        texts(final(args)@) == texts(old(args)@) + seq![name@, value@],
{
    let ghost before = texts(args@);
    args.push(owned(name));
    args.push(owned(value));
    assert(texts(args@) =~= before + seq![name@, value@]);
}

/// The call that shows a pill.
pub fn status_args(key: &str, value: &str, style: StatusStyle<'_>) -> (r: Vec<String>)
    ensures
        texts(r@) == status_call(key@, value@, style),
{
    let mut args: Vec<String> = vec![owned("set-status"), owned(key), owned(value)];
    let ghost head = seq!["set-status"@, key@, value@];
    assert(texts(args@) =~= head);
    match style.icon {
        Some(icon) => {
            push_flag(&mut args, "--icon", icon);
        },
        None => {},
    }
    match style.color {
        Some(color) => {
            push_flag(&mut args, "--color", color);
        },
        None => {},
    }
    match style.priority {
        Some(priority) => {
            let n = show_unsigned(priority as u64);
            push_flag(&mut args, "--priority", n.as_str());
        },
        None => {},
    }
    assert(texts(args@) =~= status_call(key@, value@, style));
    args
}

/// The call that takes a pill down.
pub fn clear_args(key: &str) -> (r: Vec<String>)
    ensures
        texts(r@) == clear_call(key@),
{
    let v: Vec<String> = vec![owned("clear-status"), owned(key)];
    assert(texts(v@) =~= clear_call(key@));
    v
}

/// The call that shows a notification.
pub fn notify_args(title: &str, body: &str) -> (r: Vec<String>)
    ensures
        texts(r@) == notify_call(title@, body@),
{
    let v: Vec<String> = vec![
        owned("notify"),
        owned("--title"),
        owned(title),
        owned("--body"),
        owned(body),
    ];
    assert(texts(v@) =~= notify_call(title@, body@));
    v
}

/// The texts of a list of calls.
pub open spec fn call_texts(calls: Seq<Vec<String>>) -> Seq<Seq<Seq<char>>> {
    calls.map_values(|c: Vec<String>| texts(c@))
}

// ---------------------------------------------------------------------------
// The handle
// ---------------------------------------------------------------------------

/// The `cmux` program and the socket it is pointed at.
#[derive(Debug, PartialEq, Eq)]
pub struct Spawner {
    pub binary: String,
    pub socket: String,
}

/// A program to run on the host: its arguments, and what is added to its
/// environment.
#[derive(Debug, PartialEq, Eq)]
pub struct SpawnCommand {
    pub program: String,
    pub args: Vec<String>,
    pub env: Vec<(String, String)>,
}

impl Spawner {
    /// A run of cmux: the socket comes before the verb, since cmux takes it only
    /// there.
    pub fn base_command(&self, args: &Vec<String>) -> (r: SpawnCommand)
        ensures
            r.program == self.binary,
            texts(r.args@) == seq!["--socket"@, self.socket@] + texts(args@),
            r.env@.len() == 0,
    {
        let mut out: Vec<String> = vec![owned("--socket"), self.socket.clone()];
        let ghost head = seq!["--socket"@, self.socket@];
        assert(texts(out@) =~= head);
        let mut more = copy_texts(args);
        let ghost a = out@;
        out.append(&mut more);
        assert(texts(out@) =~= texts(a) + texts(args@));
        SpawnCommand { program: self.binary.clone(), args: out, env: Vec::new() }
    }

    /// A status call: cmux is told to give up on its socket before its caller
    /// gives up on cmux.
    pub fn command_for(&self, args: &Vec<String>) -> (r: SpawnCommand)
        ensures
            r.program == self.binary,
            texts(r.args@) == seq!["--socket"@, self.socket@] + texts(args@),
            crate::assoc::pair_texts(r.env@) == seq![("CMUXTERM_CLI_RESPONSE_TIMEOUT_SEC"@, "0.75"@)],
    {
        let mut command = self.base_command(args);
        command.env = vec![(owned("CMUXTERM_CLI_RESPONSE_TIMEOUT_SEC"), owned("0.75"))];
        assert(crate::assoc::pair_texts(command.env@) =~= seq![
            ("CMUXTERM_CLI_RESPONSE_TIMEOUT_SEC"@, "0.75"@),
        ]);
        command
    }

    fn copy(&self) -> (r: Spawner)
        ensures
            r == *self,
    {
        Spawner { binary: self.binary.clone(), socket: self.socket.clone() }
    }
}

/// The program: the bundled one where it can be run, else the first on the
/// search path.
pub open spec fn binary_of(bundled: Option<String>, bundled_runs: bool, on_path: Option<String>) -> Option<String> {
    if bundled is Some && bundled_runs {
        bundled
    } else {
        on_path
    }
}

/// The program to use. `bundled_runs` is whether the bundled one is an
/// executable file.
pub fn resolve_binary(bundled: Option<String>, bundled_runs: bool, on_path: Option<String>) -> (r: Option<
    String,
>)
    ensures
        r == binary_of(bundled, bundled_runs, on_path),
{
    if bundled.is_some() && bundled_runs {
        bundled
    } else {
        on_path
    }
}

/// The cmux of this terminal: there is one only where the terminal is one of
/// cmux's, its socket is a socket, and there is a program to run.
pub fn locate(
    surface_id: &Option<String>,
    socket: Option<String>,
    socket_is_socket: bool,
    bundled: Option<String>,
    bundled_runs: bool,
    on_path: Option<String>,
) -> (r: Option<Spawner>)
    ensures
        ({
            let binary = binary_of(bundled, bundled_runs, on_path);
            if surface_id is Some && surface_id->Some_0@.len() > 0 && socket is Some && socket_is_socket
                && binary is Some {
                r == Some(Spawner { binary: binary->Some_0, socket: socket->Some_0 })
            } else {
                r is None
            }
        }),
{
    match surface_id {
        None => {
            return None;
        },
        Some(id) => {
            if id.as_str().is_empty() {
                return None;
            }
        },
    }
    let socket = match socket {
        None => {
            return None;
        },
        Some(socket) => socket,
    };
    if !socket_is_socket {
        return None;
    }
    match resolve_binary(bundled, bundled_runs, on_path) {
        Some(binary) => Some(Spawner { binary, socket }),
        None => None,
    }
}

/// What becomes of the calls made through a handle.
#[derive(Debug, PartialEq, Eq)]
pub enum Runner {
    /// They go to this terminal's cmux, if it has one.
    Live(Option<Spawner>),
    /// They are only recorded.
    Recording,
}

/// A handle to cmux's sidebar. One without a runner is inert.
pub struct Cmux {
    runner: Option<Runner>,
    calls: Vec<Vec<String>>,
}

impl Cmux {
    /// Calls made through the handle go somewhere.
    pub closed spec fn reachable(&self) -> bool {
        match self.runner {
            None => false,
            Some(Runner::Live(target)) => target is Some,
            Some(Runner::Recording) => true,
        }
    }

    /// The handle is not an inert one.
    pub closed spec fn has_runner(&self) -> bool {
        self.runner is Some
    }

    /// The calls that were made and not taken yet, in order.
    pub closed spec fn made(&self) -> Seq<Seq<Seq<char>>> {
        call_texts(self.calls@)
    }

    /// The handle after one more call.
    pub open spec fn after_call(&self, args: Seq<Seq<char>>) -> Seq<Seq<Seq<char>>> {
        if self.reachable() {
            self.made().push(args)
        } else {
            self.made()
        }
    }

    /// The handle of a command: to this terminal's cmux, or inert where the
    /// command's configuration rules cmux out.
    pub fn detect(enabled: bool, target: Option<Spawner>) -> (r: Cmux)
        ensures
            r.has_runner() == enabled,
            r.reachable() == (enabled && target is Some),
            r.made() == Seq::<Seq<Seq<char>>>::empty(),
    {
        let calls: Vec<Vec<String>> = Vec::new();
        assert(call_texts(calls@) =~= Seq::<Seq<Seq<char>>>::empty());
        Cmux {
            runner: if enabled {
                Some(Runner::Live(target))
            } else {
                None
            },
            calls,
        }
    }

    /// A handle whose calls are only recorded.
    pub fn recording() -> (r: Cmux)
        ensures
            r.has_runner(),
            r.reachable(),
            r.made() == Seq::<Seq<Seq<char>>>::empty(),
    {
        let calls: Vec<Vec<String>> = Vec::new();
        assert(call_texts(calls@) =~= Seq::<Seq<Seq<char>>>::empty());
        Cmux { runner: Some(Runner::Recording), calls }
    }

    /// Whether calls made through the handle go somewhere.
    pub fn available(&self) -> (r: bool)
        ensures
            r == self.reachable(),
    {
        match &self.runner {
            None => false,
            Some(Runner::Live(target)) => target.is_some(),
            Some(Runner::Recording) => true,
        }
    }

    /// Whether the worker has to be waited for before the process ends.
    pub fn needs_flush(&self) -> (r: bool)
        ensures
            r == self.has_runner(),
    {
        self.runner.is_some()
    }

    /// Show a pill.
    pub fn set_status(&mut self, key: &str, value: &str, style: StatusStyle<'_>)
        ensures
            final(self).same_runner(*old(self)),
            final(self).made() == old(self).after_call(status_call(key@, value@, style)),
    {
        self.call(status_args(key, value, style));
    }

    /// Take a pill down.
    pub fn clear_status(&mut self, key: &str)
        ensures
            final(self).same_runner(*old(self)),
            final(self).made() == old(self).after_call(clear_call(key@)),
    {
        self.call(clear_args(key));
    }

    /// Show a notification.
    pub fn notify(&mut self, title: &str, body: &str)
        ensures
            final(self).same_runner(*old(self)),
            final(self).made() == old(self).after_call(notify_call(title@, body@)),
    {
        self.call(notify_args(title, body));
    }

    /// Calls made through both go to the same place.
    pub closed spec fn same_runner(&self, other: Cmux) -> bool {
        self.runner == other.runner
    }

    /// What holds of handles whose calls go to the same place.
    pub proof fn same_runner_reaches(a: Cmux, b: Cmux)
        requires
            a.same_runner(b),
        ensures
            a.reachable() == b.reachable(),
            a.has_runner() == b.has_runner(),
    {
    }

    fn call(&mut self, args: Vec<String>)
        ensures
            final(self).same_runner(*old(self)),
            final(self).made() == old(self).after_call(texts(args@)),
    {
        if self.available() {
            let ghost before = call_texts(self.calls@);
            let ghost text = texts(args@);
            self.calls.push(args);
            assert(call_texts(self.calls@) =~= before.push(text));
        }
    }

    /// The calls that were made and not taken yet, in order.
    pub fn calls(&self) -> (r: &Vec<Vec<String>>)
        ensures
            call_texts(r@) == self.made(),
    {
        &self.calls
    }

    /// Take the calls that were made, for the worker.
    pub fn take_calls(&mut self) -> (r: Vec<Vec<String>>)
        ensures
            final(self).same_runner(*old(self)),
            call_texts(r@) == old(self).made(),
            final(self).made() == Seq::<Seq<Seq<char>>>::empty(),
    {
        let mut taken: Vec<Vec<String>> = Vec::new();
        std::mem::swap(&mut taken, &mut self.calls);
        assert(call_texts(self.calls@) =~= Seq::<Seq<Seq<char>>>::empty());
        taken
    }

    /// A handle to the same place, with no calls of its own; or an inert one.
    fn fresh(&self, enabled: bool) -> (r: Cmux)
        ensures
            enabled ==> r.same_runner(*self),
            !enabled ==> !r.has_runner() && !r.reachable(),
            r.made() == Seq::<Seq<Seq<char>>>::empty(),
    {
        let calls: Vec<Vec<String>> = Vec::new();
        assert(call_texts(calls@) =~= Seq::<Seq<Seq<char>>>::empty());
        let runner = if enabled {
            match &self.runner {
                None => None,
                Some(Runner::Recording) => Some(Runner::Recording),
                Some(Runner::Live(None)) => Some(Runner::Live(None)),
                Some(Runner::Live(Some(target))) => Some(Runner::Live(Some(target.copy()))),
            }
        } else {
            None
        };
        Cmux { runner, calls }
    }

    /// A guard of the pill with this key. Both gates are met here: it does
    /// something only where the command's configuration wants the pill and the
    /// handle reaches cmux.
    pub fn guard(&self, key: &str, enabled: bool) -> (r: StatusGuard)
        ensures
            r.key() == key@,
            r.live() == (enabled && self.reachable()),
            r.flushes() == (enabled && self.has_runner()),
            !r.armed(),
            r.outcome() is None,
            r.notice() is None,
            r.made() == Seq::<Seq<Seq<char>>>::empty(),
    {
        let cmux = self.fresh(enabled);
        StatusGuard { cmux, key: owned(key), set: false, outcome: None, notify: None }
    }
}

// ---------------------------------------------------------------------------
// The guard
// ---------------------------------------------------------------------------

/// Takes its pill down at its end, and notifies of the outcome where it lasted
/// long enough.
#[must_use]
pub struct StatusGuard {
    cmux: Cmux,
    key: String,
    set: bool,
    outcome: Option<String>,
    notify: Option<(String, u128)>,
}

/// The calls that end a guard: the pill is taken down where that is owed, and
/// the outcome told where the guard lasted long enough. Durations are in
/// nanoseconds.
pub open spec fn closing(
    live: bool,
    armed: bool,
    key: Seq<char>,
    outcome: Option<Seq<char>>,
    notice: Option<(Seq<char>, u128)>,
    elapsed: u128,
) -> Seq<Seq<Seq<char>>> {
    let down = if armed {
        seq![clear_call(key)]
    } else {
        Seq::<Seq<Seq<char>>>::empty()
    };
    let told = match notice {
        Some((title, min_elapsed)) => if elapsed >= min_elapsed {
            seq![
                notify_call(
                    title,
                    match outcome {
                        Some(summary) => summary,
                        None => "failed"@,
                    },
                ),
            ]
        } else {
            Seq::<Seq<Seq<char>>>::empty()
        },
        None => Seq::<Seq<Seq<char>>>::empty(),
    };
    if live {
        down + told
    } else {
        Seq::empty()
    }
}

impl StatusGuard {
    /// The pill's key.
    pub closed spec fn key(&self) -> Seq<char> {
        self.key@
    }

    /// The guard's calls go somewhere.
    pub closed spec fn live(&self) -> bool {
        self.cmux.reachable()
    }

    /// The worker has to be waited for at the guard's end.
    pub closed spec fn flushes(&self) -> bool {
        self.cmux.has_runner()
    }

    /// The pill is to be taken down at the guard's end.
    pub closed spec fn armed(&self) -> bool {
        self.set
    }

    /// The outcome that was recorded.
    pub closed spec fn outcome(&self) -> Option<Seq<char>> {
        text_opt(self.outcome)
    }

    /// The title of a notification at the guard's end, and how long the guard
    /// has to last for it.
    pub closed spec fn notice(&self) -> Option<(Seq<char>, u128)> {
        match self.notify {
            Some((title, min_elapsed)) => Some((title@, min_elapsed)),
            None => None,
        }
    }

    /// The calls that were made and not taken yet, in order.
    pub closed spec fn made(&self) -> Seq<Seq<Seq<char>>> {
        self.cmux.made()
    }

    /// Both guard the same pill, to the same place.
    pub open spec fn same_pill(&self, other: StatusGuard) -> bool {
        &&& self.key() == other.key()
        &&& self.live() == other.live()
        &&& self.flushes() == other.flushes()
    }

    /// The calls after one more, as far as it goes anywhere.
    pub open spec fn with_call(&self, args: Seq<Seq<char>>) -> Seq<Seq<Seq<char>>> {
        if self.live() {
            self.made().push(args)
        } else {
            self.made()
        }
    }

    /// Show this on the pill.
    pub fn phase(&mut self, label: &str, style: StatusStyle<'_>)
        ensures
            final(self).same_pill(*old(self)),
            final(self).armed(),
            final(self).outcome() == old(self).outcome(),
            final(self).notice() == old(self).notice(),
            final(self).made() == old(self).with_call(status_call(old(self).key(), label@, style)),
    {
        let ghost before = self.cmux;
        self.cmux.set_status(self.key.as_str(), label, style);
        proof {
            Cmux::same_runner_reaches(self.cmux, before);
        }
        self.set = true;
    }

    /// Record the outcome. Nothing is called.
    pub fn succeeded(&mut self, summary: &str)
        ensures
            final(self).same_pill(*old(self)),
            final(self).armed() == old(self).armed(),
            final(self).outcome() == Some(summary@),
            final(self).notice() == old(self).notice(),
            final(self).made() == old(self).made(),
    {
        self.outcome = Some(owned(summary));
    }

    /// Have the outcome told at the guard's end, if it lasts this many
    /// nanoseconds. Nothing is called.
    pub fn notify_after(self, title: &str, min_elapsed: u128) -> (r: Self)
        ensures
            r.same_pill(self),
            r.armed() == self.armed(),
            r.outcome() == self.outcome(),
            r.notice() == Some((title@, min_elapsed)),
            r.made() == self.made(),
    {
        let mut guard = self;
        guard.notify = Some((owned(title), min_elapsed));
        guard
    }

    /// Take the pill down now, and leave nothing to take down at the end.
    pub fn clear(&mut self)
        ensures
            final(self).same_pill(*old(self)),
            !final(self).armed(),
            final(self).outcome() == old(self).outcome(),
            final(self).notice() == old(self).notice(),
            final(self).made() == old(self).with_call(clear_call(old(self).key())),
    {
        let ghost before = self.cmux;
        self.cmux.clear_status(self.key.as_str());
        proof {
            Cmux::same_runner_reaches(self.cmux, before);
        }
        self.set = false;
    }

    /// Leave the pill as it is at the guard's end.
    pub fn disarm(&mut self)
        ensures
            final(self).same_pill(*old(self)),
            !final(self).armed(),
            final(self).outcome() == old(self).outcome(),
            final(self).notice() == old(self).notice(),
            final(self).made() == old(self).made(),
    {
        self.set = false;
    }

    /// Whether the guard's calls go somewhere.
    pub fn available(&self) -> (r: bool)
        ensures
            r == self.live(),
    {
        self.cmux.available()
    }

    /// Take the calls that were made, for the worker.
    pub fn take_calls(&mut self) -> (r: Vec<Vec<String>>)
        ensures
            final(self).same_pill(*old(self)),
            final(self).armed() == old(self).armed(),
            final(self).outcome() == old(self).outcome(),
            final(self).notice() == old(self).notice(),
            call_texts(r@) == old(self).made(),
            final(self).made() == Seq::<Seq<Seq<char>>>::empty(),
    {
        let ghost before = self.cmux;
        let taken = self.cmux.take_calls();
        proof {
            Cmux::same_runner_reaches(self.cmux, before);
        }
        taken
    }

    /// The guard's end, this many nanoseconds after its start: the calls that
    /// were not taken yet and those that end it, and whether the worker has to
    /// be waited for.
    pub fn finish(self, elapsed: u128) -> (r: (Vec<Vec<String>>, bool))
        ensures
            call_texts(r.0@) == self.made() + closing(
                self.live(),
                self.armed(),
                self.key(),
                self.outcome(),
                self.notice(),
                elapsed,
            ),
            r.1 == self.flushes(),
    {
        let ghost start = self.cmux;
        let ghost had = self.made();
        let live = self.cmux.available();
        let mut guard = self;
        if guard.set {
            guard.cmux.clear_status(guard.key.as_str());
        }
        proof {
            Cmux::same_runner_reaches(guard.cmux, start);
        }
        let ghost middle = guard.cmux;
        match &guard.notify {
            Some((title, min_elapsed)) => {
                if elapsed >= *min_elapsed {
                    match &guard.outcome {
                        Some(summary) => {
                            guard.cmux.notify(title.as_str(), summary.as_str());
                        },
                        None => {
                            guard.cmux.notify(title.as_str(), "failed");
                        },
                    }
                }
            },
            None => {},
        }
        proof {
            Cmux::same_runner_reaches(guard.cmux, middle);
            assert(guard.cmux.made() =~= had + closing(
                live,
                self.armed(),
                self.key(),
                self.outcome(),
                self.notice(),
                elapsed,
            ));
        }
        let flush = guard.cmux.needs_flush();
        let calls = guard.cmux.take_calls();
        (calls, flush)
    }
}

// ---------------------------------------------------------------------------
// What holds of guards
// ---------------------------------------------------------------------------

/// Nothing is called where the guard reaches nothing.
pub proof fn inert_guards_call_nothing(
    armed: bool,
    key: Seq<char>,
    outcome: Option<Seq<char>>,
    notice: Option<(Seq<char>, u128)>,
    elapsed: u128,
)
    ensures
        closing(false, armed, key, outcome, notice, elapsed).len() == 0,
{
}

/// The pill is up after these calls: the last that shows or takes it down shows
/// it.
pub open spec fn pill_up(calls: Seq<Seq<Seq<char>>>) -> bool
    decreases calls.len(),
{
    if calls.len() == 0 {
        false
    } else if calls.last()[0] == "set-status"@ {
        true
    } else if calls.last()[0] == "clear-status"@ {
        false
    } else {
        pill_up(calls.drop_last())
    }
}

/// What is done with a guard before its end.
pub enum GuardOp {
    /// Show this.
    Phase(Seq<char>, StatusStyle<'static>),
    /// Take the pill down.
    Clear,
    /// Record an outcome.
    Succeeded,
}

/// Whether the pill is to be taken down at the end, after one more operation.
pub open spec fn armed_after(armed: bool, op: GuardOp) -> bool {
    match op {
        GuardOp::Phase(_, _) => true,
        GuardOp::Clear => false,
        GuardOp::Succeeded => armed,
    }
}

/// The calls of one operation.
pub open spec fn op_calls(key: Seq<char>, op: GuardOp) -> Seq<Seq<Seq<char>>> {
    match op {
        GuardOp::Phase(label, style) => seq![status_call(key, label, style)],
        GuardOp::Clear => seq![clear_call(key)],
        GuardOp::Succeeded => Seq::empty(),
    }
}

/// Whether the pill is to be taken down at the end, after these operations.
pub open spec fn armed_after_all(ops: Seq<GuardOp>) -> bool
    decreases ops.len(),
{
    if ops.len() == 0 {
        false
    } else {
        armed_after(armed_after_all(ops.drop_last()), ops.last())
    }
}

/// The calls of these operations.
pub open spec fn all_calls(key: Seq<char>, ops: Seq<GuardOp>) -> Seq<Seq<Seq<char>>>
    decreases ops.len(),
{
    if ops.len() == 0 {
        Seq::empty()
    } else {
        all_calls(key, ops.drop_last()) + op_calls(key, ops.last())
    }
}

proof fn verbs_differ()
    ensures
        "set-status"@ != "clear-status"@,
        "notify"@ != "set-status"@,
        "notify"@ != "clear-status"@,
{
    reveal_strlit("set-status");
    reveal_strlit("clear-status");
    reveal_strlit("notify");
    assert("set-status"@.len() == 10);
    assert("clear-status"@.len() == 12);
    assert("notify"@.len() == 6);
}

proof fn armed_while_up(key: Seq<char>, ops: Seq<GuardOp>)
    ensures
        pill_up(all_calls(key, ops)) == armed_after_all(ops),
    decreases ops.len(),
{
    verbs_differ();
    if ops.len() > 0 {
        let before = all_calls(key, ops.drop_last());
        armed_while_up(key, ops.drop_last());
        match ops.last() {
            GuardOp::Phase(label, style) => {
                let call = status_call(key, label, style);
                assert(before + seq![call] == before.push(call));
                assert(call[0] == "set-status"@);
            },
            GuardOp::Clear => {
                let call = clear_call(key);
                assert(before + seq![call] == before.push(call));
                assert(call[0] == "clear-status"@);
            },
            GuardOp::Succeeded => {
                assert(before + Seq::<Seq<Seq<char>>>::empty() == before);
            },
        }
    }
}

/// Whatever was done with a guard, its pill is down after its end, unless it
/// was disarmed.
pub proof fn no_pill_is_left_up(
    key: Seq<char>,
    ops: Seq<GuardOp>,
    outcome: Option<Seq<char>>,
    notice: Option<(Seq<char>, u128)>,
    elapsed: u128,
)
    ensures
        !pill_up(
            all_calls(key, ops) + closing(true, armed_after_all(ops), key, outcome, notice, elapsed),
        ),
{
    verbs_differ();
    armed_while_up(key, ops);
    let before = all_calls(key, ops);
    let down = closing(true, armed_after_all(ops), key, outcome, None, elapsed);
    let end = closing(true, armed_after_all(ops), key, outcome, notice, elapsed);
    assert(!pill_up(before + down)) by {
        if armed_after_all(ops) {
            assert(before + down == before.push(clear_call(key)));
        } else {
            assert(before + down == before);
        }
    }
    if end.len() > down.len() {
        assert((before + end).drop_last() == before + down);
        assert((before + end).last() == end.last());
        assert(end.last()[0] == "notify"@);
    } else {
        assert(end == down);
    }
}

/// The two keys differ, so neither pill's calls touch the other.
pub proof fn keys_are_distinct()
    ensures
        BUILD_KEY@ != SHELL_KEY@,
{
    reveal_strlit("dev_build");
    reveal_strlit("dev_shell");
    assert(BUILD_KEY@[4] == 'b');
    assert(SHELL_KEY@[4] == 's');
}

/// The calls to cmux: the verb comes first, then what it is about; a pill's style follows
/// as a flag for each thing that the style sets, in the order icon, color, priority.
pub proof fn calls_are_spelled_out(key: Seq<char>, value: Seq<char>, style: StatusStyle)
    ensures
        clear_call(key) == seq!["clear-status"@, key],
        notify_call(key, value) == seq!["notify"@, "--title"@, key, "--body"@, value],
        status_call(key, value, style).take(3) == seq!["set-status"@, key, value],
        style.icon is None && style.color is None && style.priority is None ==> status_call(key, value, style).len()
            == 3,
        style.icon matches Some(icon) ==> status_call(key, value, style)[3] == "--icon"@ && status_call(
            key,
            value,
            style,
        )[4] == icon@,
        style.color matches Some(color) ==> {
            let at = if style.icon is Some {
                5int
            } else {
                3int
            };
            status_call(key, value, style)[at] == "--color"@ && status_call(key, value, style)[at + 1] == color@
        },
        style.priority matches Some(n) ==> {
            let call = status_call(key, value, style);
            call[call.len() - 2] == "--priority"@ && call.last() == crate::number::decimal_of(n as nat)
        },
        status_call(key, value, style).len() == 3 + (if style.icon is Some {
            2nat
        } else {
            0nat
        }) + (if style.color is Some {
            2nat
        } else {
            0nat
        }) + (if style.priority is Some {
            2nat
        } else {
            0nat
        }),
{
    assert(status_call(key, value, style).take(3) =~= seq!["set-status"@, key, value]);
}

/// A guard that reaches cmux ends with its pill taken down, where that is owed, and then
/// with a notification, where one is wanted and the guard lasted long enough for it: it
/// tells what was recorded, or that it failed where nothing was.
pub proof fn how_a_guard_ends(
    armed: bool,
    key: Seq<char>,
    outcome: Option<Seq<char>>,
    notice: Option<(Seq<char>, u128)>,
    elapsed: u128,
)
    ensures
        ({
            let calls = closing(true, armed, key, outcome, notice, elapsed);
            let told = notice is Some && notice->Some_0.1 <= elapsed;
            let at = if armed {
                1int
            } else {
                0int
            };
            &&& armed ==> calls[0] == seq!["clear-status"@, key]
            &&& told ==> calls.len() == at + 1 && calls[at] == seq![
                "notify"@,
                "--title"@,
                notice->Some_0.0,
                "--body"@,
                if outcome is Some {
                    outcome->Some_0
                } else {
                    "failed"@
                },
            ]
            &&& !told ==> calls.len() == at
        }),
{
}

/// The bundled program is used where it can be run, and the one on the search path where
/// it cannot.
pub proof fn the_bundled_program_comes_first(bundled: String, on_path: Option<String>)
    ensures
        binary_of(Some(bundled), true, on_path) == Some(bundled),
        binary_of(Some(bundled), false, on_path) == on_path,
        binary_of(None, true, on_path) == on_path,
        binary_of(None, false, on_path) == on_path,
{
}

/// The keys of the two pills.
pub proof fn the_keys_of_the_pills()
    ensures
        BUILD_KEY@ == "dev_build"@,
        SHELL_KEY@ == "dev_shell"@,
{
}

/// A call that can be made is made once, behind those that were made before; where cmux
/// cannot be reached, none is made.
pub proof fn calls_are_made_in_order(cmux: Cmux, guard: StatusGuard, args: Seq<Seq<char>>)
    ensures
        !cmux.reachable() ==> cmux.after_call(args) == cmux.made(),
        cmux.reachable() ==> cmux.after_call(args).len() == cmux.made().len() + 1 && cmux.after_call(args).last() == args
            && cmux.after_call(args).drop_last() == cmux.made(),
        !guard.live() ==> guard.with_call(args) == guard.made(),
        guard.live() ==> guard.with_call(args).len() == guard.made().len() + 1 && guard.with_call(args).last() == args
            && guard.with_call(args).drop_last() == guard.made(),
{
}

} // verus!
