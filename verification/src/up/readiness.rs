//! The checks a container passes before it is called ready: it can be found, it
//! is running, and a command can be run in it.
use vstd::prelude::*;

use crate::model::{ContainerInfo, ContainerState, ExecResult};
use crate::number::show_signed;
use crate::text::{cat2, cat3, cat4, cat5, join, owned, same, starts_with, texts, trim};

verus! {

// Times and durations are in nanoseconds.

/// How long the runtime is given to settle.
pub const READINESS_BUDGET: u64 = 15_000_000_000;

/// The pause after the first attempt.
pub const READINESS_FIRST_POLL: u64 = 100_000_000;

/// The longest pause between two attempts.
pub const READINESS_MAX_POLL: u64 = 1_000_000_000;

/// The least time that an attempt is worth starting with.
pub const READINESS_MIN_ATTEMPT: u64 = 250_000_000;

/// The smaller of two numbers.
pub open spec fn least(a: int, b: int) -> int {
    if a <= b {
        a
    } else {
        b
    }
}

/// What is left until a deadline.
pub open spec fn left_at(deadline: u64, now: u64) -> int {
    if now < deadline {
        deadline - now
    } else {
        0
    }
}

/// How long an attempt started at a time may take: what is left until the
/// deadline, and never less than an attempt is worth.
pub open spec fn window_at(deadline: u64, now: u64) -> int {
    if left_at(deadline, now) <= READINESS_MIN_ATTEMPT {
        READINESS_MIN_ATTEMPT as int
    } else {
        left_at(deadline, now)
    }
}

/// The retry schedule that every readiness check follows.
pub struct ReadinessPolls {
    deadline: u64,
    next: u64,
}

impl ReadinessPolls {
    /// When the budget is spent.
    pub closed spec fn deadline(&self) -> u64 {
        self.deadline
    }

    /// The pause that the schedule calls for next.
    pub closed spec fn next(&self) -> u64 {
        self.next
    }

    /// The pause lies between the first and the longest.
    pub open spec fn wf(&self) -> bool {
        READINESS_FIRST_POLL <= self.next() <= READINESS_MAX_POLL
    }

    /// The pause that is granted before another attempt, if one is: never so
    /// long that the attempt would be left with less than it is worth.
    pub open spec fn granted(&self, now: u64) -> Option<u64> {
        let left = left_at(self.deadline(), now);
        if left <= READINESS_MIN_ATTEMPT {
            None
        } else {
            Some(least(self.next() as int, left - READINESS_MIN_ATTEMPT) as u64)
        }
    }

    /// The schedule of a fresh series of attempts up to `deadline`.
    pub fn until(deadline: u64) -> (r: Self)
        ensures
            r.wf(),
            r.deadline() == deadline,
            r.next() == READINESS_FIRST_POLL,
    {
        ReadinessPolls { deadline, next: READINESS_FIRST_POLL }
    }

    /// When the budget is spent.
    pub fn deadline_value(&self) -> (r: u64)
        ensures
            r == self.deadline(),
    {
        self.deadline
    }

    /// The pause before another attempt, or none if the budget is spent. Each
    /// pause granted doubles the next, up to the longest.
    pub fn wait(&mut self, now: u64) -> (r: Option<u64>)
        requires
            old(self).wf(),
        ensures
            final(self).wf(),
            final(self).deadline() == old(self).deadline(),
            r == old(self).granted(now),
            r is Some ==> final(self).next() == least(2 * old(self).next(), READINESS_MAX_POLL as int),
            r is None ==> final(self).next() == old(self).next(),
    {
        let left: u64 = if now < self.deadline {
            self.deadline - now
        } else {
            0
        };
        if left <= READINESS_MIN_ATTEMPT {
            return None;
        }
        let room: u64 = left - READINESS_MIN_ATTEMPT;
        let pause: u64 = if self.next <= room {
            self.next
        } else {
            room
        };
        let doubled: u64 = self.next * 2;
        self.next = if doubled <= READINESS_MAX_POLL {
            doubled
        } else {
            READINESS_MAX_POLL
        };
        Some(pause)
    }

    /// How long an attempt started now may take: what is left of the budget,
    /// but never less than an attempt is worth.
    pub fn remaining(&self, now: u64) -> (r: u64)
        ensures
            r == window_at(self.deadline(), now),
    {
        let left: u64 = if now < self.deadline {
            self.deadline - now
        } else {
            0
        };
        if left <= READINESS_MIN_ATTEMPT {
            READINESS_MIN_ATTEMPT
        } else {
            left
        }
    }
}

/// After a granted pause there is still time for a whole attempt before the
/// deadline.
pub proof fn granted_pause_leaves_an_attempt(polls: ReadinessPolls, now: u64)
    requires
        polls.granted(now) is Some,
    ensures
        now + polls.granted(now)->Some_0 + READINESS_MIN_ATTEMPT <= polls.deadline(),
{
}

/// An attempt that follows a granted pause ends by the deadline.
pub proof fn repeated_attempts_end_by_the_deadline(polls: ReadinessPolls, now: u64)
    requires
        polls.granted(now) is Some,
    ensures
        ({
            let start = (now + polls.granted(now)->Some_0) as u64;
            start + window_at(polls.deadline(), start) <= polls.deadline()
        }),
{
}

/// A pause is granted exactly while more time is left than an attempt is worth.
pub proof fn no_pause_without_time_for_an_attempt(polls: ReadinessPolls, now: u64)
    ensures
        polls.granted(now) is None <==> now + READINESS_MIN_ATTEMPT >= polls.deadline(),
{
}

// ---------------------------------------------------------------------------
// Finding the container
// ---------------------------------------------------------------------------

/// Two ids name one container: neither is empty, and one begins with the other.
pub open spec fn same_id(listed: Seq<char>, created: Seq<char>) -> bool {
    &&& listed.len() > 0
    &&& created.len() > 0
    &&& crate::text::begins_with(listed, created) || crate::text::begins_with(created, listed)
}

/// Whether a listed id and the one creation returned name one container. Either
/// may be shortened.
pub fn same_container(listed: &str, created: &str) -> (r: bool)
    ensures
        r == same_id(listed@, created@),
{
    !listed.is_empty() && !created.is_empty() && (starts_with(listed, created) || starts_with(
        created,
        listed,
    ))
}

/// Which of the two ids is the listed one makes no difference.
pub proof fn same_id_symmetric(a: Seq<char>, b: Seq<char>)
    ensures
        same_id(a, b) == same_id(b, a),
{
}

/// A shortened id names the container that the whole id names.
pub proof fn same_id_shortened(id: Seq<char>, n: int)
    requires
        0 < n <= id.len(),
    ensures
        same_id(id, id.take(n)),
        same_id(id.take(n), id),
{
    assert(id.take(n).take(n) == id.take(n));
}

/// Where the container first stands in a listing, or the listing's length.
pub open spec fn position_of(found: Seq<ContainerInfo>, id: Seq<char>) -> int
    decreases found.len(),
{
    if found.len() == 0 || same_id(found[0].id@, id) {
        0
    } else {
        1 + position_of(found.drop_first(), id)
    }
}

/// The state of the first container in a listing that has this id.
pub open spec fn listed_state(found: Seq<ContainerInfo>, id: Seq<char>) -> Option<ContainerState> {
    let i = position_of(found, id);
    if i < found.len() {
        Some(found[i].state)
    } else {
        None
    }
}

proof fn position_is(found: Seq<ContainerInfo>, id: Seq<char>, i: int)
    requires
        0 <= i <= found.len(),
        forall|j: int| 0 <= j < i ==> !same_id((#[trigger] found[j]).id@, id),
        i < found.len() ==> same_id(found[i].id@, id),
    ensures
        position_of(found, id) == i,
    decreases i,
{
    if i > 0 {
        let t = found.drop_first();
        assert forall|j: int| 0 <= j < i - 1 implies !same_id((#[trigger] t[j]).id@, id) by {
            assert(t[j] == found[j + 1]);
        }
        assert(!same_id(found[0].id@, id));
        if i < found.len() {
            assert(t[i - 1] == found[i]);
        }
        position_is(t, id, i - 1);
    }
}

/// Where the container stands in a listing, if it does.
fn find_container(found: &Vec<ContainerInfo>, id: &str) -> (r: Option<usize>)
    ensures
        match r {
            Some(i) => i < found@.len() && position_of(found@, id@) == i,
            None => position_of(found@, id@) == found@.len(),
        },
{
    let mut i: usize = 0;
    while i < found.len()
        invariant
            i <= found@.len(),
            forall|j: int| 0 <= j < i ==> !same_id((#[trigger] found@[j]).id@, id@),
        decreases found@.len() - i,
    {
        if same_container(found[i].id.as_str(), id) {
            proof {
                position_is(found@, id@, i as int);
            }
            return Some(i);
        }
        i = i + 1;
    }
    proof {
        position_is(found@, id@, i as int);
    }
    None
}

/// What an attempt to list the workspace's containers came to.
#[derive(Debug, PartialEq, Eq)]
pub enum ListReply {
    Listed(Vec<ContainerInfo>),
    Failed(String),
    /// No answer within this many seconds, as they are written.
    TimedOut(String),
}

/// What a readiness check calls for.
#[derive(Debug, PartialEq, Eq)]
pub enum GateStep {
    /// This readiness check is passed, with something to say about it.
    Passed(Option<String>),
    /// Pause for this long, then try again.
    Again(u64),
    /// The readiness checks are not passed, for this reason.
    Refused(String),
}

/// The listing shows the container running.
pub open spec fn shows_running(reply: ListReply, id: Seq<char>) -> bool {
    reply matches ListReply::Listed(found) && listed_state(found@, id) == Some(ContainerState::Running)
}

/// What is said of a container that was not shown running before the budget was
/// spent. The last attempt decides.
pub open spec fn discovery_failure(id: Seq<char>, filters: Seq<Seq<char>>, reply: ListReply) -> Seq<char> {
    let started = "Container '"@ + id + "' was started but "@;
    match reply {
        ListReply::Listed(found) => match listed_state(found@, id) {
            Some(state) => started + "is "@ + state.name_text()
                + ", not running. Check the runtime's logs for why its init process exited."@,
            None => started
                + "is not discoverable by the workspace labels `dev status` and `dev exec` search for ("@
                + crate::text::joined(filters, ", "@)
                + "). The container exists but no command can reach it."@,
        },
        ListReply::Failed(e) => started + "the runtime could not be asked whether it is running: "@ + e@,
        ListReply::TimedOut(seconds) => started
            + "the runtime could not be asked whether it is running: "@ + ("it did not answer within "@
            + seconds@ + "s"@),
    }
}

/// The step that a schedule calls for after an attempt that did not decide.
pub open spec fn retried(polls: ReadinessPolls, now: u64, step: GateStep, failure: Seq<char>) -> bool {
    match polls.granted(now) {
        Some(pause) => step == GateStep::Again(pause),
        None => step matches GateStep::Refused(e) && e@ == failure,
    }
}

/// The schedule after an attempt that did not decide.
pub open spec fn advanced(before: ReadinessPolls, now: u64, after: ReadinessPolls) -> bool {
    &&& after.wf()
    &&& after.deadline() == before.deadline()
    &&& after.next() == if before.granted(now) is Some {
        least(2 * before.next(), READINESS_MAX_POLL as int)
    } else {
        before.next() as int
    }
}

/// Judge one attempt to find the container by the workspace's labels: passed
/// when it is listed as running, else tried again while there is time.
pub fn judge_listing(
    polls: &mut ReadinessPolls,
    container_id: &str,
    filters: &Vec<String>,
    reply: &ListReply,
    now: u64,
) -> (r: GateStep)
    requires
        old(polls).wf(),
    ensures
        final(polls).wf(),
        final(polls).deadline() == old(polls).deadline(),
        shows_running(*reply, container_id@) ==> r == GateStep::Passed(None),
        !shows_running(*reply, container_id@) ==> advanced(*old(polls), now, *final(polls)) && retried(
            *old(polls),
            now,
            r,
            discovery_failure(container_id@, texts(filters@), *reply),
        ),
{
    match reply {
        ListReply::Listed(found) => match find_container(found, container_id) {
            Some(i) => {
                if found[i].state.is_running() {
                    return GateStep::Passed(None);
                }
            },
            None => {},
        },
        _ => {},
    }
    match polls.wait(now) {
        Some(pause) => GateStep::Again(pause),
        None => {
            let started = cat3("Container '", container_id, "' was started but ");
            let failure = match reply {
                ListReply::Listed(found) => match find_container(found, container_id) {
                    Some(i) => {
                        let state = found[i].state.name();
                        cat4(
                            started.as_str(),
                            "is ",
                            state.as_str(),
                            ", not running. Check the runtime's logs for why its init process exited.",
                        )
                    },
                    None => {
                        let list = join(filters, ", ");
                        cat4(
                            started.as_str(),
                            "is not discoverable by the workspace labels `dev status` and `dev exec` search for (",
                            list.as_str(),
                            "). The container exists but no command can reach it.",
                        )
                    },
                },
                ListReply::Failed(e) => cat3(
                    started.as_str(),
                    "the runtime could not be asked whether it is running: ",
                    e.as_str(),
                ),
                ListReply::TimedOut(seconds) => {
                    let said = no_answer(seconds.as_str());
                    cat3(
                        started.as_str(),
                        "the runtime could not be asked whether it is running: ",
                        said.as_str(),
                    )
                },
            };
            GateStep::Refused(failure)
        },
    }
}

/// What is said of a runtime that did not answer in time.
fn no_answer(seconds: &str) -> (r: String)
    ensures
        r@ == "it did not answer within "@ + seconds@ + "s"@,
{
    cat3("it did not answer within ", seconds, "s")
}

// ---------------------------------------------------------------------------
// Running a command
// ---------------------------------------------------------------------------

/// The command that proves commands can be run.
pub fn probe_command() -> (r: Vec<String>)
    ensures
        texts(r@) == seq!["sh"@, "-c"@, "exit 0"@],
{
    let v: Vec<String> = vec![owned("sh"), owned("-c"), owned("exit 0")];
    assert(texts(v@) =~= seq!["sh"@, "-c"@, "exit 0"@]);
    v
}

/// What an attempt to run the probe came to.
#[derive(Debug, PartialEq, Eq)]
pub enum ProbeReply {
    /// It ran and reported its exit.
    Ran(ExecResult),
    /// The runtime says that the image has no such command.
    MissingCommand(String),
    /// The runtime refused to run it.
    Refused(String),
    /// No exit within this many seconds, as they are written.
    TimedOut(String),
}

/// What the probe found, newest first: the last attempt, and the last refusal
/// where that is something else.
pub open spec fn diagnosis(latest: Seq<char>, refusal: Option<Seq<char>>) -> Seq<char> {
    match refusal {
        Some(said) if said != latest => latest + " (an earlier attempt was refused: "@ + said + ")"@,
        _ => latest,
    }
}

/// What the probe found, newest first.
pub fn probe_diagnosis(latest: &str, refusal: &Option<String>) -> (r: String)
    ensures
        r@ == diagnosis(latest@, crate::text::text_opt(*refusal)),
{
    match refusal {
        Some(said) => {
            if same(said.as_str(), latest) {
                owned(latest)
            } else {
                cat4(latest, " (an earlier attempt was refused: ", said.as_str(), ")")
            }
        },
        None => owned(latest),
    }
}

/// Who the probe was run as, as it is said in a warning.
pub open spec fn as_user_text(remote_user: Option<Seq<char>>) -> Seq<char> {
    match remote_user {
        Some(user) => " as user '"@ + user + "'"@,
        None => Seq::empty(),
    }
}

/// What an exit status of the probe means.
pub open spec fn status_meaning(exit_code: i32) -> Seq<char> {
    if exit_code == 127 {
        "no `sh` was found in it"@
    } else if exit_code == 126 {
        "`sh` is present but could not be executed — check its mode and whether this user may run it"@
    } else {
        "`sh -c 'exit 0'` exited "@ + crate::number::decimal_int(exit_code as int)
    }
}

/// What the runtime printed beside the exit status, as it is said in a warning.
pub open spec fn reported_text(stderr: Seq<char>) -> Seq<char> {
    let said = crate::text::trimmed(stderr);
    if said.len() == 0 {
        Seq::empty()
    } else {
        " The runtime reported: "@ + said
    }
}

/// The warning about a probe that ran and exited with a status other than zero.
pub open spec fn non_zero_warning(id: Seq<char>, remote_user: Option<Seq<char>>, result: ExecResult) -> Seq<char> {
    "Warning: container '"@ + id + "' runs commands"@ + as_user_text(remote_user) + ", but "@
        + status_meaning(result.exit_code)
        + ". Lifecycle hooks, `dev exec` and `dev shell` will fail the same way."@ + reported_text(
        result.stderr@,
    )
}

/// The warning about a probe that ran and exited with a status other than zero,
/// saying what the status means.
pub fn warn_probe_exited_non_zero(container_id: &str, remote_user: &Option<String>, result: &ExecResult) -> (r: String)
    ensures
        r@ == non_zero_warning(container_id@, crate::text::text_opt(*remote_user), *result),
{
    let as_user = match remote_user {
        Some(user) => cat3(" as user '", user.as_str(), "'"),
        None => String::new(),
    };
    let meaning = if result.exit_code == 127 {
        owned("no `sh` was found in it")
    } else if result.exit_code == 126 {
        owned(
            "`sh` is present but could not be executed — check its mode and whether this user may run it",
        )
    } else {
        let code = show_signed(result.exit_code);
        cat2("`sh -c 'exit 0'` exited ", code.as_str())
    };
    let said = trim(result.stderr.as_str());
    let reported = if said.as_str().is_empty() {
        String::new()
    } else {
        cat2(" The runtime reported: ", said.as_str())
    };
    let mut out = cat4("Warning: container '", container_id, "' runs commands", as_user.as_str());
    out.append(", but ");
    out.append(meaning.as_str());
    out.append(". Lifecycle hooks, `dev exec` and `dev shell` will fail the same way.");
    out.append(reported.as_str());
    out
}

/// The warning about an image that has no shell.
pub open spec fn no_shell_warning(id: Seq<char>, reason: Seq<char>) -> Seq<char> {
    "Warning: container '"@ + id + "' accepts commands but has no usable shell ("@ + reason
        + "). Lifecycle hooks, `dev exec` and `dev shell` need one."@
}

/// The warning about an image that has no shell.
pub fn warn_probe_command_missing(container_id: &str, reason: &str) -> (r: String)
    ensures
        r@ == no_shell_warning(container_id@, reason@),
{
    cat5(
        "Warning: container '",
        container_id,
        "' accepts commands but has no usable shell (",
        reason,
        "). Lifecycle hooks, `dev exec` and `dev shell` need one.",
    )
}

/// The attempt proves that a command can be run: the probe ran, whatever its
/// status, or the image merely lacks it.
pub open spec fn proves_exec(reply: ProbeReply) -> bool {
    reply is Ran || reply is MissingCommand
}

/// What is said about an attempt that proves it.
pub open spec fn proof_warning(id: Seq<char>, remote_user: Option<Seq<char>>, reply: ProbeReply) -> Option<Seq<char>> {
    match reply {
        ProbeReply::Ran(result) => if result.exit_code != 0 {
            Some(non_zero_warning(id, remote_user, result))
        } else {
            None
        },
        ProbeReply::MissingCommand(reason) => Some(no_shell_warning(id, reason@)),
        _ => None,
    }
}

/// What an attempt that proves nothing came to.
pub open spec fn attempt_text(reply: ProbeReply) -> Seq<char> {
    match reply {
        ProbeReply::Refused(e) => e@,
        ProbeReply::TimedOut(seconds) => "it did not report an exit within "@ + seconds@ + "s"@,
        _ => Seq::empty(),
    }
}

/// The last refusal, after this attempt.
pub open spec fn refusal_after(refusal: Option<Seq<char>>, reply: ProbeReply) -> Option<Seq<char>> {
    match reply {
        ProbeReply::Refused(e) => Some(e@),
        _ => refusal,
    }
}

/// What is said of a container in which no command could be run before the
/// budget was spent.
pub open spec fn exec_failure(id: Seq<char>, refusal: Option<Seq<char>>, reply: ProbeReply) -> Seq<char> {
    "Container '"@ + id + "' was started and is running, but no command can be run in it: "@ + diagnosis(
        attempt_text(reply),
        refusal_after(refusal, reply),
    ) + ". `dev exec`, `dev shell` and lifecycle hooks would all fail the same way."@
}

/// Judge one attempt to run the probe: passed when it ran, whatever its status,
/// or when the image merely lacks it; else tried again while there is time. The
/// last refusal is kept for the diagnosis.
pub fn judge_probe(
    polls: &mut ReadinessPolls,
    refusal: &mut Option<String>,
    container_id: &str,
    remote_user: &Option<String>,
    reply: &ProbeReply,
    now: u64,
) -> (r: GateStep)
    requires
        old(polls).wf(),
    ensures
        final(polls).wf(),
        final(polls).deadline() == old(polls).deadline(),
        crate::text::text_opt(*final(refusal)) == refusal_after(
            crate::text::text_opt(*old(refusal)),
            *reply,
        ),
        proves_exec(*reply) ==> (r matches GateStep::Passed(warning) && crate::text::text_opt(warning)
            == proof_warning(container_id@, crate::text::text_opt(*remote_user), *reply)),
        !proves_exec(*reply) ==> advanced(*old(polls), now, *final(polls)) && retried(
            *old(polls),
            now,
            r,
            exec_failure(container_id@, crate::text::text_opt(*old(refusal)), *reply),
        ),
{
    let latest = match reply {
        ProbeReply::Ran(result) => {
            if result.exit_code != 0 {
                return GateStep::Passed(
                    Some(warn_probe_exited_non_zero(container_id, remote_user, result)),
                );
            }
            return GateStep::Passed(None);
        },
        ProbeReply::MissingCommand(reason) => {
            return GateStep::Passed(Some(warn_probe_command_missing(container_id, reason.as_str())));
        },
        ProbeReply::Refused(e) => {
            *refusal = Some(e.clone());
            e.clone()
        },
        ProbeReply::TimedOut(seconds) => cat3(
            "it did not report an exit within ",
            seconds.as_str(),
            "s",
        ),
    };
    match polls.wait(now) {
        Some(pause) => GateStep::Again(pause),
        None => {
            let found = probe_diagnosis(latest.as_str(), refusal);
            GateStep::Refused(
                cat5(
                    "Container '",
                    container_id,
                    "' was started and is running, but no command can be run in it: ",
                    found.as_str(),
                    ". `dev exec`, `dev shell` and lifecycle hooks would all fail the same way.",
                ),
            )
        },
    }
}

// ---------------------------------------------------------------------------
// A Compose service's container
// ---------------------------------------------------------------------------

/// What an attempt to inspect the service's container came to.
#[derive(Debug, PartialEq, Eq)]
pub enum InspectReply {
    Inspected(ContainerState),
    Failed(String),
    /// No answer within this many seconds, as they are written.
    TimedOut(String),
}

/// What is said of a service whose container is not running.
pub open spec fn exited_service(service: Seq<char>, id: Seq<char>, state: ContainerState) -> Seq<char> {
    "Compose service '"@ + service + "' container '"@ + id + "' is "@ + state.name_text()
        + ", not running. Check `compose logs "@ + service
        + "` for why the service exited before Dev could run workspace commands or lifecycle hooks."@
}

/// What is said of a service whose container could not be inspected before the
/// budget was spent.
pub open spec fn uninspected_service(service: Seq<char>, id: Seq<char>, reply: InspectReply) -> Seq<char> {
    "Compose service '"@ + service + "' container '"@ + id
        + "' could not be inspected after compose up: "@ + (match reply {
        InspectReply::Failed(e) => e@,
        InspectReply::TimedOut(seconds) => "it did not answer within "@ + seconds@ + "s"@,
        InspectReply::Inspected(_) => Seq::empty(),
    }) + "."@
}

/// Judge one attempt to inspect a service's container. A state that the runtime
/// answered with decides at once; an inspection that failed or did not answer
/// is tried again while there is time.
pub fn judge_inspection(
    polls: &mut ReadinessPolls,
    service: &str,
    container_id: &str,
    reply: &InspectReply,
    now: u64,
) -> (r: GateStep)
    requires
        old(polls).wf(),
    ensures
        final(polls).wf(),
        final(polls).deadline() == old(polls).deadline(),
        match *reply {
            InspectReply::Inspected(state) => if state is Running {
                r == GateStep::Passed(None)
            } else {
                r matches GateStep::Refused(e) && e@ == exited_service(service@, container_id@, state)
            },
            _ => advanced(*old(polls), now, *final(polls)) && retried(
                *old(polls),
                now,
                r,
                uninspected_service(service@, container_id@, *reply),
            ),
        },
{
    let last_error = match reply {
        InspectReply::Inspected(state) => {
            if state.is_running() {
                return GateStep::Passed(None);
            }
            let name = state.name();
            let mut out = cat4("Compose service '", service, "' container '", container_id);
            out.append("' is ");
            out.append(name.as_str());
            out.append(", not running. Check `compose logs ");
            out.append(service);
            out.append(
                "` for why the service exited before Dev could run workspace commands or lifecycle hooks.",
            );
            return GateStep::Refused(out);
        },
        InspectReply::Failed(e) => e.clone(),
        InspectReply::TimedOut(seconds) => no_answer(seconds.as_str()),
    };
    match polls.wait(now) {
        Some(pause) => GateStep::Again(pause),
        None => {
            let mut out = cat4("Compose service '", service, "' container '", container_id);
            out.append("' could not be inspected after compose up: ");
            out.append(last_error.as_str());
            out.append(".");
            GateStep::Refused(out)
        },
    }
}

/// What a service's failure to become usable is reported as.
pub fn compose_unusable(service: &str, cause: &str) -> (r: String)
    ensures
        r@ == "Compose service '"@ + service@
            + "' did not become usable for workspace commands after compose up: "@ + cause@,
{
    cat4(
        "Compose service '",
        service,
        "' did not become usable for workspace commands after compose up: ",
        cause,
    )
}

/// The times of the readiness checks: fifteen seconds in all, pauses from a tenth of a
/// second to a second, and a quarter of a second for an attempt at least.
pub proof fn the_times_in_nanoseconds()
    ensures
        READINESS_BUDGET == 15_000_000_000,
        READINESS_FIRST_POLL == 100_000_000,
        READINESS_MAX_POLL == 1_000_000_000,
        READINESS_MIN_ATTEMPT == 250_000_000,
{
}

/// The pause that is granted is the scheduled one, or as much of it as leaves a quarter of
/// a second until the deadline; after it the next is twice as long, up to a second.
pub proof fn pauses_double_up_to_a_second(before: ReadinessPolls, now: u64, after: ReadinessPolls)
    requires
        before.wf(),
        advanced(before, now, after),
    ensures
        before.granted(now) matches Some(pause) ==> {
            &&& pause <= before.next()
            &&& now + pause + 250_000_000 <= before.deadline()
            &&& pause < before.next() ==> now + pause + 250_000_000 == before.deadline()
            &&& before.next() <= 500_000_000 ==> after.next() == 2 * before.next()
            &&& before.next() > 500_000_000 ==> after.next() == 1_000_000_000
        },
        before.granted(now) is None ==> after.next() == before.next(),
        after.deadline() == before.deadline(),
{
}

/// An attempt may take what is left until the deadline, or a quarter of a second where
/// less is left.
pub proof fn attempts_may_take_what_is_left(deadline: u64, now: u64)
    ensures
        now + 250_000_000 < deadline ==> window_at(deadline, now) == deadline - now,
        now + 250_000_000 >= deadline ==> window_at(deadline, now) == 250_000_000,
{
}

/// Two ids name one container exactly where neither is empty and the one is the other with
/// something behind it, if only nothing.
pub proof fn ids_name_one_container(a: Seq<char>, b: Seq<char>)
    ensures
        same_id(a, b) <==> a.len() > 0 && b.len() > 0 && ((exists|rest: Seq<char>| a == #[trigger] (b + rest)) || (
        exists|rest: Seq<char>| b == #[trigger] (a + rest))),
{
    crate::text::laws::parts_of_a_text(a, b);
    crate::text::laws::parts_of_a_text(b, a);
}

/// A listing shows a container running exactly where the first that the id names runs.
pub proof fn the_first_that_the_id_names_decides(found: Vec<ContainerInfo>, id: Seq<char>, k: int)
    ensures
        0 <= k < found@.len() && same_id(found@[k].id@, id) && (forall|j: int|
            0 <= j < k ==> !same_id((#[trigger] found@[j]).id@, id)) ==> listed_state(found@, id) == Some(
            found@[k].state,
        ) && (shows_running(ListReply::Listed(found), id) <==> found@[k].state is Running),
        (forall|j: int| 0 <= j < found@.len() ==> !same_id((#[trigger] found@[j]).id@, id)) ==> listed_state(
            found@,
            id,
        ) is None && !shows_running(ListReply::Listed(found), id),
{
    if 0 <= k < found@.len() && same_id(found@[k].id@, id) && (forall|j: int|
        0 <= j < k ==> !same_id((#[trigger] found@[j]).id@, id)) {
        position_is(found@, id, k);
    }
    if forall|j: int| 0 <= j < found@.len() ==> !same_id((#[trigger] found@[j]).id@, id) {
        position_is(found@, id, found@.len() as int);
    }
}

/// A listing that failed or did not answer shows nothing.
pub proof fn no_answer_shows_nothing(e: String, id: Seq<char>)
    ensures
        !shows_running(ListReply::Failed(e), id),
        !shows_running(ListReply::TimedOut(e), id),
{
}

/// A command can be run where the probe ran, whatever its status, and where the image only
/// lacks the command; a refusal and no exit in time prove nothing. It is warned about
/// unless the probe ran and succeeded.
pub proof fn what_proves_that_commands_can_be_run(reply: ProbeReply, id: Seq<char>, user: Option<Seq<char>>)
    ensures
        reply is Refused || reply is TimedOut ==> !proves_exec(reply),
        reply is Ran || reply is MissingCommand ==> proves_exec(reply),
        proves_exec(reply) ==> (proof_warning(id, user, reply) is None <==> reply is Ran && reply->Ran_0.exit_code
            == 0),
{
}

/// What the warning says of a status: that there is no shell, that it cannot be executed,
/// or the status itself.
pub proof fn what_a_status_means(code: i32)
    ensures
        status_meaning(127) == "no `sh` was found in it"@,
        status_meaning(126)
            == "`sh` is present but could not be executed — check its mode and whether this user may run it"@,
        code != 126 && code != 127 ==> status_meaning(code) == "`sh -c 'exit 0'` exited "@ + crate::number::decimal_int(
            code as int,
        ),
{
}

/// The last refusal is what is kept, and it is told beside the last attempt only where it
/// says something else.
pub proof fn the_last_refusal_is_told(refusal: Option<Seq<char>>, said: String, seconds: String, latest: Seq<char>)
    ensures
        refusal_after(refusal, ProbeReply::Refused(said)) == Some(said@),
        refusal_after(refusal, ProbeReply::TimedOut(seconds)) == refusal,
        attempt_text(ProbeReply::Refused(said)) == said@,
        attempt_text(ProbeReply::TimedOut(seconds)) == "it did not report an exit within "@ + seconds@ + "s"@,
        diagnosis(latest, None) == latest,
        diagnosis(latest, Some(latest)) == latest,
        said@ != latest ==> diagnosis(latest, Some(said@)) == latest + " (an earlier attempt was refused: "@ + said@
            + ")"@,
{
}

/// What is said of a container that was not found running tells which: in another state,
/// not there at all, or not to be asked about.
pub proof fn why_a_container_was_not_found(
    id: Seq<char>,
    filters: Seq<Seq<char>>,
    found: Vec<ContainerInfo>,
    e: String,
)
    ensures
        ({
            let started = "Container '"@ + id + "' was started but "@;
            &&& listed_state(found@, id) matches Some(state) ==> discovery_failure(
                id,
                filters,
                ListReply::Listed(found),
            ) == started + "is "@ + state.name_text()
                + ", not running. Check the runtime's logs for why its init process exited."@
            &&& listed_state(found@, id) is None ==> discovery_failure(id, filters, ListReply::Listed(found)) == started
                + "is not discoverable by the workspace labels `dev status` and `dev exec` search for ("@
                + crate::text::joined(filters, ", "@) + "). The container exists but no command can reach it."@
            &&& discovery_failure(id, filters, ListReply::Failed(e)) == started
                + "the runtime could not be asked whether it is running: "@ + e@
            &&& discovery_failure(id, filters, ListReply::TimedOut(e)) == started
                + "the runtime could not be asked whether it is running: "@ + ("it did not answer within "@ + e@
                + "s"@)
        }),
{
}

/// What is said of a container in which nothing can be run tells what the last attempt came
/// to.
pub proof fn why_nothing_can_be_run(id: Seq<char>, refusal: Option<Seq<char>>, reply: ProbeReply)
    ensures
        exec_failure(id, refusal, reply) == "Container '"@ + id
            + "' was started and is running, but no command can be run in it: "@ + diagnosis(
            attempt_text(reply),
            refusal_after(refusal, reply),
        ) + ". `dev exec`, `dev shell` and lifecycle hooks would all fail the same way."@,
{
}

/// An attempt that showed nothing is made again after the pause that is granted; where
/// none is, the failure is the end.
pub proof fn attempts_are_made_again_while_there_is_time(
    polls: ReadinessPolls,
    now: u64,
    step: GateStep,
    failure: Seq<char>,
)
    requires
        polls.wf(),
        retried(polls, now, step, failure),
    ensures
        step is Again <==> now + 250_000_000 < polls.deadline(),
        step is Refused <==> now + 250_000_000 >= polls.deadline(),
        step matches GateStep::Again(pause) ==> pause <= polls.next() && now + pause + 250_000_000 <= polls.deadline(),
        step matches GateStep::Refused(e) ==> e@ == failure,
{
}

/// What is said of a container that runs commands and of one without a usable shell, and
/// of a service that could not be looked at or is not running.
pub proof fn what_is_said_of_what_was_tried(
    id: Seq<char>,
    user: Option<Seq<char>>,
    result: ExecResult,
    reason: String,
    service: Seq<char>,
    state: ContainerState,
)
    ensures
        ({
            let said = crate::text::trimmed(result.stderr@);
            let whom = match user {
                Some(name) => " as user '"@ + name + "'"@,
                None => ""@,
            };
            let reported = if said.len() == 0 {
                ""@
            } else {
                " The runtime reported: "@ + said
            };
            &&& result.exit_code == 0 ==> proof_warning(id, user, ProbeReply::Ran(result)) is None
            &&& result.exit_code != 0 ==> proof_warning(id, user, ProbeReply::Ran(result)) == Some(
                "Warning: container '"@ + id + "' runs commands"@ + whom + ", but "@ + status_meaning(result.exit_code)
                    + ". Lifecycle hooks, `dev exec` and `dev shell` will fail the same way."@ + reported,
            )
        }),
        proof_warning(id, user, ProbeReply::MissingCommand(reason)) == Some(
            "Warning: container '"@ + id + "' accepts commands but has no usable shell ("@ + reason@
                + "). Lifecycle hooks, `dev exec` and `dev shell` need one."@,
        ),
        uninspected_service(service, id, InspectReply::Failed(reason)) == "Compose service '"@ + service
            + "' container '"@ + id + "' could not be inspected after compose up: "@ + reason@ + "."@,
        uninspected_service(service, id, InspectReply::TimedOut(reason)) == "Compose service '"@ + service
            + "' container '"@ + id + "' could not be inspected after compose up: "@ + ("it did not answer within "@
            + reason@ + "s"@) + "."@,
        exited_service(service, id, state) == "Compose service '"@ + service + "' container '"@ + id + "' is "@
            + state.name_text() + ", not running. Check `compose logs "@ + service
            + "` for why the service exited before Dev could run workspace commands or lifecycle hooks."@,
{
    reveal_strlit("");
    assert(""@ =~= Seq::<char>::empty());
}

} // verus!
