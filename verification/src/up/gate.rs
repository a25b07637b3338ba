//! The readiness checks in order, under one deadline.
use vstd::prelude::*;

use crate::model::{copy_opt, copy_texts};
use crate::text::{text_opt, texts};
use crate::up::readiness::{
    compose_unusable, judge_inspection, judge_listing, judge_probe, probe_command, GateStep, InspectReply,
    ListReply, ProbeReply, ReadinessPolls, READINESS_BUDGET, READINESS_FIRST_POLL,
};
use crate::up::secrets::SecretValue;

verus! {

/// The readiness check that is being passed.
#[derive(Clone, Copy, Debug, PartialEq, Eq, Structural)]
pub enum Phase {
    /// A Compose service's container is inspected.
    Inspect,
    /// The container is looked for by the workspace's labels.
    List,
    /// A command is run in the container.
    Probe,
}

/// What the current part asks of the runtime.
pub enum GateAsk {
    /// Inspect this container.
    Inspect { id: String },
    /// List the containers with these labels.
    List { filters: Vec<String> },
    /// Run this command in this container, as this user, in this folder, and with
    /// this added to the environment.
    Exec {
        id: String,
        command: Vec<String>,
        user: Option<String>,
        workdir: Option<String>,
        env: Vec<(String, SecretValue)>,
    },
}

/// The answer to what the current part asks.
#[derive(Debug, PartialEq, Eq)]
pub enum GateReply {
    Inspect(InspectReply),
    List(ListReply),
    Probe(ProbeReply),
}

/// What is to be done next.
#[derive(Debug, PartialEq, Eq)]
pub enum Verdict {
    /// Ask what the current part asks.
    Ask,
    /// Pause for this long, then ask again.
    Pause(u64),
    /// The container is usable, with something to say about it.
    Ready(Option<String>),
    /// It is not, for this reason.
    Refused(String),
}

/// A container on its way through the readiness checks.
pub struct Gate {
    service: Option<String>,
    container_id: String,
    filters: Vec<String>,
    remote_user: Option<String>,
    workdir: Option<String>,
    phase: Phase,
    polls: ReadinessPolls,
    refusal: Option<String>,
}

impl Gate {
    /// The service the container belongs to, on the Compose path.
    pub closed spec fn service(&self) -> Option<Seq<char>> {
        text_opt(self.service)
    }

    /// The container.
    pub closed spec fn id(&self) -> Seq<char> {
        self.container_id@
    }

    /// The labels the container is looked for by.
    pub closed spec fn filters(&self) -> Seq<Seq<char>> {
        texts(self.filters@)
    }

    /// Who commands are run as.
    pub closed spec fn user(&self) -> Option<Seq<char>> {
        text_opt(self.remote_user)
    }

    /// Where commands are run.
    pub closed spec fn workdir(&self) -> Option<Seq<char>> {
        text_opt(self.workdir)
    }

    /// The readiness check that is being passed.
    pub closed spec fn at(&self) -> Phase {
        self.phase
    }

    /// The schedule of this part's attempts.
    pub closed spec fn polls(&self) -> ReadinessPolls {
        self.polls
    }

    /// The last refusal to run a command.
    pub closed spec fn refused(&self) -> Option<Seq<char>> {
        text_opt(self.refusal)
    }

    /// The schedule is one, only services are inspected, and nothing is refused
    /// before a command was asked for.
    pub open spec fn wf(&self) -> bool {
        &&& self.polls().wf()
        &&& self.at() is Inspect ==> self.service() is Some
        &&& !(self.at() is Probe) ==> self.refused() is None
    }

    /// Both speak of the same container, to the same deadline.
    pub open spec fn same_gate(&self, other: Gate) -> bool {
        &&& self.service() == other.service()
        &&& self.id() == other.id()
        &&& self.filters() == other.filters()
        &&& self.user() == other.user()
        &&& self.workdir() == other.workdir()
        &&& self.polls().deadline() == other.polls().deadline()
    }

    /// The readiness checks of a container that was just started.
    pub fn container(
        container_id: String,
        filters: Vec<String>,
        remote_user: Option<String>,
        workdir: Option<String>,
        now: u64,
    ) -> (r: Self)
        requires
            now + READINESS_BUDGET <= u64::MAX,
        ensures
            r.wf(),
            r.at() is List,
            r.service() is None,
            r.id() == container_id@,
            r.filters() == texts(filters@),
            r.user() == text_opt(remote_user),
            r.workdir() == text_opt(workdir),
            r.polls().deadline() == now + READINESS_BUDGET,
            r.polls().next() == READINESS_FIRST_POLL,
    {
        Gate {
            service: None,
            container_id,
            filters,
            remote_user,
            workdir,
            phase: Phase::List,
            polls: ReadinessPolls::until(now + READINESS_BUDGET),
            refusal: None,
        }
    }

    /// The readiness checks of a Compose service that was just brought up.
    pub fn compose(
        service: String,
        container_id: String,
        filters: Vec<String>,
        remote_user: Option<String>,
        workdir: Option<String>,
        now: u64,
    ) -> (r: Self)
        requires
            now + READINESS_BUDGET <= u64::MAX,
        ensures
            r.wf(),
            r.at() is Inspect,
            r.service() == Some(service@),
            r.id() == container_id@,
            r.filters() == texts(filters@),
            r.user() == text_opt(remote_user),
            r.workdir() == text_opt(workdir),
            r.polls().deadline() == now + READINESS_BUDGET,
            r.polls().next() == READINESS_FIRST_POLL,
    {
        Gate {
            service: Some(service),
            container_id,
            filters,
            remote_user,
            workdir,
            phase: Phase::Inspect,
            polls: ReadinessPolls::until(now + READINESS_BUDGET),
            refusal: None,
        }
    }

    /// The readiness check that is being passed.
    pub fn phase(&self) -> (r: Phase)
        ensures
            r == self.at(),
    {
        self.phase
    }

    /// What the current part asks. A command is run in the container, as the user
    /// and in the folder that were given, and with nothing added to the
    /// environment.
    pub fn ask(&self) -> (r: GateAsk)
        ensures
            match self.at() {
                Phase::Inspect => r matches GateAsk::Inspect { id } && id@ == self.id(),
                Phase::List => r matches GateAsk::List { filters } && texts(filters@) == self.filters(),
                Phase::Probe => r matches GateAsk::Exec { id, command, user, workdir, env } && {
                    &&& id@ == self.id()
                    &&& texts(command@) == seq!["sh"@, "-c"@, "exit 0"@]
                    &&& text_opt(user) == self.user()
                    &&& text_opt(workdir) == self.workdir()
                    &&& env@.len() == 0
                },
            },
    {
        match self.phase {
            Phase::Inspect => GateAsk::Inspect { id: self.container_id.clone() },
            Phase::List => GateAsk::List { filters: copy_texts(&self.filters) },
            Phase::Probe => GateAsk::Exec {
                id: self.container_id.clone(),
                command: probe_command(),
                user: copy_opt(&self.remote_user),
                workdir: copy_opt(&self.workdir),
                env: Vec::new(),
            },
        }
    }

    /// How long an attempt started now may take.
    pub fn window(&self, now: u64) -> (r: u64)
        ensures
            r == crate::up::readiness::window_at(self.polls().deadline(), now),
    {
        self.polls.remaining(now)
    }

    /// Take the answer to an inspection.
    pub fn on_inspect(&mut self, reply: &InspectReply, now: u64) -> (r: Verdict)
        requires
            old(self).wf(),
            old(self).at() is Inspect,
        ensures
            final(self).wf(),
            final(self).same_gate(*old(self)),
            inspection_taken(*old(self), *reply, now, *final(self), r),
    {
        let service = match &self.service {
            Some(service) => service.clone(),
            None => String::new(),
        };
        match judge_inspection(
            &mut self.polls,
            service.as_str(),
            self.container_id.as_str(),
            reply,
            now,
        ) {
            GateStep::Passed(_) => {
                self.next_phase(Phase::List);
                Verdict::Ask
            },
            GateStep::Again(pause) => Verdict::Pause(pause),
            GateStep::Refused(e) => Verdict::Refused(e),
        }
    }

    /// Go on to a readiness check, with a fresh schedule to the same deadline.
    fn next_phase(&mut self, phase: Phase)
        requires
            old(self).wf(),
            old(self).refused() is None,
            phase is Inspect ==> old(self).service() is Some,
        ensures
            final(self).wf(),
            final(self).same_gate(*old(self)),
            final(self).at() == phase,
            final(self).refused() is None,
            final(self).polls().next() == READINESS_FIRST_POLL,
    {
        let deadline = self.polls.deadline_value();
        self.phase = phase;
        self.polls = ReadinessPolls::until(deadline);
    }

    /// What a failure to be usable is reported as: on the Compose path, with the
    /// service it is about.
    pub open spec fn unusable(&self, cause: Seq<char>) -> Seq<char> {
        match self.service() {
            Some(service) => "Compose service '"@ + service
                + "' did not become usable for workspace commands after compose up: "@ + cause,
            None => cause,
        }
    }

    fn refuse(&self, cause: String) -> (r: Verdict)
        ensures
            r matches Verdict::Refused(e) && e@ == self.unusable(cause@),
    {
        match &self.service {
            Some(service) => Verdict::Refused(compose_unusable(service.as_str(), cause.as_str())),
            None => Verdict::Refused(cause),
        }
    }

    /// Take the answer to a listing.
    pub fn on_list(&mut self, reply: &ListReply, now: u64) -> (r: Verdict)
        requires
            old(self).wf(),
            old(self).at() is List,
        ensures
            final(self).wf(),
            final(self).same_gate(*old(self)),
            listing_taken(*old(self), *reply, now, *final(self), r),
    {
        match judge_listing(
            &mut self.polls,
            self.container_id.as_str(),
            &self.filters,
            reply,
            now,
        ) {
            GateStep::Passed(_) => {
                self.next_phase(Phase::Probe);
                Verdict::Ask
            },
            GateStep::Again(pause) => Verdict::Pause(pause),
            GateStep::Refused(e) => self.refuse(e),
        }
    }

    /// Take the answer to the probe.
    pub fn on_probe(&mut self, reply: &ProbeReply, now: u64) -> (r: Verdict)
        requires
            old(self).wf(),
            old(self).at() is Probe,
        ensures
            final(self).wf(),
            final(self).same_gate(*old(self)),
            probe_taken(*old(self), *reply, now, *final(self), r),
    {
        match judge_probe(
            &mut self.polls,
            &mut self.refusal,
            self.container_id.as_str(),
            &self.remote_user,
            reply,
            now,
        ) {
            GateStep::Passed(warning) => Verdict::Ready(warning),
            GateStep::Again(pause) => Verdict::Pause(pause),
            GateStep::Refused(e) => self.refuse(e),
        }
    }
}

/// What an inspection leads to: a running container is looked for by its
/// labels, one in another state is refused, and where the state was not learnt
/// the inspection is repeated while the schedule grants a pause.
pub open spec fn inspection_taken(before: Gate, reply: InspectReply, now: u64, after: Gate, r: Verdict) -> bool {
    match reply {
        InspectReply::Inspected(state) => if state is Running {
            &&& r is Ask
            &&& after.at() is List
            &&& after.polls().next() == READINESS_FIRST_POLL
        } else {
            &&& after.at() is Inspect
            &&& r matches Verdict::Refused(e) && e@ == crate::up::readiness::exited_service(
                before.service()->Some_0,
                before.id(),
                state,
            )
        },
        _ => {
            &&& after.at() is Inspect
            &&& crate::up::readiness::advanced(before.polls(), now, after.polls())
            &&& match before.polls().granted(now) {
                Some(pause) => r == Verdict::Pause(pause),
                None => r matches Verdict::Refused(e) && e@ == crate::up::readiness::uninspected_service(
                    before.service()->Some_0,
                    before.id(),
                    reply,
                ),
            }
        },
    }
}

/// What a listing leads to: a command is run in a container that it shows
/// running; otherwise the listing is repeated while the schedule grants a pause.
pub open spec fn listing_taken(before: Gate, reply: ListReply, now: u64, after: Gate, r: Verdict) -> bool {
    if crate::up::readiness::shows_running(reply, before.id()) {
        &&& r is Ask
        &&& after.at() is Probe
        &&& after.refused() is None
        &&& after.polls().next() == READINESS_FIRST_POLL
    } else {
        &&& after.at() is List
        &&& crate::up::readiness::advanced(before.polls(), now, after.polls())
        &&& match before.polls().granted(now) {
            Some(pause) => r == Verdict::Pause(pause),
            None => r matches Verdict::Refused(e) && e@ == before.unusable(
                crate::up::readiness::discovery_failure(before.id(), before.filters(), reply),
            ),
        }
    }
}

/// What a probe leads to: a command that was run proves the container usable;
/// otherwise the probe is repeated while the schedule grants a pause.
pub open spec fn probe_taken(before: Gate, reply: ProbeReply, now: u64, after: Gate, r: Verdict) -> bool {
    &&& after.at() is Probe
    &&& after.refused() == crate::up::readiness::refusal_after(before.refused(), reply)
    &&& if crate::up::readiness::proves_exec(reply) {
        r matches Verdict::Ready(warning) && text_opt(warning) == crate::up::readiness::proof_warning(
            before.id(),
            before.user(),
            reply,
        )
    } else {
        &&& crate::up::readiness::advanced(before.polls(), now, after.polls())
        &&& match before.polls().granted(now) {
            Some(pause) => r == Verdict::Pause(pause),
            None => r matches Verdict::Refused(e) && e@ == before.unusable(
                crate::up::readiness::exec_failure(before.id(), before.refused(), reply),
            ),
        }
    }
}

/// What an answer leads to.
pub open spec fn taken(before: Gate, reply: GateReply, now: u64, after: Gate, r: Verdict) -> bool {
    match reply {
        GateReply::Inspect(reply) => inspection_taken(before, reply, now, after, r),
        GateReply::List(reply) => listing_taken(before, reply, now, after, r),
        GateReply::Probe(reply) => probe_taken(before, reply, now, after, r),
    }
}

/// The answer is one to what the part asks.
pub open spec fn answers(phase: Phase, reply: GateReply) -> bool {
    match phase {
        Phase::Inspect => reply is Inspect,
        Phase::List => reply is List,
        Phase::Probe => reply is Probe,
    }
}

/// The readiness check that comes after an answer.
pub open spec fn phase_after(phase: Phase, reply: GateReply, id: Seq<char>) -> Phase {
    match (phase, reply) {
        (Phase::Inspect, GateReply::Inspect(InspectReply::Inspected(crate::model::ContainerState::Running))) => Phase::List,
        (Phase::List, GateReply::List(list)) => if crate::up::readiness::shows_running(list, id) {
            Phase::Probe
        } else {
            Phase::List
        },
        _ => phase,
    }
}

/// The readiness check that comes after a series of answers.
pub open spec fn phase_after_all(phase: Phase, replies: Seq<GateReply>, id: Seq<char>) -> Phase
    decreases replies.len(),
{
    if replies.len() == 0 {
        phase
    } else {
        phase_after(phase_after_all(phase, replies.drop_last(), id), replies.last(), id)
    }
}

impl Gate {
    /// Take the answer to what the current part asks.
    pub fn on_reply(&mut self, reply: &GateReply, now: u64) -> (r: Verdict)
        requires
            old(self).wf(),
            answers(old(self).at(), *reply),
        ensures
            final(self).wf(),
            final(self).same_gate(*old(self)),
            taken(*old(self), *reply, now, *final(self), r),
            final(self).at() == phase_after(old(self).at(), *reply, old(self).id()),
    {
        match reply {
            GateReply::Inspect(reply) => self.on_inspect(reply, now),
            GateReply::List(reply) => self.on_list(reply, now),
            GateReply::Probe(reply) => self.on_probe(reply, now),
        }
    }
}

/// Whatever the answers were, a command is only run in a container that one of
/// them showed running.
pub proof fn probed_only_after_shown_running(start: Phase, replies: Seq<GateReply>, id: Seq<char>)
    requires
        !(start is Probe),
        phase_after_all(start, replies, id) is Probe,
    ensures
        exists|i: int|
            0 <= i < replies.len() && (#[trigger] replies[i]) is List && crate::up::readiness::shows_running(
                replies[i]->List_0,
                id,
            ),
    decreases replies.len(),
{
    if replies.len() > 0 {
        let rest = replies.drop_last();
        if phase_after_all(start, rest, id) is Probe {
            probed_only_after_shown_running(start, rest, id);
            let i = choose|i: int|
                0 <= i < rest.len() && (#[trigger] rest[i]) is List && crate::up::readiness::shows_running(
                    rest[i]->List_0,
                    id,
                );
            assert(replies[i] == rest[i]);
        } else {
            assert(replies[replies.len() - 1] == replies.last());
        }
    }
}

/// A container is called usable only on a command that was run in it, or that it merely
/// lacks; it is refused only where a service's container is in another state than running,
/// or where less than a quarter of a second is left; and a pause leaves at least that much.
pub proof fn what_each_verdict_rests_on(before: Gate, reply: GateReply, now: u64, after: Gate, r: Verdict)
    requires
        before.wf(),
        taken(before, reply, now, after, r),
    ensures
        r is Ready <==> (reply matches GateReply::Probe(probe) && (probe is Ran || probe is MissingCommand)),
        r matches Verdict::Pause(pause) ==> now + pause + 250_000_000 <= before.polls().deadline(),
        r is Refused ==> (reply matches GateReply::Inspect(InspectReply::Inspected(state)) && !(state is Running))
            || now + 250_000_000 >= before.polls().deadline(),
        r is Ask ==> (reply matches GateReply::Inspect(InspectReply::Inspected(state)) && state is Running) || (
        reply matches GateReply::List(list) && crate::up::readiness::shows_running(list, before.id())),
{
}

/// The checks come in their order: a container that was inspected and runs is listed, one
/// that the listing shows running is probed, and nothing else leads on.
pub proof fn the_checks_come_in_order(phase: Phase, reply: GateReply, id: Seq<char>)
    requires
        answers(phase, reply),
    ensures
        phase is Inspect ==> phase_after(phase, reply, id) == if reply == GateReply::Inspect(
            InspectReply::Inspected(crate::model::ContainerState::Running),
        ) {
            Phase::List
        } else {
            Phase::Inspect
        },
        phase is List ==> phase_after(phase, reply, id) == if crate::up::readiness::shows_running(reply->List_0, id) {
            Phase::Probe
        } else {
            Phase::List
        },
        phase is Probe ==> phase_after(phase, reply, id) is Probe,
{
}

/// A running container is gone on with at once, and a service's container in another state
/// is refused at once, with that state in the message; a probe that ran ends the checks.
pub proof fn what_decides_at_once(before: Gate, now: u64, after: Gate, r: Verdict, state: crate::model::ContainerState)
    requires
        before.wf(),
        taken(before, GateReply::Inspect(InspectReply::Inspected(state)), now, after, r),
    ensures
        state is Running ==> r is Ask && after.at() is List,
        !(state is Running) ==> r is Refused && r->Refused_0@ == "Compose service '"@ + before.service()->Some_0
            + "' container '"@ + before.id() + "' is "@ + state.name_text() + ", not running. Check `compose logs "@
            + before.service()->Some_0
            + "` for why the service exited before Dev could run workspace commands or lifecycle hooks."@,
{
}

/// A failure names the service where the container is one's.
pub proof fn failures_name_the_service(gate: Gate, cause: Seq<char>)
    ensures
        gate.service() is None ==> gate.unusable(cause) == cause,
        gate.service() matches Some(service) ==> gate.unusable(cause) == "Compose service '"@ + service
            + "' did not become usable for workspace commands after compose up: "@ + cause,
{
}

/// A gate stays on one container, one service, one user and one deadline.
pub proof fn a_gate_stays_on_its_container(before: Gate, after: Gate)
    requires
        after.same_gate(before),
    ensures
        after.service() == before.service(),
        after.id() == before.id(),
        after.filters() == before.filters(),
        after.user() == before.user(),
        after.workdir() == before.workdir(),
        after.polls().deadline() == before.polls().deadline(),
{
}

/// A check that leads on to the next has it start afresh, with the first pause and no
/// refusal held against it; one that is to be made again stays, and pauses for twice as
/// long each time, up to a second. The last refusal of a probe is remembered.
pub proof fn each_check_starts_afresh(before: Gate, reply: GateReply, now: u64, after: Gate, r: Verdict)
    requires
        before.wf(),
        taken(before, reply, now, after, r),
    ensures
        r is Ask ==> after.polls().next() == 100_000_000,
        r is Ask && reply is Inspect ==> after.at() is List,
        r is Ask && reply is List ==> after.at() is Probe && after.refused() is None,
        !(r is Ask) ==> answers(after.at(), reply),
        r matches Verdict::Pause(pause) ==> {
            &&& pause <= before.polls().next()
            &&& before.polls().next() <= 500_000_000 ==> after.polls().next() == 2 * before.polls().next()
            &&& before.polls().next() > 500_000_000 ==> after.polls().next() == 1_000_000_000
        },
        reply matches GateReply::Probe(probe) ==> after.refused() == match probe {
            ProbeReply::Refused(e) => Some(e@),
            _ => before.refused(),
        },
        reply matches GateReply::Probe(ProbeReply::Ran(result)) && result.exit_code == 0 ==> r == Verdict::Ready(None),
{
}

} // verus!
