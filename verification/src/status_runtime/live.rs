//! The order of the live checks: what is tried next, given what came of the last
//! try.
use vstd::prelude::*;

pub mod laws;

use crate::model::copy_texts;
use crate::status_runtime::checks::{
    check_dind, check_host_alias, check_ssh_agent, check_ssh_liveness, dind_command, dind_row,
    host_alias_command, host_alias_row, interpret_cmux_ping, liveness_command, liveness_row, login_args,
    ping_answered, ping_row, probe_cmd, probe_script_text, relay_skipped, row_views, skip_cmux_relay,
    skipped, ssh_first, ssh_probe_script, CheckRow, ProbeOutcome, RowView, SshStep,
};
use crate::status_runtime::facts::HostAccess;
use crate::text::{text_opt, texts};

verus! {

/// What the checks are made with.
pub struct LiveRequest {
    pub access: HostAccess,
    /// The project wants the relay.
    pub relay_enabled: bool,
    /// Why containers cannot call back to the host, if they cannot.
    pub no_callback: Option<String>,
    /// The path of the SSH agent's shim in a container.
    pub ssh_shim: String,
    /// The name of the feature that installs it.
    pub ssh_feature: String,
    /// The command by which a container pings the relay.
    pub ping: Vec<String>,
}

/// What is to be done.
#[derive(Debug, PartialEq, Eq)]
pub enum LiveAction {
    /// Run this command in the container, with nothing added to its environment.
    Probe(Vec<String>),
    /// Open a relay on the host.
    OpenRelay,
    /// Run this command in the container, with the way to the relay that was
    /// opened in its environment.
    PingRelay(Vec<String>),
    /// Every check has its row.
    Finish,
}

/// An action, in its parts.
#[verifier::ext_equal]
pub enum ActionView {
    Probe(Seq<Seq<char>>),
    OpenRelay,
    PingRelay(Seq<Seq<char>>),
    Finish,
}

impl View for LiveAction {
    type V = ActionView;

    open spec fn view(&self) -> ActionView {
        match self {
            LiveAction::Probe(cmd) => ActionView::Probe(texts(cmd@)),
            LiveAction::OpenRelay => ActionView::OpenRelay,
            LiveAction::PingRelay(cmd) => ActionView::PingRelay(texts(cmd@)),
            LiveAction::Finish => ActionView::Finish,
        }
    }
}

/// What came of the last action.
#[derive(Debug, PartialEq, Eq)]
pub enum LiveEvent {
    /// Nothing was done yet.
    Begin,
    /// What a command in the container came to.
    Outcome(ProbeOutcome),
    /// Whether a relay was opened.
    Relay(bool),
}

/// What was last asked for.
#[derive(Clone, Copy, Debug, PartialEq, Eq, Structural)]
pub enum LiveStage {
    Start,
    HostAlias,
    SshAgent,
    SshLiveness,
    Dind,
    Relay,
    Ping,
    Ended,
}

/// The checks as far as they were made.
pub struct LiveChecks {
    stage: LiveStage,
    rows: Vec<CheckRow>,
    upstream: String,
    access: HostAccess,
}

/// The checks as far as they were made, in their parts.
#[verifier::ext_equal]
pub struct LiveView {
    pub stage: LiveStage,
    /// The rows of the checks that were made.
    pub rows: Seq<RowView>,
    /// What the agent's shim leads to, once that is tried.
    pub upstream: Seq<char>,
    /// What containers can reach, as far as it was measured.
    pub access: HostAccess,
}

impl View for LiveChecks {
    type V = LiveView;

    closed spec fn view(&self) -> LiveView {
        LiveView {
            stage: self.stage,
            rows: row_views(self.rows@),
            upstream: self.upstream@,
            access: self.access,
        }
    }
}

/// Nothing was tried yet.
pub open spec fn live_start(access: HostAccess) -> LiveView {
    LiveView { stage: LiveStage::Start, rows: Seq::empty(), upstream: Seq::empty(), access }
}

/// The event is one that the stage waits for.
pub open spec fn fits(stage: LiveStage, event: LiveEvent) -> bool {
    match stage {
        LiveStage::Start => event is Begin,
        LiveStage::Relay => event is Relay,
        LiveStage::Ended => false,
        _ => event is Outcome,
    }
}

/// One check more, and on to a stage.
pub open spec fn noted(v: LiveView, row: RowView, stage: LiveStage) -> LiveView {
    LiveView { stage, rows: v.rows.push(row), ..v }
}

/// The host alias has its row: the SSH agent is next.
pub open spec fn alias_done(req: LiveRequest, v: LiveView, row: RowView) -> (LiveView, ActionView) {
    (
        noted(v, row, LiveStage::SshAgent),
        ActionView::Probe(login_args(probe_script_text(req.ssh_shim@))),
    )
}

/// The SSH agent has its row: the container's own daemon is next.
pub open spec fn agent_done(v: LiveView, row: RowView) -> (LiveView, ActionView) {
    (
        noted(v, row, LiveStage::Dind),
        ActionView::Probe(login_args("docker version --format '{{.Server.Version}}'"@)),
    )
}

/// The container's daemon has its row: the relay is next, where one is wanted and
/// the host can be called back.
pub open spec fn daemon_done(req: LiveRequest, v: LiveView, row: RowView) -> (LiveView, ActionView) {
    match relay_skipped(req.relay_enabled, text_opt(req.no_callback), true) {
        Some(detail) => (
            noted(
                noted(v, row, LiveStage::Relay),
                skipped("cmux relay"@, detail),
                LiveStage::Ended,
            ),
            ActionView::Finish,
        ),
        None => (noted(v, row, LiveStage::Relay), ActionView::OpenRelay),
    }
}

/// What comes next.
pub open spec fn live_next(req: LiveRequest, v: LiveView, event: LiveEvent) -> (LiveView, ActionView) {
    match (v.stage, event) {
        (LiveStage::Start, _) => match req.access.gateway_alias {
            Some(alias) => (
                LiveView { stage: LiveStage::HostAlias, ..v },
                ActionView::Probe(login_args("getent hosts "@ + alias@)),
            ),
            None => alias_done(req, v, skipped("host alias"@, "this flavor has no host alias"@)),
        },
        (LiveStage::HostAlias, LiveEvent::Outcome(outcome)) => alias_done(
            req,
            v,
            host_alias_row(
                outcome,
                match req.access.gateway_alias {
                    Some(alias) => alias@,
                    None => Seq::empty(),
                },
            ),
        ),
        (LiveStage::SshAgent, LiveEvent::Outcome(outcome)) => match ssh_first(outcome, req.ssh_feature@) {
            Ok(row) => agent_done(v, row),
            Err(upstream) => (
                LiveView { stage: LiveStage::SshLiveness, upstream, ..v },
                ActionView::Probe(seq!["sh"@, "-lc"@, ": | "@ + req.ssh_shim@]),
            ),
        },
        (LiveStage::SshLiveness, LiveEvent::Outcome(outcome)) => agent_done(
            v,
            liveness_row(outcome, v.upstream),
        ),
        (LiveStage::Dind, LiveEvent::Outcome(outcome)) => daemon_done(req, v, dind_row(outcome)),
        (LiveStage::Relay, LiveEvent::Relay(open)) => match relay_skipped(
            req.relay_enabled,
            text_opt(req.no_callback),
            open,
        ) {
            Some(detail) => (
                noted(v, skipped("cmux relay"@, detail), LiveStage::Ended),
                ActionView::Finish,
            ),
            None => (LiveView { stage: LiveStage::Ping, ..v }, ActionView::PingRelay(texts(req.ping@))),
        },
        (LiveStage::Ping, LiveEvent::Outcome(outcome)) => (
            LiveView {
                access: if ping_answered(outcome) {
                    v.access.loopback_verified(true)
                } else {
                    v.access
                },
                ..noted(v, ping_row(outcome), LiveStage::Ended)
            },
            ActionView::Finish,
        ),
        _ => (v, ActionView::Finish),
    }
}

impl LiveChecks {
    /// The checks, with none of them made yet.
    pub fn start(access: HostAccess) -> (r: Self)
        ensures
            r@ == live_start(access),
    {
        let rows: Vec<CheckRow> = Vec::new();
        let checks = LiveChecks { stage: LiveStage::Start, rows, upstream: String::new(), access };
        assert(row_views(checks.rows@) =~= Seq::empty());
        assert(checks.upstream@ =~= Seq::empty());
        checks
    }

    /// What was last asked for.
    pub fn stage(&self) -> (r: LiveStage)
        ensures
            r == self@.stage,
    {
        self.stage
    }

    fn note(&mut self, row: CheckRow, stage: LiveStage)
        ensures
            final(self)@ == noted(old(self)@, row@, stage),
    {
        let ghost before = row_views(self.rows@);
        self.rows.push(row);
        self.stage = stage;
        assert(row_views(self.rows@) =~= before.push(row@));
    }

    fn alias_done(&mut self, req: &LiveRequest, row: CheckRow) -> (r: LiveAction)
        ensures
            (final(self)@, r@) == alias_done(*req, old(self)@, row@),
    {
        self.note(row, LiveStage::SshAgent);
        LiveAction::Probe(probe_cmd(ssh_probe_script(req.ssh_shim.as_str())))
    }

    fn agent_done(&mut self, row: CheckRow) -> (r: LiveAction)
        ensures
            (final(self)@, r@) == agent_done(old(self)@, row@),
    {
        self.note(row, LiveStage::Dind);
        LiveAction::Probe(dind_command())
    }

    fn daemon_done(&mut self, req: &LiveRequest, row: CheckRow) -> (r: LiveAction)
        ensures
            (final(self)@, r@) == daemon_done(*req, old(self)@, row@),
    {
        self.note(row, LiveStage::Relay);
        match skip_cmux_relay(req.relay_enabled, &req.no_callback, true) {
            Some(row) => {
                self.note(row, LiveStage::Ended);
                LiveAction::Finish
            },
            None => LiveAction::OpenRelay,
        }
    }

    /// What is to be tried next, given what came of the last try.
    pub fn step(&mut self, req: &LiveRequest, event: &LiveEvent) -> (r: LiveAction)
        requires
            fits(old(self)@.stage, *event),
        ensures
            (final(self)@, r@) == live_next(*req, old(self)@, *event),
    {
        match (self.stage, event) {
            (LiveStage::Start, _) => match host_alias_command(&req.access) {
                Ok(cmd) => {
                    self.stage = LiveStage::HostAlias;
                    LiveAction::Probe(cmd)
                },
                Err(row) => self.alias_done(req, row),
            },
            (LiveStage::HostAlias, LiveEvent::Outcome(outcome)) => {
                let row = match &req.access.gateway_alias {
                    Some(alias) => check_host_alias(outcome, alias.as_str()),
                    None => {
                        let none = String::new();
                        assert(none@ =~= Seq::empty());
                        check_host_alias(outcome, none.as_str())
                    },
                };
                self.alias_done(req, row)
            },
            (LiveStage::SshAgent, LiveEvent::Outcome(outcome)) => match check_ssh_agent(
                outcome,
                req.ssh_feature.as_str(),
            ) {
                SshStep::Row(row) => self.agent_done(row),
                SshStep::TryShim(upstream) => {
                    self.stage = LiveStage::SshLiveness;
                    self.upstream = upstream;
                    LiveAction::Probe(liveness_command(req.ssh_shim.as_str()))
                },
            },
            (LiveStage::SshLiveness, LiveEvent::Outcome(outcome)) => {
                let row = check_ssh_liveness(outcome, self.upstream.as_str());
                self.agent_done(row)
            },
            (LiveStage::Dind, LiveEvent::Outcome(outcome)) => {
                let row = check_dind(outcome);
                self.daemon_done(req, row)
            },
            (LiveStage::Relay, LiveEvent::Relay(open)) => match skip_cmux_relay(
                req.relay_enabled,
                &req.no_callback,
                *open,
            ) {
                Some(row) => {
                    self.note(row, LiveStage::Ended);
                    LiveAction::Finish
                },
                None => {
                    self.stage = LiveStage::Ping;
                    LiveAction::PingRelay(copy_texts(&req.ping))
                },
            },
            (LiveStage::Ping, LiveEvent::Outcome(outcome)) => {
                let (row, verified) = interpret_cmux_ping(outcome, &self.access);
                self.note(row, LiveStage::Ended);
                match verified {
                    Some(measured) => {
                        self.access = measured;
                    },
                    None => {},
                }
                LiveAction::Finish
            },
            _ => LiveAction::Finish,
        }
    }

    /// The rows in their order, and what containers can reach as far as it was
    /// measured.
    pub fn finish(self) -> (r: (Vec<CheckRow>, HostAccess))
        ensures
            row_views(r.0@) == self@.rows,
            r.1 == self@.access,
    {
        (self.rows, self.access)
    }
}

// ---------------------------------------------------------------------------
// Every run
// ---------------------------------------------------------------------------

/// What follows an event: the checks and the action that the run goes on with.
#[verifier::opaque]
pub open spec fn following(req: LiveRequest, v: LiveView, event: LiveEvent) -> (LiveView, ActionView) {
    live_next(req, v, event)
}

/// The checks after a series of events.
pub open spec fn after(req: LiveRequest, events: Seq<LiveEvent>) -> LiveView
    decreases events.len(),
{
    if events.len() == 0 {
        live_start(req.access)
    } else {
        following(req, after(req, events.drop_last()), events.last()).0
    }
}

/// What the last of a series of events called for.
pub open spec fn action_of(req: LiveRequest, events: Seq<LiveEvent>) -> ActionView {
    following(req, after(req, events.drop_last()), events.last()).1
}

/// Each event is one that was waited for.
pub open spec fn in_turn(req: LiveRequest, events: Seq<LiveEvent>) -> bool {
    forall|i: int| 0 <= i < events.len() ==> fits(after(req, events.take(i)).stage, #[trigger] events[i])
}

proof fn in_turn_before(req: LiveRequest, events: Seq<LiveEvent>)
    requires
        in_turn(req, events),
        events.len() > 0,
    ensures
        in_turn(req, events.drop_last()),
        fits(after(req, events.drop_last()).stage, events.last()),
{
    let rest = events.drop_last();
    assert forall|i: int| 0 <= i < rest.len() implies fits(
        after(req, rest.take(i)).stage,
        #[trigger] rest[i],
    ) by {
        assert(events[i] == rest[i]);
        assert(rest.take(i) == events.take(i));
    }
    assert(events.take(events.len() - 1) == rest);
    assert(events[events.len() - 1] == events.last());
}

/// The names of the checks, in their order.
pub open spec fn check_names() -> Seq<Seq<char>> {
    seq!["host alias"@, "ssh agent"@, "dind"@, "cmux relay"@]
}

/// The names of rows.
pub open spec fn names(rows: Seq<RowView>) -> Seq<Seq<char>> {
    rows.map_values(|r: RowView| r.name)
}

/// How many checks have their row.
spec fn made(stage: LiveStage) -> int {
    match stage {
        LiveStage::Start => 0,
        LiveStage::HostAlias => 0,
        LiveStage::SshAgent => 1,
        LiveStage::SshLiveness => 1,
        LiveStage::Dind => 2,
        LiveStage::Relay => 3,
        LiveStage::Ping => 3,
        LiveStage::Ended => 4,
    }
}

/// How far a stage is on the way.
spec fn rank(stage: LiveStage) -> int {
    match stage {
        LiveStage::Start => 0,
        LiveStage::HostAlias => 1,
        LiveStage::SshAgent => 2,
        LiveStage::SshLiveness => 3,
        LiveStage::Dind => 4,
        LiveStage::Relay => 5,
        LiveStage::Ping => 6,
        LiveStage::Ended => 7,
    }
}

proof fn rows_step(req: LiveRequest, v: LiveView, event: LiveEvent)
    requires
        fits(v.stage, event),
        names(v.rows) == check_names().take(made(v.stage)),
    ensures
        ({
            let (next, action) = following(req, v, event);
            &&& names(next.rows) == check_names().take(made(next.stage))
            &&& rank(next.stage) > rank(v.stage)
            &&& action is Finish <==> next.stage is Ended
        }),
{
    reveal(following);
    let next = following(req, v, event).0;
    assert(names(v.rows).len() == v.rows.len());
    assert(names(next.rows).len() == next.rows.len());
    assert forall|i: int| 0 <= i < v.rows.len() implies #[trigger] v.rows[i].name == check_names()[i] by {
        assert(names(v.rows)[i] == check_names().take(made(v.stage))[i]);
    }
    assert(names(next.rows) =~= check_names().take(made(next.stage)));
}

proof fn rows_invariant(req: LiveRequest, events: Seq<LiveEvent>)
    requires
        in_turn(req, events),
    ensures
        names(after(req, events).rows) == check_names().take(made(after(req, events).stage)),
        events.len() <= rank(after(req, events).stage),
    decreases events.len(),
{
    if events.len() > 0 {
        in_turn_before(req, events);
        rows_invariant(req, events.drop_last());
        rows_step(req, after(req, events.drop_last()), events.last());
    } else {
        assert(names(after(req, events).rows) =~= check_names().take(0));
    }
}

/// Whatever comes of the tries, they end after seven events at most, and then
/// every check has its row, in the one order.
pub proof fn every_check_gets_its_row(req: LiveRequest, events: Seq<LiveEvent>)
    requires
        in_turn(req, events),
    ensures
        events.len() <= 7,
        events.len() == 7 ==> after(req, events).stage is Ended,
        after(req, events).stage is Ended ==> names(after(req, events).rows) == check_names(),
        events.len() > 0 ==> (action_of(req, events) is Finish <==> after(req, events).stage is Ended),
{
    rows_invariant(req, events);
    assert(check_names().take(4) =~= check_names());
    if events.len() > 0 {
        in_turn_before(req, events);
        rows_invariant(req, events.drop_last());
        rows_step(req, after(req, events.drop_last()), events.last());
    }
}

/// A relay is opened, and pinged, only where the project wants one and
/// containers can call back to the host; and it is pinged only once it is open.
pub proof fn relays_are_opened_only_where_wanted(req: LiveRequest, v: LiveView, event: LiveEvent)
    requires
        fits(v.stage, event),
    ensures
        ({
            let action = following(req, v, event).1;
            &&& action is OpenRelay || action is PingRelay ==> req.relay_enabled && req.no_callback is None
            &&& action is PingRelay ==> event == LiveEvent::Relay(true)
        }),
{
    reveal(following);
}

/// A ping was answered.
pub open spec fn answered_at(req: LiveRequest, events: Seq<LiveEvent>, i: int) -> bool {
    &&& 0 <= i < events.len()
    &&& after(req, events.take(i)).stage is Ping
    &&& events[i] matches LiveEvent::Outcome(outcome) && ping_answered(outcome)
}

proof fn access_step(req: LiveRequest, v: LiveView, event: LiveEvent)
    requires
        fits(v.stage, event),
    ensures
        ({
            let (next, _) = following(req, v, event);
            next.access == v.access || v.stage is Ping && ping_answered(event->Outcome_0) && next.access
                == v.access.loopback_verified(true)
        }),
{
    reveal(following);
}

/// Only a ping that was answered changes what containers are said to reach, and
/// it only says that they reach the host's loopback.
pub proof fn only_an_answered_ping_measures(req: LiveRequest, events: Seq<LiveEvent>)
    requires
        in_turn(req, events),
    ensures
        after(req, events).access == req.access || after(req, events).access
            == req.access.loopback_verified(true),
        after(req, events).access != req.access ==> exists|i: int| #[trigger] answered_at(req, events, i),
    decreases events.len(),
{
    if events.len() > 0 {
        let rest = events.drop_last();
        in_turn_before(req, events);
        only_an_answered_ping_measures(req, rest);
        access_step(req, after(req, rest), events.last());
        assert(events.take(events.len() - 1) == rest);
        if after(req, rest).access != req.access {
            let i = choose|i: int| #[trigger] answered_at(req, rest, i);
            assert(rest.take(i) == events.take(i));
            assert(answered_at(req, events, i));
        } else if after(req, events).access != req.access {
            assert(answered_at(req, events, events.len() - 1));
        }
    }
}

} // verus!
