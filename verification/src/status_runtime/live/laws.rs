//! What each row of the live checks rests on.
use vstd::prelude::*;

use crate::status_runtime::checks::{
    dind_row, host_alias_row, liveness_row, ping_row, probe_script_text, ssh_first, ProbeOutcome, RowView,
};
use crate::status_runtime::live::{
    action_of, after, fits, following, in_turn, in_turn_before, ActionView, LiveEvent, LiveRequest, LiveStage, LiveView,
};
use crate::text::texts;

verus! {

/// After the first `i` events this was to be done, and this came of it.
pub open spec fn came_of_at(
    req: LiveRequest,
    events: Seq<LiveEvent>,
    i: int,
    action: ActionView,
    event: LiveEvent,
) -> bool {
    &&& 1 <= i < events.len()
    &&& action_of(req, events.take(i)) == action
    &&& events[i] == event
}

/// This was to be done, and this came of it.
#[verifier::opaque]
pub open spec fn came_of(req: LiveRequest, events: Seq<LiveEvent>, action: ActionView, event: LiveEvent) -> bool {
    exists|i: int| #[trigger] came_of_at(req, events, i, action, event)
}

proof fn still_came(req: LiveRequest, events: Seq<LiveEvent>)
    requires
        events.len() > 0,
    ensures
        forall|a: ActionView, e: LiveEvent| #[trigger]
            came_of(req, events.drop_last(), a, e) ==> came_of(req, events, a, e),
        events.len() > 1 ==> came_of(req, events, action_of(req, events.drop_last()), events.last()),
{
    reveal(came_of);
    let rest = events.drop_last();
    let n = events.len() - 1;
    assert(events.take(n) == rest);
    assert(events[n] == events.last());
    assert forall|a: ActionView, e: LiveEvent| #[trigger] came_of(req, rest, a, e) implies came_of(
        req,
        events,
        a,
        e,
    ) by {
        let i = choose|i: int| #[trigger] came_of_at(req, rest, i, a, e);
        assert(rest.take(i) == events.take(i));
        assert(came_of_at(req, events, i, a, e));
    }
    if events.len() > 1 {
        assert(came_of_at(req, events, n, action_of(req, rest), events.last()));
    }
}

/// The probe of the host alias.
pub open spec fn alias_probe(alias: Seq<char>) -> ActionView {
    ActionView::Probe(seq!["sh"@, "-lc"@, "getent hosts "@ + alias, "dev-status"@])
}

/// The probe of the SSH agent.
pub open spec fn agent_probe(shim: Seq<char>) -> ActionView {
    ActionView::Probe(seq!["sh"@, "-lc"@, probe_script_text(shim), "dev-status"@])
}

/// The try of the SSH agent's shim.
pub open spec fn shim_probe(shim: Seq<char>) -> ActionView {
    ActionView::Probe(seq!["sh"@, "-lc"@, ": | "@ + shim])
}

/// The probe of the container's own daemon.
pub open spec fn daemon_probe() -> ActionView {
    ActionView::Probe(seq!["sh"@, "-lc"@, "docker version --format '{{.Server.Version}}'"@, "dev-status"@])
}

/// The row about the host alias is that of its own probe; without an alias there is
/// nothing to try.
#[verifier::opaque]
pub open spec fn alias_row_right(req: LiveRequest, events: Seq<LiveEvent>, row: RowView) -> bool {
    match req.access.gateway_alias {
        None => row.name == "host alias"@ && row.status is Skipped && row.detail == "this flavor has no host alias"@,
        Some(alias) => exists|outcome: ProbeOutcome| #[trigger]
            came_of(req, events, alias_probe(alias@), LiveEvent::Outcome(outcome)) && row == host_alias_row(
                outcome,
                alias@,
            ),
    }
}

/// The row about the SSH agent is that of its own probe, or, where that leaves it open,
/// that of the try of its shim, for the upstream that the probe found.
#[verifier::opaque]
pub open spec fn agent_row_right(req: LiveRequest, events: Seq<LiveEvent>, row: RowView) -> bool {
    exists|outcome: ProbeOutcome| #[trigger]
        came_of(req, events, agent_probe(req.ssh_shim@), LiveEvent::Outcome(outcome)) && match ssh_first(
            outcome,
            req.ssh_feature@,
        ) {
            Ok(it) => row == it,
            Err(upstream) => exists|tried: ProbeOutcome| #[trigger]
                came_of(req, events, shim_probe(req.ssh_shim@), LiveEvent::Outcome(tried)) && row == liveness_row(
                    tried,
                    upstream,
                ),
        }
}

/// The shim is tried for the upstream that the probe found.
#[verifier::opaque]
spec fn upstream_found(req: LiveRequest, events: Seq<LiveEvent>, upstream: Seq<char>) -> bool {
    exists|outcome: ProbeOutcome| #[trigger]
        came_of(req, events, agent_probe(req.ssh_shim@), LiveEvent::Outcome(outcome)) && ssh_first(
            outcome,
            req.ssh_feature@,
        ) == Err::<RowView, Seq<char>>(upstream)
}

/// The row about the container's daemon is that of its own probe.
#[verifier::opaque]
pub open spec fn daemon_row_right(req: LiveRequest, events: Seq<LiveEvent>, row: RowView) -> bool {
    exists|outcome: ProbeOutcome| #[trigger]
        came_of(req, events, daemon_probe(), LiveEvent::Outcome(outcome)) && row == dind_row(outcome)
}

/// The row about the relay: it says first what keeps it from being tried; else it is that
/// of the ping.
#[verifier::opaque]
pub open spec fn relay_row_right(req: LiveRequest, events: Seq<LiveEvent>, row: RowView) -> bool {
    if !req.relay_enabled {
        row.name == "cmux relay"@ && row.status is Skipped && row.detail == "cmux.agent is not enabled for this project"@
    } else if req.no_callback is Some {
        row.name == "cmux relay"@ && row.status is Skipped && row.detail == req.no_callback->Some_0@
    } else {
        ||| came_of(req, events, ActionView::OpenRelay, LiveEvent::Relay(false)) && row.name == "cmux relay"@
            && row.status is Skipped && row.detail
            == "no relay to ping: no cmux in this terminal, or its host listener did not open"@
        ||| came_of(req, events, ActionView::OpenRelay, LiveEvent::Relay(true)) && exists|outcome: ProbeOutcome| #[trigger]
            came_of(req, events, ActionView::PingRelay(texts(req.ping@)), LiveEvent::Outcome(outcome)) && row
                == ping_row(outcome)
    }
}

spec fn row_record(req: LiveRequest, events: Seq<LiveEvent>, v: LiveView, action: ActionView) -> bool {
    let rows = v.rows;
    match v.stage {
        LiveStage::Start => rows.len() == 0,
        LiveStage::HostAlias => rows.len() == 0 && req.access.gateway_alias is Some && action == alias_probe(
            req.access.gateway_alias->Some_0@,
        ),
        LiveStage::SshAgent => rows.len() == 1 && alias_row_right(req, events, rows[0]) && action == agent_probe(
            req.ssh_shim@,
        ),
        LiveStage::SshLiveness => rows.len() == 1 && alias_row_right(req, events, rows[0]) && upstream_found(
            req,
            events,
            v.upstream,
        ) && action == shim_probe(req.ssh_shim@),
        LiveStage::Dind => rows.len() == 2 && alias_row_right(req, events, rows[0]) && agent_row_right(
            req,
            events,
            rows[1],
        ) && action == daemon_probe(),
        LiveStage::Relay => rows.len() == 3 && alias_row_right(req, events, rows[0]) && agent_row_right(
            req,
            events,
            rows[1],
        ) && daemon_row_right(req, events, rows[2]) && action is OpenRelay && req.relay_enabled
            && req.no_callback is None,
        LiveStage::Ping => rows.len() == 3 && alias_row_right(req, events, rows[0]) && agent_row_right(
            req,
            events,
            rows[1],
        ) && daemon_row_right(req, events, rows[2]) && action == ActionView::PingRelay(texts(req.ping@)) && came_of(
            req,
            events,
            ActionView::OpenRelay,
            LiveEvent::Relay(true),
        ) && req.relay_enabled && req.no_callback is None,
        LiveStage::Ended => rows.len() == 4 && alias_row_right(req, events, rows[0]) && agent_row_right(
            req,
            events,
            rows[1],
        ) && daemon_row_right(req, events, rows[2]) && relay_row_right(req, events, rows[3]),
    }
}

proof fn still_right(req: LiveRequest, events: Seq<LiveEvent>)
    requires
        events.len() > 0,
    ensures
        forall|row: RowView| #[trigger]
            alias_row_right(req, events.drop_last(), row) ==> alias_row_right(req, events, row),
        forall|row: RowView| #[trigger]
            agent_row_right(req, events.drop_last(), row) ==> agent_row_right(req, events, row),
        forall|row: RowView| #[trigger]
            daemon_row_right(req, events.drop_last(), row) ==> daemon_row_right(req, events, row),
{
    still_came(req, events);
    let rest = events.drop_last();
    assert forall|row: RowView| #[trigger] alias_row_right(req, rest, row) implies alias_row_right(
        req,
        events,
        row,
    ) by {
        reveal(alias_row_right);
        if let Some(alias) = req.access.gateway_alias {
            let outcome = choose|outcome: ProbeOutcome| #[trigger]
                came_of(req, rest, alias_probe(alias@), LiveEvent::Outcome(outcome)) && row == host_alias_row(
                    outcome,
                    alias@,
                );
            assert(came_of(req, events, alias_probe(alias@), LiveEvent::Outcome(outcome)));
        }
    }
    assert forall|row: RowView| #[trigger] agent_row_right(req, rest, row) implies agent_row_right(
        req,
        events,
        row,
    ) by {
        reveal(agent_row_right);
        let shim = req.ssh_shim@;
        let outcome = choose|outcome: ProbeOutcome| #[trigger]
            came_of(req, rest, agent_probe(shim), LiveEvent::Outcome(outcome)) && match ssh_first(
                outcome,
                req.ssh_feature@,
            ) {
                Ok(it) => row == it,
                Err(upstream) => exists|tried: ProbeOutcome| #[trigger]
                    came_of(req, rest, shim_probe(shim), LiveEvent::Outcome(tried)) && row == liveness_row(
                        tried,
                        upstream,
                    ),
            };
        assert(came_of(req, events, agent_probe(shim), LiveEvent::Outcome(outcome)));
        if let Err(upstream) = ssh_first(outcome, req.ssh_feature@) {
            let tried = choose|tried: ProbeOutcome| #[trigger]
                came_of(req, rest, shim_probe(shim), LiveEvent::Outcome(tried)) && row == liveness_row(
                    tried,
                    upstream,
                );
            assert(came_of(req, events, shim_probe(shim), LiveEvent::Outcome(tried)));
        }
    }
    assert forall|row: RowView| #[trigger] daemon_row_right(req, rest, row) implies daemon_row_right(
        req,
        events,
        row,
    ) by {
        reveal(daemon_row_right);
        let outcome = choose|outcome: ProbeOutcome| #[trigger]
            came_of(req, rest, daemon_probe(), LiveEvent::Outcome(outcome)) && row == dind_row(outcome);
        assert(came_of(req, events, daemon_probe(), LiveEvent::Outcome(outcome)));
    }
}

/// What follows at each stage.
proof fn live_step(req: LiveRequest, v: LiveView, event: LiveEvent)
    requires
        fits(v.stage, event),
        v.stage is HostAlias ==> req.access.gateway_alias is Some,
    ensures
        ({
            let (next, action) = following(req, v, event);
            match v.stage {
                LiveStage::Start => true,
                LiveStage::HostAlias => next.stage is SshAgent && next.rows == v.rows.push(
                    host_alias_row(event->Outcome_0, req.access.gateway_alias->Some_0@),
                ) && action == agent_probe(req.ssh_shim@),
                LiveStage::SshAgent => match ssh_first(event->Outcome_0, req.ssh_feature@) {
                    Ok(row) => next.stage is Dind && next.rows == v.rows.push(row) && action == daemon_probe(),
                    Err(upstream) => next.stage is SshLiveness && next.rows == v.rows && next.upstream == upstream
                        && action == shim_probe(req.ssh_shim@),
                },
                LiveStage::SshLiveness => next.stage is Dind && next.rows == v.rows.push(
                    liveness_row(event->Outcome_0, v.upstream),
                ) && action == daemon_probe(),
                LiveStage::Dind => if req.relay_enabled && req.no_callback is None {
                    next.stage is Relay && next.rows == v.rows.push(dind_row(event->Outcome_0))
                        && action is OpenRelay
                } else {
                    &&& next.stage is Ended
                    &&& next.rows.len() == v.rows.len() + 2
                    &&& next.rows.take(v.rows.len() as int) == v.rows
                    &&& next.rows[v.rows.len() as int] == dind_row(event->Outcome_0)
                    &&& next.rows[v.rows.len() as int + 1].name == "cmux relay"@
                    &&& next.rows[v.rows.len() as int + 1].status is Skipped
                    &&& next.rows[v.rows.len() as int + 1].detail == if !req.relay_enabled {
                        "cmux.agent is not enabled for this project"@
                    } else {
                        req.no_callback->Some_0@
                    }
                },
                LiveStage::Relay => req.relay_enabled && req.no_callback is None ==> if event->Relay_0 {
                    next.stage is Ping && next.rows == v.rows && action == ActionView::PingRelay(texts(req.ping@))
                } else {
                    &&& next.stage is Ended
                    &&& next.rows.len() == v.rows.len() + 1
                    &&& next.rows.take(v.rows.len() as int) == v.rows
                    &&& next.rows.last().name == "cmux relay"@
                    &&& next.rows.last().status is Skipped
                    &&& next.rows.last().detail
                        == "no relay to ping: no cmux in this terminal, or its host listener did not open"@
                },
                LiveStage::Ping => next.stage is Ended && next.rows == v.rows.push(ping_row(event->Outcome_0)),
                LiveStage::Ended => true,
            }
        }),
{
    reveal(following);
    let next = following(req, v, event).0;
    if v.stage is Dind || v.stage is Relay {
        assert(next.rows.len() >= v.rows.len());
        assert(next.rows.take(v.rows.len() as int) =~= v.rows);
    }
}

proof fn is_alias_row(req: LiveRequest, events: Seq<LiveEvent>, outcome: ProbeOutcome)
    requires
        req.access.gateway_alias is Some,
        came_of(req, events, alias_probe(req.access.gateway_alias->Some_0@), LiveEvent::Outcome(outcome)),
    ensures
        alias_row_right(req, events, host_alias_row(outcome, req.access.gateway_alias->Some_0@)),
{
    reveal(alias_row_right);
}

proof fn is_agent_row(req: LiveRequest, events: Seq<LiveEvent>, outcome: ProbeOutcome)
    requires
        came_of(req, events, agent_probe(req.ssh_shim@), LiveEvent::Outcome(outcome)),
    ensures
        match ssh_first(outcome, req.ssh_feature@) {
            Ok(row) => agent_row_right(req, events, row),
            Err(upstream) => upstream_found(req, events, upstream),
        },
{
    reveal(agent_row_right);
    reveal(upstream_found);
}

proof fn is_shims_row(req: LiveRequest, events: Seq<LiveEvent>, tried: ProbeOutcome, upstream: Seq<char>)
    requires
        events.len() > 0,
        upstream_found(req, events.drop_last(), upstream),
        came_of(req, events, shim_probe(req.ssh_shim@), LiveEvent::Outcome(tried)),
    ensures
        agent_row_right(req, events, liveness_row(tried, upstream)),
{
    reveal(agent_row_right);
    reveal(upstream_found);
    still_came(req, events);
    let outcome = choose|outcome: ProbeOutcome| #[trigger]
        came_of(req, events.drop_last(), agent_probe(req.ssh_shim@), LiveEvent::Outcome(outcome)) && ssh_first(
            outcome,
            req.ssh_feature@,
        ) == Err::<RowView, Seq<char>>(upstream);
    assert(came_of(req, events, agent_probe(req.ssh_shim@), LiveEvent::Outcome(outcome)));
}

proof fn is_daemon_row(req: LiveRequest, events: Seq<LiveEvent>, outcome: ProbeOutcome)
    requires
        came_of(req, events, daemon_probe(), LiveEvent::Outcome(outcome)),
    ensures
        daemon_row_right(req, events, dind_row(outcome)),
{
    reveal(daemon_row_right);
}

proof fn is_ping_row(req: LiveRequest, events: Seq<LiveEvent>, outcome: ProbeOutcome)
    requires
        req.relay_enabled,
        req.no_callback is None,
        came_of(req, events, ActionView::OpenRelay, LiveEvent::Relay(true)),
        came_of(req, events, ActionView::PingRelay(texts(req.ping@)), LiveEvent::Outcome(outcome)),
    ensures
        relay_row_right(req, events, ping_row(outcome)),
{
    reveal(relay_row_right);
}

proof fn is_skipped_row(req: LiveRequest, events: Seq<LiveEvent>, row: RowView)
    requires
        row.name == "cmux relay"@,
        row.status is Skipped,
        if !req.relay_enabled {
            row.detail == "cmux.agent is not enabled for this project"@
        } else if req.no_callback is Some {
            row.detail == req.no_callback->Some_0@
        } else {
            row.detail == "no relay to ping: no cmux in this terminal, or its host listener did not open"@ && came_of(
                req,
                events,
                ActionView::OpenRelay,
                LiveEvent::Relay(false),
            )
        },
    ensures
        relay_row_right(req, events, row),
{
    reveal(relay_row_right);
}

#[verifier::rlimit(40)]
proof fn row_step(req: LiveRequest, events: Seq<LiveEvent>)
    requires
        in_turn(req, events),
        events.len() > 1,
        row_record(req, events.drop_last(), after(req, events.drop_last()), action_of(req, events.drop_last())),
    ensures
        row_record(req, events, after(req, events), action_of(req, events)),
{
    let rest = events.drop_last();
    let v = after(req, rest);
    let event = events.last();
    in_turn_before(req, events);
    still_came(req, events);
    still_right(req, events);
    live_step(req, v, event);
    let rows = after(req, events).rows;
    match v.stage {
        LiveStage::HostAlias => {
            is_alias_row(req, events, event->Outcome_0);
        },
        LiveStage::SshAgent => {
            is_agent_row(req, events, event->Outcome_0);
            assert(rows[0] == v.rows[0]);
        },
        LiveStage::SshLiveness => {
            is_shims_row(req, events, event->Outcome_0, v.upstream);
            assert(rows[0] == v.rows[0]);
        },
        LiveStage::Dind => {
            is_daemon_row(req, events, event->Outcome_0);
            assert(rows.take(2)[0] == rows[0] && rows.take(2)[1] == rows[1]);
            if !(req.relay_enabled && req.no_callback is None) {
                is_skipped_row(req, events, rows[3]);
            }
        },
        LiveStage::Relay => {
            assert(rows.take(3)[0] == rows[0] && rows.take(3)[1] == rows[1] && rows.take(3)[2] == rows[2]);
            if !event->Relay_0 {
                is_skipped_row(req, events, rows[3]);
            }
        },
        LiveStage::Ping => {
            is_ping_row(req, events, event->Outcome_0);
            assert(rows[0] == v.rows[0] && rows[1] == v.rows[1] && rows[2] == v.rows[2]);
        },
        _ => {
            start_is_first(req, rest);
        },
    }
}

proof fn start_is_first(req: LiveRequest, events: Seq<LiveEvent>)
    requires
        in_turn(req, events),
        events.len() > 0,
    ensures
        !(after(req, events).stage is Start),
{
    in_turn_before(req, events);
    reveal(following);
}

proof fn row_invariant(req: LiveRequest, events: Seq<LiveEvent>)
    requires
        in_turn(req, events),
    ensures
        row_record(req, events, after(req, events), action_of(req, events)),
    decreases events.len(),
{
    if events.len() == 1 {
        in_turn_before(req, events);
        assert(events.drop_last().len() == 0);
        reveal(following);
        reveal(alias_row_right);
    } else if events.len() > 1 {
        in_turn_before(req, events);
        row_invariant(req, events.drop_last());
        row_step(req, events);
    }
}

/// Once the checks are over, each row is the row of its own probe: the alias was asked for
/// by its name, the SSH agent by its probe and, where that left it open, by its shim, the
/// daemon by its version, and the relay, where it could be tried at all, by its ping.
pub proof fn each_row_rests_on_its_own_probe(req: LiveRequest, events: Seq<LiveEvent>)
    requires
        in_turn(req, events),
        after(req, events).stage is Ended,
    ensures
        ({
            let rows = after(req, events).rows;
            &&& rows.len() == 4
            &&& alias_row_right(req, events, rows[0])
            &&& agent_row_right(req, events, rows[1])
            &&& daemon_row_right(req, events, rows[2])
            &&& relay_row_right(req, events, rows[3])
        }),
{
    row_invariant(req, events);
}

/// A ping that was answered says that containers reach the host's loopback; nothing else
/// changes what they are said to reach.
pub proof fn an_answered_ping_is_evidence(req: LiveRequest, v: LiveView, outcome: ProbeOutcome)
    requires
        v.stage is Ping,
    ensures
        ({
            let next = following(req, v, LiveEvent::Outcome(outcome)).0;
            &&& outcome is Ran && outcome->Ran_0.exit_code == 0 ==> next.access.reaches_host_loopback
                && next.access.probed.reaches_host_loopback
            &&& !(outcome is Ran && outcome->Ran_0.exit_code == 0) ==> next.access == v.access
        }),
{
    reveal(following);
}

} // verus!
