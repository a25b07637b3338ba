use dev_cli::model::{ContainerInfo, ContainerState, ExecResult};
use dev_cli::up::gate::{Gate, GateAsk, GateReply, Phase, Verdict};
use dev_cli::up::readiness::{
    probe_command, probe_diagnosis, same_container, InspectReply, ListReply, ProbeReply, ReadinessPolls,
    READINESS_BUDGET, READINESS_FIRST_POLL, READINESS_MAX_POLL, READINESS_MIN_ATTEMPT,
};

#[test]
fn same_container_tolerates_shortened_ids() {
    assert!(same_container("abc123def456", "abc123def456"));
    assert!(same_container("abc123def456", "abc123"));
    assert!(same_container("abc123", "abc123def456"));
    assert!(!same_container("abc123", "xyz789"));
    assert!(!same_container("", "abc123"));
    assert!(!same_container("abc123", ""));
}

#[test]
fn pauses_double_up_to_the_longest() {
    let mut polls = ReadinessPolls::until(READINESS_BUDGET);
    let mut pauses = vec![];
    for _ in 0..6 {
        pauses.push(polls.wait(0).unwrap());
    }
    assert_eq!(pauses[0], READINESS_FIRST_POLL);
    assert_eq!(pauses[1], 2 * READINESS_FIRST_POLL);
    assert_eq!(pauses[2], 4 * READINESS_FIRST_POLL);
    assert_eq!(pauses[3], 8 * READINESS_FIRST_POLL);
    assert_eq!(pauses[4], READINESS_MAX_POLL);
    assert_eq!(pauses[5], READINESS_MAX_POLL);
}

#[test]
fn no_pause_is_granted_without_time_for_an_attempt() {
    let mut polls = ReadinessPolls::until(READINESS_BUDGET);
    assert_eq!(polls.wait(READINESS_BUDGET), None);
    assert_eq!(polls.wait(READINESS_BUDGET - READINESS_MIN_ATTEMPT), None);
    assert_eq!(polls.remaining(READINESS_BUDGET), READINESS_MIN_ATTEMPT);
    assert_eq!(polls.remaining(0), READINESS_BUDGET);
}

fn listed(state: ContainerState) -> ListReply {
    ListReply::Listed(vec![ContainerInfo {
        id: "c1".to_string(),
        name: "n".to_string(),
        state,
        labels: vec![],
        image: "i".to_string(),
    }])
}

fn ran(exit_code: i32) -> ProbeReply {
    ProbeReply::Ran(ExecResult { exit_code, stdout: String::new(), stderr: String::new() })
}

fn fresh() -> Gate {
    Gate::container(
        "c1".to_string(),
        vec!["a=b".to_string()],
        Some("dev".to_string()),
        Some("/w".to_string()),
        0,
    )
}

#[test]
fn a_container_is_ready_once_a_command_ran_in_it() {
    let mut gate = fresh();
    assert_eq!(gate.phase(), Phase::List);
    assert!(matches!(gate.ask(), GateAsk::List { filters } if filters == ["a=b"]));
    assert_eq!(gate.on_list(&listed(ContainerState::Running), 0), Verdict::Ask);
    assert_eq!(gate.phase(), Phase::Probe);
    match gate.ask() {
        GateAsk::Exec { id, command, user, workdir, env } => {
            assert_eq!(id, "c1");
            assert_eq!(command, ["sh", "-c", "exit 0"]);
            assert_eq!(user.as_deref(), Some("dev"));
            assert_eq!(workdir.as_deref(), Some("/w"));
            assert!(env.is_empty());
        }
        _ => panic!("a command is run"),
    }
    assert_eq!(gate.on_probe(&ran(0), 0), Verdict::Ready(None));
    assert_eq!(probe_command(), vec!["sh", "-c", "exit 0"]);
}

#[test]
fn a_container_that_runs_late_is_waited_for() {
    let mut gate = fresh();
    assert_eq!(gate.on_list(&ListReply::Listed(vec![]), 0), Verdict::Pause(READINESS_FIRST_POLL));
    assert_eq!(
        gate.on_list(&ListReply::Failed("busy".to_string()), 0),
        Verdict::Pause(2 * READINESS_FIRST_POLL)
    );
    assert_eq!(gate.on_list(&listed(ContainerState::Running), 0), Verdict::Ask);
}

#[test]
fn a_container_that_is_never_found_is_refused() {
    let mut gate = fresh();
    match gate.on_list(&ListReply::Failed("the daemon said no".to_string()), READINESS_BUDGET) {
        Verdict::Refused(message) => {
            assert!(message.contains("c1"), "{message}");
            assert!(message.contains("the daemon said no"), "{message}");
        }
        other => panic!("{other:?}"),
    }
}

#[test]
fn any_status_a_completed_probe_reported_is_accepted_with_a_warning() {
    for status in [126, 127, 1] {
        let mut gate = fresh();
        gate.on_list(&listed(ContainerState::Running), 0);
        match gate.on_probe(&ran(status), 0) {
            Verdict::Ready(Some(warning)) => assert!(warning.starts_with("Warning: "), "{warning}"),
            other => panic!("{status}: {other:?}"),
        }
    }
    let mut gate = fresh();
    gate.on_list(&listed(ContainerState::Running), 0);
    assert!(matches!(
        gate.on_probe(&ProbeReply::MissingCommand("no sh".to_string()), 0),
        Verdict::Ready(Some(_))
    ));
}

#[test]
fn the_latest_hang_leads_and_the_earlier_refusal_is_kept() {
    assert_eq!(probe_diagnosis("hung", &None), "hung");
    assert_eq!(probe_diagnosis("no", &Some("no".to_string())), "no");
    assert_eq!(
        probe_diagnosis("hung", &Some("no".to_string())),
        "hung (an earlier attempt was refused: no)"
    );
    let mut gate = fresh();
    gate.on_list(&listed(ContainerState::Running), 0);
    assert!(matches!(gate.on_probe(&ProbeReply::Refused("no".to_string()), 0), Verdict::Pause(_)));
    match gate.on_probe(&ProbeReply::TimedOut("1.0".to_string()), READINESS_BUDGET) {
        Verdict::Refused(message) => assert!(message.contains("(an earlier attempt was refused: no)"), "{message}"),
        other => panic!("{other:?}"),
    }
}

#[test]
fn a_service_that_exited_is_refused_at_once() {
    let mut gate = Gate::compose("app".to_string(), "c1".to_string(), vec![], None, None, 0);
    assert_eq!(gate.phase(), Phase::Inspect);
    assert!(matches!(gate.ask(), GateAsk::Inspect { id } if id == "c1"));
    let reply = GateReply::Inspect(InspectReply::Inspected(ContainerState::Other("Exited".to_string())));
    match gate.on_reply(&reply, 0) {
        Verdict::Refused(message) => {
            assert!(message.contains("Compose service 'app' container 'c1' is Exited, not running."), "{message}")
        }
        other => panic!("{other:?}"),
    }
    let reply = GateReply::Inspect(InspectReply::Failed("busy".to_string()));
    assert_eq!(gate.on_reply(&reply, 0), Verdict::Pause(READINESS_FIRST_POLL));
}

#[test]
fn a_service_is_taken_through_every_check_under_one_deadline() {
    let mut gate = Gate::compose("app".to_string(), "c1".to_string(), vec![], None, None, 0);
    let running = GateReply::Inspect(InspectReply::Inspected(ContainerState::Running));
    assert_eq!(gate.on_reply(&running, 1), Verdict::Ask);
    assert_eq!(gate.phase(), Phase::List);
    assert_eq!(gate.window(READINESS_BUDGET - 1_000_000_000), 1_000_000_000);
    match gate.on_reply(&GateReply::List(ListReply::Listed(vec![])), READINESS_BUDGET) {
        Verdict::Refused(message) => assert!(
            message.starts_with("Compose service 'app' did not become usable for workspace commands"),
            "{message}"
        ),
        other => panic!("{other:?}"),
    }
}
