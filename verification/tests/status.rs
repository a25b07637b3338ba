use dev_cli::cmux::Cmux;
use dev_cli::logs::{container_logs, log_source, print_hook_log, LogSource};
use dev_cli::model::{ContainerInfo, ContainerState};
use dev_cli::session::{Session, SessionKind, SessionMarker};
use dev_cli::shell::{session_pill_action, SessionPill};
use dev_cli::status::{
    collect_sessions, missing_config_notice, pill_evidence, repaint_session_pill, session_json, status_json,
    status_lines, ContainerSessions,
};

fn container(state: ContainerState) -> ContainerInfo {
    ContainerInfo {
        id: "container-id".to_string(),
        name: "container".to_string(),
        state,
        labels: vec![],
        image: "ubuntu:24.04".to_string(),
    }
}

fn session(kind: SessionKind, live: bool) -> Session {
    (
        SessionMarker {
            container_pid: 720,
            container_sid: 721,
            host_pid: 42,
            host_start: "-".to_string(),
            kind,
            host_tty: "ttys001".to_string(),
        },
        live,
    )
}

fn decided(containers: &Vec<ContainerInfo>, sessions: &Vec<ContainerSessions>) -> SessionPill {
    let evidence = pill_evidence(containers, sessions);
    session_pill_action(evidence.as_ref(), 1, false, "myproject", "fake")
}

#[test]
fn a_session_read_that_failed_is_carried_as_a_failure() {
    let containers = vec![container(ContainerState::Running)];
    let sessions = collect_sessions(&containers, vec![None]);
    assert!(sessions[0].is_none(), "{sessions:?}");
    assert!(matches!(decided(&containers, &sessions), SessionPill::Leave));
}

#[test]
fn a_session_read_that_answered_is_carried_as_a_list() {
    let containers = vec![container(ContainerState::Running)];
    let sessions = collect_sessions(&containers, vec![Some(vec![session(SessionKind::Shell, true)])]);
    assert_eq!(sessions[0].as_deref().map(<[_]>::len), Some(1));
    assert!(matches!(decided(&containers, &sessions), SessionPill::Show(value) if value == "myproject · fake"));
}

#[test]
fn a_stopped_container_reads_as_no_sessions() {
    let containers = vec![container(ContainerState::Stopped)];
    let sessions = collect_sessions(&containers, vec![None]);
    assert_eq!(sessions[0].as_deref(), Some(&[][..]));
}

#[test]
fn no_running_container_is_evidence_of_zero_shells() {
    for containers in [vec![], vec![container(ContainerState::Stopped)]] {
        let sessions: Vec<ContainerSessions> = containers.iter().map(|_| Some(Vec::new())).collect();
        assert!(matches!(decided(&containers, &sessions), SessionPill::Clear), "{containers:?}");
    }
}

#[test]
fn a_stale_pill_is_corrected() {
    let containers = vec![container(ContainerState::Running)];
    let mut cmux = Cmux::recording();
    assert!(repaint_session_pill(&mut cmux, &containers, &vec![Some(vec![])], 1, "p", "docker"));
    let shells = vec![Some(vec![session(SessionKind::Shell, true)])];
    assert!(repaint_session_pill(&mut cmux, &containers, &shells, 1, "p", "docker"));
    assert!(!repaint_session_pill(&mut cmux, &containers, &vec![None], 1, "p", "docker"));
    assert_eq!(
        cmux.take_calls(),
        vec![
            vec!["clear-status", "dev_shell"],
            vec!["set-status", "dev_shell", "p · docker", "--icon", "terminal", "--color", "#3B82F6"],
        ]
    );
    let mut inert = Cmux::detect(true, None);
    assert!(!repaint_session_pill(&mut inert, &containers, &shells, 1, "p", "docker"));
}

#[test]
fn the_table_shows_containers_and_then_sessions() {
    let containers = vec![container(ContainerState::Running), container(ContainerState::Other("Paused".to_string()))];
    let sessions = vec![
        Some(vec![session(SessionKind::Shell, true), session(SessionKind::Exec, false)]),
        None,
    ];
    assert_eq!(
        status_lines(&containers, &sessions),
        vec![
            format!("{:<30} {:<12} IMAGE", "NAME", "STATE"),
            format!("{:<30} {:<12} ubuntu:24.04", "container", "Running"),
            format!("{:<30} {:<12} ubuntu:24.04", "container", "Paused"),
            String::new(),
            format!("{:<30} {:<10} {:<10} STATE", "CONTAINER", "SESSION", "TTY"),
            format!("{:<30} {:<10} {:<10} live", "container", "shell", "ttys001"),
            format!("{:<30} {:<10} {:<10} orphaned", "container", "exec", "ttys001"),
            String::new(),
            "Orphaned sessions are reaped by the next `dev shell`.".to_string(),
        ]
    );
    let live = vec![Some(vec![session(SessionKind::Shell, true)]), Some(vec![])];
    assert_eq!(status_lines(&containers, &live).len(), 6);
    assert_eq!(status_lines(&containers, &vec![None, None]).len(), 3);
    assert_eq!(
        status_lines(&vec![], &vec![]),
        vec![
            "No containers running for this workspace.",
            "Use `dev up` to start a container for this workspace.",
        ]
    );
}

#[test]
fn the_json_lists_each_container_with_its_sessions() {
    let containers = vec![container(ContainerState::Running)];
    let sessions = vec![Some(vec![session(SessionKind::Shell, true)])];
    let text = status_json(&containers, &sessions).unwrap();
    assert!(text.starts_with("[\n  {\n    \"id\": \"container-id\",\n"), "{text}");
    let value: serde_json::Value = serde_json::from_str(&text).unwrap();
    assert_eq!(value[0]["name"], "container");
    assert_eq!(value[0]["state"], "Running");
    assert_eq!(value[0]["image"], "ubuntu:24.04");
    assert_eq!(value[0]["sessions"][0]["kind"], "shell");
    assert_eq!(value[0]["sessions"][0]["containerPid"], 720);
    assert_eq!(value[0]["sessions"][0]["hostPid"], 42);
    assert_eq!(value[0]["sessions"][0]["hostTty"], "ttys001");
    assert_eq!(value[0]["sessions"][0]["live"], true);
    assert_eq!(status_json(&vec![], &vec![]).unwrap(), "[]");
    assert_eq!(
        session_json(&session(SessionKind::Exec, false)).to_string(),
        "{\"kind\":\"exec\",\"containerPid\":720,\"hostPid\":42,\"hostTty\":\"ttys001\",\"live\":false}"
    );
}

#[test]
fn a_missing_configuration_is_said_only_in_words() {
    assert_eq!(
        missing_config_notice(false, false, "/ws"),
        Some("No devcontainer configuration found in /ws".to_string())
    );
    assert_eq!(missing_config_notice(false, true, "/ws"), None);
    assert_eq!(missing_config_notice(true, false, "/ws"), None);
}

#[test]
fn hook_log_is_printed_before_container_logs() {
    let log = Some("npm install\nadded 12 packages\n".to_string());
    assert_eq!(
        print_hook_log("/h/hooks.log", &log, &None),
        "=== lifecycle hooks (/h/hooks.log) ===\nnpm install\nadded 12 packages\n"
    );
    assert_eq!(
        print_hook_log("/h/hooks.log", &log, &Some("/h/hooks.prev.log".to_string())),
        "=== lifecycle hooks (/h/hooks.log) ===\nnpm install\nadded 12 packages\n(previous run kept at /h/hooks.prev.log)\n"
    );
}

#[test]
fn missing_hook_log_prints_hint_instead_of_failing() {
    let output = print_hook_log("/h/hooks.log", &None, &None);
    assert!(output.contains("No lifecycle hook log"), "got: {output}");
}

#[test]
fn each_container_gets_a_banner() {
    let mut app = container(ContainerState::Running);
    app.name = "vsc-app".to_string();
    app.id = "c1".to_string();
    let mut db = container(ContainerState::Running);
    db.name = "vsc-db".to_string();
    db.id = "c2".to_string();
    let parts = match container_logs(&vec![app, db]) {
        Ok(parts) => parts,
        Err(_) => panic!("there are containers"),
    };
    assert_eq!(parts[0].banner, "=== container vsc-app (Running) ===\n");
    assert_eq!(parts[0].id, "c1");
    assert_eq!(parts[1].banner, "=== container vsc-db (Running) ===\n");
    assert_eq!(parts[1].id, "c2");
}

#[test]
fn no_containers_prints_guidance_not_an_error() {
    match container_logs(&vec![]) {
        Ok(_) => panic!("there are no containers"),
        Err(guidance) => assert!(guidance.contains("Run `dev up` first"), "{guidance}"),
    }
}

#[test]
fn compose_projects_log_through_compose() {
    assert_eq!(log_source(true, Some(true)), LogSource::HooksOnly);
    assert_eq!(log_source(false, Some(true)), LogSource::Compose);
    assert_eq!(log_source(false, Some(false)), LogSource::Containers);
    assert_eq!(log_source(false, None), LogSource::Containers);
}
