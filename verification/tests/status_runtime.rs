use dev_cli::model::ExecResult;
use dev_cli::status_runtime::checks::{
    check_dind, check_host_alias, check_ssh_agent, check_ssh_liveness, dind_command, failed_row, host_alias_command,
    identities_phrase, interpret_cmux_ping, interpret_ssh_probe, liveness_command, looks_like_address,
    looks_like_version, ok_row, parse_ssh_add_status, parse_ssh_probe, probe_cmd, probe_outcome,
    remediation_ssh_agent, skip_cmux_relay, skip_row, ssh_mechanism_label, ssh_probe_script,
    timeout_detail, CheckRow, CheckStatus, ProbeOutcome, SshAddStatus, SshProbeFacts, SshStep, SshVerdict,
};
use dev_cli::status_runtime::facts::{access_facts, HostAccess, Probed};
use dev_cli::status_runtime::live::{LiveAction, LiveChecks, LiveEvent, LiveRequest};
use dev_cli::status_runtime::paths::{colima_mount_warning, is_under, mount_scope_warning, mount_sources_outside_home};
use dev_cli::status_runtime::report::RuntimeReport;

const SHIM: &str = "/usr/local/share/dev-ssh-agent/shim";
const FEATURE_NAME: &str = "ssh-agent-relay";

fn access(flavor: Option<&str>, alias: Option<&str>) -> HostAccess {
    HostAccess {
        flavor: flavor.map(str::to_string),
        gateway_alias: alias.map(str::to_string),
        injects_alias: alias.is_some(),
        reaches_host_loopback: false,
        socket_mounts_work: true,
        host_sockets_mount: false,
        squashes_ownership: false,
        probed: Probed { gateway_alias: false, reaches_host_loopback: false },
    }
}

fn desktop_access() -> HostAccess {
    access(Some("docker-desktop"), Some("host.docker.internal"))
}

fn exit(exit_code: i32, stdout: &str, stderr: &str) -> ProbeOutcome {
    ProbeOutcome::Ran(ExecResult { exit_code, stdout: stdout.to_string(), stderr: stderr.to_string() })
}

fn ok(stdout: &str) -> ProbeOutcome {
    exit(0, stdout, "")
}

fn row_of(facts: &SshProbeFacts) -> (CheckStatus, String) {
    match interpret_ssh_probe(facts, FEATURE_NAME) {
        SshVerdict::Row(status, detail) => (status, detail),
        SshVerdict::NeedsLivenessProbe => panic!("expected a decided row, not a liveness fallback"),
    }
}

#[test]
fn an_ssh_agent_that_cannot_be_contacted_is_told_apart_from_one_with_no_keys() {
    let cases = [
        (0, CheckStatus::Passed),
        (1, CheckStatus::Passed),
        (2, CheckStatus::Failed),
    ];
    for (exit_code, expected) in cases {
        let facts = SshProbeFacts {
            upstream: String::new(),
            auth_sock: "/dev/shm/ssh-agent.sock".to_string(),
            shim_executable: false,
            socket_is_socket: false,
            ssh_add: SshAddStatus::Answered { exit_code, identity_count: 0 },
        };
        let (status, _) = row_of(&facts);
        assert_eq!(status, expected, "exit_code={exit_code}");
    }
}

#[test]
fn a_container_given_no_agent_skips_while_a_configured_one_that_died_fails() {
    let cases = [
        ("", CheckStatus::Skipped),
        ("/dev/shm/ssh-agent.sock", CheckStatus::Failed),
    ];
    for (auth_sock, expected) in cases {
        let facts = SshProbeFacts {
            upstream: String::new(),
            auth_sock: auth_sock.to_string(),
            shim_executable: false,
            socket_is_socket: false,
            ssh_add: SshAddStatus::Answered { exit_code: 2, identity_count: 0 },
        };
        let (status, _) = row_of(&facts);
        assert_eq!(status, expected, "auth_sock={auth_sock:?}");
    }
}

#[test]
fn the_ssh_probe_reports_the_auth_sock_it_found() {
    let facts = parse_ssh_probe("UPSTREAM:\nAUTHSOCK:/dev/shm/ssh-agent.sock\nSHIM:no\n");
    assert_eq!(facts.auth_sock, "/dev/shm/ssh-agent.sock");
    assert!(
        ssh_probe_script(SHIM).contains("SSH_AUTH_SOCK"),
        "the probe script must read SSH_AUTH_SOCK, got: {}",
        ssh_probe_script(SHIM)
    );
}

#[test]
fn the_ssh_mechanism_is_read_from_the_upstream_the_container_was_given() {
    assert_eq!(ssh_mechanism_label(""), "no upstream configured");
    assert_eq!(
        ssh_mechanism_label("unix:/ssh-agent/host-agent.sock"),
        "relay (unix)"
    );
    assert_eq!(
        ssh_mechanism_label("tcp:host.docker.internal:51482"),
        "relay"
    );
}

#[test]
fn a_bound_socket_alone_is_not_reported_as_a_working_agent() {
    let facts = SshProbeFacts {
        upstream: "unix:/ssh-agent/host-agent.sock".to_string(),
        auth_sock: "/dev/shm/ssh-agent.sock".to_string(),
        shim_executable: true,
        socket_is_socket: true,
        ssh_add: SshAddStatus::Answered { exit_code: 2, identity_count: 0 },
    };
    let (status, detail) = row_of(&facts);
    assert_eq!(status, CheckStatus::Failed);
    assert!(
        detail.contains("the local socket is bound"),
        "a bound socket alone must not read as ok: {detail}"
    );
}

#[test]
fn an_image_without_ssh_add_falls_back_to_the_shim_liveness_probe() {
    let first = ok("UPSTREAM:tcp:host.docker.internal:51482\nSHIM:yes\nSOCKET:yes\nSSHADD:missing\n");
    let upstream = match check_ssh_agent(&first, FEATURE_NAME) {
        SshStep::TryShim(upstream) => upstream,
        SshStep::Row(row) => panic!("the shim is to be tried: {row:?}"),
    };
    assert_eq!(upstream, "tcp:host.docker.internal:51482");
    assert_eq!(check_ssh_liveness(&exit(0, "", ""), &upstream).status, CheckStatus::Passed);
    assert_eq!(check_ssh_liveness(&exit(1, "", ""), &upstream).status, CheckStatus::Failed);
    assert_eq!(liveness_command(SHIM), vec!["sh".to_string(), "-lc".to_string(), format!(": | {SHIM}")]);
}

#[test]
fn a_missing_ssh_add_outside_a_tcp_upstream_never_reaches_the_shim() {
    for upstream in ["unix:/ssh-agent/host-agent.sock", ""] {
        let outcome = ok(&format!("UPSTREAM:{upstream}\nSHIM:yes\nSOCKET:yes\nSSHADD:missing\n"));
        let row = match check_ssh_agent(&outcome, FEATURE_NAME) {
            SshStep::Row(row) => row,
            SshStep::TryShim(_) => panic!("the shim may not be invoked for an upstream it refuses"),
        };
        assert_eq!(row.status, CheckStatus::Skipped, "upstream={upstream:?}");
        assert_eq!(
            row.detail,
            format!(
                "{}, no ssh-add in this container to ask the agent",
                ssh_mechanism_label(upstream)
            ),
            "upstream={upstream:?}"
        );
        assert_eq!(row.remediation, None, "upstream={upstream:?}");
    }
}

#[test]
fn a_tcp_upstream_with_no_shim_installed_is_a_failure() {
    let facts = SshProbeFacts {
        upstream: "tcp:host.docker.internal:51482".to_string(),
        auth_sock: String::new(),
        shim_executable: false,
        socket_is_socket: false,
        ssh_add: SshAddStatus::Missing,
    };
    let (status, detail) = row_of(&facts);
    assert_eq!(status, CheckStatus::Failed);
    assert!(detail.contains(FEATURE_NAME), "{detail}");
}

#[test]
fn a_login_shells_chatter_on_stdout_cannot_be_mistaken_for_the_answer() {
    let stdout = "Message of the day\nWelcome to Ubuntu 24.04 LTS\nUPSTREAM:tcp:host.docker.internal:51482\nSHIM:yes\nSOCKET:yes\nSSHADD:0:2\n";

    let facts = parse_ssh_probe(stdout);

    assert_eq!(facts.upstream, "tcp:host.docker.internal:51482");
    assert!(facts.shim_executable);
    assert!(facts.socket_is_socket);
    assert!(matches!(
        facts.ssh_add,
        SshAddStatus::Answered { exit_code: 0, identity_count: 2 }
    ));
}

#[test]
fn ssh_add_answers_are_read_or_count_as_missing() {
    assert_eq!(parse_ssh_add_status("1:0"), SshAddStatus::Answered { exit_code: 1, identity_count: 0 });
    assert_eq!(parse_ssh_add_status("-1:3"), SshAddStatus::Answered { exit_code: -1, identity_count: 3 });
    assert_eq!(parse_ssh_add_status("missing"), SshAddStatus::Missing);
    assert_eq!(parse_ssh_add_status("1:x"), SshAddStatus::Missing);
    assert_eq!(identities_phrase(1), "1 identity loaded");
    assert_eq!(identities_phrase(0), "0 identities loaded");
}

#[test]
fn a_login_shells_chatter_is_not_read_as_the_address_the_host_alias_resolves_to() {
    let alias = "host.docker.internal";
    let chatter = "Welcome to Ubuntu 24.04 LTS\n0 updates can be applied immediately.\n";

    let row = check_host_alias(&ok(&format!("{chatter}198.19.249.2 host.docker.internal\n")), alias);
    assert_eq!(row.status, CheckStatus::Passed, "{}", row.detail);
    assert_eq!(row.detail, "resolves to 198.19.249.2");

    let row = check_host_alias(&ok(chatter), alias);
    assert_eq!(row.status, CheckStatus::Failed, "{}", row.detail);
    assert_eq!(
        row.detail,
        "`getent hosts host.docker.internal` printed no address"
    );
}

#[test]
fn an_address_answering_for_another_name_is_not_the_host_alias() {
    let row = check_host_alias(&ok("172.17.0.1 gateway.internal\n"), "host.docker.internal");
    assert_eq!(row.status, CheckStatus::Failed, "{}", row.detail);
    assert!(row.remediation.is_some());
}

#[test]
fn a_container_without_the_docker_cli_reports_dind_as_skipped_not_failed() {
    for outcome in [
        exit(127, "", "sh: docker: not found"),
        ProbeOutcome::MissingCommand("missing-command: no such executable".to_string()),
    ] {
        let row = check_dind(&probe_outcome(outcome));
        assert_eq!(row.status, CheckStatus::Skipped, "{:?}", row.detail);
        assert_eq!(row.detail, "no docker CLI in this container");
    }
}

#[test]
fn an_unreachable_docker_daemon_reports_dind_as_failed() {
    let row = check_dind(&exit(
        1,
        "",
        "Cannot connect to the Docker daemon at unix:///var/run/docker.sock",
    ));
    assert_eq!(row.status, CheckStatus::Failed);
    assert!(
        row.detail.contains("Cannot connect to the Docker daemon"),
        "{}",
        row.detail
    );
}

#[test]
fn a_login_shells_chatter_is_not_read_as_the_dind_server_version() {
    let row = check_dind(&ok("0 updates can be applied immediately.\n27.4.0\n"));
    assert_eq!(row.status, CheckStatus::Passed, "{}", row.detail);
    assert_eq!(row.detail, "server 27.4.0");

    let row = check_dind(&ok("0 updates can be applied immediately.\n"));
    assert_eq!(row.status, CheckStatus::Passed, "{}", row.detail);
    assert_eq!(
        row.detail,
        "the daemon answered but reported no server version"
    );
}

#[test]
fn a_container_without_the_cmux_shim_reports_the_relay_as_skipped() {
    for outcome in [
        probe_outcome(exit(127, "", "sh: cmux: not found")),
        ProbeOutcome::MissingCommand("missing-command: no such file".to_string()),
    ] {
        let (row, refined) = interpret_cmux_ping(&outcome, &desktop_access());
        assert_eq!(row.status, CheckStatus::Skipped);
        assert_eq!(
            row.detail,
            "the cmux-agent feature is not installed in this container"
        );
        assert!(refined.is_none());
    }
}

#[test]
fn a_flavor_with_no_gateway_alias_skips_both_host_callback_checks_and_says_so() {
    let colima = access(Some("colima"), None);
    let host_alias_row = match host_alias_command(&colima) {
        Err(row) => row,
        Ok(command) => panic!("nothing is to be run: {command:?}"),
    };
    assert_eq!(host_alias_row.status, CheckStatus::Skipped);
    assert_eq!(host_alias_row.detail, "this flavor has no host alias");

    let reason = Some("this flavor has no host alias".to_string());
    let relay_row = skip_cmux_relay(true, &reason, false).expect("the relay is not tried");
    assert_eq!(relay_row.status, CheckStatus::Skipped);
    assert_eq!(relay_row.detail, "this flavor has no host alias");

    let report = RuntimeReport {
        socket_path: None,
        daemon_version: None,
        access: colima,
        checks: Some(vec![host_alias_row, relay_row]),
        mount_warning: None,
    };
    let rendered = report.render();
    assert!(rendered.contains("cmux agent relay"), "{rendered}");
    assert!(rendered.contains("SSH agent relay"), "{rendered}");
}

#[test]
fn a_relay_is_not_tried_where_nothing_would_answer() {
    let disabled = skip_cmux_relay(false, &None, true).expect("the relay is not enabled");
    assert_eq!(disabled.detail, "cmux.agent is not enabled for this project");
    let closed = skip_cmux_relay(true, &None, false).expect("there is no relay");
    assert!(closed.detail.starts_with("no relay to ping"), "{}", closed.detail);
    assert!(skip_cmux_relay(true, &None, true).is_none());
}

#[test]
fn both_socket_mount_fields_get_their_own_row() {
    let facts = access_facts(&access(Some("orbstack"), Some("host.docker.internal")));

    let docker_socket = facts
        .iter()
        .find(|f| f.label == "docker socket mount")
        .expect("a docker socket mount row");
    let host_sockets = facts
        .iter()
        .find(|f| f.label == "host socket mounts")
        .expect("a host socket mounts row");
    assert_ne!(docker_socket.label, host_sockets.label);
    assert_eq!(docker_socket.value, "works");
    assert_eq!(host_sockets.value, "do not work");
}

#[test]
fn a_probe_that_never_answers_is_reported_as_a_timeout_naming_the_seconds() {
    let row = check_host_alias(&ProbeOutcome::TimedOut("5.0".to_string()), "host.docker.internal");
    assert_eq!(row.status, CheckStatus::Failed);
    assert_eq!(row.detail, timeout_detail("5.0"));
    assert_eq!(row.detail, "it did not report an exit within 5.0s");
}

#[test]
fn every_probe_runs_through_a_login_shell() {
    let alias = host_alias_command(&desktop_access()).expect("there is an alias to look up");
    assert_eq!(alias, vec!["sh", "-lc", "getent hosts host.docker.internal", "dev-status"]);
    for command in [alias, dind_command(), probe_cmd(ssh_probe_script(SHIM)), liveness_command(SHIM)] {
        assert_eq!(command[0], "sh", "{command:?}");
        assert_eq!(command[1], "-lc", "{command:?}");
    }
}

#[test]
fn a_relay_ping_that_answered_marks_host_loopback_as_probed() {
    let engine = access(Some("engine"), Some("host.docker.internal"));
    let (row, refined) = interpret_cmux_ping(&exit(0, "", ""), &engine);

    assert_eq!(row.status, CheckStatus::Passed);
    let refined = refined.expect("a successful ping must refine the descriptor");
    assert!(refined.reaches_host_loopback);
    assert!(refined.probed.reaches_host_loopback);
    let loopback_fact = access_facts(&refined)
        .into_iter()
        .find(|f| f.label == "host loopback")
        .expect("a host loopback row");
    assert_eq!(loopback_fact.source.as_deref(), Some("probe"));
}

#[test]
fn a_relay_ping_that_failed_leaves_host_loopback_on_the_table_value() {
    let outcomes = [
        exit(1, "", ""),
        ProbeOutcome::Refused("token mismatch".to_string()),
        ProbeOutcome::TimedOut("5.0".to_string()),
    ];
    for outcome in outcomes {
        let engine = access(Some("engine"), Some("host.docker.internal"));
        let (row, refined) = interpret_cmux_ping(&outcome, &engine);
        assert_eq!(row.status, CheckStatus::Failed);
        assert!(refined.is_none(), "a failed ping proves nothing either way");
        let loopback_fact = access_facts(&refined.unwrap_or(engine))
            .into_iter()
            .find(|f| f.label == "host loopback")
            .expect("a host loopback row");
        assert_eq!(loopback_fact.source.as_deref(), Some("table"));
    }
}

#[test]
fn mount_sources_outside_the_home_directory_are_named() {
    let sources = vec![
        "/Users/mwarren/.ssh".to_string(),
        "/Users/mwarrenx/keys".to_string(),
        "/opt/certs".to_string(),
    ];

    let outside = mount_sources_outside_home(&sources, "/Users/mwarren");

    assert_eq!(
        outside,
        vec!["/Users/mwarrenx/keys", "/opt/certs"],
        "a string-prefix test would wave /Users/mwarrenx/keys through"
    );
}

#[test]
fn paths_are_compared_by_their_components() {
    assert!(is_under("/home/me//x/", "/home/me"));
    assert!(is_under("/home/me", "/home/me/"));
    assert!(is_under("/home/./me/x", "/home/me"));
    assert!(!is_under("home/me", "/home/me"));
    assert!(!is_under("/home", "/home/me"));
}

#[test]
fn the_mount_scope_warning_is_raised_only_on_colima() {
    let home = Some("/Users/mwarren".to_string());
    let sources = vec!["/opt/certs".to_string()];
    assert_eq!(mount_scope_warning(false, &home, &sources), None);
    let warning = mount_scope_warning(true, &home, &sources).expect("a source outside home");
    assert!(warning.contains("/opt/certs"), "{warning}");
    assert_eq!(mount_scope_warning(true, &None, &sources), None);
    assert_eq!(colima_mount_warning(&vec![]), None);
}

#[test]
fn an_undetected_flavor_prints_as_unknown_rather_than_engine() {
    let report = RuntimeReport {
        socket_path: None,
        daemon_version: None,
        access: access(None, None),
        checks: None,
        mount_warning: None,
    };

    let rendered = report.render();

    assert!(rendered.contains("unknown"), "{rendered}");
    assert!(!rendered.contains("engine"), "{rendered}");
}

#[test]
fn the_static_facts_are_printed_with_no_container_and_the_hint_says_dev_up() {
    let report = RuntimeReport {
        socket_path: Some("/var/run/docker.sock".to_string()),
        daemon_version: Some("27.4.0".to_string()),
        access: desktop_access(),
        checks: None,
        mount_warning: None,
    };

    let rendered = report.render();

    assert!(rendered.contains("/var/run/docker.sock"));
    assert!(rendered.contains("docker-desktop"));
    assert!(rendered.contains("27.4.0"));
    assert!(rendered.contains("dev up"));
    assert!(
        !rendered.contains("CHECK"),
        "no checks were run: {rendered}"
    );
}

#[test]
fn each_descriptor_row_says_whether_it_came_from_the_table_or_a_probe() {
    let mut engine = access(Some("engine"), Some("host.docker.internal"));
    engine.probed = Probed { gateway_alias: true, reaches_host_loopback: false };

    let facts = access_facts(&engine);
    let by_label = |label: &str| facts.iter().find(|f| f.label == label).unwrap();

    assert_eq!(by_label("host alias").source.as_deref(), Some("probe"));
    assert_eq!(by_label("host loopback").source.as_deref(), Some("table"));
    for label in [
        "alias injected",
        "docker socket mount",
        "host socket mounts",
        "ownership",
    ] {
        assert_eq!(by_label(label).source.as_deref(), Some("table"), "{label}");
    }
}

#[test]
fn the_json_object_carries_the_runtime_section_beside_the_containers() {
    let report = RuntimeReport {
        socket_path: Some("/var/run/docker.sock".to_string()),
        daemon_version: Some("27.4.0".to_string()),
        access: desktop_access(),
        checks: Some(vec![
            ok_row("host alias", "resolves to 198.19.249.2".to_string()),
            failed_row(
                "ssh agent",
                "could not contact the agent".to_string(),
                remediation_ssh_agent(),
            ),
        ]),
        mount_warning: Some("Colima only shares your home directory with the VM".to_string()),
    };

    let value = report.to_json();

    let checks = value["checks"].as_array().expect("checks must be an array");
    assert_eq!(checks.len(), 2);
    assert_eq!(checks[0]["status"], "ok");
    assert_eq!(checks[0]["detail"], "resolves to 198.19.249.2");
    assert_eq!(checks[1]["status"], "failed");
    assert_eq!(checks[1]["detail"], "could not contact the agent");
    assert!(value["mountWarning"].as_str().unwrap().contains("Colima"));
    assert_eq!(value["socket"], "/var/run/docker.sock");
    assert_eq!(value["flavor"], "docker-desktop");
    assert_eq!(value["facts"].as_array().unwrap().len(), 9);
}

#[test]
fn only_failed_checks_come_with_something_to_do() {
    let report = RuntimeReport {
        socket_path: None,
        daemon_version: None,
        access: desktop_access(),
        checks: Some(vec![
            skip_row("dind", "no docker CLI in this container".to_string()),
            failed_row("ssh agent", "gone".to_string(), "Do this.".to_string()),
        ]),
        mount_warning: Some("Mind that.".to_string()),
    };
    let rendered = report.render();
    assert!(rendered.ends_with("\n\nDo this.\n\nMind that.\n"), "{rendered}");
    assert!(rendered.starts_with("\nFACT                 VALUE"), "{rendered}");
}

fn relay_ping() -> Vec<String> {
    ["sh", "-lc", "/usr/local/bin/cmux ping"].iter().map(|arg| arg.to_string()).collect()
}

fn live_request(access: HostAccess) -> LiveRequest {
    LiveRequest {
        access,
        relay_enabled: true,
        no_callback: None,
        ssh_shim: SHIM.to_string(),
        ssh_feature: FEATURE_NAME.to_string(),
        ping: relay_ping(),
    }
}

fn generic_dispatch(cmd: &[String]) -> ProbeOutcome {
    let script = cmd.get(2).map(String::as_str).unwrap_or("");
    probe_outcome(if script.starts_with("getent hosts") {
        exit(0, "198.19.249.2 host.docker.internal\n", "")
    } else if script.contains("UPSTREAM:%s") {
        exit(0, "UPSTREAM:\nSHIM:no\nSOCKET:no\nSSHADD:missing\n", "")
    } else if script.starts_with(": |") {
        exit(1, "", "")
    } else if script.starts_with("docker version") {
        exit(0, "27.4.0\n", "")
    } else {
        exit(127, "", "")
    })
}

/// The live checks with these answers: the rows, what they measured, and each
/// command with whether the way to the relay came with it.
fn drive_all_checks(
    request: &LiveRequest,
    relay: bool,
    answer: impl Fn(&[String]) -> ProbeOutcome,
) -> (Vec<CheckRow>, HostAccess, Vec<(Vec<String>, bool)>) {
    let mut checks = LiveChecks::start(request.access.copy());
    let mut event = LiveEvent::Begin;
    let mut calls = Vec::new();
    loop {
        event = match checks.step(request, &event) {
            LiveAction::Probe(cmd) => {
                let outcome = answer(&cmd);
                calls.push((cmd, false));
                LiveEvent::Outcome(outcome)
            }
            LiveAction::PingRelay(cmd) => {
                let outcome = answer(&cmd);
                calls.push((cmd, true));
                LiveEvent::Outcome(outcome)
            }
            LiveAction::OpenRelay => LiveEvent::Relay(relay),
            LiveAction::Finish => {
                let (rows, access) = checks.finish();
                return (rows, access, calls);
            }
        };
    }
}

#[test]
fn the_live_checks_go_through_a_login_shell() {
    for relay in [false, true] {
        let (rows, _, calls) = drive_all_checks(&live_request(desktop_access()), relay, generic_dispatch);
        assert!(!calls.is_empty());
        for (cmd, _) in &calls {
            assert_eq!(cmd[0], "sh", "{cmd:?}");
            assert_eq!(cmd[1], "-lc", "{cmd:?}");
        }
        let row = rows.iter().find(|row| row.name == "cmux relay").expect("a cmux relay row");
        assert_eq!(row.status, CheckStatus::Skipped);
    }
}

#[test]
fn only_the_relay_probe_is_given_relay_credentials() {
    let (_, _, calls) = drive_all_checks(&live_request(desktop_access()), true, generic_dispatch);
    assert!(!calls.is_empty());
    let is_relay_ping = |cmd: &Vec<String>| cmd.iter().any(|arg| arg.contains("cmux") && arg.contains("ping"));
    for (cmd, with_relay) in &calls {
        assert_eq!(*with_relay, is_relay_ping(cmd), "{cmd:?}");
    }
    assert!(calls.iter().any(|(cmd, _)| is_relay_ping(cmd)));
}

#[test]
fn the_checks_come_in_their_order_with_what_they_measured() {
    let answer = |cmd: &[String]| if cmd == relay_ping() { exit(0, "", "") } else { generic_dispatch(cmd) };
    let (rows, refined, calls) = drive_all_checks(&live_request(desktop_access()), true, answer);
    let names: Vec<&str> = rows.iter().map(|r| r.name.as_str()).collect();
    assert_eq!(names, ["host alias", "ssh agent", "dind", "cmux relay"]);
    assert_eq!(rows[0].detail, "resolves to 198.19.249.2");
    assert_eq!(rows[2].detail, "server 27.4.0");
    assert_eq!(rows[3].detail, "shim answered");
    assert!(refined.probed.reaches_host_loopback);
    assert_eq!(calls.len(), 4);

    let (rows, refined, calls) = drive_all_checks(&live_request(desktop_access()), true, generic_dispatch);
    assert_eq!(rows[3].status, CheckStatus::Skipped);
    assert_eq!(refined, desktop_access());
    assert_eq!(calls.len(), 4);
}

#[test]
fn the_shim_is_tried_where_ssh_add_is_missing() {
    let answer = |cmd: &[String]| {
        if cmd[2].contains("UPSTREAM:%s") {
            exit(0, "UPSTREAM:tcp:host.docker.internal:4242\nSHIM:yes\nSOCKET:yes\nSSHADD:missing\n", "")
        } else {
            generic_dispatch(cmd)
        }
    };
    let (rows, _, calls) = drive_all_checks(&live_request(desktop_access()), false, answer);
    assert_eq!(calls[2].0[2], format!(": | {SHIM}"));
    assert_eq!(rows[1].status, CheckStatus::Failed);
    assert!(rows[1].detail.ends_with("the upstream shim could not reach the agent"), "{}", rows[1].detail);
    assert!(rows[3].detail.starts_with("no relay to ping"), "{}", rows[3].detail);
}

#[test]
fn no_relay_is_opened_where_none_is_wanted_or_the_host_cannot_be_called() {
    let unwanted = LiveRequest { relay_enabled: false, ..live_request(desktop_access()) };
    let (rows, _, _) = drive_all_checks(&unwanted, true, generic_dispatch);
    assert_eq!(rows[3].detail, "cmux.agent is not enabled for this project");

    let reason = "this flavor has no host alias".to_string();
    let unreachable =
        LiveRequest { no_callback: Some(reason.clone()), ..live_request(access(Some("colima"), None)) };
    let (rows, _, calls) = drive_all_checks(&unreachable, true, generic_dispatch);
    assert_eq!(rows[0].detail, reason);
    assert_eq!(rows[3].detail, reason);
    assert_eq!(calls.len(), 2);
}

#[test]
fn addresses_and_versions_go_by_their_shape() {
    assert!(looks_like_address("198.19.249.2"));
    assert!(looks_like_address("fe80::1"));
    assert!(!looks_like_address("updates"));
    assert!(looks_like_version("27.4.0"));
    assert!(!looks_like_version("v27"));
    assert!(!looks_like_version(""));
}
