use dev_cli::exec::{
    report, reports_missing_shell, resolve_workdir, signalled_status, step, ExecCall, ExecEvent, ExecTask,
};
use dev_cli::model::{ContainerInfo, ContainerState, ExecResult};
use dev_cli::up::secrets::SecretValue;

fn ran(exit_code: i32, stdout: &str, stderr: &str) -> ExecResult {
    ExecResult { exit_code, stdout: stdout.to_string(), stderr: stderr.to_string() }
}

#[test]
fn a_command_that_ran_is_never_run_a_second_time() {
    let announcement = "OCI runtime exec failed: exec failed: unable to start container \
                        process: exec: \"/bin/sh\": stat /bin/sh: no such file or directory";
    assert!(reports_missing_shell(&ran(127, announcement, "")));

    assert!(!reports_missing_shell(&ran(
        127,
        "",
        "dev-exec: 1: exec: definitely-not-a-command: not found"
    )));
    assert!(!reports_missing_shell(&ran(127, "", "usage: ...")));
    assert!(!reports_missing_shell(&ran(
        127,
        &format!("partial output\n{announcement}"),
        ""
    )));
    assert!(!reports_missing_shell(&ran(
        127,
        "OCI runtime exec failed: exec failed: unable to start container process: \
         exec: \"cargo\": executable file not found in $PATH",
        ""
    )));
    assert!(!reports_missing_shell(&ran(0, "", "")));
}

#[test]
fn an_announcement_with_anything_beside_it_is_the_commands_own_output() {
    let announcement = "OCI runtime exec failed: exec failed: unable to start container \
                        process: exec: \"/bin/sh\": stat /bin/sh: no such file or directory";
    assert!(reports_missing_shell(&ran(127, &format!("{announcement}\n"), "")));
    assert!(reports_missing_shell(&ran(127, "", &format!("{announcement}\n"))));
    assert!(!reports_missing_shell(&ran(127, &format!("{announcement}\nhello from the command\n"), "")));
    assert!(!reports_missing_shell(&ran(127, &format!("{announcement}\n"), "and more")));
    assert!(!reports_missing_shell(&ran(126, announcement, "")));
}

fn running() -> ContainerInfo {
    ContainerInfo {
        id: "c1".to_string(),
        name: "n".to_string(),
        state: ContainerState::Running,
        labels: vec![],
        image: "image".to_string(),
    }
}

fn secrets() -> Vec<(String, SecretValue)> {
    vec![("TOKEN".to_string(), SecretValue::new("s3cret"))]
}

fn call() -> ExecCall {
    ExecCall {
        container: "c1".to_string(),
        user: Some("vscode".to_string()),
        workdir: "/workspaces/app".to_string(),
        secrets: secrets(),
    }
}

/// The call is the one that everything was resolved for.
fn expect(call: &ExecCall) {
    assert_eq!(call.container, "c1");
    assert_eq!(call.user.as_deref(), Some("vscode"));
    assert_eq!(call.workdir, "/workspaces/app");
    assert_eq!(call.secrets.len(), 1);
    assert_eq!(call.secrets[0].0, "TOKEN");
    assert_eq!(call.secrets[0].1.expose(), "s3cret");
}

#[test]
fn a_one_off_command_sweeps_before_it_runs() {
    let next = step(&None, ExecTask::ListContainers, ExecEvent::Listed(vec![running()]));
    assert!(matches!(&next.task, ExecTask::ResolveUser { image, .. } if image == "image"));
    let next = step(&None, next.task, ExecEvent::User(Some("vscode".to_string())));
    assert!(matches!(&next.task, ExecTask::ResolveWorkdir { user: Some(user), .. } if user == "vscode"));
    let next = step(&None, next.task, ExecEvent::Workdir("/workspaces/app".to_string()));
    assert!(matches!(next.task, ExecTask::ResolveSecrets { .. }));
    let next = step(&None, next.task, ExecEvent::Secrets(secrets()));
    match &next.task {
        ExecTask::Sweep { call } => expect(call),
        _ => panic!("the container is swept before the command runs"),
    }
    let next = step(&None, next.task, ExecEvent::Swept(1));
    assert_eq!(
        next.notice.unwrap().text().as_deref(),
        Some("dev: reaped 1 orphaned container session(s)")
    );
    match &next.task {
        ExecTask::RunRecorded { call } => expect(call),
        _ => panic!("the command runs after the sweep"),
    }
    let next = step(&None, next.task, ExecEvent::Ran(ran(3, "out", "")));
    assert!(matches!(next.task, ExecTask::Finish(result) if result.exit_code == 3));
}

#[test]
fn a_user_that_was_named_is_not_looked_for() {
    let asked = Some("root".to_string());
    let next = step(&asked, ExecTask::ListContainers, ExecEvent::Listed(vec![running()]));
    assert!(matches!(&next.task, ExecTask::ResolveWorkdir { user: Some(user), .. } if user == "root"));
}

#[test]
fn a_command_still_runs_in_an_image_without_a_shell() {
    let recorded = || ExecTask::RunRecorded { call: call() };
    let next = step(&None, recorded(), ExecEvent::MissingCommand("no sh".to_string()));
    match &next.task {
        ExecTask::RunPlain { call } => expect(call),
        _ => panic!("the command is run as it is"),
    }
    let announcement = "exec failed: \"/bin/sh\" not found";
    let next = step(&None, recorded(), ExecEvent::Ran(ran(127, announcement, "")));
    assert!(matches!(next.task, ExecTask::RunPlain { .. }));
    let next = step(&None, next.task, ExecEvent::MissingCommand("no cargo".to_string()));
    assert!(matches!(next.task, ExecTask::Fail(e) if e == "no cargo"));
}

#[test]
fn a_failed_required_secret_stops_the_command_from_running() {
    let task = ExecTask::ResolveSecrets {
        id: "c1".to_string(),
        user: None,
        workdir: "/w".to_string(),
    };
    let next = step(&Some("u".to_string()), task, ExecEvent::Failed("TOKEN".to_string()));
    assert!(matches!(next.task, ExecTask::Fail(e) if e == "TOKEN"));
}

#[test]
fn a_signal_releases_the_command_and_passes_the_status_on() {
    let task = ExecTask::RunRecorded { call: call() };
    let next = step(&None, task, ExecEvent::Signalled(2));
    assert!(matches!(&next.task, ExecTask::Release { id, user: Some(user), .. } if id == "c1" && user == "vscode"));
    let next = step(&None, next.task, ExecEvent::Released);
    assert!(matches!(next.task, ExecTask::Exit(130)));
    assert_eq!(signalled_status(15), 143);
}

#[test]
fn only_what_was_printed_is_passed_on() {
    let passed = report(ran(0, "out", ""));
    assert_eq!(passed.stdout.as_deref(), Some("out"));
    assert_eq!(passed.stderr, None);
    assert_eq!(passed.exit, None);
    assert_eq!(report(ran(4, "", "err")).exit, Some(4));
}

#[test]
fn one_off_exec_runs_in_the_resolved_workspace_folder() {
    assert_eq!(resolve_workdir(&Some("/w/sub".to_string()), "app"), "/w/sub");
    assert_eq!(resolve_workdir(&None, "app"), "/workspaces/app");

    for (configured, expected) in [(Some("/w/sub".to_string()), "/w/sub"), (None, "/workspaces/app")] {
        let asked = Some("root".to_string());
        let next = step(&asked, ExecTask::ListContainers, ExecEvent::Listed(vec![running()]));
        let next = step(&asked, next.task, ExecEvent::Workdir(resolve_workdir(&configured, "app")));
        let next = step(&asked, next.task, ExecEvent::Secrets(secrets()));
        let next = step(&asked, next.task, ExecEvent::Swept(0));
        match &next.task {
            ExecTask::RunRecorded { call } => {
                assert_eq!(call.workdir, expected);
                assert_eq!(call.user.as_deref(), Some("root"));
            }
            _ => panic!("the command runs after the sweep"),
        }
        let next = step(&asked, next.task, ExecEvent::MissingCommand("no sh".to_string()));
        assert!(matches!(&next.task, ExecTask::RunPlain { call } if call.workdir == expected));
    }
}

#[test]
fn a_missing_shell_reported_as_a_status_also_falls_back() {
    let announcement = "OCI runtime exec failed: exec failed: unable to start container \
                        process: exec: \"/bin/sh\": stat /bin/sh: no such file or directory";
    let task = ExecTask::RunRecorded { call: call() };
    let next = step(&None, task, ExecEvent::Ran(ran(127, announcement, "")));
    assert!(matches!(&next.task, ExecTask::RunPlain { call } if call.container == "c1"));
    let next = step(&None, next.task, ExecEvent::Ran(ran(0, "out", "")));
    assert!(matches!(next.task, ExecTask::Finish(result) if result.exit_code == 0));
}

#[test]
fn secrets_are_resolved_once_per_invocation_not_once_per_exec() {
    let events = vec![
        ExecEvent::Listed(vec![running()]),
        ExecEvent::User(None),
        ExecEvent::Workdir("/w".to_string()),
        ExecEvent::Secrets(secrets()),
        ExecEvent::Swept(0),
        ExecEvent::MissingCommand("no sh".to_string()),
        ExecEvent::Ran(ran(0, "", "")),
    ];
    let mut task = ExecTask::ListContainers;
    let mut asked = 0;
    let mut runs = 0;
    for event in events {
        task = step(&None, task, event).task;
        match &task {
            ExecTask::ResolveSecrets { .. } => asked += 1,
            ExecTask::RunRecorded { call } | ExecTask::RunPlain { call } => {
                assert_eq!(asked, 1);
                assert_eq!(call.secrets[0].1.expose(), "s3cret");
                runs += 1;
            }
            _ => {}
        }
    }
    assert_eq!((asked, runs), (1, 2));
    assert!(matches!(task, ExecTask::Finish(_)));
}
