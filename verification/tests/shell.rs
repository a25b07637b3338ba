use dev_cli::cmux::{Cmux, SHELL_KEY};
use dev_cli::exec::ExecCall;
use dev_cli::model::{ContainerInfo, ContainerState};
use dev_cli::session::{count_other_live_shells, Session, SessionKind, SessionMarker};
use dev_cli::shell::{
    paint_session_pill, pill_value, session_command, session_pill_action, single_quoted, step, SessionPill,
    ShellChoice, ShellEvent, ShellNotice, ShellTask,
};
use dev_cli::up::secrets::SecretValue;

/// What a session runs to record itself.
const REGISTER: &str = "printf '%s\\n' \"$$ 4131 ttys016\" > /tmp/.dev-session-$$; ";

#[test]
fn a_session_records_itself_before_it_can_fail() {
    let script = &session_command("/bin/zsh", "/workspaces/repo", REGISTER)[2];
    let recorded = script.find("/tmp/.dev-session-").expect("marker written");
    let entered = script
        .find("cd '/workspaces/repo'")
        .expect("workdir entered");
    assert!(recorded < entered);
    assert!(script.ends_with("exec '/bin/zsh' -l"));
}

#[test]
fn registration_does_not_loosen_the_workdir_quoting() {
    let script = &session_command("/bin/zsh", "/tmp; rm -rf /", REGISTER)[2];
    assert!(script.contains("cd '/tmp; rm -rf /'"));
}

#[test]
fn a_session_is_one_script_for_its_shell() {
    assert_eq!(
        session_command("/bin/sh", "/w", "R; "),
        vec![
            "/bin/sh",
            "-c",
            "R; cd '/w' || { printf 'dev: could not enter %s\\n' '/w' >&2; exit 1; }; exec '/bin/sh' -l",
        ]
    );
}

#[test]
fn a_quoted_value_survives_the_guest_shell_as_one_word() {
    assert_eq!(single_quoted("/workspaces/repo"), "'/workspaces/repo'");
    assert_eq!(
        single_quoted("/workspaces/My Projects/repo"),
        "'/workspaces/My Projects/repo'"
    );
}

#[test]
fn quoting_leaves_no_metacharacter_live() {
    for hostile in [
        "/tmp; rm -rf /",
        "/tmp && whoami",
        "/tmp`id`",
        "/tmp$(id)",
        "/tmp\nid",
        "/tmp|id",
    ] {
        let quoted = single_quoted(hostile);
        assert_eq!(quoted, format!("'{hostile}'"));
    }

    assert_eq!(single_quoted("/tmp/it's"), r"'/tmp/it'\''s'");
    assert_eq!(single_quoted("';id;'"), r"''\'';id;'\'''");
}

#[test]
fn pill_value_shows_a_count_only_above_one_shell() {
    assert_eq!(pill_value("myproject", "docker", 1), "myproject · docker");
    assert_eq!(
        pill_value("myproject", "docker", 3),
        "3 shells · myproject · docker"
    );
}

/// A live sibling shell, owned by `host_pid`.
fn live_shell(host_pid: u32) -> Session {
    (
        SessionMarker {
            container_pid: 720,
            container_sid: 720,
            host_pid,
            host_start: "-".to_string(),
            kind: SessionKind::Shell,
            host_tty: "ttys001".to_string(),
        },
        true,
    )
}

#[test]
fn a_failed_read_paints_nothing() {
    assert!(matches!(
        session_pill_action(None, 4131, false, "myproject", "docker"),
        SessionPill::Leave
    ));
    assert!(matches!(
        session_pill_action(None, 4131, true, "myproject", "docker"),
        SessionPill::Leave
    ));
}

#[test]
fn a_read_that_found_no_shell_clears() {
    assert!(matches!(
        session_pill_action(Some(&vec![]), 4131, false, "myproject", "docker"),
        SessionPill::Clear
    ));
    assert!(matches!(
        session_pill_action(
            Some(&vec![live_shell(4131)]),
            4131,
            false,
            "myproject",
            "docker"
        ),
        SessionPill::Clear
    ));
}

#[test]
fn a_read_that_found_shells_paints_their_count() {
    let entering = session_pill_action(Some(&vec![]), 4131, true, "myproject", "docker");
    assert!(matches!(entering, SessionPill::Show(value) if value == "myproject · docker"));

    let two = session_pill_action(Some(&vec![live_shell(5000)]), 4131, true, "myproject", "docker");
    assert!(
        matches!(two, SessionPill::Show(value) if value == "2 shells · myproject · docker")
    );
}

#[test]
fn only_other_live_shells_count() {
    let mut orphan = live_shell(1);
    orphan.1 = false;
    let mut command = live_shell(2);
    command.0.kind = SessionKind::Exec;
    let sessions = vec![orphan, command, live_shell(3), live_shell(4), live_shell(9)];
    assert_eq!(count_other_live_shells(&sessions, 9), 2);
    assert_eq!(count_other_live_shells(&sessions, 10), 3);
}

/// The calls of a session whose entry and exit reads came to this.
fn painted(entry: Option<Vec<Session>>, exit: Option<Vec<Session>>) -> Vec<Vec<String>> {
    let cmux = Cmux::recording();
    let mut pill = cmux.guard(SHELL_KEY, true);
    paint_session_pill(true, entry.as_ref(), 4131, true, "name", "docker", &mut pill);
    paint_session_pill(true, exit.as_ref(), 4131, false, "name", "docker", &mut pill);
    pill.finish(0).0
}

fn shown(value: &str) -> Vec<String> {
    ["set-status", "dev_shell", value, "--icon", "terminal", "--color", "#3B82F6"]
        .iter()
        .map(|s| s.to_string())
        .collect()
}

fn cleared() -> Vec<String> {
    vec!["clear-status".to_string(), "dev_shell".to_string()]
}

#[test]
fn one_shell_paints_on_entry_and_clears_on_exit() {
    assert_eq!(
        painted(Some(vec![]), Some(vec![])),
        vec![shown("name · docker"), cleared()]
    );
}

#[test]
fn a_failed_exit_read_leaves_the_pill_up() {
    assert_eq!(painted(Some(vec![]), None), vec![shown("name · docker")]);
}

#[test]
fn an_unpainted_entry_still_clears_when_the_exit_read_finds_no_shell() {
    assert_eq!(painted(None, Some(vec![])), vec![cleared()]);
}

#[test]
fn a_sibling_shell_keeps_the_pill_and_recounts_on_exit() {
    assert_eq!(
        painted(Some(vec![live_shell(7)]), Some(vec![live_shell(7)])),
        vec![shown("2 shells · name · docker"), shown("name · docker")]
    );
}

#[test]
fn a_pill_that_is_not_wanted_is_not_touched() {
    let cmux = Cmux::recording();
    let mut pill = cmux.guard(SHELL_KEY, false);
    paint_session_pill(false, Some(&vec![]), 1, true, "name", "docker", &mut pill);
    paint_session_pill(false, Some(&vec![]), 1, false, "name", "docker", &mut pill);
    assert!(pill.finish(0).0.is_empty());
}

fn container(state: ContainerState) -> ContainerInfo {
    ContainerInfo {
        id: "id".to_string(),
        name: "name".to_string(),
        state,
        labels: vec![],
        image: "image".to_string(),
    }
}

fn secrets() -> Vec<(String, SecretValue)> {
    vec![("TOKEN".to_string(), SecretValue::new("s3cret"))]
}

fn call() -> ExecCall {
    ExecCall {
        container: "id".to_string(),
        user: Some("vscode".to_string()),
        workdir: "/workspaces/app".to_string(),
        secrets: secrets(),
    }
}

/// The call is the one that everything was resolved for.
fn expect(call: &ExecCall) {
    assert_eq!(call.container, "id");
    assert_eq!(call.user.as_deref(), Some("vscode"));
    assert_eq!(call.workdir, "/workspaces/app");
    assert_eq!(call.secrets.len(), 1);
    assert_eq!(call.secrets[0].0, "TOKEN");
    assert_eq!(call.secrets[0].1.expose(), "s3cret");
}

/// The task of opening a session, with the path of the shell that it takes.
fn opened(asked: Option<String>, statuses: &[i32]) -> (ShellTask, String) {
    let found = vec![container(ContainerState::Stopped), container(ContainerState::Running)];
    let next = step(&asked, ShellTask::ListContainers, ShellEvent::Listed(found));
    assert!(matches!(&next.task, ShellTask::ResolveUser { image, .. } if image == "image"));
    let mut next = step(&asked, next.task, ShellEvent::User(Some("vscode".to_string())));
    for status in statuses {
        assert!(matches!(&next.task, ShellTask::Probe { user: Some(user), .. } if user == "vscode"));
        next = step(&asked, next.task, ShellEvent::Status(*status));
    }
    assert!(matches!(&next.task, ShellTask::ResolveWorkdir { user: Some(user), .. } if user == "vscode"));
    let next = step(&asked, next.task, ShellEvent::Workdir("/workspaces/app".to_string()));
    assert!(matches!(next.task, ShellTask::ResolveSecrets { .. }));
    let next = step(&asked, next.task, ShellEvent::Secrets(secrets()));
    assert!(matches!(&next.task, ShellTask::Sweep { call, .. } if call.container == "id"));
    let next = step(&asked, next.task, ShellEvent::Swept(2));
    assert_eq!(
        next.notice.unwrap().text(),
        Some("dev: reaped 2 orphaned container session(s)".to_string())
    );
    assert!(matches!(next.task, ShellTask::PaintEntry { .. }));
    let next = step(&asked, next.task, ShellEvent::Painted);
    let path = match &next.task {
        ShellTask::Attend { call, shell } => {
            expect(call);
            shell.path()
        }
        _ => panic!("a session is opened after the pill was painted"),
    };
    (next.task, path)
}

#[test]
fn the_first_shell_the_container_has_is_opened() {
    assert_eq!(opened(None, &[0]).1, "/bin/zsh");
    assert_eq!(opened(None, &[1, 0]).1, "/bin/bash");
    assert_eq!(opened(None, &[1, 1, 0]).1, "/bin/sh");
    assert_eq!(opened(None, &[1, 1, 1]).1, "/bin/sh");
    assert_eq!(opened(Some("/bin/fish".to_string()), &[]).1, "/bin/fish");
    assert_eq!(ShellChoice::Bash.probe(), vec!["test", "-x", "/bin/bash"]);
}

#[test]
fn a_session_that_ended_is_released_and_the_pill_painted_before_its_status_is_passed_on() {
    for (event, status) in [(ShellEvent::Status(3), 3), (ShellEvent::Signalled(15), 143)] {
        let (task, _) = opened(None, &[0]);
        let next = step(&None, task, event);
        assert!(matches!(&next.task, ShellTask::Release { id, user: Some(user), .. } if id == "id" && user == "vscode"));
        let next = step(&None, next.task, ShellEvent::Released);
        assert!(matches!(&next.task, ShellTask::PaintExit { id, .. } if id == "id"));
        let next = step(&None, next.task, ShellEvent::Painted);
        assert!(matches!(next.task, ShellTask::Exit(code) if code == status));
    }
}

#[test]
fn a_session_that_failed_is_not_released_but_repainted() {
    let (task, _) = opened(None, &[0]);
    let next = step(&None, task, ShellEvent::Failed("gone".to_string()));
    assert!(matches!(next.task, ShellTask::PaintExit { .. }));
    let next = step(&None, next.task, ShellEvent::Painted);
    assert!(matches!(next.task, ShellTask::Fail(e) if e == "gone"));
}

#[test]
fn a_failed_secret_ends_the_session_before_it_starts() {
    let task = ShellTask::ResolveSecrets {
        id: "id".to_string(),
        user: None,
        workdir: "/w".to_string(),
        shell: ShellChoice::Sh,
    };
    let next = step(&None, task, ShellEvent::Failed("TOKEN".to_string()));
    assert!(matches!(next.task, ShellTask::Fail(e) if e == "TOKEN"));
}

#[test]
fn no_running_container_opens_nothing() {
    let next = step(
        &None,
        ShellTask::ListContainers,
        ShellEvent::Listed(vec![container(ContainerState::Stopped)]),
    );
    assert!(matches!(next.task, ShellTask::FailNoContainer));
}

#[test]
fn a_sweep_that_failed_is_only_warned_of() {
    let task = ShellTask::Sweep { call: call(), shell: ShellChoice::Sh };
    let next = step(&None, task, ShellEvent::Failed("no".to_string()));
    assert_eq!(
        next.notice.unwrap().text(),
        Some("Warning: could not check for orphaned sessions: no".to_string())
    );
    assert!(matches!(next.task, ShellTask::PaintEntry { .. }));
    assert_eq!(ShellNotice::Swept(0).text(), None);
}
