use dev_cli::cmux::agent::{
    installed_agents, is_event_name, mint_token, parse_header, parse_probe, prepare_container, probe_command,
    probe_script, relay_env, reply, reply_header, verb_allowed, write_verbs, Agent, Answer, PrepareStep, Request,
    PROTOCOL, SHIM_PATH, SOCKET_PATH, SOCKET_SCRIPT,
};
use dev_cli::model::ExecResult;

const TOKEN: &str = "abc123";

/// The name of the agent that is served.
const SERVED: &str = "served-agent";

fn header(line: &str) -> Option<(usize, usize)> {
    parse_header(line, TOKEN)
}

fn args(parts: &[&str]) -> Vec<String> {
    parts.iter().map(|s| s.to_string()).collect()
}

fn allowed(parts: &[&str]) -> bool {
    verb_allowed(&args(parts), SERVED)
}

#[test]
fn header_parses_a_well_formed_request() {
    assert_eq!(header("dev-cmux/1 abc123 3 86"), Some((3, 86)));
}

#[test]
fn header_refuses_a_wrong_token() {
    assert_eq!(header("dev-cmux/1 nope 3 86"), None);
}

#[test]
fn header_refuses_another_protocol_version() {
    assert_eq!(header("dev-cmux/2 abc123 3 86"), None);
    assert_eq!(header("dev-cmux abc123 3 86"), None);
}

#[test]
fn header_refuses_counts_it_will_not_read() {
    assert_eq!(header("dev-cmux/1 abc123 0 0"), None);
    assert_eq!(header("dev-cmux/1 abc123 9 0"), None);
    assert_eq!(header("dev-cmux/1 abc123 1 1048577"), None);
    assert_eq!(header("dev-cmux/1 abc123 1 -1"), None);
}

#[test]
fn header_reads_counts_up_to_their_limits() {
    assert_eq!(header("dev-cmux/1 abc123 1 0"), Some((1, 0)));
    assert_eq!(header("dev-cmux/1 abc123 8 1048576"), Some((8, 1048576)));
    assert_eq!(header("dev-cmux/1 abc123 99999999999999999999 0"), None);
    assert_eq!(header("dev-cmux/1 abc123  1 0"), None);
}

#[test]
fn header_refuses_trailing_fields() {
    assert_eq!(header("dev-cmux/1 abc123 1 0 extra"), None);
}

#[test]
fn allowlist_admits_ping_and_claude_hooks() {
    assert!(allowed(&["ping"]));
    assert!(allowed(&["hooks", SERVED, "session-start"]));
    assert!(allowed(&["hooks", SERVED, "pre-tool-use"]));
    assert!(allowed(&["hooks", "feed", "--source", SERVED]));
}

#[test]
fn allowlist_refuses_codex_inject_args() {
    assert!(!allowed(&["hooks", "codex", "inject-args"]));
    assert!(!allowed(&["hooks", "codex"]));
    assert!(!allowed(&["hooks", "codex", "session-start"]));
}

#[test]
fn allowlist_refuses_every_verb_that_writes_on_the_host() {
    let agents = [
        SERVED,
        "codex",
        "grok",
        "opencode",
        "pi",
        "omp",
        "campfire",
        "amp",
        "cursor",
        "gemini",
        "kiro",
        "antigravity",
        "rovodev",
        "hermes-agent",
        "copilot",
        "codebuddy",
        "factory",
        "qoder",
    ];
    for agent in agents {
        for verb in write_verbs() {
            assert!(
                !allowed(&["hooks", agent, &verb]),
                "hooks {agent} {verb} must be refused"
            );
            assert!(
                !allowed(&["hooks", agent, &verb, "--yes"]),
                "hooks {agent} {verb} --yes must be refused"
            );
        }
    }
    assert!(!allowed(&["hooks", "setup"]));
    assert!(!allowed(&["hooks", "uninstall", SERVED]));
}

#[test]
fn a_write_verb_still_looks_like_an_event_name() {
    for verb in write_verbs() {
        assert!(is_event_name(&verb), "{verb} passes the shape check");
        assert!(!allowed(&["hooks", SERVED, &verb]));
    }
}

#[test]
fn the_probe_reads_back_only_agents_the_wrappers_cover() {
    assert_eq!(parse_probe("served-agent\n", SERVED), [SERVED]);
    assert!(parse_probe("", SERVED).is_empty());
    assert!(parse_probe("Welcome to Ubuntu\ncodex\ngrok\nsudo\n", SERVED).is_empty());
    assert_eq!(parse_probe("hello\n  served-agent \r\nserved-agent\n", SERVED), [SERVED]);
}

#[test]
fn allowlist_refuses_every_other_verb() {
    assert!(!allowed(&["set-status", "dev_build", "owned"]));
    assert!(!allowed(&["notify", "--title", "x", "--body", "y"]));
    assert!(!allowed(&["hooks", "codex", "session-start"]));
    assert!(!allowed(&["hooks", "feed", "--source", "codex"]));
    assert!(!allowed(&["ping", "--socket", "/elsewhere"]));
    assert!(!allowed(&[]));
}

#[test]
fn event_names_are_shape_checked_not_listed() {
    assert!(is_event_name("session-end"));
    assert!(!is_event_name(""));
    assert!(!is_event_name("-leading"));
    assert!(!is_event_name("trailing-"));
    assert!(!is_event_name("double--dash"));
    assert!(!is_event_name("Session-Start"));
    assert!(!is_event_name("../../etc/passwd"));
    assert!(!is_event_name("session start"));
}

#[test]
fn event_names_have_at_most_forty_characters() {
    assert!(is_event_name("a".repeat(40).as_str()));
    assert!(!is_event_name("a".repeat(41).as_str()));
    assert!(!is_event_name("é"));
}

fn exchange(lines: &[&str]) -> Option<(Answer, usize)> {
    let mut request = Request::open(lines[0], TOKEN)?;
    let mut next = 1;
    while request.wants_arg() {
        request.push_arg(lines.get(next).copied().unwrap_or(""));
        next += 1;
    }
    Some((request.answer(SERVED), request.body_len()))
}

#[test]
fn a_ping_is_answered_without_running_anything() {
    let opened = format!("{PROTOCOL} {TOKEN} 1 0\n");
    assert_eq!(exchange(&[&opened, "ping\n"]), Some((Answer::Pong, 0)));
    assert_eq!(reply_header(0), "ok 0\n");
    assert_eq!(reply(Answer::Pong, None).as_deref(), Some(&b"ok 0\n"[..]));
    assert_eq!(reply(Answer::Pong, Some(b"x".to_vec())).as_deref(), Some(&b"ok 0\n"[..]));
}

#[test]
fn a_wrong_token_gets_no_reply() {
    let opened = format!("{PROTOCOL} wrong-token 1 0\n");
    assert_eq!(exchange(&[&opened, "ping\n"]), None);
    assert_eq!(exchange(&[""]), None);
}

#[test]
fn a_refused_verb_gets_no_reply() {
    let opened = format!("{PROTOCOL} {TOKEN} 3 0\n");
    assert_eq!(
        exchange(&[&opened, "set-status\n", "dev_build\n", "owned\n"]),
        Some((Answer::Refuse, 0))
    );
    assert_eq!(reply(Answer::Refuse, Some(b"x".to_vec())), None);
}

#[test]
fn a_hook_is_run_with_its_body() {
    let opened = format!("{PROTOCOL} {TOKEN} 3 86\n");
    assert_eq!(
        exchange(&[&opened, "hooks\n", "served-agent\n", "session-start\n"]),
        Some((Answer::Forward, 86))
    );
    let mut request = Request::open(&opened, TOKEN).unwrap();
    request.push_arg("hooks\n");
    request.push_arg("with return\r\n");
    assert_eq!(request.arguments(), &args(&["hooks", "with return\r"]));
    assert_eq!(reply_header(1042), "ok 1042\n");
    assert_eq!(
        reply(Answer::Forward, Some(b"{\"a\":1}\n".to_vec())).as_deref(),
        Some(&b"ok 8\n{\"a\":1}\n"[..])
    );
    assert_eq!(reply(Answer::Forward, Some(vec![0xff; 12])).unwrap()[..6], *b"ok 12\n");
    assert_eq!(reply(Answer::Forward, None), None);
}

#[test]
fn the_container_is_handed_a_reachable_address_and_the_session_token() {
    let env: std::collections::HashMap<_, _> = relay_env(51482, "a".repeat(64).as_str(), &None, &None)
        .into_iter()
        .map(|(k, v)| (k, v.expose().to_string()))
        .collect();
    assert_eq!(env["DEV_CMUX_RELAY"], "host.docker.internal:51482");
    assert_eq!(env["DEV_CMUX_TOKEN"].len(), 64);
    assert_eq!(env["CMUX_SOCKET_PATH"], SOCKET_PATH);
    assert_eq!(env["CMUX_BUNDLED_CLI_PATH"], SHIM_PATH);
    assert_eq!(env.len(), 4);
}

#[test]
fn the_hosts_ids_are_handed_on_where_there_are_any() {
    let env = relay_env(1, "t", &Some("surface".to_string()), &Some("space".to_string()));
    let shown: Vec<(String, String)> = env
        .into_iter()
        .map(|(k, v)| (k, v.expose().to_string()))
        .collect();
    assert_eq!(shown[4], ("CMUX_SURFACE_ID".to_string(), "surface".to_string()));
    assert_eq!(shown[5], ("CMUX_WORKSPACE_ID".to_string(), "space".to_string()));
}

#[test]
fn tokens_differ_between_sessions() {
    let first = mint_token(&vec![0u8; 32]);
    assert_eq!(first.len(), 64);
    let mut other = vec![0u8; 32];
    other[31] = 0xaf;
    assert_ne!(first, mint_token(&other));
    assert!(mint_token(&other).ends_with("00af"));
    assert_eq!(mint_token(&vec![0x0f, 0xa0]), "0fa0");
}

#[test]
fn the_probe_asks_a_login_shell_for_the_shim_and_the_agent() {
    let script = probe_script(SERVED);
    assert!(script.starts_with("test -x /usr/local/share/dev-cmux/bin/cmux || exit 1\nfor a in served-agent; do\n"));
    assert!(script.contains("[ \"$d\" = /usr/local/share/dev-cmux/bin ] && continue\n"));
    assert!(script.contains("printf '%s\\n' \"$a\"; break; fi\n"));
    assert!(script.ends_with("exit 0\n"));
    assert_eq!(
        probe_command(SERVED),
        vec!["sh".to_string(), "-lc".to_string(), script, "dev-cmux".to_string()]
    );
}

fn ran(exit_code: i32, stdout: &str) -> Option<ExecResult> {
    Some(ExecResult { exit_code, stdout: stdout.to_string(), stderr: String::new() })
}

#[test]
fn an_agent_counts_only_where_the_probe_succeeded_and_named_it() {
    assert_eq!(installed_agents(&ran(0, "served-agent\n"), SERVED), Some(args(&[SERVED])));
    assert_eq!(installed_agents(&ran(1, "served-agent\n"), SERVED), None);
    assert_eq!(installed_agents(&ran(0, "codex\n"), SERVED), None);
    assert_eq!(installed_agents(&None, SERVED), None);
}

#[test]
fn a_container_is_prepared_with_the_wrapper_and_then_the_socket() {
    let agent = Agent { name: SERVED.to_string(), wrapper: "its-wrapper".to_string() };
    let target = "/usr/local/share/dev-cmux/bin/served-agent".to_string();
    let socket = PrepareStep::Run(args(&["perl", "-e", SOCKET_SCRIPT, "--", SOCKET_PATH]));
    assert_eq!(
        prepare_container(&args(&[SERVED]), &agent),
        vec![
            PrepareStep::CopyWrapper("its-wrapper".to_string(), target.clone()),
            PrepareStep::Run(args(&["chmod", "+x", &target])),
            PrepareStep::Run(args(&["perl", "-e", SOCKET_SCRIPT, "--", SOCKET_PATH])),
        ]
    );
    assert_eq!(prepare_container(&args(&["codex"]), &agent), vec![socket]);
}
