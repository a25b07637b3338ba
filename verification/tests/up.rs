use dev_cli::json::project_declares_run_args;
use dev_cli::model::{
    ContainerInfo, ContainerState, DevcontainerConfig, DotfilesConfig, ExecResult, LifecycleCommand, PortEntry,
    PortMapping,
};
use dev_cli::up::compose::{
    compose_env, compose_hooks_owed, short_id, up_files, workspace_target, ComposeAction, ComposeEvent, ComposeHooks,
    ComposeNotice, ComposeRequest, ComposeStage,
};
use dev_cli::up::container::{container_config, WorkspaceMount};
use dev_cli::up::features::{
    dependencies_notice, download_notices, order_notices, step as feature_step, FeatureAction, FeatureEvent,
    FeatureName, FeatureStage,
};
use dev_cli::up::flow::{start, step, Failure, Stage, Up, UpAction, UpEvent, UpRequest};
use dev_cli::up::host::{
    clone_dotfiles, dotfiles_cloned, dotfiles_installed, ensure_image_present, feature_entrypoints,
    feature_mount_strings, InitializeRun, ResolvedFeature,
};
use dev_cli::up::mounts::{
    mount_warnings, parse_mounts, parse_single_mount, parse_volumes, substitute_mounts, volume_warnings,
};
use dev_cli::up::notices::{label_filters, mounting_notice};
use dev_cli::up::ports::{
    apply_cli_overrides, caddy_ports_from_config, merge_caddy_ports, parse_port_overrides,
};
use dev_cli::up::run_args::{
    apply_run_args_capabilities, reject_project_run_args_for_compose, reject_run_args_unsupported_by_runtime,
    MergedCapabilities, ResolvedRunArgs,
};
use dev_cli::up::secrets::{
    apply_secrets_to_env, create_time_entries, created_env, read_secrets_file, reject_secrets_file_for_compose,
    reject_secrets_for_compose, reject_secrets_override_for_compose, secrets_file_entries, unreadable_secrets_file,
    SecretRef, SecretValue, ValidatedSecrets,
};

fn texts(parts: &[&str]) -> Vec<String> {
    parts.iter().map(|s| s.to_string()).collect()
}

fn image_config() -> DevcontainerConfig {
    DevcontainerConfig { image: Some("ubuntu:24.04".to_string()), ..Default::default() }
}

fn compose_config() -> DevcontainerConfig {
    DevcontainerConfig {
        docker_compose_file: Some(texts(&["compose.yml"])),
        service: Some("app".to_string()),
        ..Default::default()
    }
}

fn forwarding(ports: &[(u16, u16)]) -> DevcontainerConfig {
    let mut config = image_config();
    config.forward_ports = Some(
        ports
            .iter()
            .map(|(host, container)| PortMapping { host: *host, container: *container })
            .collect(),
    );
    config
}

fn named(pairs: &[(&str, &str)]) -> Vec<(String, String)> {
    pairs.iter().map(|(k, v)| (k.to_string(), v.to_string())).collect()
}

// --- ports ---

#[test]
fn cli_port_overrides_apply_last() {
    let mut config = forwarding(&[(8080, 8080), (3000, 3000)]);

    apply_cli_overrides(&mut config, &vec!["9090:90".to_string(), "7070".to_string()]).unwrap();

    let ports = config.forward_ports.unwrap();
    assert_eq!(ports.len(), 2);
    assert_eq!(ports[0].host, 9090);
    assert_eq!(ports[0].container, 90);
    assert_eq!(ports[1].host, 7070);
    assert_eq!(ports[1].container, 7070);
}

#[test]
fn no_port_overrides_leave_the_configuration() {
    let mut config = forwarding(&[(3000, 3000)]);
    apply_cli_overrides(&mut config, &vec![]).unwrap();
    assert_eq!(config, forwarding(&[(3000, 3000)]));
}

#[test]
fn a_port_that_is_no_port_is_refused() {
    for wrong in ["x", "80:x", "70000", "1:2:3", "-1"] {
        assert!(parse_port_overrides(&texts(&[wrong])).is_err(), "{wrong}");
    }
    assert_eq!(
        parse_port_overrides(&texts(&[" 80 ", ""])),
        Ok(vec![PortMapping { host: 80, container: 80 }])
    );
}

#[test]
fn caddy_ports_map_declared_forward_ports_by_host() {
    let ports = caddy_ports_from_config(&forwarding(&[(9090, 90), (7070, 7070)]));

    assert_eq!(ports.len(), 2);
    assert_eq!(ports[0].port, 9090);
    assert_eq!(ports[1].port, 7070);
    assert!(ports.iter().all(|p| p.custom_name.is_none()));
}

#[test]
fn caddy_ports_take_hostnames_from_the_config_caddy_map() {
    let mut config = forwarding(&[(5247, 5247), (5163, 5163), (5001, 5001)]);
    config.caddy = Some(named(&[("5247", "chuckos"), ("5163", "api.chuckos")]));

    let ports = caddy_ports_from_config(&config);

    assert_eq!(ports[0].custom_name.as_deref(), Some("chuckos.test"));
    assert_eq!(ports[1].custom_name.as_deref(), Some("api.chuckos.test"));
    assert!(ports[2].custom_name.is_none());
}

#[test]
fn caddy_map_keys_are_host_ports_not_container_ports() {
    let mut config = forwarding(&[(3001, 3000)]);
    config.caddy = Some(named(&[("3000", "wrong"), ("3001", "right")]));

    let ports = caddy_ports_from_config(&config);

    assert_eq!(ports[0].port, 3001);
    assert_eq!(ports[0].custom_name.as_deref(), Some("right.test"));
}

#[test]
fn caddy_ports_empty_without_forward_ports() {
    assert!(caddy_ports_from_config(&image_config()).is_empty());
}

#[test]
fn merge_caddy_ports_unions_and_sorts_disjoint_entries() {
    let declared = vec![PortEntry { port: 3000, custom_name: None, keepalive: None }];
    let active = vec![PortEntry {
        port: 8080,
        custom_name: Some("admin.myapp.test".to_string()),
        keepalive: None,
    }];

    let merged = merge_caddy_ports(declared, active);

    assert_eq!(merged.len(), 2);
    assert_eq!(merged[0].port, 3000);
    assert_eq!(merged[1].port, 8080);
    assert_eq!(merged[1].custom_name.as_deref(), Some("admin.myapp.test"));
}

#[test]
fn merge_caddy_ports_prefers_live_entry_on_conflict() {
    let declared = vec![PortEntry { port: 3000, custom_name: None, keepalive: None }];
    let active = vec![PortEntry {
        port: 3000,
        custom_name: Some("web.myapp.test".to_string()),
        keepalive: Some("30s".to_string()),
    }];

    let merged = merge_caddy_ports(declared, active);

    assert_eq!(merged.len(), 1);
    assert_eq!(merged[0].port, 3000);
    assert_eq!(merged[0].custom_name.as_deref(), Some("web.myapp.test"));
    assert_eq!(merged[0].keepalive.as_deref(), Some("30s"));
}

#[test]
fn merge_caddy_ports_empty_when_nothing_declared_or_active() {
    assert!(merge_caddy_ports(vec![], vec![]).is_empty());
}

// --- what Compose projects cannot have ---

#[test]
fn compose_runargs_from_inherited_layers_are_not_rejected_as_project_declared() {
    let mut config = compose_config();
    config.run_args = Some(texts(&["--init"]));

    reject_project_run_args_for_compose(&config, false)
        .expect("inherited runArgs are ignored on the Compose path");

    config.run_args = Some(vec![]);
    reject_project_run_args_for_compose(&config, true)
        .expect("an empty project runArgs array is not actionable");
}

#[test]
fn compose_runargs_declared_by_project_are_rejected_with_service_guidance() {
    let mut config = compose_config();
    config.run_args = Some(texts(&["--init"]));

    let msg = reject_project_run_args_for_compose(&config, true).unwrap_err();

    assert!(msg.contains("runArgs"), "{msg}");
    assert!(msg.contains("Compose service"), "{msg}");
}

fn secrets(entries: &[(&str, bool)]) -> ValidatedSecrets {
    ValidatedSecrets {
        source: Some("/ws/.devcontainer/secrets.json".to_string()),
        entries: entries
            .iter()
            .map(|(key, create_time)| SecretRef { key: key.to_string(), create_time: *create_time })
            .collect(),
    }
}

#[test]
fn compose_project_with_create_time_secrets_is_rejected_with_compose_guidance() {
    let secrets = secrets(&[("TOKEN", true)]);

    let msg = reject_secrets_for_compose(&compose_config(), &secrets).unwrap_err();

    assert!(msg.contains("TOKEN"), "error should name the key: {msg}");
    assert!(
        msg.contains("/ws/.devcontainer/secrets.json"),
        "error should name the discovered file: {msg}"
    );
    assert!(msg.contains("Compose"), "{msg}");
    assert!(
        msg.contains("createTime"),
        "error should point at the way out: {msg}"
    );
}

#[test]
fn compose_project_with_exec_time_only_secrets_is_allowed() {
    reject_secrets_for_compose(&compose_config(), &secrets(&[("TOKEN", false)]))
        .expect("an exec-time-only secret is injected on a path Compose shares");
}

#[test]
fn compose_rejection_names_only_the_create_time_keys() {
    let secrets = secrets(&[("AT_CREATE", true), ("AT_EXEC", false)]);
    let msg = reject_secrets_for_compose(&compose_config(), &secrets).unwrap_err();

    assert!(msg.contains("AT_CREATE"), "{msg}");
    assert!(
        !msg.contains("AT_EXEC"),
        "an exec-time key is not what is being refused: {msg}"
    );
    assert_eq!(create_time_entries(&secrets), vec!["AT_CREATE"]);
}

#[test]
fn compose_project_without_secrets_is_not_rejected() {
    reject_secrets_for_compose(&compose_config(), &ValidatedSecrets::default())
        .expect("no secrets.json is nothing to reject");
    reject_secrets_for_compose(&compose_config(), &secrets(&[]))
        .expect("an empty secrets map declares nothing");
}

#[test]
fn secrets_are_not_rejected_for_non_compose_configs() {
    reject_secrets_for_compose(&image_config(), &secrets(&[("TOKEN", true)]))
        .expect("the image path resolves secrets rather than rejecting them");
}

#[test]
fn compose_project_with_a_secrets_override_is_rejected() {
    let msg = reject_secrets_override_for_compose(&Some("/w/other-secrets.json".to_string())).unwrap_err();

    assert!(msg.contains("--secrets"), "{msg}");
    assert!(msg.contains("other-secrets.json"), "{msg}");
    assert!(msg.contains("Compose"), "{msg}");

    reject_secrets_override_for_compose(&None).expect("no override is nothing to reject");
}

#[test]
fn compose_project_with_a_secrets_file_is_rejected() {
    let msg = reject_secrets_file_for_compose(&Some("/w/literals.json".to_string())).unwrap_err();
    assert!(msg.contains("Remove `--secrets-file /w/literals.json`"), "{msg}");
    reject_secrets_file_for_compose(&None).expect("no file is nothing to reject");
}

#[test]
fn value_declares_project_run_args_only_for_non_empty_arrays() {
    let document = |text: &str| -> serde_json::Value { serde_json::from_str(text).unwrap() };
    assert!(project_declares_run_args(&document(r#"{"runArgs": ["--init"]}"#)));
    assert!(!project_declares_run_args(&document(r#"{"runArgs": []}"#)));
    assert!(!project_declares_run_args(&document(r#"{"image": "ubuntu"}"#)));
    assert!(!project_declares_run_args(&document(r#"{"runArgs": "--init"}"#)));
}

// --- images ---

#[test]
fn ensure_image_present_skips_pull_when_image_exists() {
    let need = ensure_image_present("localimg:latest", true);
    assert!(!need.pull);
    assert_eq!(need.say, "Using local image 'localimg:latest'...");
}

#[test]
fn ensure_image_present_pulls_when_image_missing() {
    let need = ensure_image_present("remoteimg:latest", false);
    assert!(need.pull);
    assert_eq!(need.say, "Pulling image 'remoteimg:latest'...");
}

// --- mounts ---

#[test]
fn parse_single_mount_accepts_bind_long_form() {
    let m = parse_single_mount("source=./,target=/workspace,type=bind,readonly=true")
        .expect("long-form bind mount should parse");
    assert_eq!(m.source, "./");
    assert_eq!(m.target, "/workspace");
    assert!(m.readonly);
}

#[test]
fn parse_single_mount_accepts_long_form_with_ro() {
    let m = parse_single_mount("source=/host,target=/container,readonly,ro")
        .expect("long-form bind mount with ro keyword should parse");
    assert!(m.readonly);
}

#[test]
fn parse_single_mount_accepts_non_bind_type() {
    let m = parse_single_mount("source=myvol,target=/data,type=volume")
        .expect("non-bind mount should still parse (type is ignored)");
    assert_eq!(m.source, "myvol");
    assert_eq!(m.target, "/data");
    assert!(!m.readonly);
}

#[test]
fn volume_type_mount_is_rendered_not_dropped() {
    let emitted = vec![
        Some("source=myvol,target=/data,type=volume".to_string()),
        Some("source=othervol,target=/cache,type=volume".to_string()),
    ];
    let strings = substitute_mounts(&emitted);
    let mounts = parse_mounts(&strings);
    assert_eq!(mounts.len(), 2, "volume-type mounts must not be dropped");
    assert_eq!(mounts[0].source, "myvol");
    assert_eq!(mounts[0].target, "/data");
    assert!(!mounts[0].readonly);
    assert_eq!(mounts[1].source, "othervol");
    assert_eq!(mounts[1].target, "/cache");
}

#[test]
fn malformed_object_mount_is_skipped_valid_ones_survive() {
    let emitted = vec![None, Some("/host:/container".to_string())];
    let mounts = parse_mounts(&substitute_mounts(&emitted));
    assert_eq!(mounts.len(), 1);
    assert_eq!(mounts[0].target, "/container");
}

#[test]
fn what_is_no_mount_is_warned_of() {
    let strings = texts(&["/a:/b:ro", "nonsense", "source=x"]);
    let mounts = parse_mounts(&strings);
    assert_eq!(mounts.len(), 1);
    assert!(mounts[0].readonly);
    assert_eq!(
        mount_warnings(&strings),
        vec![
            "Warning: could not parse mount string: nonsense",
            "Warning: could not parse mount string: source=x",
        ]
    );
    let volumes = texts(&["cache:/cache:ro", "data:/data", "cache"]);
    let parsed = parse_volumes(&volumes);
    assert_eq!(parsed.len(), 2);
    assert_eq!((parsed[0].name.as_str(), parsed[0].target.as_str(), parsed[0].readonly), ("cache", "/cache", true));
    assert!(!parsed[1].readonly);
    assert_eq!(
        volume_warnings(&volumes),
        vec!["Warning: could not parse volume string (expected name:/path[:ro]): cache"]
    );
}

// --- runArgs ---

fn no_run_args() -> ResolvedRunArgs {
    ResolvedRunArgs {
        env: vec![],
        cap_add: vec![],
        security_opt: vec![],
        userns_mode: None,
        privileged: false,
        init: false,
    }
}

#[test]
fn runargs_capabilities_are_deduplicated_after_feature_capabilities() {
    let mut caps = MergedCapabilities {
        init: false,
        privileged: false,
        cap_add: vec!["SYS_PTRACE".to_string()],
        security_opt: vec!["seccomp=unconfined".to_string()],
    };
    let run_args = ResolvedRunArgs {
        cap_add: vec!["SYS_PTRACE".to_string(), "NET_ADMIN".to_string()],
        security_opt: vec![
            "seccomp=unconfined".to_string(),
            "label=disable".to_string(),
        ],
        ..no_run_args()
    };

    apply_run_args_capabilities(&mut caps, &run_args);

    assert_eq!(caps.cap_add, vec!["SYS_PTRACE", "NET_ADMIN"]);
    assert_eq!(
        caps.security_opt,
        vec!["seccomp=unconfined", "label=disable"]
    );
}

#[test]
fn apple_runtime_accepts_environment_runargs() {
    let env_only = ResolvedRunArgs { env: named(&[("A", "1")]), ..no_run_args() };
    reject_run_args_unsupported_by_runtime("apple", &env_only).unwrap();
    let more = ResolvedRunArgs { init: true, cap_add: texts(&["NET_ADMIN"]), ..no_run_args() };
    let msg = reject_run_args_unsupported_by_runtime("apple", &more).unwrap_err();
    assert!(msg.contains("--init"), "{msg}");
    assert!(msg.contains("--cap-add"), "{msg}");
    reject_run_args_unsupported_by_runtime("docker", &more).unwrap();
}

// --- the environment ---

fn secret(name: &str, value: &str) -> (String, SecretValue) {
    (name.to_string(), SecretValue::new(value))
}

fn value<'a>(env: &'a Vec<(String, String)>, name: &str) -> Option<&'a str> {
    env.iter().find(|(k, _)| k == name).map(|(_, v)| v.as_str())
}

#[test]
fn apply_secrets_to_env_overwrites_existing_key() {
    let mut env = named(&[("TOKEN", "from-env-file")]);
    apply_secrets_to_env(&mut env, &vec![secret("TOKEN", "resolved-value")]);
    assert_eq!(value(&env, "TOKEN"), Some("resolved-value"));

    apply_secrets_to_env(&mut env, &vec![secret("TOKEN", "literal-value")]);
    assert_eq!(value(&env, "TOKEN"), Some("literal-value"));
    assert_eq!(env.len(), 1);
}

#[test]
fn each_tier_of_the_environment_outranks_the_ones_before() {
    let env = created_env(
        &named(&[("A", "container"), ("B", "container"), ("C", "container"), ("D", "container"), ("E", "container")]),
        &named(&[("B", "remote"), ("C", "remote"), ("D", "remote"), ("E", "remote")]),
        &vec![secret("C", "file"), secret("D", "file"), secret("E", "file")],
        &named(&[("D", "run"), ("E", "run")]),
        &vec![secret("E", "resolved")],
    );
    assert_eq!(value(&env, "REMOTE_CONTAINERS"), Some("true"));
    for (name, expected) in [("A", "container"), ("B", "remote"), ("C", "file"), ("D", "run"), ("E", "resolved")] {
        assert_eq!(value(&env, name), Some(expected), "{name}");
    }
}

// --- the secrets file ---

const PATH: &str = "/tmp/literals.json";

fn load_with(bytes: &[u8], problem: impl Fn(&str) -> Option<String>) -> Result<Vec<(String, SecretValue)>, String> {
    let members = read_secrets_file(PATH, &bytes.to_vec())?;
    let problems = members.iter().map(|m| problem(&m.key)).collect();
    secrets_file_entries(PATH, &members, &problems)
}

fn name_problem(name: &str) -> Option<String> {
    if name.is_empty() {
        Some("it is empty".to_string())
    } else if name.contains('=') {
        Some("contains `=`".to_string())
    } else if name.chars().any(char::is_whitespace) {
        Some("contains whitespace".to_string())
    } else {
        None
    }
}

fn refusal(body: &str) -> String {
    match load_with(body.as_bytes(), name_problem) {
        Ok(_) => panic!("`{body}` must be rejected"),
        Err(message) => message,
    }
}

#[test]
fn secrets_file_loads_every_entry_as_a_literal() {
    let loaded = match load_with(br#"{"ONE":"first","TWO":"op://Private/x/y"}"#, name_problem) {
        Ok(loaded) => loaded,
        Err(message) => panic!("a flat string map must load: {message}"),
    };
    assert_eq!(loaded.len(), 2);
    assert_eq!(loaded[0].0, "ONE");
    assert_eq!(loaded[0].1.expose(), "first");
    assert_eq!(
        loaded[1].1.expose(),
        "op://Private/x/y",
        "a value that looks like a reference is still a literal"
    );
}

#[test]
fn secrets_file_empty_object_is_valid_and_empty() {
    assert!(matches!(load_with(b"{}", name_problem), Ok(loaded) if loaded.is_empty()));
}

#[test]
fn secrets_file_rejects_bad_documents_without_echoing_values() {
    let cases: &[(&str, &str, &str)] = &[
        (
            r#"{"version":1,"secrets":{"K":"op://a/b/c"}}"#,
            "secrets",
            "op://a/b/c",
        ),
        (
            r#"["sentinel-alpha","sentinel-beta"]"#,
            "must be a JSON object",
            "sentinel-alpha",
        ),
        (
            r#""just-a-string""#,
            "must be a JSON object",
            "just-a-string",
        ),
        (r#"{"PIN":1234}"#, "PIN", "1234"),
        (r#"{"BAD KEY":"v"}"#, "BAD KEY", "v\""),
        (
            r#"{"":"v"}"#,
            "not a valid environment variable name",
            "v\"",
        ),
        (r#"{"A=B":"v"}"#, "A=B", "v\""),
        ("{\"A\u{a0}B\":\"v\"}", "contains whitespace", "v\""),
        (r#"{"K":"#, "not valid JSON", "K\":"),
    ];
    for (body, expected, forbidden) in cases {
        let msg = refusal(body);
        assert!(msg.contains(expected), "`{body}` gave: {msg}");
        assert!(!msg.contains(forbidden), "`{body}` leaked content: {msg}");
    }
}

#[test]
fn secrets_file_non_utf8_names_the_path_only() {
    let bytes = [0x7b, 0x22, 0xff, 0xfe, 0x22, 0x7d];
    match load_with(&bytes, name_problem) {
        Ok(_) => panic!("non-UTF-8 must be rejected"),
        Err(msg) => {
            assert!(msg.contains("literals.json"), "{msg}");
            assert!(msg.contains("not valid UTF-8"), "{msg}");
        }
    }
    assert_eq!(
        unreadable_secrets_file(PATH, "gone"),
        "failed to read `--secrets-file` `/tmp/literals.json`: gone"
    );
}

// --- Compose ---

#[test]
fn compose_hooks_follow_what_was_there_before_up() {
    let cases = [
        (false, false, false, ComposeHooks::Create),
        (false, true, false, ComposeHooks::Start),
        (true, true, false, ComposeHooks::Nothing),
        (true, true, true, ComposeHooks::Create),
        (false, true, true, ComposeHooks::Create),
    ];
    for (running, existed, rebuild, expected) in cases {
        assert_eq!(
            compose_hooks_owed(running, existed, rebuild),
            expected,
            "running={running} existed={existed} rebuild={rebuild}"
        );
    }
}

#[test]
fn compose_files_are_used_as_they_were_rewritten() {
    assert_eq!(
        up_files(&texts(&["a.yml", "b.yml"]), &vec![None, Some("/tmp/b.yml".to_string())], "/tmp/o.yml"),
        vec!["a.yml", "/tmp/b.yml", "/tmp/o.yml"]
    );
    assert_eq!(short_id("0123456789abcdef"), "0123456789ab");
    assert_eq!(short_id("0123"), "0123");
    assert_eq!(workspace_target(&None, "app"), "/workspaces/app");
    assert_eq!(
        compose_env("/src".to_string(), "app".to_string(), "/workspaces/app".to_string()),
        named(&[
            ("localWorkspaceFolder", "/src"),
            ("localWorkspaceFolderBasename", "app"),
            ("containerWorkspaceFolder", "/workspaces/app"),
        ])
    );
}

#[test]
fn a_compose_project_is_ready_only_after_its_service_was_verified() {
    let req = ComposeRequest { config: compose_config(), rebuild: false };
    let mut stage = ComposeStage::Start;
    let mut events = vec![
        ComposeEvent::Begin,
        ComposeEvent::Done,
        ComposeEvent::Image("base".to_string()),
        ComposeEvent::Found(false),
        ComposeEvent::User(Some("vscode".to_string())),
        ComposeEvent::Image("base".to_string()),
        ComposeEvent::Done,
        ComposeEvent::Found(false),
        ComposeEvent::Found(true),
        ComposeEvent::Done,
        ComposeEvent::Container("0123456789abcdef".to_string()),
        ComposeEvent::Done,
    ]
    .into_iter();
    let mut actions = vec![];
    while let Some(event) = events.next() {
        let (next, said) = dev_cli::up::compose::step(&req, stage, event);
        stage = next;
        actions.push(said.action);
    }
    assert!(matches!(actions[7], ComposeAction::FindExisting));
    assert!(matches!(actions[9], ComposeAction::FindContainer));
    assert!(matches!(&actions[10], ComposeAction::VerifyService(id, Some(user)) if id == "0123456789abcdef" && user == "vscode"));
    assert!(matches!(&actions[11], ComposeAction::RunStartHooks(_, Some(user)) if user == "vscode"));
    let (stage, _) = dev_cli::up::compose::step(&req, stage, ComposeEvent::Done);
    let (_, said) = dev_cli::up::compose::step(&req, stage, ComposeEvent::Done);
    assert_eq!(
        said.notice.map(|n: ComposeNotice| n.text()),
        Some("Compose service 'app' is ready (container 0123456789ab).".to_string())
    );
}

// --- the order of things ---

fn request(config: DevcontainerConfig) -> UpRequest {
    UpRequest {
        config,
        project_declared_run_args: false,
        runtime_name: "docker".to_string(),
        name: "vsc-app".to_string(),
        labels: named(&[
            ("devcontainer.local_folder", "/ws"),
            ("devcontainer.config_file", "/ws/devcontainer.json"),
        ]),
        rebuild: false,
        no_cache: false,
        port_overrides: false,
        secrets_file: None,
        secrets_override: None,
    }
}

fn container(state: ContainerState) -> ContainerInfo {
    ContainerInfo {
        id: "c1".to_string(),
        name: "vsc-app".to_string(),
        state,
        labels: vec![],
        image: "ubuntu:24.04".to_string(),
    }
}

/// The state and the action after these events.
fn after(req: &UpRequest, events: Vec<UpEvent>) -> (Up, UpAction) {
    let mut up = start();
    let mut last = UpAction::Finish;
    for event in events {
        let (next, said) = step(req, up, event);
        up = next;
        last = said.action;
    }
    (up, last)
}

fn to_the_listing() -> Vec<UpEvent> {
    vec![
        UpEvent::Begin,
        UpEvent::RunArgsResolved(no_run_args()),
        UpEvent::SecretsValidated(ValidatedSecrets::default()),
    ]
}

#[test]
fn a_running_container_is_verified_before_it_is_used_again() {
    let req = request(image_config());
    let mut events = to_the_listing();
    events.push(UpEvent::Listed(vec![container(ContainerState::Running)]));
    assert!(matches!(after(&req, events).1, UpAction::ResolveUser(image) if image == "ubuntu:24.04"));
    let mut events = to_the_listing();
    events.push(UpEvent::Listed(vec![container(ContainerState::Running)]));
    events.push(UpEvent::UserFound(Some("vscode".to_string())));
    events.push(UpEvent::FolderFound("/w".to_string()));
    match after(&req, events).1 {
        UpAction::VerifyUsable(id, run_as) => {
            assert_eq!(id, "c1");
            assert_eq!(run_as.user.as_deref(), Some("vscode"));
            assert_eq!(run_as.workdir, "/w");
        }
        _ => panic!("the container is checked"),
    }
}

#[test]
fn a_stopped_container_is_started_again() {
    let req = request(image_config());
    let mut events = to_the_listing();
    events.push(UpEvent::Listed(vec![container(ContainerState::Stopped)]));
    assert!(matches!(after(&req, events).1, UpAction::StartContainer(id) if id == "c1"));
}

#[test]
fn a_rebuild_replaces_the_container() {
    let mut req = request(image_config());
    req.rebuild = true;
    let mut events = to_the_listing();
    events.push(UpEvent::Listed(vec![container(ContainerState::Running)]));
    assert!(matches!(after(&req, events).1, UpAction::StopContainer(_)));
    let mut events = to_the_listing();
    events.push(UpEvent::Listed(vec![container(ContainerState::Running)]));
    events.push(UpEvent::Done);
    assert!(matches!(after(&req, events).1, UpAction::RemoveContainer(_)));
}

#[test]
fn a_new_container_is_created_started_and_verified() {
    let req = request(image_config());
    let mut events = to_the_listing();
    events.extend([
        UpEvent::Listed(vec![]),
        UpEvent::Listed(vec![]),
        UpEvent::FeaturesResolved(None),
        UpEvent::Done,
        UpEvent::UserFound(None),
        UpEvent::Remapped("ubuntu:24.04".to_string()),
        UpEvent::Done,
        UpEvent::FolderFound("/w".to_string()),
        UpEvent::Created("c2".to_string()),
        UpEvent::Done,
    ]);
    let (up, action) = after(&req, events);
    assert!(matches!(action, UpAction::VerifyUsable(id, run_as) if id == "c2" && run_as.workdir == "/w"));
    assert!(matches!(up.stage, Stage::CreateVerify { .. }));
}

#[test]
fn what_a_compose_project_cannot_have_is_refused_first() {
    let mut req = request(compose_config());
    req.secrets_file = Some("/w/literals.json".to_string());
    let (up, action) = after(&req, vec![UpEvent::Begin]);
    assert!(matches!(up.stage, Stage::Ended));
    match action {
        UpAction::Fail(failure) => {
            assert!(matches!(failure, Failure::SecretsFileOnCompose));
            assert!(failure.message(&req).contains("/w/literals.json"));
        }
        _ => panic!("the flag is refused"),
    }
}

#[test]
fn containers_are_found_by_their_labels() {
    assert_eq!(
        label_filters(&named(&[("a", "1"), ("b", "2")])),
        vec!["a=1", "b=2"]
    );
    assert_eq!(mounting_notice(0), None);
    assert_eq!(mounting_notice(2), Some("Mounting 2 bind mount(s)...".to_string()));
}

// --- the host's part ---

#[test]
fn the_hosts_commands_stop_at_the_first_that_fails() {
    let commands = LifecycleCommand::Multiple(texts(&["one", "two", "three"]));
    let mut run = InitializeRun::new(&commands);
    assert_eq!(run.next().as_deref(), Some("one"));
    run.exited(true, Some(0)).unwrap();
    assert_eq!(run.next().as_deref(), Some("two"));
    assert_eq!(
        run.exited(false, Some(3)),
        Err("initializeCommand failed (exit 3): two".to_string())
    );
    assert_eq!(
        run.exited(false, None),
        Err("initializeCommand failed (exit -1): two".to_string())
    );
}

#[test]
fn dotfiles_are_cloned_and_then_installed() {
    let dotfiles = DotfilesConfig {
        repository: "https://x/it's".to_string(),
        target_path: None,
        install_command: Some("./install.sh".to_string()),
    };
    let clone = clone_dotfiles(&dotfiles);
    assert_eq!(clone.say.as_deref(), Some("Cloning dotfiles from https://x/it's..."));
    let script = &clone.run.unwrap()[2];
    assert!(script.starts_with(r"git clone --depth 1 'https://x/it'\''s' '~/dotfiles'"), "{script}");
    let result = |exit_code| ExecResult { exit_code, stdout: String::new(), stderr: "no".to_string() };
    let install = dotfiles_cloned(&dotfiles, &result(0));
    assert_eq!(install.say.as_deref(), Some("Running dotfiles install command: ./install.sh"));
    assert_eq!(install.run, Some(texts(&["sh", "-c", "./install.sh"])));
    let failed = dotfiles_cloned(&dotfiles, &result(128));
    assert!(failed.run.is_none());
    assert!(failed.say.unwrap().starts_with("Warning: failed to clone dotfiles"));
    assert!(dotfiles_installed(&result(0)).say.is_none());
    assert!(dotfiles_installed(&result(1)).say.unwrap().contains("dotfiles install command failed"));
}

fn feature(id: &str, entrypoint: Option<&str>, mounts: &[Option<&str>]) -> ResolvedFeature {
    ResolvedFeature {
        id: id.to_string(),
        entrypoint: entrypoint.map(str::to_string),
        mounts: mounts.iter().map(|m| (m.map(str::to_string), "raw".to_string())).collect(),
    }
}

#[test]
fn what_features_contribute_comes_in_install_order_before_the_project() {
    let features = vec![
        feature("one", Some("/one.sh"), &[Some("source=f,target=/f,type=volume"), None]),
        feature("two", None, &[]),
        feature("three", Some("/three.sh"), &[]),
    ];
    assert_eq!(feature_entrypoints(&features), vec!["/one.sh", "/three.sh"]);
    assert_eq!(feature_mount_strings(&features), vec!["source=f,target=/f,type=volume"]);
    let caps = MergedCapabilities { init: true, privileged: false, cap_add: vec![], security_opt: vec![] };
    let config = container_config(
        "image".to_string(),
        "name".to_string(),
        &named(&[("l", "1")]),
        named(&[("A", "1")]),
        &forwarding(&[(3000, 30)]),
        &features,
        &vec![Some("/host:/here".to_string())],
        &texts(&["v:/v"]),
        caps,
        &ResolvedRunArgs { privileged: true, userns_mode: Some("host".to_string()), ..no_run_args() },
        WorkspaceMount { source: "/ws".to_string(), target: "/workspaces/ws".to_string() },
        "/workspaces/ws".to_string(),
    );
    let targets: Vec<&str> = config.mounts.iter().map(|m| m.target.as_str()).collect();
    assert_eq!(targets, ["/f", "/here"]);
    assert_eq!(config.volumes.len(), 1);
    assert_eq!(config.ports, vec![PortMapping { host: 3000, container: 30 }]);
    assert!(config.init && config.privileged);
    assert_eq!(config.userns_mode.as_deref(), Some("host"));
}

#[test]
fn a_failed_feature_build_still_removes_what_was_laid_out() {
    let (stage, action) = feature_step(FeatureStage::Build, FeatureEvent::Failed("no".to_string()));
    assert_eq!(action, FeatureAction::RemoveStaging);
    let (stage, action) = feature_step(stage, FeatureEvent::Done);
    assert_eq!(action, FeatureAction::Fail("no".to_string()));
    assert_eq!(stage, FeatureStage::Ended);

    let mut stage = FeatureStage::Start;
    let mut actions = vec![];
    let mut event = FeatureEvent::Begin;
    while stage != FeatureStage::Ended {
        let (next, action) = feature_step(stage, event);
        stage = next;
        actions.push(action);
        event = FeatureEvent::Done;
    }
    assert_eq!(
        actions,
        vec![
            FeatureAction::Download,
            FeatureAction::Lock,
            FeatureAction::Stage,
            FeatureAction::ResolveUser,
            FeatureAction::Build,
            FeatureAction::RemoveStaging,
            FeatureAction::Finish,
        ]
    );
}

#[test]
fn features_are_named_where_more_is_to_be_said() {
    let name = |id: &str, is_dependency| FeatureName {
        id: id.to_string(),
        oci_ref: format!("ghcr.io/{id}"),
        version: "1".to_string(),
        is_dependency,
    };
    let features = vec![name("node", false), name("git", true)];
    assert_eq!(download_notices(&features, false), vec!["Downloading 2 feature(s)..."]);
    assert_eq!(
        download_notices(&features, true),
        vec![
            "Downloading 2 feature(s)...",
            "  Feature: node (ghcr.io/node:1)",
            "  Feature: git (ghcr.io/git:1)",
        ]
    );
    assert!(order_notices(&features, false).is_empty());
    assert_eq!(
        order_notices(&features, true),
        vec!["Feature install order:", "  1: node", "  2: git (dependency)"]
    );
    assert_eq!(dependencies_notice(2, 2), None);
    assert_eq!(dependencies_notice(2, 5), Some("Resolved 3 transitive dependencies".to_string()));
}
