//! Whole runs of `dev up`, against a runtime, a provider and a clock that are
//! only played.
use dev_cli::model::{ContainerInfo, ContainerState, DevcontainerConfig, ExecResult, LifecycleCommand};
use dev_cli::up::compose::{
    step as compose_step, ComposeAction, ComposeEvent, ComposeHooks, ComposeRequest, ComposeStage,
};
use dev_cli::up::container::{container_config, ContainerConfig, WorkspaceMount};
use dev_cli::up::flow::{start, step, RunAs, UpAction, UpEvent, UpRequest};
use dev_cli::up::gate::{Gate, GateAsk, GateReply, Verdict};
use dev_cli::up::host::ensure_image_present;
use dev_cli::up::notices::label_filters;
use dev_cli::up::readiness::{
    same_container, InspectReply, ListReply, ProbeReply, READINESS_BUDGET, READINESS_FIRST_POLL,
    READINESS_MIN_ATTEMPT,
};
use dev_cli::up::run_args::{MergedCapabilities, ResolvedRunArgs};
use dev_cli::up::secrets::{
    create_time_entries, created_env, read_secrets_file, secrets_file_entries, unreadable_secrets_file, SecretRef,
    SecretValue, ValidatedSecrets,
};

fn named(pairs: &[(&str, &str)]) -> Vec<(String, String)> {
    pairs.iter().map(|(k, v)| (k.to_string(), v.to_string())).collect()
}

fn texts(parts: &[&str]) -> Vec<String> {
    parts.iter().map(|s| s.to_string()).collect()
}

fn image_config() -> DevcontainerConfig {
    DevcontainerConfig { image: Some("ubuntu:24.04".to_string()), ..Default::default() }
}

fn compose_config() -> DevcontainerConfig {
    DevcontainerConfig {
        docker_compose_file: Some(texts(&["compose.yml"])),
        service: Some("app".to_string()),
        ..Default::default()
    }
}

fn initializing(config: DevcontainerConfig) -> DevcontainerConfig {
    DevcontainerConfig {
        initialize_command: Some(LifecycleCommand::Single("touch initialized".to_string())),
        ..config
    }
}

fn workspace_labels() -> Vec<(String, String)> {
    named(&[
        ("devcontainer.local_folder", "/ws"),
        ("devcontainer.config_file", "/ws/.devcontainer/devcontainer.json"),
    ])
}

fn request(config: DevcontainerConfig) -> UpRequest {
    UpRequest {
        config,
        project_declared_run_args: false,
        runtime_name: "fake".to_string(),
        name: "vsc-ws".to_string(),
        labels: workspace_labels(),
        rebuild: false,
        no_cache: false,
        port_overrides: false,
        secrets_file: None,
        secrets_override: None,
    }
}

fn no_run_args() -> ResolvedRunArgs {
    ResolvedRunArgs {
        env: vec![],
        cap_add: vec![],
        security_opt: vec![],
        userns_mode: None,
        privileged: false,
        init: false,
    }
}

fn run_args_env(pairs: &[(&str, &str)]) -> ResolvedRunArgs {
    ResolvedRunArgs { env: named(pairs), ..no_run_args() }
}

fn references(entries: &[(&str, bool)]) -> ValidatedSecrets {
    ValidatedSecrets {
        source: Some("/ws/.devcontainer/secrets.json".to_string()),
        entries: entries
            .iter()
            .map(|(key, create_time)| SecretRef { key: key.to_string(), create_time: *create_time })
            .collect(),
    }
}

fn secret(name: &str, value: &str) -> (String, SecretValue) {
    (name.to_string(), SecretValue::new(value))
}

fn copied_state(state: &ContainerState) -> ContainerState {
    match state {
        ContainerState::Running => ContainerState::Running,
        ContainerState::Stopped => ContainerState::Stopped,
        ContainerState::Other(name) => ContainerState::Other(name.clone()),
    }
}

fn copied(c: &ContainerInfo) -> ContainerInfo {
    ContainerInfo {
        id: c.id.clone(),
        name: c.name.clone(),
        state: copied_state(&c.state),
        labels: c.labels.clone(),
        image: c.image.clone(),
    }
}

/// Counts down the failures that come before an answer.
fn failing(left: &mut usize) -> bool {
    let failing = *left > 0;
    *left = left.saturating_sub(1);
    failing
}

/// A command that was run in a container.
#[derive(Debug, PartialEq, Eq)]
struct Ran {
    id: String,
    command: Vec<String>,
    user: Option<String>,
    workdir: Option<String>,
    env: usize,
}

/// What `dev up` finds around it.
struct World {
    now: u64,
    /// Where each user's commands are run.
    folders: Vec<(Option<String>, String)>,
    mount_target: String,
    create_fails: bool,
    start_fails: bool,
    discoverable: bool,
    starts_running: bool,
    running_after_polls: usize,
    list_errors: usize,
    list_never_answers: bool,
    inspect_errors: usize,
    exec_errors: usize,
    exec_command_missing: bool,
    exec_never_returns: bool,
    refusals_before_silence: Option<usize>,
    exec_exit_code: i32,
    run_args: Result<ResolvedRunArgs, String>,
    references: Result<ValidatedSecrets, String>,
    answers: Result<Vec<(String, String)>, String>,
    literals: Option<Vec<u8>>,
    container_env: Vec<(String, String)>,
    remote_env: Vec<(String, String)>,
    feature_tag: Option<String>,
    image_described: bool,
    containers: Vec<ContainerInfo>,
    created: Option<ContainerConfig>,
    started: bool,
    initialized: bool,
    pulled: Vec<String>,
    execs: Vec<Ran>,
    hooks: Vec<&'static str>,
    /// The container, user and folder of each hook.
    hooked: Vec<(String, RunAs)>,
    asked_for: Vec<Vec<String>>,
    said: Vec<String>,
    removed: Vec<String>,
}

impl World {
    fn ok() -> Self {
        World {
            now: 0,
            folders: vec![],
            mount_target: "/workspaces/ws".to_string(),
            create_fails: false,
            start_fails: false,
            discoverable: true,
            starts_running: true,
            running_after_polls: 0,
            list_errors: 0,
            list_never_answers: false,
            inspect_errors: 0,
            exec_errors: 0,
            exec_command_missing: false,
            exec_never_returns: false,
            refusals_before_silence: None,
            exec_exit_code: 0,
            run_args: Ok(no_run_args()),
            references: Ok(ValidatedSecrets::default()),
            answers: Ok(vec![]),
            literals: None,
            container_env: vec![],
            remote_env: vec![],
            feature_tag: None,
            image_described: true,
            containers: vec![],
            created: None,
            started: false,
            initialized: false,
            pulled: vec![],
            execs: vec![],
            hooks: vec![],
            hooked: vec![],
            asked_for: vec![],
            said: vec![],
            removed: vec![],
        }
    }

    fn with(state: ContainerState) -> Self {
        let name = if matches!(state, ContainerState::Running) { "already-running" } else { "already-stopped" };
        let mut world = World::ok();
        world.containers.push(ContainerInfo {
            id: format!("{name}-id"),
            name: name.to_string(),
            state,
            labels: workspace_labels(),
            image: "ubuntu:24.04".to_string(),
        });
        world
    }

    /// A Compose service's container, in a state.
    fn service(state: ContainerState) -> Self {
        let mut world = World::ok();
        world.containers.push(ContainerInfo {
            id: "fake-id".to_string(),
            name: "dev-app-1".to_string(),
            state,
            labels: workspace_labels(),
            image: "ubuntu:24.04".to_string(),
        });
        world
    }

    fn list(&mut self, filters: &[String], window: u64) -> ListReply {
        if self.started {
            if self.list_never_answers {
                self.now += window;
                return ListReply::TimedOut(seconds(window));
            }
            if failing(&mut self.list_errors) {
                return ListReply::Failed("list_containers failed (test-injected)".to_string());
            }
        }
        if !self.discoverable {
            return ListReply::Listed(vec![]);
        }
        let settling = failing(&mut self.running_after_polls);
        let found = self
            .containers
            .iter()
            .filter(|c| filters.iter().all(|f| c.labels.iter().any(|(k, v)| *f == format!("{k}={v}"))))
            .map(|c| {
                let mut c = copied(c);
                if settling {
                    c.state = ContainerState::Stopped;
                }
                c
            })
            .collect();
        ListReply::Listed(found)
    }

    fn exec(&mut self, ran: Ran, window: u64) -> ProbeReply {
        self.execs.push(ran);
        if self.exec_never_returns {
            self.now += window;
            return ProbeReply::TimedOut(seconds(window));
        }
        if let Some(left) = &mut self.refusals_before_silence {
            if failing(left) {
                return ProbeReply::Refused("exec failed (test-injected)".to_string());
            }
            self.now += window;
            return ProbeReply::TimedOut(seconds(window));
        }
        if failing(&mut self.exec_errors) {
            return if self.exec_command_missing {
                ProbeReply::MissingCommand(
                    "OCI runtime exec failed: exec: \"sh\": executable file not found in $PATH".to_string(),
                )
            } else {
                ProbeReply::Refused("exec failed (test-injected)".to_string())
            };
        }
        ProbeReply::Ran(ExecResult {
            exit_code: self.exec_exit_code,
            stdout: String::new(),
            stderr: if self.exec_exit_code == 0 { String::new() } else { "sh: not found".to_string() },
        })
    }

    fn inspect(&mut self, id: &str) -> InspectReply {
        if failing(&mut self.inspect_errors) {
            return InspectReply::Failed("inspect_container failed (test-injected)".to_string());
        }
        match self.containers.iter().find(|c| same_container(&c.id, id)) {
            Some(c) => InspectReply::Inspected(copied_state(&c.state)),
            None => InspectReply::Failed(format!("no container {id}")),
        }
    }

    /// Take a container through the readiness checks.
    fn pass(&mut self, mut gate: Gate) -> Result<(), String> {
        loop {
            let window = gate.window(self.now);
            let reply = match gate.ask() {
                GateAsk::Inspect { id } => GateReply::Inspect(self.inspect(&id)),
                GateAsk::List { filters } => GateReply::List(self.list(&filters, window)),
                GateAsk::Exec { id, command, user, workdir, env } => {
                    let ran = Ran { id, command, user, workdir, env: env.len() };
                    GateReply::Probe(self.exec(ran, window))
                }
            };
            match gate.on_reply(&reply, self.now) {
                Verdict::Ask => {}
                Verdict::Pause(pause) => self.now += pause,
                Verdict::Ready(warning) => {
                    self.said.extend(warning);
                    return Ok(());
                }
                Verdict::Refused(e) => return Err(e),
            }
        }
    }

    fn verify_service(&mut self, user: Option<&str>) -> Result<(), String> {
        let filters = label_filters(&named(&[("devcontainer.local_folder", "/ws")]));
        let user = user.map(str::to_string);
        let gate = Gate::compose("app".to_string(), "fake-id".to_string(), filters, user, None, self.now);
        self.pass(gate)
    }

    fn load_literals(&self, path: &str) -> Result<Vec<(String, SecretValue)>, String> {
        let bytes = match &self.literals {
            Some(bytes) => bytes,
            None => return Err(unreadable_secrets_file(path, "No such file or directory (os error 2)")),
        };
        let members = read_secrets_file(path, bytes)?;
        let problems = members.iter().map(|_| None).collect();
        secrets_file_entries(path, &members, &problems)
    }

    fn folder_of(&self, user: &Option<String>) -> String {
        match self.folders.iter().find(|(whose, _)| whose == user) {
            Some((_, folder)) => folder.clone(),
            None => "/workspaces/ws".to_string(),
        }
    }

    fn listed(&mut self, filters: &[String]) -> UpEvent {
        match self.list(filters, READINESS_BUDGET) {
            ListReply::Listed(found) => UpEvent::Listed(found),
            ListReply::Failed(e) => UpEvent::Failed(e),
            ListReply::TimedOut(seconds) => UpEvent::Failed(seconds),
        }
    }

    /// Run `dev up` to its end.
    fn up(&mut self, req: &UpRequest) -> Result<(), String> {
        let mut up = start();
        let mut event = UpEvent::Begin;
        let mut literals = vec![];
        let mut wanted = vec![];
        let mut resolved = vec![];
        loop {
            let (next, said) = step(req, up, event);
            up = next;
            self.said.extend(said.warning.map(|w| w.text()));
            self.said.extend(said.notice.map(|n| n.text()));
            event = match said.action {
                UpAction::Finish | UpAction::GoOnAsCompose => return Ok(()),
                UpAction::Fail(failure) => return Err(failure.message(req)),
                UpAction::ResolveRunArgs => match &self.run_args {
                    Ok(found) => UpEvent::RunArgsResolved(ResolvedRunArgs {
                        env: found.env.clone(),
                        cap_add: found.cap_add.clone(),
                        security_opt: found.security_opt.clone(),
                        userns_mode: found.userns_mode.clone(),
                        privileged: found.privileged,
                        init: found.init,
                    }),
                    Err(e) => UpEvent::Failed(e.clone()),
                },
                UpAction::ValidateSecrets => match &self.references {
                    Ok(found) => {
                        wanted = create_time_entries(found);
                        UpEvent::SecretsValidated(ValidatedSecrets {
                            source: found.source.clone(),
                            entries: found
                                .entries
                                .iter()
                                .map(|e| SecretRef { key: e.key.clone(), create_time: e.create_time })
                                .collect(),
                        })
                    }
                    Err(e) => UpEvent::Failed(e.clone()),
                },
                UpAction::LoadSecretsFile => {
                    match self.load_literals(req.secrets_file.as_deref().unwrap_or_default()) {
                        Ok(found) => {
                            literals = found;
                            UpEvent::Done
                        }
                        Err(e) => UpEvent::Failed(e),
                    }
                }
                UpAction::RunInitializeCommand => {
                    self.initialized = true;
                    UpEvent::Done
                }
                UpAction::ListByLabels => self.listed(&label_filters(&req.labels)),
                UpAction::ListByFolder => self.listed(&label_filters(&req.labels)[..1]),
                UpAction::ResolveUser(_) => UpEvent::UserFound(req.config.remote_user.clone()),
                UpAction::ResolveWorkdir(user) => UpEvent::FolderFound(self.folder_of(&user)),
                UpAction::VerifyUsable(id, run_as) => {
                    let filters = label_filters(&named(&[("devcontainer.local_folder", "/ws")]));
                    let gate = Gate::container(id, filters, run_as.user, Some(run_as.workdir), self.now);
                    match self.pass(gate) {
                        Ok(()) => UpEvent::Done,
                        Err(e) => UpEvent::Failed(e),
                    }
                }
                UpAction::StartContainer(id) => {
                    if self.start_fails {
                        UpEvent::Failed("start_container failed (test-injected)".to_string())
                    } else {
                        self.started = true;
                        if self.starts_running {
                            for c in self.containers.iter_mut().filter(|c| c.id == id) {
                                c.state = ContainerState::Running;
                            }
                        }
                        UpEvent::Done
                    }
                }
                UpAction::StopContainer(_) => UpEvent::Done,
                UpAction::RemoveContainer(id) => {
                    self.containers.retain(|c| c.id != id);
                    self.removed.push(id);
                    UpEvent::Done
                }
                UpAction::RunStartHooks(id, run_as) => {
                    self.hooks.push("start");
                    self.hooked.push((id, run_as));
                    UpEvent::Done
                }
                UpAction::RunCreateHooks(id, run_as) => {
                    self.hooks.push("create");
                    self.hooked.push((id, run_as));
                    UpEvent::Done
                }
                UpAction::ResolveFeatures => UpEvent::FeaturesResolved(self.feature_tag.clone()),
                UpAction::EnsureImage(image) => {
                    if ensure_image_present(&image, true).pull {
                        self.pulled.push(image);
                    }
                    UpEvent::Done
                }
                UpAction::CheckImage(_) => UpEvent::Checked(true),
                UpAction::RecoverFeatures(_) => UpEvent::Recovered(self.image_described),
                UpAction::ResolveSecrets => {
                    self.asked_for.push(wanted.clone());
                    match &self.answers {
                        Ok(found) => {
                            resolved = found.iter().map(|(k, v)| secret(k, v)).collect();
                            UpEvent::Done
                        }
                        Err(e) => UpEvent::Failed(e.clone()),
                    }
                }
                UpAction::RemapUser(image, _) => UpEvent::Remapped(image),
                UpAction::WarnOfMounts(_) => UpEvent::Done,
                UpAction::CreateContainer(image, run_as) => {
                    if self.create_fails {
                        UpEvent::Failed("create_container failed (test-injected)".to_string())
                    } else {
                        let run_args = self.run_args.as_ref().expect("run args that were resolved");
                        let env = created_env(
                            &self.container_env,
                            &self.remote_env,
                            &literals,
                            &run_args.env,
                            &resolved,
                        );
                        self.containers.push(ContainerInfo {
                            id: "fake-id".to_string(),
                            name: req.name.clone(),
                            state: ContainerState::Stopped,
                            labels: req.labels.clone(),
                            image: image.clone(),
                        });
                        self.created = Some(container_config(
                            image,
                            req.name.clone(),
                            &req.labels,
                            env,
                            &req.config,
                            &vec![],
                            &vec![],
                            &vec![],
                            MergedCapabilities {
                                init: false,
                                privileged: false,
                                cap_add: vec![],
                                security_opt: vec![],
                            },
                            run_args,
                            WorkspaceMount { source: "/ws".to_string(), target: self.mount_target.clone() },
                            run_as.workdir,
                        ));
                        UpEvent::Created("fake-id".to_string())
                    }
                }
                UpAction::InstallDotfiles(_, _) | UpAction::RegisterRoutes | UpAction::RegisterSites => UpEvent::Done,
                UpAction::BuildDockerfile(_) | UpAction::BuildFeatures(..) => {
                    panic!("nothing is to be built where the image is there")
                }
            };
        }
    }

    fn created(&self) -> &ContainerConfig {
        self.created.as_ref().expect("create_container was not called")
    }

    fn env(&self, name: &str) -> Option<&str> {
        self.created().env.iter().find(|(k, _)| k == name).map(|(_, v)| v.as_str())
    }

    fn ready(&self) -> bool {
        self.said.iter().any(|line| line.contains("ready") || line.contains("running"))
    }
}

fn seconds(nanoseconds: u64) -> String {
    format!("{}", nanoseconds / 1_000_000_000)
}

/// What `dev up` fails with for an image, in a world that is not as it should be.
fn failure(mut world: World) -> (World, String) {
    let message = world.up(&request(image_config())).expect_err("this must not come up");
    (world, message)
}

fn success(mut world: World) -> World {
    if let Err(e) = world.up(&request(image_config())) {
        panic!("this must come up: {e}");
    }
    world
}

// --- creating and starting ---

#[test]
fn up_propagates_create_container_error() {
    let (_, msg) = failure(World { create_fails: true, ..World::ok() });
    assert!(msg.contains("create_container failed"), "{msg}");
}

#[test]
fn up_propagates_start_container_error() {
    let (world, _) = failure(World { start_fails: true, ..World::ok() });
    assert!(world.execs.is_empty());
}

#[test]
fn up_labels_container_with_workspace_local_folder() {
    let world = success(World::ok());
    assert!(world.created().labels.contains(&("devcontainer.local_folder".to_string(), "/ws".to_string())));
}

#[test]
fn up_carries_workspace_folder_subdirectory_to_the_runtime() {
    let world = success(World {
        folders: vec![(None, "/srv/app/packages/api".to_string())],
        mount_target: "/srv/app".to_string(),
        ..World::ok()
    });
    assert_eq!(world.created().workspace_mount.target, "/srv/app");
    assert_eq!(world.created().workspace_folder, "/srv/app/packages/api");
    assert_eq!(world.execs.len(), 1);
    assert_eq!(world.execs[0].workdir.as_deref(), Some("/srv/app/packages/api"));
    assert_eq!(world.hooked[0].1.workdir, "/srv/app/packages/api");
}

#[test]
fn build_path_base_image_skips_pull_when_image_exists() {
    let world = success(World::ok());
    assert!(world.pulled.is_empty());
}

// --- readiness ---

#[test]
fn up_fails_when_started_container_is_not_discoverable() {
    let (_, msg) = failure(World { discoverable: false, ..World::ok() });
    assert!(msg.contains("not discoverable"), "{msg}");
}

#[test]
fn up_fails_when_started_container_never_runs() {
    let (_, msg) = failure(World { starts_running: false, ..World::ok() });
    assert!(msg.contains("not running"), "{msg}");
}

#[test]
fn up_waits_for_a_container_that_reports_running_late() {
    success(World { running_after_polls: 12, ..World::ok() });
}

#[test]
fn up_retries_a_transient_list_failure_while_waiting_for_readiness() {
    success(World { list_errors: 5, ..World::ok() });
}

#[test]
fn up_reports_the_list_failure_when_it_never_clears() {
    let (_, msg) = failure(World { list_errors: usize::MAX, ..World::ok() });
    assert!(msg.contains("list_containers failed"), "{msg}");
}

#[test]
fn up_fails_when_the_list_query_is_never_answered() {
    let (world, msg) = failure(World { list_never_answers: true, ..World::ok() });
    assert!(msg.contains("did not answer within"), "{msg}");
    assert!(world.now <= READINESS_BUDGET);
}

#[test]
fn up_reports_undiscoverable_when_an_early_list_failure_recovered() {
    let (_, msg) = failure(World { discoverable: false, list_errors: 1, ..World::ok() });
    assert!(msg.contains("not discoverable"), "{msg}");
    assert!(!msg.contains("list_containers failed"), "{msg}");
}

#[test]
fn up_runs_a_command_in_the_container_before_reporting_readiness() {
    let world = success(World::ok());
    assert!(!world.execs.is_empty());
    assert!(world.ready(), "{:?}", world.said);
}

#[test]
fn the_readiness_probe_runs_as_the_resolved_remote_user() {
    for state in [None, Some(ContainerState::Running), Some(ContainerState::Stopped)] {
        let world = match state {
            Some(state) => World::with(state),
            None => World::ok(),
        };
        let mut world = World {
            folders: vec![
                (Some("vscode".to_string()), "/home/vscode/ws".to_string()),
                (None, "/root/ws".to_string()),
            ],
            ..world
        };
        let config = DevcontainerConfig { remote_user: Some("vscode".to_string()), ..image_config() };
        world.up(&request(config)).expect("up should succeed");
        let id = world.containers[0].id.clone();
        assert_eq!(
            world.execs,
            [Ran {
                id: id.clone(),
                command: texts(&["sh", "-c", "exit 0"]),
                user: Some("vscode".to_string()),
                workdir: Some("/home/vscode/ws".to_string()),
                env: 0,
            }]
        );
        for (hooked, run_as) in &world.hooked {
            assert_eq!(*hooked, id);
            assert_eq!(run_as.user.as_deref(), Some("vscode"));
            assert_eq!(run_as.workdir, "/home/vscode/ws");
        }
    }
}

#[test]
fn up_retries_a_transient_exec_failure_while_waiting_for_readiness() {
    let world = success(World { exec_errors: 5, ..World::ok() });
    assert_eq!(world.execs.len(), 6);
}

#[test]
fn up_fails_when_the_probe_never_reports_an_exit() {
    let (world, msg) = failure(World { exec_never_returns: true, ..World::ok() });
    assert!(msg.contains("did not report an exit"), "{msg}");
    assert!(world.now <= READINESS_BUDGET);
    assert!(world.hooks.is_empty() && !world.said.iter().any(|line| line.contains("ready")));
}

#[test]
fn up_reports_the_runtimes_own_exec_failure_not_a_phantom_hang() {
    let (_, msg) = failure(World { exec_errors: usize::MAX, ..World::ok() });
    assert!(msg.contains("exec failed (test-injected)"), "{msg}");
    assert!(!msg.contains("did not report an exit"), "{msg}");
}

#[test]
fn up_leads_with_the_latest_hang_and_keeps_the_earlier_refusal() {
    let (_, msg) = failure(World { refusals_before_silence: Some(1), ..World::ok() });
    let hang = msg.find("did not report an exit").unwrap_or_else(|| panic!("{msg}"));
    let refused = msg.find("exec failed (test-injected)").unwrap_or_else(|| panic!("{msg}"));
    assert!(hang < refused, "{msg}");
}

#[test]
fn up_reports_a_refusal_once_when_nothing_else_happened() {
    let (_, msg) = failure(World { exec_errors: usize::MAX, ..World::ok() });
    assert!(msg.contains("exec failed (test-injected)"), "{msg}");
    assert!(!msg.contains("an earlier attempt was refused"), "{msg}");
}

#[test]
fn up_fails_when_no_command_can_run_in_the_started_container() {
    let (_, msg) = failure(World { exec_errors: usize::MAX, ..World::ok() });
    assert!(msg.contains("no command can be run in it"), "{msg}");
}

#[test]
fn up_tolerates_an_image_whose_shell_is_missing() {
    success(World { exec_exit_code: 127, ..World::ok() });
}

#[test]
fn up_accepts_any_status_a_completed_probe_reported() {
    for exec_exit_code in [126, 127, 1] {
        let world = success(World { exec_exit_code, ..World::ok() });
        assert_eq!(world.execs.len(), 1, "exit {exec_exit_code}");
    }
}

#[test]
fn up_tolerates_a_runtime_that_refuses_a_missing_executable() {
    let world = success(World { exec_errors: usize::MAX, exec_command_missing: true, ..World::ok() });
    assert_eq!(world.execs.len(), 1);
}

// --- reuse ---

#[test]
fn up_refuses_an_already_running_container_no_command_can_run_in() {
    let (world, msg) = failure(World { exec_errors: usize::MAX, ..World::with(ContainerState::Running) });
    assert!(msg.contains("no command can be run in it"), "{msg}");
    assert!(world.created.is_none());
}

#[test]
fn up_reuses_an_already_running_container_it_can_run_a_command_in() {
    let world = success(World::with(ContainerState::Running));
    assert_eq!(world.execs.len(), 1);
    assert!(world.created.is_none());
    assert!(world.hooks.is_empty());
}

#[test]
fn post_create_does_not_re_run_when_a_stopped_container_is_reused() {
    let world = success(World::with(ContainerState::Stopped));
    assert_eq!(world.hooks, ["start"]);
    assert!(world.started && world.created.is_none());
}

#[test]
fn a_created_container_is_owed_the_create_hooks() {
    let world = success(World::ok());
    assert_eq!(world.hooks, ["create"]);
}

#[test]
fn a_rebuild_removes_what_was_there_before_it_creates() {
    let mut world = World::with(ContainerState::Running);
    let req = UpRequest { rebuild: true, no_cache: false, ..request(image_config()) };
    world.up(&req).expect("a rebuild should succeed");
    assert_eq!(world.removed, ["already-running-id"]);
    assert!(world.created.is_some());
}

#[test]
fn a_container_found_by_the_folder_alone_is_replaced_too() {
    let mut world = World::with(ContainerState::Running);
    world.containers[0].labels.truncate(1);
    let req = UpRequest { rebuild: true, ..request(image_config()) };
    world.up(&req).expect("a rebuild should succeed");
    assert_eq!(world.removed, ["already-running-id"]);
    assert!(world.created.is_some());

    let mut world = World::with(ContainerState::Running);
    world.containers[0].labels[1].1 = "/ws/elsewhere.json".to_string();
    world.up(&req).expect("a rebuild should succeed");
    assert!(world.removed.is_empty(), "a container of another configuration stays");
}

#[test]
fn cached_image_with_empty_metadata_warns_and_creates_without_contributions() {
    let world = success(World {
        feature_tag: Some("vsc-ws-features".to_string()),
        image_described: false,
        ..World::ok()
    });
    assert!(world.said.iter().any(|line| line.contains("vsc-ws-features")), "{:?}", world.said);
    assert_eq!(world.created().image, "vsc-ws-features");
}

// --- `runArgs` ---

#[test]
fn up_runtime_option_runargs_reach_container_config() {
    let world = success(World {
        run_args: Ok(ResolvedRunArgs {
            cap_add: texts(&["SYS_PTRACE", "NET_ADMIN"]),
            security_opt: texts(&["seccomp=unconfined", "label=disable"]),
            privileged: true,
            init: true,
            ..no_run_args()
        }),
        ..World::ok()
    });
    assert_eq!(world.created().cap_add, ["SYS_PTRACE", "NET_ADMIN"]);
    assert_eq!(world.created().security_opt, ["seccomp=unconfined", "label=disable"]);
    assert!(world.created().privileged);
    assert!(world.created().init);
}

#[test]
fn up_userns_runarg_reaches_container_config() {
    let world = success(World {
        run_args: Ok(ResolvedRunArgs { userns_mode: Some("keep-id".to_string()), ..no_run_args() }),
        ..World::ok()
    });
    assert_eq!(world.created().userns_mode.as_deref(), Some("keep-id"));
}

#[test]
fn apple_runtime_rejects_non_environment_runargs_before_initialize_command() {
    let mut world = World {
        run_args: Ok(ResolvedRunArgs { cap_add: texts(&["SYS_PTRACE"]), ..no_run_args() }),
        ..World::ok()
    };
    let req = UpRequest { runtime_name: "apple".to_string(), ..request(initializing(image_config())) };
    let msg = world.up(&req).expect_err("Apple must reject runtime option runArgs");
    assert!(msg.contains("Apple"), "{msg}");
    assert!(msg.contains("--cap-add"), "{msg}");
    assert!(!world.initialized);
    assert!(world.created.is_none());
}

#[test]
fn up_unsupported_runarg_fails() {
    let (world, msg) =
        failure(World { run_args: Err("unsupported runArg `--network`".to_string()), ..World::ok() });
    assert!(msg.contains("--network"), "{msg}");
    assert!(world.created.is_none());
}

#[test]
fn up_unsupported_runarg_fails_before_initialize_command() {
    let mut world = World { run_args: Err("unsupported runArg `--network`".to_string()), ..World::ok() };
    let msg = world.up(&request(initializing(image_config()))).expect_err("unsupported runArgs must fail");
    assert!(msg.contains("--network"), "{msg}");
    assert!(!world.initialized);
}

#[test]
fn up_unsupported_runarg_fails_for_existing_running_container() {
    let (world, msg) = failure(World {
        run_args: Err("unsupported runArg `--network`".to_string()),
        ..World::with(ContainerState::Running)
    });
    assert!(msg.contains("--network"), "{msg}");
    assert!(world.created.is_none() && world.execs.is_empty());
}

// --- secrets ---

fn unknown_provider() -> Result<ValidatedSecrets, String> {
    Err("secret `TOKEN` names the provider `nosuch`, which is not known".to_string())
}

#[test]
fn up_bad_secrets_json_fails_before_initialize_command() {
    let mut world = World { references: unknown_provider(), ..World::ok() };
    let msg = world.up(&request(initializing(image_config()))).expect_err("an unknown provider must fail");
    assert!(msg.contains("nosuch"), "{msg}");
    assert!(msg.contains("TOKEN"), "{msg}");
    assert!(!world.initialized);
    assert!(world.created.is_none());
}

#[test]
fn up_malformed_secret_reference_fails_before_container_lookup() {
    let (world, msg) = failure(World {
        references: Err("secret `TOKEN` is not a reference".to_string()),
        started: true,
        list_errors: usize::MAX,
        ..World::ok()
    });
    assert!(msg.contains("TOKEN"), "{msg}");
    assert!(world.created.is_none());
}

#[test]
fn up_bad_secrets_json_fails_for_existing_running_container() {
    let (world, msg) = failure(World { references: unknown_provider(), ..World::with(ContainerState::Running) });
    assert!(msg.contains("nosuch"), "{msg}");
    assert!(world.created.is_none());
}

#[test]
fn up_without_secrets_json_is_unaffected() {
    let world = success(World::ok());
    assert_eq!(world.created().image, "ubuntu:24.04");
}

/// A world with one secret that a provider answers for.
fn with_token() -> World {
    World {
        references: Ok(references(&[("TOKEN", true)])),
        answers: Ok(named(&[("TOKEN", "resolved-value")])),
        ..World::ok()
    }
}

#[test]
fn up_applies_resolved_secret_to_created_env() {
    let world = success(with_token());
    assert_eq!(world.env("TOKEN"), Some("resolved-value"));
}

#[test]
fn up_secret_outranks_run_args_env_flag() {
    let world = success(World { run_args: Ok(run_args_env(&[("TOKEN", "stale")])), ..with_token() });
    assert_eq!(world.env("TOKEN"), Some("resolved-value"));
}

#[test]
fn up_secret_outranks_remote_env() {
    let world = success(World { remote_env: named(&[("TOKEN", "stale")]), ..with_token() });
    assert_eq!(world.env("TOKEN"), Some("resolved-value"));
}

#[test]
fn up_skips_create_time_false_secrets() {
    let world = success(World { references: Ok(references(&[("TOKEN", false)])), ..with_token() });
    assert!(world.asked_for.is_empty());
    assert_eq!(world.env("TOKEN"), None);
}

#[test]
fn up_makes_no_provider_call_without_secrets_file() {
    let world = success(World { answers: Ok(named(&[("TOKEN", "resolved-value")])), ..World::ok() });
    assert!(world.asked_for.is_empty());
    assert!(world.created.is_some());
}

#[test]
fn up_batches_two_secrets_from_one_provider_into_one_call() {
    let world = success(World {
        references: Ok(references(&[("TOKEN", true), ("OTHER", true)])),
        answers: Ok(named(&[("TOKEN", "first"), ("OTHER", "second")])),
        ..World::ok()
    });
    assert_eq!(world.asked_for, [texts(&["TOKEN", "OTHER"])]);
    assert_eq!(world.env("TOKEN"), Some("first"));
    assert_eq!(world.env("OTHER"), Some("second"));
}

#[test]
fn up_fails_when_a_required_secret_cannot_resolve() {
    let (world, msg) = failure(World { answers: Err("secret `TOKEN` could not be resolved".to_string()), ..with_token() });
    assert!(msg.contains("TOKEN"), "{msg}");
    assert!(world.created.is_none());
}

#[test]
fn up_does_not_resolve_secrets_when_reusing_a_running_container() {
    let world = success(World {
        references: Ok(references(&[("TOKEN", true)])),
        answers: Ok(named(&[("TOKEN", "resolved-value")])),
        ..World::with(ContainerState::Running)
    });
    assert!(world.asked_for.is_empty());
    assert!(world.created.is_none());
    assert_eq!(world.execs.len(), 1);
}

#[test]
fn up_secret_overrides_a_conflicting_env_file_key() {
    let world = success(World {
        run_args: Ok(run_args_env(&[("SHARED", "from_env_file"), ("OTHER", "from_env_file")])),
        references: Ok(references(&[("SHARED", true)])),
        answers: Ok(named(&[("SHARED", "from_secret")])),
        ..World::ok()
    });
    assert_eq!(world.env("SHARED"), Some("from_secret"));
    assert_eq!(world.env("OTHER"), Some("from_env_file"));
}

// --- `--secrets-file` ---

fn with_literals(world: World, body: &str) -> World {
    World { literals: Some(body.as_bytes().to_vec()), ..world }
}

fn literal_request(config: DevcontainerConfig) -> UpRequest {
    UpRequest { secrets_file: Some("/tmp/literals.json".to_string()), ..request(config) }
}

fn success_with_literals(mut world: World) -> World {
    if let Err(e) = world.up(&literal_request(image_config())) {
        panic!("a valid --secrets-file must not fail the command: {e}");
    }
    world
}

#[test]
fn up_secrets_file_values_reach_the_created_container() {
    let world = success_with_literals(with_literals(World::ok(), r#"{"TOKEN":"literal-value"}"#));
    assert_eq!(world.env("TOKEN"), Some("literal-value"));
}

#[test]
fn up_secrets_file_overrides_remote_env_for_the_same_key() {
    let remote_env = named(&[("TOKEN", "from_remote_env"), ("KEEP", "from_remote_env")]);
    let world = success_with_literals(with_literals(
        World { remote_env, ..World::ok() },
        r#"{"TOKEN":"from_secrets_file"}"#,
    ));
    assert_eq!(world.env("TOKEN"), Some("from_secrets_file"));
    assert_eq!(world.env("KEEP"), Some("from_remote_env"));
}

#[test]
fn up_run_args_env_overrides_secrets_file_for_the_same_key() {
    let world = success_with_literals(with_literals(
        World { run_args: Ok(run_args_env(&[("TOKEN", "from_run_args")])), ..World::ok() },
        r#"{"TOKEN":"from_secrets_file","KEEP":"from_secrets_file"}"#,
    ));
    assert_eq!(world.env("TOKEN"), Some("from_run_args"));
    assert_eq!(world.env("KEEP"), Some("from_secrets_file"));
}

#[test]
fn up_resolved_secret_overrides_secrets_file_for_the_same_key() {
    let world = success_with_literals(with_literals(
        with_token(),
        r#"{"TOKEN":"from_secrets_file","KEEP":"from_secrets_file"}"#,
    ));
    assert_eq!(world.env("TOKEN"), Some("resolved-value"));
    assert_eq!(world.env("KEEP"), Some("from_secrets_file"));
}

#[test]
fn up_rejects_a_reference_shaped_secrets_file_before_any_side_effect() {
    let mut world = with_literals(World::ok(), r#"{"version":1,"secrets":{"TOKEN":"op://Private/x/y"}}"#);
    let msg = world
        .up(&literal_request(initializing(image_config())))
        .expect_err("a references document must not load as literal values");
    assert!(msg.contains("--secrets"), "{msg}");
    assert!(!msg.contains("op://Private/x/y"), "{msg}");
    assert!(!world.initialized);
    assert!(world.created.is_none());
}

#[test]
fn up_rejects_a_missing_secrets_file_path() {
    let mut world = World::ok();
    let req = UpRequest { secrets_file: Some("/tmp/nothing-here.json".to_string()), ..request(image_config()) };
    let msg = world.up(&req).expect_err("a missing --secrets-file path must fail the command");
    assert!(msg.contains("nothing-here.json"), "{msg}");
    assert!(world.created.is_none());
}

#[test]
fn up_rejects_a_bad_secrets_file_on_the_reuse_path_too() {
    let mut world = with_literals(World::with(ContainerState::Running), r#"{"PIN":1234}"#);
    let msg = world
        .up(&literal_request(image_config()))
        .expect_err("container reuse must still validate --secrets-file");
    assert!(msg.contains("PIN"), "{msg}");
    assert!(!msg.contains("1234"), "{msg}");
    assert!(world.execs.is_empty());
}

#[test]
fn up_rejects_a_secrets_file_on_a_compose_project() {
    let mut world = with_literals(World::ok(), r#"{"TOKEN":"literal-value"}"#);
    let msg = world
        .up(&literal_request(initializing(compose_config())))
        .expect_err("--secrets-file must fail before any compose command");
    assert!(msg.contains("--secrets-file"), "{msg}");
    assert!(msg.contains("Compose"), "{msg}");
    assert!(!msg.contains("literal-value"), "{msg}");
    assert!(!world.initialized);
}

#[test]
fn up_rejects_explicit_secrets_for_compose() {
    let mut world = World::ok();
    let req = UpRequest {
        secrets_override: Some("/tmp/elsewhere.json".to_string()),
        ..request(initializing(compose_config()))
    };
    let msg = world.up(&req).expect_err("--secrets must fail before any compose command");
    assert!(msg.contains("elsewhere.json"), "{msg}");
    assert!(msg.contains("Compose"), "{msg}");
    assert!(!world.initialized);
    assert!(world.asked_for.is_empty());
}

// --- Compose ---

#[test]
fn compose_project_with_runargs_fails_with_compose_guidance() {
    let config = DevcontainerConfig { run_args: Some(texts(&["--env", "A=1"])), ..compose_config() };
    let req = UpRequest { project_declared_run_args: true, ..request(config) };
    let msg = World::ok().up(&req).expect_err("compose runArgs must fail explicitly");
    assert!(msg.contains("runArgs"), "{msg}");
    assert!(msg.contains("Compose"), "{msg}");
}

#[test]
fn compose_project_with_secrets_fails_before_any_compose_side_effect() {
    let mut world = with_token();
    let msg = world
        .up(&request(initializing(compose_config())))
        .expect_err("a compose secrets.json must fail before any compose command");
    assert!(msg.contains("secrets.json"), "{msg}");
    assert!(msg.contains("Compose"), "{msg}");
    assert!(!world.initialized);
    assert!(world.created.is_none());
    assert!(world.asked_for.is_empty());
}

#[test]
fn compose_readiness_waits_until_the_target_service_can_exec() {
    let mut world = World { exec_errors: 3, ..World::service(ContainerState::Running) };
    world.verify_service(Some("vscode")).expect("a service whose exec endpoint settles must become ready");
    assert_eq!(world.execs.len(), 4);
    assert!(world.execs.iter().all(|ran| ran.user.as_deref() == Some("vscode")));
    assert!(world.execs.iter().all(|ran| ran.id == "fake-id" && ran.workdir.is_none() && ran.env == 0));
}

#[test]
fn compose_readiness_fails_terminal_target_service_state_promptly() {
    let mut world = World::service(ContainerState::Stopped);
    let msg = world.verify_service(None).expect_err("a stopped service must fail readiness");
    assert!(msg.contains("Compose service 'app'"), "{msg}");
    assert!(msg.contains("fake-id"), "{msg}");
    assert!(msg.contains("not running"), "{msg}");
    assert!(world.execs.is_empty());
    assert!(world.now < READINESS_FIRST_POLL);
}

#[test]
fn compose_readiness_retries_a_transient_inspect_failure() {
    let mut world = World { inspect_errors: 3, ..World::service(ContainerState::Running) };
    world.verify_service(None).expect("a blipping inspect must be retried");
}

#[test]
fn compose_readiness_fails_when_the_service_can_never_be_inspected() {
    let mut world = World { inspect_errors: usize::MAX, ..World::service(ContainerState::Running) };
    let msg = world.verify_service(None).expect_err("an uninspectable service must fail readiness");
    assert!(world.now <= READINESS_BUDGET);
    assert!(msg.contains("Compose service 'app'"), "{msg}");
    assert!(msg.contains("could not be inspected"), "{msg}");
    assert!(msg.contains("inspect_container failed (test-injected)"), "{msg}");
    assert!(world.execs.is_empty());
}

#[test]
fn compose_readiness_fails_when_target_service_never_becomes_usable() {
    let mut world = World { exec_never_returns: true, ..World::service(ContainerState::Running) };
    let msg = world.verify_service(None).expect_err("a never-usable service must fail readiness");
    assert!(msg.contains("Compose service 'app'"), "{msg}");
    assert!(msg.contains("fake-id"), "{msg}");
    assert!(msg.contains("did not report an exit"), "{msg}");
}

#[test]
fn compose_readiness_shares_one_deadline_across_discovery_and_exec() {
    let mut world = World {
        list_errors: 16,
        exec_errors: 16,
        started: true,
        ..World::service(ContainerState::Running)
    };
    let msg = world.verify_service(None).expect_err("readiness must fail at the one shared deadline");
    assert!(world.now <= READINESS_BUDGET, "{}", world.now);
    assert!(world.now >= READINESS_BUDGET - READINESS_MIN_ATTEMPT, "{}", world.now);
    assert!(msg.contains("Compose service 'app'"), "{msg}");
    assert!(msg.contains("fake-id"), "{msg}");
    assert!(
        msg.contains("did not report an exit") || msg.contains("exec failed (test-injected)"),
        "{msg}"
    );
}

#[test]
fn compose_lifecycle_hooks_run_only_after_readiness_probe_succeeds() {
    let req = ComposeRequest { config: compose_config(), rebuild: false };
    let mut world = World { exec_errors: 2, ..World::service(ContainerState::Running) };
    let user = Some("vscode".to_string());
    let found = ComposeStage::Container { hooks: ComposeHooks::Create, user: user.clone() };
    let (stage, said) = compose_step(&req, found, ComposeEvent::Container("fake-id".to_string()));
    assert!(matches!(said.action, ComposeAction::VerifyService(id, as_whom) if id == "fake-id" && as_whom == user));
    world.verify_service(None).expect("readiness should wait for the service to become usable");
    assert_eq!(world.execs.len(), 3);
    let (_, said) = compose_step(&req, stage, ComposeEvent::Done);
    assert!(matches!(said.action, ComposeAction::RunCreateHooks(id, as_whom) if id == "fake-id" && as_whom == user));

    let mut world = World { exec_never_returns: true, ..World::service(ContainerState::Running) };
    let refused = world.verify_service(None).expect_err("a never-usable service must fail readiness");
    let verifying = ComposeStage::Verify { hooks: ComposeHooks::Create, id: "fake-id".to_string(), user };
    let (_, said) = compose_step(&req, verifying, ComposeEvent::Failed(refused));
    assert!(matches!(said.action, ComposeAction::Fail(_)));
}
