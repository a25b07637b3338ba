use dev_cli::cmux::worker::{
    drain, flush_budget, Deed, Job, Worker, WorkStep, CALL_TIMEOUT, FLUSH_CEILING, FLUSH_SLACK,
};
use dev_cli::cmux::{
    clear_args, locate, notify_args, resolve_binary, status_args, Cmux, Spawner,
    StatusGuard, StatusStyle, BUILD_KEY, SHELL_KEY,
};

fn words(parts: &[&str]) -> Vec<String> {
    parts.iter().map(|part| part.to_string()).collect()
}

/// The guard's calls once it has ended, this many nanoseconds after its start.
fn ended(guard: StatusGuard, elapsed: u128) -> Vec<Vec<String>> {
    guard.finish(elapsed).0
}

fn spawner() -> Spawner {
    Spawner { binary: "/x/cmux".to_string(), socket: "/y/s".to_string() }
}

#[test]
fn build_and_shell_keys_are_distinct_and_clear_independently() {
    assert_ne!(BUILD_KEY, SHELL_KEY);

    let cmux = Cmux::recording();
    let mut guard = cmux.guard(BUILD_KEY, true);
    guard.phase("Pulling", StatusStyle::default());

    let calls = ended(guard, 0);
    assert_eq!(
        calls.last(),
        Some(&vec!["clear-status".to_string(), BUILD_KEY.to_string()])
    );
    assert!(
        !calls.iter().flatten().any(|arg| arg == SHELL_KEY),
        "no call should name SHELL_KEY: {calls:?}"
    );
}

#[test]
fn status_args_has_no_flags_by_default() {
    assert_eq!(
        status_args("build", "Pulling", StatusStyle::default()),
        vec!["set-status", "build", "Pulling"]
    );
}

#[test]
fn status_args_appends_each_style_flag_in_order() {
    let style = StatusStyle {
        icon: Some("arrow.down"),
        color: Some("#00ff00"),
        priority: Some(5),
    };
    assert_eq!(
        status_args("build", "Pulling", style),
        vec![
            "set-status",
            "build",
            "Pulling",
            "--icon",
            "arrow.down",
            "--color",
            "#00ff00",
            "--priority",
            "5",
        ]
    );
}

#[test]
fn status_args_emits_only_the_flags_that_are_set() {
    let style = StatusStyle { color: Some("#abc"), ..Default::default() };
    assert_eq!(
        status_args("k", "v", style),
        vec!["set-status", "k", "v", "--color", "#abc"]
    );
}

#[test]
fn clear_args_and_notify_args_shape() {
    assert_eq!(clear_args("build"), vec!["clear-status", "build"]);
    assert_eq!(
        notify_args("t", "b"),
        vec!["notify", "--title", "t", "--body", "b"]
    );
}

fn located(surface: Option<&str>, is_socket: bool, bundled: Option<(&str, bool)>, on_path: Option<&str>) -> Option<Spawner> {
    locate(
        &surface.map(str::to_string),
        Some("/run/s".to_string()),
        is_socket,
        bundled.map(|(path, _)| path.to_string()),
        bundled.is_some_and(|(_, runs)| runs),
        on_path.map(str::to_string),
    )
}

#[test]
fn locate_needs_a_surface_id() {
    assert!(located(None, true, None, Some("/bin/cmux")).is_none());
    assert!(located(Some(""), true, None, Some("/bin/cmux")).is_none());
}

#[test]
fn locate_needs_the_socket_to_be_a_socket() {
    assert!(located(Some("surface"), false, None, Some("/bin/cmux")).is_none());
    assert!(located(Some("surface"), true, None, Some("/bin/cmux")).is_some());
}

#[test]
fn locate_prefers_an_executable_bundled_cli() {
    let found = located(Some("surface"), true, Some(("/app/cmux", true)), Some("/bin/cmux"))
        .expect("should locate a spawner");
    assert_eq!(found.binary, "/app/cmux");
    assert_eq!(found.socket, "/run/s");
}

#[test]
fn locate_falls_through_a_non_executable_bundled_cli() {
    let found = located(Some("surface"), true, Some(("/app/cmux", false)), Some("/bin/cmux"))
        .expect("should locate a spawner");
    assert_eq!(found.binary, "/bin/cmux");
}

#[test]
fn locate_is_none_without_any_binary() {
    assert!(located(Some("surface"), true, None, None).is_none());
    assert_eq!(resolve_binary(None, true, None), None);
}

#[test]
fn command_for_targets_the_socket_and_nulls_output() {
    let command = spawner().command_for(&words(&["ping"]));
    assert_eq!(command.program, "/x/cmux");
    assert_eq!(command.args, vec!["--socket", "/y/s", "ping"]);
    assert!(
        command
            .env
            .contains(&("CMUXTERM_CLI_RESPONSE_TIMEOUT_SEC".to_string(), "0.75".to_string()))
    );

    let bare = spawner().base_command(&words(&["ping"]));
    assert_eq!(bare.program, "/x/cmux");
    assert_eq!(bare.args, vec!["--socket", "/y/s", "ping"]);
    assert!(bare.env.is_empty());
}

/// The arguments of everything that was run.
fn spawned(deeds: &[Deed<u8>]) -> Vec<Vec<String>> {
    deeds
        .iter()
        .filter_map(|deed| match deed {
            Deed::Spawn(args) => Some(args.clone()),
            _ => None,
        })
        .collect()
}

#[test]
fn the_worker_pings_once_before_the_calls_it_drains() {
    let jobs = vec![
        Job::Call(words(&["clear-status", "k"])),
        Job::Call(words(&["clear-status", "k"])),
    ];
    let spawned = spawned(&drain(jobs, true));
    assert_eq!(spawned.len(), 3, "{spawned:?}");
    assert_eq!(spawned[0], vec!["ping"]);
    assert_eq!(spawned[1], vec!["clear-status", "k"]);
    assert_eq!(spawned[2], vec!["clear-status", "k"]);
}

#[test]
fn a_target_that_fails_the_ping_gets_no_calls_but_still_acks() {
    let jobs = vec![
        Job::Call(words(&["set-status", "k", "v"])),
        Job::Fence(7u8),
        Job::Call(words(&["clear-status", "k"])),
    ];
    let deeds = drain(jobs, false);
    let spawned = spawned(&deeds);
    assert_eq!(spawned.len(), 1, "only the ping should spawn: {spawned:?}");
    assert_eq!(spawned[0], vec!["ping"]);
    assert!(deeds.contains(&Deed::Acknowledge(7)), "the fence must be acked anyway");
}

#[test]
fn a_fence_is_acknowledged_after_the_calls_ahead_of_it() {
    let jobs = || {
        vec![
            Job::Fence(1u8),
            Job::Call(words(&["a"])),
            Job::Fence(2),
            Job::Call(words(&["b"])),
            Job::Fence(3),
        ]
    };
    assert_eq!(
        drain(jobs(), true),
        vec![
            Deed::Acknowledge(1),
            Deed::Spawn(words(&["ping"])),
            Deed::Spawn(words(&["a"])),
            Deed::Settle,
            Deed::Acknowledge(2),
            Deed::Spawn(words(&["b"])),
            Deed::Settle,
            Deed::Acknowledge(3),
        ]
    );
    assert_eq!(
        drain(jobs(), false),
        vec![
            Deed::Acknowledge(1),
            Deed::Spawn(words(&["ping"])),
            Deed::Settle,
            Deed::Acknowledge(2),
            Deed::Settle,
            Deed::Acknowledge(3),
        ]
    );
}

#[test]
fn a_worker_without_calls_pings_nothing() {
    assert_eq!(
        drain(vec![Job::Fence(1u8), Job::Fence(2)], true),
        vec![Deed::Acknowledge(1), Deed::Acknowledge(2)]
    );

    let mut worker = Worker::new();
    assert_eq!(worker.take(Job::Fence(1u8)), WorkStep::Acknowledge(1));
    assert_eq!(worker.take(Job::<u8>::Call(words(&["a"]))), WorkStep::Ping(words(&["a"])));
    assert_eq!(worker.pinged::<u8>(true, words(&["a"])), WorkStep::Run(words(&["a"])));
    assert_eq!(worker.take(Job::<u8>::Call(words(&["b"]))), WorkStep::Run(words(&["b"])));
}

#[test]
fn flush_budget_covers_the_ping_and_every_call_still_queued() {
    assert_eq!(flush_budget(0), CALL_TIMEOUT + FLUSH_SLACK);
    assert_eq!(flush_budget(1), CALL_TIMEOUT * 2 + FLUSH_SLACK);
    assert_eq!(flush_budget(3), FLUSH_CEILING);
}

#[test]
fn flush_budget_stops_at_the_ceiling() {
    assert_eq!(flush_budget(50), FLUSH_CEILING);
    assert_eq!(flush_budget(usize::MAX), FLUSH_CEILING);
}

#[test]
fn inert_handle_runs_nothing() {
    let mut cmux = Cmux::detect(false, Some(spawner()));
    assert!(!cmux.available());

    cmux.set_status("k", "v", StatusStyle::default());
    cmux.clear_status("k");
    cmux.notify("t", "b");
    assert!(cmux.calls().is_empty());

    let mut guard = cmux.guard("k", true);
    guard.phase("p", StatusStyle::default());
    assert!(ended(guard, 0).is_empty());
}

#[test]
fn a_handle_without_a_target_is_not_available() {
    let mut cmux = Cmux::detect(true, None);
    assert!(!cmux.available());
    cmux.set_status("k", "v", StatusStyle::default());
    assert!(cmux.calls().is_empty());
    assert!(Cmux::detect(true, Some(spawner())).available());
}

#[test]
fn handle_routes_each_verb_through_the_runner() {
    let mut cmux = Cmux::recording();
    cmux.set_status("k", "v", StatusStyle::default());
    cmux.clear_status("k");
    cmux.notify("t", "b");

    assert_eq!(
        cmux.take_calls(),
        vec![
            vec!["set-status", "k", "v"],
            vec!["clear-status", "k"],
            vec!["notify", "--title", "t", "--body", "b"],
        ]
    );
    assert!(cmux.calls().is_empty());
}

#[test]
fn guard_clears_on_drop_after_a_phase() {
    let cmux = Cmux::recording();
    let mut guard = cmux.guard("build", true);
    guard.phase("Pulling", StatusStyle::default());

    assert_eq!(
        ended(guard, 0),
        vec![
            vec!["set-status", "build", "Pulling"],
            vec!["clear-status", "build"],
        ]
    );
}

#[test]
fn guard_without_a_phase_clears_nothing() {
    let cmux = Cmux::recording();
    let guard = cmux.guard("build", true);
    assert!(ended(guard, 0).is_empty());
}

#[test]
fn guard_phase_reuses_its_key_and_style() {
    let cmux = Cmux::recording();
    let mut guard = cmux.guard("build", true);
    guard.phase("Pulling", StatusStyle::default());
    guard.phase(
        "Building",
        StatusStyle { icon: Some("hammer"), ..Default::default() },
    );

    let calls = ended(guard, 0);
    assert_eq!(
        calls[1],
        vec!["set-status", "build", "Building", "--icon", "hammer"]
    );
}

#[test]
fn guard_disabled_by_config_is_inert() {
    let cmux = Cmux::recording();
    let mut guard = cmux.guard("build", false);
    assert!(!guard.available());

    guard.phase("Pulling", StatusStyle::default());
    assert!(ended(guard, 0).is_empty());
}

#[test]
fn guard_disarm_skips_the_clear() {
    let cmux = Cmux::recording();
    let mut guard = cmux.guard("build", true);
    guard.phase("Pulling", StatusStyle::default());
    guard.disarm();

    assert_eq!(ended(guard, 0).len(), 1);
}

#[test]
fn guard_clear_is_made_once() {
    let cmux = Cmux::recording();
    let mut guard = cmux.guard("build", true);
    guard.phase("Pulling", StatusStyle::default());
    guard.clear();

    assert_eq!(
        ended(guard, 0),
        vec![
            vec!["set-status", "build", "Pulling"],
            vec!["clear-status", "build"],
        ]
    );
}

#[test]
fn guard_notifies_after_the_threshold_with_the_outcome() {
    let cmux = Cmux::recording();
    let mut guard = cmux.guard("build", true).notify_after("dev up", 0);
    guard.succeeded("ready in 3s");

    assert_eq!(
        ended(guard, 0).last(),
        Some(&vec![
            "notify".to_string(),
            "--title".to_string(),
            "dev up".to_string(),
            "--body".to_string(),
            "ready in 3s".to_string(),
        ])
    );
}

#[test]
fn guard_notifies_failed_when_no_outcome_was_recorded() {
    let cmux = Cmux::recording();
    let guard = cmux.guard("build", true).notify_after("dev up", 0);

    assert_eq!(
        ended(guard, 0).last(),
        Some(&vec![
            "notify".to_string(),
            "--title".to_string(),
            "dev up".to_string(),
            "--body".to_string(),
            "failed".to_string(),
        ])
    );
}

#[test]
fn guard_stays_quiet_under_the_threshold() {
    let cmux = Cmux::recording();
    let guard = cmux
        .guard("build", true)
        .notify_after("dev up", 3600 * 1_000_000_000);

    assert!(ended(guard, 1_000_000).is_empty());
}

fn assert_shareable<T: Send + Sync>() {}

#[test]
fn guard_is_send_and_sync() {
    assert_shareable::<StatusGuard>();
    assert_shareable::<Cmux>();
}
