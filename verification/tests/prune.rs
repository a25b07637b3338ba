use dev_cli::prune::{
    bare_tag, compose_project_filter, dry_run_report, is_derived_feature_suffix, keep_set, reject_unsupported_runtime,
    sweep_plan, sweep_step, unknown_family, ImageInfo, KeepSet, Sweep, SweepPlan, SweepStep,
};

const LABEL: &str = "dev.workspace";

const FOLDER: &str = "vsc-ws-0000000000000000000000000000000000000000000000000000000000000000";

fn image(id: &str, tags: &[String]) -> ImageInfo {
    ImageInfo { id: id.to_string(), repo_tags: tags.to_vec(), labels: vec![] }
}

fn latest(names: &[&String]) -> Vec<ImageInfo> {
    names.iter().map(|name| image("sha256:aaaa", &[format!("{name}:latest")])).collect()
}

fn tag(digest: &str) -> String {
    format!("{FOLDER}-features-{digest}")
}

/// What is kept where this tag is current and containers run these images.
fn keeping(current: &str, containers: &[&str]) -> KeepSet {
    keep_set(
        FOLDER.to_string(),
        format!("{FOLDER}-uid"),
        &vec![Some((current.to_string(), format!("{current}-uid")))],
        &containers.iter().map(|c| c.to_string()).collect(),
    )
}

fn plan(images: Vec<ImageInfo>, keep: &KeepSet) -> SweepPlan {
    sweep_plan(&images, keep, FOLDER, LABEL)
}

#[test]
fn sweep_plan_reports_only_existing_images_as_kept() {
    let folder_image =
        "vsc-ws-0000000000000000000000000000000000000000000000000000000000000000";
    let current = format!("{folder_image}-features-eeeeeeeeeeee");
    let stale = format!("{folder_image}-features-aaaaaaaaaaaa");
    let keep = KeepSet {
        current: vec![current.clone(), format!("{current}-uid")],
        in_use: vec![stale.clone()],
    };
    let images = vec![
        ImageInfo {
            id: "sha256:aaaa".to_string(),
            repo_tags: vec![format!("{current}:latest")],
            labels: vec![],
        },
        ImageInfo {
            id: "sha256:bbbb".to_string(),
            repo_tags: vec![format!("{stale}:latest")],
            labels: vec![],
        },
    ];

    let plan = sweep_plan(&images, &keep, folder_image, LABEL);

    assert_eq!(
        plan.kept_current,
        vec![format!("{current}:latest")],
        "the never-built -uid tag is not reported"
    );
    assert_eq!(
        plan.kept_in_use,
        vec![format!("{stale}:latest")],
        "container-kept images are labeled in use, not current"
    );
    assert!(plan.stale.is_empty());
}

#[test]
fn prune_removes_only_superseded_feature_images_for_this_workspace() {
    let (current, stale) = (tag("eeeeeeeeeeee"), tag("aaaaaaaaaaaa"));
    let (current_uid, stale_uid) = (format!("{current}-uid"), format!("{stale}-uid"));
    let other = "vsc-other-0000-features-bbbbbbbbbbbb".to_string();
    let folder = FOLDER.to_string();
    let images = latest(&[&folder, &current, &current_uid, &stale, &stale_uid, &other]);
    let plan = plan(images, &keeping(&current, &[]));
    assert_eq!(plan.stale, vec![format!("{stale_uid}:latest"), format!("{stale}:latest")]);
    assert_eq!(plan.kept_current, vec![format!("{current_uid}:latest"), format!("{current}:latest")]);
}

#[test]
fn prune_keeps_images_referenced_by_existing_containers() {
    let (current, stale) = (tag("eeeeeeeeeeee"), tag("aaaaaaaaaaaa"));
    let plan = plan(latest(&[&current, &stale]), &keeping(&current, &[&stale]));
    assert!(plan.stale.is_empty(), "a stopped container's image is not superseded");
}

#[test]
fn dry_run_reports_but_removes_nothing() {
    let (current, stale) = (tag("eeeeeeeeeeee"), tag("aaaaaaaaaaaa"));
    let plan = plan(latest(&[&current, &stale]), &keeping(&current, &[]));
    let expected = vec![
        format!("would remove {stale}:latest"),
        format!("keeping {current}:latest (current)"),
    ];
    assert_eq!(dry_run_report(&plan), expected);
    assert!(matches!(sweep_step(&plan, true), SweepStep::Say(lines) if lines == expected));
    assert!(matches!(sweep_step(&plan, false), SweepStep::Remove));
}

#[test]
fn nothing_to_sweep_is_said() {
    let current = tag("eeeeeeeeeeee");
    let plan = plan(latest(&[&current]), &keeping(&current, &[]));
    assert!(matches!(
        sweep_step(&plan, false),
        SweepStep::Say(lines) if lines == vec!["No superseded feature images for this workspace."]
    ));
}

#[test]
fn prune_without_config_refuses_with_guidance() {
    let message = unknown_family("no config", FOLDER);
    assert!(message.contains("nothing will be removed"), "{message}");
    assert!(message.ends_with(&format!("'reference={FOLDER}-features-*'")), "{message}");
    assert_eq!(compose_project_filter("p"), "com.docker.compose.project=p");
    assert!(reject_unsupported_runtime("apple").is_err());
    assert!(reject_unsupported_runtime("docker").is_ok());
}

#[test]
fn per_image_removal_failure_does_not_abort_the_rest() {
    let plan = SweepPlan {
        stale: vec!["a:latest".to_string(), "b:latest".to_string()],
        dangling: vec!["sha256:c".to_string()],
        kept_current: vec![],
        kept_in_use: vec![],
    };
    let mut sweep = Sweep::new(&plan);
    assert_eq!(sweep.next().as_deref(), Some("a:latest"));
    assert_eq!(sweep.removed(&Some("image is in use by a container".to_string())), None);
    assert_eq!(sweep.next().as_deref(), Some("b:latest"));
    assert_eq!(sweep.removed(&None).as_deref(), Some("removed b:latest"));
    assert_eq!(sweep.removed(&None).as_deref(), Some("removed sha256:c"));
    assert_eq!(sweep.next(), None);
    let message = sweep.finish().expect_err("the refused removal is still reported");
    assert!(message.contains("a:latest"), "{message}");
    assert!(message.contains("image is in use by a container"), "{message}");
}

#[test]
fn prune_keeps_the_no_base_variant_of_the_current_tag() {
    let (with_base, without_base) = (tag("eeeeeeeeeeee"), tag("dddddddddddd"));
    let families = vec![
        Some((with_base.clone(), format!("{with_base}-uid"))),
        None,
        Some((without_base.clone(), format!("{without_base}-uid"))),
    ];
    let keep = keep_set(FOLDER.to_string(), format!("{FOLDER}-uid"), &families, &vec![]);
    assert!(plan(latest(&[&with_base, &without_base]), &keep).stale.is_empty());
}

#[test]
fn prune_never_touches_compose_service_images_under_the_prefix() {
    let current = tag("eeeeeeeeeeee");
    let service = format!("{FOLDER}-features-api");
    assert!(plan(latest(&[&current, &service]), &keeping(&current, &[])).stale.is_empty());
    assert!(is_derived_feature_suffix("0123456789ab"));
    assert!(is_derived_feature_suffix("0123456789ab-uid"));
    assert!(!is_derived_feature_suffix("0123456789AB"));
    assert!(!is_derived_feature_suffix("0123456789a"));
}

#[test]
fn prune_leaves_user_applied_tags_alone() {
    let (current, stale) = (tag("eeeeeeeeeeee"), tag("aaaaaaaaaaaa"));
    let mut images = latest(&[&current]);
    images.push(image("sha256:aaaa", &[format!("{stale}:latest"), format!("{stale}:backup")]));
    assert_eq!(plan(images, &keeping(&current, &[])).stale, vec![format!("{stale}:latest")]);
}

#[test]
fn prune_recognizes_podman_localhost_prefixed_tags() {
    let (current, stale) = (tag("eeeeeeeeeeee"), tag("aaaaaaaaaaaa"));
    let images = vec![
        image("sha256:aaaa", &[format!("localhost/{stale}:latest")]),
        image("sha256:bbbb", &[format!("localhost/{current}:latest")]),
    ];
    assert_eq!(
        plan(images, &keeping(&current, &[])).stale,
        vec![format!("localhost/{stale}:latest")]
    );
    assert_eq!(bare_tag("localhost/x:latest"), "x");
    assert_eq!(bare_tag("x:1"), "x:1");
}

#[test]
fn prune_removes_uid_children_before_their_parents() {
    let (current, stale) = (tag("eeeeeeeeeeee"), tag("aaaaaaaaaaaa"));
    let stale_uid = format!("{stale}-uid");
    assert_eq!(
        plan(latest(&[&current, &stale, &stale_uid]), &keeping(&current, &[])).stale,
        vec![format!("{stale_uid}:latest"), format!("{stale}:latest")]
    );
}

#[test]
fn prune_removes_this_workspace_dangling_images_by_label() {
    let current = tag("eeeeeeeeeeee");
    let labelled = |id: &str, owner: &str| ImageInfo {
        id: id.to_string(),
        repo_tags: vec![],
        labels: vec![(LABEL.to_string(), owner.to_string())],
    };
    let mut images = latest(&[&current]);
    images.push(labelled("sha256:aaaa", FOLDER));
    images.push(image("sha256:bbbb", &["<none>:<none>".to_string()]));
    images.push(labelled("sha256:cccc", "vsc-other"));
    images.push(labelled("sha256:dddd", FOLDER));
    let plan = plan(images, &keeping(&current, &["sha256:dddd"]));
    assert_eq!(plan.dangling, vec!["sha256:aaaa"]);
    assert!(plan.stale.is_empty());
}
