use dev_cli::cmux::{Cmux, BUILD_KEY};
use dev_cli::image_build::{
    image_source, step, user_or_root, BuildAction, BuildEvent, BuildPhase, BuildRequest, BuildStage, ImageSource,
};
use dev_cli::model::{BuildConfig, DevcontainerConfig};

fn request(source: ImageSource, features: usize, tag: Option<&str>) -> BuildRequest {
    BuildRequest {
        source,
        tag: tag.map(str::to_string),
        folder_image: "folder".to_string(),
        feature_tag: "folder-features-0123".to_string(),
        features,
    }
}

/// The labels of the phases, and the last action, over these events.
fn run(req: &BuildRequest, events: Vec<BuildEvent>) -> (Vec<String>, BuildAction) {
    let mut stage = BuildStage::Start;
    let mut phases = vec![];
    let mut last = BuildAction::FailUnstated;
    for event in events {
        let (next, said) = step(req, stage, event);
        stage = next;
        if let Some(phase) = said.phase {
            phases.push(phase.label());
        }
        last = said.action;
    }
    (phases, last)
}

fn user(remap: bool) -> BuildEvent {
    BuildEvent::User { user: Some("dev".to_string()), remap }
}

#[test]
fn build_clears_pill_after_printing_tag() {
    let req = request(ImageSource::Image("ubuntu:24.04".to_string()), 0, None);
    let cmux = Cmux::recording();
    let mut pill = cmux.guard(BUILD_KEY, true);
    let (stage, said) = step(&req, BuildStage::Start, BuildEvent::Begin);
    said.phase.unwrap().show(&mut pill);
    assert_eq!(said.notice.unwrap().text(), "Pulling image 'ubuntu:24.04'...");
    let (_, said) = step(&req, stage, BuildEvent::Done);
    assert_eq!(said.action.output().as_deref(), Some("ubuntu:24.04"));

    let calls = pill.finish(0).0;
    assert_eq!(calls.len(), 2, "expected pull then clear, got: {calls:?}");
    assert_eq!(
        calls[0][..3],
        ["set-status", BUILD_KEY, "build: pulling image"]
    );
    assert_eq!(
        calls[1],
        vec!["clear-status".to_string(), BUILD_KEY.to_string()]
    );
}

#[test]
fn build_without_cmux_key_makes_no_calls() {
    let cmux = Cmux::recording();
    let mut pill = cmux.guard(BUILD_KEY, false);
    BuildPhase::Pull.show(&mut pill);
    assert!(pill.finish(0).0.is_empty());
}

#[test]
fn a_dockerfile_without_features_is_built_under_the_final_tag() {
    let req = request(ImageSource::Dockerfile, 0, Some("mine"));
    let (phases, last) = run(&req, vec![BuildEvent::Begin, BuildEvent::Done]);
    assert_eq!(phases, ["build: building image"]);
    assert!(matches!(last, BuildAction::BuildImage(tag) if tag == "mine"));
    let (_, last) = run(&req, vec![BuildEvent::Begin, BuildEvent::Done, BuildEvent::Done, user(false)]);
    assert!(matches!(last, BuildAction::PrintTag(tag) if tag == "mine"));
}

#[test]
fn features_are_built_on_top_and_the_id_is_changed_last() {
    let req = request(ImageSource::Dockerfile, 2, None);
    let mut events = vec![
        BuildEvent::Begin,
        BuildEvent::Done,
        BuildEvent::Done,
        BuildEvent::Done,
        BuildEvent::Done,
        BuildEvent::Done,
        user(true),
        BuildEvent::Done,
        BuildEvent::Done,
        BuildEvent::ImageUser(None),
    ];
    let (phases, last) = run(&req, {
        let mut copy = vec![];
        copy.append(&mut events);
        copy
    });
    assert_eq!(
        phases,
        [
            "build: building image",
            "build: downloading features",
            "build: building features",
            "build: remapping uid",
        ]
    );
    match last {
        BuildAction::BuildUid { tag, user, image_user } => {
            assert_eq!(tag, "folder-features-0123");
            assert_eq!(user_or_root(&user), "dev");
            assert_eq!(user_or_root(&image_user), "root");
        }
        _ => panic!("the user's id is changed last"),
    }
    let (_, said) = step(&req, BuildStage::BuildUid, BuildEvent::Named("folder-uid".to_string()));
    assert_eq!(said.action.output().as_deref(), Some("folder-uid"));
}

#[test]
fn compose_services_are_named_where_nothing_is_put_on_top() {
    let req = request(ImageSource::Compose(Some("app".to_string())), 0, None);
    let (phases, last) = run(&req, vec![BuildEvent::Begin, BuildEvent::Done]);
    assert_eq!(phases, ["build: building compose services"]);
    assert_eq!(last.output().as_deref(), Some("compose:app"));
    let req = request(ImageSource::Compose(Some("app".to_string())), 1, None);
    let (_, last) = run(&req, vec![BuildEvent::Begin, BuildEvent::Done]);
    assert!(matches!(last, BuildAction::ServiceImage(service) if service == "app"));
}

#[test]
fn what_names_no_image_is_refused() {
    let (_, last) = run(&request(ImageSource::Compose(None), 0, None), vec![BuildEvent::Begin]);
    assert_eq!(last.output().as_deref(), Some("Docker Compose config must specify 'service'"));
    let (_, last) = run(&request(ImageSource::Unstated, 0, None), vec![BuildEvent::Begin]);
    assert_eq!(
        last.output().as_deref(),
        Some("devcontainer.json must specify 'image', 'build.dockerfile', or 'dockerComposeFile'")
    );
}

#[test]
fn a_failed_build_removes_what_was_laid_out() {
    let req = request(ImageSource::Image("i".to_string()), 1, None);
    let stage = BuildStage::BuildFeatures { user: None, remap: true };
    let (stage, said) = step(&req, stage, BuildEvent::Failed("no space".to_string()));
    assert!(matches!(said.action, BuildAction::RemoveStaging));
    let (_, said) = step(&req, stage, BuildEvent::Done);
    assert!(matches!(said.action, BuildAction::Fail(e) if e == "no space"));
}

#[test]
fn an_image_outranks_a_dockerfile_and_that_a_compose_project() {
    let mut config = DevcontainerConfig {
        docker_compose_file: Some(vec!["compose.yml".to_string()]),
        ..Default::default()
    };
    assert!(matches!(image_source(&config), ImageSource::Compose(None)));
    config.build = Some(BuildConfig { dockerfile: "Dockerfile".to_string(), context: None });
    assert!(matches!(image_source(&config), ImageSource::Dockerfile));
    config.image = Some("i".to_string());
    assert!(matches!(image_source(&config), ImageSource::Image(image) if image == "i"));
    assert!(matches!(image_source(&DevcontainerConfig::default()), ImageSource::Unstated));
}
