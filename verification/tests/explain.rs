use dev_cli::explain::report::{explain, ConfigSource, ExplainReport, LayerFile, LayerId, MergedConfig};
use dev_cli::explain::{origin_sort_key, parse_origin_path, resolve_path, sorted_origins, OriginPath};

fn document(text: &str) -> serde_json::Value {
    serde_json::from_str(text).expect("the document is JSON")
}

fn texts(parts: &[&str]) -> Vec<String> {
    parts.iter().map(|s| s.to_string()).collect()
}

fn file(path: &str, present: bool, credited: &[&str]) -> LayerFile {
    LayerFile { path: path.to_string(), present, credited: texts(credited) }
}

fn direct(credited: &[&str]) -> ConfigSource {
    ConfigSource::Direct {
        config_path: "/ws/.devcontainer/devcontainer.json".to_string(),
        credited: texts(credited),
    }
}

/// A report on a direct project, with the paths that the base file and the project
/// are credited with.
fn report(config: &str, base: &[&str], project: &[&str], allowed: bool) -> ExplainReport {
    explained(direct(project), base, true, config, allowed)
}

fn explained(
    source: ConfigSource,
    base: &[&str],
    include_base: bool,
    config: &str,
    allowed: bool,
) -> ExplainReport {
    explain(
        "/ws".to_string(),
        "docker".to_string(),
        source,
        file("/home/base.json", true, base),
        include_base,
        allowed,
        MergedConfig { config: document(config), dropped: vec![] },
    )
}

/// The layer that a path is credited to.
fn origin<'a>(report: &'a ExplainReport, path: &str) -> &'a LayerId {
    &report.origins.iter().find(|(of, _)| of == path).expect("the path has an origin").1
}

#[test]
fn explain_reports_base_and_project_origins_for_a_direct_project() {
    let report = report(
        r#"{"image": "ubuntu:24.04", "remoteUser": "vscode", "containerEnv": {"EDITOR": "vim", "TERM": "xterm"}}"#,
        &["containerEnv.EDITOR", "remoteUser"],
        &["containerEnv.TERM", "image"],
        false,
    );
    assert_eq!(report.kind, "direct");
    assert_eq!(origin(&report, "image"), &LayerId::Project);
    assert_eq!(origin(&report, "remoteUser"), &LayerId::Base);
    assert_eq!(origin(&report, "containerEnv.EDITOR"), &LayerId::Base);
    assert_eq!(origin(&report, "containerEnv.TERM"), &LayerId::Project);
    assert!(report.dropped.is_empty());
    let rendered = report.render();
    assert!(
        rendered.contains("remoteUser = \"vscode\"  <- base"),
        "{rendered}"
    );
    assert!(rendered.contains("containerEnv.TERM = \"xterm\"  <- project\n"), "{rendered}");
    assert!(rendered.starts_with("# effective config for /ws (direct project, runtime layer: docker)\n"));
    assert!(rendered.contains("#   base                     /home/base.json\n"), "{rendered}");
    assert!(rendered.contains("#   project                  /ws/.devcontainer/devcontainer.json\n"), "{rendered}");
    assert!(rendered.ends_with("`dev up --ports` applies after this merge.\n"));
}

#[test]
fn explain_reports_the_relay_consent_outside_the_merged_keys() {
    let report = report(
        r#"{"image": "ubuntu:24.04", "sshAgent": {"relay": true}}"#,
        &[],
        &["image", "sshAgent.relay"],
        true,
    );
    let rendered = report.render();
    assert_eq!(origin(&report, "sshAgent.relay"), &LayerId::Project);
    assert!(rendered.contains("allowed by     /home/base.json"), "{rendered}");
    assert!(rendered.contains("requested by   project"), "{rendered}");
    assert!(rendered.contains("effective      on"), "{rendered}");
    assert_eq!(report.to_json()["sshAgentRelay"]["effective"], true);
    assert_eq!(report.to_json()["sshAgentRelay"]["allowedBy"], "/home/base.json");
}

#[test]
fn explain_reports_a_relay_request_the_base_did_not_allow() {
    let report = report(
        r#"{"image": "ubuntu:24.04", "sshAgent": {"relay": true, "allowRelay": true}}"#,
        &[],
        &["image", "sshAgent.allowRelay", "sshAgent.relay"],
        false,
    );
    let rendered = report.render();
    assert_eq!(
        origin(&report, "sshAgent.allowRelay"),
        &LayerId::Project,
        "the merged document is reported as it is"
    );
    assert!(
        rendered.contains("not allowed (/home/base.json does not set sshAgent.allowRelay)"),
        "{rendered}"
    );
    assert!(rendered.contains("effective      off"), "{rendered}");
    assert_eq!(report.to_json()["sshAgentRelay"]["allowedBy"], serde_json::Value::Null);
    assert_eq!(
        report.to_json()["sshAgentRelay"]["requestedBy"],
        "project",
        "the user should still see that the project asked"
    );
}

#[test]
fn a_relay_nobody_asked_for_is_off() {
    let quiet = report(r#"{"sshAgent": {"relay": "yes"}}"#, &[], &["sshAgent.relay"], true);
    assert!(!quiet.relay_requested());
    assert!(!quiet.relay_effective());
    assert!(quiet.render_relay().contains("requested by   not requested\n"));
    assert_eq!(quiet.to_json()["sshAgentRelay"]["requestedBy"], serde_json::Value::Null);
    let unrecorded = report(r#"{"sshAgent": {"relay": true}}"#, &[], &[], true);
    assert!(unrecorded.render_relay().contains("requested by   requested, layer unrecorded\n"));
    assert_eq!(
        unrecorded.render_relay(),
        "# ssh agent relay (decided outside the merge; the permission is read from the base file alone):\n\
         #   allowed by     /home/base.json (sshAgent.allowRelay)\n\
         #   requested by   requested, layer unrecorded\n\
         #   effective      on\n"
    );
}

#[test]
fn explain_reports_cmux_sub_key_origins() {
    let report = report(
        r#"{"image": "ubuntu:24.04", "cmux": {"status": true, "agent": false}}"#,
        &["cmux.status"],
        &["cmux.agent", "image"],
        false,
    );
    assert_eq!(origin(&report, "cmux.status"), &LayerId::Base);
    assert_eq!(origin(&report, "cmux.agent"), &LayerId::Project);
    assert_eq!(report.config["cmux"]["status"], true);
    let rendered = report.render();
    assert!(rendered.contains("cmux.status = true  <- base\n"), "{rendered}");
    assert!(rendered.contains("cmux.agent = false  <- project\n"), "{rendered}");
}

#[test]
fn explain_reports_selector_precedence_drops() {
    let mut report = report(
        r#"{"build": {"dockerfile": "Dockerfile"}}"#,
        &["image"],
        &["build.dockerfile"],
        false,
    );
    report.dropped = vec!["image".to_string()];
    let rendered = report.render();
    assert!(rendered.contains("dropped by selector precedence: image"));
    assert!(!rendered.contains("image ="), "a path that leads nowhere has no line: {rendered}");
    assert_eq!(report.to_json()["dropped"][0], "image");
}

#[test]
fn explain_without_base_reports_project_only() {
    let report = explained(direct(&["image"]), &["remoteUser"], false, "{}", true);
    assert!(report.origins.iter().all(|(path, layer)| path != "remoteUser" && *layer != LayerId::Base));
    assert!(report.layers.iter().all(|l| l.id.text() != "base"));
    assert_eq!(report.layers.len(), 1);
    assert_eq!(report.relay.base, "/home/base.json");
    assert!(report.relay.allowed, "the permission is the base file's either way");

    let with_base = explained(direct(&["image"]), &["remoteUser"], true, "{}", true);
    assert_eq!(with_base.layers[0].id, LayerId::Base);
    assert!(with_base.layers[0].present);
    assert_eq!(origin(&with_base, "remoteUser"), &LayerId::Base);
    assert_eq!(with_base.relay, report.relay);
}

fn recipe() -> ConfigSource {
    ConfigSource::Recipe {
        recipe_path: "/ws/recipe.json".to_string(),
        template_name: "template rust-dev".to_string(),
        template: file("/t", true, &["image"]),
        runtime_name: "runtime docker".to_string(),
        runtime: file("/r", false, &["containerEnv.RUNTIME"]),
        features_name: "recipe-features".to_string(),
        features: texts(&["features[\"ghcr.io/devcontainers/features/node:1\"]"]),
        customizations: texts(&["postCreateCommand.setup"]),
    }
}

#[test]
fn a_recipe_without_the_base_has_four_layers() {
    let report = explained(recipe(), &["remoteUser"], false, "{}", false);
    assert_eq!(report.layers.len(), 4);
    assert!(report.layers.iter().all(|l| l.id != LayerId::Base));
    assert_eq!(report.origins.len(), 4);
    assert!(report.origins.iter().all(|(_, layer)| *layer != LayerId::Base));
}

#[test]
fn explain_json_shape_for_a_recipe_project() {
    let report = explained(
        recipe(),
        &["remoteUser"],
        true,
        r#"{"image": "rust:1", "remoteUser": "vscode", "features": {"ghcr.io/devcontainers/features/node:1": {}}, "postCreateCommand": {"setup": "cargo fetch"}}"#,
        false,
    );
    assert_eq!(report.kind, "recipe");
    assert!(matches!(origin(&report, "image"), LayerId::GlobalTemplate(_)));
    assert_eq!(origin(&report, "remoteUser"), &LayerId::Base);
    assert!(matches!(origin(&report, "containerEnv.RUNTIME"), LayerId::Runtime(_)));
    assert!(matches!(
        origin(&report, "features[\"ghcr.io/devcontainers/features/node:1\"]"),
        LayerId::RecipeFeatures(_)
    ));
    assert_eq!(origin(&report, "postCreateCommand.setup"), &LayerId::RecipeCustomizations);

    let json = report.to_json();
    assert_eq!(json["kind"], "recipe");
    assert_eq!(json["origins"]["remoteUser"], "base");
    assert_eq!(
        json["origins"]["postCreateCommand.setup"],
        "recipe-customizations"
    );
    assert_eq!(json["layers"].as_array().unwrap().len(), 5);
    assert_eq!(json["layers"][2]["present"], false);
    assert_eq!(json["layers"][4]["id"], "recipe-customizations");
    assert_eq!(json["config"]["image"], "rust:1");
    assert_eq!(json["notes"][0], "variables-unexpanded");
    let rendered = report.render();
    assert!(rendered.contains("#   runtime docker           /r   (absent)\n"), "{rendered}");
    assert!(
        rendered.contains("features[\"ghcr.io/devcontainers/features/node:1\"] = {}  <- recipe-features\n"),
        "{rendered}"
    );
}

#[test]
fn json_origins_keep_numeric_array_order() {
    let mut report = report("{}", &[], &[], false);
    report.layers = vec![];
    report.origins = ["mounts[0]", "mounts[1]", "mounts[10]", "mounts[11]", "mounts[2]"]
        .iter()
        .map(|path| (path.to_string(), LayerId::Project))
        .collect();
    let keys: Vec<String> = report.to_json()["origins"]
        .as_object()
        .unwrap()
        .keys()
        .cloned()
        .collect();
    assert_eq!(
        keys,
        [
            "mounts[0]",
            "mounts[1]",
            "mounts[2]",
            "mounts[10]",
            "mounts[11]"
        ]
    );
}

#[test]
fn origins_keep_their_text_order_where_no_number_decides() {
    let origins: Vec<(String, String)> = ["b", "a.z", "m[10]", "m[2]", "m", "m[x]", "a"]
        .iter()
        .map(|path| (path.to_string(), "l".to_string()))
        .collect();
    let paths: Vec<String> = sorted_origins(&origins).into_iter().map(|o| o.path).collect();
    assert_eq!(paths, ["a", "a.z", "b", "m", "m[2]", "m[10]", "m[x]"]);
    assert_eq!(origin_sort_key("m[10]"), ("m".to_string(), 10));
    assert_eq!(origin_sort_key("m[x]"), ("m[x]".to_string(), 0));
}

#[test]
fn paths_are_taken_apart_by_their_shape() {
    let key = || "key".to_string();
    assert_eq!(parse_origin_path("key"), Some(OriginPath::Plain(key())));
    assert_eq!(parse_origin_path("key.sub.more"), Some(OriginPath::Sub(key(), "sub.more".to_string())));
    assert_eq!(parse_origin_path("key[12]"), Some(OriginPath::Index(key(), 12)));
    assert_eq!(parse_origin_path("key[\"a.b[1]\"]"), Some(OriginPath::Quoted(key(), "a.b[1]".to_string())));
    assert_eq!(parse_origin_path("key[12"), None);
    assert_eq!(parse_origin_path("key[-1]"), None);
    assert_eq!(parse_origin_path("key[\"]"), None);
    assert_eq!(parse_origin_path("key[\"\"]"), Some(OriginPath::Quoted(key(), String::new())));
}

#[test]
fn paths_lead_to_values_or_nowhere() {
    let config = document(r#"{"a": 1, "b": {"c": [true]}, "d": ["x", "y"], "f": {"g:1": {}}}"#);
    let found = |path: &str| resolve_path(&config, path).map(|v| v.to_string());
    assert_eq!(found("a"), Some("1".to_string()));
    assert_eq!(found("b.c"), Some("[true]".to_string()));
    assert_eq!(found("d[1]"), Some("\"y\"".to_string()));
    assert_eq!(found("d[2]"), None);
    assert_eq!(found("f[\"g:1\"]"), Some("{}".to_string()));
    assert_eq!(found("a.c"), None);
    assert_eq!(found("b[0]"), None);
    assert_eq!(found("x"), None);
}

#[test]
fn the_json_report_is_spread_over_lines() {
    let text = report(r#"{"image": "i"}"#, &[], &["image"], false).json_report().unwrap();
    assert!(text.starts_with("{\n  \"workspace\": \"/ws\",\n  \"kind\": \"direct\",\n"), "{text}");
    assert!(text.contains("\n  \"origins\": {\n    \"image\": \"project\"\n  },\n"), "{text}");
}
