//! What `dev up` says on its way, and when it stops.
use vstd::prelude::*;

use crate::text::{cat2, cat3, owned, texts};
use crate::up::flow::{Failure, Notice, UpRequest};
use crate::up::run_args::{reject_project_run_args_for_compose, reject_run_args_unsupported_by_runtime};
use crate::up::secrets::{
    reject_secrets_file_for_compose, reject_secrets_for_compose, reject_secrets_override_for_compose,
};

verus! {

impl Notice {
    /// What is said.
    pub open spec fn said(&self) -> Seq<char> {
        match self {
            Notice::AlreadyRunning(name) => "Container '"@ + name@ + "' is already running."@,
            Notice::StartingExisting(name) => "Starting existing container '"@ + name@ + "'..."@,
            Notice::Started(name) => "Container '"@ + name@ + "' started."@,
            Notice::RecreatingForPorts(name) => "Recreating container '"@ + name@
                + "' to apply port overrides..."@,
            Notice::RemovingExisting(name) => "Removing existing container '"@ + name@ + "'..."@,
            Notice::SkippingBuild(tag) => "Image '"@ + tag@ + "' already exists, skipping build."@,
            Notice::BuildingFromDockerfile => "Building image from Dockerfile..."@,
            Notice::NoMetadata(image) => "Warning: image '"@ + image@
                + "' has no devcontainer metadata, so feature contributions (mounts, entrypoints, capabilities, lifecycle hooks) cannot be restored. Run 'dev up --rebuild' to rebuild it."@,
            Notice::Creating(name) => "Creating container '"@ + name@ + "'..."@,
            Notice::Starting(name) => "Starting container '"@ + name@ + "'..."@,
            Notice::Ready(name) => "Container '"@ + name@ + "' is ready."@,
            Notice::SitesFailed(e) => "Warning: Caddy setup failed: "@ + e@,
        }
    }

    /// What is said.
    pub fn text(&self) -> (r: String)
        ensures
            r@ == self.said(),
    {
        match self {
            Notice::AlreadyRunning(name) => cat3("Container '", name.as_str(), "' is already running."),
            Notice::StartingExisting(name) => cat3(
                "Starting existing container '",
                name.as_str(),
                "'...",
            ),
            Notice::Started(name) => cat3("Container '", name.as_str(), "' started."),
            Notice::RecreatingForPorts(name) => cat3(
                "Recreating container '",
                name.as_str(),
                "' to apply port overrides...",
            ),
            Notice::RemovingExisting(name) => cat3(
                "Removing existing container '",
                name.as_str(),
                "'...",
            ),
            Notice::SkippingBuild(tag) => cat3(
                "Image '",
                tag.as_str(),
                "' already exists, skipping build.",
            ),
            Notice::BuildingFromDockerfile => owned("Building image from Dockerfile..."),
            Notice::NoMetadata(image) => cat3(
                "Warning: image '",
                image.as_str(),
                "' has no devcontainer metadata, so feature contributions (mounts, entrypoints, capabilities, lifecycle hooks) cannot be restored. Run 'dev up --rebuild' to rebuild it.",
            ),
            Notice::Creating(name) => cat3("Creating container '", name.as_str(), "'..."),
            Notice::Starting(name) => cat3("Starting container '", name.as_str(), "'..."),
            Notice::Ready(name) => cat3("Container '", name.as_str(), "' is ready."),
            Notice::SitesFailed(e) => cat2("Warning: Caddy setup failed: ", e.as_str()),
        }
    }
}

/// What is said of a project that names nothing to make a container of.
pub open spec fn no_image_text() -> Seq<char> {
    "devcontainer.json must specify 'image', 'build.dockerfile', or 'dockerComposeFile'"@
}

impl Failure {
    /// The failure is one that the request can end in.
    pub open spec fn can_end(&self, req: UpRequest) -> bool {
        match self {
            Failure::Reported(_) => true,
            Failure::RunArgsOnCompose => crate::up::run_args::run_args_on_compose(
                req.config,
                req.project_declared_run_args,
            ),
            Failure::SecretsFileOnCompose => req.secrets_file is Some,
            Failure::SecretsOverrideOnCompose => req.secrets_override is Some,
            Failure::CreateTimeSecretsOnCompose(secrets) => crate::up::secrets::create_time_on_compose(
                req.config,
                *secrets,
            ),
            Failure::RunArgsUnsupported(resolved) => req.runtime_name@ == "apple"@
                && crate::up::run_args::flags_beyond_env(*resolved).len() > 0,
            Failure::NoImage => true,
        }
    }

    /// The message that `dev up` ends with.
    pub fn message(&self, req: &UpRequest) -> (r: String)
        requires
            self.can_end(*req),
        ensures
            match self {
                Failure::Reported(e) => r@ == e@,
                Failure::RunArgsOnCompose => r@
                    == "`runArgs` is not supported for Docker Compose devcontainers in `dev`; Compose has no global container-create argument channel. Put equivalent options on the configured Compose service definition instead."@,
                Failure::SecretsFileOnCompose => r@
                    == "`--secrets-file` is not supported for Docker Compose devcontainers in `dev`; Compose environment is written to a generated override file on disk, and `dev` never writes a secret value to disk. Remove `--secrets-file "@
                    + req.secrets_file->Some_0@
                    + "` and put the equivalent values on the configured Compose service definition (`environment:` or `env_file:`)."@,
                Failure::SecretsOverrideOnCompose => r@
                    == "`--secrets` is not supported for Docker Compose devcontainers in `dev`; `dev up` injects create-time secrets when it creates the container, and the Compose path creates containers through `docker compose up` instead. Remove `--secrets "@
                    + req.secrets_override->Some_0@
                    + "`; exec-time secrets come from the `secrets.json` beside the config, which `dev exec` and `dev shell` read on every invocation."@,
                Failure::CreateTimeSecretsOnCompose(secrets) => r@
                    == "create-time secrets are not supported for Docker Compose devcontainers in `dev`; they are injected as container environment when `dev` creates the container, and the Compose path creates containers through `docker compose up` instead. In "@
                    + secrets.source->Some_0@ + ", either add `\"createTime\": false` to "@
                    + crate::text::joined(crate::up::secrets::create_time_keys(*secrets), ", "@)
                    + " so the value is injected on `dev exec` and `dev shell` instead, or put the equivalent values on the configured Compose service definition (`environment:` or `env_file:`)."@,
                Failure::RunArgsUnsupported(resolved) => r@ == "`runArgs` flag(s) "@ + crate::text::joined(
                    crate::up::run_args::flags_beyond_env(*resolved),
                    ", "@,
                )
                    + " are not supported when the selected runtime is Apple Containers; Apple currently supports only the environment `runArgs` subset (`--env-file`, `--env`, and `-e`). Remove these flags or use runtime-supported devcontainer settings."@,
                Failure::NoImage => r@ == no_image_text(),
            },
    {
        let refusal = match self {
            Failure::Reported(e) => {
                return e.clone();
            },
            Failure::NoImage => {
                return owned(
                    "devcontainer.json must specify 'image', 'build.dockerfile', or 'dockerComposeFile'",
                );
            },
            Failure::RunArgsOnCompose => reject_project_run_args_for_compose(
                &req.config,
                req.project_declared_run_args,
            ),
            Failure::SecretsFileOnCompose => reject_secrets_file_for_compose(&req.secrets_file),
            Failure::SecretsOverrideOnCompose => reject_secrets_override_for_compose(
                &req.secrets_override,
            ),
            Failure::CreateTimeSecretsOnCompose(secrets) => reject_secrets_for_compose(
                &req.config,
                secrets,
            ),
            Failure::RunArgsUnsupported(resolved) => reject_run_args_unsupported_by_runtime(
                req.runtime_name.as_str(),
                resolved,
            ),
        };
        match refusal {
            Err(e) => e,
            Ok(_) => String::new(),
        }
    }
}

/// Every failure that `dev up` ends in is one that its request can end in.
pub proof fn failures_can_end(req: UpRequest, up: crate::up::flow::Up, event: crate::up::flow::UpEvent)
    requires
        crate::up::flow::fits(up.stage, event),
    ensures
        crate::up::flow::up_next(req, up, event).1.action matches crate::up::flow::UpAction::Fail(failure)
            ==> failure.can_end(req),
{
}

/// A label as a filter: `name=value`.
pub open spec fn filter_text(label: (String, String)) -> Seq<char> {
    label.0@ + "="@ + label.1@
}

/// The filters that select the containers with all of these labels.
pub fn label_filters(labels: &Vec<(String, String)>) -> (r: Vec<String>)
    ensures
        texts(r@) == labels@.map_values(|l: (String, String)| filter_text(l)),
{
    let ghost all = labels@.map_values(|l: (String, String)| filter_text(l));
    let mut out: Vec<String> = Vec::new();
    let mut i: usize = 0;
    assert(texts(out@) == all.take(0));
    while i < labels.len()
        invariant
            all == labels@.map_values(|l: (String, String)| filter_text(l)),
            i <= labels@.len(),
            texts(out@) == all.take(i as int),
        decreases labels@.len() - i,
    {
        let ghost before = texts(out@);
        let filter = cat3(labels[i].0.as_str(), "=", labels[i].1.as_str());
        out.push(filter);
        i = i + 1;
        proof {
            assert(texts(out@) == before.push(filter@));
            assert(all.take(i as int) == before.push(all[i - 1]));
        }
    }
    assert(all.take(all.len() as int) == all);
    out
}

/// What is said of the bind mounts of a container about to be created.
pub fn mounting_notice(count: usize) -> (r: Option<String>)
    ensures
        count == 0 ==> r is None,
        count > 0 ==> r is Some && r->Some_0@ == "Mounting "@ + crate::number::decimal_of(count as nat)
            + " bind mount(s)..."@,
{
    if count == 0 {
        return None;
    }
    let n = crate::number::show_unsigned(count as u64);
    Some(cat3("Mounting ", n.as_str(), " bind mount(s)..."))
}

/// What is said on the way names the container or the image that it is about.
pub proof fn what_is_said_names_what_it_is_about(name: String)
    ensures
        Notice::AlreadyRunning(name).said() == "Container '"@ + name@ + "' is already running."@,
        Notice::Started(name).said() == "Container '"@ + name@ + "' started."@,
        Notice::Ready(name).said() == "Container '"@ + name@ + "' is ready."@,
        Notice::StartingExisting(name).said() == "Starting existing container '"@ + name@ + "'..."@,
        Notice::RecreatingForPorts(name).said() == "Recreating container '"@ + name@
            + "' to apply port overrides..."@,
        Notice::RemovingExisting(name).said() == "Removing existing container '"@ + name@ + "'..."@,
        Notice::Creating(name).said() == "Creating container '"@ + name@ + "'..."@,
        Notice::Starting(name).said() == "Starting container '"@ + name@ + "'..."@,
        Notice::SkippingBuild(name).said() == "Image '"@ + name@ + "' already exists, skipping build."@,
        Notice::BuildingFromDockerfile.said() == "Building image from Dockerfile..."@,
        Notice::SitesFailed(name).said() == "Warning: Caddy setup failed: "@ + name@,
        no_image_text() == "devcontainer.json must specify 'image', 'build.dockerfile', or 'dockerComposeFile'"@,
{
}

/// A filter is a label's name, an equals sign and its value: it is cut back into the two
/// where the name has no equals sign in it.
pub proof fn filters_are_cut_back_into_labels(label: (String, String))
    requires
        !label.0@.contains('='),
    ensures
        crate::text::cut_once(filter_text(label), '=') == Some((label.0@, label.1@)),
{
    reveal_strlit("=");
    assert("="@ =~= seq!['=']);
    crate::text::laws::a_text_is_cut_at_the_first(label.0@, '=', label.1@);
}

} // verus!
