//! The order of `dev up`: what is done next, given what came of the last thing
//! that was done.
use vstd::prelude::*;

use crate::model::{copy_opt, ContainerInfo, ContainerState, DevcontainerConfig};
use crate::text::texts;
use crate::up::run_args::{
    reject_project_run_args_for_compose, reject_run_args_unsupported_by_runtime, ResolvedRunArgs,
};
use crate::up::secrets::{create_time_entries, reject_secrets_for_compose, ValidatedSecrets};

verus! {

/// What `dev up` was asked for, and the project it is for.
pub struct UpRequest {
    pub config: DevcontainerConfig,
    /// The project's own document declares `runArgs`.
    pub project_declared_run_args: bool,
    pub runtime_name: String,
    /// The name of the workspace's container, and of the image built for it.
    pub name: String,
    /// The labels of the workspace's containers, the workspace's folder first.
    pub labels: Vec<(String, String)>,
    pub rebuild: bool,
    pub no_cache: bool,
    /// `--ports` was given.
    pub port_overrides: bool,
    pub secrets_file: Option<String>,
    pub secrets_override: Option<String>,
}

/// Why `dev up` stops.
pub enum Failure {
    /// What was being done failed, with this message.
    Reported(String),
    RunArgsOnCompose,
    SecretsFileOnCompose,
    SecretsOverrideOnCompose,
    CreateTimeSecretsOnCompose(ValidatedSecrets),
    RunArgsUnsupported(ResolvedRunArgs),
    /// The project names nothing to make a container of.
    NoImage,
}

/// Something to say on the way.
pub enum Notice {
    AlreadyRunning(String),
    StartingExisting(String),
    Started(String),
    RecreatingForPorts(String),
    RemovingExisting(String),
    SkippingBuild(String),
    BuildingFromDockerfile,
    /// An image whose features cannot be recovered.
    NoMetadata(String),
    Creating(String),
    Starting(String),
    Ready(String),
    SitesFailed(String),
}

/// Who commands are run as in a container, and where.
pub struct RunAs {
    pub user: Option<String>,
    pub workdir: String,
}

impl RunAs {
    fn copy(&self) -> (r: RunAs)
        ensures
            r == *self,
    {
        RunAs { user: copy_opt(&self.user), workdir: self.workdir.clone() }
    }
}

/// What is to be done.
pub enum UpAction {
    /// Check every secret reference, asking no provider for a value.
    ValidateSecrets,
    /// Translate the project's `runArgs`.
    ResolveRunArgs,
    /// Load the `--secrets-file`.
    LoadSecretsFile,
    /// Run the project's `initializeCommand` on the host.
    RunInitializeCommand,
    /// List the containers that have all of the workspace's labels.
    ListByLabels,
    /// List the containers that have the first of the workspace's labels.
    ListByFolder,
    /// Find out whom commands are run as in containers of this image.
    ResolveUser(String),
    /// Find out where this user's commands are run.
    ResolveWorkdir(Option<String>),
    /// Take this container through the readiness checks, with commands run like
    /// this.
    VerifyUsable(String, RunAs),
    StartContainer(String),
    /// Run the start-time hooks in this container, like this.
    RunStartHooks(String, RunAs),
    StopContainer(String),
    RemoveContainer(String),
    /// Find the features the project asks for.
    ResolveFeatures,
    /// Pull this image unless it is there.
    EnsureImage(String),
    /// Find out whether this image is there.
    CheckImage(String),
    /// Build the project's Dockerfile as this image.
    BuildDockerfile(String),
    /// Build the features on top of the first image, as the second.
    BuildFeatures(String, String),
    /// Recover the features that this image was built with.
    RecoverFeatures(String),
    /// Ask the providers for the create-time secrets.
    ResolveSecrets,
    /// Match the ids of this user in this image to the host's, where that is
    /// wanted.
    RemapUser(String, Option<String>),
    /// Say which mounts and volumes a container for this user goes without.
    WarnOfMounts(Option<String>),
    /// Create the container from this image, for commands run like this.
    CreateContainer(String, RunAs),
    /// Run the create-time hooks in this container, like this.
    RunCreateHooks(String, RunAs),
    /// Install the dotfiles in this container, as this user.
    InstallDotfiles(String, Option<String>),
    /// Register the sites of the declared and of the live ports.
    RegisterRoutes,
    /// Register the sites of the declared ports.
    RegisterSites,
    /// Go on as a Compose project.
    GoOnAsCompose,
    Finish,
    Fail(Failure),
}

/// What came of the last action.
pub enum UpEvent {
    /// Nothing was done yet.
    Begin,
    Done,
    Failed(String),
    SecretsValidated(ValidatedSecrets),
    RunArgsResolved(ResolvedRunArgs),
    Listed(Vec<ContainerInfo>),
    /// Whom commands are run as.
    UserFound(Option<String>),
    /// Where commands are run.
    FolderFound(String),
    /// The tag of the image with the project's features, if it has any.
    FeaturesResolved(Option<String>),
    /// Whether the image is there.
    Checked(bool),
    /// Whether any features were installed.
    FeaturesBuilt(bool),
    /// Whether the image said what it was built with.
    Recovered(bool),
    /// The image to create the container from.
    Remapped(String),
    /// The id of the new container.
    Created(String),
}

/// Where `dev up` has got to: what was last asked to be done.
pub enum Stage {
    Start,
    ComposeSecrets,
    RunArgs,
    SecretsFile,
    Secrets,
    Initialize,
    ListByLabels,
    ListByFolder,
    ReuseUser { id: String, name: String },
    ReuseFolder { id: String, name: String, user: Option<String> },
    ReuseVerify { id: String, name: String, run_as: RunAs },
    ReuseRoutes { name: String },
    RestartStart { id: String, name: String, image: String },
    RestartUser { id: String, name: String },
    RestartFolder { id: String, name: String, user: Option<String> },
    RestartVerify { id: String, name: String, run_as: RunAs },
    RestartHooks { name: String },
    RestartRoutes { name: String },
    Stop { id: String },
    Remove,
    Features,
    Present { image: String },
    Cached { tag: String },
    Base { base: String, tag: String },
    BaseBuild { base: String, tag: String },
    FeatureBuild { tag: String },
    Recover { image: String },
    CreateSecrets { image: String },
    CreateUser { image: String },
    Remap { user: Option<String> },
    Mounts { image: String, user: Option<String> },
    CreateFolder { image: String, user: Option<String> },
    Create { run_as: RunAs },
    CreateStart { id: String, run_as: RunAs },
    CreateVerify { id: String, run_as: RunAs },
    CreateHooks { id: String, run_as: RunAs },
    Dotfiles,
    Sites,
    Ended,
}

/// The state of `dev up`.
pub struct Up {
    pub stage: Stage,
    /// Some secrets are injected when the container is created.
    pub create_time_secrets: bool,
    /// The project asks for features.
    pub has_features: bool,
}

/// What is to be said, and then done.
pub struct UpStep {
    pub warning: Option<Notice>,
    pub notice: Option<Notice>,
    pub action: UpAction,
}

pub open spec fn just(action: UpAction) -> UpStep {
    UpStep { warning: None, notice: None, action }
}

pub open spec fn saying(notice: Notice, action: UpAction) -> UpStep {
    UpStep { warning: None, notice: Some(notice), action }
}

/// The state with another stage.
pub open spec fn to(up: Up, stage: Stage) -> Up {
    Up { stage, ..up }
}

/// The end, for this reason.
pub open spec fn failed(up: Up, failure: Failure) -> (Up, UpStep) {
    (to(up, Stage::Ended), just(UpAction::Fail(failure)))
}

/// Nothing was done yet.
pub open spec fn up_start() -> Up {
    Up { stage: Stage::Start, create_time_secrets: false, has_features: false }
}

/// The event is one that the stage waits for.
pub open spec fn fits(stage: Stage, event: UpEvent) -> bool {
    match stage {
        Stage::Start => event is Begin,
        Stage::Ended => false,
        _ => event is Failed || match stage {
            Stage::ComposeSecrets => event is SecretsValidated,
            Stage::Secrets => event is SecretsValidated,
            Stage::RunArgs => event is RunArgsResolved,
            Stage::ListByLabels => event is Listed,
            Stage::ListByFolder => event is Listed,
            Stage::ReuseUser { .. } => event is UserFound,
            Stage::ReuseFolder { .. } => event is FolderFound,
            Stage::RestartUser { .. } => event is UserFound,
            Stage::RestartFolder { .. } => event is FolderFound,
            Stage::Features => event is FeaturesResolved,
            Stage::Cached { .. } => event is Checked,
            Stage::FeatureBuild { .. } => event is FeaturesBuilt,
            Stage::Recover { .. } => event is Recovered,
            Stage::CreateUser { .. } => event is UserFound,
            Stage::Remap { .. } => event is Remapped,
            Stage::CreateFolder { .. } => event is FolderFound,
            Stage::Create { .. } => event is Created,
            _ => event is Done,
        },
    }
}

/// Begin: what a Compose project cannot have is refused before anything is
/// looked at.
pub open spec fn begin(req: UpRequest, up: Up) -> (Up, UpStep) {
    if req.config.compose() {
        if crate::up::run_args::run_args_on_compose(req.config, req.project_declared_run_args) {
            failed(up, Failure::RunArgsOnCompose)
        } else if req.secrets_file is Some {
            failed(up, Failure::SecretsFileOnCompose)
        } else if req.secrets_override is Some {
            failed(up, Failure::SecretsOverrideOnCompose)
        } else {
            (to(up, Stage::ComposeSecrets), just(UpAction::ValidateSecrets))
        }
    } else {
        (to(up, Stage::RunArgs), just(UpAction::ResolveRunArgs))
    }
}

/// Everything was validated: the host's own command comes first.
pub open spec fn validated(req: UpRequest, up: Up) -> (Up, UpStep) {
    if req.config.initialize_command is Some {
        (to(up, Stage::Initialize), just(UpAction::RunInitializeCommand))
    } else {
        (to(up, Stage::ListByLabels), just(UpAction::ListByLabels))
    }
}

/// A container may be used again as it is.
pub open spec fn reusable(req: UpRequest) -> bool {
    !req.rebuild && !req.port_overrides
}

/// What an existing container calls for: used again if it is running or
/// stopped and nothing asks for a new one, else replaced.
pub open spec fn existing(req: UpRequest, up: Up, c: ContainerInfo) -> (Up, UpStep) {
    if reusable(req) && c.state is Running {
        (to(up, Stage::ReuseUser { id: c.id, name: c.name }), just(UpAction::ResolveUser(c.image)))
    } else if reusable(req) && c.state is Stopped {
        (
            to(up, Stage::RestartStart { id: c.id, name: c.name, image: c.image }),
            saying(Notice::StartingExisting(c.name), UpAction::StartContainer(c.id)),
        )
    } else {
        let notice = if req.rebuild {
            Some(Notice::RemovingExisting(c.name))
        } else if req.port_overrides {
            Some(Notice::RecreatingForPorts(c.name))
        } else {
            None
        };
        if c.state is Running {
            (
                to(up, Stage::Stop { id: c.id }),
                UpStep { warning: None, notice, action: UpAction::StopContainer(c.id) },
            )
        } else {
            (
                to(up, Stage::Remove),
                UpStep { warning: None, notice, action: UpAction::RemoveContainer(c.id) },
            )
        }
    }
}

/// The first container of a listing that carries no `devcontainer.config_file`
/// label, or the listing's length.
pub open spec fn first_unlabelled(found: Seq<ContainerInfo>) -> int
    decreases found.len(),
{
    if found.len() == 0 || !crate::assoc::pair_map(found[0].labels@).contains_key(
        "devcontainer.config_file"@,
    ) {
        0
    } else {
        1 + first_unlabelled(found.drop_first())
    }
}

/// No container has to be dealt with.
pub open spec fn image_next(up: Up) -> (Up, UpStep) {
    (to(up, Stage::Features), just(UpAction::ResolveFeatures))
}

/// The image is there: recover its features where they were not just built.
pub open spec fn image_ready(up: Up, image: String, built_features: bool) -> (Up, UpStep) {
    if up.has_features && !built_features {
        (to(up, Stage::Recover { image }), just(UpAction::RecoverFeatures(image)))
    } else {
        features_ready(up, image, None)
    }
}

/// The features are known: ask for secrets where some are wanted.
pub open spec fn features_ready(up: Up, image: String, warning: Option<Notice>) -> (Up, UpStep) {
    if up.create_time_secrets {
        (
            to(up, Stage::CreateSecrets { image }),
            UpStep { warning, notice: None, action: UpAction::ResolveSecrets },
        )
    } else {
        (
            to(up, Stage::CreateUser { image }),
            UpStep { warning, notice: None, action: UpAction::ResolveUser(image) },
        )
    }
}

/// The image has to be built: from the named image, or from the Dockerfile.
pub open spec fn build_next(req: UpRequest, up: Up, tag: String) -> (Up, UpStep) {
    match req.config.image {
        Some(image) => (
            to(up, Stage::Base { base: image, tag }),
            just(UpAction::EnsureImage(image)),
        ),
        None => if req.config.build is Some {
            let base = if up.has_features {
                req.name
            } else {
                tag
            };
            (
                to(up, Stage::BaseBuild { base, tag }),
                saying(Notice::BuildingFromDockerfile, UpAction::BuildDockerfile(base)),
            )
        } else {
            failed(up, Failure::NoImage)
        },
    }
}

/// The base image is there: the features come on top of it, if there are any.
pub open spec fn base_ready(up: Up, base: String, tag: String) -> (Up, UpStep) {
    if up.has_features {
        (to(up, Stage::FeatureBuild { tag }), just(UpAction::BuildFeatures(base, tag)))
    } else {
        image_ready(up, tag, false)
    }
}

/// Which image is wanted: the named one as it is, one that was built before, or
/// one that has to be built.
pub open spec fn features_resolved(req: UpRequest, up: Up, feature_tag: Option<String>) -> (Up, UpStep) {
    let up = Up { has_features: feature_tag is Some, ..up };
    let tag = match feature_tag {
        Some(tag) => tag,
        None => req.name,
    };
    if req.config.build is None && feature_tag is None {
        match req.config.image {
            Some(image) => (to(up, Stage::Present { image }), just(UpAction::EnsureImage(image))),
            None => failed(up, Failure::NoImage),
        }
    } else if !req.rebuild && !req.no_cache {
        (to(up, Stage::Cached { tag }), just(UpAction::CheckImage(tag)))
    } else {
        build_next(req, up, tag)
    }
}

/// The hooks have run: dotfiles next, if there are any.
pub open spec fn hooks_done(req: UpRequest, up: Up, id: String, user: Option<String>) -> (Up, UpStep) {
    if req.config.dotfiles is Some {
        (to(up, Stage::Dotfiles), just(UpAction::InstallDotfiles(id, user)))
    } else {
        created(req, up)
    }
}

/// The new container is ready.
pub open spec fn created(req: UpRequest, up: Up) -> (Up, UpStep) {
    if crate::up::ports::forwarded(req.config).len() > 0 {
        (to(up, Stage::Sites), saying(Notice::Ready(req.name), UpAction::RegisterSites))
    } else {
        (to(up, Stage::Ended), saying(Notice::Ready(req.name), UpAction::Finish))
    }
}

/// The warning about sites that could not be registered.
pub open spec fn sites_warning(event: UpEvent) -> Option<Notice> {
    match event {
        UpEvent::Failed(e) => Some(Notice::SitesFailed(e)),
        _ => None,
    }
}

/// What comes next.
pub open spec fn up_next(req: UpRequest, up: Up, event: UpEvent) -> (Up, UpStep) {
    match (up.stage, event) {
        (Stage::Start, _) => begin(req, up),
        (Stage::ReuseRoutes { name }, event) => (
            to(up, Stage::Ended),
            UpStep {
                warning: sites_warning(event),
                notice: Some(Notice::AlreadyRunning(name)),
                action: UpAction::Finish,
            },
        ),
        (Stage::RestartRoutes { name }, event) => (
            to(up, Stage::Ended),
            UpStep {
                warning: sites_warning(event),
                notice: Some(Notice::Started(name)),
                action: UpAction::Finish,
            },
        ),
        (Stage::Sites, event) => (
            to(up, Stage::Ended),
            UpStep { warning: sites_warning(event), notice: None, action: UpAction::Finish },
        ),
        (_, UpEvent::Failed(e)) => failed(up, Failure::Reported(e)),
        (Stage::ComposeSecrets, UpEvent::SecretsValidated(secrets)) => {
            if crate::up::secrets::create_time_on_compose(req.config, secrets) {
                failed(up, Failure::CreateTimeSecretsOnCompose(secrets))
            } else {
                (to(up, Stage::Ended), just(UpAction::GoOnAsCompose))
            }
        },
        (Stage::RunArgs, UpEvent::RunArgsResolved(resolved)) => {
            if req.runtime_name@ == "apple"@ && crate::up::run_args::flags_beyond_env(resolved).len() > 0 {
                failed(up, Failure::RunArgsUnsupported(resolved))
            } else if req.secrets_file is Some {
                (to(up, Stage::SecretsFile), just(UpAction::LoadSecretsFile))
            } else {
                (to(up, Stage::Secrets), just(UpAction::ValidateSecrets))
            }
        },
        (Stage::SecretsFile, _) => (to(up, Stage::Secrets), just(UpAction::ValidateSecrets)),
        (Stage::Secrets, UpEvent::SecretsValidated(secrets)) => validated(
            req,
            Up {
                create_time_secrets: crate::up::secrets::create_time_keys(secrets).len() > 0,
                ..up
            },
        ),
        (Stage::Initialize, _) => (to(up, Stage::ListByLabels), just(UpAction::ListByLabels)),
        (Stage::ListByLabels, UpEvent::Listed(found)) => {
            if found@.len() > 0 {
                existing(req, up, found@[0])
            } else if req.labels@.len() > 1 {
                (to(up, Stage::ListByFolder), just(UpAction::ListByFolder))
            } else {
                image_next(up)
            }
        },
        (Stage::ListByFolder, UpEvent::Listed(found)) => {
            let i = first_unlabelled(found@);
            if i < found@.len() {
                existing(req, up, found@[i])
            } else {
                image_next(up)
            }
        },
        (Stage::ReuseUser { id, name }, UpEvent::UserFound(user)) => (
            to(up, Stage::ReuseFolder { id, name, user }),
            just(UpAction::ResolveWorkdir(user)),
        ),
        (Stage::ReuseFolder { id, name, user }, UpEvent::FolderFound(workdir)) => {
            let run_as = RunAs { user, workdir };
            (
                to(up, Stage::ReuseVerify { id, name, run_as }),
                just(UpAction::VerifyUsable(id, run_as)),
            )
        },
        (Stage::ReuseVerify { name, .. }, _) => (
            to(up, Stage::ReuseRoutes { name }),
            just(UpAction::RegisterRoutes),
        ),
        (Stage::RestartStart { id, name, image }, _) => (
            to(up, Stage::RestartUser { id, name }),
            just(UpAction::ResolveUser(image)),
        ),
        (Stage::RestartUser { id, name }, UpEvent::UserFound(user)) => (
            to(up, Stage::RestartFolder { id, name, user }),
            just(UpAction::ResolveWorkdir(user)),
        ),
        (Stage::RestartFolder { id, name, user }, UpEvent::FolderFound(workdir)) => {
            let run_as = RunAs { user, workdir };
            (
                to(up, Stage::RestartVerify { id, name, run_as }),
                just(UpAction::VerifyUsable(id, run_as)),
            )
        },
        (Stage::RestartVerify { id, name, run_as }, _) => (
            to(up, Stage::RestartHooks { name }),
            just(UpAction::RunStartHooks(id, run_as)),
        ),
        (Stage::RestartHooks { name }, _) => (
            to(up, Stage::RestartRoutes { name }),
            just(UpAction::RegisterRoutes),
        ),
        (Stage::Stop { id }, _) => (to(up, Stage::Remove), just(UpAction::RemoveContainer(id))),
        (Stage::Remove, _) => image_next(up),
        (Stage::Features, UpEvent::FeaturesResolved(feature_tag)) => features_resolved(
            req,
            up,
            feature_tag,
        ),
        (Stage::Present { image }, _) => image_ready(up, image, false),
        (Stage::Cached { tag }, UpEvent::Checked(there)) => {
            if there {
                let (after, step) = image_ready(up, tag, false);
                (after, UpStep { notice: Some(Notice::SkippingBuild(tag)), ..step })
            } else {
                build_next(req, up, tag)
            }
        },
        (Stage::Base { base, tag }, _) => base_ready(up, base, tag),
        (Stage::BaseBuild { base, tag }, _) => base_ready(up, base, tag),
        (Stage::FeatureBuild { tag }, UpEvent::FeaturesBuilt(any)) => image_ready(up, tag, any),
        (Stage::Recover { image }, UpEvent::Recovered(described)) => features_ready(
            up,
            image,
            if described {
                None
            } else {
                Some(Notice::NoMetadata(image))
            },
        ),
        (Stage::CreateSecrets { image }, _) => (
            to(up, Stage::CreateUser { image }),
            just(UpAction::ResolveUser(image)),
        ),
        (Stage::CreateUser { image }, UpEvent::UserFound(user)) => (
            to(up, Stage::Remap { user }),
            just(UpAction::RemapUser(image, user)),
        ),
        (Stage::Remap { user }, UpEvent::Remapped(image)) => (
            to(up, Stage::Mounts { image, user }),
            just(UpAction::WarnOfMounts(user)),
        ),
        (Stage::Mounts { image, user }, _) => (
            to(up, Stage::CreateFolder { image, user }),
            just(UpAction::ResolveWorkdir(user)),
        ),
        (Stage::CreateFolder { image, user }, UpEvent::FolderFound(workdir)) => {
            let run_as = RunAs { user, workdir };
            (
                to(up, Stage::Create { run_as }),
                saying(Notice::Creating(req.name), UpAction::CreateContainer(image, run_as)),
            )
        },
        (Stage::Create { run_as }, UpEvent::Created(id)) => (
            to(up, Stage::CreateStart { id, run_as }),
            saying(Notice::Starting(req.name), UpAction::StartContainer(id)),
        ),
        (Stage::CreateStart { id, run_as }, _) => (
            to(up, Stage::CreateVerify { id, run_as }),
            just(UpAction::VerifyUsable(id, run_as)),
        ),
        (Stage::CreateVerify { id, run_as }, _) => (
            to(up, Stage::CreateHooks { id, run_as }),
            just(UpAction::RunCreateHooks(id, run_as)),
        ),
        (Stage::CreateHooks { id, run_as }, _) => hooks_done(req, up, id, run_as.user),
        (Stage::Dotfiles, _) => created(req, up),
        _ => (up, just(UpAction::Finish)),
    }
}

// ---------------------------------------------------------------------------
// The same, carried out
// ---------------------------------------------------------------------------

fn do_just(action: UpAction) -> (r: UpStep)
    ensures
        r == just(action),
{
    UpStep { warning: None, notice: None, action }
}

fn do_saying(notice: Notice, action: UpAction) -> (r: UpStep)
    ensures
        r == saying(notice, action),
{
    UpStep { warning: None, notice: Some(notice), action }
}

fn do_to(up: Up, stage: Stage) -> (r: Up)
    ensures
        r == to(up, stage),
{
    Up { stage, create_time_secrets: up.create_time_secrets, has_features: up.has_features }
}

fn do_failed(up: Up, failure: Failure) -> (r: (Up, UpStep))
    ensures
        r == failed(up, failure),
{
    (do_to(up, Stage::Ended), do_just(UpAction::Fail(failure)))
}

fn do_begin(req: &UpRequest, up: Up) -> (r: (Up, UpStep))
    ensures
        r == begin(*req, up),
{
    if req.config.is_compose() {
        if reject_project_run_args_for_compose(&req.config, req.project_declared_run_args).is_err() {
            do_failed(up, Failure::RunArgsOnCompose)
        } else if req.secrets_file.is_some() {
            do_failed(up, Failure::SecretsFileOnCompose)
        } else if req.secrets_override.is_some() {
            do_failed(up, Failure::SecretsOverrideOnCompose)
        } else {
            (do_to(up, Stage::ComposeSecrets), do_just(UpAction::ValidateSecrets))
        }
    } else {
        (do_to(up, Stage::RunArgs), do_just(UpAction::ResolveRunArgs))
    }
}

fn do_validated(req: &UpRequest, up: Up) -> (r: (Up, UpStep))
    ensures
        r == validated(*req, up),
{
    if req.config.initialize_command.is_some() {
        (do_to(up, Stage::Initialize), do_just(UpAction::RunInitializeCommand))
    } else {
        (do_to(up, Stage::ListByLabels), do_just(UpAction::ListByLabels))
    }
}

fn is_stopped(state: &ContainerState) -> (r: bool)
    ensures
        r == (state is Stopped),
{
    match state {
        ContainerState::Stopped => true,
        _ => false,
    }
}

fn do_existing(req: &UpRequest, up: Up, c: ContainerInfo) -> (r: (Up, UpStep))
    ensures
        r == existing(*req, up, c),
{
    let again = !req.rebuild && !req.port_overrides;
    if again && c.state.is_running() {
        (
            do_to(up, Stage::ReuseUser { id: c.id, name: c.name }),
            do_just(UpAction::ResolveUser(c.image)),
        )
    } else if again && is_stopped(&c.state) {
        let step = do_saying(
            Notice::StartingExisting(c.name.clone()),
            UpAction::StartContainer(c.id.clone()),
        );
        (do_to(up, Stage::RestartStart { id: c.id, name: c.name, image: c.image }), step)
    } else {
        let notice = if req.rebuild {
            Some(Notice::RemovingExisting(c.name))
        } else if req.port_overrides {
            Some(Notice::RecreatingForPorts(c.name))
        } else {
            None
        };
        if c.state.is_running() {
            (
                do_to(up, Stage::Stop { id: c.id.clone() }),
                UpStep { warning: None, notice, action: UpAction::StopContainer(c.id) },
            )
        } else {
            (
                do_to(up, Stage::Remove),
                UpStep { warning: None, notice, action: UpAction::RemoveContainer(c.id) },
            )
        }
    }
}

proof fn first_unlabelled_is(found: Seq<ContainerInfo>, i: int)
    requires
        0 <= i <= found.len(),
        forall|j: int|
            0 <= j < i ==> crate::assoc::pair_map((#[trigger] found[j]).labels@).contains_key(
                "devcontainer.config_file"@,
            ),
        i < found.len() ==> !crate::assoc::pair_map(found[i].labels@).contains_key(
            "devcontainer.config_file"@,
        ),
    ensures
        first_unlabelled(found) == i,
    decreases i,
{
    if i > 0 {
        let t = found.drop_first();
        assert forall|j: int| 0 <= j < i - 1 implies crate::assoc::pair_map(
            (#[trigger] t[j]).labels@,
        ).contains_key("devcontainer.config_file"@) by {
            assert(t[j] == found[j + 1]);
        }
        assert(crate::assoc::pair_map(found[0].labels@).contains_key("devcontainer.config_file"@));
        if i < found.len() {
            assert(t[i - 1] == found[i]);
        }
        first_unlabelled_is(t, i - 1);
    }
}

/// The first unlabelled container is one of the listing, or there is none.
pub proof fn first_unlabelled_within(found: Seq<ContainerInfo>)
    ensures
        0 <= first_unlabelled(found) <= found.len(),
    decreases found.len(),
{
    if found.len() > 0 {
        first_unlabelled_within(found.drop_first());
    }
}

/// The first container of a listing that carries no `devcontainer.config_file`
/// label.
pub fn find_unlabelled(found: &Vec<ContainerInfo>) -> (r: usize)
    ensures
        r == first_unlabelled(found@),
        r <= found@.len(),
{
    let mut i: usize = 0;
    while i < found.len()
        invariant
            i <= found@.len(),
            forall|j: int|
                0 <= j < i ==> crate::assoc::pair_map((#[trigger] found@[j]).labels@).contains_key(
                    "devcontainer.config_file"@,
                ),
        decreases found@.len() - i,
    {
        if crate::assoc::get(&found[i].labels, "devcontainer.config_file").is_none() {
            proof {
                first_unlabelled_is(found@, i as int);
            }
            return i;
        }
        i = i + 1;
    }
    proof {
        first_unlabelled_is(found@, i as int);
    }
    i
}

fn do_image_next(up: Up) -> (r: (Up, UpStep))
    ensures
        r == image_next(up),
{
    (do_to(up, Stage::Features), do_just(UpAction::ResolveFeatures))
}

fn do_features_ready(up: Up, image: String, warning: Option<Notice>) -> (r: (Up, UpStep))
    ensures
        r == features_ready(up, image, warning),
{
    if up.create_time_secrets {
        (
            do_to(up, Stage::CreateSecrets { image }),
            UpStep { warning, notice: None, action: UpAction::ResolveSecrets },
        )
    } else {
        (
            do_to(up, Stage::CreateUser { image: image.clone() }),
            UpStep { warning, notice: None, action: UpAction::ResolveUser(image) },
        )
    }
}

fn do_image_ready(up: Up, image: String, built_features: bool) -> (r: (Up, UpStep))
    ensures
        r == image_ready(up, image, built_features),
{
    if up.has_features && !built_features {
        (
            do_to(up, Stage::Recover { image: image.clone() }),
            do_just(UpAction::RecoverFeatures(image)),
        )
    } else {
        do_features_ready(up, image, None)
    }
}

fn do_build_next(req: &UpRequest, up: Up, tag: String) -> (r: (Up, UpStep))
    ensures
        r == build_next(*req, up, tag),
{
    match &req.config.image {
        Some(image) => (
            do_to(up, Stage::Base { base: image.clone(), tag }),
            do_just(UpAction::EnsureImage(image.clone())),
        ),
        None => {
            if req.config.build.is_some() {
                let base = if up.has_features {
                    req.name.clone()
                } else {
                    tag.clone()
                };
                (
                    do_to(up, Stage::BaseBuild { base: base.clone(), tag }),
                    do_saying(Notice::BuildingFromDockerfile, UpAction::BuildDockerfile(base)),
                )
            } else {
                do_failed(up, Failure::NoImage)
            }
        },
    }
}

fn do_base_ready(up: Up, base: String, tag: String) -> (r: (Up, UpStep))
    ensures
        r == base_ready(up, base, tag),
{
    if up.has_features {
        (
            do_to(up, Stage::FeatureBuild { tag: tag.clone() }),
            do_just(UpAction::BuildFeatures(base, tag)),
        )
    } else {
        do_image_ready(up, tag, false)
    }
}

fn do_features_resolved(req: &UpRequest, up: Up, feature_tag: Option<String>) -> (r: (Up, UpStep))
    ensures
        r == features_resolved(*req, up, feature_tag),
{
    let has_features = feature_tag.is_some();
    let up = Up { stage: up.stage, create_time_secrets: up.create_time_secrets, has_features };
    let tag = match feature_tag {
        Some(tag) => tag,
        None => req.name.clone(),
    };
    if req.config.build.is_none() && !has_features {
        match &req.config.image {
            Some(image) => (
                do_to(up, Stage::Present { image: image.clone() }),
                do_just(UpAction::EnsureImage(image.clone())),
            ),
            None => do_failed(up, Failure::NoImage),
        }
    } else if !req.rebuild && !req.no_cache {
        (do_to(up, Stage::Cached { tag: tag.clone() }), do_just(UpAction::CheckImage(tag)))
    } else {
        do_build_next(req, up, tag)
    }
}

fn do_created(req: &UpRequest, up: Up) -> (r: (Up, UpStep))
    ensures
        r == created(*req, up),
{
    let forwards = match &req.config.forward_ports {
        Some(ports) => ports.len() > 0,
        None => false,
    };
    if forwards {
        (
            do_to(up, Stage::Sites),
            do_saying(Notice::Ready(req.name.clone()), UpAction::RegisterSites),
        )
    } else {
        (do_to(up, Stage::Ended), do_saying(Notice::Ready(req.name.clone()), UpAction::Finish))
    }
}

fn do_hooks_done(req: &UpRequest, up: Up, id: String, user: Option<String>) -> (r: (Up, UpStep))
    ensures
        r == hooks_done(*req, up, id, user),
{
    if req.config.dotfiles.is_some() {
        (do_to(up, Stage::Dotfiles), do_just(UpAction::InstallDotfiles(id, user)))
    } else {
        do_created(req, up)
    }
}

fn do_sites_warning(event: UpEvent) -> (r: Option<Notice>)
    ensures
        r == sites_warning(event),
{
    match event {
        UpEvent::Failed(e) => Some(Notice::SitesFailed(e)),
        _ => None,
    }
}

/// The state in which nothing was done yet.
pub fn start() -> (r: Up)
    ensures
        r == up_start(),
{
    Up { stage: Stage::Start, create_time_secrets: false, has_features: false }
}

/// What is to be said and done next, given what came of the last action.
pub fn step(req: &UpRequest, up: Up, event: UpEvent) -> (r: (Up, UpStep))
    requires
        fits(up.stage, event),
    ensures
        r == up_next(*req, up, event),
{
    let create_time_secrets = up.create_time_secrets;
    let has_features = up.has_features;
    let at = Up { stage: Stage::Ended, create_time_secrets, has_features };
    match (up.stage, event) {
        (Stage::Start, _) => do_begin(req, Up { stage: Stage::Start, create_time_secrets, has_features }),
        (Stage::ReuseRoutes { name }, event) => (
            at,
            UpStep {
                warning: do_sites_warning(event),
                notice: Some(Notice::AlreadyRunning(name)),
                action: UpAction::Finish,
            },
        ),
        (Stage::RestartRoutes { name }, event) => (
            at,
            UpStep {
                warning: do_sites_warning(event),
                notice: Some(Notice::Started(name)),
                action: UpAction::Finish,
            },
        ),
        (Stage::Sites, event) => (
            at,
            UpStep { warning: do_sites_warning(event), notice: None, action: UpAction::Finish },
        ),
        (_, UpEvent::Failed(e)) => do_failed(at, Failure::Reported(e)),
        (Stage::ComposeSecrets, UpEvent::SecretsValidated(secrets)) => {
            if reject_secrets_for_compose(&req.config, &secrets).is_err() {
                do_failed(at, Failure::CreateTimeSecretsOnCompose(secrets))
            } else {
                (at, do_just(UpAction::GoOnAsCompose))
            }
        },
        (Stage::RunArgs, UpEvent::RunArgsResolved(resolved)) => {
            if reject_run_args_unsupported_by_runtime(req.runtime_name.as_str(), &resolved).is_err() {
                do_failed(at, Failure::RunArgsUnsupported(resolved))
            } else if req.secrets_file.is_some() {
                (do_to(at, Stage::SecretsFile), do_just(UpAction::LoadSecretsFile))
            } else {
                (do_to(at, Stage::Secrets), do_just(UpAction::ValidateSecrets))
            }
        },
        (Stage::SecretsFile, _) => (do_to(at, Stage::Secrets), do_just(UpAction::ValidateSecrets)),
        (Stage::Secrets, UpEvent::SecretsValidated(secrets)) => {
            let keys = create_time_entries(&secrets);
            assert(texts(keys@).len() == keys@.len());
            do_validated(
                req,
                Up { stage: Stage::Secrets, create_time_secrets: keys.len() > 0, has_features },
            )
        },
        (Stage::Initialize, _) => (
            do_to(at, Stage::ListByLabels),
            do_just(UpAction::ListByLabels),
        ),
        (Stage::ListByLabels, UpEvent::Listed(found)) => {
            let mut found = found;
            if found.len() > 0 {
                do_existing(req, at, found.remove(0))
            } else if req.labels.len() > 1 {
                (do_to(at, Stage::ListByFolder), do_just(UpAction::ListByFolder))
            } else {
                do_image_next(at)
            }
        },
        (Stage::ListByFolder, UpEvent::Listed(found)) => {
            let mut found = found;
            let i: usize = find_unlabelled(&found);
            if i < found.len() {
                do_existing(req, at, found.remove(i))
            } else {
                do_image_next(at)
            }
        },
        (Stage::ReuseUser { id, name }, UpEvent::UserFound(user)) => (
            do_to(at, Stage::ReuseFolder { id, name, user: copy_opt(&user) }),
            do_just(UpAction::ResolveWorkdir(user)),
        ),
        (Stage::ReuseFolder { id, name, user }, UpEvent::FolderFound(workdir)) => {
            let run_as = RunAs { user, workdir };
            (
                do_to(at, Stage::ReuseVerify { id: id.clone(), name, run_as: run_as.copy() }),
                do_just(UpAction::VerifyUsable(id, run_as)),
            )
        },
        (Stage::ReuseVerify { name, .. }, _) => (
            do_to(at, Stage::ReuseRoutes { name }),
            do_just(UpAction::RegisterRoutes),
        ),
        (Stage::RestartStart { id, name, image }, _) => (
            do_to(at, Stage::RestartUser { id, name }),
            do_just(UpAction::ResolveUser(image)),
        ),
        (Stage::RestartUser { id, name }, UpEvent::UserFound(user)) => (
            do_to(at, Stage::RestartFolder { id, name, user: copy_opt(&user) }),
            do_just(UpAction::ResolveWorkdir(user)),
        ),
        (Stage::RestartFolder { id, name, user }, UpEvent::FolderFound(workdir)) => {
            let run_as = RunAs { user, workdir };
            (
                do_to(at, Stage::RestartVerify { id: id.clone(), name, run_as: run_as.copy() }),
                do_just(UpAction::VerifyUsable(id, run_as)),
            )
        },
        (Stage::RestartVerify { id, name, run_as }, _) => (
            do_to(at, Stage::RestartHooks { name }),
            do_just(UpAction::RunStartHooks(id, run_as)),
        ),
        (Stage::RestartHooks { name }, _) => (
            do_to(at, Stage::RestartRoutes { name }),
            do_just(UpAction::RegisterRoutes),
        ),
        (Stage::Stop { id }, _) => (
            do_to(at, Stage::Remove),
            do_just(UpAction::RemoveContainer(id)),
        ),
        (Stage::Remove, _) => do_image_next(at),
        (Stage::Features, UpEvent::FeaturesResolved(feature_tag)) => do_features_resolved(
            req,
            at,
            feature_tag,
        ),
        (Stage::Present { image }, _) => do_image_ready(at, image, false),
        (Stage::Cached { tag }, UpEvent::Checked(there)) => {
            if there {
                let (after, step) = do_image_ready(at, tag.clone(), false);
                (
                    after,
                    UpStep {
                        warning: step.warning,
                        notice: Some(Notice::SkippingBuild(tag)),
                        action: step.action,
                    },
                )
            } else {
                do_build_next(req, at, tag)
            }
        },
        (Stage::Base { base, tag }, _) => do_base_ready(at, base, tag),
        (Stage::BaseBuild { base, tag }, _) => do_base_ready(at, base, tag),
        (Stage::FeatureBuild { tag }, UpEvent::FeaturesBuilt(any)) => do_image_ready(at, tag, any),
        (Stage::Recover { image }, UpEvent::Recovered(described)) => {
            let warning = if described {
                None
            } else {
                Some(Notice::NoMetadata(image.clone()))
            };
            do_features_ready(at, image, warning)
        },
        (Stage::CreateSecrets { image }, _) => (
            do_to(at, Stage::CreateUser { image: image.clone() }),
            do_just(UpAction::ResolveUser(image)),
        ),
        (Stage::CreateUser { image }, UpEvent::UserFound(user)) => (
            do_to(at, Stage::Remap { user: copy_opt(&user) }),
            do_just(UpAction::RemapUser(image, user)),
        ),
        (Stage::Remap { user }, UpEvent::Remapped(image)) => (
            do_to(at, Stage::Mounts { image, user: copy_opt(&user) }),
            do_just(UpAction::WarnOfMounts(user)),
        ),
        (Stage::Mounts { image, user }, _) => (
            do_to(at, Stage::CreateFolder { image, user: copy_opt(&user) }),
            do_just(UpAction::ResolveWorkdir(user)),
        ),
        (Stage::CreateFolder { image, user }, UpEvent::FolderFound(workdir)) => {
            let run_as = RunAs { user, workdir };
            (
                do_to(at, Stage::Create { run_as: run_as.copy() }),
                do_saying(Notice::Creating(req.name.clone()), UpAction::CreateContainer(image, run_as)),
            )
        },
        (Stage::Create { run_as }, UpEvent::Created(id)) => (
            do_to(at, Stage::CreateStart { id: id.clone(), run_as }),
            do_saying(Notice::Starting(req.name.clone()), UpAction::StartContainer(id)),
        ),
        (Stage::CreateStart { id, run_as }, _) => (
            do_to(at, Stage::CreateVerify { id: id.clone(), run_as: run_as.copy() }),
            do_just(UpAction::VerifyUsable(id, run_as)),
        ),
        (Stage::CreateVerify { id, run_as }, _) => (
            do_to(at, Stage::CreateHooks { id: id.clone(), run_as: run_as.copy() }),
            do_just(UpAction::RunCreateHooks(id, run_as)),
        ),
        (Stage::CreateHooks { id, run_as }, _) => do_hooks_done(req, at, id, run_as.user),
        (Stage::Dotfiles, _) => do_created(req, at),
        _ => (at, do_just(UpAction::Finish)),
    }
}

} // verus!
