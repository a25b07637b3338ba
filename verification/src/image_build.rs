//! `dev build`: the workspace's image.
use vstd::prelude::*;

pub mod laws;

use crate::cmux::{build_style, StatusGuard};
use crate::model::DevcontainerConfig;
use crate::number::{decimal_of, show_unsigned};
use crate::text::{cat2, cat3, owned};

verus! {

/// Where the image comes from.
pub enum ImageSource {
    /// An image that is pulled.
    Image(String),
    /// A Dockerfile.
    Dockerfile,
    /// A service of a Compose project, if it is named.
    Compose(Option<String>),
    /// The configuration does not say.
    Unstated,
}

/// Where a configuration takes its image from: an image outranks a Dockerfile,
/// and a Dockerfile a Compose project.
pub open spec fn source_of(config: DevcontainerConfig) -> ImageSource {
    match config.image {
        Some(image) => ImageSource::Image(image),
        None => if config.build is Some {
            ImageSource::Dockerfile
        } else if config.compose() {
            ImageSource::Compose(config.service)
        } else {
            ImageSource::Unstated
        },
    }
}

fn copy_of(s: &Option<String>) -> (r: Option<String>)
    ensures
        r == *s,
{
    match s {
        Some(text) => Some(text.clone()),
        None => None,
    }
}

/// Where a configuration takes its image from.
pub fn image_source(config: &DevcontainerConfig) -> (r: ImageSource)
    ensures
        r == source_of(*config),
{
    match &config.image {
        Some(image) => ImageSource::Image(image.clone()),
        None => {
            if config.build.is_some() {
                ImageSource::Dockerfile
            } else if config.is_compose() {
                ImageSource::Compose(copy_of(&config.service))
            } else {
                ImageSource::Unstated
            }
        },
    }
}

/// What is to be built.
pub struct BuildRequest {
    pub source: ImageSource,
    /// The tag that was asked for.
    pub tag: Option<String>,
    /// The workspace's own tag.
    pub folder_image: String,
    /// The tag of the image with the features.
    pub feature_tag: String,
    /// How many features are put on top of the image.
    pub features: usize,
}

impl BuildRequest {
    /// The tag of the image that is built: the one that was asked for, else that
    /// of the features, if there are any, else the workspace's own.
    pub open spec fn final_of(&self) -> String {
        match self.tag {
            Some(tag) => tag,
            None => if self.features > 0 {
                self.feature_tag
            } else {
                self.folder_image
            },
        }
    }

    /// The tag of the image that is built.
    pub fn final_tag(&self) -> (r: String)
        ensures
            r == self.final_of(),
    {
        match &self.tag {
            Some(tag) => tag.clone(),
            None => {
                if self.features > 0 {
                    self.feature_tag.clone()
                } else {
                    self.folder_image.clone()
                }
            },
        }
    }
}

/// A phase of the build, as the pill shows it.
#[derive(Clone, Copy, Debug, PartialEq, Eq, Structural)]
pub enum BuildPhase {
    Pull,
    Image,
    Services,
    Download,
    Features,
    Remap,
}

impl BuildPhase {
    /// What the pill says.
    pub open spec fn label_text(&self) -> Seq<char> {
        match self {
            BuildPhase::Pull => "build: pulling image"@,
            BuildPhase::Image => "build: building image"@,
            BuildPhase::Services => "build: building compose services"@,
            BuildPhase::Download => "build: downloading features"@,
            BuildPhase::Features => "build: building features"@,
            BuildPhase::Remap => "build: remapping uid"@,
        }
    }

    /// What the pill says.
    pub fn label(&self) -> (r: String)
        ensures
            r@ == self.label_text(),
    {
        match self {
            BuildPhase::Pull => owned("build: pulling image"),
            BuildPhase::Image => owned("build: building image"),
            BuildPhase::Services => owned("build: building compose services"),
            BuildPhase::Download => owned("build: downloading features"),
            BuildPhase::Features => owned("build: building features"),
            BuildPhase::Remap => owned("build: remapping uid"),
        }
    }

    /// Show the phase on the pill.
    pub fn show(&self, pill: &mut StatusGuard)
        ensures
            final(pill).same_pill(*old(pill)),
            final(pill).armed(),
            final(pill).outcome() == old(pill).outcome(),
            final(pill).notice() == old(pill).notice(),
            final(pill).made() == old(pill).with_call(
                seq![
                    "set-status"@,
                    old(pill).key(),
                    self.label_text(),
                    "--icon"@,
                    "hammer"@,
                    "--color"@,
                    "#F59E0B"@,
                ],
            ),
    {
        let label = self.label();
        let style = build_style();
        assert(crate::cmux::status_call(pill.key(), label@, style) =~= seq![
            "set-status"@,
            pill.key(),
            self.label_text(),
            "--icon"@,
            "hammer"@,
            "--color"@,
            "#F59E0B"@,
        ]);
        pill.phase(label.as_str(), style);
    }
}

/// What is to be done.
pub enum BuildAction {
    Pull(String),
    /// Read the Dockerfile.
    ReadDockerfile,
    /// Build from the Dockerfile, under this tag.
    BuildImage(String),
    /// Have Compose build this service.
    BuildServices(String),
    /// Ask Compose for this service's image.
    ServiceImage(String),
    /// Fetch the features.
    Download,
    /// Hold the features to the lockfile.
    Lock,
    /// Lay the features out, in their order, for the build.
    Stage,
    /// Find out whom containers of this image are run as, and whether the user's
    /// id is to be changed.
    ResolveUser(String),
    /// Build the features on top of this image, under this tag, for this user.
    BuildFeatures { base: String, tag: String, user: Option<String> },
    /// Remove what was laid out.
    RemoveStaging,
    /// Ask for the user of this image.
    InspectUser(String),
    /// Change the user's id in this image. A user that is not known is root.
    BuildUid { tag: String, user: Option<String>, image_user: Option<String> },
    /// Print the tag.
    PrintTag(String),
    /// Print that this service was built.
    PrintService(String),
    FailNoService,
    FailUnstated,
    Fail(String),
}

/// What came of the last action.
pub enum BuildEvent {
    Begin,
    Done,
    Failed(String),
    /// The name of an image.
    Named(String),
    User { user: Option<String>, remap: bool },
    ImageUser(Option<String>),
}

/// Where it has got to: what was last asked to be done.
pub enum BuildStage {
    Start,
    Pull { image: String },
    ReadDockerfile,
    BuildImage,
    BuildServices { service: String },
    ServiceImage,
    Download { base: String },
    Lock { base: String },
    Stage { base: String },
    /// The user of the image with the features on top of this one.
    FeatureUser { base: String },
    BuildFeatures { user: Option<String>, remap: bool },
    RemoveStaging { user: Option<String>, remap: bool, failure: Option<String> },
    /// The user of the image that was built from the Dockerfile.
    ImageUser,
    InspectUser { user: Option<String> },
    BuildUid,
    Ended,
}

/// Something to say.
pub enum BuildNotice {
    Pulling(String),
    Building,
    BuildingServices,
    Downloading(usize),
    BuildingFeatures,
}

impl BuildNotice {
    /// What is said.
    pub fn text(&self) -> (r: String)
        ensures
            r@ == match self {
                BuildNotice::Pulling(image) => "Pulling image '"@ + image@ + "'..."@,
                BuildNotice::Building => "Building image from Dockerfile..."@,
                BuildNotice::BuildingServices => "Building compose services..."@,
                BuildNotice::Downloading(n) => "Downloading "@ + decimal_of(*n as nat) + " feature(s)..."@,
                BuildNotice::BuildingFeatures => "Building features image..."@,
            },
    {
        match self {
            BuildNotice::Pulling(image) => cat3("Pulling image '", image.as_str(), "'..."),
            BuildNotice::Building => owned("Building image from Dockerfile..."),
            BuildNotice::BuildingServices => owned("Building compose services..."),
            BuildNotice::Downloading(n) => {
                let count = show_unsigned(*n as u64);
                cat3("Downloading ", count.as_str(), " feature(s)...")
            },
            BuildNotice::BuildingFeatures => owned("Building features image..."),
        }
    }
}

impl BuildAction {
    /// What the action prints or fails with, if it does either.
    pub fn output(&self) -> (r: Option<String>)
        ensures
            match self {
                BuildAction::PrintTag(tag) => r is Some && r->Some_0@ == tag@,
                BuildAction::PrintService(service) => r is Some && r->Some_0@ == "compose:"@ + service@,
                BuildAction::FailNoService => r is Some && r->Some_0@
                    == "Docker Compose config must specify 'service'"@,
                BuildAction::FailUnstated => r is Some && r->Some_0@
                    == "devcontainer.json must specify 'image', 'build.dockerfile', or 'dockerComposeFile'"@,
                BuildAction::Fail(e) => r is Some && r->Some_0@ == e@,
                _ => r is None,
            },
    {
        match self {
            BuildAction::PrintTag(tag) => Some(tag.clone()),
            BuildAction::PrintService(service) => Some(cat2("compose:", service.as_str())),
            BuildAction::FailNoService => Some(owned("Docker Compose config must specify 'service'")),
            BuildAction::FailUnstated => Some(
                owned(
                    "devcontainer.json must specify 'image', 'build.dockerfile', or 'dockerComposeFile'",
                ),
            ),
            BuildAction::Fail(e) => Some(e.clone()),
            _ => None,
        }
    }
}

/// The name of a user; one that is not known is root.
pub fn user_or_root(user: &Option<String>) -> (r: String)
    ensures
        match *user {
            Some(name) => r@ == name@,
            None => r@ == "root"@,
        },
{
    match user {
        Some(name) => name.clone(),
        None => owned("root"),
    }
}

/// What is to be shown and said, and then done.
pub struct BuildStep {
    pub phase: Option<BuildPhase>,
    pub notice: Option<BuildNotice>,
    pub action: BuildAction,
}

pub open spec fn just(action: BuildAction) -> BuildStep {
    BuildStep { phase: None, notice: None, action }
}

pub open spec fn announced(phase: BuildPhase, notice: BuildNotice, action: BuildAction) -> BuildStep {
    BuildStep { phase: Some(phase), notice: Some(notice), action }
}

/// The event is one that the stage waits for.
pub open spec fn fits(stage: BuildStage, event: BuildEvent) -> bool {
    match stage {
        BuildStage::Start => event is Begin,
        BuildStage::ServiceImage => event is Named || event is Failed,
        BuildStage::FeatureUser { .. } => event is User || event is Failed,
        BuildStage::ImageUser => event is User || event is Failed,
        BuildStage::RemoveStaging { .. } => event is Done,
        BuildStage::InspectUser { .. } => event is ImageUser || event is Failed,
        BuildStage::BuildUid => event is Named || event is Failed,
        BuildStage::Ended => false,
        _ => event is Done || event is Failed,
    }
}

pub open spec fn downloading(req: BuildRequest, base: String) -> (BuildStage, BuildStep) {
    (
        BuildStage::Download { base },
        announced(BuildPhase::Download, BuildNotice::Downloading(req.features), BuildAction::Download),
    )
}

pub open spec fn finishing(req: BuildRequest, user: Option<String>, remap: bool) -> (BuildStage, BuildStep) {
    if remap {
        (
            BuildStage::InspectUser { user },
            BuildStep {
                phase: Some(BuildPhase::Remap),
                notice: None,
                action: BuildAction::InspectUser(req.final_of()),
            },
        )
    } else {
        (BuildStage::Ended, just(BuildAction::PrintTag(req.final_of())))
    }
}

/// What comes next.
pub open spec fn build_next(req: BuildRequest, stage: BuildStage, event: BuildEvent) -> (
    BuildStage,
    BuildStep,
) {
    match (stage, event) {
        (BuildStage::Start, _) => match req.source {
            ImageSource::Image(image) => (
                BuildStage::Pull { image },
                announced(BuildPhase::Pull, BuildNotice::Pulling(image), BuildAction::Pull(image)),
            ),
            ImageSource::Dockerfile => (
                BuildStage::ReadDockerfile,
                just(BuildAction::ReadDockerfile),
            ),
            ImageSource::Compose(Some(service)) => (
                BuildStage::BuildServices { service },
                announced(
                    BuildPhase::Services,
                    BuildNotice::BuildingServices,
                    BuildAction::BuildServices(service),
                ),
            ),
            ImageSource::Compose(None) => (BuildStage::Ended, just(BuildAction::FailNoService)),
            ImageSource::Unstated => (BuildStage::Ended, just(BuildAction::FailUnstated)),
        },
        (BuildStage::BuildFeatures { user, remap }, BuildEvent::Failed(e)) => (
            BuildStage::RemoveStaging { user, remap, failure: Some(e) },
            just(BuildAction::RemoveStaging),
        ),
        (_, BuildEvent::Failed(e)) => (BuildStage::Ended, just(BuildAction::Fail(e))),
        (BuildStage::Pull { image }, _) => if req.features > 0 {
            downloading(req, image)
        } else {
            (BuildStage::Ended, just(BuildAction::PrintTag(image)))
        },
        (BuildStage::ReadDockerfile, _) => (
            BuildStage::BuildImage,
            announced(
                BuildPhase::Image,
                BuildNotice::Building,
                BuildAction::BuildImage(
                    if req.features > 0 {
                        req.folder_image
                    } else {
                        req.final_of()
                    },
                ),
            ),
        ),
        (BuildStage::BuildImage, _) => if req.features > 0 {
            downloading(req, req.folder_image)
        } else {
            (BuildStage::ImageUser, just(BuildAction::ResolveUser(req.final_of())))
        },
        (BuildStage::BuildServices { service }, _) => if req.features > 0 {
            (BuildStage::ServiceImage, just(BuildAction::ServiceImage(service)))
        } else {
            (BuildStage::Ended, just(BuildAction::PrintService(service)))
        },
        (BuildStage::ServiceImage, BuildEvent::Named(base)) => downloading(req, base),
        (BuildStage::Download { base }, _) => (BuildStage::Lock { base }, just(BuildAction::Lock)),
        (BuildStage::Lock { base }, _) => (BuildStage::Stage { base }, just(BuildAction::Stage)),
        (BuildStage::Stage { base }, _) => (
            BuildStage::FeatureUser { base },
            just(BuildAction::ResolveUser(base)),
        ),
        (BuildStage::FeatureUser { base }, BuildEvent::User { user, remap }) => (
            BuildStage::BuildFeatures { user, remap },
            announced(
                BuildPhase::Features,
                BuildNotice::BuildingFeatures,
                BuildAction::BuildFeatures { base, tag: req.final_of(), user },
            ),
        ),
        (BuildStage::BuildFeatures { user, remap }, _) => (
            BuildStage::RemoveStaging { user, remap, failure: None },
            just(BuildAction::RemoveStaging),
        ),
        (BuildStage::RemoveStaging { user, remap, failure }, _) => match failure {
            Some(e) => (BuildStage::Ended, just(BuildAction::Fail(e))),
            None => finishing(req, user, remap),
        },
        (BuildStage::ImageUser, BuildEvent::User { user, remap }) => finishing(req, user, remap),
        (BuildStage::InspectUser { user }, BuildEvent::ImageUser(image_user)) => (
            BuildStage::BuildUid,
            just(BuildAction::BuildUid { tag: req.final_of(), user, image_user }),
        ),
        (BuildStage::BuildUid, BuildEvent::Named(tag)) => (
            BuildStage::Ended,
            just(BuildAction::PrintTag(tag)),
        ),
        _ => (BuildStage::Ended, just(BuildAction::FailUnstated)),
    }
}

fn do_just(action: BuildAction) -> (r: BuildStep)
    ensures
        r == just(action),
{
    BuildStep { phase: None, notice: None, action }
}

fn do_announced(phase: BuildPhase, notice: BuildNotice, action: BuildAction) -> (r: BuildStep)
    ensures
        r == announced(phase, notice, action),
{
    BuildStep { phase: Some(phase), notice: Some(notice), action }
}

fn download(req: &BuildRequest, base: String) -> (r: (BuildStage, BuildStep))
    ensures
        r == downloading(*req, base),
{
    (
        BuildStage::Download { base },
        do_announced(
            BuildPhase::Download,
            BuildNotice::Downloading(req.features),
            BuildAction::Download,
        ),
    )
}

fn finish(req: &BuildRequest, user: Option<String>, remap: bool) -> (r: (BuildStage, BuildStep))
    ensures
        r == finishing(*req, user, remap),
{
    if remap {
        (
            BuildStage::InspectUser { user },
            BuildStep {
                phase: Some(BuildPhase::Remap),
                notice: None,
                action: BuildAction::InspectUser(req.final_tag()),
            },
        )
    } else {
        (BuildStage::Ended, do_just(BuildAction::PrintTag(req.final_tag())))
    }
}

fn begin(req: &BuildRequest) -> (r: (BuildStage, BuildStep))
    ensures
        r == build_next(*req, BuildStage::Start, BuildEvent::Begin),
{
    match &req.source {
        ImageSource::Image(image) => (
            BuildStage::Pull { image: image.clone() },
            do_announced(
                BuildPhase::Pull,
                BuildNotice::Pulling(image.clone()),
                BuildAction::Pull(image.clone()),
            ),
        ),
        ImageSource::Dockerfile => (
            BuildStage::ReadDockerfile,
            do_just(BuildAction::ReadDockerfile),
        ),
        ImageSource::Compose(Some(service)) => (
            BuildStage::BuildServices { service: service.clone() },
            do_announced(
                BuildPhase::Services,
                BuildNotice::BuildingServices,
                BuildAction::BuildServices(service.clone()),
            ),
        ),
        ImageSource::Compose(None) => (BuildStage::Ended, do_just(BuildAction::FailNoService)),
        ImageSource::Unstated => (BuildStage::Ended, do_just(BuildAction::FailUnstated)),
    }
}

/// What is to be shown, said and done next, given what came of the last action.
pub fn step(req: &BuildRequest, stage: BuildStage, event: BuildEvent) -> (r: (BuildStage, BuildStep))
    requires
        fits(stage, event),
    ensures
        r == build_next(*req, stage, event),
{
    match (stage, event) {
        (BuildStage::Start, _) => begin(req),
        (BuildStage::BuildFeatures { user, remap }, BuildEvent::Failed(e)) => (
            BuildStage::RemoveStaging { user, remap, failure: Some(e) },
            do_just(BuildAction::RemoveStaging),
        ),
        (_, BuildEvent::Failed(e)) => (BuildStage::Ended, do_just(BuildAction::Fail(e))),
        (BuildStage::Pull { image }, _) => {
            if req.features > 0 {
                download(req, image)
            } else {
                (BuildStage::Ended, do_just(BuildAction::PrintTag(image)))
            }
        },
        (BuildStage::ReadDockerfile, _) => {
            let tag = if req.features > 0 {
                req.folder_image.clone()
            } else {
                req.final_tag()
            };
            (
                BuildStage::BuildImage,
                do_announced(
                    BuildPhase::Image,
                    BuildNotice::Building,
                    BuildAction::BuildImage(tag),
                ),
            )
        },
        (BuildStage::BuildImage, _) => {
            if req.features > 0 {
                download(req, req.folder_image.clone())
            } else {
                (
                    BuildStage::ImageUser,
                    do_just(BuildAction::ResolveUser(req.final_tag())),
                )
            }
        },
        (BuildStage::BuildServices { service }, _) => {
            if req.features > 0 {
                (BuildStage::ServiceImage, do_just(BuildAction::ServiceImage(service)))
            } else {
                (BuildStage::Ended, do_just(BuildAction::PrintService(service)))
            }
        },
        (BuildStage::ServiceImage, BuildEvent::Named(base)) => download(req, base),
        (BuildStage::Download { base }, _) => (
            BuildStage::Lock { base },
            do_just(BuildAction::Lock),
        ),
        (BuildStage::Lock { base }, _) => (BuildStage::Stage { base }, do_just(BuildAction::Stage)),
        (BuildStage::Stage { base }, _) => (
            BuildStage::FeatureUser { base: base.clone() },
            do_just(BuildAction::ResolveUser(base)),
        ),
        (BuildStage::FeatureUser { base }, BuildEvent::User { user, remap }) => {
            let runs_as = copy_of(&user);
            (
                BuildStage::BuildFeatures { user, remap },
                do_announced(
                    BuildPhase::Features,
                    BuildNotice::BuildingFeatures,
                    BuildAction::BuildFeatures { base, tag: req.final_tag(), user: runs_as },
                ),
            )
        },
        (BuildStage::BuildFeatures { user, remap }, _) => (
            BuildStage::RemoveStaging { user, remap, failure: None },
            do_just(BuildAction::RemoveStaging),
        ),
        (BuildStage::RemoveStaging { user, remap, failure }, _) => match failure {
            Some(e) => (BuildStage::Ended, do_just(BuildAction::Fail(e))),
            None => finish(req, user, remap),
        },
        (BuildStage::ImageUser, BuildEvent::User { user, remap }) => finish(req, user, remap),
        (BuildStage::InspectUser { user }, BuildEvent::ImageUser(image_user)) => (
            BuildStage::BuildUid,
            do_just(BuildAction::BuildUid { tag: req.final_tag(), user, image_user }),
        ),
        (BuildStage::BuildUid, BuildEvent::Named(tag)) => (
            BuildStage::Ended,
            do_just(BuildAction::PrintTag(tag)),
        ),
        _ => (BuildStage::Ended, do_just(BuildAction::FailUnstated)),
    }
}

// ---------------------------------------------------------------------------
// Every run
// ---------------------------------------------------------------------------

/// What comes next, as `build_next` says.
#[verifier::opaque]
pub open spec fn following(req: BuildRequest, stage: BuildStage, event: BuildEvent) -> (BuildStage, BuildStep) {
    build_next(req, stage, event)
}

/// The stage after a series of events.
pub open spec fn after(req: BuildRequest, events: Seq<BuildEvent>) -> BuildStage
    decreases events.len(),
{
    if events.len() == 0 {
        BuildStage::Start
    } else {
        following(req, after(req, events.drop_last()), events.last()).0
    }
}

/// What the last of a series of events called for.
pub open spec fn step_of(req: BuildRequest, events: Seq<BuildEvent>) -> BuildStep {
    following(req, after(req, events.drop_last()), events.last()).1
}

/// Each event is one that was waited for.
pub open spec fn in_turn(req: BuildRequest, events: Seq<BuildEvent>) -> bool {
    forall|i: int| 0 <= i < events.len() ==> fits(after(req, events.take(i)), #[trigger] events[i])
}

proof fn in_turn_before(req: BuildRequest, events: Seq<BuildEvent>)
    requires
        in_turn(req, events),
        events.len() > 0,
    ensures
        in_turn(req, events.drop_last()),
        fits(after(req, events.drop_last()), events.last()),
{
    let rest = events.drop_last();
    assert forall|i: int| 0 <= i < rest.len() implies fits(
        after(req, rest.take(i)),
        #[trigger] rest[i],
    ) by {
        assert(events[i] == rest[i]);
        assert(rest.take(i) == events.take(i));
    }
    assert(events.take(events.len() - 1) == rest);
    assert(events[events.len() - 1] == events.last());
}

/// The action belongs to the features.
pub open spec fn about_features(action: BuildAction) -> bool {
    action is Download || action is Lock || action is Stage || action is BuildFeatures || action is RemoveStaging
}

spec fn among_features(stage: BuildStage) -> bool {
    stage is ServiceImage || stage is Download || stage is Lock || stage is Stage || stage is FeatureUser
        || stage is BuildFeatures || stage is RemoveStaging
}

proof fn features_invariant(req: BuildRequest, events: Seq<BuildEvent>)
    requires
        in_turn(req, events),
        req.features == 0,
    ensures
        !among_features(after(req, events)),
    decreases events.len(),
{
    if events.len() > 0 {
        in_turn_before(req, events);
        features_invariant(req, events.drop_last());
        reveal(following);
    }
}

/// A project without features has nothing fetched, laid out or put on top of its
/// image.
pub proof fn no_features_no_feature_work(req: BuildRequest, events: Seq<BuildEvent>)
    requires
        in_turn(req, events),
        events.len() > 0,
        req.features == 0,
    ensures
        !about_features(step_of(req, events).action),
{
    in_turn_before(req, events);
    features_invariant(req, events.drop_last());
    reveal(following);
}

/// What was laid out for the build of the features is removed as soon as that
/// build is over, whether or not it failed, and before anything else is done.
pub proof fn staging_is_always_removed(req: BuildRequest, stage: BuildStage, event: BuildEvent)
    requires
        fits(stage, event),
        stage is BuildFeatures,
    ensures
        build_next(req, stage, event).1.action is RemoveStaging,
        event is Failed ==> (build_next(req, stage, event).0 matches BuildStage::RemoveStaging {
            failure,
            ..
        } && failure == Some(event->Failed_0)),
{
}

/// Features are fetched and held to the lockfile before any of them is built:
/// what comes before the build is the layout, and before that the lockfile.
pub proof fn features_are_locked_before_they_are_built(req: BuildRequest, stage: BuildStage, event: BuildEvent)
    requires
        fits(stage, event),
    ensures
        build_next(req, stage, event).1.action is BuildFeatures ==> stage is FeatureUser,
        build_next(req, stage, event).0 is FeatureUser ==> stage is Stage,
        build_next(req, stage, event).0 is Stage ==> stage is Lock,
        build_next(req, stage, event).0 is Lock ==> stage is Download,
{
}

/// The tag that a build prints is that of the last image it built: the final tag
/// where no user's id was changed, and the pulled image where nothing was put on
/// top of it.
pub proof fn printed_tags(req: BuildRequest, stage: BuildStage, event: BuildEvent)
    requires
        fits(stage, event),
        build_next(req, stage, event).1.action is PrintTag,
    ensures
        ({
            let tag = build_next(req, stage, event).1.action->PrintTag_0;
            match stage {
                BuildStage::Pull { image } => tag == image && req.features == 0,
                BuildStage::BuildUid => event == BuildEvent::Named(tag),
                _ => tag == req.final_of(),
            }
        }),
{
}

} // verus!
