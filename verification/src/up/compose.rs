//! The order of `dev up` for a Compose project.
use vstd::prelude::*;

pub mod laws;

use crate::model::{copy_opt, DevcontainerConfig};
use crate::text::{cat2, cat5, owned, same, texts};

verus! {

/// Which lifecycle hooks a service is owed.
#[derive(Clone, Copy, Debug, PartialEq, Eq, Structural)]
pub enum ComposeHooks {
    /// The container is new: the create-time hooks, then the start-time ones.
    Create,
    /// The container was there and was started: the start-time hooks.
    Start,
    /// The container was running already.
    Nothing,
}

/// The hooks owed, from what was there before `compose up`.
pub open spec fn owed(running_before: bool, existed_before: bool, rebuild: bool) -> ComposeHooks {
    if rebuild || !existed_before {
        ComposeHooks::Create
    } else if running_before {
        ComposeHooks::Nothing
    } else {
        ComposeHooks::Start
    }
}

/// The hooks owed, from what was there before `compose up`. A rebuild makes the
/// container new.
pub fn compose_hooks_owed(running_before: bool, existed_before: bool, rebuild: bool) -> (r: ComposeHooks)
    ensures
        r == owed(running_before, existed_before, rebuild),
{
    if rebuild || !existed_before {
        ComposeHooks::Create
    } else if running_before {
        ComposeHooks::Nothing
    } else {
        ComposeHooks::Start
    }
}

/// A container that was running and is not rebuilt is owed no hooks, one that
/// is rebuilt or new is owed all of them.
pub proof fn hooks_follow_what_was_started(running_before: bool, existed_before: bool, rebuild: bool)
    requires
        running_before ==> existed_before,
    ensures
        owed(running_before, existed_before, rebuild) is Create <==> rebuild || !existed_before,
        owed(running_before, existed_before, rebuild) is Nothing <==> running_before && !rebuild,
        owed(running_before, existed_before, rebuild) is Start <==> existed_before && !running_before
            && !rebuild,
{
}

/// What `dev up` was asked for, and the Compose project it is for.
pub struct ComposeRequest {
    pub config: DevcontainerConfig,
    pub rebuild: bool,
}

/// Why it stops.
pub enum ComposeFailure {
    /// What was being done failed, with this message.
    Reported(String),
    /// The project names no service.
    NoService,
}

/// Something to say on the way.
pub enum ComposeNotice {
    Building,
    Starting,
    /// The service is ready, in this container.
    Ready(String, String),
    SitesFailed(String),
}

/// What is to be done.
pub enum ComposeAction {
    RunInitializeCommand,
    /// Build the service's image.
    BuildService,
    /// Find out the name of the service's image.
    FindServiceImage,
    /// Find the features the project asks for.
    ResolveFeatures,
    /// Build the features on top of this image.
    BuildFeatures(String),
    /// Find out whom commands are run as in containers of this image.
    ResolveUser(String),
    /// Match the ids of this user in this image to the host's, where that is
    /// wanted.
    RemapUser(String, Option<String>),
    /// Write the override file for this user, with this image in the service's
    /// place if there is one.
    WriteOverride(Option<String>, Option<String>),
    /// Find out whether the service has a running container.
    FindRunning,
    /// Find out whether the service has a container at all.
    FindExisting,
    /// Bring the services up.
    ComposeUp,
    /// Find the service's container.
    FindContainer,
    /// Take this container through the readiness checks, as this user.
    VerifyService(String, Option<String>),
    /// Run the create-time hooks in this container, as this user.
    RunCreateHooks(String, Option<String>),
    /// Run the start-time hooks in this container, as this user.
    RunStartHooks(String, Option<String>),
    /// Install the dotfiles in this container, as this user.
    InstallDotfiles(String, Option<String>),
    /// Remove the files that were written.
    CleanUp,
    RegisterSites,
    Finish,
    Fail(ComposeFailure),
}

/// What came of the last action.
pub enum ComposeEvent {
    Begin,
    Done,
    Failed(String),
    /// The service's image, the image with the features, or the final image.
    Image(String),
    /// Whom commands are run as.
    User(Option<String>),
    /// Whether there is anything of what was looked for.
    Found(bool),
    /// The service's container.
    Container(String),
}

/// Where it has got to: what was last asked to be done.
pub enum ComposeStage {
    Start,
    Initialize,
    Build,
    ServiceImage,
    Features { base: String },
    FeatureBuild { base: String },
    User { base: String, featured: String },
    Remap { base: String, user: Option<String> },
    Override { user: Option<String> },
    Running { user: Option<String> },
    Existing { user: Option<String> },
    Up { hooks: ComposeHooks, user: Option<String> },
    Container { hooks: ComposeHooks, user: Option<String> },
    Verify { hooks: ComposeHooks, id: String, user: Option<String> },
    Hooks { id: String, user: Option<String> },
    Dotfiles { id: String },
    CleanUp { id: String },
    Sites,
    Ended,
}

/// What is to be said, and then done.
pub struct ComposeStep {
    pub notice: Option<ComposeNotice>,
    pub action: ComposeAction,
}

pub open spec fn just(action: ComposeAction) -> ComposeStep {
    ComposeStep { notice: None, action }
}

pub open spec fn saying(notice: ComposeNotice, action: ComposeAction) -> ComposeStep {
    ComposeStep { notice: Some(notice), action }
}

/// The event is one that the stage waits for.
pub open spec fn fits(stage: ComposeStage, event: ComposeEvent) -> bool {
    match stage {
        ComposeStage::Start => event is Begin,
        ComposeStage::Ended => false,
        ComposeStage::CleanUp { .. } => event is Done,
        ComposeStage::Running { .. } => event is Found,
        ComposeStage::Existing { .. } => event is Found,
        _ => event is Failed || match stage {
            ComposeStage::ServiceImage => event is Image,
            ComposeStage::Features { .. } => event is Found,
            ComposeStage::FeatureBuild { .. } => event is Image,
            ComposeStage::User { .. } => event is User,
            ComposeStage::Remap { .. } => event is Image,
            ComposeStage::Container { .. } => event is Container,
            _ => event is Done,
        },
    }
}

/// The image that takes the place of the service's, if it is another.
pub open spec fn image_override(base: String, image: String) -> Option<String> {
    if image@ == base@ {
        None
    } else {
        Some(image)
    }
}

/// The services are brought up, once it is known which hooks are owed.
pub open spec fn bring_up(hooks: ComposeHooks, user: Option<String>) -> (ComposeStage, ComposeStep) {
    (ComposeStage::Up { hooks, user }, saying(ComposeNotice::Starting, ComposeAction::ComposeUp))
}

/// The hooks have run: dotfiles next, if there are any.
pub open spec fn hooks_done(req: ComposeRequest, id: String, user: Option<String>) -> (ComposeStage, ComposeStep) {
    if req.config.dotfiles is Some {
        (ComposeStage::Dotfiles { id }, just(ComposeAction::InstallDotfiles(id, user)))
    } else {
        (ComposeStage::CleanUp { id }, just(ComposeAction::CleanUp))
    }
}

/// The service is ready.
pub open spec fn ready(req: ComposeRequest, id: String) -> (ComposeStage, ComposeStep) {
    let notice = ComposeNotice::Ready(req.config.service->Some_0, id);
    if crate::up::ports::forwarded(req.config).len() > 0 {
        (ComposeStage::Sites, saying(notice, ComposeAction::RegisterSites))
    } else {
        (ComposeStage::Ended, saying(notice, ComposeAction::Finish))
    }
}

/// What comes next.
pub open spec fn compose_next(req: ComposeRequest, stage: ComposeStage, event: ComposeEvent) -> (
    ComposeStage,
    ComposeStep,
) {
    match (stage, event) {
        (ComposeStage::Start, _) => {
            if req.config.service is None {
                (ComposeStage::Ended, just(ComposeAction::Fail(ComposeFailure::NoService)))
            } else if req.config.initialize_command is Some {
                (ComposeStage::Initialize, just(ComposeAction::RunInitializeCommand))
            } else {
                (ComposeStage::Build, saying(ComposeNotice::Building, ComposeAction::BuildService))
            }
        },
        (ComposeStage::Sites, ComposeEvent::Failed(e)) => (
            ComposeStage::Ended,
            saying(ComposeNotice::SitesFailed(e), ComposeAction::Finish),
        ),
        (_, ComposeEvent::Failed(e)) => (
            ComposeStage::Ended,
            just(ComposeAction::Fail(ComposeFailure::Reported(e))),
        ),
        (ComposeStage::Initialize, _) => (
            ComposeStage::Build,
            saying(ComposeNotice::Building, ComposeAction::BuildService),
        ),
        (ComposeStage::Build, _) => (ComposeStage::ServiceImage, just(ComposeAction::FindServiceImage)),
        (ComposeStage::ServiceImage, ComposeEvent::Image(base)) => (
            ComposeStage::Features { base },
            just(ComposeAction::ResolveFeatures),
        ),
        (ComposeStage::Features { base }, ComposeEvent::Found(any)) => {
            if any {
                (ComposeStage::FeatureBuild { base }, just(ComposeAction::BuildFeatures(base)))
            } else {
                (
                    ComposeStage::User { base, featured: base },
                    just(ComposeAction::ResolveUser(base)),
                )
            }
        },
        (ComposeStage::FeatureBuild { base }, ComposeEvent::Image(featured)) => (
            ComposeStage::User { base, featured },
            just(ComposeAction::ResolveUser(featured)),
        ),
        (ComposeStage::User { base, featured }, ComposeEvent::User(user)) => (
            ComposeStage::Remap { base, user },
            just(ComposeAction::RemapUser(featured, user)),
        ),
        (ComposeStage::Remap { base, user }, ComposeEvent::Image(image)) => (
            ComposeStage::Override { user },
            just(ComposeAction::WriteOverride(image_override(base, image), user)),
        ),
        (ComposeStage::Override { user }, _) => (
            ComposeStage::Running { user },
            just(ComposeAction::FindRunning),
        ),
        (ComposeStage::Running { user }, ComposeEvent::Found(running)) => {
            if running {
                bring_up(owed(true, true, req.rebuild), user)
            } else {
                (ComposeStage::Existing { user }, just(ComposeAction::FindExisting))
            }
        },
        (ComposeStage::Existing { user }, ComposeEvent::Found(existing)) => bring_up(
            owed(false, existing, req.rebuild),
            user,
        ),
        (ComposeStage::Up { hooks, user }, _) => (
            ComposeStage::Container { hooks, user },
            just(ComposeAction::FindContainer),
        ),
        (ComposeStage::Container { hooks, user }, ComposeEvent::Container(id)) => (
            ComposeStage::Verify { hooks, id, user },
            just(ComposeAction::VerifyService(id, user)),
        ),
        (ComposeStage::Verify { hooks, id, user }, _) => match hooks {
            ComposeHooks::Create => (
                ComposeStage::Hooks { id, user },
                just(ComposeAction::RunCreateHooks(id, user)),
            ),
            ComposeHooks::Start => (
                ComposeStage::Hooks { id, user },
                just(ComposeAction::RunStartHooks(id, user)),
            ),
            ComposeHooks::Nothing => hooks_done(req, id, user),
        },
        (ComposeStage::Hooks { id, user }, _) => hooks_done(req, id, user),
        (ComposeStage::Dotfiles { id }, _) => (
            ComposeStage::CleanUp { id },
            just(ComposeAction::CleanUp),
        ),
        (ComposeStage::CleanUp { id }, _) => ready(req, id),
        _ => (ComposeStage::Ended, just(ComposeAction::Finish)),
    }
}

fn do_just(action: ComposeAction) -> (r: ComposeStep)
    ensures
        r == just(action),
{
    ComposeStep { notice: None, action }
}

fn do_saying(notice: ComposeNotice, action: ComposeAction) -> (r: ComposeStep)
    ensures
        r == saying(notice, action),
{
    ComposeStep { notice: Some(notice), action }
}

fn do_hooks_done(req: &ComposeRequest, id: String, user: Option<String>) -> (r: (ComposeStage, ComposeStep))
    ensures
        r == hooks_done(*req, id, user),
{
    if req.config.dotfiles.is_some() {
        (
            ComposeStage::Dotfiles { id: id.clone() },
            do_just(ComposeAction::InstallDotfiles(id, user)),
        )
    } else {
        (ComposeStage::CleanUp { id }, do_just(ComposeAction::CleanUp))
    }
}

fn do_ready(req: &ComposeRequest, id: String) -> (r: (ComposeStage, ComposeStep))
    requires
        req.config.service is Some,
    ensures
        r == ready(*req, id),
{
    let service = match &req.config.service {
        Some(service) => service.clone(),
        None => String::new(),
    };
    let forwards = match &req.config.forward_ports {
        Some(ports) => ports.len() > 0,
        None => false,
    };
    if forwards {
        (
            ComposeStage::Sites,
            do_saying(ComposeNotice::Ready(service, id), ComposeAction::RegisterSites),
        )
    } else {
        (
            ComposeStage::Ended,
            do_saying(ComposeNotice::Ready(service, id), ComposeAction::Finish),
        )
    }
}

fn do_bring_up(hooks: ComposeHooks, user: Option<String>) -> (r: (ComposeStage, ComposeStep))
    ensures
        r == bring_up(hooks, user),
{
    (ComposeStage::Up { hooks, user }, do_saying(ComposeNotice::Starting, ComposeAction::ComposeUp))
}

/// What is to be said and done next, given what came of the last action.
pub fn step(req: &ComposeRequest, stage: ComposeStage, event: ComposeEvent) -> (r: (ComposeStage, ComposeStep))
    requires
        fits(stage, event),
        stage is CleanUp ==> req.config.service is Some,
    ensures
        r == compose_next(*req, stage, event),
{
    match (stage, event) {
        (ComposeStage::Start, _) => {
            if req.config.service.is_none() {
                (ComposeStage::Ended, do_just(ComposeAction::Fail(ComposeFailure::NoService)))
            } else if req.config.initialize_command.is_some() {
                (ComposeStage::Initialize, do_just(ComposeAction::RunInitializeCommand))
            } else {
                (
                    ComposeStage::Build,
                    do_saying(ComposeNotice::Building, ComposeAction::BuildService),
                )
            }
        },
        (ComposeStage::Sites, ComposeEvent::Failed(e)) => (
            ComposeStage::Ended,
            do_saying(ComposeNotice::SitesFailed(e), ComposeAction::Finish),
        ),
        (_, ComposeEvent::Failed(e)) => (
            ComposeStage::Ended,
            do_just(ComposeAction::Fail(ComposeFailure::Reported(e))),
        ),
        (ComposeStage::Initialize, _) => (
            ComposeStage::Build,
            do_saying(ComposeNotice::Building, ComposeAction::BuildService),
        ),
        (ComposeStage::Build, _) => (
            ComposeStage::ServiceImage,
            do_just(ComposeAction::FindServiceImage),
        ),
        (ComposeStage::ServiceImage, ComposeEvent::Image(base)) => (
            ComposeStage::Features { base },
            do_just(ComposeAction::ResolveFeatures),
        ),
        (ComposeStage::Features { base }, ComposeEvent::Found(any)) => {
            if any {
                (
                    ComposeStage::FeatureBuild { base: base.clone() },
                    do_just(ComposeAction::BuildFeatures(base)),
                )
            } else {
                (
                    ComposeStage::User { base: base.clone(), featured: base.clone() },
                    do_just(ComposeAction::ResolveUser(base)),
                )
            }
        },
        (ComposeStage::FeatureBuild { base }, ComposeEvent::Image(featured)) => (
            ComposeStage::User { base, featured: featured.clone() },
            do_just(ComposeAction::ResolveUser(featured)),
        ),
        (ComposeStage::User { base, featured }, ComposeEvent::User(user)) => (
            ComposeStage::Remap { base, user: copy_opt(&user) },
            do_just(ComposeAction::RemapUser(featured, user)),
        ),
        (ComposeStage::Remap { base, user }, ComposeEvent::Image(image)) => {
            let over = if same(image.as_str(), base.as_str()) {
                None
            } else {
                Some(image)
            };
            (
                ComposeStage::Override { user: copy_opt(&user) },
                do_just(ComposeAction::WriteOverride(over, user)),
            )
        },
        (ComposeStage::Override { user }, _) => (
            ComposeStage::Running { user },
            do_just(ComposeAction::FindRunning),
        ),
        (ComposeStage::Running { user }, ComposeEvent::Found(running)) => {
            if running {
                do_bring_up(compose_hooks_owed(true, true, req.rebuild), user)
            } else {
                (ComposeStage::Existing { user }, do_just(ComposeAction::FindExisting))
            }
        },
        (ComposeStage::Existing { user }, ComposeEvent::Found(existing)) => do_bring_up(
            compose_hooks_owed(false, existing, req.rebuild),
            user,
        ),
        (ComposeStage::Up { hooks, user }, _) => (
            ComposeStage::Container { hooks, user },
            do_just(ComposeAction::FindContainer),
        ),
        (ComposeStage::Container { hooks, user }, ComposeEvent::Container(id)) => (
            ComposeStage::Verify { hooks, id: id.clone(), user: copy_opt(&user) },
            do_just(ComposeAction::VerifyService(id, user)),
        ),
        (ComposeStage::Verify { hooks, id, user }, _) => match hooks {
            ComposeHooks::Create => (
                ComposeStage::Hooks { id: id.clone(), user: copy_opt(&user) },
                do_just(ComposeAction::RunCreateHooks(id, user)),
            ),
            ComposeHooks::Start => (
                ComposeStage::Hooks { id: id.clone(), user: copy_opt(&user) },
                do_just(ComposeAction::RunStartHooks(id, user)),
            ),
            ComposeHooks::Nothing => do_hooks_done(req, id, user),
        },
        (ComposeStage::Hooks { id, user }, _) => do_hooks_done(req, id, user),
        (ComposeStage::Dotfiles { id }, _) => (
            ComposeStage::CleanUp { id },
            do_just(ComposeAction::CleanUp),
        ),
        (ComposeStage::CleanUp { id }, _) => do_ready(req, id),
        _ => (ComposeStage::Ended, do_just(ComposeAction::Finish)),
    }
}

// ---------------------------------------------------------------------------
// Every run
// ---------------------------------------------------------------------------

/// What follows an event: the stage and the step that the run goes on with.
#[verifier::opaque]
pub open spec fn following(req: ComposeRequest, stage: ComposeStage, event: ComposeEvent) -> (
    ComposeStage,
    ComposeStep,
) {
    compose_next(req, stage, event)
}

/// The stage after a series of events.
pub open spec fn after(req: ComposeRequest, events: Seq<ComposeEvent>) -> ComposeStage
    decreases events.len(),
{
    if events.len() == 0 {
        ComposeStage::Start
    } else {
        following(req, after(req, events.drop_last()), events.last()).0
    }
}

/// What the last of a series of events called for.
pub open spec fn step_of(req: ComposeRequest, events: Seq<ComposeEvent>) -> ComposeStep {
    following(req, after(req, events.drop_last()), events.last()).1
}

/// Each event is one that was waited for.
pub open spec fn in_turn(req: ComposeRequest, events: Seq<ComposeEvent>) -> bool {
    forall|i: int| 0 <= i < events.len() ==> fits(after(req, events.take(i)), #[trigger] events[i])
}

proof fn in_turn_before(req: ComposeRequest, events: Seq<ComposeEvent>)
    requires
        in_turn(req, events),
        events.len() > 0,
    ensures
        in_turn(req, events.drop_last()),
        fits(after(req, events.drop_last()), events.last()),
{
    let rest = events.drop_last();
    assert forall|i: int| 0 <= i < rest.len() implies fits(after(req, rest.take(i)), #[trigger] rest[i]) by {
        assert(events[i] == rest[i]);
        assert(rest.take(i) == events.take(i));
    }
    assert(events.take(events.len() - 1) == rest);
    assert(events[events.len() - 1] == events.last());
}

/// This container passed the readiness checks as this user: the action after the
/// first `i` events was to take it through them, and that was done.
pub open spec fn passed_at(
    req: ComposeRequest,
    events: Seq<ComposeEvent>,
    i: int,
    id: String,
    user: Option<String>,
) -> bool {
    &&& 1 <= i < events.len()
    &&& step_of(req, events.take(i)).action == ComposeAction::VerifyService(id, user)
    &&& events[i] is Done
}

/// This container passed the readiness checks as this user.
#[verifier::opaque]
pub open spec fn passed(req: ComposeRequest, events: Seq<ComposeEvent>, id: String, user: Option<String>) -> bool {
    exists|i: int| #[trigger] passed_at(req, events, i, id, user)
}

/// This is the user that was found.
#[verifier::opaque]
pub open spec fn user_found(events: Seq<ComposeEvent>, user: Option<String>) -> bool {
    exists|i: int| 0 <= i < events.len() && #[trigger] events[i] == ComposeEvent::User(user)
}

/// This container passed the readiness checks, as the user that was found.
#[verifier::opaque]
pub open spec fn vetted(req: ComposeRequest, events: Seq<ComposeEvent>, id: String) -> bool {
    exists|user: Option<String>| #[trigger] passed(req, events, id, user) && user_found(events, user)
}

/// What holds of the container and of the user that a stage speaks of.
spec fn accounted_for(
    req: ComposeRequest,
    events: Seq<ComposeEvent>,
    stage: ComposeStage,
    action: ComposeAction,
) -> bool {
    match stage {
        ComposeStage::Remap { user, .. } => user_found(events, user),
        ComposeStage::Override { user } => user_found(events, user),
        ComposeStage::Running { user } => user_found(events, user),
        ComposeStage::Existing { user } => user_found(events, user),
        ComposeStage::Up { user, .. } => user_found(events, user),
        ComposeStage::Container { user, .. } => user_found(events, user),
        ComposeStage::Verify { id, user, .. } => user_found(events, user) && action
            == ComposeAction::VerifyService(id, user),
        ComposeStage::Hooks { id, user } => user_found(events, user) && passed(req, events, id, user),
        ComposeStage::Dotfiles { id } => vetted(req, events, id),
        ComposeStage::CleanUp { id } => vetted(req, events, id),
        _ => true,
    }
}

/// What is said to be ready, and what commands are run in and as whom, is
/// accounted for.
pub open spec fn vouched_for(req: ComposeRequest, events: Seq<ComposeEvent>, step: ComposeStep) -> bool {
    &&& step.notice matches Some(ComposeNotice::Ready(_, id)) ==> vetted(req, events, id)
    &&& match step.action {
        ComposeAction::RemapUser(_, user) => user_found(events, user),
        ComposeAction::WriteOverride(_, user) => user_found(events, user),
        ComposeAction::VerifyService(_, user) => user_found(events, user),
        ComposeAction::RunCreateHooks(id, user) => user_found(events, user) && passed(req, events, id, user),
        ComposeAction::RunStartHooks(id, user) => user_found(events, user) && passed(req, events, id, user),
        ComposeAction::InstallDotfiles(id, user) => user_found(events, user) && passed(req, events, id, user),
        _ => true,
    }
}

proof fn still_known(req: ComposeRequest, events: Seq<ComposeEvent>)
    requires
        events.len() > 0,
    ensures
        forall|user: Option<String>| #[trigger]
            user_found(events.drop_last(), user) ==> user_found(events, user),
        forall|user: Option<String>|
            events.last() == ComposeEvent::User(user) ==> #[trigger] user_found(events, user),
        forall|id: String, user: Option<String>| #[trigger]
            passed(req, events.drop_last(), id, user) ==> passed(req, events, id, user),
        forall|id: String, user: Option<String>|
            events.len() > 1 && step_of(req, events.drop_last()).action == ComposeAction::VerifyService(id, user)
                && events.last() is Done ==> #[trigger] passed(req, events, id, user),
        forall|id: String| #[trigger] vetted(req, events.drop_last(), id) ==> vetted(req, events, id),
{
    reveal(passed);
    reveal(user_found);
    reveal(vetted);
    let rest = events.drop_last();
    let n = events.len() - 1;
    assert(events[n] == events.last());
    assert(events.take(n) == rest);
    assert forall|user: Option<String>| #[trigger] user_found(rest, user) implies user_found(events, user) by {
        let i = choose|i: int| 0 <= i < rest.len() && #[trigger] rest[i] == ComposeEvent::User(user);
        assert(events[i] == ComposeEvent::User(user));
    }
    assert forall|id: String, user: Option<String>| #[trigger] passed(req, rest, id, user) implies passed(
        req,
        events,
        id,
        user,
    ) by {
        let i = choose|i: int| #[trigger] passed_at(req, rest, i, id, user);
        assert(rest.take(i) == events.take(i));
        assert(passed_at(req, events, i, id, user));
    }
    assert forall|id: String, user: Option<String>|
        events.len() > 1 && step_of(req, rest).action == ComposeAction::VerifyService(id, user)
            && events.last() is Done implies #[trigger] passed(req, events, id, user) by {
        assert(passed_at(req, events, n, id, user));
    }
    assert forall|id: String| #[trigger] vetted(req, rest, id) implies vetted(req, events, id) by {
        let user = choose|user: Option<String>|
            #[trigger] passed(req, rest, id, user) && user_found(rest, user);
        assert(passed(req, events, id, user));
    }
}

proof fn is_vetted(req: ComposeRequest, events: Seq<ComposeEvent>, id: String, user: Option<String>)
    requires
        passed(req, events, id, user),
        user_found(events, user),
    ensures
        vetted(req, events, id),
{
    reveal(vetted);
}

/// Where a stage that speaks of a user or of a container comes from.
proof fn checks_step(req: ComposeRequest, stage: ComposeStage, event: ComposeEvent)
    requires
        fits(stage, event),
    ensures
        ({
            let (next, step) = following(req, stage, event);
            &&& match next {
                ComposeStage::Remap { user, .. } => event == ComposeEvent::User(user),
                ComposeStage::Override { user } => stage is Remap && stage->Remap_user == user,
                ComposeStage::Running { user } => stage == (ComposeStage::Override { user }),
                ComposeStage::Existing { user } => stage == (ComposeStage::Running { user }),
                ComposeStage::Up { user, .. } => stage == (ComposeStage::Running { user }) || stage == (
                ComposeStage::Existing { user }),
                ComposeStage::Container { hooks, user } => stage == (ComposeStage::Up { hooks, user }),
                ComposeStage::Verify { hooks, id, user } => stage == (ComposeStage::Container { hooks, user })
                    && step.action == ComposeAction::VerifyService(id, user),
                ComposeStage::Hooks { id, user } => stage is Verify && stage->Verify_id == id
                    && stage->Verify_user == user && event is Done && (step.action
                    == ComposeAction::RunCreateHooks(id, user) || step.action == ComposeAction::RunStartHooks(
                    id,
                    user,
                )),
                ComposeStage::Dotfiles { id } => event is Done && (stage is Verify && stage->Verify_id == id
                    && step.action == ComposeAction::InstallDotfiles(id, stage->Verify_user) || stage is Hooks
                    && stage->Hooks_id == id && step.action == ComposeAction::InstallDotfiles(
                    id,
                    stage->Hooks_user,
                )),
                ComposeStage::CleanUp { id } => event is Done && (stage is Verify && stage->Verify_id == id
                    || stage is Hooks && stage->Hooks_id == id || stage == (ComposeStage::Dotfiles { id })),
                _ => true,
            }
            &&& step.notice matches Some(ComposeNotice::Ready(_, id)) ==> stage == (ComposeStage::CleanUp { id })
            &&& match step.action {
                ComposeAction::RemapUser(_, user) => next is Remap && next->Remap_user == user,
                ComposeAction::WriteOverride(_, user) => next == (ComposeStage::Override { user }),
                ComposeAction::VerifyService(_, _) => next is Verify,
                ComposeAction::RunCreateHooks(_, _) => next is Hooks,
                ComposeAction::RunStartHooks(_, _) => next is Hooks,
                ComposeAction::InstallDotfiles(_, _) => next is Dotfiles,
                _ => true,
            }
        }),
{
    reveal(following);
}

proof fn checks_invariant(req: ComposeRequest, events: Seq<ComposeEvent>)
    requires
        in_turn(req, events),
    ensures
        accounted_for(req, events, after(req, events), step_of(req, events).action),
        events.len() > 0 ==> vouched_for(req, events, step_of(req, events)),
    decreases events.len(),
{
    if events.len() > 0 {
        let rest = events.drop_last();
        in_turn_before(req, events);
        checks_invariant(req, rest);
        checks_step(req, after(req, rest), events.last());
        still_known(req, events);
        match after(req, rest) {
            ComposeStage::Verify { id, user, .. } => {
                if events.last() is Done {
                    is_vetted(req, events, id, user);
                }
            },
            ComposeStage::Hooks { id, user } => {
                is_vetted(req, events, id, user);
            },
            _ => {},
        }
    }
}

/// Hooks are run, dotfiles installed and the service said to be ready only in a
/// container that was taken through the readiness checks and passed them; and
/// whatever is run in it, the checks' own commands included, is run as the user
/// that was found.
pub proof fn hooks_and_readiness_come_past_the_gate(req: ComposeRequest, events: Seq<ComposeEvent>)
    requires
        in_turn(req, events),
        events.len() > 0,
    ensures
        vouched_for(req, events, step_of(req, events)),
{
    checks_invariant(req, events);
}

proof fn service_step(req: ComposeRequest, stage: ComposeStage, event: ComposeEvent)
    requires
        fits(stage, event),
        req.config.service is None,
    ensures
        stage is Start ==> following(req, stage, event).0 is Ended,
{
    reveal(following);
}

/// A run that got anywhere is one of a project that names its service.
pub proof fn only_named_services_get_anywhere(req: ComposeRequest, events: Seq<ComposeEvent>)
    requires
        in_turn(req, events),
        !(after(req, events) is Start),
        !(after(req, events) is Ended),
    ensures
        req.config.service is Some,
    decreases events.len(),
{
    if events.len() > 0 {
        let rest = events.drop_last();
        in_turn_before(req, events);
        if req.config.service is None {
            service_step(req, after(req, rest), events.last());
        }
        if !(after(req, rest) is Start) {
            only_named_services_get_anywhere(req, rest);
        }
    }
}

// ---------------------------------------------------------------------------
// What is said, and what is handed to Compose
// ---------------------------------------------------------------------------

/// The first twelve bytes of a container's id, or all of them.
pub open spec fn short_id_len(id: Seq<char>) -> int {
    let n = vstd::utf8::encode_utf8(id).len();
    if n < 12 {
        n as int
    } else {
        12
    }
}

/// A container's id, shortened to its first twelve bytes.
pub open spec fn shortened(id: Seq<char>) -> Seq<char> {
    vstd::utf8::decode_utf8(vstd::utf8::encode_utf8(id).take(short_id_len(id)))
}

/// A container's id, shortened to its first twelve bytes.
pub fn short_id(id: &str) -> (r: &str)
    requires
        vstd::utf8::is_char_boundary(vstd::utf8::encode_utf8(id@), short_id_len(id@)),
    ensures
        r@ == shortened(id@),
{
    let n: usize = id.as_bytes().len();
    let at: usize = if n < 12 {
        n
    } else {
        12
    };
    let (head, _tail) = id.split_at(at);
    assert(vstd::utf8::encode_utf8(id@).take(at as int) == vstd::utf8::encode_utf8(id@).subrange(
        0,
        at as int,
    ));
    proof {
        vstd::utf8::encode_utf8_decode_utf8(head@);
    }
    head
}

impl ComposeNotice {
    /// The id in the notice can be shortened.
    pub open spec fn printable(&self) -> bool {
        match self {
            ComposeNotice::Ready(_, id) => vstd::utf8::is_char_boundary(
                vstd::utf8::encode_utf8(id@),
                short_id_len(id@),
            ),
            _ => true,
        }
    }

    /// What is said.
    pub fn text(&self) -> (r: String)
        requires
            self.printable(),
        ensures
            match self {
                ComposeNotice::Building => r@ == "Building compose services..."@,
                ComposeNotice::Starting => r@ == "Starting compose services..."@,
                ComposeNotice::Ready(service, id) => r@ == "Compose service '"@ + service@
                    + "' is ready (container "@ + shortened(id@) + ")."@,
                ComposeNotice::SitesFailed(e) => r@ == "Warning: Caddy setup failed: "@ + e@,
            },
    {
        match self {
            ComposeNotice::Building => owned("Building compose services..."),
            ComposeNotice::Starting => owned("Starting compose services..."),
            ComposeNotice::Ready(service, id) => {
                let short = short_id(id.as_str());
                cat5(
                    "Compose service '",
                    service.as_str(),
                    "' is ready (container ",
                    short,
                    ").",
                )
            },
            ComposeNotice::SitesFailed(e) => cat2("Warning: Caddy setup failed: ", e.as_str()),
        }
    }
}

impl ComposeFailure {
    /// The message that the run ends with.
    pub fn message(&self) -> (r: String)
        ensures
            match self {
                ComposeFailure::Reported(e) => r@ == e@,
                ComposeFailure::NoService => r@ == "Docker Compose config must specify 'service'"@,
            },
    {
        match self {
            ComposeFailure::Reported(e) => e.clone(),
            ComposeFailure::NoService => owned("Docker Compose config must specify 'service'"),
        }
    }
}

/// The variables that Compose files may refer to.
pub fn compose_env(workspace_source: String, folder_name: String, workspace_target: String) -> (r: Vec<
    (String, String),
>)
    ensures
        crate::assoc::pair_texts(r@) == seq![
            ("localWorkspaceFolder"@, workspace_source@),
            ("localWorkspaceFolderBasename"@, folder_name@),
            ("containerWorkspaceFolder"@, workspace_target@),
        ],
{
    let ghost (a, b, c) = (workspace_source@, folder_name@, workspace_target@);
    let v: Vec<(String, String)> = vec![
        (owned("localWorkspaceFolder"), workspace_source),
        (owned("localWorkspaceFolderBasename"), folder_name),
        (owned("containerWorkspaceFolder"), workspace_target),
    ];
    assert(crate::assoc::pair_texts(v@) =~= seq![
        ("localWorkspaceFolder"@, a),
        ("localWorkspaceFolderBasename"@, b),
        ("containerWorkspaceFolder"@, c),
    ]);
    v
}

/// Where the workspace is in the container, before variables are expanded.
pub fn workspace_target(workspace_folder: &Option<String>, folder_name: &str) -> (r: String)
    ensures
        match *workspace_folder {
            Some(folder) => r@ == folder@,
            None => r@ == "/workspaces/"@ + folder_name@,
        },
{
    match workspace_folder {
        Some(folder) => folder.clone(),
        None => cat2("/workspaces/", folder_name),
    }
}

/// A Compose file as it is used: rewritten where that worked.
pub open spec fn used_file(path: String, rewritten: Option<String>) -> Seq<char> {
    match rewritten {
        Some(p) => p@,
        None => path@,
    }
}

/// The files the services are brought up with: each Compose file, rewritten
/// where that worked, and then the override file.
pub fn up_files(files: &Vec<String>, rewritten: &Vec<Option<String>>, override_path: &str) -> (r: Vec<String>)
    requires
        files@.len() == rewritten@.len(),
    ensures
        texts(r@) == Seq::new(files@.len(), |i: int| used_file(files@[i], rewritten@[i])).push(
            override_path@,
        ),
{
    let ghost all = Seq::new(files@.len(), |i: int| used_file(files@[i], rewritten@[i]));
    let mut out: Vec<String> = Vec::new();
    let mut i: usize = 0;
    assert(texts(out@) == all.take(0));
    while i < files.len()
        invariant
            files@.len() == rewritten@.len(),
            all == Seq::new(files@.len(), |i: int| used_file(files@[i], rewritten@[i])),
            i <= files@.len(),
            texts(out@) == all.take(i as int),
        decreases files@.len() - i,
    {
        let ghost before = texts(out@);
        let file = match &rewritten[i] {
            Some(p) => p.clone(),
            None => files[i].clone(),
        };
        out.push(file);
        i = i + 1;
        proof {
            assert(texts(out@) == before.push(file@));
            assert(all.take(i as int) == before.push(all[i - 1]));
        }
    }
    let ghost before = texts(out@);
    out.push(owned(override_path));
    proof {
        assert(all.take(all.len() as int) == all);
        assert(texts(out@) == before.push(override_path@));
    }
    out
}

} // verus!
