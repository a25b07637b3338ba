//! What holds of every run for a Compose project, in terms of what was asked for and
//! what came of it.
use vstd::prelude::*;

use crate::up::compose::{
    after, fits, following, in_turn, in_turn_before, step_of, ComposeAction, ComposeEvent, ComposeFailure, ComposeHooks,
    ComposeNotice, ComposeRequest, ComposeStage,
};

verus! {

/// After the first `i` events this was to be done, and this came of it.
pub open spec fn answered_at(
    req: ComposeRequest,
    events: Seq<ComposeEvent>,
    i: int,
    action: ComposeAction,
    event: ComposeEvent,
) -> bool {
    &&& 1 <= i < events.len()
    &&& step_of(req, events.take(i)).action == action
    &&& events[i] == event
}

/// This was to be done, and this came of it.
#[verifier::opaque]
pub open spec fn answered(
    req: ComposeRequest,
    events: Seq<ComposeEvent>,
    action: ComposeAction,
    event: ComposeEvent,
) -> bool {
    exists|i: int| #[trigger] answered_at(req, events, i, action, event)
}

proof fn still_answered(req: ComposeRequest, events: Seq<ComposeEvent>)
    requires
        events.len() > 0,
    ensures
        forall|a: ComposeAction, e: ComposeEvent| #[trigger]
            answered(req, events.drop_last(), a, e) ==> answered(req, events, a, e),
        forall|a: ComposeAction, e: ComposeEvent| #[trigger]
            answered(req, events, a, e) ==> answered(req, events.drop_last(), a, e) || events.len() > 1 && step_of(
                req,
                events.drop_last(),
            ).action == a && events.last() == e,
        events.len() > 1 ==> answered(req, events, step_of(req, events.drop_last()).action, events.last()),
{
    reveal(answered);
    let rest = events.drop_last();
    let n = events.len() - 1;
    assert(events.take(n) == rest);
    assert(events[n] == events.last());
    assert forall|a: ComposeAction, e: ComposeEvent| #[trigger] answered(req, rest, a, e) implies answered(
        req,
        events,
        a,
        e,
    ) by {
        let i = choose|i: int| #[trigger] answered_at(req, rest, i, a, e);
        assert(rest.take(i) == events.take(i));
        assert(answered_at(req, events, i, a, e));
    }
    assert forall|a: ComposeAction, e: ComposeEvent| #[trigger] answered(req, events, a, e) implies answered(
        req,
        rest,
        a,
        e,
    ) || events.len() > 1 && step_of(req, rest).action == a && events.last() == e by {
        let i = choose|i: int| #[trigger] answered_at(req, events, i, a, e);
        if i < n {
            assert(rest.take(i) == events.take(i));
            assert(answered_at(req, rest, i, a, e));
        }
    }
    if events.len() > 1 {
        assert(answered_at(req, events, n, step_of(req, rest).action, events.last()));
    }
}

// ---------------------------------------------------------------------------
// The image
// ---------------------------------------------------------------------------

/// The image is the service's with the project's features on top, where it has any, and
/// else the service's own.
pub open spec fn has_the_features(
    req: ComposeRequest,
    events: Seq<ComposeEvent>,
    base: String,
    featured: String,
) -> bool {
    ||| answered(req, events, ComposeAction::ResolveFeatures, ComposeEvent::Found(false)) && featured == base
    ||| answered(req, events, ComposeAction::ResolveFeatures, ComposeEvent::Found(true)) && answered(
        req,
        events,
        ComposeAction::BuildFeatures(base),
        ComposeEvent::Image(featured),
    )
}

spec fn past_image(stage: ComposeStage) -> bool {
    !(stage is Start || stage is Initialize || stage is Build || stage is ServiceImage)
}

spec fn image_record(
    req: ComposeRequest,
    events: Seq<ComposeEvent>,
    base: String,
    stage: ComposeStage,
    action: ComposeAction,
) -> bool {
    match stage {
        ComposeStage::Features { base: b } => b == base && action is ResolveFeatures,
        ComposeStage::FeatureBuild { base: b } => b == base && action == ComposeAction::BuildFeatures(base) && answered(
            req,
            events,
            ComposeAction::ResolveFeatures,
            ComposeEvent::Found(true),
        ),
        ComposeStage::User { base: b, featured } => b == base && action == ComposeAction::ResolveUser(featured)
            && has_the_features(req, events, base, featured),
        ComposeStage::Remap { base: b, user } => b == base && action is RemapUser && action
            == ComposeAction::RemapUser(action->RemapUser_0, user) && has_the_features(
            req,
            events,
            base,
            action->RemapUser_0,
        ) && answered(
            req,
            events,
            ComposeAction::ResolveUser(action->RemapUser_0),
            ComposeEvent::User(user),
        ),
        _ => true,
    }
}

proof fn image_step(req: ComposeRequest, stage: ComposeStage, event: ComposeEvent)
    requires
        fits(stage, event),
    ensures
        ({
            let (next, step) = following(req, stage, event);
            &&& past_image(stage) ==> past_image(next)
            &&& past_image(next) ==> past_image(stage) || stage is ServiceImage || next is Ended
            &&& next is ServiceImage ==> step.action is FindServiceImage
            &&& step.action is FindServiceImage ==> next is ServiceImage
            &&& match next {
                ComposeStage::Features { base } => stage is ServiceImage && event == ComposeEvent::Image(base)
                    && step.action is ResolveFeatures,
                ComposeStage::FeatureBuild { base } => stage == (ComposeStage::Features { base }) && event
                    == ComposeEvent::Found(true) && step.action == ComposeAction::BuildFeatures(base),
                ComposeStage::User { base, featured } => step.action == ComposeAction::ResolveUser(featured) && (stage
                    == (ComposeStage::Features { base }) && event == ComposeEvent::Found(false) && featured == base
                    || stage == (ComposeStage::FeatureBuild { base }) && event == ComposeEvent::Image(featured)),
                ComposeStage::Remap { base, user } => stage is User && stage->User_base == base && event
                    == ComposeEvent::User(user) && step.action == ComposeAction::RemapUser(stage->User_featured, user),
                _ => true,
            }
            &&& step.action is WriteOverride ==> stage is Remap && event is Image && step.action
                == ComposeAction::WriteOverride(
                if event->Image_0@ == stage->Remap_base@ {
                    None
                } else {
                    Some(event->Image_0)
                },
                stage->Remap_user,
            )
            &&& stage is Remap && event is Image ==> step.action is WriteOverride
            &&& step.action is RemapUser ==> next is Remap
        }),
{
    reveal(following);
}

proof fn image_comes_once(req: ComposeRequest, events: Seq<ComposeEvent>)
    requires
        in_turn(req, events),
    ensures
        !past_image(after(req, events)) ==> forall|base: String|
            !#[trigger] answered(req, events, ComposeAction::FindServiceImage, ComposeEvent::Image(base)),
        step_of(req, events).action is FindServiceImage && events.len() > 0 ==> after(req, events) is ServiceImage,
        after(req, events) is ServiceImage ==> step_of(req, events).action is FindServiceImage,
    decreases events.len(),
{
    if events.len() == 0 {
        reveal(answered);
    } else {
        let rest = events.drop_last();
        in_turn_before(req, events);
        image_comes_once(req, rest);
        image_step(req, after(req, rest), events.last());
        still_answered(req, events);
        if !past_image(after(req, events)) {
            assert forall|base: String|
                !#[trigger] answered(
                    req,
                    events,
                    ComposeAction::FindServiceImage,
                    ComposeEvent::Image(base),
                ) by {
                if step_of(req, rest).action is FindServiceImage && events.last() == ComposeEvent::Image(base)
                    && rest.len() > 0 {
                    service_image_step(req, after(req, rest), base);
                }
            }
        }
    }
}

proof fn service_image_step(req: ComposeRequest, stage: ComposeStage, base: String)
    requires
        stage is ServiceImage,
    ensures
        following(req, stage, ComposeEvent::Image(base)).0 == (ComposeStage::Features { base }),
        following(req, stage, ComposeEvent::Image(base)).1.action is ResolveFeatures,
{
    reveal(following);
}

proof fn image_invariant(req: ComposeRequest, events: Seq<ComposeEvent>, base: String)
    requires
        in_turn(req, events),
        answered(req, events, ComposeAction::FindServiceImage, ComposeEvent::Image(base)),
    ensures
        past_image(after(req, events)),
        image_record(req, events, base, after(req, events), step_of(req, events).action),
    decreases events.len(),
{
    if events.len() == 0 {
        reveal(answered);
    } else {
        let rest = events.drop_last();
        in_turn_before(req, events);
        image_step(req, after(req, rest), events.last());
        still_answered(req, events);
        if answered(req, rest, ComposeAction::FindServiceImage, ComposeEvent::Image(base)) {
            image_invariant(req, rest, base);
            if rest.len() > 0 {
                assert(answered(req, events, step_of(req, rest).action, events.last()));
            }
        } else {
            image_comes_once(req, rest);
            service_image_step(req, after(req, rest), base);
        }
    }
}

/// The override carries an image exactly where the image that matching the user's ids
/// came to is another than the service's own, and then it carries that image; the ids
/// are matched in the image that has the project's features, for the user that was found
/// for that image; and the override is for that user.
pub proof fn the_override_carries_the_image_that_differs(req: ComposeRequest, events: Seq<ComposeEvent>, base: String)
    requires
        in_turn(req, events),
        events.len() > 1,
        answered(req, events, ComposeAction::FindServiceImage, ComposeEvent::Image(base)),
    ensures
        match (step_of(req, events.drop_last()).action, events.last()) {
            (ComposeAction::RemapUser(featured, user), ComposeEvent::Image(image)) => {
                &&& has_the_features(req, events, base, featured)
                &&& answered(req, events, ComposeAction::ResolveUser(featured), ComposeEvent::User(user))
                &&& image@ == base@ ==> step_of(req, events).action == ComposeAction::WriteOverride(None, user)
                &&& image@ != base@ ==> step_of(req, events).action == ComposeAction::WriteOverride(Some(image), user)
            },
            _ => !(step_of(req, events).action is WriteOverride),
        },
{
    let rest = events.drop_last();
    in_turn_before(req, events);
    in_turn_before(req, rest);
    still_answered(req, events);
    image_step(req, after(req, rest), events.last());
    image_step(req, after(req, rest.drop_last()), rest.last());
    if answered(req, rest, ComposeAction::FindServiceImage, ComposeEvent::Image(base)) {
        image_invariant(req, rest, base);
    } else {
        image_comes_once(req, rest);
    }
}

/// Features are built on top of the service's own image and of no other.
pub proof fn features_are_built_on_the_services_image(req: ComposeRequest, events: Seq<ComposeEvent>, base: String)
    requires
        in_turn(req, events),
        answered(req, events, ComposeAction::FindServiceImage, ComposeEvent::Image(base)),
    ensures
        step_of(req, events).action matches ComposeAction::BuildFeatures(on) ==> on == base && answered(
            req,
            events,
            ComposeAction::ResolveFeatures,
            ComposeEvent::Found(true),
        ),
        step_of(req, events).action matches ComposeAction::ResolveUser(image) ==> has_the_features(
            req,
            events,
            base,
            image,
        ),
{
    image_invariant(req, events, base);
    if events.len() > 0 {
        in_turn_before(req, events);
        image_actions(req, after(req, events.drop_last()), events.last());
    } else {
        reveal(answered);
    }
}

proof fn image_actions(req: ComposeRequest, stage: ComposeStage, event: ComposeEvent)
    requires
        fits(stage, event),
    ensures
        ({
            let (next, step) = following(req, stage, event);
            &&& step.action is BuildFeatures ==> next is FeatureBuild
            &&& step.action is ResolveUser ==> next is User
        }),
{
    reveal(following);
}

// ---------------------------------------------------------------------------
// The hooks
// ---------------------------------------------------------------------------

/// What was found of the service before it was brought up calls for these hooks: the
/// create-time ones for a container that is rebuilt or was not there, the start-time
/// ones for one that was there but not running, and none for one that was running.
pub open spec fn called_for(req: ComposeRequest, events: Seq<ComposeEvent>, hooks: ComposeHooks) -> bool {
    match hooks {
        ComposeHooks::Create => req.rebuild || answered(
            req,
            events,
            ComposeAction::FindRunning,
            ComposeEvent::Found(false),
        ) && answered(req, events, ComposeAction::FindExisting, ComposeEvent::Found(false)),
        ComposeHooks::Start => !req.rebuild && answered(
            req,
            events,
            ComposeAction::FindRunning,
            ComposeEvent::Found(false),
        ) && answered(req, events, ComposeAction::FindExisting, ComposeEvent::Found(true)),
        ComposeHooks::Nothing => !req.rebuild && answered(
            req,
            events,
            ComposeAction::FindRunning,
            ComposeEvent::Found(true),
        ),
    }
}

/// The override was written for this user.
#[verifier::opaque]
pub open spec fn overridden(req: ComposeRequest, events: Seq<ComposeEvent>, user: Option<String>) -> bool {
    exists|image: Option<String>| #[trigger]
        answered(req, events, ComposeAction::WriteOverride(image, user), ComposeEvent::Done)
}

/// The services were brought up with an override for this user, and this is the
/// service's container.
pub open spec fn brought_up(
    req: ComposeRequest,
    events: Seq<ComposeEvent>,
    id: String,
    user: Option<String>,
) -> bool {
    &&& overridden(req, events, user)
    &&& answered(req, events, ComposeAction::ComposeUp, ComposeEvent::Done)
    &&& answered(req, events, ComposeAction::FindContainer, ComposeEvent::Container(id))
}

/// The container passed the readiness checks, and was given the hooks called for.
#[verifier::opaque]
pub open spec fn given_its_hooks(
    req: ComposeRequest,
    events: Seq<ComposeEvent>,
    id: String,
    user: Option<String>,
) -> bool {
    &&& brought_up(req, events, id, user)
    &&& answered(req, events, ComposeAction::VerifyService(id, user), ComposeEvent::Done)
    &&& {
        ||| called_for(req, events, ComposeHooks::Create) && answered(
            req,
            events,
            ComposeAction::RunCreateHooks(id, user),
            ComposeEvent::Done,
        )
        ||| called_for(req, events, ComposeHooks::Start) && answered(
            req,
            events,
            ComposeAction::RunStartHooks(id, user),
            ComposeEvent::Done,
        )
        ||| called_for(req, events, ComposeHooks::Nothing)
    }
}

/// The container was given its hooks, and its dotfiles were installed, where there are
/// any.
#[verifier::opaque]
pub open spec fn set_up(req: ComposeRequest, events: Seq<ComposeEvent>, id: String) -> bool {
    exists|user: Option<String>| #[trigger]
        given_its_hooks(req, events, id, user) && (req.config.dotfiles is Some ==> answered(
            req,
            events,
            ComposeAction::InstallDotfiles(id, user),
            ComposeEvent::Done,
        ))
}

/// The host's own command was run, where there is one.
pub open spec fn initialized(req: ComposeRequest, events: Seq<ComposeEvent>) -> bool {
    req.config.initialize_command is Some ==> answered(
        req,
        events,
        ComposeAction::RunInitializeCommand,
        ComposeEvent::Done,
    )
}

spec fn hooks_record(
    req: ComposeRequest,
    events: Seq<ComposeEvent>,
    stage: ComposeStage,
    action: ComposeAction,
) -> bool {
    match stage {
        ComposeStage::Initialize => req.config.initialize_command is Some && action is RunInitializeCommand,
        ComposeStage::Build => initialized(req, events) && action is BuildService,
        ComposeStage::ServiceImage => initialized(req, events) && action is FindServiceImage && answered(
            req,
            events,
            ComposeAction::BuildService,
            ComposeEvent::Done,
        ),
        ComposeStage::Override { user } => action is WriteOverride && action == ComposeAction::WriteOverride(
            action->WriteOverride_0,
            user,
        ),
        ComposeStage::Running { user } => overridden(req, events, user) && action is FindRunning,
        ComposeStage::Existing { user } => overridden(req, events, user) && action is FindExisting && answered(
            req,
            events,
            ComposeAction::FindRunning,
            ComposeEvent::Found(false),
        ),
        ComposeStage::Up { hooks, user } => overridden(req, events, user) && action is ComposeUp && called_for(
            req,
            events,
            hooks,
        ),
        ComposeStage::Container { hooks, user } => overridden(req, events, user) && action is FindContainer
            && called_for(req, events, hooks) && answered(
            req,
            events,
            ComposeAction::ComposeUp,
            ComposeEvent::Done,
        ),
        ComposeStage::Verify { hooks, id, user } => brought_up(req, events, id, user) && called_for(
            req,
            events,
            hooks,
        ) && action == ComposeAction::VerifyService(id, user),
        ComposeStage::Hooks { id, user } => brought_up(req, events, id, user) && answered(
            req,
            events,
            ComposeAction::VerifyService(id, user),
            ComposeEvent::Done,
        ) && (action == ComposeAction::RunCreateHooks(id, user) && called_for(req, events, ComposeHooks::Create)
            || action == ComposeAction::RunStartHooks(id, user) && called_for(req, events, ComposeHooks::Start)),
        ComposeStage::Dotfiles { id } => req.config.dotfiles is Some && action is InstallDotfiles && action
            == ComposeAction::InstallDotfiles(id, action->InstallDotfiles_1) && given_its_hooks(
            req,
            events,
            id,
            action->InstallDotfiles_1,
        ),
        ComposeStage::CleanUp { id } => set_up(req, events, id) && action is CleanUp,
        _ => true,
    }
}

proof fn hooks_step(req: ComposeRequest, stage: ComposeStage, event: ComposeEvent)
    requires
        fits(stage, event),
    ensures
        ({
            let (next, step) = following(req, stage, event);
            &&& match next {
                ComposeStage::Start => false,
                ComposeStage::Initialize => stage is Start && req.config.initialize_command is Some
                    && step.action is RunInitializeCommand,
                ComposeStage::Build => step.action is BuildService && (stage is Start
                    && req.config.initialize_command is None || stage is Initialize && event is Done),
                ComposeStage::ServiceImage => stage is Build && event is Done && step.action is FindServiceImage,
                ComposeStage::Override { user } => step.action is WriteOverride && step.action
                    == ComposeAction::WriteOverride(step.action->WriteOverride_0, user),
                ComposeStage::Running { user } => stage == (ComposeStage::Override { user }) && event is Done
                    && step.action is FindRunning,
                ComposeStage::Existing { user } => stage == (ComposeStage::Running { user }) && event
                    == ComposeEvent::Found(false) && step.action is FindExisting,
                ComposeStage::Up { hooks, user } => step.action is ComposeUp && (stage == (ComposeStage::Running {
                    user,
                }) && event == ComposeEvent::Found(true) && hooks == (if req.rebuild {
                    ComposeHooks::Create
                } else {
                    ComposeHooks::Nothing
                }) || stage == (ComposeStage::Existing { user }) && event is Found && hooks == (if req.rebuild
                    || event == ComposeEvent::Found(false) {
                    ComposeHooks::Create
                } else {
                    ComposeHooks::Start
                })),
                ComposeStage::Container { hooks, user } => stage == (ComposeStage::Up { hooks, user }) && event is Done
                    && step.action is FindContainer,
                ComposeStage::Verify { hooks, id, user } => stage == (ComposeStage::Container { hooks, user }) && event
                    == ComposeEvent::Container(id) && step.action == ComposeAction::VerifyService(id, user),
                ComposeStage::Hooks { id, user } => event is Done && (stage == (ComposeStage::Verify {
                    hooks: ComposeHooks::Create,
                    id,
                    user,
                }) && step.action == ComposeAction::RunCreateHooks(id, user) || stage == (ComposeStage::Verify {
                    hooks: ComposeHooks::Start,
                    id,
                    user,
                }) && step.action == ComposeAction::RunStartHooks(id, user)),
                ComposeStage::Dotfiles { id } => event is Done && req.config.dotfiles is Some
                    && step.action is InstallDotfiles && step.action == ComposeAction::InstallDotfiles(
                    id,
                    step.action->InstallDotfiles_1,
                ) && hooks_over(stage, id, step.action->InstallDotfiles_1),
                ComposeStage::CleanUp { id } => event is Done && step.action is CleanUp && (stage
                    == (ComposeStage::Dotfiles { id }) || req.config.dotfiles is None && (stage is Hooks && hooks_over(
                    stage,
                    id,
                    stage->Hooks_user,
                ) || stage is Verify && hooks_over(stage, id, stage->Verify_user))),
                _ => true,
            }
            &&& step.notice matches Some(ComposeNotice::Ready(service, id)) ==> {
                &&& req.config.service is Some ==> req.config.service == Some(service)
                &&& stage == (ComposeStage::CleanUp { id })
                &&& event is Done
                &&& step.action == if req.config.forward_ports is Some && req.config.forward_ports->Some_0@.len()
                    > 0 {
                    ComposeAction::RegisterSites
                } else {
                    ComposeAction::Finish
                }
            }
            &&& stage is CleanUp ==> step.notice is Some && step.notice->Some_0 is Ready
            &&& step.action is RegisterSites ==> stage is CleanUp
            &&& step.action is BuildService ==> next is Build
            &&& step.action is ComposeUp ==> next is Up
            &&& step.action is RunCreateHooks ==> next is Hooks
            &&& step.action is RunStartHooks ==> next is Hooks
            &&& step.action is InstallDotfiles ==> next is Dotfiles
            &&& step.action is FindServiceImage ==> next is ServiceImage
        }),
{
    reveal(following);
}

/// The stage is the last of the hooks of this container.
spec fn hooks_over(stage: ComposeStage, id: String, user: Option<String>) -> bool {
    stage == (ComposeStage::Hooks { id, user }) || stage == (ComposeStage::Verify {
        hooks: ComposeHooks::Nothing,
        id,
        user,
    })
}

proof fn still_called_for(req: ComposeRequest, events: Seq<ComposeEvent>)
    requires
        events.len() > 0,
    ensures
        forall|hooks: ComposeHooks| #[trigger]
            called_for(req, events.drop_last(), hooks) ==> called_for(req, events, hooks),
        forall|user: Option<String>| #[trigger]
            overridden(req, events.drop_last(), user) ==> overridden(req, events, user),
        forall|id: String, user: Option<String>| #[trigger]
            brought_up(req, events.drop_last(), id, user) ==> brought_up(req, events, id, user),
        forall|id: String, user: Option<String>| #[trigger]
            given_its_hooks(req, events.drop_last(), id, user) ==> given_its_hooks(req, events, id, user),
        forall|id: String| #[trigger] set_up(req, events.drop_last(), id) ==> set_up(req, events, id),
        initialized(req, events.drop_last()) ==> initialized(req, events),
{
    still_answered(req, events);
    let rest = events.drop_last();
    assert forall|hooks: ComposeHooks| #[trigger] called_for(req, rest, hooks) implies called_for(
        req,
        events,
        hooks,
    ) by {}
    assert forall|user: Option<String>| #[trigger] overridden(req, rest, user) implies overridden(req, events, user) by {
        reveal(overridden);
        let image = choose|image: Option<String>| #[trigger]
            answered(req, rest, ComposeAction::WriteOverride(image, user), ComposeEvent::Done);
        assert(answered(req, events, ComposeAction::WriteOverride(image, user), ComposeEvent::Done));
    }
    assert forall|id: String, user: Option<String>| #[trigger] given_its_hooks(
        req,
        rest,
        id,
        user,
    ) implies given_its_hooks(req, events, id, user) by {
        reveal(given_its_hooks);
        assert(brought_up(req, events, id, user));
        assert(called_for(req, rest, ComposeHooks::Create) ==> called_for(req, events, ComposeHooks::Create));
        assert(called_for(req, rest, ComposeHooks::Start) ==> called_for(req, events, ComposeHooks::Start));
        assert(called_for(req, rest, ComposeHooks::Nothing) ==> called_for(req, events, ComposeHooks::Nothing));
    }
    assert forall|id: String| #[trigger] set_up(req, rest, id) implies set_up(req, events, id) by {
        reveal(set_up);
        let user = choose|user: Option<String>| #[trigger]
            given_its_hooks(req, rest, id, user) && (req.config.dotfiles is Some ==> answered(
                req,
                rest,
                ComposeAction::InstallDotfiles(id, user),
                ComposeEvent::Done,
            ));
        assert(given_its_hooks(req, events, id, user));
    }
}

/// The last of the hooks leaves the container given them.
proof fn hooks_are_given(req: ComposeRequest, events: Seq<ComposeEvent>, id: String, user: Option<String>)
    requires
        events.len() > 1,
        hooks_record(req, events.drop_last(), after(req, events.drop_last()), step_of(req, events.drop_last()).action),
        hooks_over(after(req, events.drop_last()), id, user),
        events.last() is Done,
    ensures
        given_its_hooks(req, events, id, user),
{
    reveal(given_its_hooks);
    still_answered(req, events);
    still_called_for(req, events);
    let rest = events.drop_last();
    assert(brought_up(req, events, id, user));
    assert(called_for(req, rest, ComposeHooks::Create) ==> called_for(req, events, ComposeHooks::Create));
    assert(called_for(req, rest, ComposeHooks::Start) ==> called_for(req, events, ComposeHooks::Start));
    assert(called_for(req, rest, ComposeHooks::Nothing) ==> called_for(req, events, ComposeHooks::Nothing));
}

#[verifier::rlimit(60)]
proof fn hooks_invariant(req: ComposeRequest, events: Seq<ComposeEvent>)
    requires
        in_turn(req, events),
    ensures
        hooks_record(req, events, after(req, events), step_of(req, events).action),
        events.len() == 1 ==> after(req, events) is Initialize || after(req, events) is Build || after(
            req,
            events,
        ) is Ended,
    decreases events.len(),
{
    if events.len() > 0 {
        let rest = events.drop_last();
        let stage = after(req, rest);
        let event = events.last();
        in_turn_before(req, events);
        hooks_invariant(req, rest);
        hooks_step(req, stage, event);
        still_answered(req, events);
        still_called_for(req, events);
        if rest.len() == 0 {
            first_stage(req, event);
        } else {
            let action = step_of(req, rest).action;
            assert(answered(req, events, action, event));
            match after(req, events) {
                ComposeStage::Running { user } => {
                    assert(answered(
                        req,
                        events,
                        ComposeAction::WriteOverride(action->WriteOverride_0, user),
                        ComposeEvent::Done,
                    ));
                    reveal(overridden);
                },
                ComposeStage::Dotfiles { id } => {
                    hooks_are_given(req, events, id, step_of(req, events).action->InstallDotfiles_1);
                },
                ComposeStage::CleanUp { id } => {
                    let user = match stage {
                        ComposeStage::Hooks { user, .. } => user,
                        ComposeStage::Verify { user, .. } => user,
                        _ => action->InstallDotfiles_1,
                    };
                    if stage is Dotfiles {
                        assert(given_its_hooks(req, events, id, user));
                    } else {
                        hooks_are_given(req, events, id, user);
                    }
                    reveal(set_up);
                },
                _ => {},
            }
        }
    }
}

proof fn first_stage(req: ComposeRequest, event: ComposeEvent)
    requires
        event is Begin,
    ensures
        ({
            let (next, step) = following(req, ComposeStage::Start, event);
            &&& next is Initialize || next is Build || next is Ended
            &&& req.config.service is None ==> step.action == ComposeAction::Fail(ComposeFailure::NoService)
            &&& req.config.service is Some ==> step.action == if req.config.initialize_command is Some {
                ComposeAction::RunInitializeCommand
            } else {
                ComposeAction::BuildService
            }
        }),
{
    reveal(following);
}

/// A project that names no service is refused at once; any other begins with the host's
/// own command, where there is one, or with building the service.
pub proof fn how_it_begins(req: ComposeRequest)
    ensures
        ({
            let action = step_of(req, seq![ComposeEvent::Begin]).action;
            &&& req.config.service is None ==> action == ComposeAction::Fail(ComposeFailure::NoService)
            &&& req.config.service is Some ==> action == if req.config.initialize_command is Some {
                ComposeAction::RunInitializeCommand
            } else {
                ComposeAction::BuildService
            }
        }),
{
    let events = seq![ComposeEvent::Begin];
    assert(events.drop_last() =~= Seq::empty());
    assert(after(req, events.drop_last()) is Start);
    first_stage(req, ComposeEvent::Begin);
}

/// The service is said to be ready, under its own name, only once its container was
/// brought up, passed the readiness checks, was given the hooks that were called for
/// and its dotfiles, where there are any, and what was written was removed; sites are
/// registered next exactly where the project forwards ports.
pub proof fn what_is_ready_was_set_up(req: ComposeRequest, events: Seq<ComposeEvent>)
    requires
        in_turn(req, events),
        events.len() > 0,
    ensures
        step_of(req, events).notice matches Some(ComposeNotice::Ready(service, id)) ==> {
            &&& req.config.service == Some(service)
            &&& set_up(req, events, id)
            &&& answered(req, events, ComposeAction::CleanUp, ComposeEvent::Done)
            &&& step_of(req, events).action == if req.config.forward_ports is Some
                && req.config.forward_ports->Some_0@.len() > 0 {
                ComposeAction::RegisterSites
            } else {
                ComposeAction::Finish
            }
        },
{
    let rest = events.drop_last();
    in_turn_before(req, events);
    hooks_invariant(req, rest);
    hooks_step(req, after(req, rest), events.last());
    still_answered(req, events);
    still_called_for(req, events);
    if after(req, rest) is CleanUp {
        crate::up::compose::only_named_services_get_anywhere(req, rest);
    }
}

/// Hooks are run only where what was found of the service calls for them, in the
/// service's own container, after it was brought up and passed the readiness checks;
/// the services are brought up only with an override for the user; dotfiles are
/// installed only where there are some, after the hooks; and the service's image is
/// built after the host's own command.
pub proof fn hooks_are_run_where_they_are_called_for(req: ComposeRequest, events: Seq<ComposeEvent>)
    requires
        in_turn(req, events),
        events.len() > 0,
    ensures
        match step_of(req, events).action {
            ComposeAction::RunCreateHooks(id, user) => called_for(req, events, ComposeHooks::Create) && brought_up(
                req,
                events,
                id,
                user,
            ) && answered(req, events, ComposeAction::VerifyService(id, user), ComposeEvent::Done),
            ComposeAction::RunStartHooks(id, user) => called_for(req, events, ComposeHooks::Start) && brought_up(
                req,
                events,
                id,
                user,
            ) && answered(req, events, ComposeAction::VerifyService(id, user), ComposeEvent::Done),
            ComposeAction::InstallDotfiles(id, user) => req.config.dotfiles is Some && given_its_hooks(
                req,
                events,
                id,
                user,
            ),
            ComposeAction::ComposeUp => exists|user: Option<String>| #[trigger] overridden(req, events, user),
            ComposeAction::BuildService => initialized(req, events),
            ComposeAction::FindServiceImage => answered(
                req,
                events,
                ComposeAction::BuildService,
                ComposeEvent::Done,
            ),
            _ => true,
        },
{
    let rest = events.drop_last();
    in_turn_before(req, events);
    hooks_invariant(req, events);
    hooks_step(req, after(req, rest), events.last());
    if let ComposeStage::Up { user, .. } = after(req, events) {
        assert(overridden(req, events, user));
    }
}

/// Whatever fails ends the run with what was reported, except for sites that could not
/// be registered: those are warned about.
pub proof fn failures_end_the_run(req: ComposeRequest, events: Seq<ComposeEvent>, e: String)
    requires
        in_turn(req, events),
        events.len() > 1,
        events.last() == ComposeEvent::Failed(e),
    ensures
        if step_of(req, events.drop_last()).action is RegisterSites {
            step_of(req, events).action is Finish && step_of(req, events).notice == Some(
                ComposeNotice::SitesFailed(e),
            )
        } else {
            step_of(req, events).action == ComposeAction::Fail(ComposeFailure::Reported(e)) && step_of(
                req,
                events,
            ).notice is None
        },
        after(req, events) is Ended,
{
    let rest = events.drop_last();
    in_turn_before(req, events);
    in_turn_before(req, rest);
    sites_stage(req, after(req, rest.drop_last()), rest.last());
    reveal(following);
}

proof fn sites_stage(req: ComposeRequest, stage: ComposeStage, event: ComposeEvent)
    requires
        fits(stage, event),
    ensures
        following(req, stage, event).1.action is RegisterSites <==> following(req, stage, event).0 is Sites,
{
    reveal(following);
}

/// Writing one text behind another is writing the bytes of the one behind the other's.
proof fn bytes_behind_bytes(a: Seq<char>, b: Seq<char>)
    ensures
        vstd::utf8::encode_utf8(a + b) == vstd::utf8::encode_utf8(a) + vstd::utf8::encode_utf8(b),
    decreases a.len(),
{
    if a.len() == 0 {
        assert(a + b == b);
        assert(vstd::utf8::encode_utf8(a) == Seq::<u8>::empty());
    } else {
        bytes_behind_bytes(a.drop_first(), b);
        assert((a + b).drop_first() == a.drop_first() + b);
        assert((a + b)[0] == a[0]);
    }
}

/// An id of fewer than twelve bytes is given whole; of a longer one, the text that its
/// first twelve bytes write.
pub proof fn ids_are_cut_at_twelve_bytes(id: Seq<char>, behind: Seq<char>)
    ensures
        vstd::utf8::encode_utf8(id).len() < 12 ==> crate::up::compose::shortened(id) == id,
        vstd::utf8::encode_utf8(id).len() == 12 ==> crate::up::compose::shortened(id + behind) == id,
{
    bytes_behind_bytes(id, behind);
    let bytes = vstd::utf8::encode_utf8(id);
    vstd::utf8::encode_utf8_decode_utf8(id);
    if bytes.len() < 12 {
        assert(bytes.take(bytes.len() as int) == bytes);
    } else if bytes.len() == 12 {
        assert((bytes + vstd::utf8::encode_utf8(behind)).take(12) == bytes);
    }
}

/// A file that was rewritten stands in for the one that was named.
pub proof fn rewritten_files_stand_in(path: String, rewritten: String)
    ensures
        crate::up::compose::used_file(path, Some(rewritten)) == rewritten@,
        crate::up::compose::used_file(path, None) == path@,
{
}

} // verus!
