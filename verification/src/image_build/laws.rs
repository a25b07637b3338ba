//! What holds of every run of `dev build`, in terms of what was asked for and what came
//! of it.
use vstd::prelude::*;

use crate::image_build::{
    after, fits, following, in_turn, in_turn_before, source_of, step_of, BuildAction, BuildEvent, BuildNotice,
    BuildPhase, BuildRequest, BuildStage, ImageSource,
};
use crate::model::DevcontainerConfig;

verus! {

/// After the first `i` events this was to be done, and this came of it.
pub open spec fn answered_at(
    req: BuildRequest,
    events: Seq<BuildEvent>,
    i: int,
    action: BuildAction,
    event: BuildEvent,
) -> bool {
    &&& 1 <= i < events.len()
    &&& step_of(req, events.take(i)).action == action
    &&& events[i] == event
}

/// This was to be done, and this came of it.
#[verifier::opaque]
pub open spec fn answered(req: BuildRequest, events: Seq<BuildEvent>, action: BuildAction, event: BuildEvent) -> bool {
    exists|i: int| #[trigger] answered_at(req, events, i, action, event)
}

proof fn still_answered(req: BuildRequest, events: Seq<BuildEvent>)
    requires
        events.len() > 0,
    ensures
        forall|a: BuildAction, e: BuildEvent| #[trigger]
            answered(req, events.drop_last(), a, e) ==> answered(req, events, a, e),
        events.len() > 1 ==> answered(req, events, step_of(req, events.drop_last()).action, events.last()),
{
    reveal(answered);
    let rest = events.drop_last();
    let n = events.len() - 1;
    assert(events.take(n) == rest);
    assert(events[n] == events.last());
    assert forall|a: BuildAction, e: BuildEvent| #[trigger] answered(req, rest, a, e) implies answered(
        req,
        events,
        a,
        e,
    ) by {
        let i = choose|i: int| #[trigger] answered_at(req, rest, i, a, e);
        assert(rest.take(i) == events.take(i));
        assert(answered_at(req, events, i, a, e));
    }
    if events.len() > 1 {
        assert(answered_at(req, events, n, step_of(req, rest).action, events.last()));
    }
}

/// A project's image comes from the image it names; without one, from its Dockerfile;
/// without either, from its Compose service.
pub proof fn where_the_image_comes_from(config: DevcontainerConfig)
    ensures
        config.image is Some ==> source_of(config) == ImageSource::Image(config.image->Some_0),
        config.image is None && config.build is Some ==> source_of(config) is Dockerfile,
        config.image is None && config.build is None && config.docker_compose_file is Some ==> source_of(config)
            == ImageSource::Compose(config.service),
        config.image is None && config.build is None && config.docker_compose_file is None ==> source_of(
            config,
        ) is Unstated,
{
}

/// The tag of what is built: the one that was asked for; else, with features, the
/// features' own; else the workspace's.
pub open spec fn built_tag(req: BuildRequest) -> String {
    match req.tag {
        Some(tag) => tag,
        None => if req.features > 0 {
            req.feature_tag
        } else {
            req.folder_image
        },
    }
}

/// The image that features go on top of is there: the named one was pulled, the
/// Dockerfile was built under the workspace's own tag, or the service was built and asked
/// for its image.
pub open spec fn base_made(req: BuildRequest, events: Seq<BuildEvent>, base: String) -> bool {
    match req.source {
        ImageSource::Image(image) => base == image && answered(
            req,
            events,
            BuildAction::Pull(image),
            BuildEvent::Done,
        ),
        ImageSource::Dockerfile => base == req.folder_image && answered(
            req,
            events,
            BuildAction::BuildImage(req.folder_image),
            BuildEvent::Done,
        ),
        ImageSource::Compose(Some(service)) => answered(
            req,
            events,
            BuildAction::BuildServices(service),
            BuildEvent::Done,
        ) && answered(req, events, BuildAction::ServiceImage(service), BuildEvent::Named(base)),
        _ => false,
    }
}

/// The features were fetched, held to the lockfile and laid out.
pub open spec fn laid_out(req: BuildRequest, events: Seq<BuildEvent>) -> bool {
    &&& answered(req, events, BuildAction::Download, BuildEvent::Done)
    &&& answered(req, events, BuildAction::Lock, BuildEvent::Done)
    &&& answered(req, events, BuildAction::Stage, BuildEvent::Done)
}

/// The features were built on top of their base, under the tag of what is built, for the
/// user that was found for the base; and what had been laid out was removed.
#[verifier::opaque]
pub open spec fn features_built(
    req: BuildRequest,
    events: Seq<BuildEvent>,
    user: Option<String>,
    remap: bool,
) -> bool {
    exists|base: String|
        {
            &&& #[trigger] base_made(req, events, base)
            &&& answered(req, events, BuildAction::ResolveUser(base), BuildEvent::User { user, remap })
            &&& answered(
                req,
                events,
                BuildAction::BuildFeatures { base, tag: built_tag(req), user },
                BuildEvent::Done,
            )
        }
}

/// The build of the features failed with this message.
#[verifier::opaque]
pub open spec fn features_failed(req: BuildRequest, events: Seq<BuildEvent>, e: String) -> bool {
    exists|base: String, user: Option<String>| #[trigger]
        answered(
            req,
            events,
            BuildAction::BuildFeatures { base, tag: built_tag(req), user },
            BuildEvent::Failed(e),
        )
}

/// The image was built under its tag, and this is what was found of its user.
#[verifier::opaque]
pub open spec fn image_made(req: BuildRequest, events: Seq<BuildEvent>, user: Option<String>, remap: bool) -> bool {
    if req.features > 0 {
        features_built(req, events, user, remap) && answered(
            req,
            events,
            BuildAction::RemoveStaging,
            BuildEvent::Done,
        )
    } else {
        &&& req.source is Dockerfile
        &&& answered(req, events, BuildAction::BuildImage(built_tag(req)), BuildEvent::Done)
        &&& answered(req, events, BuildAction::ResolveUser(built_tag(req)), BuildEvent::User { user, remap })
    }
}

/// The image was built under its tag, its user is to keep their id, and nothing is left
/// to be done.
#[verifier::opaque]
pub open spec fn made_as_it_is(req: BuildRequest, events: Seq<BuildEvent>) -> bool {
    exists|user: Option<String>| #[trigger] image_made(req, events, user, false)
}

/// The image was built under its tag, and this image came of changing its user's id.
#[verifier::opaque]
pub open spec fn made_for_the_host(req: BuildRequest, events: Seq<BuildEvent>, tag: String) -> bool {
    exists|user: Option<String>, image_user: Option<String>|
        {
            &&& image_made(req, events, user, true)
            &&& answered(
                req,
                events,
                BuildAction::InspectUser(built_tag(req)),
                BuildEvent::ImageUser(image_user),
            )
            &&& #[trigger] answered(
                req,
                events,
                BuildAction::BuildUid { tag: built_tag(req), user, image_user },
                BuildEvent::Named(tag),
            )
        }
}

spec fn build_record(req: BuildRequest, events: Seq<BuildEvent>, stage: BuildStage, action: BuildAction) -> bool {
    match stage {
        BuildStage::Pull { image } => req.source == ImageSource::Image(image) && action == BuildAction::Pull(image),
        BuildStage::ReadDockerfile => req.source is Dockerfile && action is ReadDockerfile,
        BuildStage::BuildImage => req.source is Dockerfile && action == BuildAction::BuildImage(
            if req.features > 0 {
                req.folder_image
            } else {
                built_tag(req)
            },
        ) && answered(req, events, BuildAction::ReadDockerfile, BuildEvent::Done),
        BuildStage::BuildServices { service } => req.source == ImageSource::Compose(Some(service)) && action
            == BuildAction::BuildServices(service),
        BuildStage::ServiceImage => req.features > 0 && req.source is Compose && action is ServiceImage && req.source
            == ImageSource::Compose(Some(action->ServiceImage_0)) && answered(
            req,
            events,
            BuildAction::BuildServices(action->ServiceImage_0),
            BuildEvent::Done,
        ),
        BuildStage::Download { base } => req.features > 0 && base_made(req, events, base) && action is Download,
        BuildStage::Lock { base } => req.features > 0 && base_made(req, events, base) && action is Lock && answered(
            req,
            events,
            BuildAction::Download,
            BuildEvent::Done,
        ),
        BuildStage::Stage { base } => req.features > 0 && base_made(req, events, base) && action is Stage && answered(
            req,
            events,
            BuildAction::Download,
            BuildEvent::Done,
        ) && answered(req, events, BuildAction::Lock, BuildEvent::Done),
        BuildStage::FeatureUser { base } => req.features > 0 && base_made(req, events, base) && laid_out(req, events)
            && action == BuildAction::ResolveUser(base),
        BuildStage::BuildFeatures { user, remap } => req.features > 0 && laid_out(req, events)
            && action is BuildFeatures && action == (BuildAction::BuildFeatures {
            base: action->base,
            tag: built_tag(req),
            user,
        }) && base_made(req, events, action->base) && answered(
            req,
            events,
            BuildAction::ResolveUser(action->base),
            BuildEvent::User { user, remap },
        ),
        BuildStage::RemoveStaging { user, remap, failure } => req.features > 0 && action is RemoveStaging
            && match failure {
            Some(e) => features_failed(req, events, e),
            None => features_built(req, events, user, remap),
        },
        BuildStage::ImageUser => req.features == 0 && req.source is Dockerfile && answered(
            req,
            events,
            BuildAction::BuildImage(built_tag(req)),
            BuildEvent::Done,
        ) && action == BuildAction::ResolveUser(built_tag(req)),
        BuildStage::InspectUser { user } => image_made(req, events, user, true) && action == BuildAction::InspectUser(
            built_tag(req),
        ),
        BuildStage::BuildUid => action is BuildUid && action->BuildUid_tag == built_tag(req) && image_made(
            req,
            events,
            action->BuildUid_user,
            true,
        ) && answered(
            req,
            events,
            BuildAction::InspectUser(built_tag(req)),
            BuildEvent::ImageUser(action->image_user),
        ),
        _ => true,
    }
}

spec fn build_end(req: BuildRequest, events: Seq<BuildEvent>, action: BuildAction) -> bool {
    match action {
        BuildAction::PrintTag(tag) => {
            ||| req.features == 0 && req.source == ImageSource::Image(tag) && answered(
                req,
                events,
                BuildAction::Pull(tag),
                BuildEvent::Done,
            )
            ||| tag == built_tag(req) && made_as_it_is(req, events)
            ||| made_for_the_host(req, events, tag)
        },
        BuildAction::PrintService(service) => req.features == 0 && req.source == ImageSource::Compose(Some(service))
            && answered(req, events, BuildAction::BuildServices(service), BuildEvent::Done),
        BuildAction::Fail(e) => events.last() == BuildEvent::Failed(e) || features_failed(req, events, e) && answered(
            req,
            events,
            BuildAction::RemoveStaging,
            BuildEvent::Done,
        ),
        BuildAction::FailNoService => req.source == ImageSource::Compose(None),
        BuildAction::FailUnstated => req.source is Unstated,
        _ => true,
    }
}

proof fn build_step(req: BuildRequest, stage: BuildStage, event: BuildEvent)
    requires
        fits(stage, event),
    ensures
        ({
            let (next, step) = following(req, stage, event);
            let action = step.action;
            &&& match next {
                BuildStage::Start => false,
                BuildStage::Pull { image } => stage is Start && req.source == ImageSource::Image(image) && action
                    == BuildAction::Pull(image),
                BuildStage::ReadDockerfile => stage is Start && req.source is Dockerfile && action is ReadDockerfile,
                BuildStage::BuildImage => stage is ReadDockerfile && event is Done && action
                    == BuildAction::BuildImage(
                    if req.features > 0 {
                        req.folder_image
                    } else {
                        built_tag(req)
                    },
                ),
                BuildStage::BuildServices { service } => stage is Start && req.source == ImageSource::Compose(
                    Some(service),
                ) && action == BuildAction::BuildServices(service),
                BuildStage::ServiceImage => req.features > 0 && stage is BuildServices && event is Done && action
                    == BuildAction::ServiceImage(stage->service),
                BuildStage::Download { base } => (req.features > 0 || stage is ServiceImage) && action is Download && (stage
                    == (BuildStage::Pull { image: base }) && event is Done || stage is BuildImage && event is Done
                    && base == req.folder_image || stage is ServiceImage && event == BuildEvent::Named(base)),
                BuildStage::Lock { base } => stage == (BuildStage::Download { base }) && event is Done
                    && action is Lock,
                BuildStage::Stage { base } => stage == (BuildStage::Lock { base }) && event is Done && action is Stage,
                BuildStage::FeatureUser { base } => stage == (BuildStage::Stage { base }) && event is Done && action
                    == BuildAction::ResolveUser(base),
                BuildStage::BuildFeatures { user, remap } => stage is FeatureUser && event == (BuildEvent::User {
                    user,
                    remap,
                }) && action == (BuildAction::BuildFeatures {
                    base: stage->FeatureUser_base,
                    tag: built_tag(req),
                    user,
                }),
                BuildStage::RemoveStaging { user, remap, failure } => action is RemoveStaging && stage
                    == (BuildStage::BuildFeatures { user, remap }) && match failure {
                    Some(e) => event == BuildEvent::Failed(e),
                    None => event is Done,
                },
                BuildStage::ImageUser => req.features == 0 && stage is BuildImage && event is Done && action
                    == BuildAction::ResolveUser(built_tag(req)),
                BuildStage::InspectUser { user } => action == BuildAction::InspectUser(built_tag(req)) && finished_at(
                    stage,
                    event,
                    user,
                    true,
                ),
                BuildStage::BuildUid => stage is InspectUser && event is ImageUser && action
                    == (BuildAction::BuildUid {
                    tag: built_tag(req),
                    user: stage->InspectUser_user,
                    image_user: event->ImageUser_0,
                }),
                BuildStage::Ended => match action {
                    BuildAction::PrintTag(tag) => {
                        ||| req.features == 0 && stage == (BuildStage::Pull { image: tag }) && event is Done
                        ||| tag == built_tag(req) && exists|user: Option<String>| #[trigger]
                            finished_at(stage, event, user, false)
                        ||| stage is BuildUid && event == BuildEvent::Named(tag)
                    },
                    BuildAction::PrintService(service) => req.features == 0 && stage == (BuildStage::BuildServices {
                        service,
                    }) && event is Done,
                    BuildAction::Fail(e) => event == BuildEvent::Failed(e) || stage is RemoveStaging && event is Done
                        && stage->failure == Some(e),
                    BuildAction::FailNoService => stage is Start && req.source == ImageSource::Compose(None),
                    BuildAction::FailUnstated => stage is Start && req.source is Unstated,
                    _ => false,
                },
            }
            &&& action is PrintTag || action is PrintService || action is Fail || action is FailNoService
                || action is FailUnstated ==> next is Ended
        }),
{
    reveal(following);
    let (next, step) = following(req, stage, event);
    if step.action is PrintTag {
        match (stage, event) {
            (BuildStage::RemoveStaging { user, .. }, _) => {
                assert(finished_at(stage, event, user, false));
            },
            (BuildStage::ImageUser, BuildEvent::User { user, .. }) => {
                assert(finished_at(stage, event, user, false));
            },
            _ => {},
        }
    }
}

/// The stage and the event leave the image built, with this found of its user.
spec fn finished_at(stage: BuildStage, event: BuildEvent, user: Option<String>, remap: bool) -> bool {
    ||| stage == (BuildStage::RemoveStaging { user, remap, failure: None }) && event is Done
    ||| stage is ImageUser && event == (BuildEvent::User { user, remap })
}

proof fn still_made(req: BuildRequest, events: Seq<BuildEvent>)
    requires
        events.len() > 0,
    ensures
        forall|base: String| #[trigger] base_made(req, events.drop_last(), base) ==> base_made(req, events, base),
        laid_out(req, events.drop_last()) ==> laid_out(req, events),
        forall|user: Option<String>, remap: bool| #[trigger]
            features_built(req, events.drop_last(), user, remap) ==> features_built(req, events, user, remap),
        forall|e: String| #[trigger]
            features_failed(req, events.drop_last(), e) ==> features_failed(req, events, e),
        forall|user: Option<String>, remap: bool| #[trigger]
            image_made(req, events.drop_last(), user, remap) ==> image_made(req, events, user, remap),
{
    still_answered(req, events);
    let rest = events.drop_last();
    assert forall|base: String| #[trigger] base_made(req, rest, base) implies base_made(req, events, base) by {}
    assert forall|user: Option<String>, remap: bool| #[trigger]
        features_built(req, rest, user, remap) implies features_built(req, events, user, remap) by {
        reveal(features_built);
        let base = choose|base: String|
            {
                &&& #[trigger] base_made(req, rest, base)
                &&& answered(req, rest, BuildAction::ResolveUser(base), BuildEvent::User { user, remap })
                &&& answered(
                    req,
                    rest,
                    BuildAction::BuildFeatures { base, tag: built_tag(req), user },
                    BuildEvent::Done,
                )
            };
        assert(base_made(req, events, base));
    }
    assert forall|e: String| #[trigger] features_failed(req, rest, e) implies features_failed(req, events, e) by {
        reveal(features_failed);
        let (base, user) = choose|base: String, user: Option<String>| #[trigger]
            answered(
                req,
                rest,
                BuildAction::BuildFeatures { base, tag: built_tag(req), user },
                BuildEvent::Failed(e),
            );
        assert(answered(
            req,
            events,
            BuildAction::BuildFeatures { base, tag: built_tag(req), user },
            BuildEvent::Failed(e),
        ));
    }
    assert forall|user: Option<String>, remap: bool| #[trigger]
        image_made(req, rest, user, remap) implies image_made(req, events, user, remap) by {
        reveal(image_made);
        assert(features_built(req, rest, user, remap) ==> features_built(req, events, user, remap));
    }
}

proof fn is_made(req: BuildRequest, events: Seq<BuildEvent>, user: Option<String>, remap: bool)
    requires
        events.len() > 1,
        build_record(req, events.drop_last(), after(req, events.drop_last()), step_of(req, events.drop_last()).action),
        finished_at(after(req, events.drop_last()), events.last(), user, remap),
    ensures
        image_made(req, events, user, remap),
{
    reveal(image_made);
    still_answered(req, events);
    still_made(req, events);
    assert(features_built(req, events.drop_last(), user, remap) ==> features_built(req, events, user, remap));
}

#[verifier::rlimit(60)]
proof fn build_invariant(req: BuildRequest, events: Seq<BuildEvent>)
    requires
        in_turn(req, events),
    ensures
        build_record(req, events, after(req, events), step_of(req, events).action),
        events.len() > 0 ==> build_end(req, events, step_of(req, events).action),
    decreases events.len(),
{
    if events.len() > 0 {
        let rest = events.drop_last();
        let stage = after(req, rest);
        let event = events.last();
        let now = step_of(req, events).action;
        in_turn_before(req, events);
        build_invariant(req, rest);
        build_step(req, stage, event);
        still_answered(req, events);
        still_made(req, events);
        if rest.len() > 0 {
            let action = step_of(req, rest).action;
            assert(answered(req, events, action, event));
            match after(req, events) {
                BuildStage::RemoveStaging { user, remap, failure } => {
                    let base = action->base;
                    assert(base_made(req, events, base));
                    if let Some(e) = failure {
                        reveal(features_failed);
                        assert(answered(
                            req,
                            events,
                            BuildAction::BuildFeatures { base, tag: built_tag(req), user },
                            BuildEvent::Failed(e),
                        ));
                    } else {
                        reveal(features_built);
                    }
                },
                BuildStage::InspectUser { user } => {
                    is_made(req, events, user, true);
                },
                BuildStage::Ended => {
                    if let BuildAction::PrintTag(tag) = now {
                        if exists|user: Option<String>| #[trigger] finished_at(stage, event, user, false) {
                            let user = choose|user: Option<String>| #[trigger] finished_at(stage, event, user, false);
                            is_made(req, events, user, false);
                            reveal(made_as_it_is);
                        }
                        if stage is BuildUid {
                            reveal(made_for_the_host);
                            let user = action->BuildUid_user;
                            let image_user = action->image_user;
                            assert(image_made(req, events, user, true));
                            assert(answered(
                                req,
                                events,
                                BuildAction::BuildUid { tag: built_tag(req), user, image_user },
                                BuildEvent::Named(tag),
                            ));
                        }
                    }
                },
                _ => {},
            }
        } else {
            assert(stage is Start);
        }
    }
}

/// What a build prints is what it built. The tag is the pulled image's own, where nothing
/// goes on top of it; else that of the image it built, where its user keeps their id; else
/// that of the image which came of changing the id in it. A service is named only where it
/// was built and nothing goes on top of it.
pub proof fn what_is_printed_was_built(req: BuildRequest, events: Seq<BuildEvent>)
    requires
        in_turn(req, events),
        events.len() > 0,
    ensures
        match step_of(req, events).action {
            BuildAction::PrintTag(tag) => {
                ||| req.features == 0 && req.source == ImageSource::Image(tag) && answered(
                    req,
                    events,
                    BuildAction::Pull(tag),
                    BuildEvent::Done,
                )
                ||| tag == built_tag(req) && made_as_it_is(req, events)
                ||| made_for_the_host(req, events, tag)
            },
            BuildAction::PrintService(service) => req.features == 0 && req.source == ImageSource::Compose(
                Some(service),
            ) && answered(req, events, BuildAction::BuildServices(service), BuildEvent::Done),
            _ => true,
        },
{
    build_invariant(req, events);
}

/// A build fails with what failed in it, or because the project does not say what to
/// build; the build of the features fails only once what was laid out for it is removed.
pub proof fn why_a_build_fails(req: BuildRequest, events: Seq<BuildEvent>)
    requires
        in_turn(req, events),
        events.len() > 0,
    ensures
        match step_of(req, events).action {
            BuildAction::Fail(e) => events.last() == BuildEvent::Failed(e) || features_failed(req, events, e)
                && answered(req, events, BuildAction::RemoveStaging, BuildEvent::Done),
            BuildAction::FailNoService => req.source == ImageSource::Compose(None),
            BuildAction::FailUnstated => req.source is Unstated,
            _ => true,
        },
{
    build_invariant(req, events);
}

proof fn build_actions(req: BuildRequest, stage: BuildStage, event: BuildEvent)
    requires
        fits(stage, event),
    ensures
        ({
            let (next, step) = following(req, stage, event);
            &&& step.action is BuildFeatures ==> next is BuildFeatures
            &&& step.action is BuildUid ==> next is BuildUid
            &&& step.action is BuildImage ==> next is BuildImage
        }),
{
    reveal(following);
}

/// Features are built only where there are some, on top of the image that the project
/// asks for, once they were fetched, held to the lockfile and laid out, and for the user
/// that was found for that image. A user's id is changed in the image that was built, and
/// only where that is wanted.
pub proof fn features_go_on_top_of_the_projects_image(req: BuildRequest, events: Seq<BuildEvent>)
    requires
        in_turn(req, events),
        events.len() > 0,
    ensures
        match step_of(req, events).action {
            BuildAction::BuildFeatures { base, tag, user } => {
                &&& req.features > 0
                &&& tag == built_tag(req)
                &&& base_made(req, events, base)
                &&& laid_out(req, events)
                &&& exists|remap: bool| #[trigger]
                    answered(req, events, BuildAction::ResolveUser(base), BuildEvent::User { user, remap })
            },
            BuildAction::BuildUid { tag, user, image_user } => {
                &&& tag == built_tag(req)
                &&& image_made(req, events, user, true)
                &&& answered(
                    req,
                    events,
                    BuildAction::InspectUser(built_tag(req)),
                    BuildEvent::ImageUser(image_user),
                )
            },
            BuildAction::BuildImage(tag) => tag == (if req.features > 0 {
                req.folder_image
            } else {
                built_tag(req)
            }) && answered(req, events, BuildAction::ReadDockerfile, BuildEvent::Done),
            _ => true,
        },
{
    in_turn_before(req, events);
    build_invariant(req, events);
    build_actions(req, after(req, events.drop_last()), events.last());
    if let BuildStage::BuildFeatures { user, remap } = after(req, events) {
        assert(answered(
            req,
            events,
            BuildAction::ResolveUser(step_of(req, events).action->base),
            BuildEvent::User { user, remap },
        ));
    }
}

/// How a build begins, by where the image comes from.
pub proof fn how_it_begins(req: BuildRequest)
    ensures
        step_of(req, seq![BuildEvent::Begin]).action == match req.source {
            ImageSource::Image(image) => BuildAction::Pull(image),
            ImageSource::Dockerfile => BuildAction::ReadDockerfile,
            ImageSource::Compose(Some(service)) => BuildAction::BuildServices(service),
            ImageSource::Compose(None) => BuildAction::FailNoService,
            ImageSource::Unstated => BuildAction::FailUnstated,
        },
{
    reveal(following);
    let events = seq![BuildEvent::Begin];
    assert(events.drop_last() =~= Seq::empty());
    assert(after(req, events.drop_last()) is Start);
}

/// Each phase of a build is shown for the action that it is the phase of, and said in the
/// same breath.
pub proof fn phases_are_shown_with_their_actions(req: BuildRequest, stage: BuildStage, event: BuildEvent)
    requires
        fits(stage, event),
    ensures
        ({
            let step = following(req, stage, event).1;
            match step.action {
                BuildAction::Pull(image) => step.phase == Some(BuildPhase::Pull) && step.notice == Some(
                    BuildNotice::Pulling(image),
                ),
                BuildAction::BuildImage(_) => step.phase == Some(BuildPhase::Image) && step.notice == Some(
                    BuildNotice::Building,
                ),
                BuildAction::BuildServices(_) => step.phase == Some(BuildPhase::Services) && step.notice == Some(
                    BuildNotice::BuildingServices,
                ),
                BuildAction::Download => step.phase == Some(BuildPhase::Download) && step.notice == Some(
                    BuildNotice::Downloading(req.features),
                ),
                BuildAction::BuildFeatures { .. } => step.phase == Some(BuildPhase::Features) && step.notice == Some(
                    BuildNotice::BuildingFeatures,
                ),
                BuildAction::InspectUser(_) => step.phase == Some(BuildPhase::Remap) && step.notice is None,
                _ => step.phase is None && step.notice is None,
            }
        }),
{
    reveal(following);
}

/// What the pill says of each phase.
pub proof fn phases_have_their_labels()
    ensures
        BuildPhase::Pull.label_text() == "build: pulling image"@,
        BuildPhase::Image.label_text() == "build: building image"@,
        BuildPhase::Services.label_text() == "build: building compose services"@,
        BuildPhase::Download.label_text() == "build: downloading features"@,
        BuildPhase::Features.label_text() == "build: building features"@,
        BuildPhase::Remap.label_text() == "build: remapping uid"@,
{
}

} // verus!
