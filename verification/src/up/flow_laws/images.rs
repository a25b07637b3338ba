//! Which image a container is made from, and what was done for that image before.
use vstd::prelude::*;

use crate::up::flow::{Failure, Notice, Stage, Up, UpAction, UpEvent, UpRequest, UpStep};
use crate::up::flow_laws::{after, following, in_turn, in_turn_before, step_of};

verus! {

/// After the first `i` events this was to be done, and this came of it.
pub open spec fn answered_at(req: UpRequest, events: Seq<UpEvent>, i: int, action: UpAction, event: UpEvent) -> bool {
    &&& 1 <= i < events.len()
    &&& step_of(req, events.take(i)).action == action
    &&& events[i] == event
}

/// This was to be done, and this came of it.
#[verifier::opaque]
pub open spec fn answered(req: UpRequest, events: Seq<UpEvent>, action: UpAction, event: UpEvent) -> bool {
    exists|i: int| #[trigger] answered_at(req, events, i, action, event)
}

/// This event is one of the series.
#[verifier::opaque]
pub open spec fn came(events: Seq<UpEvent>, event: UpEvent) -> bool {
    exists|i: int| 0 <= i < events.len() && #[trigger] events[i] == event
}

/// What was answered before the last event was answered, and so is the last action.
pub proof fn still_answered(req: UpRequest, events: Seq<UpEvent>)
    requires
        events.len() > 0,
    ensures
        forall|a: UpAction, e: UpEvent| #[trigger]
            answered(req, events.drop_last(), a, e) ==> answered(req, events, a, e),
        events.len() > 1 ==> answered(req, events, step_of(req, events.drop_last()).action, events.last()),
        forall|e: UpEvent| #[trigger]
            came(events, e) ==> came(events.drop_last(), e) || events.last() == e,
        forall|e: UpEvent| #[trigger] came(events.drop_last(), e) ==> came(events, e),
        came(events, events.last()),
{
    reveal(answered);
    reveal(came);
    let rest = events.drop_last();
    let n = events.len() - 1;
    assert(events.take(n) == rest);
    assert(events[n] == events.last());
    assert forall|a: UpAction, e: UpEvent| #[trigger] answered(req, rest, a, e) implies answered(req, events, a, e) by {
        let i = choose|i: int| #[trigger] answered_at(req, rest, i, a, e);
        assert(rest.take(i) == events.take(i));
        assert(answered_at(req, events, i, a, e));
    }
    if events.len() > 1 {
        assert(answered_at(req, events, n, step_of(req, rest).action, events.last()));
    }
    assert forall|e: UpEvent| #[trigger] came(events, e) implies came(rest, e) || events.last() == e by {
        let i = choose|i: int| 0 <= i < events.len() && #[trigger] events[i] == e;
        if i < n {
            assert(rest[i] == e);
        }
    }
    assert forall|e: UpEvent| #[trigger] came(rest, e) implies came(events, e) by {
        let i = choose|i: int| 0 <= i < rest.len() && #[trigger] rest[i] == e;
        assert(events[i] == e);
    }
}

pub proof fn nothing_came(event: UpEvent)
    ensures
        !came(Seq::empty(), event),
{
    reveal(came);
}

// ---------------------------------------------------------------------------
// The features are found once
// ---------------------------------------------------------------------------

spec fn past_features(stage: Stage) -> bool {
    stage is Present || stage is Cached || stage is Base || stage is BaseBuild || stage is FeatureBuild
        || stage is Recover || stage is CreateSecrets || stage is CreateUser || stage is Remap || stage is Mounts
        || stage is CreateFolder || stage is Create || stage is CreateStart || stage is CreateVerify
        || stage is CreateHooks || stage is Dotfiles || stage is Sites
}

proof fn features_step(req: UpRequest, up: Up, event: UpEvent)
    requires
        crate::up::flow::fits(up.stage, event),
    ensures
        ({
            let next = following(req, up, event).0;
            &&& event is FeaturesResolved <==> up.stage is Features && !(event is Failed)
            &&& event is FeaturesResolved ==> past_features(next.stage) || next.stage is Ended
            &&& past_features(up.stage) ==> past_features(next.stage) || next.stage is Ended
            &&& past_features(next.stage) ==> past_features(up.stage) || event is FeaturesResolved
        }),
{
    reveal(following);
}

proof fn features_come_once(req: UpRequest, events: Seq<UpEvent>)
    requires
        in_turn(req, events),
    ensures
        !past_features(after(req, events).stage) && !(after(req, events).stage is Ended) ==> forall|ft: Option<String>|
            !#[trigger] came(events, UpEvent::FeaturesResolved(ft)),
    decreases events.len(),
{
    if events.len() > 0 {
        in_turn_before(req, events);
        features_come_once(req, events.drop_last());
        features_step(req, after(req, events.drop_last()), events.last());
        still_answered(req, events);
    } else {
        assert forall|ft: Option<String>| !#[trigger] came(events, UpEvent::FeaturesResolved(ft)) by {
            nothing_came(UpEvent::FeaturesResolved(ft));
            assert(events =~= Seq::empty());
        }
    }
}

// ---------------------------------------------------------------------------
// What an image comes from
// ---------------------------------------------------------------------------

/// The project's base is there: the image it names, pulled unless it was there, or
/// the one that its Dockerfile was built as.
pub open spec fn base_made(req: UpRequest, events: Seq<UpEvent>, base: String) -> bool {
    match req.config.image {
        Some(image) => base == image && answered(req, events, UpAction::EnsureImage(image), UpEvent::Done),
        None => base == req.name && req.config.build is Some && answered(
            req,
            events,
            UpAction::BuildDockerfile(base),
            UpEvent::Done,
        ),
    }
}

/// An image of this tag was found, and it was right to look.
pub open spec fn found_built(req: UpRequest, events: Seq<UpEvent>, tag: String) -> bool {
    !req.rebuild && !req.no_cache && answered(req, events, UpAction::CheckImage(tag), UpEvent::Checked(true))
}

/// The features were built on top of the project's base, as this tag.
#[verifier::opaque]
pub open spec fn features_built(req: UpRequest, events: Seq<UpEvent>, tag: String) -> bool {
    exists|base: String, any: bool|
        base_made(req, events, base) && #[trigger] answered(
            req,
            events,
            UpAction::BuildFeatures(base, tag),
            UpEvent::FeaturesBuilt(any),
        )
}

/// The image is the one that the project asks for, given the tag of the image with
/// its features where it has any, and it is there.
#[verifier::opaque]
pub open spec fn image_there(req: UpRequest, events: Seq<UpEvent>, feature_tag: Option<String>, image: String) -> bool {
    match feature_tag {
        Some(tag) => image == tag && (found_built(req, events, tag) || features_built(req, events, tag)),
        None => if req.config.build is None {
            req.config.image == Some(image) && answered(req, events, UpAction::EnsureImage(image), UpEvent::Done)
        } else {
            image == req.name && (found_built(req, events, image) || exists|base: String| #[trigger]
                base_made(req, events, base))
        },
    }
}

/// This image came of matching the user's ids in the image that the project asks
/// for.
#[verifier::opaque]
pub open spec fn image_remapped(
    req: UpRequest,
    events: Seq<UpEvent>,
    feature_tag: Option<String>,
    image: String,
    user: Option<String>,
) -> bool {
    exists|from: String|
        #![trigger image_there(req, events, feature_tag, from)]
        image_there(req, events, feature_tag, from) && answered(
            req,
            events,
            UpAction::RemapUser(from, user),
            UpEvent::Remapped(image),
        )
}

spec fn tag_of(req: UpRequest, feature_tag: Option<String>) -> String {
    match feature_tag {
        Some(tag) => tag,
        None => req.name,
    }
}

spec fn built(req: UpRequest, feature_tag: Option<String>) -> bool {
    feature_tag is Some || req.config.build is Some
}

/// What holds of the image that a stage speaks of.
spec fn image_record(
    req: UpRequest,
    events: Seq<UpEvent>,
    feature_tag: Option<String>,
    up: Up,
    action: UpAction,
) -> bool {
    &&& past_features(up.stage) ==> up.has_features == (feature_tag is Some)
    &&& match up.stage {
        Stage::Present { image } => feature_tag is None && req.config.build is None && req.config.image == Some(image)
            && action == UpAction::EnsureImage(image),
        Stage::Cached { tag } => built(req, feature_tag) && tag == tag_of(req, feature_tag) && !req.rebuild
            && !req.no_cache && action == UpAction::CheckImage(tag),
        Stage::Base { base, tag } => built(req, feature_tag) && tag == tag_of(req, feature_tag) && req.config.image
            == Some(base) && action == UpAction::EnsureImage(base),
        Stage::BaseBuild { base, tag } => tag == tag_of(req, feature_tag) && req.config.image is None
            && req.config.build is Some && base == req.name && action == UpAction::BuildDockerfile(base),
        Stage::FeatureBuild { tag } => feature_tag == Some(tag) && action is BuildFeatures && action
            == UpAction::BuildFeatures(action->BuildFeatures_0, tag) && base_made(
            req,
            events,
            action->BuildFeatures_0,
        ),
        Stage::Recover { image } => image_there(req, events, feature_tag, image),
        Stage::CreateSecrets { image } => image_there(req, events, feature_tag, image),
        Stage::CreateUser { image } => image_there(req, events, feature_tag, image),
        Stage::Remap { user } => action is RemapUser && action == UpAction::RemapUser(action->RemapUser_0, user)
            && image_there(req, events, feature_tag, action->RemapUser_0),
        Stage::Mounts { image, user } => image_remapped(req, events, feature_tag, image, user),
        Stage::CreateFolder { image, user } => image_remapped(req, events, feature_tag, image, user),
        Stage::Create { run_as } => action is CreateContainer && action == UpAction::CreateContainer(
            action->CreateContainer_0,
            run_as,
        ) && image_remapped(req, events, feature_tag, action->CreateContainer_0, run_as.user),
        _ => true,
    }
}

/// Where a stage that speaks of an image comes from.
proof fn image_step(req: UpRequest, up: Up, event: UpEvent)
    requires
        crate::up::flow::fits(up.stage, event),
        past_features(up.stage),
    ensures
        ({
            let (next, step) = following(req, up, event);
            &&& next.has_features == up.has_features
            &&& match next.stage {
                Stage::Present { .. } => false,
                Stage::Cached { .. } => false,
                Stage::Base { base, tag } => up.stage == (Stage::Cached { tag }) && req.config.image == Some(base)
                    && step.action == UpAction::EnsureImage(base),
                Stage::BaseBuild { base, tag } => up.stage == (Stage::Cached { tag }) && req.config.image is None
                    && req.config.build is Some && base == (if up.has_features {
                    req.name
                } else {
                    tag
                }) && step.action == UpAction::BuildDockerfile(base),
                Stage::FeatureBuild { tag } => up.has_features && event is Done && match up.stage {
                    Stage::Base { base, tag: t } => t == tag && step.action == UpAction::BuildFeatures(base, tag),
                    Stage::BaseBuild { base, tag: t } => t == tag && step.action == UpAction::BuildFeatures(base, tag),
                    _ => false,
                },
                Stage::Recover { image } => ready_from(up, event, image),
                Stage::CreateSecrets { image } => ready_from(up, event, image) || up.stage == (Stage::Recover {
                    image,
                }),
                Stage::CreateUser { image } => ready_from(up, event, image) || up.stage == (Stage::Recover { image })
                    || up.stage == (Stage::CreateSecrets { image }),
                Stage::Remap { user } => up.stage is CreateUser && step.action == UpAction::RemapUser(
                    up.stage->CreateUser_image,
                    user,
                ),
                Stage::Mounts { image, user } => up.stage == (Stage::Remap { user }) && event == UpEvent::Remapped(
                    image,
                ),
                Stage::CreateFolder { image, user } => up.stage == (Stage::Mounts { image, user }),
                Stage::Create { run_as } => up.stage is CreateFolder && up.stage->CreateFolder_user == run_as.user
                    && step.action == UpAction::CreateContainer(up.stage->CreateFolder_image, run_as),
                _ => true,
            }
            &&& step.action is RemapUser ==> next.stage is Remap
            &&& step.action is CreateContainer ==> next.stage is Create
        }),
{
    reveal(following);
}

/// The stage and the event show this image to be there.
spec fn ready_from(up: Up, event: UpEvent, image: String) -> bool {
    match up.stage {
        Stage::Present { image: it } => it == image && event is Done,
        Stage::Cached { tag } => tag == image && event == UpEvent::Checked(true),
        Stage::Base { tag, .. } => tag == image && !up.has_features && event is Done,
        Stage::BaseBuild { tag, .. } => tag == image && !up.has_features && event is Done,
        Stage::FeatureBuild { tag } => tag == image && event is FeaturesBuilt,
        _ => false,
    }
}

proof fn image_first_step(req: UpRequest, up: Up, feature_tag: Option<String>)
    requires
        up.stage is Features,
    ensures
        ({
            let (next, step) = following(req, up, UpEvent::FeaturesResolved(feature_tag));
            &&& next.stage is Present || next.stage is Cached || next.stage is Base || next.stage is BaseBuild
                || next.stage is Ended
            &&& image_record(req, Seq::empty(), feature_tag, next, step.action)
            &&& !(step.action is RemapUser)
            &&& !(step.action is CreateContainer)
        }),
{
    reveal(following);
}

proof fn still_there(req: UpRequest, events: Seq<UpEvent>, feature_tag: Option<String>)
    requires
        events.len() > 0,
    ensures
        forall|base: String| #[trigger] base_made(req, events.drop_last(), base) ==> base_made(req, events, base),
        forall|image: String| #[trigger]
            image_there(req, events.drop_last(), feature_tag, image) ==> image_there(req, events, feature_tag, image),
        forall|image: String, user: Option<String>| #[trigger]
            image_remapped(req, events.drop_last(), feature_tag, image, user) ==> image_remapped(
                req,
                events,
                feature_tag,
                image,
                user,
            ),
{
    still_answered(req, events);
    let rest = events.drop_last();
    assert forall|base: String| #[trigger] base_made(req, rest, base) implies base_made(req, events, base) by {}
    assert forall|image: String| #[trigger] image_there(req, rest, feature_tag, image) implies image_there(
        req,
        events,
        feature_tag,
        image,
    ) by {
        reveal(image_there);
        reveal(features_built);
        if feature_tag is Some && features_built(req, rest, image) {
            let (base, any) = choose|base: String, any: bool|
                base_made(req, rest, base) && #[trigger] answered(
                    req,
                    rest,
                    UpAction::BuildFeatures(base, image),
                    UpEvent::FeaturesBuilt(any),
                );
            assert(base_made(req, events, base));
            assert(answered(req, events, UpAction::BuildFeatures(base, image), UpEvent::FeaturesBuilt(any)));
        }
        if exists|base: String| #[trigger] base_made(req, rest, base) {
            let base = choose|base: String| #[trigger] base_made(req, rest, base);
            assert(base_made(req, events, base));
        }
    }
    assert forall|image: String, user: Option<String>| #[trigger]
        image_remapped(req, rest, feature_tag, image, user) implies image_remapped(
        req,
        events,
        feature_tag,
        image,
        user,
    ) by {
        reveal(image_remapped);
        let from = choose|from: String|
            #![trigger image_there(req, rest, feature_tag, from)]
            image_there(req, rest, feature_tag, from) && answered(
                req,
                rest,
                UpAction::RemapUser(from, user),
                UpEvent::Remapped(image),
            );
        assert(image_there(req, events, feature_tag, from));
    }
}

/// What shows an image to be there makes it the one that is asked for.
proof fn is_there(req: UpRequest, events: Seq<UpEvent>, feature_tag: Option<String>, up: Up, image: String)
    requires
        events.len() > 1,
        up == after(req, events.drop_last()),
        past_features(up.stage),
        image_record(req, events.drop_last(), feature_tag, up, step_of(req, events.drop_last()).action),
        ready_from(up, events.last(), image),
    ensures
        image_there(req, events, feature_tag, image),
{
    reveal(image_there);
    reveal(features_built);
    still_answered(req, events);
    still_there(req, events, feature_tag);
    let action = step_of(req, events.drop_last()).action;
    match up.stage {
        Stage::FeatureBuild { tag } => {
            let base = action->BuildFeatures_0;
            let any = events.last()->FeaturesBuilt_0;
            assert(base_made(req, events, base));
            assert(events.last() == UpEvent::FeaturesBuilt(any));
        },
        Stage::Base { base, .. } => {
            assert(base_made(req, events, base));
        },
        Stage::BaseBuild { base, .. } => {
            assert(base_made(req, events, base));
        },
        _ => {},
    }
}

proof fn is_remapped(
    req: UpRequest,
    events: Seq<UpEvent>,
    feature_tag: Option<String>,
    from: String,
    image: String,
    user: Option<String>,
)
    requires
        image_there(req, events, feature_tag, from),
        answered(req, events, UpAction::RemapUser(from, user), UpEvent::Remapped(image)),
    ensures
        image_remapped(req, events, feature_tag, image, user),
{
    reveal(image_remapped);
}

#[verifier::rlimit(40)]
proof fn image_invariant(req: UpRequest, events: Seq<UpEvent>, feature_tag: Option<String>)
    requires
        in_turn(req, events),
        came(events, UpEvent::FeaturesResolved(feature_tag)),
    ensures
        past_features(after(req, events).stage) || after(req, events).stage is Ended,
        image_record(req, events, feature_tag, after(req, events), step_of(req, events).action),
        step_of(req, events).action is RemapUser ==> after(req, events).stage is Remap,
        step_of(req, events).action is CreateContainer ==> after(req, events).stage is Create,
    decreases events.len(),
{
    nothing_came(UpEvent::FeaturesResolved(feature_tag));
    if events.len() == 0 {
        assert(events =~= Seq::empty());
    } else {
        let rest = events.drop_last();
        let up = after(req, rest);
        let event = events.last();
        in_turn_before(req, events);
        still_answered(req, events);
        features_step(req, up, event);
        if event is FeaturesResolved {
            features_come_once(req, rest);
            assert(event == UpEvent::FeaturesResolved(feature_tag));
            image_first_step(req, up, feature_tag);
        } else {
            image_invariant(req, rest, feature_tag);
            assert(past_features(up.stage));
            if rest.len() == 0 {
                assert(rest =~= Seq::empty());
            }
            assert(rest.len() > 0);
            image_step(req, up, event);
            still_there(req, events, feature_tag);
            let next = after(req, events);
            match next.stage {
                Stage::Recover { image } => {
                    is_there(req, events, feature_tag, up, image);
                },
                Stage::CreateSecrets { image } => {
                    if ready_from(up, event, image) {
                        is_there(req, events, feature_tag, up, image);
                    }
                },
                Stage::CreateUser { image } => {
                    if ready_from(up, event, image) {
                        is_there(req, events, feature_tag, up, image);
                    }
                },
                Stage::Mounts { image, user } => {
                    let from = step_of(req, rest).action->RemapUser_0;
                    is_remapped(req, events, feature_tag, from, image, user);
                },
                _ => {},
            }
        }
    }
}

/// Where the project has features, whatever is made of an image is made of the image
/// of their tag. That image was found, where nothing asked for a new one, or the
/// features were built as it on top of the project's own base: the image it names,
/// which was pulled unless it was there, or the image of its Dockerfile, which was
/// built.
pub proof fn containers_have_the_features(req: UpRequest, events: Seq<UpEvent>, tag: String)
    requires
        in_turn(req, events),
        came(events, UpEvent::FeaturesResolved(Some(tag))),
    ensures
        step_of(req, events).action matches UpAction::RemapUser(image, user) ==> image == tag && (found_built(
            req,
            events,
            tag,
        ) || features_built(req, events, tag)),
        step_of(req, events).action matches UpAction::CreateContainer(image, run_as) ==> answered(
            req,
            events,
            UpAction::RemapUser(tag, run_as.user),
            UpEvent::Remapped(image),
        ) && (found_built(req, events, tag) || features_built(req, events, tag)),
{
    reveal(image_there);
    reveal(image_remapped);
    image_invariant(req, events, Some(tag));
}

/// Where the project has no features, a container is made of the image it names,
/// which was pulled unless it was there; or, where it has a Dockerfile, of the image
/// of the workspace's name, which was found or whose base was made.
pub proof fn containers_without_features_have_the_projects_image(req: UpRequest, events: Seq<UpEvent>)
    requires
        in_turn(req, events),
        came(events, UpEvent::FeaturesResolved(None)),
    ensures
        step_of(req, events).action matches UpAction::RemapUser(image, user) ==> match req.config.build {
            None => req.config.image == Some(image) && answered(
                req,
                events,
                UpAction::EnsureImage(image),
                UpEvent::Done,
            ),
            Some(_) => image == req.name && (found_built(req, events, image) || base_made(
                req,
                events,
                match req.config.image {
                    Some(base) => base,
                    None => req.name,
                },
            )),
        },
        step_of(req, events).action matches UpAction::CreateContainer(image, run_as) ==> exists|from: String| #[trigger]
            answered(req, events, UpAction::RemapUser(from, run_as.user), UpEvent::Remapped(image)) && (
            req.config.build is None ==> req.config.image == Some(from)) && (req.config.build is Some ==> from
                == req.name),
{
    reveal(image_there);
    reveal(image_remapped);
    image_invariant(req, events, None);
}

proof fn making_step(req: UpRequest, up: Up, event: UpEvent)
    requires
        crate::up::flow::fits(up.stage, event),
    ensures
        following(req, up, event).1.action is RemapUser ==> past_features(up.stage),
        following(req, up, event).1.action is CreateContainer ==> past_features(up.stage),
{
    reveal(following);
}

proof fn features_were_found(req: UpRequest, events: Seq<UpEvent>)
    requires
        in_turn(req, events),
        past_features(after(req, events).stage),
    ensures
        exists|ft: Option<String>| #[trigger] came(events, UpEvent::FeaturesResolved(ft)),
    decreases events.len(),
{
    let rest = events.drop_last();
    in_turn_before(req, events);
    still_answered(req, events);
    features_step(req, after(req, rest), events.last());
    if past_features(after(req, rest).stage) {
        features_were_found(req, rest);
        let ft = choose|ft: Option<String>| #[trigger] came(rest, UpEvent::FeaturesResolved(ft));
        assert(came(events, UpEvent::FeaturesResolved(ft)));
    } else {
        let ft = events.last()->FeaturesResolved_0;
        assert(events.last() == UpEvent::FeaturesResolved(ft));
        assert(came(events, UpEvent::FeaturesResolved(ft)));
    }
}

/// No container is made, and no image made ready for one, before it is known which
/// features the project has; and that is found out once.
pub proof fn features_are_known_before_a_container_is_made(req: UpRequest, events: Seq<UpEvent>)
    requires
        in_turn(req, events),
        events.len() > 0,
    ensures
        step_of(req, events).action is RemapUser || step_of(req, events).action is CreateContainer ==> exists|
            ft: Option<String>,
        | #[trigger] came(events, UpEvent::FeaturesResolved(ft)),
        forall|a: Option<String>, b: Option<String>| #[trigger]
            came(events, UpEvent::FeaturesResolved(a)) && #[trigger] came(events, UpEvent::FeaturesResolved(b))
                ==> a == b,
    decreases events.len(),
{
    let rest = events.drop_last();
    in_turn_before(req, events);
    still_answered(req, events);
    making_step(req, after(req, rest), events.last());
    features_step(req, after(req, rest), events.last());
    features_come_once(req, rest);
    if past_features(after(req, rest).stage) {
        features_were_found(req, rest);
        let ft = choose|ft: Option<String>| #[trigger] came(rest, UpEvent::FeaturesResolved(ft));
        assert(came(events, UpEvent::FeaturesResolved(ft)));
    }
    if rest.len() > 0 {
        features_are_known_before_a_container_is_made(req, rest);
    }
}

proof fn image_stages(req: UpRequest, up: Up, event: UpEvent)
    requires
        crate::up::flow::fits(up.stage, event),
    ensures
        ({
            let (next, step) = following(req, up, event);
            &&& step.action is ResolveFeatures ==> next.stage is Features
            &&& step.action matches UpAction::EnsureImage(image) ==> next.stage is Present || next.stage is Base
            &&& step.action matches UpAction::CheckImage(tag) ==> next.stage == (Stage::Cached { tag })
            &&& step.action is BuildDockerfile ==> next.stage is BaseBuild
            &&& step.action is BuildFeatures ==> next.stage is FeatureBuild
            &&& step.action matches UpAction::RecoverFeatures(image) ==> next.stage == (Stage::Recover { image })
            &&& step.action is ResolveSecrets ==> next.stage is CreateSecrets
        }),
{
    reveal(following);
}

/// What is done where an image has to be made: the named one is pulled unless it is
/// there, or the Dockerfile is built; a project that has neither is refused.
pub open spec fn begins_to_build(req: UpRequest, step: UpStep) -> bool {
    match req.config.image {
        Some(image) => step.action == UpAction::EnsureImage(image),
        None => if req.config.build is Some {
            step.action == UpAction::BuildDockerfile(req.name) && step.notice == Some(Notice::BuildingFromDockerfile)
        } else {
            step.action == UpAction::Fail(Failure::NoImage)
        },
    }
}

/// What the features lead to: with none and no Dockerfile, the named image is used as
/// it is; else the image is looked for, unless a new one was asked for, and then it is
/// made.
pub proof fn what_the_features_lead_to(req: UpRequest, events: Seq<UpEvent>, feature_tag: Option<String>)
    requires
        in_turn(req, events),
        events.len() > 1,
        step_of(req, events.drop_last()).action is ResolveFeatures,
        events.last() == UpEvent::FeaturesResolved(feature_tag),
    ensures
        ({
            let step = step_of(req, events);
            if req.config.build is None && feature_tag is None {
                step.action == match req.config.image {
                    Some(image) => UpAction::EnsureImage(image),
                    None => UpAction::Fail(Failure::NoImage),
                }
            } else if !req.rebuild && !req.no_cache {
                step.action == UpAction::CheckImage(
                    match feature_tag {
                        Some(tag) => tag,
                        None => req.name,
                    },
                )
            } else {
                begins_to_build(req, step)
            }
        }),
{
    let rest = events.drop_last();
    in_turn_before(req, events);
    in_turn_before(req, rest);
    image_stages(req, after(req, rest.drop_last()), rest.last());
    reveal(following);
}

/// The features of the image are known: what is next is to ask the providers, where
/// there is something to ask them for, or else for the user.
pub open spec fn goes_on_with(step: UpStep, image: String) -> bool {
    step.action is ResolveSecrets || step.action == UpAction::ResolveUser(image)
}

/// What is done once an image was looked for, pulled or built. One that was found is not
/// built again; one that was not is made. The features come on top of the base where
/// there are any. Where features are in the image but were not just installed, they are
/// recovered from it, and it is warned about where it does not say.
pub proof fn what_an_image_leads_to(req: UpRequest, events: Seq<UpEvent>, feature_tag: Option<String>)
    requires
        in_turn(req, events),
        events.len() > 1,
        came(events.drop_last(), UpEvent::FeaturesResolved(feature_tag)),
    ensures
        ({
            let step = step_of(req, events);
            match (step_of(req, events.drop_last()).action, events.last()) {
                (UpAction::CheckImage(tag), UpEvent::Checked(there)) => if there {
                    step.notice == Some(Notice::SkippingBuild(tag)) && if feature_tag is Some {
                        step.action == UpAction::RecoverFeatures(tag)
                    } else {
                        goes_on_with(step, tag)
                    }
                } else {
                    begins_to_build(req, step)
                },
                (UpAction::EnsureImage(base), UpEvent::Done) => match feature_tag {
                    Some(tag) => step.action == UpAction::BuildFeatures(base, tag),
                    None => goes_on_with(
                        step,
                        if req.config.build is None {
                            base
                        } else {
                            req.name
                        },
                    ),
                },
                (UpAction::BuildDockerfile(base), UpEvent::Done) => match feature_tag {
                    Some(tag) => step.action == UpAction::BuildFeatures(base, tag),
                    None => goes_on_with(step, req.name),
                },
                (UpAction::BuildFeatures(_, tag), UpEvent::FeaturesBuilt(any)) => if any {
                    goes_on_with(step, tag)
                } else {
                    step.action == UpAction::RecoverFeatures(tag)
                },
                (UpAction::RecoverFeatures(image), UpEvent::Recovered(described)) => goes_on_with(step, image)
                    && step.warning == if described {
                    None
                } else {
                    Some(Notice::NoMetadata(image))
                },
                _ => true,
            }
        }),
{
    let rest = events.drop_last();
    in_turn_before(req, events);
    image_invariant(req, rest, feature_tag);
    in_turn_before(req, rest);
    image_stages(req, after(req, rest.drop_last()), rest.last());
    reveal(following);
}

} // verus!
