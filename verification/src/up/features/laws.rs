//! What holds of every build of a project's features.
use vstd::prelude::*;

use crate::number::decimal_of;
use crate::up::features::{
    feature_next, fetch_lines, fits, install_lines, FeatureAction, FeatureEvent, FeatureName,
    FeatureStage,
};

verus! {

/// The stage after a series of events.
pub open spec fn after(events: Seq<FeatureEvent>) -> FeatureStage
    decreases events.len(),
{
    if events.len() == 0 {
        FeatureStage::Start
    } else {
        feature_next(after(events.drop_last()), events.last()).0
    }
}

/// What the last of a series of events called for.
pub open spec fn action_of(events: Seq<FeatureEvent>) -> FeatureAction {
    feature_next(after(events.drop_last()), events.last()).1
}

/// Each event is one that was waited for.
pub open spec fn in_turn(events: Seq<FeatureEvent>) -> bool {
    forall|i: int| 0 <= i < events.len() ==> fits(after(events.take(i)), #[trigger] events[i])
}

proof fn in_turn_before(events: Seq<FeatureEvent>)
    requires
        in_turn(events),
        events.len() > 0,
    ensures
        in_turn(events.drop_last()),
        fits(after(events.drop_last()), events.last()),
{
    let rest = events.drop_last();
    assert forall|i: int| 0 <= i < rest.len() implies fits(after(rest.take(i)), #[trigger] rest[i]) by {
        assert(events[i] == rest[i]);
        assert(rest.take(i) == events.take(i));
    }
    assert(events.take(events.len() - 1) == rest);
    assert(events[events.len() - 1] == events.last());
}

/// After the first `i` events this was to be done, and this came of it.
pub open spec fn answered_at(events: Seq<FeatureEvent>, i: int, action: FeatureAction, event: FeatureEvent) -> bool {
    &&& 1 <= i < events.len()
    &&& action_of(events.take(i)) == action
    &&& events[i] == event
}

/// This was to be done, and this came of it.
#[verifier::opaque]
pub open spec fn answered(events: Seq<FeatureEvent>, action: FeatureAction, event: FeatureEvent) -> bool {
    exists|i: int| #[trigger] answered_at(events, i, action, event)
}

proof fn still_answered(events: Seq<FeatureEvent>)
    requires
        events.len() > 0,
    ensures
        forall|a: FeatureAction, e: FeatureEvent| #[trigger]
            answered(events.drop_last(), a, e) ==> answered(events, a, e),
        events.len() > 1 ==> answered(events, action_of(events.drop_last()), events.last()),
{
    reveal(answered);
    let rest = events.drop_last();
    let n = events.len() - 1;
    assert(events.take(n) == rest);
    assert(events[n] == events.last());
    assert forall|a: FeatureAction, e: FeatureEvent| #[trigger] answered(rest, a, e) implies answered(events, a, e) by {
        let i = choose|i: int| #[trigger] answered_at(rest, i, a, e);
        assert(rest.take(i) == events.take(i));
        assert(answered_at(events, i, a, e));
    }
    if events.len() > 1 {
        assert(answered_at(events, n, action_of(rest), events.last()));
    }
}

/// The features were fetched, held to the lockfile and laid out, and the user was found.
pub open spec fn ready_to_build(events: Seq<FeatureEvent>) -> bool {
    &&& answered(events, FeatureAction::Download, FeatureEvent::Done)
    &&& answered(events, FeatureAction::Lock, FeatureEvent::Done)
    &&& answered(events, FeatureAction::Stage, FeatureEvent::Done)
    &&& answered(events, FeatureAction::ResolveUser, FeatureEvent::Done)
}

spec fn record(events: Seq<FeatureEvent>, stage: FeatureStage, action: FeatureAction) -> bool {
    match stage {
        FeatureStage::Start => true,
        FeatureStage::Download => action is Download,
        FeatureStage::Lock => action is Lock && answered(events, FeatureAction::Download, FeatureEvent::Done),
        FeatureStage::Stage => action is Stage && answered(events, FeatureAction::Download, FeatureEvent::Done)
            && answered(events, FeatureAction::Lock, FeatureEvent::Done),
        FeatureStage::ResolveUser => action is ResolveUser && answered(
            events,
            FeatureAction::Download,
            FeatureEvent::Done,
        ) && answered(events, FeatureAction::Lock, FeatureEvent::Done) && answered(
            events,
            FeatureAction::Stage,
            FeatureEvent::Done,
        ),
        FeatureStage::Build => action is Build && ready_to_build(events),
        FeatureStage::RemoveStaging(failure) => action is RemoveStaging && ready_to_build(events) && match failure {
            Some(e) => answered(events, FeatureAction::Build, FeatureEvent::Failed(e)),
            None => answered(events, FeatureAction::Build, FeatureEvent::Done),
        },
        FeatureStage::Ended => match action {
            FeatureAction::Finish => ready_to_build(events) && answered(
                events,
                FeatureAction::Build,
                FeatureEvent::Done,
            ) && answered(events, FeatureAction::RemoveStaging, FeatureEvent::Done),
            FeatureAction::Fail(e) => events.last() == FeatureEvent::Failed(e) || answered(
                events,
                FeatureAction::Build,
                FeatureEvent::Failed(e),
            ) && answered(events, FeatureAction::RemoveStaging, FeatureEvent::Done),
            _ => false,
        },
    }
}

proof fn invariant_of_builds(events: Seq<FeatureEvent>)
    requires
        in_turn(events),
    ensures
        record(events, after(events), action_of(events)),
        events.len() > 0 ==> !(after(events) is Start),
    decreases events.len(),
{
    if events.len() > 0 {
        let rest = events.drop_last();
        in_turn_before(events);
        invariant_of_builds(rest);
        still_answered(events);
        if rest.len() > 0 {
            assert(answered(events, action_of(rest), events.last()));
        }
    }
}

/// The image is said to be there only after the features were fetched, held to the lockfile
/// and laid out, the user was found, the build succeeded, and what had been laid out was
/// removed. A failure is the one that came last, or the build's own, once what had been laid
/// out was removed.
pub proof fn what_a_build_of_features_went_through(events: Seq<FeatureEvent>)
    requires
        in_turn(events),
        events.len() > 0,
    ensures
        match action_of(events) {
            FeatureAction::Finish => ready_to_build(events) && answered(
                events,
                FeatureAction::Build,
                FeatureEvent::Done,
            ) && answered(events, FeatureAction::RemoveStaging, FeatureEvent::Done),
            FeatureAction::Fail(e) => events.last() == FeatureEvent::Failed(e) || answered(
                events,
                FeatureAction::Build,
                FeatureEvent::Failed(e),
            ) && answered(events, FeatureAction::RemoveStaging, FeatureEvent::Done),
            FeatureAction::Build => ready_to_build(events),
            _ => true,
        },
{
    in_turn_before(events);
    invariant_of_builds(events);
}

/// A build begins with fetching the features, and each thing that is done leads to the next.
pub proof fn each_thing_leads_to_the_next(events: Seq<FeatureEvent>)
    requires
        in_turn(events),
        events.len() > 1,
    ensures
        action_of(seq![FeatureEvent::Begin]) is Download,
        match (action_of(events.drop_last()), events.last()) {
            (FeatureAction::Download, FeatureEvent::Done) => action_of(events) is Lock,
            (FeatureAction::Lock, FeatureEvent::Done) => action_of(events) is Stage,
            (FeatureAction::Stage, FeatureEvent::Done) => action_of(events) is ResolveUser,
            (FeatureAction::ResolveUser, FeatureEvent::Done) => action_of(events) is Build,
            (FeatureAction::Build, _) => action_of(events) is RemoveStaging,
            (FeatureAction::Download, FeatureEvent::Failed(e)) => action_of(events) == FeatureAction::Fail(e),
            (FeatureAction::Lock, FeatureEvent::Failed(e)) => action_of(events) == FeatureAction::Fail(e),
            (FeatureAction::Stage, FeatureEvent::Failed(e)) => action_of(events) == FeatureAction::Fail(e),
            (FeatureAction::ResolveUser, FeatureEvent::Failed(e)) => action_of(events) == FeatureAction::Fail(e),
            _ => true,
        },
{
    let one = seq![FeatureEvent::Begin];
    assert(one.drop_last() =~= Seq::empty());
    assert(after(one.drop_last()) is Start);
    let rest = events.drop_last();
    in_turn_before(events);
    in_turn_before(rest);
    invariant_of_builds(rest);
    invariant_of_builds(rest.drop_last());
}

// ---------------------------------------------------------------------------
// What is said
// ---------------------------------------------------------------------------

/// It is said how many features are fetched; where more is to be said, each has its line,
/// in their order.
pub proof fn each_feature_has_its_line(features: Seq<FeatureName>, verbose: bool, i: int)
    ensures
        fetch_lines(features, verbose)[0] == "Downloading "@ + decimal_of(features.len()) + " feature(s)..."@,
        fetch_lines(features, false).len() == 1,
        fetch_lines(features, true).len() == features.len() + 1,
        0 <= i < features.len() ==> fetch_lines(features, true)[i + 1] == "  Feature: "@ + features[i].id@ + " ("@ + (
        features[i].oci_ref@ + ":"@ + features[i].version@ + ")"@),
{
}

/// The order is told only where more is to be said: below a head the features are numbered
/// from one, and those that another feature asked for are marked.
pub proof fn features_are_numbered_from_one(features: Seq<FeatureName>, i: int)
    ensures
        install_lines(features, false).len() == 0,
        install_lines(features, true).len() == features.len() + 1,
        install_lines(features, true)[0] == "Feature install order:"@,
        0 <= i < features.len() && features[i].is_dependency ==> install_lines(features, true)[i + 1] == "  "@
            + decimal_of((i + 1) as nat) + ": "@ + (features[i].id@ + " (dependency)"@),
        0 <= i < features.len() && !features[i].is_dependency ==> install_lines(features, true)[i + 1] == "  "@
            + decimal_of((i + 1) as nat) + ": "@ + features[i].id@,
{
    reveal_strlit("");
    if 0 <= i < features.len() && !features[i].is_dependency {
        assert(features[i].id@ + ""@ =~= features[i].id@);
    }
}

} // verus!
