//! What becomes of a container that is already there.
use vstd::prelude::*;

use crate::model::ContainerInfo;
use crate::up::flow::{Notice, RunAs, Stage, Up, UpAction, UpEvent, UpRequest};
use crate::up::flow_laws::images::{answered, still_answered};
use crate::up::flow_laws::{after, following, in_turn, in_turn_before, step_of};

verus! {

/// The container says which configuration file it was made for.
pub open spec fn names_its_file(c: ContainerInfo) -> bool {
    exists|p: int| 0 <= p < c.labels@.len() && #[trigger] c.labels@[p].0@ == "devcontainer.config_file"@
}

/// The container is the first of the listing that does not say which configuration
/// file it was made for.
pub open spec fn first_without_a_file(found: Seq<ContainerInfo>, c: ContainerInfo) -> bool {
    exists|k: int|
        {
            &&& 0 <= k < found.len()
            &&& #[trigger] found[k] == c
            &&& !names_its_file(c)
            &&& forall|j: int| 0 <= j < k ==> names_its_file(#[trigger] found[j])
        }
}

/// The container is the workspace's, by the answer to a listing: the first of those
/// with all of its labels, or, of those with the first label alone, the first that
/// does not say which configuration file it was made for.
pub open spec fn taken_from(action: UpAction, event: UpEvent, c: ContainerInfo) -> bool {
    event matches UpEvent::Listed(found) && match action {
        UpAction::ListByLabels => found@.len() > 0 && found@[0] == c,
        UpAction::ListByFolder => first_without_a_file(found@, c),
        _ => false,
    }
}

/// The workspace's container was found, and it was this.
#[verifier::opaque]
pub open spec fn taken(req: UpRequest, events: Seq<UpEvent>, c: ContainerInfo) -> bool {
    exists|a: UpAction, e: UpEvent| #[trigger] answered(req, events, a, e) && taken_from(a, e, c)
}

/// Commands are run as the user that was found for the image, and in the folder that
/// was found for the user.
pub open spec fn run_as_found(req: UpRequest, events: Seq<UpEvent>, image: String, run_as: RunAs) -> bool {
    &&& answered(req, events, UpAction::ResolveUser(image), UpEvent::UserFound(run_as.user))
    &&& answered(req, events, UpAction::ResolveWorkdir(run_as.user), UpEvent::FolderFound(run_as.workdir))
}

/// Nothing asks for a new container.
pub open spec fn may_stay(req: UpRequest) -> bool {
    !req.rebuild && !req.port_overrides
}

/// The workspace's container was running, and passed the readiness checks as it was.
#[verifier::opaque]
pub open spec fn used_as_it_was(req: UpRequest, events: Seq<UpEvent>, name: String) -> bool {
    exists|c: ContainerInfo, run_as: RunAs|
        #![trigger taken(req, events, c), run_as_found(req, events, c.image, run_as)]
        {
            &&& taken(req, events, c)
            &&& c.state is Running
            &&& c.name == name
            &&& run_as_found(req, events, c.image, run_as)
            &&& answered(req, events, UpAction::VerifyUsable(c.id, run_as), UpEvent::Done)
        }
}

/// The workspace's container was stopped, was started, and passed the readiness checks.
#[verifier::opaque]
pub open spec fn checked_again(req: UpRequest, events: Seq<UpEvent>, c: ContainerInfo, run_as: RunAs) -> bool {
    &&& taken(req, events, c)
    &&& c.state is Stopped
    &&& answered(req, events, UpAction::StartContainer(c.id), UpEvent::Done)
    &&& run_as_found(req, events, c.image, run_as)
    &&& answered(req, events, UpAction::VerifyUsable(c.id, run_as), UpEvent::Done)
}

/// The workspace's container was stopped, was started, passed the readiness checks,
/// and had its start-time hooks run.
#[verifier::opaque]
pub open spec fn started_again(req: UpRequest, events: Seq<UpEvent>, name: String) -> bool {
    exists|c: ContainerInfo, run_as: RunAs|
        #[trigger] checked_again(req, events, c, run_as) && c.name == name && answered(
            req,
            events,
            UpAction::RunStartHooks(c.id, run_as),
            UpEvent::Done,
        )
}

/// The workspace's container of this id is to be replaced.
#[verifier::opaque]
pub open spec fn to_be_replaced(req: UpRequest, events: Seq<UpEvent>, id: String) -> bool {
    exists|c: ContainerInfo| #[trigger]
        taken(req, events, c) && c.id == id && (!may_stay(req) || c.state is Other) && (c.state is Running ==> answered(
            req,
            events,
            UpAction::StopContainer(id),
            UpEvent::Done,
        ))
}

spec fn existing_record(req: UpRequest, events: Seq<UpEvent>, stage: Stage, action: UpAction, c: ContainerInfo) -> bool {
    match stage {
        Stage::ReuseUser { id, name } => taken(req, events, c) && c.state is Running && c.id == id && c.name == name
            && may_stay(req) && action == UpAction::ResolveUser(c.image),
        Stage::ReuseFolder { id, name, user } => taken(req, events, c) && c.state is Running && c.id == id && c.name
            == name && answered(req, events, UpAction::ResolveUser(c.image), UpEvent::UserFound(user)) && action
            == UpAction::ResolveWorkdir(user),
        Stage::ReuseVerify { id, name, run_as } => taken(req, events, c) && c.state is Running && c.id == id && c.name
            == name && run_as_found(req, events, c.image, run_as) && action == UpAction::VerifyUsable(id, run_as),
        Stage::ReuseRoutes { name } => used_as_it_was(req, events, name) && action is RegisterRoutes,
        Stage::RestartStart { id, name, image } => taken(req, events, c) && c.state is Stopped && c.id == id && c.name
            == name && c.image == image && may_stay(req) && action == UpAction::StartContainer(id),
        Stage::RestartUser { id, name } => taken(req, events, c) && c.state is Stopped && c.id == id && c.name == name
            && answered(req, events, UpAction::StartContainer(id), UpEvent::Done) && action == UpAction::ResolveUser(
            c.image,
        ),
        Stage::RestartFolder { id, name, user } => taken(req, events, c) && c.state is Stopped && c.id == id && c.name
            == name && answered(req, events, UpAction::StartContainer(id), UpEvent::Done) && answered(
            req,
            events,
            UpAction::ResolveUser(c.image),
            UpEvent::UserFound(user),
        ) && action == UpAction::ResolveWorkdir(user),
        Stage::RestartVerify { id, name, run_as } => taken(req, events, c) && c.state is Stopped && c.id == id
            && c.name == name && answered(req, events, UpAction::StartContainer(id), UpEvent::Done) && run_as_found(
            req,
            events,
            c.image,
            run_as,
        ) && action == UpAction::VerifyUsable(id, run_as),
        Stage::RestartHooks { name } => action is RunStartHooks && action == UpAction::RunStartHooks(
            c.id,
            action->RunStartHooks_1,
        ) && c.name == name && checked_again(req, events, c, action->RunStartHooks_1),
        Stage::RestartRoutes { name } => started_again(req, events, name) && action is RegisterRoutes,
        Stage::Stop { id } => taken(req, events, c) && c.state is Running && c.id == id && !may_stay(req) && action
            == UpAction::StopContainer(id),
        Stage::Remove => action is RemoveContainer && to_be_replaced(req, events, action->RemoveContainer_0),
        Stage::ListByLabels => action is ListByLabels,
        Stage::ListByFolder => action is ListByFolder,
        _ => true,
    }
}

proof fn labels_name_the_file(c: ContainerInfo)
    ensures
        crate::assoc::pair_map(c.labels@).contains_key("devcontainer.config_file"@) <==> names_its_file(c),
{
    crate::assoc::pair_map_has(c.labels@, "devcontainer.config_file"@);
}

proof fn first_is_without_a_file(found: Seq<ContainerInfo>)
    ensures
        ({
            let i = crate::up::flow::first_unlabelled(found);
            &&& 0 <= i <= found.len()
            &&& forall|j: int| 0 <= j < i ==> names_its_file(#[trigger] found[j])
            &&& i < found.len() ==> !names_its_file(found[i])
        }),
    decreases found.len(),
{
    if found.len() > 0 {
        let rest = found.drop_first();
        labels_name_the_file(found[0]);
        first_is_without_a_file(rest);
        let i = crate::up::flow::first_unlabelled(found);
        if i > 0 {
            assert forall|j: int| 0 <= j < i implies names_its_file(#[trigger] found[j]) by {
                if j > 0 {
                    assert(rest[j - 1] == found[j]);
                }
            }
            if i < found.len() {
                assert(rest[i - 1] == found[i]);
            }
        }
    }
}

/// What the listing of a stage shows.
spec fn listed_at(stage: Stage, event: UpEvent, c: ContainerInfo) -> bool {
    ||| stage is ListByLabels && taken_from(UpAction::ListByLabels, event, c)
    ||| stage is ListByFolder && taken_from(UpAction::ListByFolder, event, c)
}

/// The container that the event shows to be the workspace's.
spec fn shown(stage: Stage, event: UpEvent) -> ContainerInfo {
    let found = event->Listed_0@;
    if stage is ListByLabels {
        found[0]
    } else {
        found[crate::up::flow::first_unlabelled(found)]
    }
}

proof fn existing_step(req: UpRequest, up: Up, event: UpEvent)
    requires
        crate::up::flow::fits(up.stage, event),
    ensures
        ({
            let (next, step) = following(req, up, event);
            let c = shown(up.stage, event);
            &&& match next.stage {
                Stage::ReuseUser { id, name } => listed_at(up.stage, event, c) && c.state is Running && c.id == id
                    && c.name == name && may_stay(req) && step.action == UpAction::ResolveUser(c.image),
                Stage::RestartStart { id, name, image } => listed_at(up.stage, event, c) && c.state is Stopped
                    && c.id == id && c.name == name && c.image == image && may_stay(req) && step.action
                    == UpAction::StartContainer(id),
                Stage::Stop { id } => listed_at(up.stage, event, c) && c.state is Running && c.id == id && !may_stay(
                    req,
                ) && step.action == UpAction::StopContainer(id),
                Stage::Remove => step.action is RemoveContainer && (listed_at(up.stage, event, c) && !(
                c.state is Running) && (!may_stay(req) || c.state is Other) && step.action == UpAction::RemoveContainer(
                    c.id,
                ) || up.stage is Stop && event is Done && step.action == UpAction::RemoveContainer(
                    up.stage->Stop_id,
                )),
                Stage::ReuseFolder { id, name, user } => up.stage == (Stage::ReuseUser { id, name }) && event
                    == UpEvent::UserFound(user) && step.action == UpAction::ResolveWorkdir(user),
                Stage::RestartUser { id, name } => up.stage is RestartStart && up.stage->RestartStart_id == id
                    && up.stage->RestartStart_name == name && event is Done && step.action == UpAction::ResolveUser(
                    up.stage->RestartStart_image,
                ),
                Stage::RestartFolder { id, name, user } => up.stage == (Stage::RestartUser { id, name }) && event
                    == UpEvent::UserFound(user) && step.action == UpAction::ResolveWorkdir(user),
                Stage::ReuseVerify { id, name, run_as } => up.stage == (Stage::ReuseFolder {
                    id,
                    name,
                    user: run_as.user,
                }) && event == UpEvent::FolderFound(run_as.workdir) && step.action == UpAction::VerifyUsable(
                    id,
                    run_as,
                ),
                Stage::RestartVerify { id, name, run_as } => up.stage == (Stage::RestartFolder {
                    id,
                    name,
                    user: run_as.user,
                }) && event == UpEvent::FolderFound(run_as.workdir) && step.action == UpAction::VerifyUsable(
                    id,
                    run_as,
                ),
                Stage::ReuseRoutes { name } => up.stage is ReuseVerify && up.stage->ReuseVerify_name == name
                    && event is Done && step.action is RegisterRoutes,
                Stage::RestartHooks { name } => up.stage is RestartVerify && up.stage->RestartVerify_name == name
                    && event is Done && step.action == UpAction::RunStartHooks(
                    up.stage->RestartVerify_id,
                    up.stage->RestartVerify_run_as,
                ),
                Stage::RestartRoutes { name } => up.stage == (Stage::RestartHooks { name }) && event is Done
                    && step.action is RegisterRoutes,
                Stage::ListByLabels => step.action is ListByLabels,
                Stage::ListByFolder => step.action is ListByFolder,
                _ => true,
            }
            &&& step.notice matches Some(notice) ==> match notice {
                Notice::AlreadyRunning(name) => up.stage == (Stage::ReuseRoutes { name }),
                Notice::Started(name) => up.stage == (Stage::RestartRoutes { name }),
                _ => true,
            }
            &&& step.action is StopContainer ==> next.stage is Stop
            &&& step.action is RemoveContainer ==> next.stage is Remove
            &&& step.action is RunStartHooks ==> next.stage is RestartHooks
        }),
{
    reveal(following);
    if let UpEvent::Listed(found) = event {
        first_is_without_a_file(found@);
        let i = crate::up::flow::first_unlabelled(found@);
        if i < found@.len() {
            assert(first_without_a_file(found@, found@[i]));
        }
    }
}

proof fn still_taken(req: UpRequest, events: Seq<UpEvent>)
    requires
        events.len() > 0,
    ensures
        forall|c: ContainerInfo| #[trigger] taken(req, events.drop_last(), c) ==> taken(req, events, c),
        forall|c: ContainerInfo|
            events.len() > 1 && taken_from(step_of(req, events.drop_last()).action, events.last(), c)
                ==> #[trigger] taken(req, events, c),
        forall|name: String| #[trigger]
            used_as_it_was(req, events.drop_last(), name) ==> used_as_it_was(req, events, name),
        forall|c: ContainerInfo, run_as: RunAs| #[trigger]
            checked_again(req, events.drop_last(), c, run_as) ==> checked_again(req, events, c, run_as),
        forall|name: String| #[trigger]
            started_again(req, events.drop_last(), name) ==> started_again(req, events, name),
        forall|id: String| #[trigger]
            to_be_replaced(req, events.drop_last(), id) ==> to_be_replaced(req, events, id),
{
    still_answered(req, events);
    let rest = events.drop_last();
    assert forall|c: ContainerInfo| #[trigger] taken(req, rest, c) implies taken(req, events, c) by {
        reveal(taken);
        let (a, e) = choose|a: UpAction, e: UpEvent| #[trigger] answered(req, rest, a, e) && taken_from(a, e, c);
        assert(answered(req, events, a, e));
    }
    assert forall|c: ContainerInfo|
        events.len() > 1 && taken_from(step_of(req, rest).action, events.last(), c) implies #[trigger] taken(
        req,
        events,
        c,
    ) by {
        reveal(taken);
        assert(answered(req, events, step_of(req, rest).action, events.last()));
    }
    assert forall|name: String| #[trigger] used_as_it_was(req, rest, name) implies used_as_it_was(
        req,
        events,
        name,
    ) by {
        reveal(used_as_it_was);
        let (c, run_as) = choose|c: ContainerInfo, run_as: RunAs|
            #![trigger taken(req, rest, c), run_as_found(req, rest, c.image, run_as)]
            {
                &&& taken(req, rest, c)
                &&& c.state is Running
                &&& c.name == name
                &&& run_as_found(req, rest, c.image, run_as)
                &&& answered(req, rest, UpAction::VerifyUsable(c.id, run_as), UpEvent::Done)
            };
        assert(taken(req, events, c) && run_as_found(req, events, c.image, run_as));
    }
    assert forall|c: ContainerInfo, run_as: RunAs| #[trigger] checked_again(req, rest, c, run_as) implies checked_again(
        req,
        events,
        c,
        run_as,
    ) by {
        reveal(checked_again);
    }
    assert forall|name: String| #[trigger] started_again(req, rest, name) implies started_again(req, events, name) by {
        reveal(started_again);
        let (c, run_as) = choose|c: ContainerInfo, run_as: RunAs|
            #[trigger] checked_again(req, rest, c, run_as) && c.name == name && answered(
                req,
                rest,
                UpAction::RunStartHooks(c.id, run_as),
                UpEvent::Done,
            );
        assert(checked_again(req, events, c, run_as));
    }
    assert forall|id: String| #[trigger] to_be_replaced(req, rest, id) implies to_be_replaced(req, events, id) by {
        reveal(to_be_replaced);
        let c = choose|c: ContainerInfo| #[trigger]
            taken(req, rest, c) && c.id == id && (!may_stay(req) || c.state is Other) && (c.state is Running
                ==> answered(req, rest, UpAction::StopContainer(id), UpEvent::Done));
        assert(taken(req, events, c));
    }
}

/// What a stage speaks of is accounted for by some container.
#[verifier::opaque]
spec fn accounted(req: UpRequest, events: Seq<UpEvent>, stage: Stage, action: UpAction) -> bool {
    exists|c: ContainerInfo| #[trigger] existing_record(req, events, stage, action, c)
}

proof fn one_accounts(req: UpRequest, events: Seq<UpEvent>, stage: Stage, action: UpAction, c: ContainerInfo)
    requires
        existing_record(req, events, stage, action, c),
    ensures
        accounted(req, events, stage, action),
{
    reveal(accounted);
}

proof fn some_account(req: UpRequest, events: Seq<UpEvent>, stage: Stage, action: UpAction) -> (c: ContainerInfo)
    requires
        accounted(req, events, stage, action),
    ensures
        existing_record(req, events, stage, action, c),
{
    reveal(accounted);
    choose|c: ContainerInfo| #[trigger] existing_record(req, events, stage, action, c)
}

#[verifier::rlimit(60)]
proof fn existing_invariant(req: UpRequest, events: Seq<UpEvent>)
    requires
        in_turn(req, events),
    ensures
        accounted(req, events, after(req, events).stage, step_of(req, events).action),
    decreases events.len(),
{
    let stage = after(req, events).stage;
    let action = step_of(req, events).action;
    if events.len() == 0 {
        one_accounts(req, events, stage, action, arbitrary());
    } else {
        let rest = events.drop_last();
        let up = after(req, rest);
        let event = events.last();
        in_turn_before(req, events);
        existing_invariant(req, rest);
        let before = some_account(req, rest, up.stage, step_of(req, rest).action);
        existing_step(req, up, event);
        still_answered(req, events);
        still_taken(req, events);
        if rest.len() == 0 {
            assert(up.stage is Start);
            one_accounts(req, events, stage, action, before);
        } else {
            let asked = step_of(req, rest).action;
            assert(answered(req, events, asked, event));
            let c = shown(up.stage, event);
            if listed_at(up.stage, event, c) {
                assert(taken(req, events, c));
                if stage is Remove && up.stage !is Stop {
                    reveal(to_be_replaced);
                    assert(to_be_replaced(req, events, c.id));
                }
                one_accounts(req, events, stage, action, c);
            } else {
                if stage is Remove {
                    reveal(to_be_replaced);
                    assert(taken(req, events, before));
                    assert(to_be_replaced(req, events, before.id));
                }
                if let Stage::ReuseRoutes { name } = stage {
                    reveal(used_as_it_was);
                    let run_as = up.stage->ReuseVerify_run_as;
                    assert(taken(req, events, before) && run_as_found(req, events, before.image, run_as));
                    assert(used_as_it_was(req, events, name));
                }
                if stage is RestartHooks {
                    reveal(checked_again);
                    let run_as = up.stage->RestartVerify_run_as;
                    assert(checked_again(req, events, before, run_as));
                }
                if let Stage::RestartRoutes { name } = stage {
                    reveal(started_again);
                    assert(checked_again(req, events, before, asked->RunStartHooks_1));
                    assert(started_again(req, events, name));
                }
                one_accounts(req, events, stage, action, before);
            }
        }
    }
}

/// A container is said to be running already only where the workspace's own container
/// was found running and passed the readiness checks; it is said to be started only
/// where the workspace's own container was found stopped, was started, passed them and
/// had its start-time hooks run.
pub proof fn a_container_is_used_again_as_it_was_found(req: UpRequest, events: Seq<UpEvent>)
    requires
        in_turn(req, events),
        events.len() > 0,
    ensures
        step_of(req, events).notice matches Some(notice) ==> match notice {
            Notice::AlreadyRunning(name) => used_as_it_was(req, events, name),
            Notice::Started(name) => started_again(req, events, name),
            _ => true,
        },
{
    let rest = events.drop_last();
    let up = after(req, rest);
    in_turn_before(req, events);
    existing_invariant(req, rest);
    let c = some_account(req, rest, up.stage, step_of(req, rest).action);
    existing_step(req, up, events.last());
    still_taken(req, events);
}

/// Only the workspace's own container is ever stopped or removed, and only where a new
/// one was asked for or the one there is neither running nor stopped; one that runs is
/// stopped first.
pub proof fn only_the_workspaces_container_is_replaced(req: UpRequest, events: Seq<UpEvent>)
    requires
        in_turn(req, events),
        events.len() > 0,
    ensures
        match step_of(req, events).action {
            UpAction::StopContainer(id) => !may_stay(req) && exists|c: ContainerInfo| #[trigger]
                taken(req, events, c) && c.id == id && c.state is Running,
            UpAction::RemoveContainer(id) => to_be_replaced(req, events, id),
            _ => true,
        },
{
    let rest = events.drop_last();
    in_turn_before(req, events);
    existing_invariant(req, events);
    let c = some_account(req, events, after(req, events).stage, step_of(req, events).action);
    existing_step(req, after(req, rest), events.last());
}

proof fn existing_stages(req: UpRequest, up: Up, event: UpEvent)
    requires
        crate::up::flow::fits(up.stage, event),
    ensures
        ({
            let (next, step) = following(req, up, event);
            &&& step.action is ListByLabels ==> next.stage is ListByLabels
            &&& step.action is ListByFolder ==> next.stage is ListByFolder
            &&& step.action matches UpAction::StopContainer(id) ==> next.stage == (Stage::Stop { id })
            &&& step.action is RemoveContainer ==> next.stage is Remove
            &&& step.action is RunStartHooks ==> next.stage is RestartHooks
        }),
{
    reveal(following);
}

/// What the listings lead to. A container of the workspace that is running or stopped
/// stays, where nothing asks for a new one: the first is used as it is, and the second
/// is started. Any other is replaced. Where the listing by all labels shows none, the
/// listing by the first label follows, if there are more labels than that; and where no
/// listing shows one, a new one is made.
pub proof fn what_a_listing_leads_to(req: UpRequest, events: Seq<UpEvent>)
    requires
        in_turn(req, events),
        events.len() > 1,
    ensures
        ({
            let asked = step_of(req, events.drop_last()).action;
            let next = step_of(req, events).action;
            &&& forall|c: ContainerInfo| #[trigger]
                taken_from(asked, events.last(), c) ==> next == if may_stay(req) && c.state is Running {
                    UpAction::ResolveUser(c.image)
                } else if may_stay(req) && c.state is Stopped {
                    UpAction::StartContainer(c.id)
                } else if c.state is Running {
                    UpAction::StopContainer(c.id)
                } else {
                    UpAction::RemoveContainer(c.id)
                }
            &&& forall|c: ContainerInfo| #[trigger]
                taken_from(asked, events.last(), c) ==> step_of(req, events).notice == if req.rebuild {
                    Some(Notice::RemovingExisting(c.name))
                } else if req.port_overrides {
                    Some(Notice::RecreatingForPorts(c.name))
                } else if c.state is Stopped {
                    Some(Notice::StartingExisting(c.name))
                } else {
                    None
                }
            &&& asked is ListByLabels && events.last() is Listed && (forall|c: ContainerInfo|
                !#[trigger] taken_from(asked, events.last(), c)) ==> next == if req.labels@.len() > 1 {
                UpAction::ListByFolder
            } else {
                UpAction::ResolveFeatures
            }
            &&& asked is ListByFolder && events.last() is Listed && (forall|c: ContainerInfo|
                !#[trigger] taken_from(asked, events.last(), c)) ==> next == UpAction::ResolveFeatures
            &&& asked is StopContainer && events.last() is Done ==> next == UpAction::RemoveContainer(
                asked->StopContainer_0,
            )
            &&& asked is RemoveContainer && events.last() is Done ==> next == UpAction::ResolveFeatures
            &&& asked is RunStartHooks && events.last() is Done ==> next == UpAction::RegisterRoutes
        }),
{
    let rest = events.drop_last();
    in_turn_before(req, events);
    in_turn_before(req, rest);
    existing_stages(req, after(req, rest.drop_last()), rest.last());
    reveal(following);
    if let UpEvent::Listed(found) = events.last() {
        let asked = step_of(req, rest).action;
        first_is_without_a_file(found@);
        let i = crate::up::flow::first_unlabelled(found@);
        if asked is ListByLabels && found@.len() > 0 {
            assert(taken_from(asked, events.last(), found@[0]));
        }
        if asked is ListByFolder && i < found@.len() {
            assert(first_without_a_file(found@, found@[i]));
            assert(taken_from(asked, events.last(), found@[i]));
        }
        assert forall|c: ContainerInfo| asked is ListByFolder && #[trigger] taken_from(asked, events.last(), c) implies i
            < found@.len() && c == found@[i] by {
            let k = choose|k: int|
                {
                    &&& 0 <= k < found@.len()
                    &&& #[trigger] found@[k] == c
                    &&& !names_its_file(c)
                    &&& forall|j: int| 0 <= j < k ==> names_its_file(#[trigger] found@[j])
                };
            assert(found@[k] == c);
            if k < i {
                assert(names_its_file(found@[k]));
            } else if i < k {
                assert(names_its_file(found@[i]));
            }
        }
    }
}

} // verus!
