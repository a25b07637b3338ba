//! What is done to a new container, and in what order.
use vstd::prelude::*;

use crate::up::flow::{Notice, RunAs, Stage, Up, UpAction, UpEvent, UpRequest};
use crate::up::flow_laws::images::{answered, still_answered};
use crate::up::flow_laws::{after, following, in_turn, in_turn_before, step_of};

verus! {

/// A container of this id was created, for commands run like this, after it was said
/// which mounts it goes without.
#[verifier::opaque]
pub open spec fn made(req: UpRequest, events: Seq<UpEvent>, id: String, run_as: RunAs) -> bool {
    exists|image: String| #[trigger]
        answered(req, events, UpAction::CreateContainer(image, run_as), UpEvent::Created(id))
}

/// The container was started, and then passed the readiness checks.
pub open spec fn brought_up(req: UpRequest, events: Seq<UpEvent>, id: String, run_as: RunAs) -> bool {
    &&& answered(req, events, UpAction::StartContainer(id), UpEvent::Done)
    &&& answered(req, events, UpAction::VerifyUsable(id, run_as), UpEvent::Done)
}

/// A new container was made and brought up, its hooks were run, and its dotfiles
/// installed, where there are any: all of it to the same container, with commands run
/// in the same way.
#[verifier::opaque]
pub open spec fn set_up(req: UpRequest, events: Seq<UpEvent>) -> bool {
    exists|id: String, run_as: RunAs|
        {
            &&& #[trigger] made(req, events, id, run_as)
            &&& brought_up(req, events, id, run_as)
            &&& answered(req, events, UpAction::RunCreateHooks(id, run_as), UpEvent::Done)
            &&& req.config.dotfiles is Some ==> answered(
                req,
                events,
                UpAction::InstallDotfiles(id, run_as.user),
                UpEvent::Done,
            )
        }
}

/// The same, but for the dotfiles, which are being installed.
#[verifier::opaque]
spec fn dotfiles_pending(req: UpRequest, events: Seq<UpEvent>, action: UpAction) -> bool {
    exists|id: String, run_as: RunAs|
        {
            &&& #[trigger] made(req, events, id, run_as)
            &&& brought_up(req, events, id, run_as)
            &&& answered(req, events, UpAction::RunCreateHooks(id, run_as), UpEvent::Done)
            &&& action == UpAction::InstallDotfiles(id, run_as.user)
        }
}

spec fn creation_record(req: UpRequest, events: Seq<UpEvent>, stage: Stage, action: UpAction) -> bool {
    match stage {
        Stage::CreateUser { image } => action == UpAction::ResolveUser(image),
        Stage::Mounts { user, .. } => action == UpAction::WarnOfMounts(user),
        Stage::CreateFolder { user, .. } => action == UpAction::ResolveWorkdir(user) && answered(
            req,
            events,
            UpAction::WarnOfMounts(user),
            UpEvent::Done,
        ),
        Stage::Create { run_as } => action is CreateContainer && action == UpAction::CreateContainer(
            action->CreateContainer_0,
            run_as,
        ) && answered(req, events, UpAction::WarnOfMounts(run_as.user), UpEvent::Done) && answered(
            req,
            events,
            UpAction::ResolveWorkdir(run_as.user),
            UpEvent::FolderFound(run_as.workdir),
        ),
        Stage::CreateStart { id, run_as } => made(req, events, id, run_as) && action == UpAction::StartContainer(id),
        Stage::CreateVerify { id, run_as } => made(req, events, id, run_as) && answered(
            req,
            events,
            UpAction::StartContainer(id),
            UpEvent::Done,
        ) && action == UpAction::VerifyUsable(id, run_as),
        Stage::CreateHooks { id, run_as } => made(req, events, id, run_as) && brought_up(req, events, id, run_as)
            && action == UpAction::RunCreateHooks(id, run_as),
        Stage::Dotfiles => req.config.dotfiles is Some && dotfiles_pending(req, events, action),
        Stage::Sites => set_up(req, events),
        _ => true,
    }
}

proof fn creation_step(req: UpRequest, up: Up, event: UpEvent)
    requires
        crate::up::flow::fits(up.stage, event),
    ensures
        ({
            let (next, step) = following(req, up, event);
            &&& match next.stage {
                Stage::CreateUser { image } => step.action == UpAction::ResolveUser(image),
                Stage::Mounts { user, .. } => step.action == UpAction::WarnOfMounts(user),
                Stage::CreateFolder { image, user } => up.stage == (Stage::Mounts { image, user }) && event is Done
                    && step.action == UpAction::ResolveWorkdir(user),
                Stage::Create { run_as } => up.stage is CreateFolder && up.stage->CreateFolder_user == run_as.user
                    && event == UpEvent::FolderFound(run_as.workdir) && step.action == UpAction::CreateContainer(
                    up.stage->CreateFolder_image,
                    run_as,
                ),
                Stage::CreateStart { id, run_as } => up.stage == (Stage::Create { run_as }) && event
                    == UpEvent::Created(id) && step.action == UpAction::StartContainer(id),
                Stage::CreateVerify { id, run_as } => up.stage == (Stage::CreateStart { id, run_as }) && event is Done
                    && step.action == UpAction::VerifyUsable(id, run_as),
                Stage::CreateHooks { id, run_as } => up.stage == (Stage::CreateVerify { id, run_as }) && event is Done
                    && step.action == UpAction::RunCreateHooks(id, run_as),
                Stage::Dotfiles => up.stage is CreateHooks && event is Done && req.config.dotfiles is Some
                    && step.action == UpAction::InstallDotfiles(
                    up.stage->CreateHooks_id,
                    up.stage->CreateHooks_run_as.user,
                ),
                Stage::Sites => event is Done && (up.stage is CreateHooks && req.config.dotfiles is None
                    || up.stage is Dotfiles),
                _ => true,
            }
            &&& step.notice matches Some(Notice::Ready(name)) ==> {
                &&& name == req.name
                &&& event is Done
                &&& up.stage is CreateHooks && req.config.dotfiles is None || up.stage is Dotfiles
                &&& step.action == if req.config.forward_ports is Some && req.config.forward_ports->Some_0@.len()
                    > 0 {
                    UpAction::RegisterSites
                } else {
                    UpAction::Finish
                }
            }
            &&& step.action is RegisterSites ==> step.notice is Some && step.notice->Some_0 is Ready
            &&& step.action is RunCreateHooks ==> next.stage is CreateHooks
            &&& step.action is CreateContainer ==> next.stage is Create
            &&& step.action is InstallDotfiles ==> next.stage is Dotfiles
            &&& event is Done && (up.stage is CreateHooks && req.config.dotfiles is None || up.stage is Dotfiles)
                ==> step.notice == Some(Notice::Ready(req.name))
        }),
{
    reveal(following);
}

proof fn still_made(req: UpRequest, events: Seq<UpEvent>)
    requires
        events.len() > 0,
    ensures
        forall|id: String, run_as: RunAs| #[trigger]
            made(req, events.drop_last(), id, run_as) ==> made(req, events, id, run_as),
        set_up(req, events.drop_last()) ==> set_up(req, events),
{
    still_answered(req, events);
    let rest = events.drop_last();
    assert forall|id: String, run_as: RunAs| #[trigger] made(req, rest, id, run_as) implies made(
        req,
        events,
        id,
        run_as,
    ) by {
        reveal(made);
        let image = choose|image: String| #[trigger]
            answered(req, rest, UpAction::CreateContainer(image, run_as), UpEvent::Created(id));
        assert(answered(req, events, UpAction::CreateContainer(image, run_as), UpEvent::Created(id)));
    }
    if set_up(req, rest) {
        reveal(set_up);
        let (id, run_as) = choose|id: String, run_as: RunAs|
            {
                &&& #[trigger] made(req, rest, id, run_as)
                &&& brought_up(req, rest, id, run_as)
                &&& answered(req, rest, UpAction::RunCreateHooks(id, run_as), UpEvent::Done)
                &&& req.config.dotfiles is Some ==> answered(
                    req,
                    rest,
                    UpAction::InstallDotfiles(id, run_as.user),
                    UpEvent::Done,
                )
            };
        assert(made(req, events, id, run_as));
    }
}

/// What ends the making of a container leaves it set up.
proof fn is_set_up(req: UpRequest, events: Seq<UpEvent>)
    requires
        events.len() > 1,
        ({
            let stage = after(req, events.drop_last()).stage;
            stage is CreateHooks && req.config.dotfiles is None || stage is Dotfiles
        }),
        creation_record(
            req,
            events.drop_last(),
            after(req, events.drop_last()).stage,
            step_of(req, events.drop_last()).action,
        ),
        events.last() is Done,
    ensures
        set_up(req, events),
{
    let rest = events.drop_last();
    still_answered(req, events);
    still_made(req, events);
    reveal(set_up);
    match after(req, rest).stage {
        Stage::CreateHooks { id, run_as } => {
            assert(made(req, events, id, run_as));
        },
        _ => {
            reveal(dotfiles_pending);
            let action = step_of(req, rest).action;
            let (id, run_as) = choose|id: String, run_as: RunAs|
                {
                    &&& #[trigger] made(req, rest, id, run_as)
                    &&& brought_up(req, rest, id, run_as)
                    &&& answered(req, rest, UpAction::RunCreateHooks(id, run_as), UpEvent::Done)
                    &&& action == UpAction::InstallDotfiles(id, run_as.user)
                };
            assert(made(req, events, id, run_as));
        },
    }
}

#[verifier::rlimit(40)]
proof fn creation_invariant(req: UpRequest, events: Seq<UpEvent>)
    requires
        in_turn(req, events),
    ensures
        creation_record(req, events, after(req, events).stage, step_of(req, events).action),
    decreases events.len(),
{
    if events.len() > 0 {
        let rest = events.drop_last();
        let stage = after(req, rest).stage;
        let event = events.last();
        in_turn_before(req, events);
        creation_invariant(req, rest);
        creation_step(req, after(req, rest), event);
        still_answered(req, events);
        still_made(req, events);
        if rest.len() > 0 {
            let action = step_of(req, rest).action;
            assert(answered(req, events, action, event));
            match after(req, events).stage {
                Stage::CreateStart { id, run_as } => {
                    assert(answered(
                        req,
                        events,
                        UpAction::CreateContainer(action->CreateContainer_0, run_as),
                        UpEvent::Created(id),
                    ));
                    reveal(made);
                },
                Stage::Dotfiles => {
                    let id = stage->CreateHooks_id;
                    let run_as = stage->CreateHooks_run_as;
                    assert(made(req, events, id, run_as));
                    reveal(dotfiles_pending);
                },
                Stage::Sites => {
                    is_set_up(req, events);
                },
                _ => {},
            }
        }
    }
}

/// A new container is said to be ready only once one and the same container was
/// created, was started, passed the readiness checks, had its hooks run, and had its
/// dotfiles installed, where there are any; it is said under the workspace's name, and
/// sites are registered next exactly where the project forwards ports.
pub proof fn what_is_ready_was_set_up(req: UpRequest, events: Seq<UpEvent>)
    requires
        in_turn(req, events),
        events.len() > 0,
    ensures
        step_of(req, events).notice matches Some(Notice::Ready(name)) ==> {
            &&& name == req.name
            &&& set_up(req, events)
            &&& step_of(req, events).action == if req.config.forward_ports is Some
                && req.config.forward_ports->Some_0@.len() > 0 {
                UpAction::RegisterSites
            } else {
                UpAction::Finish
            }
        },
        step_of(req, events).action is RegisterSites ==> step_of(req, events).notice is Some && step_of(
            req,
            events,
        ).notice->Some_0 is Ready,
{
    let rest = events.drop_last();
    in_turn_before(req, events);
    creation_invariant(req, rest);
    creation_step(req, after(req, rest), events.last());
    if step_of(req, events).notice is Some && step_of(req, events).notice->Some_0 is Ready {
        assert(rest.len() > 0);
        is_set_up(req, events);
    }
}

/// Create-time hooks are run only in a container that was created, started and found
/// to be usable, in the way that it was created for; and dotfiles are installed only
/// where the project has some, and only after those hooks.
pub proof fn hooks_follow_creation(req: UpRequest, events: Seq<UpEvent>)
    requires
        in_turn(req, events),
        events.len() > 0,
    ensures
        match step_of(req, events).action {
            UpAction::RunCreateHooks(id, run_as) => made(req, events, id, run_as) && brought_up(
                req,
                events,
                id,
                run_as,
            ),
            UpAction::InstallDotfiles(id, user) => req.config.dotfiles is Some && exists|run_as: RunAs| #[trigger]
                answered(req, events, UpAction::RunCreateHooks(id, run_as), UpEvent::Done) && run_as.user == user,
            UpAction::CreateContainer(image, run_as) => answered(
                req,
                events,
                UpAction::WarnOfMounts(run_as.user),
                UpEvent::Done,
            ),
            _ => true,
        },
{
    let rest = events.drop_last();
    in_turn_before(req, events);
    creation_invariant(req, events);
    creation_step(req, after(req, rest), events.last());
    if let UpAction::InstallDotfiles(id, user) = step_of(req, events).action {
        reveal(dotfiles_pending);
        let (it, run_as) = choose|it: String, run_as: RunAs|
            {
                &&& #[trigger] made(req, events, it, run_as)
                &&& brought_up(req, events, it, run_as)
                &&& answered(req, events, UpAction::RunCreateHooks(it, run_as), UpEvent::Done)
                &&& UpAction::InstallDotfiles(id, user) == UpAction::InstallDotfiles(it, run_as.user)
            };
        assert(answered(req, events, UpAction::RunCreateHooks(id, run_as), UpEvent::Done));
    }
}

/// Each thing that is done to a new container leads to the next: what is created is
/// started, what was started is checked, what passed has its hooks run, and the
/// dotfiles follow where there are any.
pub proof fn how_a_new_container_is_set_up(req: UpRequest, events: Seq<UpEvent>)
    requires
        in_turn(req, events),
        events.len() > 1,
    ensures
        ({
            let next = step_of(req, events).action;
            match (step_of(req, events.drop_last()).action, events.last()) {
                (UpAction::RemapUser(_, user), UpEvent::Remapped(_)) => next == UpAction::WarnOfMounts(user),
                (UpAction::WarnOfMounts(user), UpEvent::Done) => next == UpAction::ResolveWorkdir(user),
                (UpAction::CreateContainer(_, _), UpEvent::Created(id)) => next == UpAction::StartContainer(id),
                (UpAction::RunCreateHooks(id, run_as), UpEvent::Done) => if req.config.dotfiles is Some {
                    next == UpAction::InstallDotfiles(id, run_as.user)
                } else {
                    step_of(req, events).notice == Some(Notice::Ready(req.name))
                },
                (UpAction::InstallDotfiles(_, _), UpEvent::Done) => step_of(req, events).notice == Some(
                    Notice::Ready(req.name),
                ),
                _ => true,
            }
        }),
{
    let rest = events.drop_last();
    in_turn_before(req, events);
    in_turn_before(req, rest);
    creation_invariant(req, rest);
    creation_stages(req, after(req, rest.drop_last()), rest.last());
    reveal(following);
}

proof fn creation_stages(req: UpRequest, up: Up, event: UpEvent)
    requires
        crate::up::flow::fits(up.stage, event),
    ensures
        ({
            let (next, step) = following(req, up, event);
            &&& step.action matches UpAction::RemapUser(_, user) ==> next.stage == (Stage::Remap { user })
            &&& step.action is WarnOfMounts ==> next.stage is Mounts
            &&& step.action is CreateContainer ==> next.stage is Create
            &&& step.action is RunCreateHooks ==> next.stage is CreateHooks
            &&& step.action is InstallDotfiles ==> next.stage is Dotfiles
        }),
{
    reveal(following);
}

} // verus!
