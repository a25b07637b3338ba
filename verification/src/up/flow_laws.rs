//! What holds of every run of `dev up`, whatever comes of what it does.
use vstd::prelude::*;

pub mod creation;
pub mod existing;
pub mod images;
pub mod preparation;

use crate::model::ContainerInfo;
use crate::up::flow::{Failure, Notice, RunAs, Stage, Up, UpAction, UpEvent, UpRequest, UpStep};

verus! {

/// What follows an event: the state and the step that `dev up` goes on with.
#[verifier::opaque]
pub open spec fn following(req: UpRequest, up: Up, event: UpEvent) -> (Up, UpStep) {
    crate::up::flow::up_next(req, up, event)
}

/// The state after a series of events.
pub open spec fn after(req: UpRequest, events: Seq<UpEvent>) -> Up
    decreases events.len(),
{
    if events.len() == 0 {
        crate::up::flow::up_start()
    } else {
        following(req, after(req, events.drop_last()), events.last()).0
    }
}

/// What the last of a series of events called for.
pub open spec fn step_of(req: UpRequest, events: Seq<UpEvent>) -> UpStep {
    following(req, after(req, events.drop_last()), events.last()).1
}

/// Each event is one that was waited for.
pub open spec fn in_turn(req: UpRequest, events: Seq<UpEvent>) -> bool {
    forall|i: int|
        0 <= i < events.len() ==> crate::up::flow::fits(
            after(req, events.take(i)).stage,
            #[trigger] events[i],
        )
}

/// The action called for after the first `i` events was this kind, and it was
/// done.
pub open spec fn done_at(req: UpRequest, events: Seq<UpEvent>, i: int, kind: spec_fn(UpAction) -> bool) -> bool {
    &&& 1 <= i < events.len()
    &&& kind(step_of(req, events.take(i)).action)
    &&& events[i] is Done
}

proof fn in_turn_before(req: UpRequest, events: Seq<UpEvent>)
    requires
        in_turn(req, events),
        events.len() > 0,
    ensures
        in_turn(req, events.drop_last()),
        crate::up::flow::fits(after(req, events.drop_last()).stage, events.last()),
{
    let rest = events.drop_last();
    assert forall|i: int| 0 <= i < rest.len() implies crate::up::flow::fits(
        after(req, rest.take(i)).stage,
        #[trigger] rest[i],
    ) by {
        assert(events[i] == rest[i]);
        assert(rest.take(i) == events.take(i));
    }
    assert(events.take(events.len() - 1) == rest);
    assert(events[events.len() - 1] == events.last());
}

proof fn done_before(req: UpRequest, events: Seq<UpEvent>, i: int, kind: spec_fn(UpAction) -> bool)
    requires
        events.len() > 0,
        done_at(req, events.drop_last(), i, kind),
    ensures
        done_at(req, events, i, kind),
{
    assert(events.drop_last().take(i) == events.take(i));
}

// ---------------------------------------------------------------------------
// Readiness
// ---------------------------------------------------------------------------

/// The action takes this container through the readiness checks, with commands
/// run like this.
pub open spec fn verification_of(id: String, run_as: RunAs) -> spec_fn(UpAction) -> bool {
    |a: UpAction| a == UpAction::VerifyUsable(id, run_as)
}

/// This container was taken through the readiness checks, with commands run like
/// this, and passed them.
#[verifier::opaque]
pub open spec fn passed(req: UpRequest, events: Seq<UpEvent>, id: String, run_as: RunAs) -> bool {
    exists|i: int| #[trigger] done_at(req, events, i, verification_of(id, run_as))
}

/// This container was taken through the readiness checks as this user, and passed
/// them.
#[verifier::opaque]
pub open spec fn passed_for(req: UpRequest, events: Seq<UpEvent>, id: String, user: Option<String>) -> bool {
    exists|run_as: RunAs| #[trigger] passed(req, events, id, run_as) && run_as.user == user
}

/// The event is a listing with a container of this id and name.
pub open spec fn lists(event: UpEvent, id: String, name: String) -> bool {
    event matches UpEvent::Listed(found) && exists|k: int|
        0 <= k < found@.len() && (#[trigger] found@[k]).id == id && found@[k].name == name
}

/// A container of this id and name was there.
#[verifier::opaque]
pub open spec fn was_there(events: Seq<UpEvent>, id: String, name: String) -> bool {
    exists|i: int| 0 <= i < events.len() && lists(#[trigger] events[i], id, name)
}

/// A container of this id was created.
#[verifier::opaque]
pub open spec fn was_created(events: Seq<UpEvent>, id: String) -> bool {
    exists|i: int| 0 <= i < events.len() && #[trigger] events[i] == UpEvent::Created(id)
}

/// This is the user that was found.
#[verifier::opaque]
pub open spec fn user_found(events: Seq<UpEvent>, user: Option<String>) -> bool {
    exists|i: int| 0 <= i < events.len() && #[trigger] events[i] == UpEvent::UserFound(user)
}

/// After the first `i` events it was asked where this user's commands are run,
/// and this was the answer.
pub open spec fn folder_found_at(req: UpRequest, events: Seq<UpEvent>, i: int, run_as: RunAs) -> bool {
    &&& 1 <= i < events.len()
    &&& step_of(req, events.take(i)).action == UpAction::ResolveWorkdir(run_as.user)
    &&& events[i] == UpEvent::FolderFound(run_as.workdir)
}

/// This is where the user's commands are run.
#[verifier::opaque]
pub open spec fn folder_found(req: UpRequest, events: Seq<UpEvent>, run_as: RunAs) -> bool {
    exists|i: int| #[trigger] folder_found_at(req, events, i, run_as)
}

/// The user is the one that was found, and the folder the one that was found for
/// that user.
pub open spec fn settled(req: UpRequest, events: Seq<UpEvent>, run_as: RunAs) -> bool {
    user_found(events, run_as.user) && folder_found(req, events, run_as)
}

/// A container of this name was there and passed the readiness checks, with
/// commands run as the user and in the folder that were found.
#[verifier::opaque]
pub open spec fn vetted_again(req: UpRequest, events: Seq<UpEvent>, name: String) -> bool {
    exists|id: String, run_as: RunAs|
        #![trigger was_there(events, id, name), passed(req, events, id, run_as)]
        was_there(events, id, name) && passed(req, events, id, run_as) && settled(req, events, run_as)
}

/// A container that was created passed the readiness checks, with commands run as
/// the user and in the folder that were found.
#[verifier::opaque]
pub open spec fn vetted_new(req: UpRequest, events: Seq<UpEvent>) -> bool {
    exists|id: String, run_as: RunAs|
        #![trigger was_created(events, id), passed(req, events, id, run_as)]
        was_created(events, id) && passed(req, events, id, run_as) && settled(req, events, run_as)
}

/// What holds of the containers that a stage speaks of.
spec fn accounted_for(req: UpRequest, events: Seq<UpEvent>, stage: Stage, action: UpAction) -> bool {
    match stage {
        Stage::ReuseUser { id, name } => was_there(events, id, name),
        Stage::RestartStart { id, name, .. } => was_there(events, id, name),
        Stage::RestartUser { id, name } => was_there(events, id, name),
        Stage::ReuseFolder { id, name, user } => was_there(events, id, name) && user_found(events, user)
            && action == UpAction::ResolveWorkdir(user),
        Stage::RestartFolder { id, name, user } => was_there(events, id, name) && user_found(events, user)
            && action == UpAction::ResolveWorkdir(user),
        Stage::ReuseVerify { id, name, run_as } => was_there(events, id, name) && settled(req, events, run_as)
            && action == UpAction::VerifyUsable(id, run_as),
        Stage::RestartVerify { id, name, run_as } => was_there(events, id, name) && settled(req, events, run_as)
            && action == UpAction::VerifyUsable(id, run_as),
        Stage::ReuseRoutes { name } => vetted_again(req, events, name),
        Stage::RestartHooks { name } => vetted_again(req, events, name),
        Stage::RestartRoutes { name } => vetted_again(req, events, name),
        Stage::Remap { user } => user_found(events, user),
        Stage::Mounts { user, .. } => user_found(events, user),
        Stage::CreateFolder { user, .. } => user_found(events, user) && action == UpAction::ResolveWorkdir(user),
        Stage::Create { run_as } => settled(req, events, run_as),
        Stage::CreateStart { id, run_as } => was_created(events, id) && settled(req, events, run_as),
        Stage::CreateVerify { id, run_as } => was_created(events, id) && settled(req, events, run_as) && action
            == UpAction::VerifyUsable(id, run_as),
        Stage::CreateHooks { id, run_as } => was_created(events, id) && settled(req, events, run_as) && passed(
            req,
            events,
            id,
            run_as,
        ),
        Stage::Dotfiles => vetted_new(req, events),
        Stage::Sites => vetted_new(req, events),
        _ => true,
    }
}

/// What is said to be ready, and what commands are run in, is accounted for.
spec fn vouched_for(req: UpRequest, events: Seq<UpEvent>, step: UpStep) -> bool {
    &&& step.notice matches Some(notice) ==> match notice {
        Notice::AlreadyRunning(name) => vetted_again(req, events, name),
        Notice::Started(name) => vetted_again(req, events, name),
        Notice::Ready(_) => vetted_new(req, events),
        _ => true,
    }
    &&& match step.action {
        UpAction::VerifyUsable(id, run_as) => settled(req, events, run_as),
        UpAction::CreateContainer(_, run_as) => settled(req, events, run_as),
        UpAction::RunStartHooks(id, run_as) => settled(req, events, run_as) && passed(req, events, id, run_as),
        UpAction::RunCreateHooks(id, run_as) => settled(req, events, run_as) && passed(req, events, id, run_as),
        UpAction::InstallDotfiles(id, user) => user_found(events, user) && passed_for(req, events, id, user),
        _ => true,
    }
}

/// What was known before the last event is known after it, and what the last
/// event adds.
proof fn still_known(req: UpRequest, events: Seq<UpEvent>)
    requires
        events.len() > 0,
    ensures
        forall|id: String, name: String| #[trigger]
            was_there(events.drop_last(), id, name) ==> was_there(events, id, name),
        forall|id: String, name: String|
            lists(events.last(), id, name) ==> #[trigger] was_there(events, id, name),
        forall|id: String| #[trigger] was_created(events.drop_last(), id) ==> was_created(events, id),
        forall|id: String| events.last() == UpEvent::Created(id) ==> #[trigger] was_created(events, id),
        forall|user: Option<String>| #[trigger]
            user_found(events.drop_last(), user) ==> user_found(events, user),
        forall|user: Option<String>|
            events.last() == UpEvent::UserFound(user) ==> #[trigger] user_found(events, user),
        forall|run_as: RunAs| #[trigger]
            folder_found(req, events.drop_last(), run_as) ==> folder_found(req, events, run_as),
        forall|run_as: RunAs|
            events.len() > 1 && step_of(req, events.drop_last()).action == UpAction::ResolveWorkdir(run_as.user)
                && events.last() == UpEvent::FolderFound(run_as.workdir) ==> #[trigger] folder_found(
                req,
                events,
                run_as,
            ),
        forall|id: String, run_as: RunAs| #[trigger]
            passed(req, events.drop_last(), id, run_as) ==> passed(req, events, id, run_as),
        forall|id: String, run_as: RunAs|
            events.len() > 1 && step_of(req, events.drop_last()).action == UpAction::VerifyUsable(id, run_as)
                && events.last() is Done ==> #[trigger] passed(req, events, id, run_as),
{
    reveal(passed);
    reveal(was_there);
    reveal(was_created);
    reveal(user_found);
    reveal(folder_found);
    let rest = events.drop_last();
    let n = events.len() - 1;
    assert(events[n] == events.last());
    assert(events.take(n) == rest);
    assert forall|id: String, name: String| #[trigger] was_there(rest, id, name) implies was_there(
        events,
        id,
        name,
    ) by {
        let i = choose|i: int| 0 <= i < rest.len() && lists(#[trigger] rest[i], id, name);
        assert(lists(events[i], id, name));
    }
    assert forall|id: String| #[trigger] was_created(rest, id) implies was_created(events, id) by {
        let i = choose|i: int| 0 <= i < rest.len() && #[trigger] rest[i] == UpEvent::Created(id);
        assert(events[i] == UpEvent::Created(id));
    }
    assert forall|user: Option<String>| #[trigger] user_found(rest, user) implies user_found(events, user) by {
        let i = choose|i: int| 0 <= i < rest.len() && #[trigger] rest[i] == UpEvent::UserFound(user);
        assert(events[i] == UpEvent::UserFound(user));
    }
    assert forall|run_as: RunAs| #[trigger] folder_found(req, rest, run_as) implies folder_found(
        req,
        events,
        run_as,
    ) by {
        let i = choose|i: int| #[trigger] folder_found_at(req, rest, i, run_as);
        assert(rest.take(i) == events.take(i));
        assert(folder_found_at(req, events, i, run_as));
    }
    assert forall|run_as: RunAs|
        events.len() > 1 && step_of(req, rest).action == UpAction::ResolveWorkdir(run_as.user) && events.last()
            == UpEvent::FolderFound(run_as.workdir) implies #[trigger] folder_found(req, events, run_as) by {
        assert(folder_found_at(req, events, n, run_as));
    }
    assert forall|id: String, run_as: RunAs| #[trigger] passed(req, rest, id, run_as) implies passed(
        req,
        events,
        id,
        run_as,
    ) by {
        let i = choose|i: int| #[trigger] done_at(req, rest, i, verification_of(id, run_as));
        done_before(req, events, i, verification_of(id, run_as));
    }
    assert forall|id: String, run_as: RunAs|
        events.len() > 1 && step_of(req, rest).action == UpAction::VerifyUsable(id, run_as)
            && events.last() is Done implies #[trigger] passed(req, events, id, run_as) by {
        assert(done_at(req, events, n, verification_of(id, run_as)));
    }
}

/// What was vetted stays vetted.
proof fn still_vetted(req: UpRequest, events: Seq<UpEvent>)
    requires
        events.len() > 0,
    ensures
        forall|name: String| #[trigger]
            vetted_again(req, events.drop_last(), name) ==> vetted_again(req, events, name),
        vetted_new(req, events.drop_last()) ==> vetted_new(req, events),
{
    reveal(vetted_again);
    reveal(vetted_new);
    still_known(req, events);
    let rest = events.drop_last();
    assert forall|name: String| #[trigger] vetted_again(req, rest, name) implies vetted_again(
        req,
        events,
        name,
    ) by {
        let (id, run_as) = choose|id: String, run_as: RunAs|
            #![trigger was_there(rest, id, name), passed(req, rest, id, run_as)]
            was_there(rest, id, name) && passed(req, rest, id, run_as) && settled(req, rest, run_as);
        assert(was_there(events, id, name) && passed(req, events, id, run_as));
    }
    if vetted_new(req, rest) {
        let (id, run_as) = choose|id: String, run_as: RunAs|
            #![trigger was_created(rest, id), passed(req, rest, id, run_as)]
            was_created(rest, id) && passed(req, rest, id, run_as) && settled(req, rest, run_as);
        assert(was_created(events, id) && passed(req, events, id, run_as));
    }
}

/// Where a stage that speaks of a container comes from.
proof fn readiness_step(req: UpRequest, up: Up, event: UpEvent)
    requires
        crate::up::flow::fits(up.stage, event),
    ensures
        ({
            let (next, step) = following(req, up, event);
            &&& match next.stage {
                Stage::ReuseUser { id, name } => lists(event, id, name),
                Stage::RestartStart { id, name, .. } => lists(event, id, name),
                Stage::RestartUser { id, name } => up.stage is RestartStart && up.stage->RestartStart_id == id
                    && up.stage->RestartStart_name == name,
                Stage::ReuseFolder { id, name, user } => up.stage == (Stage::ReuseUser { id, name }) && event
                    == UpEvent::UserFound(user) && step.action == UpAction::ResolveWorkdir(user),
                Stage::RestartFolder { id, name, user } => up.stage == (Stage::RestartUser { id, name }) && event
                    == UpEvent::UserFound(user) && step.action == UpAction::ResolveWorkdir(user),
                Stage::ReuseVerify { id, name, run_as } => up.stage == (Stage::ReuseFolder {
                    id,
                    name,
                    user: run_as.user,
                }) && event == UpEvent::FolderFound(run_as.workdir) && step.action == UpAction::VerifyUsable(
                    id,
                    run_as,
                ),
                Stage::RestartVerify { id, name, run_as } => up.stage == (Stage::RestartFolder {
                    id,
                    name,
                    user: run_as.user,
                }) && event == UpEvent::FolderFound(run_as.workdir) && step.action == UpAction::VerifyUsable(
                    id,
                    run_as,
                ),
                Stage::ReuseRoutes { name } => up.stage is ReuseVerify && up.stage->ReuseVerify_name == name
                    && event is Done,
                Stage::RestartHooks { name } => up.stage is RestartVerify && up.stage->RestartVerify_name == name
                    && event is Done && step.action == UpAction::RunStartHooks(
                    up.stage->RestartVerify_id,
                    up.stage->RestartVerify_run_as,
                ),
                Stage::RestartRoutes { name } => up.stage == (Stage::RestartHooks { name }),
                Stage::Remap { user } => event == UpEvent::UserFound(user),
                Stage::Mounts { user, .. } => up.stage == (Stage::Remap { user }),
                Stage::CreateFolder { image, user } => up.stage == (Stage::Mounts { image, user }) && step.action
                    == UpAction::ResolveWorkdir(user),
                Stage::Create { run_as } => up.stage is CreateFolder && up.stage->CreateFolder_user == run_as.user
                    && event == UpEvent::FolderFound(run_as.workdir) && step.action == UpAction::CreateContainer(
                    up.stage->CreateFolder_image,
                    run_as,
                ),
                Stage::CreateStart { id, run_as } => up.stage == (Stage::Create { run_as }) && event
                    == UpEvent::Created(id),
                Stage::CreateVerify { id, run_as } => up.stage == (Stage::CreateStart { id, run_as }) && step.action
                    == UpAction::VerifyUsable(id, run_as),
                Stage::CreateHooks { id, run_as } => up.stage == (Stage::CreateVerify { id, run_as })
                    && event is Done && step.action == UpAction::RunCreateHooks(id, run_as),
                Stage::Dotfiles => up.stage is CreateHooks && step.action == UpAction::InstallDotfiles(
                    up.stage->CreateHooks_id,
                    up.stage->CreateHooks_run_as.user,
                ),
                Stage::Sites => up.stage is CreateHooks || up.stage is Dotfiles,
                _ => true,
            }
            &&& step.notice matches Some(notice) ==> match notice {
                Notice::AlreadyRunning(name) => up.stage == (Stage::ReuseRoutes { name }),
                Notice::Started(name) => up.stage == (Stage::RestartRoutes { name }),
                Notice::Ready(_) => up.stage is CreateHooks || up.stage is Dotfiles,
                _ => true,
            }
            &&& step.action is VerifyUsable ==> next.stage is ReuseVerify || next.stage is RestartVerify
                || next.stage is CreateVerify
            &&& step.action is CreateContainer ==> next.stage is Create
            &&& step.action is RunStartHooks ==> next.stage is RestartHooks
            &&& step.action is RunCreateHooks ==> next.stage is CreateHooks
            &&& step.action is InstallDotfiles ==> next.stage is Dotfiles
        }),
{
    reveal(following);
    if let UpEvent::Listed(found) = event {
        if up.stage is ListByLabels && found@.len() > 0 {
            assert(lists(event, found@[0].id, found@[0].name));
        }
        crate::up::flow::first_unlabelled_within(found@);
        let i = crate::up::flow::first_unlabelled(found@);
        if i < found@.len() {
            assert(lists(event, found@[i].id, found@[i].name));
        }
    }
}

proof fn is_passed_for(req: UpRequest, events: Seq<UpEvent>, id: String, run_as: RunAs)
    requires
        passed(req, events, id, run_as),
    ensures
        passed_for(req, events, id, run_as.user),
{
    reveal(passed_for);
}

proof fn is_vetted_again(req: UpRequest, events: Seq<UpEvent>, id: String, name: String, run_as: RunAs)
    requires
        was_there(events, id, name),
        passed(req, events, id, run_as),
        settled(req, events, run_as),
    ensures
        vetted_again(req, events, name),
{
    reveal(vetted_again);
}

proof fn is_vetted_new(req: UpRequest, events: Seq<UpEvent>, id: String, run_as: RunAs)
    requires
        was_created(events, id),
        passed(req, events, id, run_as),
        settled(req, events, run_as),
    ensures
        vetted_new(req, events),
{
    reveal(vetted_new);
}

proof fn readiness_invariant(req: UpRequest, events: Seq<UpEvent>)
    requires
        in_turn(req, events),
    ensures
        accounted_for(req, events, after(req, events).stage, step_of(req, events).action),
        events.len() > 0 ==> vouched_for(req, events, step_of(req, events)),
    decreases events.len(),
{
    if events.len() > 0 {
        let rest = events.drop_last();
        let up = after(req, rest);
        in_turn_before(req, events);
        readiness_invariant(req, rest);
        readiness_step(req, up, events.last());
        still_known(req, events);
        still_vetted(req, events);
        match up.stage {
            Stage::ReuseVerify { id, name, run_as } => {
                if events.last() is Done {
                    is_vetted_again(req, events, id, name, run_as);
                }
            },
            Stage::RestartVerify { id, name, run_as } => {
                if events.last() is Done {
                    is_vetted_again(req, events, id, name, run_as);
                }
            },
            Stage::CreateHooks { id, run_as } => {
                is_vetted_new(req, events, id, run_as);
                is_passed_for(req, events, id, run_as);
            },
            _ => {},
        }
    }
}

/// A container that was there is said to be in use only after that container
/// passed the readiness checks, and a new one to be ready only after the one
/// that was created passed them; the checks ran their commands as the user that
/// was found, and in the folder that was found for that user.
pub proof fn readiness_is_claimed_only_past_the_gate(req: UpRequest, events: Seq<UpEvent>)
    requires
        in_turn(req, events),
        events.len() > 0,
    ensures
        step_of(req, events).notice matches Some(notice) ==> match notice {
            Notice::AlreadyRunning(name) => vetted_again(req, events, name),
            Notice::Started(name) => vetted_again(req, events, name),
            Notice::Ready(_) => vetted_new(req, events),
            _ => true,
        },
{
    readiness_invariant(req, events);
}

/// Hooks are run, and dotfiles installed, only in a container that passed the
/// readiness checks, and as those checks ran their commands.
pub proof fn hooks_run_only_past_the_gate(req: UpRequest, events: Seq<UpEvent>)
    requires
        in_turn(req, events),
        events.len() > 0,
    ensures
        match step_of(req, events).action {
            UpAction::RunStartHooks(id, run_as) => passed(req, events, id, run_as),
            UpAction::RunCreateHooks(id, run_as) => passed(req, events, id, run_as),
            UpAction::InstallDotfiles(id, user) => passed_for(req, events, id, user),
            _ => true,
        },
{
    readiness_invariant(req, events);
}

/// Whatever is run in a container is run as the user that was found, and in the
/// folder that was found for that user; the container is created for them too.
pub proof fn commands_run_as_was_resolved(req: UpRequest, events: Seq<UpEvent>)
    requires
        in_turn(req, events),
        events.len() > 0,
    ensures
        match step_of(req, events).action {
            UpAction::VerifyUsable(_, run_as) => settled(req, events, run_as),
            UpAction::CreateContainer(_, run_as) => settled(req, events, run_as),
            UpAction::RunStartHooks(_, run_as) => settled(req, events, run_as),
            UpAction::RunCreateHooks(_, run_as) => settled(req, events, run_as),
            UpAction::InstallDotfiles(_, user) => user_found(events, user),
            _ => true,
        },
{
    readiness_invariant(req, events);
}

// ---------------------------------------------------------------------------
// Validation first
// ---------------------------------------------------------------------------

/// The action changes something, or asks the runtime or a provider.
pub open spec fn touches(action: UpAction) -> bool {
    !(action is ValidateSecrets || action is ResolveRunArgs || action is LoadSecretsFile || action is Fail)
}

spec fn before_validation(stage: Stage) -> bool {
    stage is Start || stage is ComposeSecrets || stage is RunArgs || stage is SecretsFile || stage is Secrets
        || stage is Ended
}

proof fn validation_step(req: UpRequest, up: Up, event: UpEvent)
    requires
        crate::up::flow::fits(up.stage, event),
        before_validation(up.stage),
    ensures
        ({
            let (next, step) = following(req, up, event);
            !before_validation(next.stage) || touches(step.action) ==> event is SecretsValidated
        }),
{
    reveal(following);
}

proof fn validation_invariant(req: UpRequest, events: Seq<UpEvent>)
    requires
        in_turn(req, events),
    ensures
        !before_validation(after(req, events).stage) ==> exists|i: int|
            0 <= i < events.len() && #[trigger] events[i] is SecretsValidated,
    decreases events.len(),
{
    if events.len() > 0 {
        let rest = events.drop_last();
        in_turn_before(req, events);
        validation_invariant(req, rest);
        if !before_validation(after(req, rest).stage) {
            let i = choose|i: int| 0 <= i < rest.len() && #[trigger] rest[i] is SecretsValidated;
            assert(events[i] is SecretsValidated);
        } else {
            validation_step(req, after(req, rest), events.last());
            assert(events[events.len() - 1] == events.last());
        }
    }
}

/// Nothing is changed, and neither a runtime nor a provider asked for anything,
/// before every secret reference was validated.
pub proof fn nothing_is_touched_before_validation(req: UpRequest, events: Seq<UpEvent>)
    requires
        in_turn(req, events),
        events.len() > 0,
        touches(step_of(req, events).action),
    ensures
        exists|i: int| 0 <= i < events.len() && #[trigger] events[i] is SecretsValidated,
{
    let rest = events.drop_last();
    in_turn_before(req, events);
    validation_invariant(req, rest);
    if !before_validation(after(req, rest).stage) {
        let i = choose|i: int| 0 <= i < rest.len() && #[trigger] rest[i] is SecretsValidated;
        assert(events[i] is SecretsValidated);
    } else {
        validation_step(req, after(req, rest), events.last());
        assert(events[events.len() - 1] == events.last());
    }
}

// ---------------------------------------------------------------------------
// Reuse
// ---------------------------------------------------------------------------

/// A container that was there is said to be in use again.
pub open spec fn claims_reuse(step: UpStep) -> bool {
    step.notice matches Some(n) && (n is AlreadyRunning || n is Started)
}

spec fn reusing(stage: Stage) -> bool {
    stage is ReuseUser || stage is ReuseFolder || stage is ReuseVerify || stage is ReuseRoutes
        || stage is RestartStart || stage is RestartUser || stage is RestartFolder || stage is RestartVerify
        || stage is RestartHooks || stage is RestartRoutes
}

spec fn before_image(stage: Stage) -> bool {
    before_validation(stage) && !(stage is Ended) || stage is Initialize || stage is ListByLabels
        || stage is ListByFolder || reusing(stage) || stage is Stop || stage is Remove
}

/// The action is part of making a container.
pub open spec fn creates(action: UpAction) -> bool {
    action is ResolveSecrets || action is CreateContainer || action is RunCreateHooks || action is CheckImage
        || action is BuildDockerfile || action is BuildFeatures || action is RemapUser
}

proof fn reuse_step(req: UpRequest, up: Up, event: UpEvent)
    requires
        crate::up::flow::fits(up.stage, event),
    ensures
        ({
            let (next, step) = following(req, up, event);
            &&& before_image(next.stage) ==> before_image(up.stage) && !creates(step.action)
            &&& claims_reuse(step) ==> reusing(up.stage) && !creates(step.action)
            &&& reusing(next.stage) ==> crate::up::flow::reusable(req) || reusing(up.stage)
        }),
{
    reveal(following);
}

proof fn reuse_invariant(req: UpRequest, events: Seq<UpEvent>, i: int)
    requires
        in_turn(req, events),
        before_image(after(req, events).stage),
        1 <= i <= events.len(),
    ensures
        !creates(step_of(req, events.take(i)).action),
    decreases events.len(),
{
    let rest = events.drop_last();
    in_turn_before(req, events);
    reuse_step(req, after(req, rest), events.last());
    if i == events.len() {
        assert(events.take(i) == events);
    } else {
        reuse_invariant(req, rest, i);
        assert(rest.take(i) == events.take(i));
    }
}

/// Where a container that was there is used again, no provider was asked for a
/// secret, no image was built, and nothing was created.
pub proof fn reuse_creates_nothing(req: UpRequest, events: Seq<UpEvent>, i: int)
    requires
        in_turn(req, events),
        1 <= i <= events.len(),
        claims_reuse(step_of(req, events)),
    ensures
        !creates(step_of(req, events.take(i)).action),
{
    let rest = events.drop_last();
    in_turn_before(req, events);
    reuse_step(req, after(req, rest), events.last());
    if i == events.len() {
        assert(events.take(i) == events);
    } else {
        reuse_invariant(req, rest, i);
        assert(rest.take(i) == events.take(i));
    }
}

proof fn rebuild_invariant(req: UpRequest, events: Seq<UpEvent>)
    requires
        in_turn(req, events),
        !crate::up::flow::reusable(req),
    ensures
        !reusing(after(req, events).stage),
    decreases events.len(),
{
    if events.len() > 0 {
        in_turn_before(req, events);
        rebuild_invariant(req, events.drop_last());
        reuse_step(req, after(req, events.drop_last()), events.last());
    }
}

/// With `--rebuild` or `--ports` no container that was there is used again.
pub proof fn rebuild_and_ports_never_reuse(req: UpRequest, events: Seq<UpEvent>)
    requires
        in_turn(req, events),
        events.len() > 0,
        !crate::up::flow::reusable(req),
    ensures
        !claims_reuse(step_of(req, events)),
{
    in_turn_before(req, events);
    rebuild_invariant(req, events.drop_last());
    reuse_step(req, after(req, events.drop_last()), events.last());
}

/// The providers are asked only where some secrets are injected when the
/// container is created.
pub proof fn providers_are_asked_only_for_create_time_secrets(req: UpRequest, up: Up, event: UpEvent)
    requires
        crate::up::flow::fits(up.stage, event),
        following(req, up, event).1.action is ResolveSecrets,
    ensures
        up.create_time_secrets,
{
    reveal(following);
}

// ---------------------------------------------------------------------------
// Replacement
// ---------------------------------------------------------------------------

/// The action removes this container.
pub open spec fn removal_of(id: String) -> spec_fn(UpAction) -> bool {
    |a: UpAction| a == UpAction::RemoveContainer(id)
}

/// The place in a listing of the container that is taken for the workspace's: the
/// first of a listing by all labels, and the first that carries no
/// `devcontainer.config_file` label of a listing by the first label alone. The
/// listing's length or more where there is none.
pub open spec fn place_of_existing(stage: Stage, found: Seq<ContainerInfo>) -> int {
    if stage is ListByFolder {
        crate::up::flow::first_unlabelled(found)
    } else {
        0
    }
}

/// The event is a listing that shows this container as the workspace's.
pub open spec fn shows_existing(stage: Stage, event: UpEvent, id: String) -> bool {
    &&& stage is ListByLabels || stage is ListByFolder
    &&& event matches UpEvent::Listed(found) && {
        let k = place_of_existing(stage, found@);
        k < found@.len() && found@[k].id == id
    }
}

/// The listing that followed the first `i` events showed this container as the
/// workspace's.
pub open spec fn found_existing(req: UpRequest, events: Seq<UpEvent>, i: int, id: String) -> bool {
    0 <= i < events.len() && shows_existing(after(req, events.take(i)).stage, events[i], id)
}

spec fn making(stage: Stage) -> bool {
    stage is Features || stage is Present || stage is Cached || stage is Base || stage is BaseBuild
        || stage is FeatureBuild || stage is Recover || stage is CreateSecrets || stage is CreateUser
        || stage is Remap || stage is Mounts || stage is CreateFolder || stage is Create || stage is CreateStart
        || stage is CreateVerify || stage is CreateHooks || stage is Dotfiles || stage is Sites
}

spec fn holding(up: Up, step: UpStep, id: String) -> bool {
    match up.stage {
        Stage::Stop { id: it } => it == id,
        Stage::Remove => step.action == UpAction::RemoveContainer(id),
        _ => true,
    }
}

spec fn listing(stage: Stage) -> bool {
    (before_validation(stage) && !(stage is Ended)) || stage is Initialize || stage is ListByLabels
        || stage is ListByFolder
}

proof fn listing_step(req: UpRequest, up: Up, event: UpEvent)
    requires
        crate::up::flow::fits(up.stage, event),
    ensures
        ({
            let (next, step) = following(req, up, event);
            &&& listing(next.stage) ==> listing(up.stage)
            &&& forall|id: String| #[trigger]
                shows_existing(up.stage, event, id) ==> {
                    &&& !listing(next.stage)
                    &&& !making(next.stage)
                    &&& holding(next, step, id)
                }
            &&& making(next.stage) ==> making(up.stage) || listing(up.stage) || up.stage is Remove && event is Done
            &&& next.stage is Remove && !listing(up.stage) ==> up.stage is Stop && step.action
                == UpAction::RemoveContainer(up.stage->Stop_id)
            &&& next.stage is Stop ==> listing(up.stage)
            &&& step.action is CreateContainer ==> making(next.stage)
        }),
{
    reveal(following);
    if let UpEvent::Listed(found) = event {
        crate::up::flow::first_unlabelled_within(found@);
    }
}

proof fn never_listing_again(req: UpRequest, events: Seq<UpEvent>, i: int, id: String)
    requires
        in_turn(req, events),
        found_existing(req, events, i, id),
    ensures
        !listing(after(req, events).stage),
    decreases events.len(),
{
    in_turn_before(req, events);
    let rest = events.drop_last();
    listing_step(req, after(req, rest), events.last());
    if i < rest.len() {
        assert(rest.take(i) == events.take(i));
        assert(rest[i] == events[i]);
        never_listing_again(req, rest, i, id);
    } else {
        assert(events.take(i) == rest);
    }
}

proof fn replacement_invariant(req: UpRequest, events: Seq<UpEvent>, i: int, id: String)
    requires
        in_turn(req, events),
        found_existing(req, events, i, id),
    ensures
        holding(after(req, events), step_of(req, events), id),
        making(after(req, events).stage) ==> exists|j: int|
            #[trigger] done_at(req, events, j, removal_of(id)),
    decreases events.len(),
{
    in_turn_before(req, events);
    let rest = events.drop_last();
    assert(events.take(events.len() - 1) == rest);
    listing_step(req, after(req, rest), events.last());
    if i < rest.len() {
        assert(rest.take(i) == events.take(i));
        assert(rest[i] == events[i]);
        replacement_invariant(req, rest, i, id);
        never_listing_again(req, rest, i, id);
        let before = after(req, rest).stage;
        if making(before) {
            let j = choose|j: int| #[trigger] done_at(req, rest, j, removal_of(id));
            done_before(req, events, j, removal_of(id));
        } else if making(after(req, events).stage) {
            assert(done_at(req, events, events.len() - 1, removal_of(id)));
        }
    } else {
        assert(events.take(i) == rest);
    }
}

/// Where a listing showed a container of the workspace, by all of its labels or by
/// the first alone, a new one is created only after that one was removed.
pub proof fn replaced_container_is_removed_first(req: UpRequest, events: Seq<UpEvent>, i: int, id: String)
    requires
        in_turn(req, events),
        found_existing(req, events, i, id),
        step_of(req, events).action is CreateContainer,
    ensures
        exists|j: int| #[trigger] done_at(req, events, j, removal_of(id)),
{
    replacement_invariant(req, events, i, id);
    in_turn_before(req, events);
    listing_step(req, after(req, events.drop_last()), events.last());
}

// ---------------------------------------------------------------------------
// Failure
// ---------------------------------------------------------------------------

/// Whatever fails ends `dev up` with what was reported, except for sites that
/// could not be registered: those are warned about.
pub proof fn failures_end_the_run(req: UpRequest, up: Up, e: String)
    requires
        crate::up::flow::fits(up.stage, UpEvent::Failed(e)),
    ensures
        ({
            let (next, step) = following(req, up, UpEvent::Failed(e));
            &&& next.stage is Ended
            &&& if up.stage is ReuseRoutes || up.stage is RestartRoutes || up.stage is Sites {
                step.action is Finish && step.warning == Some(Notice::SitesFailed(e))
            } else {
                step.action == UpAction::Fail(Failure::Reported(e)) && step.notice is None
            }
        }),
{
    reveal(following);
}

} // verus!
